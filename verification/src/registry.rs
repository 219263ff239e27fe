//! Registries: append-only builders sealed once into immutable, densely
//! indexed lookup structures.

pub mod tag;

use crate::util::{Freeze, IdView, Identifier};
use vstd::prelude::*;

verus! {

/// The identifier under which the root registry itself is keyed.
pub fn root_key() -> (r: Identifier)
    ensures
        r@ == (IdView { namespace: "rimecraft"@, path: "root"@ }),
        r.wf(),
{
    proof {
        reveal_strlit("rimecraft");
        reveal_strlit("root");
    }
    match Identifier::new("rimecraft", "root") {
        Ok(id) => id,
        // unreachable: both components are drawn from the allowed set
        Err(_) => vstd::pervasive::unreached(),
    }
}

/// Abstract value of a [`RegistryKey`]: the identifier of the registry the
/// key belongs to, and the identifier of the value it names.
pub struct KeyView {
    pub registry: IdView,
    pub value: IdView,
}

/// A typed key for a value in a registry: a pair of the owning registry's
/// identifier and the value's own identifier. Equality is by value of the
/// pair; the type parameter is a compile-time tag only.
pub struct RegistryKey<T> {
    registry: Identifier,
    value: Identifier,
    _marker: core::marker::PhantomData<T>,
}

impl<T> View for RegistryKey<T> {
    type V = KeyView;

    closed spec fn view(&self) -> KeyView {
        KeyView { registry: self.registry@, value: self.value@ }
    }
}

impl<T> RegistryKey<T> {
    /// A key for the value named `value` in the registry that `registry`
    /// names.
    pub fn new(registry: &RegistryKey<Registry<T>>, value: Identifier) -> (r: Self)
        ensures
            r@ == (KeyView { registry: registry@.value, value: value@ }),
    {
        Self {
            registry: registry.value.clone(),
            value,
            _marker: core::marker::PhantomData,
        }
    }

    /// Whether this key belongs to the registry that `reg` names.
    pub fn is_of<E>(&self, reg: &RegistryKey<Registry<E>>) -> (r: bool)
        ensures
            r == (self@.registry == reg@.value),
    {
        self.registry == reg.value
    }

    /// Re-types this key against the registry that `reg` names: yields a key
    /// over the same pair exactly when the key belongs to that registry, and
    /// nothing otherwise.
    pub fn cast<E>(&self, reg: &RegistryKey<Registry<E>>) -> (r: Option<RegistryKey<E>>)
        ensures
            self@.registry == reg@.value <==> r is Some,
            r matches Some(k) ==> k@ == self@,
    {
        if self.is_of(reg) {
            Some(RegistryKey {
                registry: self.registry.clone(),
                value: self.value.clone(),
                _marker: core::marker::PhantomData,
            })
        } else {
            None
        }
    }

    /// The identifier of the value this key names.
    pub fn value(&self) -> (r: &Identifier)
        ensures
            r@ == self@.value,
    {
        &self.value
    }

    /// The identifier of the registry this key belongs to.
    pub fn reg(&self) -> (r: &Identifier)
        ensures
            r@ == self@.registry,
    {
        &self.registry
    }

    /// Renders the key as text for diagnostics.
    pub fn to_text(&self) -> (r: String)
        ensures
            r@ == "RegistryKey["@ + self@.registry.namespace + seq![':'] + self@.registry.path
                + " / "@ + self@.value.namespace + seq![':'] + self@.value.path + "]"@,
    {
        let mut s = String::new();
        s.append("RegistryKey[");
        s.append(self.registry.to_text().as_str());
        s.append(" / ");
        s.append(self.value.to_text().as_str());
        s.append("]");
        proof {
            assert(s@ =~= "RegistryKey["@ + self@.registry.namespace + seq![':']
                + self@.registry.path + " / "@ + self@.value.namespace + seq![':']
                + self@.value.path + "]"@);
        }
        s
    }
}

impl<T> RegistryKey<Registry<T>> {
    /// A key for a registry itself, held in the root registry.
    pub fn of_reg(reg: Identifier) -> (r: Self)
        ensures
            r@ == (KeyView {
                registry: IdView { namespace: "rimecraft"@, path: "root"@ },
                value: reg@,
            }),
    {
        Self { registry: root_key(), value: reg, _marker: core::marker::PhantomData }
    }
}

impl<T> Clone for RegistryKey<T> {
    fn clone(&self) -> (r: Self)
        ensures
            r@ == self@,
    {
        Self {
            registry: self.registry.clone(),
            value: self.value.clone(),
            _marker: core::marker::PhantomData,
        }
    }
}

impl<T> PartialEq for RegistryKey<T> {
    fn eq(&self, other: &Self) -> (r: bool) {
        self.registry == other.registry && self.value == other.value
    }
}

impl<T> Eq for RegistryKey<T> {}

impl<T> vstd::std_specs::cmp::PartialEqSpecImpl for RegistryKey<T> {
    open spec fn obeys_eq_spec() -> bool {
        true
    }

    open spec fn eq_spec(&self, other: &Self) -> bool {
        self@ == other@
    }
}

/// A value type that takes part in registration: it is told its raw id when
/// its registry is sealed, and reports it afterwards.
pub trait Registration: Sized {
    /// The raw id this value currently carries.
    spec fn spec_raw_id(&self) -> usize;

    /// The value as it stands after accepting `id`.
    spec fn spec_with_raw_id(self, id: usize) -> Self;

    /// Accepting an id determines the id subsequently reported.
    proof fn lemma_with_raw_id(self, id: usize)
        ensures
            self.spec_with_raw_id(id).spec_raw_id() == id,
    ;

    /// Accept a raw id.
    fn accept(&mut self, id: usize)
        ensures
            *final(self) == old(self).spec_with_raw_id(id),
    ;

    /// Report the raw id.
    fn raw_id(&self) -> (r: usize)
        ensures
            r == self.spec_raw_id(),
    ;
}

/// One sealed registration: a value bound to its key and to its (still
/// mutable) tag memberships. Holders are created only when a registry is
/// sealed and live as long as it does.
pub struct Holder<T> {
    key: RegistryKey<T>,
    tags: Vec<tag::TagKey<T>>,
    value: T,
}

/// The views of a sequence of tag keys, in order.
pub open spec fn tag_views<T>(ts: Seq<tag::TagKey<T>>) -> Seq<tag::TagView> {
    ts.map_values(|t: tag::TagKey<T>| t@)
}

impl<T> Holder<T> {
    /// The key of this entry.
    pub closed spec fn spec_key(&self) -> KeyView {
        self.key@
    }

    /// The tags this entry belongs to, in storage order.
    pub closed spec fn spec_tags(&self) -> Seq<tag::TagView> {
        tag_views(self.tags@)
    }

    /// The registered value.
    pub closed spec fn spec_value(&self) -> T {
        self.value
    }

    /// The key of this entry.
    pub fn key(&self) -> (r: &RegistryKey<T>)
        ensures
            r@ == self.spec_key(),
    {
        &self.key
    }

    /// The registered value.
    pub fn value(&self) -> (r: &T)
        ensures
            *r == self.spec_value(),
    {
        &self.value
    }

    /// The tags this entry belongs to.
    pub fn tags(&self) -> (r: &Vec<tag::TagKey<T>>)
        ensures
            r@.map_values(|t: tag::TagKey<T>| t@) == self.spec_tags(),
    {
        &self.tags
    }

    /// Whether this entry is in the given tag.
    pub fn is_in(&self, t: &tag::TagKey<T>) -> (r: bool)
        ensures
            r == self.spec_tags().contains(t@),
    {
        let n = self.tags.len();
        for i in 0..n
            invariant
                n == self.tags@.len(),
                forall|j: int| 0 <= j < i ==> self.spec_tags()[j] != t@,
        {
            assert(self.spec_tags()[i as int] == self.tags@[i as int]@);
            if &self.tags[i] == t {
                return true;
            }
        }
        false
    }
}

/// The immutable post-seal registry: an ordered sequence of holders, indexed
/// by raw id (position), by identifier and by typed key, with an optional
/// default entry and a tag-membership index that stays mutable.
///
/// A registry cannot be made directly; a [`Builder`] is sealed into one.
pub struct Registry<T> {
    default: Option<usize>,
    entries: Vec<Holder<T>>,
    key_registry: Identifier,
    key_value: Identifier,
    tags: Vec<(tag::TagKey<T>, Vec<usize>)>,
}

impl<T> Registry<T> {
    /// The sealed entries, in raw-id order.
    pub closed spec fn spec_entries(&self) -> Seq<Holder<T>> {
        self.entries@
    }

    /// Number of entries.
    pub open spec fn spec_len(&self) -> nat {
        self.spec_entries().len()
    }

    /// The identifier of the entry at raw id `i`.
    pub open spec fn spec_id_at(&self, i: int) -> IdView {
        self.spec_entries()[i].spec_key().value
    }

    /// The key of the entry at raw id `i`.
    pub open spec fn spec_key_at(&self, i: int) -> KeyView {
        self.spec_entries()[i].spec_key()
    }

    /// The raw id of the default entry, if one was resolved at seal time.
    pub closed spec fn spec_default(&self) -> Option<usize> {
        self.default
    }

    /// The key of this registry.
    pub closed spec fn spec_key(&self) -> KeyView {
        KeyView { registry: self.key_registry@, value: self.key_value@ }
    }

    /// The tag index: each tag with the raw ids of its members.
    pub closed spec fn spec_tags(&self) -> Seq<(tag::TagView, Seq<usize>)> {
        self.tags@.map_values(|p: (tag::TagKey<T>, Vec<usize>)| (p.0@, p.1@))
    }

    /// First position at or after `i` in `entries` whose entry has
    /// identifier `id`.
    pub open spec fn find_id_in(entries: Seq<Holder<T>>, id: IdView, i: int) -> Option<int>
        decreases entries.len() - i,
    {
        if i < 0 || i >= entries.len() {
            None
        } else if entries[i].spec_key().value == id {
            Some(i)
        } else {
            Self::find_id_in(entries, id, i + 1)
        }
    }

    /// First raw id at or after `i` whose entry has identifier `id`.
    pub open spec fn spec_find_id(&self, id: IdView, i: int) -> Option<int> {
        Self::find_id_in(self.spec_entries(), id, i)
    }

    /// The raw id holding identifier `id`, if any.
    pub open spec fn spec_lookup_id(&self, id: IdView) -> Option<int> {
        self.spec_find_id(id, 0)
    }

    /// First position at or after `i` in `entries` whose entry has key
    /// `key`.
    pub open spec fn find_key_in(entries: Seq<Holder<T>>, key: KeyView, i: int) -> Option<int>
        decreases entries.len() - i,
    {
        if i < 0 || i >= entries.len() {
            None
        } else if entries[i].spec_key() == key {
            Some(i)
        } else {
            Self::find_key_in(entries, key, i + 1)
        }
    }

    /// First raw id at or after `i` whose entry has key `key`.
    pub open spec fn spec_find_key(&self, key: KeyView, i: int) -> Option<int> {
        Self::find_key_in(self.spec_entries(), key, i)
    }

    /// The raw id holding key `key`, if any.
    pub open spec fn spec_lookup_key(&self, key: KeyView) -> Option<int> {
        self.spec_find_key(key, 0)
    }

    /// Well-formedness, established at seal time: identifiers are distinct,
    /// every entry's key belongs to this registry, the default (when present)
    /// indexes a valid entry, and every tag member is a valid raw id.
    pub open spec fn wf(&self) -> bool {
        &&& forall|i: int, j: int|
            0 <= i < j < self.spec_len() ==> self.spec_id_at(i) != self.spec_id_at(j)
        &&& forall|i: int|
            0 <= i < self.spec_len() ==> (#[trigger] self.spec_key_at(i)).registry
                == self.spec_key().value
        &&& self.spec_default() matches Some(d) ==> (d as int) < self.spec_len()
        &&& forall|t: int, k: int|
            0 <= t < self.spec_tags().len() && 0 <= k < self.spec_tags()[t].1.len()
                ==> (#[trigger] self.spec_tags()[t].1[k] as int) < self.spec_len()
    }

    /// The key of this registry.
    pub fn key(&self) -> (r: RegistryKey<Registry<T>>)
        ensures
            r@ == self.spec_key(),
    {
        RegistryKey {
            registry: self.key_registry.clone(),
            value: self.key_value.clone(),
            _marker: core::marker::PhantomData,
        }
    }

    /// Number of entries.
    pub fn len(&self) -> (r: usize)
        ensures
            r == self.spec_len(),
    {
        self.entries.len()
    }

    /// The sealed entries, in raw-id order.
    pub fn entries(&self) -> (r: &Vec<Holder<T>>)
        ensures
            r@ == self.spec_entries(),
    {
        &self.entries
    }

    /// Get an entry from its raw id.
    pub fn get_from_raw(&self, raw_id: usize) -> (r: Option<&Holder<T>>)
        ensures
            raw_id < self.spec_len() <==> r is Some,
            r matches Some(h) ==> *h == self.spec_entries()[raw_id as int],
    {
        if raw_id < self.entries.len() {
            Some(&self.entries[raw_id])
        } else {
            None
        }
    }

    /// Get an entry and its raw id from an [`Identifier`].
    pub fn get_from_id(&self, id: &Identifier) -> (r: Option<(usize, &Holder<T>)>)
        ensures
            match r {
                Some((i, h)) => self.spec_lookup_id(id@) == Some(i as int) && i
                    < self.spec_len() && self.spec_id_at(i as int) == id@ && *h
                    == self.spec_entries()[i as int],
                None => self.spec_lookup_id(id@) is None,
            },
    {
        let n = self.entries.len();
        for i in 0..n
            invariant
                n == self.spec_len(),
                self.spec_lookup_id(id@) == self.spec_find_id(id@, i as int),
        {
            if self.entries[i].key.value() == id {
                return Some((i, &self.entries[i]));
            }
        }
        None
    }

    /// Get an entry and its raw id from a [`RegistryKey`].
    pub fn get_from_key(&self, key: &RegistryKey<T>) -> (r: Option<(usize, &Holder<T>)>)
        ensures
            match r {
                Some((i, h)) => self.spec_lookup_key(key@) == Some(i as int) && i
                    < self.spec_len() && self.spec_key_at(i as int) == key@ && *h
                    == self.spec_entries()[i as int],
                None => self.spec_lookup_key(key@) is None,
            },
    {
        let n = self.entries.len();
        for i in 0..n
            invariant
                n == self.spec_len(),
                self.spec_lookup_key(key@) == self.spec_find_key(key@, i as int),
        {
            if &self.entries[i].key == key {
                return Some((i, &self.entries[i]));
            }
        }
        None
    }

    /// Whether this registry contains an entry with the given id.
    pub fn contains_id(&self, id: &Identifier) -> (r: bool)
        ensures
            r == (self.spec_lookup_id(id@) is Some),
    {
        self.get_from_id(id).is_some()
    }

    /// Whether this registry contains an entry with the given key.
    pub fn contains_ket(&self, key: &RegistryKey<T>) -> (r: bool)
        ensures
            r == (self.spec_lookup_key(key@) is Some),
    {
        self.get_from_key(key).is_some()
    }

    /// Whether a default entry exists in this registry.
    pub fn is_defaulted(&self) -> (r: bool)
        ensures
            r == (self.spec_default() is Some),
    {
        self.default.is_some()
    }

    /// First position at or after `i` in the tag index holding tag `t`.
    pub open spec fn find_tag_in(
        tags: Seq<(tag::TagView, Seq<usize>)>,
        t: tag::TagView,
        i: int,
    ) -> Option<int>
        decreases tags.len() - i,
    {
        if i < 0 || i >= tags.len() {
            None
        } else if tags[i].0 == t {
            Some(i)
        } else {
            Self::find_tag_in(tags, t, i + 1)
        }
    }

    /// The raw ids of the entries in tag `t`, if the tag is present in the
    /// index.
    pub open spec fn spec_tag_entries(&self, t: tag::TagView) -> Option<Seq<usize>> {
        match Self::find_tag_in(self.spec_tags(), t, 0) {
            Some(i) => Some(self.spec_tags()[i].1),
            None => None,
        }
    }

    /// The raw ids of the entries in tag `t`, if the tag is present in the
    /// index.
    pub fn tag_entries(&self, t: &tag::TagKey<T>) -> (r: Option<&Vec<usize>>)
        ensures
            match r {
                Some(v) => self.spec_tag_entries(t@) == Some(v@),
                None => self.spec_tag_entries(t@) is None,
            },
    {
        let n = self.tags.len();
        for i in 0..n
            invariant
                n == self.spec_tags().len(),
                Self::find_tag_in(self.spec_tags(), t@, 0) == Self::find_tag_in(
                    self.spec_tags(),
                    t@,
                    i as int,
                ),
        {
            assert(self.spec_tags()[i as int] == (self.tags@[i as int].0@, self.tags@[i as int].1@));
            if &self.tags[i].0 == t {
                return Some(&self.tags[i].1);
            }
        }
        None
    }

    /// Replaces the whole tag index in one step, so no reader of the sealed
    /// registry can observe a partial update, and rebuilds every entry's own
    /// tag cache to agree with the new index: after the call, an entry is in
    /// a tag exactly when the new index lists its raw id under that tag.
    /// Raw ids, identifiers, keys and the default are untouched.
    pub fn replace_tags(&mut self, new_tags: Vec<(tag::TagKey<T>, Vec<usize>)>)
        requires
            old(self).wf(),
            forall|t: int, k: int|
                0 <= t < new_tags@.len() && 0 <= k < new_tags@[t].1@.len() ==> (#[trigger] new_tags@[t].1@[k] as int) < old(self).spec_len(),
        ensures
            final(self).wf(),
            final(self).spec_tags() == new_tags@.map_values(
                |p: (tag::TagKey<T>, Vec<usize>)| (p.0@, p.1@),
            ),
            final(self).spec_len() == old(self).spec_len(),
            final(self).spec_key() == old(self).spec_key(),
            final(self).spec_default() == old(self).spec_default(),
            forall|i: int|
                0 <= i < old(self).spec_len() ==> (#[trigger] final(self).spec_entries()[i]).spec_key()
                    == old(self).spec_entries()[i].spec_key(),
            forall|i: int|
                0 <= i < old(self).spec_len() ==> (#[trigger] final(self).spec_entries()[i]).spec_value()
                    == old(self).spec_entries()[i].spec_value(),
            forall|i: int, tv: tag::TagView|
                0 <= i < old(self).spec_len() ==> ((#[trigger] final(self).spec_entries()[i].spec_tags().contains(
                    tv,
                )) <==> exists|t: int|
                    0 <= t < new_tags@.len() && (#[trigger] new_tags@[t].0)@ == tv
                        && new_tags@[t].1@.contains(i as usize)),
    {
        let ghost old_entries = old(self).spec_entries();
        let mut src: Vec<Holder<T>> = Vec::new();
        core::mem::swap(&mut self.entries, &mut src);
        let n = src.len();
        let m = new_tags.len();
        let mut rebuilt: Vec<Holder<T>> = Vec::new();
        while rebuilt.len() < n
            invariant
                n == old_entries.len() <= usize::MAX,
                m == new_tags@.len(),
                rebuilt@.len() + src@.len() == n,
                src@ == old_entries.subrange(rebuilt@.len() as int, n as int),
                forall|j: int|
                    0 <= j < rebuilt@.len() ==> (#[trigger] rebuilt@[j]).spec_key()
                        == old_entries[j].spec_key(),
                forall|j: int|
                    0 <= j < rebuilt@.len() ==> (#[trigger] rebuilt@[j]).spec_value()
                        == old_entries[j].spec_value(),
                forall|j: int, tv: tag::TagView|
                    0 <= j < rebuilt@.len() ==> ((#[trigger] rebuilt@[j].spec_tags().contains(tv))
                        <==> exists|t: int|
                        0 <= t < m && (#[trigger] new_tags@[t].0)@ == tv && new_tags@[t].1@.contains(
                            j as usize,
                        )),
            decreases n - rebuilt@.len(),
        {
            let i = rebuilt.len();
            proof {
                assert(src@[0] == old_entries[i as int]);
            }
            let mut h = src.remove(0);
            let mut ts: Vec<tag::TagKey<T>> = Vec::new();
            for t in 0..m
                invariant
                    m == new_tags@.len(),
                    forall|tv: tag::TagView|
                        (#[trigger] tag_views(ts@).contains(tv)) <==> exists|u: int|
                            0 <= u < t && (#[trigger] new_tags@[u].0)@ == tv
                                && new_tags@[u].1@.contains(i),
            {
                let ghost prev = ts@;
                if contains_usize(&new_tags[t].1, i) {
                    ts.push(new_tags[t].0.clone());
                    proof {
                        assert(tag_views(ts@) =~= tag_views(prev).push(new_tags@[t as int].0@));
                        assert forall|tv: tag::TagView| #[trigger]
                            tag_views(ts@).contains(tv) implies exists|u: int|
                            0 <= u < t + 1 && (#[trigger] new_tags@[u].0)@ == tv
                                && new_tags@[u].1@.contains(i) by {
                            let k = choose|k: int|
                                0 <= k < tag_views(ts@).len() && tag_views(ts@)[k] == tv;
                            if k < prev.len() {
                                assert(tag_views(prev).contains(tv));
                            } else {
                                assert((new_tags@[t as int].0)@ == tv);
                                assert(new_tags@[t as int].1@.contains(i));
                            }
                        }
                        assert forall|tv: tag::TagView|
                            (exists|u: int|
                                0 <= u < t + 1 && (#[trigger] new_tags@[u].0)@ == tv
                                    && new_tags@[u].1@.contains(i)) implies tag_views(
                            ts@,
                        ).contains(tv) by {
                            let u = choose|u: int|
                                0 <= u < t + 1 && (#[trigger] new_tags@[u].0)@ == tv
                                    && new_tags@[u].1@.contains(i);
                            if u < t {
                                assert(tag_views(prev).contains(tv));
                                let k = choose|k: int|
                                    0 <= k < tag_views(prev).len() && tag_views(prev)[k] == tv;
                                assert(tag_views(ts@)[k] == tv);
                            } else {
                                assert(tag_views(ts@)[prev.len() as int] == tv);
                            }
                        }
                    }
                } else {
                    proof {
                        assert forall|tv: tag::TagView|
                            (exists|u: int|
                                0 <= u < t + 1 && (#[trigger] new_tags@[u].0)@ == tv
                                    && new_tags@[u].1@.contains(i)) implies tag_views(
                            ts@,
                        ).contains(tv) by {
                            let u = choose|u: int|
                                0 <= u < t + 1 && (#[trigger] new_tags@[u].0)@ == tv
                                    && new_tags@[u].1@.contains(i);
                            assert(u < t);
                        }
                    }
                }
            }
            h.tags = ts;
            rebuilt.push(h);
        }
        core::mem::swap(&mut self.entries, &mut rebuilt);
        self.tags = new_tags;
        proof {
            assert forall|i: int, j: int|
                0 <= i < j < self.spec_len() implies self.spec_id_at(i) != self.spec_id_at(j) by {
                assert(self.spec_entries()[i].spec_key() == old_entries[i].spec_key());
                assert(self.spec_entries()[j].spec_key() == old_entries[j].spec_key());
                assert(old(self).spec_id_at(i) != old(self).spec_id_at(j));
            }
            assert forall|i: int|
                0 <= i < self.spec_len() implies (#[trigger] self.spec_key_at(i)).registry
                == self.spec_key().value by {
                assert(self.spec_entries()[i].spec_key() == old_entries[i].spec_key());
                assert(old(self).spec_key_at(i).registry == old(self).spec_key().value);
            }
            assert(self.spec_tags() =~= new_tags@.map_values(
                |p: (tag::TagKey<T>, Vec<usize>)| (p.0@, p.1@),
            ));
            assert forall|t: int, k: int|
                0 <= t < self.spec_tags().len() && 0 <= k < self.spec_tags()[t].1.len() implies (
            #[trigger] self.spec_tags()[t].1[k] as int) < self.spec_len() by {
                assert(self.spec_tags()[t] == (new_tags@[t].0@, new_tags@[t].1@));
            }
            assert(self.wf());
        }
    }

    /// The default entry of this registry. Calling this with no default
    /// configured is a caller error, ruled out by the precondition; callers
    /// unsure of the state check [`Registry::is_defaulted`] first.
    pub fn default_entry(&self) -> (r: (usize, &Holder<T>))
        requires
            self.wf(),
            self.spec_default() is Some,
        ensures
            Some(r.0) == self.spec_default(),
            *r.1 == self.spec_entries()[r.0 as int],
    {
        let def = match self.default {
            Some(d) => d,
            // unreachable: the precondition says a default exists
            None => vstd::pervasive::unreached(),
        };
        match self.get_from_raw(def) {
            Some(h) => (def, h),
            // unreachable: well-formedness puts the default in range
            None => vstd::pervasive::unreached(),
        }
    }
}

/// The pre-seal, append-only collector of values and their identifiers.
pub struct Builder<T: Registration> {
    entries: Vec<(T, Identifier)>,
}

/// Error returned when a builder rejects a registration.
#[derive(Debug)]
pub enum RegistryError {
    /// An entry with this identifier is already registered.
    DuplicateId(Identifier),
}

impl<T: Registration> Builder<T> {
    /// The collected entries, in registration order.
    pub closed spec fn spec_entries(&self) -> Seq<(T, Identifier)> {
        self.entries@
    }

    /// Whether some collected entry has identifier `id`.
    pub open spec fn spec_has_id(&self, id: IdView) -> bool {
        exists|i: int| 0 <= i < self.spec_entries().len()
            && (#[trigger] self.spec_entries()[i].1)@ == id
    }

    /// Collected identifiers are distinct; `new` establishes this and
    /// `register` preserves it.
    pub open spec fn wf(&self) -> bool {
        forall|i: int, j: int|
            0 <= i < j < self.spec_entries().len() ==> (#[trigger] self.spec_entries()[i].1)@ != (
            #[trigger] self.spec_entries()[j].1)@
    }

    /// An empty builder.
    pub fn new() -> (r: Self)
        ensures
            r.spec_entries().len() == 0,
            r.wf(),
    {
        Self { entries: Vec::new() }
    }

    /// Registers a value under `id` and returns the raw id the entry will
    /// have once sealed: its position, in registration order. Fails, leaving
    /// the builder unchanged, exactly when `id` is already taken.
    pub fn register(&mut self, value: T, id: Identifier) -> (r: Result<usize, RegistryError>)
        requires
            old(self).wf(),
        ensures
            final(self).wf(),
            match r {
                Ok(raw) => !old(self).spec_has_id(id@) && raw == old(self).spec_entries().len()
                    && final(self).spec_entries() == old(self).spec_entries().push((value, id)),
                Err(e) => old(self).spec_has_id(id@) && final(self).spec_entries() == old(
                    self,
                ).spec_entries() && (e matches RegistryError::DuplicateId(d) && d@ == id@),
            },
    {
        let n = self.entries.len();
        for i in 0..n
            invariant
                *self == *old(self),
                self.wf(),
                n == self.spec_entries().len(),
                forall|j: int| 0 <= j < i ==> (#[trigger] self.spec_entries()[j].1)@ != id@,
        {
            if &self.entries[i].1 == &id {
                return Err(RegistryError::DuplicateId(id));
            }
        }
        self.entries.push((value, id));
        Ok(self.entries.len() - 1)
    }
}

/// Whether `v` holds `x`.
fn contains_usize(v: &Vec<usize>, x: usize) -> (r: bool)
    ensures
        r == v@.contains(x),
{
    let n = v.len();
    for i in 0..n
        invariant
            n == v@.len(),
            forall|j: int| 0 <= j < i ==> v@[j] != x,
    {
        if v[i] == x {
            return true;
        }
    }
    false
}

/// Sealing a builder produces a registry: entries keep their registration
/// order as raw ids, each value accepts its raw id, each entry is keyed under
/// the registry's key, and the optional default identifier resolves through
/// the sealed entries — silently absent when never registered.
impl<T: Registration> Freeze<Registry<T>> for Builder<T> {
    type Opts = (RegistryKey<Registry<T>>, Option<Identifier>);

    open spec fn pre_build(self, opts: Self::Opts) -> bool {
        self.wf()
    }

    open spec fn post_build(self, opts: Self::Opts, out: Registry<T>) -> bool {
        let n = self.spec_entries().len();
        &&& out.spec_len() == n
        &&& out.spec_key() == opts.0@
        &&& forall|i: int|
            0 <= i < n ==> (#[trigger] out.spec_entries()[i]).spec_value()
                == self.spec_entries()[i].0.spec_with_raw_id(i as usize)
        &&& forall|i: int|
            0 <= i < n ==> #[trigger] out.spec_key_at(i) == (KeyView {
                registry: opts.0@.value,
                value: self.spec_entries()[i].1@,
            })
        &&& forall|i: int|
            0 <= i < n ==> (#[trigger] out.spec_entries()[i]).spec_tags().len() == 0
        &&& match opts.1 {
            Some(d) => match out.spec_lookup_id(d@) {
                Some(i) => out.spec_default() == Some(i as usize),
                None => out.spec_default() is None,
            },
            None => out.spec_default() is None,
        }
        &&& out.spec_tags().len() == 0
        &&& out.wf()
    }

    fn build(self, opts: Self::Opts) -> (out: Registry<T>) {
        let (reg_key, default_id) = opts;
        let ghost bentries = self.spec_entries();
        let mut src = self.entries;
        let n_total = src.len();
        proof {
            assert(bentries.len() == n_total);
            assert(bentries.subrange(0, bentries.len() as int) =~= bentries);
        }
        let mut entries: Vec<Holder<T>> = Vec::new();
        while src.len() > 0
            invariant
                reg_key@ == opts.0@,
                bentries.len() <= usize::MAX,
                entries@.len() + src@.len() == bentries.len(),
                src@ == bentries.subrange(entries@.len() as int, bentries.len() as int),
                forall|j: int|
                    0 <= j < entries@.len() ==> (#[trigger] entries@[j]).spec_value()
                        == bentries[j].0.spec_with_raw_id(j as usize),
                forall|j: int|
                    0 <= j < entries@.len() ==> (#[trigger] entries@[j]).spec_key() == (KeyView {
                        registry: opts.0@.value,
                        value: bentries[j].1@,
                    }),
                forall|j: int|
                    0 <= j < entries@.len() ==> (#[trigger] entries@[j]).spec_tags().len() == 0,
            decreases src@.len(),
        {
            let i = entries.len();
            proof {
                assert(src@[0] == bentries[i as int]);
            }
            let (mut v, id) = src.remove(0);
            v.accept(i);
            let key = RegistryKey::new(&reg_key, id);
            entries.push(Holder { key, tags: Vec::new(), value: v });
            proof {
                assert(src@ =~= bentries.subrange(entries@.len() as int, bentries.len() as int));
            }
        }
        let mut out = Registry {
            default: None,
            entries,
            key_registry: reg_key.registry,
            key_value: reg_key.value,
            tags: Vec::new(),
        };
        proof {
            assert(out.spec_len() == bentries.len());
            assert(out.spec_key() == opts.0@);
            assert(out.spec_tags() =~= Seq::<(tag::TagView, Seq<usize>)>::empty());
            assert forall|i: int, j: int|
                0 <= i < j < out.spec_len() implies out.spec_id_at(i) != out.spec_id_at(j) by {
                assert(bentries[i].1@ != bentries[j].1@);
            }
            assert(out.wf());
        }
        if let Some(d) = &default_id {
            match out.get_from_id(d) {
                Some((i, _h)) => {
                    out.default = Some(i);
                },
                None => {},
            }
        }
        proof {
            assert(out.spec_len() == bentries.len());
            assert(out.spec_key() == opts.0@);
            assert(forall|i: int|
                0 <= i < bentries.len() ==> (#[trigger] out.spec_entries()[i]).spec_value()
                    == bentries[i].0.spec_with_raw_id(i as usize));
            assert(forall|i: int|
                0 <= i < bentries.len() ==> #[trigger] out.spec_key_at(i) == (KeyView {
                    registry: opts.0@.value,
                    value: bentries[i].1@,
                }));
            assert(forall|i: int|
                0 <= i < bentries.len() ==> (#[trigger] out.spec_entries()[i]).spec_tags().len()
                    == 0);
            assert(out.spec_tags().len() == 0);
            assert(out.wf());
        }
        out
    }
}

/// `spec_find_id` returns the first occurrence: if no entry in `[i, k)` has
/// identifier `id` and the entry at `k` does, the search from `i` lands on
/// `k`.
proof fn lemma_find_id_first<T>(reg: Registry<T>, id: IdView, i: int, k: int)
    requires
        0 <= i <= k < reg.spec_len(),
        forall|j: int| i <= j < k ==> reg.spec_id_at(j) != id,
        reg.spec_id_at(k) == id,
    ensures
        reg.spec_find_id(id, i) == Some(k),
    decreases k - i,
{
    if i < k {
        lemma_find_id_first(reg, id, i + 1, k);
        assert(reg.spec_id_at(i) != id);
        assert(Registry::find_id_in(reg.spec_entries(), id, i) == Registry::find_id_in(
            reg.spec_entries(),
            id,
            i + 1,
        ));
    } else {
        assert(Registry::find_id_in(reg.spec_entries(), id, k) == Some(k));
    }
}

/// `spec_find_key` returns the first occurrence, as `spec_find_id` does.
proof fn lemma_find_key_first<T>(reg: Registry<T>, key: KeyView, i: int, k: int)
    requires
        0 <= i <= k < reg.spec_len(),
        forall|j: int| i <= j < k ==> reg.spec_key_at(j) != key,
        reg.spec_key_at(k) == key,
    ensures
        reg.spec_find_key(key, i) == Some(k),
    decreases k - i,
{
    if i < k {
        lemma_find_key_first(reg, key, i + 1, k);
        assert(reg.spec_key_at(i) != key);
        assert(Registry::find_key_in(reg.spec_entries(), key, i) == Registry::find_key_in(
            reg.spec_entries(),
            key,
            i + 1,
        ));
    } else {
        assert(Registry::find_key_in(reg.spec_entries(), key, k) == Some(k));
    }
}

/// Bijection invariant: in a well-formed registry, looking up the identifier
/// of the entry at raw id `i` yields `i` again, and likewise for its key.
pub proof fn lemma_registry_bijection<T>(reg: Registry<T>, i: int)
    requires
        reg.wf(),
        0 <= i < reg.spec_len(),
    ensures
        reg.spec_lookup_id(reg.spec_id_at(i)) == Some(i),
        reg.spec_lookup_key(reg.spec_key_at(i)) == Some(i),
{
    lemma_find_id_first(reg, reg.spec_id_at(i), 0, i);
    assert forall|j: int| 0 <= j < i implies reg.spec_key_at(j) != reg.spec_key_at(i) by {
        assert(reg.spec_id_at(j) != reg.spec_id_at(i));
    }
    lemma_find_key_first(reg, reg.spec_key_at(i), 0, i);
}

/// A freezable registry: a builder sealed at most once into a registry.
pub type Freezer<T> = crate::util::Freezer<Registry<T>, Builder<T>>;

} // verus!

