//! Namespaced identifiers and the generic freeze-once primitive.

use vstd::prelude::*;

verus! {

/// Error returned when an identifier is built from text that is empty or
/// holds a character outside the allowed set.
#[derive(Clone, Copy, Debug, PartialEq, Eq, Structural)]
pub struct IdentifierError;

/// Abstract value of an [`Identifier`]: its two components as character
/// sequences.
pub struct IdView {
    pub namespace: Seq<char>,
    pub path: Seq<char>,
}

/// Whether `c` may appear in the namespace component of an identifier.
pub open spec fn is_namespace_char(c: char) -> bool {
    c == '_' || c == '-' || ('a' <= c && c <= 'z') || ('0' <= c && c <= '9') || c == '.'
}

/// Whether `c` may appear in the path component of an identifier.
pub open spec fn is_path_char(c: char) -> bool {
    is_namespace_char(c) || c == '/'
}

/// A namespace is valid when it is non-empty and all of its characters are
/// drawn from `[a-z0-9_.-]`.
pub open spec fn valid_namespace(s: Seq<char>) -> bool {
    &&& s.len() > 0
    &&& forall|i: int| 0 <= i < s.len() ==> is_namespace_char(#[trigger] s[i])
}

/// A path is valid when it is non-empty and all of its characters are drawn
/// from `[a-z0-9/._-]`.
pub open spec fn valid_path(s: Seq<char>) -> bool {
    &&& s.len() > 0
    &&& forall|i: int| 0 <= i < s.len() ==> is_path_char(#[trigger] s[i])
}

/// A validated two-part namespaced name: the stable human-readable key for
/// all registry entries. Renders as `namespace:path`.
#[derive(Debug, Hash)]
pub struct Identifier {
    namespace: String,
    path: String,
}

impl View for Identifier {
    type V = IdView;

    closed spec fn view(&self) -> IdView {
        IdView { namespace: self.namespace@, path: self.path@ }
    }
}

impl Identifier {
    /// Both components valid; every constructor establishes this.
    pub open spec fn wf(&self) -> bool {
        valid_namespace(self@.namespace) && valid_path(self@.path)
    }

    /// Builds an identifier from its two components, rejecting empty
    /// components and characters outside the allowed sets.
    pub fn new(namespace: &str, path: &str) -> (r: Result<Self, IdentifierError>)
        ensures
            valid_namespace(namespace@) && valid_path(path@) <==> r is Ok,
            r matches Ok(id) ==> id@ == (IdView { namespace: namespace@, path: path@ })
                && id.wf(),
    {
        if Self::is_namespace_valid(namespace) && Self::is_path_valid(path) {
            Ok(Self { namespace: namespace.to_owned(), path: path.to_owned() })
        } else {
            Err(IdentifierError)
        }
    }

    fn is_namespace_valid(namespace: &str) -> (r: bool)
        ensures
            r == valid_namespace(namespace@),
    {
        let len = namespace.unicode_len();
        if len == 0 {
            return false;
        }
        for i in 0..len
            invariant
                len == namespace@.len(),
                forall|j: int| 0 <= j < i ==> is_namespace_char(#[trigger] namespace@[j]),
        {
            let c = namespace.get_char(i);
            if !(c == '_' || c == '-' || ('a' <= c && c <= 'z') || ('0' <= c && c <= '9')
                || c == '.') {
                return false;
            }
        }
        true
    }

    fn is_path_valid(path: &str) -> (r: bool)
        ensures
            r == valid_path(path@),
    {
        let len = path.unicode_len();
        if len == 0 {
            return false;
        }
        for i in 0..len
            invariant
                len == path@.len(),
                forall|j: int| 0 <= j < i ==> is_path_char(#[trigger] path@[j]),
        {
            let c = path.get_char(i);
            if !(c == '_' || c == '-' || ('a' <= c && c <= 'z') || ('0' <= c && c <= '9')
                || c == '.' || c == '/') {
                return false;
            }
        }
        true
    }

    /// Index of the first occurrence of `c` in `s` at or after `i`.
    pub open spec fn spec_find(s: Seq<char>, c: char, i: int) -> Option<int>
        decreases s.len() - i,
    {
        if i < 0 || i >= s.len() {
            None
        } else if s[i] == c {
            Some(i)
        } else {
            Self::spec_find(s, c, i + 1)
        }
    }

    /// The text that an identifier renders to: `namespace:path`.
    pub open spec fn spec_text(v: IdView) -> Seq<char> {
        v.namespace + seq![':'] + v.path
    }

    /// What parsing text with separator `c` yields: the components split on
    /// the first separator, the namespace defaulting when none occurs, and
    /// nothing when a component is invalid.
    pub open spec fn spec_split_on(s: Seq<char>, c: char) -> Option<IdView> {
        let v = match Self::spec_find(s, c, 0) {
            Some(k) => IdView {
                namespace: s.subrange(0, k),
                path: s.subrange(k + 1, s.len() as int),
            },
            None => IdView { namespace: Self::default_namespace(), path: s },
        };
        if valid_namespace(v.namespace) && valid_path(v.path) {
            Some(v)
        } else {
            None
        }
    }

    /// What parsing `namespace:path` text yields.
    pub open spec fn spec_parse(s: Seq<char>) -> Option<IdView> {
        Self::spec_split_on(s, ':')
    }

    /// The namespace assumed for bare text with no separator.
    pub open spec fn default_namespace() -> Seq<char> {
        "rimecraft"@
    }

    /// Renders the identifier as `namespace:path` text.
    pub fn to_text(&self) -> (r: String)
        ensures
            r@ == Self::spec_text(self@),
    {
        proof {
            reveal_strlit(":");
            assert(":"@ =~= seq![':']);
        }
        let mut s = self.namespace.clone();
        s.append(":");
        s.append(self.path.as_str());
        proof {
            assert(s@ =~= Self::spec_text(self@));
        }
        s
    }

    /// Splits `id` on the first occurrence of `delimiter`; when none occurs
    /// the namespace defaults. Validation is as in [`Identifier::new`].
    pub fn split_on(id: &str, delimiter: char) -> (r: Result<Self, IdentifierError>)
        ensures
            match r {
                Ok(out) => Self::spec_split_on(id@, delimiter) == Some(out@) && out.wf(),
                Err(_) => Self::spec_split_on(id@, delimiter) is None,
            },
    {
        let len = id.unicode_len();
        let mut k: usize = 0;
        let mut found = false;
        while k < len && !found
            invariant
                len == id@.len(),
                0 <= k <= len,
                found ==> k < len && id@[k as int] == delimiter,
                !found ==> Self::spec_find(id@, delimiter, 0) == Self::spec_find(
                    id@,
                    delimiter,
                    k as int,
                ),
                found ==> Self::spec_find(id@, delimiter, 0) == Some(k as int),
            decreases len - k + (if found { 0int } else { 1int }),
        {
            if id.get_char(k) == delimiter {
                found = true;
            } else {
                k += 1;
            }
        }
        if found {
            let namespace = id.substring_char(0, k);
            let path = id.substring_char(k + 1, len);
            Self::new(namespace, path)
        } else {
            proof {
                reveal_strlit("rimecraft");
            }
            Self::new("rimecraft", id)
        }
    }

    /// Parses `namespace:path` text, the namespace defaulting when no `:`
    /// occurs.
    pub fn try_parse(id: &str) -> (r: Result<Self, IdentifierError>)
        ensures
            match r {
                Ok(out) => Self::spec_parse(id@) == Some(out@) && out.wf(),
                Err(_) => Self::spec_parse(id@) is None,
            },
    {
        Self::split_on(id, ':')
    }

    /// Parses `namespace:path` text that is known to be well-formed. Malformed
    /// text is a caller error, ruled out by the precondition.
    pub fn parse(id: &str) -> (r: Self)
        requires
            Self::spec_parse(id@) is Some,
        ensures
            Some(r@) == Self::spec_parse(id@),
            r.wf(),
    {
        match Self::try_parse(id) {
            Ok(out) => out,
            // unreachable: the precondition makes try_parse succeed
            Err(_) => vstd::pervasive::unreached(),
        }
    }

    /// The namespace component.
    pub fn namespace(&self) -> (r: &str)
        ensures
            r@ == self@.namespace,
    {
        self.namespace.as_str()
    }

    /// The path component.
    pub fn path(&self) -> (r: &str)
        ensures
            r@ == self@.path,
    {
        self.path.as_str()
    }
}

/// `spec_find` returns the first occurrence: if nothing in `[i, k)` is `c`
/// and `s[k]` is, the search from `i` lands on `k`.
proof fn lemma_find_first(s: Seq<char>, c: char, i: int, k: int)
    requires
        0 <= i <= k < s.len(),
        forall|j: int| i <= j < k ==> s[j] != c,
        s[k] == c,
    ensures
        Identifier::spec_find(s, c, i) == Some(k),
    decreases k - i,
{
    if i < k {
        lemma_find_first(s, c, i + 1, k);
    }
}

/// Identifier round-trip: rendering a well-formed identifier as
/// `namespace:path` and parsing the text back yields the same identifier.
pub proof fn lemma_identifier_round_trip(id: Identifier)
    requires
        id.wf(),
    ensures
        Identifier::spec_parse(Identifier::spec_text(id@)) == Some(id@),
{
    let s = Identifier::spec_text(id@);
    let n = id@.namespace.len() as int;
    assert forall|j: int| 0 <= j < n implies s[j] != ':' by {
        assert(is_namespace_char(id@.namespace[j]));
    }
    lemma_find_first(s, ':', 0, n);
    assert(s.subrange(0, n) =~= id@.namespace);
    assert(s.subrange(n + 1, s.len() as int) =~= id@.path);
}

impl Clone for Identifier {
    fn clone(&self) -> (r: Self)
        ensures
            r@ == self@,
            r.wf() == self.wf(),
    {
        Self { namespace: self.namespace.clone(), path: self.path.clone() }
    }
}

impl PartialEq for Identifier {
    fn eq(&self, other: &Self) -> (r: bool) {
        self.namespace == other.namespace && self.path == other.path
    }
}

impl Eq for Identifier {}

impl vstd::std_specs::cmp::PartialEqSpecImpl for Identifier {
    open spec fn obeys_eq_spec() -> bool {
        true
    }

    open spec fn eq_spec(&self, other: &Self) -> bool {
        self@ == other@
    }
}

/// A variable-length-encoded 32-bit integer.
pub struct VarInt(pub i32);

impl VarInt {
    /// How many bytes the variable-length encoding of `v` occupies: one
    /// 7-bit group per byte, five bytes whenever the sign bit is set.
    pub open spec fn spec_len(v: i32) -> usize {
        if v < 0 {
            5
        } else if v < 0x80 {
            1
        } else if v < 0x4000 {
            2
        } else if v < 0x20_0000 {
            3
        } else if v < 0x1000_0000 {
            4
        } else {
            5
        }
    }

    /// The encoded length of this value in bytes.
    pub fn len(self) -> (r: usize)
        ensures
            r == Self::spec_len(self.0),
    {
        let v = self.0;
        let u = #[verifier::truncate] (v as u32);
        proof {
            assert((v as u32 & 0xFFFF_FF80u32 == 0) <==> (0 <= v < 0x80)) by (bit_vector);
            assert((v as u32 & 0xFFFF_C000u32 == 0) <==> (0 <= v < 0x4000)) by (bit_vector);
            assert((v as u32 & 0xFFE0_0000u32 == 0) <==> (0 <= v < 0x20_0000)) by (bit_vector);
            assert((v as u32 & 0xF000_0000u32 == 0) <==> (0 <= v < 0x1000_0000)) by (bit_vector);
        }
        if u & 0xFFFF_FF80 == 0 {
            1
        } else if u & 0xFFFF_C000 == 0 {
            2
        } else if u & 0xFFE0_0000 == 0 {
            3
        } else if u & 0xF000_0000 == 0 {
            4
        } else {
            5
        }
    }
}

/// A type whose values can all be enumerated, in a fixed order.
pub trait EnumValues<const N: usize>: Sized + Clone + Copy + PartialEq + Eq {
    /// Every value of the type, each exactly once.
    fn values() -> [Self; N];
}

/// A mutable seed type that can be sealed into an immutable type `T`, given
/// an options value. `pre_build` says which seeds and options may be sealed;
/// `post_build` says everything the sealed value satisfies.
pub trait Freeze<T>: Sized {
    /// Configuration handed to the seal operation.
    type Opts;

    /// When the seed may be built with these options.
    spec fn pre_build(self, opts: Self::Opts) -> bool;

    /// What the built value satisfies.
    spec fn post_build(self, opts: Self::Opts, out: T) -> bool;

    /// Builds and seals this value into `T` with the given options.
    fn build(self, opts: Self::Opts) -> (r: T)
        requires
            self.pre_build(opts),
        ensures
            self.post_build(opts, r),
    ;
}

/// Any value seals into itself with empty options.
impl<T> Freeze<T> for T {
    type Opts = ();

    open spec fn pre_build(self, opts: ()) -> bool {
        true
    }

    open spec fn post_build(self, opts: (), out: T) -> bool {
        out == self
    }

    fn build(self, _opts: ()) -> (r: T) {
        self
    }
}

/// A one-shot open-to-sealed cell: it starts open, holding a mutable seed of
/// type `M`, and at most once is sealed into an immutable value of type `I`
/// computed from the seed. Sealing twice, or reading the sealed value while
/// still open, is a caller error, ruled out by the preconditions.
pub struct Freezer<I, M = I> where M: Freeze<I> {
    mutable: Option<M>,
    immutable: Option<I>,
}

impl<I, M: Freeze<I>> Freezer<I, M> {
    /// The seed, while the freezer is open.
    pub closed spec fn spec_seed(&self) -> Option<M> {
        self.mutable
    }

    /// The sealed value, once the freezer is sealed.
    pub closed spec fn spec_frozen(&self) -> Option<I> {
        self.immutable
    }

    /// Whether this freezer has been sealed.
    pub open spec fn spec_is_freezed(&self) -> bool {
        self.spec_frozen() is Some
    }

    /// Exactly one of the two slots is occupied: the seed while open, the
    /// sealed value afterwards.
    pub open spec fn inv(&self) -> bool {
        self.spec_is_freezed() <==> self.spec_seed() is None
    }

    /// A new freezer, open, holding the given seed.
    pub fn new(mutable: M) -> (r: Self)
        ensures
            r.inv(),
            !r.spec_is_freezed(),
            r.spec_seed() == Some(mutable),
    {
        Self { mutable: Some(mutable), immutable: None }
    }

    /// Seals this freezer with the provided options: the seed is consumed and
    /// the built value is stored permanently. Sealing an already-sealed
    /// freezer is a contract violation; callers unsure of the state check
    /// [`Freezer::is_freezed`] first.
    pub fn freeze(&mut self, opts: M::Opts)
        requires
            old(self).inv(),
            !old(self).spec_is_freezed(),
            old(self).spec_seed() matches Some(m) && m.pre_build(opts),
        ensures
            final(self).inv(),
            final(self).spec_is_freezed(),
            old(self).spec_seed() matches Some(m) ==> m.post_build(
                opts,
                final(self).spec_frozen().unwrap(),
            ),
    {
        let m = match self.mutable.take() {
            Some(m) => m,
            None => vstd::pervasive::unreached(),
        };
        self.immutable = Some(m.build(opts));
    }

    /// Mutable access to the seed, while the freezer is still open: how the
    /// seed is grown before it is sealed.
    pub fn seed_mut(&mut self) -> (r: Option<&mut M>)
        ensures
            match r {
                Some(m) => old(self).spec_seed() == Some(*m) && final(self).spec_seed() == Some(
                    *final(m),
                ),
                None => old(self).spec_seed() is None && *final(self) == *old(self),
            },
            final(self).spec_frozen() == old(self).spec_frozen(),
    {
        self.mutable.as_mut()
    }

    /// Whether this freezer has already been sealed.
    pub fn is_freezed(&self) -> (r: bool)
        ensures
            r == self.spec_is_freezed(),
    {
        self.immutable.is_some()
    }

    /// The sealed value. Reading while still open is a caller error, ruled
    /// out by the precondition.
    pub fn get(&self) -> (r: &I)
        requires
            self.spec_is_freezed(),
        ensures
            Some(*r) == self.spec_frozen(),
    {
        match &self.immutable {
            Some(i) => i,
            // unreachable: the precondition says the freezer is sealed
            None => vstd::pervasive::unreached(),
        }
    }
}

} // verus!
