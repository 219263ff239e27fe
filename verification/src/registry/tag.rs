//! Tag keys: named group-membership labels for registry entries.

use crate::util::{IdView, Identifier};
use vstd::prelude::*;

verus! {

/// Abstract value of a [`TagKey`]: the registry it belongs to and the tag's
/// own name.
pub struct TagView {
    pub registry: IdView,
    pub id: IdView,
}

/// A key naming a tag of a registry: a group that entries of that registry
/// may belong to. The type parameter ties the tag to the registry's value
/// type at compile time; equality is by value of the two identifiers.
pub struct TagKey<T> {
    registry: Identifier,
    id: Identifier,
    _marker: core::marker::PhantomData<T>,
}

impl<T> View for TagKey<T> {
    type V = TagView;

    closed spec fn view(&self) -> TagView {
        TagView { registry: self.registry@, id: self.id@ }
    }
}

impl<T> TagKey<T> {
    /// A new tag key for the registry named `registry`.
    pub fn new(registry: Identifier, id: Identifier) -> (r: Self)
        ensures
            r@ == (TagView { registry: registry@, id: id@ }),
    {
        Self { registry, id, _marker: core::marker::PhantomData }
    }

    /// The identifier of the registry this tag belongs to.
    pub fn registry(&self) -> (r: &Identifier)
        ensures
            r@ == self@.registry,
    {
        &self.registry
    }

    /// The tag's own identifier.
    pub fn id(&self) -> (r: &Identifier)
        ensures
            r@ == self@.id,
    {
        &self.id
    }
}

impl<T> Clone for TagKey<T> {
    fn clone(&self) -> (r: Self)
        ensures
            r@ == self@,
    {
        Self {
            registry: self.registry.clone(),
            id: self.id.clone(),
            _marker: core::marker::PhantomData,
        }
    }
}

impl<T> PartialEq for TagKey<T> {
    fn eq(&self, other: &Self) -> (r: bool) {
        self.registry == other.registry && self.id == other.id
    }
}

impl<T> Eq for TagKey<T> {}

impl<T> vstd::std_specs::cmp::PartialEqSpecImpl for TagKey<T> {
    open spec fn obeys_eq_spec() -> bool {
        true
    }

    open spec fn eq_spec(&self, other: &Self) -> bool {
        self@ == other@
    }
}

} // verus!
