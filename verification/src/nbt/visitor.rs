//! Visitor callbacks for in-memory tag elements.

use super::NbtElement;
use vstd::prelude::*;

verus! {

/// A callback object that element traversal hands whole elements to.
pub trait NbtElementVisitor {
    /// Visit one element.
    fn visit(&mut self, element: &NbtElement);
}

} // verus!
