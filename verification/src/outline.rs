//! Outline (bookmark) handles.

use vstd::prelude::*;

verus! {

/// A handle to an outline entry registered with a
/// [`crate::document::Document`]: an index into the document's outline
/// table.
#[derive(Clone, Copy, Debug, PartialEq, Eq, Structural)]
pub struct Outline {
    id: usize,
}

impl Outline {
    /// The index this handle carries.
    pub closed spec fn id(&self) -> usize {
        self.id
    }

    pub(crate) fn from_id(id: usize) -> (r: Outline)
        ensures
            r.id() == id,
    {
        Outline { id }
    }

    /// The index of this entry in the owning document's outline table.
    pub fn handle(&self) -> (r: usize)
        ensures
            r == self.id(),
    {
        self.id
    }
}

} // verus!
