//! Font handles.

use vstd::prelude::*;

verus! {

/// A handle to a font registered with a [`crate::document::Document`]:
/// an index into the document's font table.
#[derive(Clone, Copy, Debug, PartialEq, Eq, Structural)]
pub struct Font {
    id: usize,
}

impl Font {
    /// The index this handle carries.
    pub closed spec fn id(&self) -> usize {
        self.id
    }

    pub(crate) fn from_id(id: usize) -> (r: Font)
        ensures
            r.id() == id,
    {
        Font { id }
    }

    /// The index of this font in the owning document's font table.
    pub fn handle(&self) -> (r: usize)
        ensures
            r == self.id(),
    {
        self.id
    }
}

} // verus!
