//! Image handles.

use vstd::prelude::*;

verus! {

/// A handle to an image registered with a
/// [`crate::document::Document`]: an index into the document's image
/// table.
#[derive(Clone, Copy, Debug, PartialEq, Eq, Structural)]
pub struct Image {
    id: usize,
}

impl Image {
    /// The index this handle carries.
    pub closed spec fn id(&self) -> usize {
        self.id
    }

    pub(crate) fn from_id(id: usize) -> (r: Image)
        ensures
            r.id() == id,
    {
        Image { id }
    }

    /// The index of this image in the owning document's image table.
    pub fn handle(&self) -> (r: usize)
        ensures
            r == self.id(),
    {
        self.id
    }
}

} // verus!
