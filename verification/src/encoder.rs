//! Encoder handles and classifications.

use vstd::prelude::*;

verus! {

/// The kind of an encoding.
#[derive(Clone, Copy, Debug, PartialEq, Eq, Structural)]
pub enum EncoderType {
    /// One byte per character.
    SingleByte,
    /// Two bytes per character.
    DoubleByte,
    /// Not yet initialized by the engine.
    Uninitialized,
    /// Anything else.
    Unknown,
}

/// The role of one byte within encoded text.
#[derive(Clone, Copy, Debug, PartialEq, Eq, Structural)]
pub enum ByteType {
    /// A whole single-byte character.
    Single,
    /// The first byte of a two-byte character.
    Lead,
    /// The second byte of a two-byte character.
    Trial,
    /// Not part of any character.
    Unknown,
}

/// A handle to an encoder registered with a
/// [`crate::document::Document`]: an index into the document's encoder
/// table.
#[derive(Clone, Copy, Debug, PartialEq, Eq, Structural)]
pub struct Encoder {
    id: usize,
}

impl Encoder {
    /// The index this handle carries.
    pub closed spec fn id(&self) -> usize {
        self.id
    }

    pub(crate) fn from_id(id: usize) -> (r: Encoder)
        ensures
            r.id() == id,
    {
        Encoder { id }
    }

    /// The index of this encoder in the owning document's table.
    pub fn handle(&self) -> (r: usize)
        ensures
            r == self.id(),
    {
        self.id
    }
}

} // verus!
