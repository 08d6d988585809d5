//! The error taxonomy shared by the whole library.

use vstd::prelude::*;

verus! {

/// The engine's status code for a graphics-state stack pushed beyond its
/// depth limit.
pub const STATUS_EXCEED_GSTATE_LIMIT: u64 = 0x1014;

/// The engine's status code for a dash pattern whose segment count is
/// neither one nor even.
pub const STATUS_INVALID_PARAM_COUNT: u64 = 0x1048;

/// The engine's status code for `grestore` with no saved state to
/// restore.
pub const STATUS_CANNOT_RESTORE_GSTATE: u64 = 0x104C;

/// The engine's status code for a font size that is zero, negative, or
/// beyond the maximum.
pub const STATUS_INVALID_FONT_SIZE: u64 = 0x1050;

/// The engine's status code for a page rotation angle that is not a
/// multiple of 90 degrees.
pub const STATUS_INVALID_ROTATE: u64 = 0x1053;

/// The engine's status code for a page width or height outside its
/// accepted range.
pub const STATUS_INVALID_SIZE: u64 = 0x1054;

/// The engine's status code for a numeric argument outside its accepted
/// range.
pub const STATUS_OUT_OF_RANGE: u64 = 0x1056;

/// How deep the engine's graphics-state stack may grow.
pub const GSTATE_DEPTH_LIMIT: usize = 28;

/// How a request to the engine, or its validation, failed.
#[derive(Clone, Copy, Debug, PartialEq, Eq, Structural)]
pub enum Error {
    /// The engine reported a nonzero status code.
    EngineRejected(u64),
    /// An object-returning engine call produced no handle.
    EngineNullHandle,
    /// An argument was rejected before any engine call was made: an
    /// embedded null byte in a string, or a numeric value that does not
    /// fit the engine's integer width.
    InvalidArgument,
}

impl Error {
    /// A short description of the error, for callers that want to print it.
    pub fn describe(&self) -> (r: &'static str)
        ensures
            r@.len() > 0,
            self is EngineRejected ==> r@ == "engine rejected the call"@,
            self is EngineNullHandle ==> r@ == "engine returned no handle"@,
            self is InvalidArgument ==> r@ == "invalid argument"@,
    {
        proof {
            reveal_strlit("engine rejected the call");
            reveal_strlit("engine returned no handle");
            reveal_strlit("invalid argument");
        }
        match self {
            Error::EngineRejected(_) => "engine rejected the call",
            Error::EngineNullHandle => "engine returned no handle",
            Error::InvalidArgument => "invalid argument",
        }
    }
}

} // verus!
