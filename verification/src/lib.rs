//! A verified model of a PDF page-description engine binding.
//!
//! The library tracks, as plain data, everything a caller asks a PDF
//! rendering engine to do: which drawing mode a page is in, the graphics
//! state and its save stack, the current text position, and the exact
//! stream of operations emitted so far.  The drawing-mode discipline —
//! text-only operations only inside a text block, path-only operations
//! never inside one — is enforced by the types and proved as an invariant
//! of the operation stream.

pub mod destination;
pub mod document;
pub mod encoder;
pub mod error;
pub mod font;
pub mod geom;
pub mod gstate;
pub mod image;
pub mod ops;
pub mod outline;
pub mod page;
