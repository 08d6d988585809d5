//! Geometry and color value types.
//!
//! The engine measures everything in typographic points with fractional
//! values.  This library tracks the same quantities exactly, as integers
//! in thousandths: a coordinate of `1000` is one point, and a color
//! component of `1000` is the full intensity `1.0`.

use vstd::prelude::*;

verus! {

/// The scalar type of all coordinates and intensities: thousandths of
/// the engine's unit.
pub type Real = i64;

/// How many integer units make one typographic point (or one full color
/// intensity).
pub const UNIT: i64 = 1000;

/// A position on a page, in thousandths of a point.
#[derive(Clone, Copy, Debug, PartialEq, Eq, Structural)]
pub struct Point {
    /// Horizontal coordinate.
    pub x: i64,
    /// Vertical coordinate.
    pub y: i64,
}

/// An axis-aligned rectangle, in thousandths of a point.
#[derive(Clone, Copy, Debug, PartialEq, Eq, Structural)]
pub struct Rect {
    /// Left edge.
    pub left: i64,
    /// Top edge.
    pub top: i64,
    /// Right edge.
    pub right: i64,
    /// Bottom edge.
    pub bottom: i64,
}

/// An RGB color; each component ranges over `0 ..= UNIT`.
#[derive(Clone, Copy, Debug, PartialEq, Eq, Structural)]
pub struct Color {
    /// Red component.
    pub red: i64,
    /// Green component.
    pub green: i64,
    /// Blue component.
    pub blue: i64,
}

/// A CMYK color; each component ranges over `0 ..= UNIT`.
#[derive(Clone, Copy, Debug, PartialEq, Eq, Structural)]
pub struct CmykColor {
    /// Cyan component.
    pub cyan: i64,
    /// Magenta component.
    pub magenta: i64,
    /// Yellow component.
    pub yellow: i64,
    /// Keyplate (black) component.
    pub keyplate: i64,
}

/// Whether a single intensity lies in the engine's accepted range
/// `0.0 ..= 1.0`.
pub open spec fn intensity_in_range(v: i64) -> bool {
    0 <= v <= UNIT
}

impl Color {
    /// Whether every component lies in the engine's accepted range.
    pub open spec fn in_range(self) -> bool {
        intensity_in_range(self.red) && intensity_in_range(self.green) && intensity_in_range(
            self.blue,
        )
    }
}

impl CmykColor {
    /// Whether every component lies in the engine's accepted range.
    pub open spec fn in_range(self) -> bool {
        intensity_in_range(self.cyan) && intensity_in_range(self.magenta) && intensity_in_range(
            self.yellow,
        ) && intensity_in_range(self.keyplate)
    }
}

} // verus!
