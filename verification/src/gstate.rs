//! The graphics state a page carries between drawing operations, and the
//! stack that `gsave` / `grestore` push it on and pop it from.

use crate::geom::{CmykColor, Color, UNIT};
use vstd::prelude::*;

verus! {

/// The style of line cap.
#[derive(Clone, Copy, Debug, PartialEq, Eq, Structural)]
pub enum LineCap {
    /// The line is squared off at the endpoint of the path.
    Butt,
    /// The end of a line becomes a semicircle centered on the end point.
    Round,
    /// The line continues half the stroke width beyond the end point.
    ProjectingSquare,
}

/// The style of line join.
#[derive(Clone, Copy, Debug, PartialEq, Eq, Structural)]
pub enum LineJoin {
    /// Mitered corners.
    Miter,
    /// Rounded corners.
    Round,
    /// Beveled corners.
    Bevel,
}

/// How shown text is painted.
#[derive(Clone, Copy, Debug, PartialEq, Eq, Structural)]
pub enum TextRenderingMode {
    /// Fill the glyph outlines.
    Fill,
    /// Stroke the glyph outlines.
    Stroke,
    /// Fill, then stroke.
    FillThenStroke,
    /// Paint nothing.
    Invisible,
    /// Fill and add to the clipping path.
    FillClipping,
    /// Stroke and add to the clipping path.
    StrokeClipping,
    /// Fill, stroke, and add to the clipping path.
    FillStrokeClipping,
    /// Only add to the clipping path.
    Clipping,
}

/// A painting color in one of the engine's device color spaces.
#[derive(Clone, Copy, Debug, PartialEq, Eq, Structural)]
pub enum PaintColor {
    /// A single gray intensity.
    Gray(i64),
    /// An RGB color.
    Rgb(Color),
    /// A CMYK color.
    Cmyk(CmykColor),
}

/// The font a page draws text with: a handle into the owning document's
/// font table, together with the size it was selected at.
#[derive(Clone, Copy, Debug, PartialEq, Eq, Structural)]
pub struct FontChoice {
    /// Index of the font in the owning document's font table.
    pub font_id: usize,
    /// Size in thousandths of a point.
    pub size: i64,
}

/// The slice of the engine's graphics state that this library tracks:
/// everything a getter exposes or `grestore` is promised to bring back.
#[derive(Clone, Copy, Debug, PartialEq, Eq, Structural)]
pub struct GraphicsState {
    /// Stroke width in thousandths of a point.
    pub line_width: i64,
    /// Line cap style.
    pub line_cap: LineCap,
    /// Line join style.
    pub line_join: LineJoin,
    /// Extra spacing between characters, in thousandths of a point.
    pub char_space: i64,
    /// Extra spacing between words, in thousandths of a point.
    pub word_space: i64,
    /// Horizontal scaling of text, in thousandths of a percent.
    pub horizontal_scaling: i64,
    /// Distance between text lines, in thousandths of a point.
    pub text_leading: i64,
    /// How shown text is painted.
    pub rendering_mode: TextRenderingMode,
    /// Current filling color.
    pub fill: PaintColor,
    /// Current stroking color.
    pub stroke: PaintColor,
    /// Currently selected font and size, if any was set.
    pub font: Option<FontChoice>,
}

impl GraphicsState {
    /// The state a freshly added page starts in: the engine's documented
    /// defaults.
    pub open spec fn spec_initial() -> GraphicsState {
        GraphicsState {
            line_width: UNIT,
            line_cap: LineCap::Butt,
            line_join: LineJoin::Miter,
            char_space: 0,
            word_space: 0,
            horizontal_scaling: 100000,
            text_leading: 0,
            rendering_mode: TextRenderingMode::Fill,
            fill: PaintColor::Gray(0),
            stroke: PaintColor::Gray(0),
            font: None,
        }
    }

    /// Builds the initial graphics state.
    pub fn initial() -> (r: GraphicsState)
        ensures
            r == GraphicsState::spec_initial(),
    {
        GraphicsState {
            line_width: UNIT,
            line_cap: LineCap::Butt,
            line_join: LineJoin::Miter,
            char_space: 0,
            word_space: 0,
            horizontal_scaling: 100000,
            text_leading: 0,
            rendering_mode: TextRenderingMode::Fill,
            fill: PaintColor::Gray(0),
            stroke: PaintColor::Gray(0),
            font: None,
        }
    }
}

} // verus!
