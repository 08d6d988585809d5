//! The stream of operations a page sends to the engine, and the
//! text-bracket discipline every valid stream obeys.
//!
//! A page's content is modeled as the exact sequence of engine calls
//! emitted so far.  The one structural rule the engine itself enforces —
//! a text block is opened by `BeginText`, closed by `EndText`, text
//! operations happen only inside one and path operations never do — is
//! captured by [`stream_valid`] and proved to hold of every stream this
//! library produces.

use crate::geom::{CmykColor, Color, Point, Rect};
use crate::gstate::{LineCap, LineJoin, TextRenderingMode};
use vstd::prelude::*;

verus! {

/// A predefined page size.
#[derive(Clone, Copy, Debug, PartialEq, Eq, Structural)]
pub enum PageSize {
    /// 8.5 x 11 inches, 612 x 792 points.
    Letter,
    /// 8.5 x 14 inches, 612 x 1008 points.
    Legal,
    /// 297 x 420 mm, 841.89 x 1190.551 points.
    A3,
    /// 210 x 297 mm, 595.276 x 841.89 points.
    A4,
    /// 148 x 210 mm, 419.528 x 595.276 points.
    A5,
    /// 250 x 353 mm, 708.661 x 1000.63 points.
    B4,
    /// 176 x 250 mm, 498.898 x 708.661 points.
    B5,
    /// 7.5 x 10.5 inches, 522 x 756 points.
    Executive,
    /// 4 x 6 inches, 288 x 432 points.
    US4x6,
    /// 4 x 8 inches, 288 x 576 points.
    US4x8,
    /// 5 x 7 inches, 360 x 504 points.
    US5x7,
    /// 4.125 x 9.5 inches, 297 x 684 points.
    Comm10,
}

impl PageSize {
    /// The portrait dimensions of this size, in thousandths of a point,
    /// as the engine's predefined table gives them.
    pub open spec fn spec_dimensions(self) -> (i64, i64) {
        match self {
            PageSize::Letter => (612000, 792000),
            PageSize::Legal => (612000, 1008000),
            PageSize::A3 => (841890, 1190551),
            PageSize::A4 => (595276, 841890),
            PageSize::A5 => (419528, 595276),
            PageSize::B4 => (708661, 1000630),
            PageSize::B5 => (498898, 708661),
            PageSize::Executive => (522000, 756000),
            PageSize::US4x6 => (288000, 432000),
            PageSize::US4x8 => (288000, 576000),
            PageSize::US5x7 => (360000, 504000),
            PageSize::Comm10 => (297000, 684000),
        }
    }

    /// The portrait width and height of this size, in thousandths of a
    /// point.
    pub fn dimensions(self) -> (r: (i64, i64))
        ensures
            r == self.spec_dimensions(),
    {
        match self {
            PageSize::Letter => (612000, 792000),
            PageSize::Legal => (612000, 1008000),
            PageSize::A3 => (841890, 1190551),
            PageSize::A4 => (595276, 841890),
            PageSize::A5 => (419528, 595276),
            PageSize::B4 => (708661, 1000630),
            PageSize::B5 => (498898, 708661),
            PageSize::Executive => (522000, 756000),
            PageSize::US4x6 => (288000, 432000),
            PageSize::US4x8 => (288000, 576000),
            PageSize::US5x7 => (360000, 504000),
            PageSize::Comm10 => (297000, 684000),
        }
    }
}

/// Orientation of a predefined page size.
#[derive(Clone, Copy, Debug, PartialEq, Eq, Structural)]
pub enum PageDirection {
    /// The longer side runs vertically.
    Portrait,
    /// The longer side runs horizontally.
    Landscape,
}

/// Alignment of text laid out inside a rectangle.
#[derive(Clone, Copy, Debug, PartialEq, Eq, Structural)]
pub enum TextAlignment {
    /// Left alignment.
    Left,
    /// Right alignment.
    Right,
    /// Center alignment.
    Center,
    /// Justified alignment.
    Justify,
}

/// One operation sent to the engine, with every argument it carries.
/// Coordinates, widths and intensities are in thousandths; text is the
/// exact byte sequence that will be handed to the engine.
#[derive(Debug)]
pub enum PageOp {
    /// Set the stroke width.
    SetLineWidth(i64),
    /// Set the line cap style.
    SetLineCap(LineCap),
    /// Set the line join style.
    SetLineJoin(LineJoin),
    /// Set the dash pattern: segment lengths in points, and the phase.
    SetDash(Vec<u16>, u32),
    /// Reset to a solid line.
    ClearDash,
    /// Set character spacing.
    SetCharSpace(i64),
    /// Set word spacing.
    SetWordSpace(i64),
    /// Set horizontal scaling of text.
    SetHorizontalScaling(i64),
    /// Set the distance between text lines.
    SetTextLeading(i64),
    /// Select a font (by its table index) at a size.
    SetFontAndSize(usize, i64),
    /// Set how shown text is painted.
    SetTextRenderingMode(TextRenderingMode),
    /// Set the filling color to a gray intensity.
    SetGrayFill(i64),
    /// Set the stroking color to a gray intensity.
    SetGrayStroke(i64),
    /// Set the filling color to an RGB color.
    SetRgbFill(Color),
    /// Set the stroking color to an RGB color.
    SetRgbStroke(Color),
    /// Set the filling color to a CMYK color.
    SetCmykFill(CmykColor),
    /// Set the stroking color to a CMYK color.
    SetCmykStroke(CmykColor),
    /// Push the graphics state.
    GSave,
    /// Pop the graphics state.
    GRestore,
    /// Open a text block.
    BeginText,
    /// Close the text block.
    EndText,
    /// Offset the text position by the given amounts.
    MoveTextPos(Point),
    /// Offset the text position and make the offset the line leading.
    MoveTextPos2(Point),
    /// Set the text transformation matrix.
    SetTextMatrix(i64, i64, i64, i64, i64, i64),
    /// Move the text position to the start of the next line.
    MoveToNextLine,
    /// Show text at the current text position.
    ShowText(Vec<u8>),
    /// Move to the next line, then show text.
    ShowTextNextLine(Vec<u8>),
    /// Move to the next line, set word and character spacing, then show
    /// text.
    ShowTextNextLineEx(i64, i64, Vec<u8>),
    /// Move the text position to a point, then show text.
    TextOut(Point, Vec<u8>),
    /// Lay text out inside a rectangle with the given alignment.
    TextRect(Rect, Vec<u8>, TextAlignment),
    /// Start a new subpath at a point.
    MoveTo(Point),
    /// Extend the current subpath with a line.
    LineTo(Point),
    /// Append a Bezier curve with three control points.
    CurveTo(Point, Point, Point),
    /// Append a Bezier curve whose first control point is the current
    /// point.
    CurveTo2(Point, Point),
    /// Append a Bezier curve whose second control point equals its end
    /// point.
    CurveTo3(Point, Point),
    /// Append a rectangle: corner, width, height.
    Rectangle(Point, i64, i64),
    /// Append a circle: center and radius.
    Circle(Point, i64),
    /// Append an arc: center, radius, start and end angle in thousandths
    /// of a degree.
    Arc(Point, i64, i64, i64),
    /// Stroke the current path and clear it.
    Stroke,
    /// Fill the current path and clear it.
    Fill,
    /// Fill, then stroke, the current path and clear it.
    FillStroke,
    /// Intersect the clipping region with the current path and clear it.
    Clip,
    /// Set the page width.
    SetWidth(i64),
    /// Set the page height.
    SetHeight(i64),
    /// Set the page to a predefined size and orientation.
    SetSize(PageSize, PageDirection),
    /// Rotate the page by a multiple of 90 degrees.
    SetRotate(u16),
}

/// Whether an operation is meaningful only inside an open text block.
pub open spec fn op_needs_open(op: PageOp) -> bool {
    match op {
        PageOp::EndText => true,
        PageOp::MoveTextPos(..) => true,
        PageOp::MoveTextPos2(..) => true,
        PageOp::SetTextMatrix(..) => true,
        PageOp::MoveToNextLine => true,
        PageOp::ShowText(..) => true,
        PageOp::ShowTextNextLine(..) => true,
        PageOp::ShowTextNextLineEx(..) => true,
        PageOp::TextOut(..) => true,
        PageOp::TextRect(..) => true,
        _ => false,
    }
}

/// Whether an operation is meaningful only outside any text block.
pub open spec fn op_needs_closed(op: PageOp) -> bool {
    match op {
        PageOp::BeginText => true,
        PageOp::SetLineWidth(..) => true,
        PageOp::MoveTo(..) => true,
        PageOp::LineTo(..) => true,
        PageOp::CurveTo(..) => true,
        PageOp::CurveTo2(..) => true,
        PageOp::CurveTo3(..) => true,
        PageOp::Rectangle(..) => true,
        PageOp::Circle(..) => true,
        PageOp::Arc(..) => true,
        PageOp::Stroke => true,
        PageOp::Fill => true,
        PageOp::FillStroke => true,
        PageOp::Clip => true,
        PageOp::SetWidth(..) => true,
        PageOp::SetHeight(..) => true,
        PageOp::SetSize(..) => true,
        PageOp::SetRotate(..) => true,
        _ => false,
    }
}

/// Whether an operation may be emitted while a text block is (`open`) or
/// is not open.
pub open spec fn op_legal(op: PageOp, open: bool) -> bool {
    (op_needs_open(op) ==> open) && (op_needs_closed(op) ==> !open)
}

/// Whether a text block is open after emitting `op`, given whether one
/// was open before.
pub open spec fn open_step(op: PageOp, open: bool) -> bool {
    match op {
        PageOp::BeginText => true,
        PageOp::EndText => false,
        _ => open,
    }
}

/// Whether a text block is open after the whole stream `ops`, starting
/// from openness `open0`.
pub open spec fn open_after(ops: Seq<PageOp>, open0: bool) -> bool
    decreases ops.len(),
{
    if ops.len() == 0 {
        open0
    } else {
        open_step(ops.last(), open_after(ops.drop_last(), open0))
    }
}

/// Whether every operation of `ops` is legal at the point where it
/// stands, starting from openness `open0`.
pub open spec fn stream_valid(ops: Seq<PageOp>, open0: bool) -> bool
    decreases ops.len(),
{
    if ops.len() == 0 {
        true
    } else {
        stream_valid(ops.drop_last(), open0) && op_legal(
            ops.last(),
            open_after(ops.drop_last(), open0),
        )
    }
}

/// How many `BeginText` operations a stream holds.
pub open spec fn begin_count(ops: Seq<PageOp>) -> int
    decreases ops.len(),
{
    if ops.len() == 0 {
        0
    } else {
        begin_count(ops.drop_last()) + if ops.last() is BeginText {
            1int
        } else {
            0int
        }
    }
}

/// How many `EndText` operations a stream holds.
pub open spec fn end_count(ops: Seq<PageOp>) -> int
    decreases ops.len(),
{
    if ops.len() == 0 {
        0
    } else {
        end_count(ops.drop_last()) + if ops.last() is EndText {
            1int
        } else {
            0int
        }
    }
}

/// Whether a byte sequence holds an embedded null byte.  The engine
/// takes null-terminated strings, so such text cannot be handed to it.
pub open spec fn has_nul(b: Seq<u8>) -> bool {
    exists|i: int| 0 <= i < b.len() && b[i] == 0u8
}

/// Scans a byte slice for an embedded null byte.
pub fn contains_nul(b: &[u8]) -> (r: bool)
    ensures
        r == has_nul(b@),
{
    let n = b.len();
    let mut i: usize = 0;
    while i < n
        invariant
            n == b@.len(),
            0 <= i <= n,
            forall|j: int| 0 <= j < i ==> #[trigger] b@[j] != 0u8,
        decreases n - i,
    {
        if b[i] == 0 {
            return true;
        }
        i += 1;
    }
    false
}

/// Appending one operation extends validity and openness pointwise.
pub broadcast proof fn lemma_stream_push(ops: Seq<PageOp>, open0: bool, op: PageOp)
    ensures
        #![trigger stream_valid(ops.push(op), open0)]
        #![trigger open_after(ops.push(op), open0)]
        stream_valid(ops.push(op), open0) == (stream_valid(ops, open0) && op_legal(
            op,
            open_after(ops, open0),
        )),
        open_after(ops.push(op), open0) == open_step(op, open_after(ops, open0)),
{
    assert(ops.push(op).drop_last() =~= ops);
    assert(ops.push(op).last() == op);
}

/// A valid stream that starts and ends outside a text block holds as
/// many `BeginText` operations as `EndText` operations; while a block is
/// open it holds exactly one more.
pub proof fn lemma_text_brackets_balanced(ops: Seq<PageOp>, open0: bool)
    requires
        stream_valid(ops, open0),
    ensures
        begin_count(ops) - end_count(ops) == (if open_after(ops, open0) {
            1int
        } else {
            0int
        }) - (if open0 {
            1int
        } else {
            0int
        }),
    decreases ops.len(),
{
    if ops.len() > 0 {
        lemma_text_brackets_balanced(ops.drop_last(), open0);
        let before = open_after(ops.drop_last(), open0);
        match ops.last() {
            PageOp::BeginText => {
                assert(!before);
            },
            PageOp::EndText => {
                assert(before);
            },
            _ => {},
        }
    }
}

} // verus!
