//! A page under construction, in page-description mode.
//!
//! A [`Page`] records everything the caller asks of the engine: the
//! operation stream, the tracked graphics state and its save stack, the
//! page dimensions, and the positions the engine would report back.
//! Operations legal only inside a text block or only during path
//! construction are not methods of `Page`; they live on the writers that
//! [`Page::run_text_mode`] and [`Page::run_path_mode`] hand to their
//! bodies, so an illegal call cannot be written down.

use crate::error::{
    Error, GSTATE_DEPTH_LIMIT, STATUS_CANNOT_RESTORE_GSTATE, STATUS_EXCEED_GSTATE_LIMIT,
    STATUS_INVALID_FONT_SIZE, STATUS_INVALID_PARAM_COUNT, STATUS_INVALID_ROTATE,
    STATUS_INVALID_SIZE, STATUS_OUT_OF_RANGE,
};
use crate::geom::{intensity_in_range, CmykColor, Color, Point, Rect, UNIT};
use crate::gstate::{FontChoice, GraphicsState, LineCap, LineJoin, PaintColor, TextRenderingMode};
use crate::ops::{
    begin_count, end_count, has_nul, open_after, stream_valid, PageDirection, PageOp, PageSize,
    TextAlignment,
};
use vstd::prelude::*;
use vstd::string::StringSliceAdditionalSpecFns;

verus! {

broadcast use crate::ops::lemma_stream_push;

/// Default page width in thousandths of a point.
pub const DEFAULT_PAGE_WIDTH: i64 = 595276;

/// Default page height in thousandths of a point.
pub const DEFAULT_PAGE_HEIGHT: i64 = 841890;

/// Smallest page width or height the engine accepts, in thousandths of
/// a point.
pub const MIN_PAGE_DIMENSION: i64 = 3000;

/// Largest page width or height the engine accepts, in thousandths of a
/// point.
pub const MAX_PAGE_DIMENSION: i64 = 14400000;

/// A page in page-description mode, together with everything this
/// library tracks of its state.
pub struct Page {
    id: usize,
    ops: Vec<PageOp>,
    gs: GraphicsState,
    stack: Vec<GraphicsState>,
    tline: Option<Point>,
    tpos: Option<Point>,
    ppos: Option<Point>,
    tlin: bool,
    width: i64,
    height: i64,
}

impl Page {
    /// Which page of its document this is: the index the owning
    /// document assigned at creation.
    pub closed spec fn page_id(&self) -> usize {
        self.id
    }

    /// The operations emitted so far, in order.
    pub closed spec fn stream(&self) -> Seq<PageOp> {
        self.ops@
    }

    /// The tracked graphics state.
    pub closed spec fn gstate(&self) -> GraphicsState {
        self.gs
    }

    /// The graphics-state save stack, oldest first.
    pub closed spec fn saved(&self) -> Seq<GraphicsState> {
        self.stack@
    }

    /// Where the current text line starts, when that is determined by
    /// the operations emitted so far.
    pub closed spec fn text_line(&self) -> Option<Point> {
        self.tline
    }

    /// The current text position, when it is determined by the
    /// operations emitted so far.  Showing text advances the position by
    /// glyph widths only the engine knows, so it becomes undetermined.
    pub closed spec fn text_pos(&self) -> Option<Point> {
        self.tpos
    }

    /// The current path position, when it is determined by the
    /// operations emitted so far.
    pub closed spec fn path_pos(&self) -> Option<Point> {
        self.ppos
    }

    /// Whether the linear part of the text matrix is the identity.  The
    /// engine transforms relative text moves through that linear part,
    /// so the tracked text positions are exact only while this holds;
    /// `set_text_matrix` with any other matrix makes them undetermined.
    pub closed spec fn text_matrix_identity(&self) -> bool {
        self.tlin
    }

    /// Page width in thousandths of a point.
    pub closed spec fn page_width(&self) -> i64 {
        self.width
    }

    /// Page height in thousandths of a point.
    pub closed spec fn page_height(&self) -> i64 {
        self.height
    }

    /// A page in description mode is well-formed when its stream is
    /// valid and leaves no text block open.
    pub open spec fn wf(&self) -> bool {
        stream_valid(self.stream(), false) && !open_after(self.stream(), false)
    }

    /// The state a page fresh from `Document::add_page` is in.
    pub open spec fn is_fresh(&self) -> bool {
        self.stream() =~= Seq::<PageOp>::empty() && self.gstate()
            == GraphicsState::spec_initial() && self.saved() =~= Seq::<GraphicsState>::empty()
            && self.text_line() is None && self.text_pos() is None && self.path_pos() is None
            && self.text_matrix_identity() && self.page_width() == DEFAULT_PAGE_WIDTH
            && self.page_height() == DEFAULT_PAGE_HEIGHT
    }

    /// Builds a fresh page with the given document-assigned index:
    /// the engine's defaults, nothing emitted.
    pub(crate) fn fresh(id: usize) -> (r: Page)
        ensures
            r.is_fresh(),
            r.wf(),
            r.page_id() == id,
    {
        Page {
            id,
            ops: Vec::new(),
            gs: GraphicsState::initial(),
            stack: Vec::new(),
            tline: None,
            tpos: None,
            ppos: None,
            tlin: true,
            width: DEFAULT_PAGE_WIDTH,
            height: DEFAULT_PAGE_HEIGHT,
        }
    }

    /// The index the owning document assigned to this page.
    pub fn index_in_document(&self) -> (r: usize)
        ensures
            r == self.page_id(),
    {
        self.id
    }

    /// The current stroke width.
    pub fn line_width(&self) -> (r: i64)
        ensures
            r == self.gstate().line_width,
    {
        self.gs.line_width
    }

    /// The current line cap style.
    pub fn line_cap(&self) -> (r: LineCap)
        ensures
            r == self.gstate().line_cap,
    {
        self.gs.line_cap
    }

    /// The current line join style.
    pub fn line_join(&self) -> (r: LineJoin)
        ensures
            r == self.gstate().line_join,
    {
        self.gs.line_join
    }

    /// The current filling color.
    pub fn fill_color(&self) -> (r: PaintColor)
        ensures
            r == self.gstate().fill,
    {
        self.gs.fill
    }

    /// The current stroking color.
    pub fn stroke_color(&self) -> (r: PaintColor)
        ensures
            r == self.gstate().stroke,
    {
        self.gs.stroke
    }

    /// The current filling color, when it was set as RGB.
    pub fn rgb_fill(&self) -> (r: Option<Color>)
        ensures
            match self.gstate().fill {
                PaintColor::Rgb(c) => r == Some(c),
                _ => r is None,
            },
    {
        match self.gs.fill {
            PaintColor::Rgb(c) => Some(c),
            _ => None,
        }
    }

    /// The page width.
    pub fn width(&self) -> (r: i64)
        ensures
            r == self.page_width(),
    {
        self.width
    }

    /// The page height.
    pub fn height(&self) -> (r: i64)
        ensures
            r == self.page_height(),
    {
        self.height
    }

    /// The current text position, when the emitted operations determine
    /// it.
    pub fn current_text_pos(&self) -> (r: Option<Point>)
        ensures
            r == self.text_pos(),
    {
        self.tpos
    }

    /// The current path position, when the emitted operations determine
    /// it.
    pub fn current_pos(&self) -> (r: Option<Point>)
        ensures
            r == self.path_pos(),
    {
        self.ppos
    }

    /// The currently selected font, when one was set.
    pub fn current_font(&self) -> (r: Result<crate::font::Font, Error>)
        ensures
            self.gstate().font matches Some(fc) ==> (r matches Ok(f) && f.id() == fc.font_id),
            self.gstate().font is None ==> r == Err::<crate::font::Font, Error>(
                Error::EngineNullHandle,
            ),
    {
        match self.gs.font {
            Some(fc) => Ok(crate::font::Font::from_id(fc.font_id)),
            None => Err(Error::EngineNullHandle),
        }
    }

    /// The size the current font was selected at, when one was set.
    pub fn current_font_size(&self) -> (r: Result<i64, Error>)
        ensures
            self.gstate().font matches Some(fc) ==> r == Ok::<i64, Error>(fc.size),
            self.gstate().font is None ==> r == Err::<i64, Error>(Error::EngineNullHandle),
    {
        match self.gs.font {
            Some(fc) => Ok(fc.size),
            None => Err(Error::EngineNullHandle),
        }
    }
}

/// The `gsave` transition: the graphics state is pushed, nothing else
/// moves.
pub open spec fn gsave_rel(pre: Page, post: Page) -> bool {
    &&& post.stream() == pre.stream().push(PageOp::GSave)
    &&& post.gstate() == pre.gstate()
    &&& post.saved() == pre.saved().push(pre.gstate())
    &&& post.text_line() == pre.text_line()
    &&& post.text_pos() == pre.text_pos()
    &&& post.path_pos() == pre.path_pos()
    &&& post.text_matrix_identity() == pre.text_matrix_identity()
    &&& post.page_id() == pre.page_id()
    &&& post.page_width() == pre.page_width()
    &&& post.page_height() == pre.page_height()
}

/// The successful `grestore` transition: the top of the save stack
/// becomes the graphics state.
pub open spec fn grestore_rel(pre: Page, post: Page) -> bool {
    &&& pre.saved().len() > 0
    &&& post.stream() == pre.stream().push(PageOp::GRestore)
    &&& post.gstate() == pre.saved().last()
    &&& post.saved() == pre.saved().drop_last()
    &&& post.text_line() == pre.text_line()
    &&& post.text_pos() == pre.text_pos()
    &&& post.path_pos() == pre.path_pos()
    &&& post.text_matrix_identity() == pre.text_matrix_identity()
    &&& post.page_id() == pre.page_id()
    &&& post.page_width() == pre.page_width()
    &&& post.page_height() == pre.page_height()
}

impl Page {
    /// Push the graphics state on the save stack.  Legal in every mode;
    /// the writers forward to this method.
    ///
    /// Fails only when the stack is at the engine's depth limit; the
    /// page is then unchanged.
    pub fn gsave(&mut self) -> (r: Result<(), Error>)
        requires
            stream_valid(old(self).stream(), false),
        ensures
            stream_valid(final(self).stream(), false),
            open_after(final(self).stream(), false) == open_after(old(self).stream(), false),
            old(self).saved().len() < GSTATE_DEPTH_LIMIT ==> r is Ok && gsave_rel(
                *old(self),
                *final(self),
            ),
            old(self).saved().len() >= GSTATE_DEPTH_LIMIT ==> r == Err::<(), Error>(
                Error::EngineRejected(STATUS_EXCEED_GSTATE_LIMIT),
            ) && *final(self) == *old(self),
    {
        if self.stack.len() >= GSTATE_DEPTH_LIMIT {
            return Err(Error::EngineRejected(STATUS_EXCEED_GSTATE_LIMIT));
        }
        self.stack.push(self.gs);
        self.ops.push(PageOp::GSave);
        Ok(())
    }

    /// Pop the save stack into the graphics state.  Legal in every
    /// mode; the writers forward to this method.
    ///
    /// Fails only when nothing was saved; the page is then unchanged.
    pub fn grestore(&mut self) -> (r: Result<(), Error>)
        requires
            stream_valid(old(self).stream(), false),
        ensures
            stream_valid(final(self).stream(), false),
            open_after(final(self).stream(), false) == open_after(old(self).stream(), false),
            old(self).saved().len() > 0 ==> r is Ok && grestore_rel(*old(self), *final(self)),
            old(self).saved().len() == 0 ==> r == Err::<(), Error>(
                Error::EngineRejected(STATUS_CANNOT_RESTORE_GSTATE),
            ) && *final(self) == *old(self),
    {
        if self.stack.len() == 0 {
            return Err(Error::EngineRejected(STATUS_CANNOT_RESTORE_GSTATE));
        }
        let top = self.stack.len() - 1;
        self.gs = self.stack[top];
        self.stack.truncate(top);
        self.ops.push(PageOp::GRestore);
        Ok(())
    }
}

/// Smallest extra character spacing the engine accepts, in thousandths
/// of a point.
pub const MIN_CHAR_SPACE: i64 = -30000;

/// Largest extra character spacing the engine accepts.
pub const MAX_CHAR_SPACE: i64 = 300000;

/// Smallest extra word spacing the engine accepts.
pub const MIN_WORD_SPACE: i64 = -30000;

/// Largest extra word spacing the engine accepts.
pub const MAX_WORD_SPACE: i64 = 300000;

/// Smallest horizontal text scaling the engine accepts, in thousandths
/// of a percent.
pub const MIN_HORIZONTAL_SCALING: i64 = 10000;

/// Largest horizontal text scaling the engine accepts.
pub const MAX_HORIZONTAL_SCALING: i64 = 300000;

/// Largest font size the engine accepts, in thousandths of a point.
pub const MAX_FONT_SIZE: i64 = 600000;

/// Largest dash segment length the engine accepts, in points.
pub const MAX_DASH_SEGMENT: u16 = 100;

/// Everything but the stream and the graphics state is unchanged.
pub open spec fn keeps_all_but_gs(pre: Page, post: Page) -> bool {
    &&& post.saved() == pre.saved()
    &&& post.text_line() == pre.text_line()
    &&& post.text_pos() == pre.text_pos()
    &&& post.path_pos() == pre.path_pos()
    &&& post.text_matrix_identity() == pre.text_matrix_identity()
    &&& post.page_id() == pre.page_id()
    &&& post.page_width() == pre.page_width()
    &&& post.page_height() == pre.page_height()
}

/// Everything but the stream is unchanged.
pub open spec fn keeps_all_but_stream(pre: Page, post: Page) -> bool {
    keeps_all_but_gs(pre, post) && post.gstate() == pre.gstate()
}

impl Page {
    /// Set the extra spacing between characters.  Legal in description
    /// and text mode.
    ///
    /// Rejected by the engine outside `MIN_CHAR_SPACE ..= MAX_CHAR_SPACE`.
    pub fn set_char_space(&mut self, value: i64) -> (r: Result<(), Error>)
        requires
            stream_valid(old(self).stream(), false),
        ensures
            stream_valid(final(self).stream(), false),
            open_after(final(self).stream(), false) == open_after(old(self).stream(), false),
            MIN_CHAR_SPACE <= value <= MAX_CHAR_SPACE ==> r is Ok && final(self).stream() == old(self).stream().push(PageOp::SetCharSpace(value)) && final(self).gstate() == (GraphicsState {
                char_space: value,
                ..old(self).gstate()
            }) && keeps_all_but_gs(*old(self), *final(self)),
            !(MIN_CHAR_SPACE <= value <= MAX_CHAR_SPACE) ==> r == Err::<(), Error>(
                Error::EngineRejected(STATUS_OUT_OF_RANGE),
            ) && *final(self) == *old(self),
    {
        if value < MIN_CHAR_SPACE || value > MAX_CHAR_SPACE {
            return Err(Error::EngineRejected(STATUS_OUT_OF_RANGE));
        }
        self.gs.char_space = value;
        self.ops.push(PageOp::SetCharSpace(value));
        Ok(())
    }

    /// Set the extra spacing between words.  Legal in description and
    /// text mode.
    pub fn set_word_space(&mut self, value: i64) -> (r: Result<(), Error>)
        requires
            stream_valid(old(self).stream(), false),
        ensures
            stream_valid(final(self).stream(), false),
            open_after(final(self).stream(), false) == open_after(old(self).stream(), false),
            MIN_WORD_SPACE <= value <= MAX_WORD_SPACE ==> r is Ok && final(self).stream() == old(self).stream().push(PageOp::SetWordSpace(value)) && final(self).gstate() == (GraphicsState {
                word_space: value,
                ..old(self).gstate()
            }) && keeps_all_but_gs(*old(self), *final(self)),
            !(MIN_WORD_SPACE <= value <= MAX_WORD_SPACE) ==> r == Err::<(), Error>(
                Error::EngineRejected(STATUS_OUT_OF_RANGE),
            ) && *final(self) == *old(self),
    {
        if value < MIN_WORD_SPACE || value > MAX_WORD_SPACE {
            return Err(Error::EngineRejected(STATUS_OUT_OF_RANGE));
        }
        self.gs.word_space = value;
        self.ops.push(PageOp::SetWordSpace(value));
        Ok(())
    }

    /// Set the horizontal scaling of text.  Legal in description and
    /// text mode.
    pub fn set_horizontal_scalling(&mut self, value: i64) -> (r: Result<(), Error>)
        requires
            stream_valid(old(self).stream(), false),
        ensures
            stream_valid(final(self).stream(), false),
            open_after(final(self).stream(), false) == open_after(old(self).stream(), false),
            MIN_HORIZONTAL_SCALING <= value <= MAX_HORIZONTAL_SCALING ==> r is Ok && final(self).stream() == old(self).stream().push(PageOp::SetHorizontalScaling(value)) && final(self).gstate() == (GraphicsState { horizontal_scaling: value, ..old(self).gstate() })
                && keeps_all_but_gs(*old(self), *final(self)),
            !(MIN_HORIZONTAL_SCALING <= value <= MAX_HORIZONTAL_SCALING) ==> r == Err::<(), Error>(
                Error::EngineRejected(STATUS_OUT_OF_RANGE),
            ) && *final(self) == *old(self),
    {
        if value < MIN_HORIZONTAL_SCALING || value > MAX_HORIZONTAL_SCALING {
            return Err(Error::EngineRejected(STATUS_OUT_OF_RANGE));
        }
        self.gs.horizontal_scaling = value;
        self.ops.push(PageOp::SetHorizontalScaling(value));
        Ok(())
    }

    /// Set the distance between text lines.  Legal in description and
    /// text mode.
    pub fn set_text_leading(&mut self, value: i64) -> (r: Result<(), Error>)
        requires
            stream_valid(old(self).stream(), false),
        ensures
            stream_valid(final(self).stream(), false),
            open_after(final(self).stream(), false) == open_after(old(self).stream(), false),
            r is Ok,
            final(self).stream() == old(self).stream().push(PageOp::SetTextLeading(value)),
            final(self).gstate() == (GraphicsState { text_leading: value, ..old(self).gstate() }),
            keeps_all_but_gs(*old(self), *final(self)),
    {
        self.gs.text_leading = value;
        self.ops.push(PageOp::SetTextLeading(value));
        Ok(())
    }

    /// Select the font and size text is shown with.  Legal in
    /// description and text mode.
    ///
    /// Rejected by the engine when the size is zero, negative, or over
    /// `MAX_FONT_SIZE`.
    pub fn set_font_and_size(&mut self, font: &crate::font::Font, size: i64) -> (r: Result<
        (),
        Error,
    >)
        requires
            stream_valid(old(self).stream(), false),
        ensures
            stream_valid(final(self).stream(), false),
            open_after(final(self).stream(), false) == open_after(old(self).stream(), false),
            0 < size <= MAX_FONT_SIZE ==> r is Ok && final(self).stream() == old(self).stream().push(PageOp::SetFontAndSize(font.id(), size)) && final(self).gstate() == (
            GraphicsState {
                font: Some(FontChoice { font_id: font.id(), size }),
                ..old(self).gstate()
            }) && keeps_all_but_gs(*old(self), *final(self)),
            !(0 < size <= MAX_FONT_SIZE) ==> r == Err::<(), Error>(
                Error::EngineRejected(STATUS_INVALID_FONT_SIZE),
            ) && *final(self) == *old(self),
    {
        if size <= 0 || size > MAX_FONT_SIZE {
            return Err(Error::EngineRejected(STATUS_INVALID_FONT_SIZE));
        }
        let id = font.handle();
        self.gs.font = Some(FontChoice { font_id: id, size });
        self.ops.push(PageOp::SetFontAndSize(id, size));
        Ok(())
    }

    /// Set how shown text is painted.  Legal in description and text
    /// mode.
    pub fn set_text_rendering_mode(&mut self, mode: TextRenderingMode) -> (r: Result<(), Error>)
        requires
            stream_valid(old(self).stream(), false),
        ensures
            stream_valid(final(self).stream(), false),
            open_after(final(self).stream(), false) == open_after(old(self).stream(), false),
            r is Ok,
            final(self).stream() == old(self).stream().push(PageOp::SetTextRenderingMode(mode)),
            final(self).gstate() == (GraphicsState { rendering_mode: mode, ..old(self).gstate() }),
            keeps_all_but_gs(*old(self), *final(self)),
    {
        self.gs.rendering_mode = mode;
        self.ops.push(PageOp::SetTextRenderingMode(mode));
        Ok(())
    }

    /// Set the filling color to a gray intensity.  Legal in description
    /// and text mode.
    pub fn set_gray_fill(&mut self, gray: i64) -> (r: Result<(), Error>)
        requires
            stream_valid(old(self).stream(), false),
        ensures
            stream_valid(final(self).stream(), false),
            open_after(final(self).stream(), false) == open_after(old(self).stream(), false),
            intensity_in_range(gray) ==> r is Ok && final(self).stream() == old(self).stream().push(
                PageOp::SetGrayFill(gray),
            ) && final(self).gstate() == (GraphicsState {
                fill: PaintColor::Gray(gray),
                ..old(self).gstate()
            }) && keeps_all_but_gs(*old(self), *final(self)),
            !intensity_in_range(gray) ==> r == Err::<(), Error>(
                Error::EngineRejected(STATUS_OUT_OF_RANGE),
            ) && *final(self) == *old(self),
    {
        if gray < 0 || gray > UNIT {
            return Err(Error::EngineRejected(STATUS_OUT_OF_RANGE));
        }
        self.gs.fill = PaintColor::Gray(gray);
        self.ops.push(PageOp::SetGrayFill(gray));
        Ok(())
    }

    /// Set the stroking color to a gray intensity.  Legal in
    /// description and text mode.
    pub fn set_gray_stroke(&mut self, gray: i64) -> (r: Result<(), Error>)
        requires
            stream_valid(old(self).stream(), false),
        ensures
            stream_valid(final(self).stream(), false),
            open_after(final(self).stream(), false) == open_after(old(self).stream(), false),
            intensity_in_range(gray) ==> r is Ok && final(self).stream() == old(self).stream().push(
                PageOp::SetGrayStroke(gray),
            ) && final(self).gstate() == (GraphicsState {
                stroke: PaintColor::Gray(gray),
                ..old(self).gstate()
            }) && keeps_all_but_gs(*old(self), *final(self)),
            !intensity_in_range(gray) ==> r == Err::<(), Error>(
                Error::EngineRejected(STATUS_OUT_OF_RANGE),
            ) && *final(self) == *old(self),
    {
        if gray < 0 || gray > UNIT {
            return Err(Error::EngineRejected(STATUS_OUT_OF_RANGE));
        }
        self.gs.stroke = PaintColor::Gray(gray);
        self.ops.push(PageOp::SetGrayStroke(gray));
        Ok(())
    }

    /// Set the filling color to an RGB color.  Legal in description and
    /// text mode.
    pub fn set_rgb_fill(&mut self, color: Color) -> (r: Result<(), Error>)
        requires
            stream_valid(old(self).stream(), false),
        ensures
            stream_valid(final(self).stream(), false),
            open_after(final(self).stream(), false) == open_after(old(self).stream(), false),
            color.in_range() ==> r is Ok && final(self).stream() == old(self).stream().push(
                PageOp::SetRgbFill(color),
            ) && final(self).gstate() == (GraphicsState {
                fill: PaintColor::Rgb(color),
                ..old(self).gstate()
            }) && keeps_all_but_gs(*old(self), *final(self)),
            !color.in_range() ==> r == Err::<(), Error>(
                Error::EngineRejected(STATUS_OUT_OF_RANGE),
            ) && *final(self) == *old(self),
    {
        if color.red < 0 || color.red > UNIT || color.green < 0 || color.green > UNIT
            || color.blue < 0 || color.blue > UNIT {
            return Err(Error::EngineRejected(STATUS_OUT_OF_RANGE));
        }
        self.gs.fill = PaintColor::Rgb(color);
        self.ops.push(PageOp::SetRgbFill(color));
        Ok(())
    }

    /// Set the stroking color to an RGB color.  Legal in description
    /// and text mode.
    pub fn set_rgb_stroke(&mut self, color: Color) -> (r: Result<(), Error>)
        requires
            stream_valid(old(self).stream(), false),
        ensures
            stream_valid(final(self).stream(), false),
            open_after(final(self).stream(), false) == open_after(old(self).stream(), false),
            color.in_range() ==> r is Ok && final(self).stream() == old(self).stream().push(
                PageOp::SetRgbStroke(color),
            ) && final(self).gstate() == (GraphicsState {
                stroke: PaintColor::Rgb(color),
                ..old(self).gstate()
            }) && keeps_all_but_gs(*old(self), *final(self)),
            !color.in_range() ==> r == Err::<(), Error>(
                Error::EngineRejected(STATUS_OUT_OF_RANGE),
            ) && *final(self) == *old(self),
    {
        if color.red < 0 || color.red > UNIT || color.green < 0 || color.green > UNIT
            || color.blue < 0 || color.blue > UNIT {
            return Err(Error::EngineRejected(STATUS_OUT_OF_RANGE));
        }
        self.gs.stroke = PaintColor::Rgb(color);
        self.ops.push(PageOp::SetRgbStroke(color));
        Ok(())
    }

    /// Set the filling color to a CMYK color.  Legal in description and
    /// text mode.
    pub fn set_cmyk_fill(&mut self, color: CmykColor) -> (r: Result<(), Error>)
        requires
            stream_valid(old(self).stream(), false),
        ensures
            stream_valid(final(self).stream(), false),
            open_after(final(self).stream(), false) == open_after(old(self).stream(), false),
            color.in_range() ==> r is Ok && final(self).stream() == old(self).stream().push(
                PageOp::SetCmykFill(color),
            ) && final(self).gstate() == (GraphicsState {
                fill: PaintColor::Cmyk(color),
                ..old(self).gstate()
            }) && keeps_all_but_gs(*old(self), *final(self)),
            !color.in_range() ==> r == Err::<(), Error>(
                Error::EngineRejected(STATUS_OUT_OF_RANGE),
            ) && *final(self) == *old(self),
    {
        if color.cyan < 0 || color.cyan > UNIT || color.magenta < 0 || color.magenta > UNIT
            || color.yellow < 0 || color.yellow > UNIT || color.keyplate < 0 || color.keyplate
            > UNIT {
            return Err(Error::EngineRejected(STATUS_OUT_OF_RANGE));
        }
        self.gs.fill = PaintColor::Cmyk(color);
        self.ops.push(PageOp::SetCmykFill(color));
        Ok(())
    }

    /// Set the stroking color to a CMYK color.  Legal in description
    /// and text mode.
    pub fn set_cmyk_stroke(&mut self, color: CmykColor) -> (r: Result<(), Error>)
        requires
            stream_valid(old(self).stream(), false),
        ensures
            stream_valid(final(self).stream(), false),
            open_after(final(self).stream(), false) == open_after(old(self).stream(), false),
            color.in_range() ==> r is Ok && final(self).stream() == old(self).stream().push(
                PageOp::SetCmykStroke(color),
            ) && final(self).gstate() == (GraphicsState {
                stroke: PaintColor::Cmyk(color),
                ..old(self).gstate()
            }) && keeps_all_but_gs(*old(self), *final(self)),
            !color.in_range() ==> r == Err::<(), Error>(
                Error::EngineRejected(STATUS_OUT_OF_RANGE),
            ) && *final(self) == *old(self),
    {
        if color.cyan < 0 || color.cyan > UNIT || color.magenta < 0 || color.magenta > UNIT
            || color.yellow < 0 || color.yellow > UNIT || color.keyplate < 0 || color.keyplate
            > UNIT {
            return Err(Error::EngineRejected(STATUS_OUT_OF_RANGE));
        }
        self.gs.stroke = PaintColor::Cmyk(color);
        self.ops.push(PageOp::SetCmykStroke(color));
        Ok(())
    }
}

/// Whether a dash segment count is one the engine accepts: a single
/// segment, or an even number of them (zero clears the pattern).
pub open spec fn dash_count_ok(n: int) -> bool {
    n == 1 || n % 2 == 0
}

/// Whether every dash segment length lies in `1 ..= MAX_DASH_SEGMENT`.
pub open spec fn dash_segments_ok(s: Seq<u16>) -> bool {
    forall|i: int| 0 <= i < s.len() ==> 1 <= #[trigger] s[i] <= MAX_DASH_SEGMENT
}

impl Page {
    /// Set the stroke width.  Legal in description and path mode.
    ///
    /// Rejected by the engine when negative.
    pub fn set_line_width(&mut self, width: i64) -> (r: Result<(), Error>)
        requires
            stream_valid(old(self).stream(), false),
            !open_after(old(self).stream(), false),
        ensures
            stream_valid(final(self).stream(), false),
            !open_after(final(self).stream(), false),
            width >= 0 ==> r is Ok && final(self).stream() == old(self).stream().push(
                PageOp::SetLineWidth(width),
            ) && final(self).gstate() == (GraphicsState { line_width: width, ..old(self).gstate() })
                && keeps_all_but_gs(*old(self), *final(self)),
            width < 0 ==> r == Err::<(), Error>(Error::EngineRejected(STATUS_OUT_OF_RANGE)) && *final(self) == *old(self),
    {
        if width < 0 {
            return Err(Error::EngineRejected(STATUS_OUT_OF_RANGE));
        }
        self.gs.line_width = width;
        self.ops.push(PageOp::SetLineWidth(width));
        Ok(())
    }

    /// Set the shape used at the ends of lines.  Legal in description
    /// and text mode.
    pub fn set_line_cap(&mut self, line_cap: LineCap) -> (r: Result<(), Error>)
        requires
            stream_valid(old(self).stream(), false),
        ensures
            stream_valid(final(self).stream(), false),
            open_after(final(self).stream(), false) == open_after(old(self).stream(), false),
            r is Ok,
            final(self).stream() == old(self).stream().push(PageOp::SetLineCap(line_cap)),
            final(self).gstate() == (GraphicsState { line_cap: line_cap, ..old(self).gstate() }),
            keeps_all_but_gs(*old(self), *final(self)),
    {
        self.gs.line_cap = line_cap;
        self.ops.push(PageOp::SetLineCap(line_cap));
        Ok(())
    }

    /// Set the line join style.  Legal in description and text mode.
    pub fn set_line_join(&mut self, line_join: LineJoin) -> (r: Result<(), Error>)
        requires
            stream_valid(old(self).stream(), false),
        ensures
            stream_valid(final(self).stream(), false),
            open_after(final(self).stream(), false) == open_after(old(self).stream(), false),
            r is Ok,
            final(self).stream() == old(self).stream().push(PageOp::SetLineJoin(line_join)),
            final(self).gstate() == (GraphicsState { line_join: line_join, ..old(self).gstate() }),
            keeps_all_but_gs(*old(self), *final(self)),
    {
        self.gs.line_join = line_join;
        self.ops.push(PageOp::SetLineJoin(line_join));
        Ok(())
    }

    /// Set the line dash pattern.  Legal in description and text mode.
    ///
    /// The phase must fit the engine's integer width; the engine itself
    /// rejects a segment count that is neither one nor even, a phase
    /// with no segments, and segment lengths outside
    /// `1 ..= MAX_DASH_SEGMENT`.
    pub fn set_dash(&mut self, dash_mode: &[u16], phase: usize) -> (r: Result<(), Error>)
        requires
            stream_valid(old(self).stream(), false),
        ensures
            stream_valid(final(self).stream(), false),
            open_after(final(self).stream(), false) == open_after(old(self).stream(), false),
            r is Err ==> *final(self) == *old(self),
            phase > u32::MAX ==> r == Err::<(), Error>(Error::InvalidArgument),
            phase <= u32::MAX && !dash_count_ok(dash_mode@.len() as int) ==> r == Err::<(), Error>(
                Error::EngineRejected(STATUS_INVALID_PARAM_COUNT),
            ),
            phase <= u32::MAX && dash_count_ok(dash_mode@.len() as int) && !(dash_mode@.len() == 0
                && phase > 0) && dash_segments_ok(dash_mode@) ==> r is Ok && final(self).stream().len() == old(self).stream().len() + 1 && final(self).stream().subrange(
                0,
                old(self).stream().len() as int,
            ) == old(self).stream() && (final(self).stream().last() matches PageOp::SetDash(v, ph)
                && v@ == dash_mode@ && ph == phase as u32) && keeps_all_but_stream(
                *old(self),
                *final(self),
            ),
            phase <= u32::MAX && dash_count_ok(dash_mode@.len() as int) && (dash_mode@.len() == 0
                && phase > 0 || !dash_segments_ok(dash_mode@)) ==> r == Err::<(), Error>(
                Error::EngineRejected(STATUS_OUT_OF_RANGE),
            ),
    {
        if phase > u32::MAX as usize {
            return Err(Error::InvalidArgument);
        }
        let n = dash_mode.len();
        if n != 1 && n % 2 != 0 {
            return Err(Error::EngineRejected(STATUS_INVALID_PARAM_COUNT));
        }
        if n == 0 && phase > 0 {
            return Err(Error::EngineRejected(STATUS_OUT_OF_RANGE));
        }
        let mut i: usize = 0;
        while i < n
            invariant
                *self == *old(self),
                stream_valid(self.stream(), false),
                phase <= u32::MAX,
                dash_count_ok(dash_mode@.len() as int),
                !(dash_mode@.len() == 0 && phase > 0),
                n == dash_mode@.len(),
                0 <= i <= n,
                forall|j: int| 0 <= j < i ==> 1 <= #[trigger] dash_mode@[j] <= MAX_DASH_SEGMENT,
            decreases n - i,
        {
            let seg = dash_mode[i];
            if seg == 0 || seg > MAX_DASH_SEGMENT {
                return Err(Error::EngineRejected(STATUS_OUT_OF_RANGE));
            }
            i += 1;
        }
        let copy = vstd::slice::slice_to_vec(dash_mode);
        self.ops.push(PageOp::SetDash(copy, phase as u32));
        proof {
            assert(self.ops@.subrange(0, old(self).ops@.len() as int) =~= old(self).ops@);
        }
        Ok(())
    }

    /// Reset to a solid, undashed line.  Legal in description and text
    /// mode.
    pub fn clear_dash(&mut self) -> (r: Result<(), Error>)
        requires
            stream_valid(old(self).stream(), false),
        ensures
            stream_valid(final(self).stream(), false),
            open_after(final(self).stream(), false) == open_after(old(self).stream(), false),
            r is Ok,
            final(self).stream() == old(self).stream().push(PageOp::ClearDash),
            keeps_all_but_stream(*old(self), *final(self)),
    {
        self.ops.push(PageOp::ClearDash);
        Ok(())
    }

    /// Set the page width.  Legal in description mode.
    ///
    /// Rejected by the engine outside
    /// `MIN_PAGE_DIMENSION ..= MAX_PAGE_DIMENSION`.
    pub fn set_width(&mut self, width: i64) -> (r: Result<(), Error>)
        requires
            old(self).wf(),
        ensures
            final(self).wf(),
            MIN_PAGE_DIMENSION <= width <= MAX_PAGE_DIMENSION ==> r is Ok && final(self).stream()
                == old(self).stream().push(PageOp::SetWidth(width)) && final(self).page_width()
                == width && final(self).page_height() == old(self).page_height() && final(self).gstate() == old(self).gstate() && final(self).saved() == old(self).saved() && final(self).text_line() == old(self).text_line() && final(self).text_pos() == old(self).text_pos()
                && final(self).path_pos() == old(self).path_pos() && final(self).text_matrix_identity() == old(self).text_matrix_identity() && final(self).page_id() == old(self).page_id(),
            !(MIN_PAGE_DIMENSION <= width <= MAX_PAGE_DIMENSION) ==> r == Err::<(), Error>(
                Error::EngineRejected(STATUS_INVALID_SIZE),
            ) && *final(self) == *old(self),
    {
        if width < MIN_PAGE_DIMENSION || width > MAX_PAGE_DIMENSION {
            return Err(Error::EngineRejected(STATUS_INVALID_SIZE));
        }
        self.width = width;
        self.ops.push(PageOp::SetWidth(width));
        Ok(())
    }

    /// Set the page height.  Legal in description mode.
    pub fn set_height(&mut self, height: i64) -> (r: Result<(), Error>)
        requires
            old(self).wf(),
        ensures
            final(self).wf(),
            MIN_PAGE_DIMENSION <= height <= MAX_PAGE_DIMENSION ==> r is Ok && final(self).stream()
                == old(self).stream().push(PageOp::SetHeight(height)) && final(self).page_height()
                == height && final(self).page_width() == old(self).page_width() && final(self).gstate() == old(self).gstate() && final(self).saved() == old(self).saved() && final(self).text_line() == old(self).text_line() && final(self).text_pos() == old(self).text_pos()
                && final(self).path_pos() == old(self).path_pos() && final(self).text_matrix_identity() == old(self).text_matrix_identity() && final(self).page_id() == old(self).page_id(),
            !(MIN_PAGE_DIMENSION <= height <= MAX_PAGE_DIMENSION) ==> r == Err::<(), Error>(
                Error::EngineRejected(STATUS_INVALID_SIZE),
            ) && *final(self) == *old(self),
    {
        if height < MIN_PAGE_DIMENSION || height > MAX_PAGE_DIMENSION {
            return Err(Error::EngineRejected(STATUS_INVALID_SIZE));
        }
        self.height = height;
        self.ops.push(PageOp::SetHeight(height));
        Ok(())
    }

    /// Set the page to a predefined size and orientation.  Legal in
    /// description mode.
    pub fn set_size(&mut self, size: PageSize, direction: PageDirection) -> (r: Result<(), Error>)
        requires
            old(self).wf(),
        ensures
            final(self).wf(),
            r is Ok,
            final(self).stream() == old(self).stream().push(PageOp::SetSize(size, direction)),
            direction is Portrait ==> final(self).page_width() == size.spec_dimensions().0 && final(self).page_height() == size.spec_dimensions().1,
            direction is Landscape ==> final(self).page_width() == size.spec_dimensions().1
                && final(self).page_height() == size.spec_dimensions().0,
            final(self).gstate() == old(self).gstate(),
            final(self).saved() == old(self).saved(),
            final(self).text_line() == old(self).text_line(),
            final(self).text_pos() == old(self).text_pos(),
            final(self).path_pos() == old(self).path_pos(),
            final(self).text_matrix_identity() == old(self).text_matrix_identity(),
            final(self).page_id() == old(self).page_id(),
    {
        let (w, h) = size.dimensions();
        match direction {
            PageDirection::Portrait => {
                self.width = w;
                self.height = h;
            },
            PageDirection::Landscape => {
                self.width = h;
                self.height = w;
            },
        }
        self.ops.push(PageOp::SetSize(size, direction));
        Ok(())
    }

    /// Rotate the page.  Legal in description mode.
    ///
    /// Rejected by the engine when the angle is not a multiple of 90
    /// degrees.
    pub fn set_rotate(&mut self, angle: u16) -> (r: Result<(), Error>)
        requires
            old(self).wf(),
        ensures
            final(self).wf(),
            angle % 90 == 0 ==> r is Ok && final(self).stream() == old(self).stream().push(
                PageOp::SetRotate(angle),
            ) && keeps_all_but_stream(*old(self), *final(self)),
            angle % 90 != 0 ==> r == Err::<(), Error>(Error::EngineRejected(STATUS_INVALID_ROTATE))
                && *final(self) == *old(self),
    {
        if angle % 90 != 0 {
            return Err(Error::EngineRejected(STATUS_INVALID_ROTATE));
        }
        self.ops.push(PageOp::SetRotate(angle));
        Ok(())
    }
}

/// A page while its text block is open.  Only [`Page::run_text_mode`]
/// creates one, and the closing `EndText` is emitted when that call
/// returns, whatever the body did: the brackets cannot be unbalanced.
pub struct PageTextMode {
    p: Page,
}

impl PageTextMode {
    /// Which page of its document this is.
    pub closed spec fn page_id(&self) -> usize {
        self.p.page_id()
    }

    /// Whether the linear part of the text matrix is the identity; see
    /// [`Page::text_matrix_identity`].
    pub closed spec fn text_matrix_identity(&self) -> bool {
        self.p.text_matrix_identity()
    }

    /// The operations emitted so far, in order.
    pub closed spec fn stream(&self) -> Seq<PageOp> {
        self.p.stream()
    }

    /// The tracked graphics state.
    pub closed spec fn gstate(&self) -> GraphicsState {
        self.p.gstate()
    }

    /// The graphics-state save stack, oldest first.
    pub closed spec fn saved(&self) -> Seq<GraphicsState> {
        self.p.saved()
    }

    /// Where the current text line starts, when determined.
    pub closed spec fn text_line(&self) -> Option<Point> {
        self.p.text_line()
    }

    /// The current text position, when determined.
    pub closed spec fn text_pos(&self) -> Option<Point> {
        self.p.text_pos()
    }

    /// The current path position, when determined.
    pub closed spec fn path_pos(&self) -> Option<Point> {
        self.p.path_pos()
    }

    /// Page width in thousandths of a point.
    pub closed spec fn page_width(&self) -> i64 {
        self.p.page_width()
    }

    /// Page height in thousandths of a point.
    pub closed spec fn page_height(&self) -> i64 {
        self.p.page_height()
    }

    /// A text writer holds a valid stream whose text block is open.
    pub open spec fn wf(&self) -> bool {
        stream_valid(self.stream(), false) && open_after(self.stream(), false)
    }

    /// The current text position, when the emitted operations determine
    /// it.
    pub fn current_text_pos(&self) -> (r: Option<Point>)
        ensures
            r == self.text_pos(),
    {
        self.p.current_text_pos()
    }
}

/// A page during path construction.  Only [`Page::run_path_mode`]
/// creates one.
pub struct PagePathMode {
    p: Page,
}

impl PagePathMode {
    /// Which page of its document this is.
    pub closed spec fn page_id(&self) -> usize {
        self.p.page_id()
    }

    /// Whether the linear part of the text matrix is the identity; see
    /// [`Page::text_matrix_identity`].
    pub closed spec fn text_matrix_identity(&self) -> bool {
        self.p.text_matrix_identity()
    }

    /// The operations emitted so far, in order.
    pub closed spec fn stream(&self) -> Seq<PageOp> {
        self.p.stream()
    }

    /// The tracked graphics state.
    pub closed spec fn gstate(&self) -> GraphicsState {
        self.p.gstate()
    }

    /// The graphics-state save stack, oldest first.
    pub closed spec fn saved(&self) -> Seq<GraphicsState> {
        self.p.saved()
    }

    /// Where the current text line starts, when determined.
    pub closed spec fn text_line(&self) -> Option<Point> {
        self.p.text_line()
    }

    /// The current text position, when determined.
    pub closed spec fn text_pos(&self) -> Option<Point> {
        self.p.text_pos()
    }

    /// The current path position, when determined.
    pub closed spec fn path_pos(&self) -> Option<Point> {
        self.p.path_pos()
    }

    /// Page width in thousandths of a point.
    pub closed spec fn page_width(&self) -> i64 {
        self.p.page_width()
    }

    /// Page height in thousandths of a point.
    pub closed spec fn page_height(&self) -> i64 {
        self.p.page_height()
    }

    /// A path writer holds a valid stream with no text block open.
    pub open spec fn wf(&self) -> bool {
        stream_valid(self.stream(), false) && !open_after(self.stream(), false)
    }

    /// The current path position, when the emitted operations determine
    /// it.
    pub fn current_pos(&self) -> (r: Option<Point>)
        ensures
            r == self.path_pos(),
    {
        self.p.current_pos()
    }
}

/// How a text writer relates to the page that entered text mode: one
/// `BeginText` has been emitted and the text position is at the origin.
pub open spec fn text_entry(p: Page, w: PageTextMode) -> bool {
    &&& w.stream() == p.stream().push(PageOp::BeginText)
    &&& w.gstate() == p.gstate()
    &&& w.saved() == p.saved()
    &&& w.text_line() == Some(Point { x: 0, y: 0 })
    &&& w.text_pos() == Some(Point { x: 0, y: 0 })
    &&& w.path_pos() == p.path_pos()
    &&& w.text_matrix_identity()
    &&& w.page_id() == p.page_id()
    &&& w.page_width() == p.page_width()
    &&& w.page_height() == p.page_height()
}

/// What any text-mode body does to its writer: it may only extend the
/// stream, with operations that neither open nor close a text block,
/// and it leaves the writer well-formed.  Every method of `PageTextMode`
/// maintains this.
pub open spec fn text_body_rel(w1: PageTextMode, w2: PageTextMode) -> bool {
    &&& w2.wf()
    &&& w2.page_id() == w1.page_id()
    &&& w2.stream().len() >= w1.stream().len()
    &&& w2.stream().subrange(0, w1.stream().len() as int) == w1.stream()
    &&& forall|i: int|
        w1.stream().len() <= i < w2.stream().len() ==> !(#[trigger] w2.stream()[i] is BeginText)
            && !(w2.stream()[i] is EndText)
}

/// How a path writer relates to the page that entered path mode: the
/// engine has no explicit begin-path call, so nothing is emitted.
pub open spec fn path_entry(p: Page, w: PagePathMode) -> bool {
    &&& w.stream() == p.stream()
    &&& w.gstate() == p.gstate()
    &&& w.saved() == p.saved()
    &&& w.text_line() == p.text_line()
    &&& w.text_pos() == p.text_pos()
    &&& w.path_pos() == p.path_pos()
    &&& w.text_matrix_identity() == p.text_matrix_identity()
    &&& w.page_id() == p.page_id()
    &&& w.page_width() == p.page_width()
    &&& w.page_height() == p.page_height()
}

/// What any path-mode body does to its writer.
pub open spec fn path_body_rel(w1: PagePathMode, w2: PagePathMode) -> bool {
    &&& w2.wf()
    &&& w2.page_id() == w1.page_id()
    &&& w2.stream().len() >= w1.stream().len()
    &&& w2.stream().subrange(0, w1.stream().len() as int) == w1.stream()
    &&& forall|i: int|
        w1.stream().len() <= i < w2.stream().len() ==> !(#[trigger] w2.stream()[i] is BeginText)
            && !(w2.stream()[i] is EndText)
}

impl Page {
    /// Run `body` in text mode: emit `BeginText`, hand the body a
    /// [`PageTextMode`], and emit `EndText` when it returns — also when it
    /// returns an error, so the engine's text block is never left open,
    /// and the body's error is the one the caller sees.
    pub fn run_text_mode<F: FnOnce(PageTextMode) -> (PageTextMode, Result<(), Error>)>(
        &mut self,
        body: F,
    ) -> (r: Result<(), Error>)
        requires
            old(self).wf(),
            forall|w: PageTextMode|
                #[trigger] text_entry(*old(self), w) && w.wf() ==> call_requires(body, (w,)),
            forall|w1: PageTextMode, out: (PageTextMode, Result<(), Error>)|
                text_entry(*old(self), w1) && #[trigger] call_ensures(body, (w1,), out)
                    ==> text_body_rel(w1, out.0),
        ensures
            final(self).wf(),
            final(self).stream().len() >= old(self).stream().len() + 2,
            final(self).stream().subrange(0, old(self).stream().len() as int) == old(self).stream(),
            final(self).stream()[old(self).stream().len() as int] is BeginText,
            final(self).stream().last() is EndText,
            forall|i: int|
                old(self).stream().len() + 1 <= i < final(self).stream().len() - 1 ==> !(
                #[trigger] final(self).stream()[i] is BeginText) && !(final(self).stream()[i] is EndText),
            begin_count(final(self).stream()) - end_count(final(self).stream()) == begin_count(
                old(self).stream(),
            ) - end_count(old(self).stream()),
            final(self).page_id() == old(self).page_id(),
            exists|w1: PageTextMode, w2: PageTextMode|
                text_entry(*old(self), w1) && #[trigger] call_ensures(body, (w1,), (w2, r)) && final(self).stream() == w2.stream().push(PageOp::EndText) && final(self).gstate()
                    == w2.gstate() && final(self).saved() == w2.saved() && final(self).text_line()
                    == w2.text_line() && final(self).text_pos() == w2.text_pos() && final(self).path_pos() == w2.path_pos() && final(self).text_matrix_identity()
                    == w2.text_matrix_identity() && final(self).page_width() == w2.page_width()
                    && final(self).page_height() == w2.page_height(),
    {
        let mut page = Page::fresh(0);
        core::mem::swap(self, &mut page);
        page.ops.push(PageOp::BeginText);
        page.tline = Some(Point { x: 0, y: 0 });
        page.tpos = Some(Point { x: 0, y: 0 });
        page.tlin = true;
        let w = PageTextMode { p: page };
        let ghost w_in = w;
        proof {
            assert(text_entry(*old(self), w));
            assert(w.wf());
        }
        let (w_out, r) = body(w);
        let PageTextMode { p: mut page } = w_out;
        let ghost w_out_snap = PageTextMode { p: page };
        page.ops.push(PageOp::EndText);
        core::mem::swap(self, &mut page);
        proof {
            let n = old(self).stream().len() as int;
            assert(text_body_rel(w_in, w_out_snap));
            assert(self.stream() == w_out_snap.stream().push(PageOp::EndText));
            assert(w_out_snap.stream().subrange(0, n + 1) == w_in.stream());
            assert forall|i: int| 0 <= i < n + 1 implies #[trigger] self.stream()[i]
                == w_in.stream()[i] by {
                assert(self.stream()[i] == w_out_snap.stream()[i]);
                assert(w_out_snap.stream()[i] == w_out_snap.stream().subrange(0, n + 1)[i]);
            }
            assert(self.stream().subrange(0, n) =~= old(self).stream());
            assert(self.stream()[n] == w_in.stream()[n]);
            assert forall|i: int|
                n + 1 <= i < self.stream().len() - 1 implies !(#[trigger] self.stream()[i] is BeginText)
                && !(self.stream()[i] is EndText) by {
                assert(self.stream()[i] == w_out_snap.stream()[i]);
            }
            crate::ops::lemma_text_brackets_balanced(old(self).stream(), false);
            crate::ops::lemma_text_brackets_balanced(self.stream(), false);
            assert(call_ensures(body, (w_in,), (w_out_snap, r)));
        }
        r
    }

    /// Run `body` in path mode.  The engine has no explicit begin-path
    /// or end-path call: a path is started by the first construction
    /// operation and ended by whichever painting operation the body
    /// invokes.  A body that paints nothing therefore leaves the
    /// engine's path dangling; the caller must invoke one of `stroke`,
    /// `fill`, `fill_stroke` or `clip` before returning.
    pub fn run_path_mode<F: FnOnce(PagePathMode) -> (PagePathMode, Result<(), Error>)>(
        &mut self,
        body: F,
    ) -> (r: Result<(), Error>)
        requires
            old(self).wf(),
            forall|w: PagePathMode|
                #[trigger] path_entry(*old(self), w) && w.wf() ==> call_requires(body, (w,)),
            forall|w1: PagePathMode, out: (PagePathMode, Result<(), Error>)|
                path_entry(*old(self), w1) && #[trigger] call_ensures(body, (w1,), out)
                    ==> path_body_rel(w1, out.0),
        ensures
            final(self).wf(),
            final(self).stream().len() >= old(self).stream().len(),
            final(self).stream().subrange(0, old(self).stream().len() as int) == old(self).stream(),
            forall|i: int|
                old(self).stream().len() <= i < final(self).stream().len() ==> !(#[trigger] final(self).stream()[i] is BeginText) && !(final(self).stream()[i] is EndText),
            final(self).page_id() == old(self).page_id(),
            exists|w1: PagePathMode, w2: PagePathMode|
                path_entry(*old(self), w1) && #[trigger] call_ensures(body, (w1,), (w2, r)) && final(self).stream() == w2.stream() && final(self).gstate() == w2.gstate() && final(self).saved() == w2.saved() && final(self).text_line() == w2.text_line() && final(self).text_pos() == w2.text_pos() && final(self).path_pos() == w2.path_pos() && final(self).text_matrix_identity() == w2.text_matrix_identity() && final(self).page_width() == w2.page_width() && final(self).page_height() == w2.page_height(),
    {
        let mut page = Page::fresh(0);
        core::mem::swap(self, &mut page);
        let w = PagePathMode { p: page };
        let ghost w_in = w;
        proof {
            assert(path_entry(*old(self), w));
            assert(w.wf());
        }
        let (w_out, r) = body(w);
        let PagePathMode { p: mut page } = w_out;
        let ghost w_out_snap = PagePathMode { p: page };
        core::mem::swap(self, &mut page);
        proof {
            let n = old(self).stream().len() as int;
            assert(path_body_rel(w_in, w_out_snap));
            assert(self.stream().subrange(0, n) == w_in.stream());
            assert(call_ensures(body, (w_in,), (w_out_snap, r)));
        }
        r
    }
}


/// Everything of a text writer but the stream and graphics state is
/// unchanged.
pub open spec fn text_mode_keeps_all_but_gs(pre: PageTextMode, post: PageTextMode) -> bool {
    &&& post.saved() == pre.saved()
    &&& post.text_line() == pre.text_line()
    &&& post.text_pos() == pre.text_pos()
    &&& post.path_pos() == pre.path_pos()
    &&& post.text_matrix_identity() == pre.text_matrix_identity()
    &&& post.page_id() == pre.page_id()
    &&& post.page_width() == pre.page_width()
    &&& post.page_height() == pre.page_height()
}

/// Everything of a text writer but the stream and text positions is
/// unchanged.
pub open spec fn text_mode_keeps_all_but_pos(pre: PageTextMode, post: PageTextMode) -> bool {
    &&& post.gstate() == pre.gstate()
    &&& post.saved() == pre.saved()
    &&& post.path_pos() == pre.path_pos()
    &&& post.text_matrix_identity() == pre.text_matrix_identity()
    &&& post.page_id() == pre.page_id()
    &&& post.page_width() == pre.page_width()
    &&& post.page_height() == pre.page_height()
}

/// An optional point offset by `(dx, dy)`: `None` when the point is
/// unknown or the sum leaves the coordinate range.
pub open spec fn offset_opt(p: Option<Point>, dx: int, dy: int) -> Option<Point> {
    match p {
        Some(q) => if i64::MIN <= q.x + dx <= i64::MAX && i64::MIN <= q.y + dy <= i64::MAX {
            Some(Point { x: (q.x + dx) as i64, y: (q.y + dy) as i64 })
        } else {
            None
        },
        None => None,
    }
}

/// Where the next text line starts: the current line start moved down
/// by the leading.
pub open spec fn next_line_opt(p: Option<Point>, leading: i64) -> Option<Point> {
    match p {
        Some(q) => if i64::MIN <= q.y - leading <= i64::MAX {
            Some(Point { x: q.x, y: (q.y - leading) as i64 })
        } else {
            None
        },
        None => None,
    }
}

impl PageTextMode {
    /// Offset the text position (and the start of the current line) by
    /// the given amounts.
    pub fn move_text_pos(&mut self, pos: Point) -> (r: Result<(), Error>)
        requires
            old(self).wf(),
        ensures
            final(self).wf(),
            r is Ok,
            final(self).stream() == old(self).stream().push(PageOp::MoveTextPos(pos)),
            final(self).text_line() == (if old(self).text_matrix_identity() {
                offset_opt(old(self).text_line(), pos.x as int, pos.y as int)
            } else {
                None::<Point>
            }),
            final(self).text_pos() == final(self).text_line(),
            text_mode_keeps_all_but_pos(*old(self), *final(self)),
            move_text_pos_rel(*old(self), *final(self), pos),
    {
        let moved = if self.p.tlin {
            match self.p.tline {
                Some(q) => match (q.x.checked_add(pos.x), q.y.checked_add(pos.y)) {
                    (Some(nx), Some(ny)) => Some(Point { x: nx, y: ny }),
                    _ => None,
                },
                None => None,
            }
        } else {
            None
        };
        self.p.tline = moved;
        self.p.tpos = moved;
        self.p.ops.push(PageOp::MoveTextPos(pos));
        Ok(())
    }

    /// Offset the text position as `move_text_pos` does, and make the
    /// negated vertical offset the text leading.
    pub fn move_text_pos2(&mut self, pos: Point) -> (r: Result<(), Error>)
        requires
            old(self).wf(),
        ensures
            final(self).wf(),
            pos.y == i64::MIN ==> r == Err::<(), Error>(Error::InvalidArgument) && *final(self)
                == *old(self),
            pos.y != i64::MIN ==> r is Ok && final(self).stream() == old(self).stream().push(
                PageOp::MoveTextPos2(pos),
            ) && final(self).text_line() == (if old(self).text_matrix_identity() {
                offset_opt(old(self).text_line(), pos.x as int, pos.y as int)
            } else {
                None::<Point>
            }) && final(self).text_pos() == final(self).text_line() && final(self).gstate() == (
            GraphicsState { text_leading: (-pos.y) as i64, ..old(self).gstate() }) && final(self).saved() == old(self).saved() && final(self).path_pos() == old(self).path_pos()
                && final(self).text_matrix_identity() == old(self).text_matrix_identity() && final(self).page_id() == old(self).page_id()
                && final(self).page_width() == old(self).page_width() && final(self).page_height()
                == old(self).page_height(),
    {
        let neg = match 0i64.checked_sub(pos.y) {
            Some(v) => v,
            None => {
                return Err(Error::InvalidArgument);
            },
        };
        let moved = if self.p.tlin {
            match self.p.tline {
                Some(q) => match (q.x.checked_add(pos.x), q.y.checked_add(pos.y)) {
                    (Some(nx), Some(ny)) => Some(Point { x: nx, y: ny }),
                    _ => None,
                },
                None => None,
            }
        } else {
            None
        };
        self.p.tline = moved;
        self.p.tpos = moved;
        self.p.gs.text_leading = neg;
        self.p.ops.push(PageOp::MoveTextPos2(pos));
        Ok(())
    }

    /// Set the text transformation matrix; its translation becomes the
    /// text position.  Unless the matrix's linear part is the identity,
    /// later relative moves pass through it, so the tracked positions
    /// become undetermined after the first one.
    pub fn set_text_matrix(&mut self, a: i64, b: i64, c: i64, d: i64, x: i64, y: i64) -> (r: Result<
        (),
        Error,
    >)
        requires
            old(self).wf(),
        ensures
            final(self).wf(),
            r is Ok,
            final(self).stream() == old(self).stream().push(PageOp::SetTextMatrix(a, b, c, d, x, y)),
            final(self).text_line() == Some(Point { x, y }),
            final(self).text_pos() == Some(Point { x, y }),
            final(self).text_matrix_identity() == (a == 1000 && b == 0 && c == 0 && d == 1000),
            final(self).gstate() == old(self).gstate(),
            final(self).saved() == old(self).saved(),
            final(self).path_pos() == old(self).path_pos(),
            final(self).page_id() == old(self).page_id(),
            final(self).page_width() == old(self).page_width(),
            final(self).page_height() == old(self).page_height(),
    {
        self.p.tline = Some(Point { x, y });
        self.p.tpos = Some(Point { x, y });
        self.p.tlin = a == 1000 && b == 0 && c == 0 && d == 1000;
        self.p.ops.push(PageOp::SetTextMatrix(a, b, c, d, x, y));
        Ok(())
    }

    /// Move the text position to the start of the next line, one
    /// leading below the current line start.
    pub fn move_to_next_line(&mut self) -> (r: Result<(), Error>)
        requires
            old(self).wf(),
        ensures
            final(self).wf(),
            r is Ok,
            final(self).stream() == old(self).stream().push(PageOp::MoveToNextLine),
            final(self).text_line() == (if old(self).text_matrix_identity() {
                next_line_opt(old(self).text_line(), old(self).gstate().text_leading)
            } else {
                None::<Point>
            }),
            final(self).text_pos() == final(self).text_line(),
            text_mode_keeps_all_but_pos(*old(self), *final(self)),
    {
        self.advance_line();
        let moved = self.p.tline;
        self.p.tpos = moved;
        self.p.ops.push(PageOp::MoveToNextLine);
        Ok(())
    }

    /// Show text at the current text position.
    ///
    /// Text holding an embedded null byte cannot be handed to the
    /// engine: the call fails with `InvalidArgument` and emits nothing.
    pub fn show_text(&mut self, text: &str) -> (r: Result<(), Error>)
        requires
            old(self).wf(),
        ensures
            final(self).wf(),
            has_nul(text.spec_bytes()) ==> r == Err::<(), Error>(Error::InvalidArgument) && *final(self) == *old(self),
            !has_nul(text.spec_bytes()) ==> r is Ok && final(self).stream().len() == old(self).stream().len() + 1 && final(self).stream().subrange(0, old(self).stream().len() as int)
                == old(self).stream() && (final(self).stream().last() matches PageOp::ShowText(v)
                && v@ == text.spec_bytes()) && final(self).text_pos() is None && final(self).text_line() == old(self).text_line() && text_mode_keeps_all_but_pos(
                *old(self),
                *final(self),
            ),
    {
        let bytes = text.as_bytes();
        if crate::ops::contains_nul(bytes) {
            return Err(Error::InvalidArgument);
        }
        let owned = vstd::slice::slice_to_vec(bytes);
        self.p.tpos = None;
        self.p.ops.push(PageOp::ShowText(owned));
        proof {
            assert(self.p.ops@.subrange(0, old(self).stream().len() as int) =~= old(self).stream());
        }
        Ok(())
    }

    /// Show raw bytes at the current text position.
    pub fn show_text_bytes(&mut self, text: &[u8]) -> (r: Result<(), Error>)
        requires
            old(self).wf(),
        ensures
            final(self).wf(),
            has_nul(text@) ==> r == Err::<(), Error>(Error::InvalidArgument) && *final(self) == *old(self),
            !has_nul(text@) ==> r is Ok && final(self).stream().len() == old(self).stream().len()
                + 1 && final(self).stream().subrange(0, old(self).stream().len() as int) == old(self).stream() && (final(self).stream().last() matches PageOp::ShowText(v) && v@ == text@)
                && final(self).text_pos() is None && final(self).text_line() == old(self).text_line() && text_mode_keeps_all_but_pos(*old(self), *final(self)),
    {
        if crate::ops::contains_nul(text) {
            return Err(Error::InvalidArgument);
        }
        let owned = vstd::slice::slice_to_vec(text);
        self.p.tpos = None;
        self.p.ops.push(PageOp::ShowText(owned));
        proof {
            assert(self.p.ops@.subrange(0, old(self).stream().len() as int) =~= old(self).stream());
        }
        Ok(())
    }

    /// Move to the start of the next line, then show text there.
    pub fn show_text_next_line(&mut self, text: &str) -> (r: Result<(), Error>)
        requires
            old(self).wf(),
        ensures
            final(self).wf(),
            has_nul(text.spec_bytes()) ==> r == Err::<(), Error>(Error::InvalidArgument) && *final(self) == *old(self),
            !has_nul(text.spec_bytes()) ==> r is Ok && final(self).stream().len() == old(self).stream().len() + 1 && final(self).stream().subrange(0, old(self).stream().len() as int)
                == old(self).stream() && (final(self).stream().last() matches PageOp::ShowTextNextLine(v) && v@ == text.spec_bytes())
                && final(self).text_line() == (if old(self).text_matrix_identity() {
                next_line_opt(old(self).text_line(), old(self).gstate().text_leading)
            } else {
                None::<Point>
            }) && final(self).text_pos() is None && text_mode_keeps_all_but_pos(
                *old(self),
                *final(self),
            ),
    {
        let bytes = text.as_bytes();
        if crate::ops::contains_nul(bytes) {
            return Err(Error::InvalidArgument);
        }
        let owned = vstd::slice::slice_to_vec(bytes);
        self.advance_line();
        self.p.tpos = None;
        self.p.ops.push(PageOp::ShowTextNextLine(owned));
        proof {
            assert(self.p.ops@.subrange(0, old(self).stream().len() as int) =~= old(self).stream());
        }
        Ok(())
    }

    /// Move to the start of the next line, then show raw bytes there.
    pub fn show_text_next_line_bytes(&mut self, text: &[u8]) -> (r: Result<(), Error>)
        requires
            old(self).wf(),
        ensures
            final(self).wf(),
            has_nul(text@) ==> r == Err::<(), Error>(Error::InvalidArgument) && *final(self) == *old(self),
            !has_nul(text@) ==> r is Ok && final(self).stream().len() == old(self).stream().len()
                + 1 && final(self).stream().subrange(0, old(self).stream().len() as int) == old(self).stream() && (final(self).stream().last() matches PageOp::ShowTextNextLine(v) && v@
                == text@) && final(self).text_line() == (if old(self).text_matrix_identity() {
                next_line_opt(old(self).text_line(), old(self).gstate().text_leading)
            } else {
                None::<Point>
            }) && final(self).text_pos() is None && text_mode_keeps_all_but_pos(
                *old(self),
                *final(self),
            ),
    {
        if crate::ops::contains_nul(text) {
            return Err(Error::InvalidArgument);
        }
        let owned = vstd::slice::slice_to_vec(text);
        self.advance_line();
        self.p.tpos = None;
        self.p.ops.push(PageOp::ShowTextNextLine(owned));
        proof {
            assert(self.p.ops@.subrange(0, old(self).stream().len() as int) =~= old(self).stream());
        }
        Ok(())
    }

    /// Move to the start of the next line, set the word and character
    /// spacing, then show text there.
    pub fn show_text_next_line_ex(&mut self, word_space: i64, char_space: i64, text: &str) -> (r:
        Result<(), Error>)
        requires
            old(self).wf(),
        ensures
            final(self).wf(),
            has_nul(text.spec_bytes()) ==> r == Err::<(), Error>(Error::InvalidArgument) && *final(self) == *old(self),
            !has_nul(text.spec_bytes()) && !(MIN_WORD_SPACE <= word_space <= MAX_WORD_SPACE
                && MIN_CHAR_SPACE <= char_space <= MAX_CHAR_SPACE) ==> r == Err::<(), Error>(
                Error::EngineRejected(STATUS_OUT_OF_RANGE),
            ) && *final(self) == *old(self),
            !has_nul(text.spec_bytes()) && MIN_WORD_SPACE <= word_space <= MAX_WORD_SPACE
                && MIN_CHAR_SPACE <= char_space <= MAX_CHAR_SPACE ==> r is Ok && final(self).stream().len() == old(self).stream().len() + 1 && final(self).stream().subrange(
                0,
                old(self).stream().len() as int,
            ) == old(self).stream() && (final(self).stream().last() matches PageOp::ShowTextNextLineEx(ws, cs, v) && ws == word_space
                && cs == char_space && v@ == text.spec_bytes()) && final(self).gstate() == (
            GraphicsState { word_space, char_space, ..old(self).gstate() }) && final(self).text_line() == (if old(self).text_matrix_identity() {
                next_line_opt(old(self).text_line(), old(self).gstate().text_leading)
            } else {
                None::<Point>
            }) && final(self).text_pos() is None && final(self).saved() == old(self).saved()
                && final(self).path_pos() == old(self).path_pos() && final(self).text_matrix_identity() == old(self).text_matrix_identity() && final(self).page_id()
                == old(self).page_id() && final(self).page_width()
                == old(self).page_width() && final(self).page_height() == old(self).page_height(),
    {
        let bytes = text.as_bytes();
        if crate::ops::contains_nul(bytes) {
            return Err(Error::InvalidArgument);
        }
        if word_space < MIN_WORD_SPACE || word_space > MAX_WORD_SPACE || char_space
            < MIN_CHAR_SPACE || char_space > MAX_CHAR_SPACE {
            return Err(Error::EngineRejected(STATUS_OUT_OF_RANGE));
        }
        let owned = vstd::slice::slice_to_vec(bytes);
        self.advance_line();
        self.p.tpos = None;
        self.p.gs.word_space = word_space;
        self.p.gs.char_space = char_space;
        self.p.ops.push(PageOp::ShowTextNextLineEx(word_space, char_space, owned));
        proof {
            assert(self.p.ops@.subrange(0, old(self).stream().len() as int) =~= old(self).stream());
        }
        Ok(())
    }

    /// Move the text position to a point, then show text there.
    pub fn text_out(&mut self, pos: Point, text: &str) -> (r: Result<(), Error>)
        requires
            old(self).wf(),
        ensures
            final(self).wf(),
            has_nul(text.spec_bytes()) ==> r == Err::<(), Error>(Error::InvalidArgument) && *final(self) == *old(self),
            !has_nul(text.spec_bytes()) ==> r is Ok && final(self).stream().len() == old(self).stream().len() + 1 && final(self).stream().subrange(0, old(self).stream().len() as int)
                == old(self).stream() && (final(self).stream().last() matches PageOp::TextOut(q, v)
                && q == pos && v@ == text.spec_bytes()) && final(self).text_line() == Some(pos)
                && final(self).text_pos() is None && text_mode_keeps_all_but_pos(
                *old(self),
                *final(self),
            ),
    {
        let bytes = text.as_bytes();
        if crate::ops::contains_nul(bytes) {
            return Err(Error::InvalidArgument);
        }
        let owned = vstd::slice::slice_to_vec(bytes);
        self.p.tline = Some(pos);
        self.p.tpos = None;
        self.p.ops.push(PageOp::TextOut(pos, owned));
        proof {
            assert(self.p.ops@.subrange(0, old(self).stream().len() as int) =~= old(self).stream());
        }
        Ok(())
    }

    /// Move the text position to a point, then show raw bytes there.
    pub fn text_out_bytes(&mut self, pos: Point, text: &[u8]) -> (r: Result<(), Error>)
        requires
            old(self).wf(),
        ensures
            final(self).wf(),
            has_nul(text@) ==> r == Err::<(), Error>(Error::InvalidArgument) && *final(self) == *old(self),
            !has_nul(text@) ==> r is Ok && final(self).stream().len() == old(self).stream().len()
                + 1 && final(self).stream().subrange(0, old(self).stream().len() as int) == old(self).stream() && (final(self).stream().last() matches PageOp::TextOut(q, v) && q == pos
                && v@ == text@) && final(self).text_line() == Some(pos) && final(self).text_pos() is None && text_mode_keeps_all_but_pos(*old(self), *final(self)),
    {
        if crate::ops::contains_nul(text) {
            return Err(Error::InvalidArgument);
        }
        let owned = vstd::slice::slice_to_vec(text);
        self.p.tline = Some(pos);
        self.p.tpos = None;
        self.p.ops.push(PageOp::TextOut(pos, owned));
        proof {
            assert(self.p.ops@.subrange(0, old(self).stream().len() as int) =~= old(self).stream());
        }
        Ok(())
    }

    /// Lay text out inside a rectangle with the given alignment.  The
    /// engine lays the lines out itself, so afterwards neither the text
    /// position nor the line start is determined.
    pub fn text_rect(&mut self, rect: Rect, text: &str, align: TextAlignment) -> (r: Result<
        (),
        Error,
    >)
        requires
            old(self).wf(),
        ensures
            final(self).wf(),
            has_nul(text.spec_bytes()) ==> r == Err::<(), Error>(Error::InvalidArgument) && *final(self) == *old(self),
            !has_nul(text.spec_bytes()) ==> r is Ok && final(self).stream().len() == old(self).stream().len() + 1 && final(self).stream().subrange(0, old(self).stream().len() as int)
                == old(self).stream() && (final(self).stream().last() matches PageOp::TextRect(rc, v, al) && rc == rect && v@
                == text.spec_bytes() && al == align) && final(self).text_line() is None && final(self).text_pos() is None && text_mode_keeps_all_but_pos(*old(self), *final(self)),
    {
        let bytes = text.as_bytes();
        if crate::ops::contains_nul(bytes) {
            return Err(Error::InvalidArgument);
        }
        let owned = vstd::slice::slice_to_vec(bytes);
        self.p.tline = None;
        self.p.tpos = None;
        self.p.ops.push(PageOp::TextRect(rect, owned, align));
        proof {
            assert(self.p.ops@.subrange(0, old(self).stream().len() as int) =~= old(self).stream());
        }
        Ok(())
    }

    /// Lay raw bytes out inside a rectangle with the given alignment.
    pub fn text_rect_bytes(&mut self, rect: Rect, text: &[u8], align: TextAlignment) -> (r: Result<
        (),
        Error,
    >)
        requires
            old(self).wf(),
        ensures
            final(self).wf(),
            has_nul(text@) ==> r == Err::<(), Error>(Error::InvalidArgument) && *final(self) == *old(self),
            !has_nul(text@) ==> r is Ok && final(self).stream().len() == old(self).stream().len()
                + 1 && final(self).stream().subrange(0, old(self).stream().len() as int) == old(self).stream() && (final(self).stream().last() matches PageOp::TextRect(rc, v, al) && rc
                == rect && v@ == text@ && al == align) && final(self).text_line() is None && final(self).text_pos() is None && text_mode_keeps_all_but_pos(*old(self), *final(self)),
    {
        if crate::ops::contains_nul(text) {
            return Err(Error::InvalidArgument);
        }
        let owned = vstd::slice::slice_to_vec(text);
        self.p.tline = None;
        self.p.tpos = None;
        self.p.ops.push(PageOp::TextRect(rect, owned, align));
        proof {
            assert(self.p.ops@.subrange(0, old(self).stream().len() as int) =~= old(self).stream());
        }
        Ok(())
    }

    /// Moves the tracked line start one leading down; shared by the
    /// next-line text operations.
    fn advance_line(&mut self)
        ensures
            final(self).p.tline == (if old(self).p.tlin {
                next_line_opt(old(self).p.tline, old(self).p.gs.text_leading)
            } else {
                None::<Point>
            }),
            final(self).p.ops == old(self).p.ops,
            final(self).p.gs == old(self).p.gs,
            final(self).p.stack == old(self).p.stack,
            final(self).p.tpos == old(self).p.tpos,
            final(self).p.ppos == old(self).p.ppos,
            final(self).p.tlin == old(self).p.tlin,
            final(self).p.id == old(self).p.id,
            final(self).p.width == old(self).p.width,
            final(self).p.height == old(self).p.height,
    {
        let moved = if self.p.tlin {
            match self.p.tline {
                Some(q) => match q.y.checked_sub(self.p.gs.text_leading) {
                    Some(ny) => Some(Point { x: q.x, y: ny }),
                    None => None,
                },
                None => None,
            }
        } else {
            None
        };
        self.p.tline = moved;
    }
}


/// Everything of a path writer but the stream and graphics state is
/// unchanged.
pub open spec fn path_mode_keeps_all_but_gs(pre: PagePathMode, post: PagePathMode) -> bool {
    &&& post.saved() == pre.saved()
    &&& post.text_line() == pre.text_line()
    &&& post.text_pos() == pre.text_pos()
    &&& post.path_pos() == pre.path_pos()
    &&& post.text_matrix_identity() == pre.text_matrix_identity()
    &&& post.page_id() == pre.page_id()
    &&& post.page_width() == pre.page_width()
    &&& post.page_height() == pre.page_height()
}

/// Everything of a path writer but the stream and path position is
/// unchanged.
pub open spec fn path_mode_keeps_all_but_pos(pre: PagePathMode, post: PagePathMode) -> bool {
    &&& post.gstate() == pre.gstate()
    &&& post.saved() == pre.saved()
    &&& post.text_line() == pre.text_line()
    &&& post.text_pos() == pre.text_pos()
    &&& post.text_matrix_identity() == pre.text_matrix_identity()
    &&& post.page_id() == pre.page_id()
    &&& post.page_width() == pre.page_width()
    &&& post.page_height() == pre.page_height()
}

impl PageTextMode {
    /// Set the extra spacing between characters.
    pub fn set_char_space(&mut self, value: i64) -> (r: Result<(), Error>)
        requires
            old(self).wf(),
        ensures
            final(self).wf(),
            MIN_CHAR_SPACE <= value <= MAX_CHAR_SPACE ==> r is Ok && final(self).stream() == old(self).stream().push(PageOp::SetCharSpace(value))
                && final(self).gstate() == (GraphicsState { char_space: value, ..old(self).gstate() })
                && text_mode_keeps_all_but_gs(*old(self), *final(self)),
            !(MIN_CHAR_SPACE <= value <= MAX_CHAR_SPACE) ==> r == Err::<(), Error>(Error::EngineRejected(STATUS_OUT_OF_RANGE)) && *final(self) == *old(self),
    {
        self.p.set_char_space(value)
    }

    /// Set the extra spacing between words.
    pub fn set_word_space(&mut self, value: i64) -> (r: Result<(), Error>)
        requires
            old(self).wf(),
        ensures
            final(self).wf(),
            MIN_WORD_SPACE <= value <= MAX_WORD_SPACE ==> r is Ok && final(self).stream() == old(self).stream().push(PageOp::SetWordSpace(value))
                && final(self).gstate() == (GraphicsState { word_space: value, ..old(self).gstate() })
                && text_mode_keeps_all_but_gs(*old(self), *final(self)),
            !(MIN_WORD_SPACE <= value <= MAX_WORD_SPACE) ==> r == Err::<(), Error>(Error::EngineRejected(STATUS_OUT_OF_RANGE)) && *final(self) == *old(self),
    {
        self.p.set_word_space(value)
    }

    /// Set the horizontal scaling of text.
    pub fn set_horizontal_scalling(&mut self, value: i64) -> (r: Result<(), Error>)
        requires
            old(self).wf(),
        ensures
            final(self).wf(),
            MIN_HORIZONTAL_SCALING <= value <= MAX_HORIZONTAL_SCALING ==> r is Ok && final(self).stream() == old(self).stream().push(PageOp::SetHorizontalScaling(value))
                && final(self).gstate() == (GraphicsState { horizontal_scaling: value, ..old(self).gstate() })
                && text_mode_keeps_all_but_gs(*old(self), *final(self)),
            !(MIN_HORIZONTAL_SCALING <= value <= MAX_HORIZONTAL_SCALING) ==> r == Err::<(), Error>(Error::EngineRejected(STATUS_OUT_OF_RANGE)) && *final(self) == *old(self),
    {
        self.p.set_horizontal_scalling(value)
    }

    /// Set the distance between text lines.
    pub fn set_text_leading(&mut self, value: i64) -> (r: Result<(), Error>)
        requires
            old(self).wf(),
        ensures
            final(self).wf(),
            r is Ok,
            final(self).stream() == old(self).stream().push(PageOp::SetTextLeading(value)),
            final(self).gstate() == (GraphicsState { text_leading: value, ..old(self).gstate() }),
            text_mode_keeps_all_but_gs(*old(self), *final(self)),
    {
        self.p.set_text_leading(value)
    }

    /// Set how shown text is painted.
    pub fn set_text_rendering_mode(&mut self, mode: TextRenderingMode) -> (r: Result<(), Error>)
        requires
            old(self).wf(),
        ensures
            final(self).wf(),
            r is Ok,
            final(self).stream() == old(self).stream().push(PageOp::SetTextRenderingMode(mode)),
            final(self).gstate() == (GraphicsState { rendering_mode: mode, ..old(self).gstate() }),
            text_mode_keeps_all_but_gs(*old(self), *final(self)),
    {
        self.p.set_text_rendering_mode(mode)
    }

    /// Set the filling color to a gray intensity.  Legal in text mode too.
    pub fn set_gray_fill(&mut self, gray: i64) -> (r: Result<(), Error>)
        requires
            old(self).wf(),
        ensures
            final(self).wf(),
            intensity_in_range(gray) ==> r is Ok && final(self).stream() == old(self).stream().push(PageOp::SetGrayFill(gray))
                && final(self).gstate() == (GraphicsState { fill: PaintColor::Gray(gray), ..old(self).gstate() })
                && text_mode_keeps_all_but_gs(*old(self), *final(self)),
            !(intensity_in_range(gray)) ==> r == Err::<(), Error>(Error::EngineRejected(STATUS_OUT_OF_RANGE)) && *final(self) == *old(self),
    {
        self.p.set_gray_fill(gray)
    }

    /// Set the stroking color to a gray intensity.  Legal in text mode too.
    pub fn set_gray_stroke(&mut self, gray: i64) -> (r: Result<(), Error>)
        requires
            old(self).wf(),
        ensures
            final(self).wf(),
            intensity_in_range(gray) ==> r is Ok && final(self).stream() == old(self).stream().push(PageOp::SetGrayStroke(gray))
                && final(self).gstate() == (GraphicsState { stroke: PaintColor::Gray(gray), ..old(self).gstate() })
                && text_mode_keeps_all_but_gs(*old(self), *final(self)),
            !(intensity_in_range(gray)) ==> r == Err::<(), Error>(Error::EngineRejected(STATUS_OUT_OF_RANGE)) && *final(self) == *old(self),
    {
        self.p.set_gray_stroke(gray)
    }

    /// Set the filling color to an RGB color.  Legal in text mode too.
    pub fn set_rgb_fill(&mut self, color: Color) -> (r: Result<(), Error>)
        requires
            old(self).wf(),
        ensures
            final(self).wf(),
            color.in_range() ==> r is Ok && final(self).stream() == old(self).stream().push(PageOp::SetRgbFill(color))
                && final(self).gstate() == (GraphicsState { fill: PaintColor::Rgb(color), ..old(self).gstate() })
                && text_mode_keeps_all_but_gs(*old(self), *final(self)),
            !(color.in_range()) ==> r == Err::<(), Error>(Error::EngineRejected(STATUS_OUT_OF_RANGE)) && *final(self) == *old(self),
    {
        self.p.set_rgb_fill(color)
    }

    /// Set the stroking color to an RGB color.  Legal in text mode too.
    pub fn set_rgb_stroke(&mut self, color: Color) -> (r: Result<(), Error>)
        requires
            old(self).wf(),
        ensures
            final(self).wf(),
            color.in_range() ==> r is Ok && final(self).stream() == old(self).stream().push(PageOp::SetRgbStroke(color))
                && final(self).gstate() == (GraphicsState { stroke: PaintColor::Rgb(color), ..old(self).gstate() })
                && text_mode_keeps_all_but_gs(*old(self), *final(self)),
            !(color.in_range()) ==> r == Err::<(), Error>(Error::EngineRejected(STATUS_OUT_OF_RANGE)) && *final(self) == *old(self),
    {
        self.p.set_rgb_stroke(color)
    }

    /// Set the filling color to a CMYK color.  Legal in text mode too.
    pub fn set_cmyk_fill(&mut self, color: CmykColor) -> (r: Result<(), Error>)
        requires
            old(self).wf(),
        ensures
            final(self).wf(),
            color.in_range() ==> r is Ok && final(self).stream() == old(self).stream().push(PageOp::SetCmykFill(color))
                && final(self).gstate() == (GraphicsState { fill: PaintColor::Cmyk(color), ..old(self).gstate() })
                && text_mode_keeps_all_but_gs(*old(self), *final(self)),
            !(color.in_range()) ==> r == Err::<(), Error>(Error::EngineRejected(STATUS_OUT_OF_RANGE)) && *final(self) == *old(self),
    {
        self.p.set_cmyk_fill(color)
    }

    /// Set the stroking color to a CMYK color.  Legal in text mode too.
    pub fn set_cmyk_stroke(&mut self, color: CmykColor) -> (r: Result<(), Error>)
        requires
            old(self).wf(),
        ensures
            final(self).wf(),
            color.in_range() ==> r is Ok && final(self).stream() == old(self).stream().push(PageOp::SetCmykStroke(color))
                && final(self).gstate() == (GraphicsState { stroke: PaintColor::Cmyk(color), ..old(self).gstate() })
                && text_mode_keeps_all_but_gs(*old(self), *final(self)),
            !(color.in_range()) ==> r == Err::<(), Error>(Error::EngineRejected(STATUS_OUT_OF_RANGE)) && *final(self) == *old(self),
    {
        self.p.set_cmyk_stroke(color)
    }

    /// Select the font and size text is shown with.
    pub fn set_font_and_size(&mut self, font: &crate::font::Font, size: i64) -> (r: Result<
        (),
        Error,
    >)
        requires
            old(self).wf(),
        ensures
            final(self).wf(),
            0 < size <= MAX_FONT_SIZE ==> r is Ok && final(self).stream() == old(self).stream().push(
                PageOp::SetFontAndSize(font.id(), size),
            ) && final(self).gstate() == (GraphicsState {
                font: Some(FontChoice { font_id: font.id(), size }),
                ..old(self).gstate()
            }) && text_mode_keeps_all_but_gs(*old(self), *final(self)),
            !(0 < size <= MAX_FONT_SIZE) ==> r == Err::<(), Error>(
                Error::EngineRejected(STATUS_INVALID_FONT_SIZE),
            ) && *final(self) == *old(self),
    {
        self.p.set_font_and_size(font, size)
    }

    /// Set the shape used at the ends of lines.
    pub fn set_line_cap(&mut self, line_cap: LineCap) -> (r: Result<(), Error>)
        requires
            old(self).wf(),
        ensures
            final(self).wf(),
            r is Ok,
            final(self).stream() == old(self).stream().push(PageOp::SetLineCap(line_cap)),
            final(self).gstate() == (GraphicsState { line_cap: line_cap, ..old(self).gstate() }),
            text_mode_keeps_all_but_gs(*old(self), *final(self)),
    {
        self.p.set_line_cap(line_cap)
    }

    /// Set the line join style.
    pub fn set_line_join(&mut self, line_join: LineJoin) -> (r: Result<(), Error>)
        requires
            old(self).wf(),
        ensures
            final(self).wf(),
            r is Ok,
            final(self).stream() == old(self).stream().push(PageOp::SetLineJoin(line_join)),
            final(self).gstate() == (GraphicsState { line_join: line_join, ..old(self).gstate() }),
            text_mode_keeps_all_but_gs(*old(self), *final(self)),
    {
        self.p.set_line_join(line_join)
    }

    /// Set the line dash pattern, as `Page::set_dash` does.
    pub fn set_dash(&mut self, dash_mode: &[u16], phase: usize) -> (r: Result<(), Error>)
        requires
            old(self).wf(),
        ensures
            final(self).wf(),
            r is Err ==> *final(self) == *old(self),
            phase > u32::MAX ==> r == Err::<(), Error>(Error::InvalidArgument),
            phase <= u32::MAX && !dash_count_ok(dash_mode@.len() as int) ==> r == Err::<(), Error>(
                Error::EngineRejected(STATUS_INVALID_PARAM_COUNT),
            ),
            phase <= u32::MAX && dash_count_ok(dash_mode@.len() as int) && !(dash_mode@.len() == 0
                && phase > 0) && dash_segments_ok(dash_mode@) ==> r is Ok && final(self).stream().len() == old(self).stream().len() + 1 && final(self).stream().subrange(
                0,
                old(self).stream().len() as int,
            ) == old(self).stream() && (final(self).stream().last() matches PageOp::SetDash(v, ph)
                && v@ == dash_mode@ && ph == phase as u32) && final(self).gstate() == old(self).gstate() && text_mode_keeps_all_but_gs(*old(self), *final(self)),
            phase <= u32::MAX && dash_count_ok(dash_mode@.len() as int) && (dash_mode@.len() == 0
                && phase > 0 || !dash_segments_ok(dash_mode@)) ==> r == Err::<(), Error>(
                Error::EngineRejected(STATUS_OUT_OF_RANGE),
            ),
    {
        self.p.set_dash(dash_mode, phase)
    }

    /// Reset to a solid, undashed line.
    pub fn clear_dash(&mut self) -> (r: Result<(), Error>)
        requires
            old(self).wf(),
        ensures
            final(self).wf(),
            r is Ok,
            final(self).stream() == old(self).stream().push(PageOp::ClearDash),
            final(self).gstate() == old(self).gstate(),
            text_mode_keeps_all_but_gs(*old(self), *final(self)),
    {
        self.p.clear_dash()
    }

    /// Push the graphics state on the save stack.
    pub fn gsave(&mut self) -> (r: Result<(), Error>)
        requires
            old(self).wf(),
        ensures
            final(self).wf(),
            old(self).saved().len() < GSTATE_DEPTH_LIMIT ==> r is Ok && final(self).stream()
                == old(self).stream().push(PageOp::GSave) && final(self).gstate() == old(self).gstate() && final(self).saved() == old(self).saved().push(old(self).gstate())
                && final(self).text_line() == old(self).text_line() && final(self).text_pos()
                == old(self).text_pos() && final(self).path_pos() == old(self).path_pos()
                && final(self).page_width() == old(self).page_width() && final(self).page_height()
                == old(self).page_height(),
            old(self).saved().len() >= GSTATE_DEPTH_LIMIT ==> r == Err::<(), Error>(
                Error::EngineRejected(STATUS_EXCEED_GSTATE_LIMIT),
            ) && *final(self) == *old(self),
    {
        self.p.gsave()
    }

    /// Pop the save stack into the graphics state.
    pub fn grestore(&mut self) -> (r: Result<(), Error>)
        requires
            old(self).wf(),
        ensures
            final(self).wf(),
            old(self).saved().len() > 0 ==> r is Ok && final(self).stream() == old(self).stream().push(PageOp::GRestore) && final(self).gstate() == old(self).saved().last()
                && final(self).saved() == old(self).saved().drop_last() && final(self).text_line()
                == old(self).text_line() && final(self).text_pos() == old(self).text_pos()
                && final(self).path_pos() == old(self).path_pos() && final(self).page_width()
                == old(self).page_width() && final(self).page_height() == old(self).page_height(),
            old(self).saved().len() == 0 ==> r == Err::<(), Error>(
                Error::EngineRejected(STATUS_CANNOT_RESTORE_GSTATE),
            ) && *final(self) == *old(self),
    {
        self.p.grestore()
    }
}

impl PagePathMode {
    /// Start a new subpath at a point.
    pub fn move_to(&mut self, pos: Point) -> (r: Result<(), Error>)
        requires
            old(self).wf(),
        ensures
            final(self).wf(),
            r is Ok,
            final(self).stream() == old(self).stream().push(PageOp::MoveTo(pos)),
            final(self).path_pos() == Some(pos),
            path_mode_keeps_all_but_pos(*old(self), *final(self)),
    {
        self.p.ppos = Some(pos);
        self.p.ops.push(PageOp::MoveTo(pos));
        Ok(())
    }

    /// Extend the current subpath with a line to a point.
    pub fn line_to(&mut self, pos: Point) -> (r: Result<(), Error>)
        requires
            old(self).wf(),
        ensures
            final(self).wf(),
            r is Ok,
            final(self).stream() == old(self).stream().push(PageOp::LineTo(pos)),
            final(self).path_pos() == Some(pos),
            path_mode_keeps_all_but_pos(*old(self), *final(self)),
    {
        self.p.ppos = Some(pos);
        self.p.ops.push(PageOp::LineTo(pos));
        Ok(())
    }

    /// Append a Bezier curve through three control points; the last becomes the current point.
    pub fn curve_to(&mut self, point1: Point, point2: Point, point3: Point) -> (r: Result<(), Error>)
        requires
            old(self).wf(),
        ensures
            final(self).wf(),
            r is Ok,
            final(self).stream() == old(self).stream().push(PageOp::CurveTo(point1, point2, point3)),
            final(self).path_pos() == Some(point3),
            path_mode_keeps_all_but_pos(*old(self), *final(self)),
    {
        self.p.ppos = Some(point3);
        self.p.ops.push(PageOp::CurveTo(point1, point2, point3));
        Ok(())
    }

    /// Append a Bezier curve whose first control point is the current point.
    pub fn curve_to_2(&mut self, point2: Point, point3: Point) -> (r: Result<(), Error>)
        requires
            old(self).wf(),
        ensures
            final(self).wf(),
            r is Ok,
            final(self).stream() == old(self).stream().push(PageOp::CurveTo2(point2, point3)),
            final(self).path_pos() == Some(point3),
            path_mode_keeps_all_but_pos(*old(self), *final(self)),
    {
        self.p.ppos = Some(point3);
        self.p.ops.push(PageOp::CurveTo2(point2, point3));
        Ok(())
    }

    /// Append a Bezier curve whose second control point equals its end point.
    pub fn curve_to_3(&mut self, point1: Point, point3: Point) -> (r: Result<(), Error>)
        requires
            old(self).wf(),
        ensures
            final(self).wf(),
            r is Ok,
            final(self).stream() == old(self).stream().push(PageOp::CurveTo3(point1, point3)),
            final(self).path_pos() == Some(point3),
            path_mode_keeps_all_but_pos(*old(self), *final(self)),
    {
        self.p.ppos = Some(point3);
        self.p.ops.push(PageOp::CurveTo3(point1, point3));
        Ok(())
    }

    /// Append a rectangle: lower-left corner, width and height.
    pub fn rectangle(&mut self, pos: Point, width: i64, height: i64) -> (r: Result<(), Error>)
        requires
            old(self).wf(),
        ensures
            final(self).wf(),
            r is Ok,
            final(self).stream() == old(self).stream().push(PageOp::Rectangle(pos, width, height)),
            final(self).path_pos() == Some(pos),
            path_mode_keeps_all_but_pos(*old(self), *final(self)),
    {
        self.p.ppos = Some(pos);
        self.p.ops.push(PageOp::Rectangle(pos, width, height));
        Ok(())
    }

    /// Append a circle around a center with the given radius; the
    /// current point ends at its leftmost point.
    pub fn circle(&mut self, pos: Point, ray: i64) -> (r: Result<(), Error>)
        requires
            old(self).wf(),
        ensures
            final(self).wf(),
            r is Ok,
            final(self).stream() == old(self).stream().push(PageOp::Circle(pos, ray)),
            final(self).path_pos() == offset_opt(Some(pos), -(ray as int), 0),
            path_mode_keeps_all_but_pos(*old(self), *final(self)),
    {
        self.p.ppos = match pos.x.checked_sub(ray) {
            Some(nx) => Some(Point { x: nx, y: pos.y }),
            None => None,
        };
        self.p.ops.push(PageOp::Circle(pos, ray));
        Ok(())
    }

    /// Append an arc around a center: radius, start and end angle in
    /// thousandths of a degree.  A reversed pair of angles sweeps the
    /// other way; the engine rejects only a sweep of a full turn or
    /// more.  Where it draws, the current point ends on the arc, at a
    /// place only the engine's trigonometry determines.
    pub fn arc(&mut self, pos: Point, ray: i64, ang1: i64, ang2: i64) -> (r: Result<(), Error>)
        requires
            old(self).wf(),
        ensures
            final(self).wf(),
            (if ang1 <= ang2 {
                ang2 - ang1
            } else {
                ang1 - ang2
            }) < 360000 ==> r is Ok && final(self).stream() == old(self).stream().push(PageOp::Arc(pos, ray, ang1, ang2)) && final(self).path_pos() is None
                && path_mode_keeps_all_but_pos(*old(self), *final(self)),
            (if ang1 <= ang2 {
                ang2 - ang1
            } else {
                ang1 - ang2
            }) >= 360000 ==> r == Err::<(), Error>(
                Error::EngineRejected(STATUS_OUT_OF_RANGE),
            ) && *final(self) == *old(self),
    {
        let ok = if ang1 <= ang2 {
            match ang2.checked_sub(ang1) {
                Some(d) => d < 360000,
                None => false,
            }
        } else {
            match ang1.checked_sub(ang2) {
                Some(d) => d < 360000,
                None => false,
            }
        };
        if !ok {
            return Err(Error::EngineRejected(STATUS_OUT_OF_RANGE));
        }
        self.p.ppos = None;
        self.p.ops.push(PageOp::Arc(pos, ray, ang1, ang2));
        Ok(())
    }

    /// Stroke the current path, then clear it.  The current point returns to the origin.
    pub fn stroke(&mut self) -> (r: Result<(), Error>)
        requires
            old(self).wf(),
        ensures
            final(self).wf(),
            r is Ok,
            final(self).stream() == old(self).stream().push(PageOp::Stroke),
            final(self).path_pos() == Some(Point { x: 0, y: 0 }),
            path_mode_keeps_all_but_pos(*old(self), *final(self)),
    {
        self.p.ppos = Some(Point { x: 0, y: 0 });
        self.p.ops.push(PageOp::Stroke);
        Ok(())
    }

    /// Fill the current path using the nonzero winding rule, then clear it.  The current point returns to the origin.
    pub fn fill(&mut self) -> (r: Result<(), Error>)
        requires
            old(self).wf(),
        ensures
            final(self).wf(),
            r is Ok,
            final(self).stream() == old(self).stream().push(PageOp::Fill),
            final(self).path_pos() == Some(Point { x: 0, y: 0 }),
            path_mode_keeps_all_but_pos(*old(self), *final(self)),
    {
        self.p.ppos = Some(Point { x: 0, y: 0 });
        self.p.ops.push(PageOp::Fill);
        Ok(())
    }

    /// Fill, then stroke, the current path, then clear it.  The current point returns to the origin.
    pub fn fill_stroke(&mut self) -> (r: Result<(), Error>)
        requires
            old(self).wf(),
        ensures
            final(self).wf(),
            r is Ok,
            final(self).stream() == old(self).stream().push(PageOp::FillStroke),
            final(self).path_pos() == Some(Point { x: 0, y: 0 }),
            path_mode_keeps_all_but_pos(*old(self), *final(self)),
    {
        self.p.ppos = Some(Point { x: 0, y: 0 });
        self.p.ops.push(PageOp::FillStroke);
        Ok(())
    }

    /// Intersect the clipping region with the current path, then clear it.  The current point returns to the origin.
    pub fn clip(&mut self) -> (r: Result<(), Error>)
        requires
            old(self).wf(),
        ensures
            final(self).wf(),
            r is Ok,
            final(self).stream() == old(self).stream().push(PageOp::Clip),
            final(self).path_pos() == Some(Point { x: 0, y: 0 }),
            path_mode_keeps_all_but_pos(*old(self), *final(self)),
    {
        self.p.ppos = Some(Point { x: 0, y: 0 });
        self.p.ops.push(PageOp::Clip);
        Ok(())
    }

    /// Set the stroke width.
    pub fn set_line_width(&mut self, width: i64) -> (r: Result<(), Error>)
        requires
            old(self).wf(),
        ensures
            final(self).wf(),
            width >= 0 ==> r is Ok && final(self).stream() == old(self).stream().push(PageOp::SetLineWidth(width))
                && final(self).gstate() == (GraphicsState { line_width: width, ..old(self).gstate() })
                && path_mode_keeps_all_but_gs(*old(self), *final(self)),
            !(width >= 0) ==> r == Err::<(), Error>(Error::EngineRejected(STATUS_OUT_OF_RANGE)) && *final(self) == *old(self),
    {
        self.p.set_line_width(width)
    }

    /// Push the graphics state on the save stack.
    pub fn gsave(&mut self) -> (r: Result<(), Error>)
        requires
            old(self).wf(),
        ensures
            final(self).wf(),
            old(self).saved().len() < GSTATE_DEPTH_LIMIT ==> r is Ok && final(self).stream()
                == old(self).stream().push(PageOp::GSave) && final(self).gstate() == old(self).gstate() && final(self).saved() == old(self).saved().push(old(self).gstate())
                && final(self).text_line() == old(self).text_line() && final(self).text_pos()
                == old(self).text_pos() && final(self).path_pos() == old(self).path_pos()
                && final(self).page_width() == old(self).page_width() && final(self).page_height()
                == old(self).page_height(),
            old(self).saved().len() >= GSTATE_DEPTH_LIMIT ==> r == Err::<(), Error>(
                Error::EngineRejected(STATUS_EXCEED_GSTATE_LIMIT),
            ) && *final(self) == *old(self),
    {
        self.p.gsave()
    }

    /// Pop the save stack into the graphics state.
    pub fn grestore(&mut self) -> (r: Result<(), Error>)
        requires
            old(self).wf(),
        ensures
            final(self).wf(),
            old(self).saved().len() > 0 ==> r is Ok && final(self).stream() == old(self).stream().push(PageOp::GRestore) && final(self).gstate() == old(self).saved().last()
                && final(self).saved() == old(self).saved().drop_last() && final(self).text_line()
                == old(self).text_line() && final(self).text_pos() == old(self).text_pos()
                && final(self).path_pos() == old(self).path_pos() && final(self).page_width()
                == old(self).page_width() && final(self).page_height() == old(self).page_height(),
            old(self).saved().len() == 0 ==> r == Err::<(), Error>(
                Error::EngineRejected(STATUS_CANNOT_RESTORE_GSTATE),
            ) && *final(self) == *old(self),
    {
        self.p.grestore()
    }
}


/// The `move_text_pos` transition: the offset is recorded and both
/// tracked positions move by it.
pub open spec fn move_text_pos_rel(pre: PageTextMode, post: PageTextMode, d: Point) -> bool {
    &&& post.stream() == pre.stream().push(PageOp::MoveTextPos(d))
    &&& post.text_line() == (if pre.text_matrix_identity() {
        offset_opt(pre.text_line(), d.x as int, d.y as int)
    } else {
        None::<Point>
    })
    &&& post.text_pos() == post.text_line()
    &&& text_mode_keeps_all_but_pos(pre, post)
}

/// The position reached from `start` after applying a list of
/// `move_text_pos` offsets in order: `None` as soon as a sum leaves the
/// coordinate range.
pub open spec fn sum_moves(start: Point, ds: Seq<Point>) -> Option<Point>
    decreases ds.len(),
{
    if ds.len() == 0 {
        Some(start)
    } else {
        offset_opt(sum_moves(start, ds.drop_last()), ds.last().x as int, ds.last().y as int)
    }
}

/// Reading the text position after any chain of `move_text_pos` calls
/// sees the cumulative offset of the whole chain, applied in the order
/// of the calls.
pub proof fn lemma_moves_accumulate(ws: Seq<PageTextMode>, ds: Seq<Point>, start: Point)
    requires
        ws.len() == ds.len() + 1,
        ws[0].text_line() == Some(start),
        ws[0].text_matrix_identity(),
        forall|i: int|
            0 <= i < ds.len() ==> #[trigger] move_text_pos_rel(ws[i], ws[i + 1], ds[i]),
    ensures
        ws.last().text_line() == sum_moves(start, ds),
        ws.last().text_matrix_identity(),
        ds.len() > 0 ==> ws.last().text_pos() == ws.last().text_line(),
    decreases ds.len(),
{
    if ds.len() > 0 {
        let n = ds.len() as int;
        lemma_moves_accumulate(ws.drop_last(), ds.drop_last(), start);
        assert(ws.drop_last()[0] == ws[0]);
        assert(ws.drop_last().last() == ws[n - 1]);
        assert(move_text_pos_rel(ws[n - 1], ws[n], ds[n - 1]));
        assert(ws.last() == ws[n]);
        assert(ds.last() == ds[n - 1]);
    }
}

/// Offsets applied by successive `move_text_pos` calls accumulate:
/// after two moves the reported text position is the starting position
/// offset by the sum of both, in the order they were applied.
pub proof fn lemma_move_text_pos_accumulates(
    w0: PageTextMode,
    w1: PageTextMode,
    w2: PageTextMode,
    d1: Point,
    d2: Point,
    start: Point,
)
    requires
        w0.text_line() == Some(start),
        w0.text_matrix_identity(),
        move_text_pos_rel(w0, w1, d1),
        move_text_pos_rel(w1, w2, d2),
        i64::MIN <= start.x + d1.x <= i64::MAX,
        i64::MIN <= start.y + d1.y <= i64::MAX,
        i64::MIN <= start.x + d1.x + d2.x <= i64::MAX,
        i64::MIN <= start.y + d1.y + d2.y <= i64::MAX,
    ensures
        w2.text_pos() == Some(
            Point { x: (start.x + d1.x + d2.x) as i64, y: (start.y + d1.y + d2.y) as i64 },
        ),
{
}

impl Page {
    /// How many operations have been emitted.
    pub fn ops_len(&self) -> (r: usize)
        ensures
            r == self.stream().len(),
    {
        self.ops.len()
    }

    /// The emitted operations, for replay against the engine.
    pub fn ops_ref(&self) -> (r: &Vec<PageOp>)
        ensures
            r@ == self.stream(),
    {
        &self.ops
    }

    /// The emitted operations, surrendering the page.
    pub fn into_ops(self) -> (r: Vec<PageOp>)
        ensures
            r@ == self.stream(),
    {
        self.ops
    }

    /// A fresh, unset destination anchored on this page.
    pub fn create_destination(&self) -> (r: crate::destination::Destination)
        ensures
            r.fit() is None,
            r.page() == self.page_id(),
    {
        crate::destination::Destination::new(self.id)
    }
}

/// Every well-formed page stream holds as many `BeginText` operations
/// as `EndText` operations: whatever sequence of calls produced it, the
/// text brackets are balanced.
pub proof fn lemma_page_brackets_balanced(p: Page)
    requires
        p.wf(),
    ensures
        begin_count(p.stream()) == end_count(p.stream()),
{
    crate::ops::lemma_text_brackets_balanced(p.stream(), false);
}

/// The graphics state set inside a `gsave`/`grestore` bracket is
/// invisible after `grestore`: whatever happened in between, as long as
/// it left the save stack alone, the state popped is exactly the state
/// pushed.
pub proof fn lemma_gsave_grestore_restores(p0: Page, p1: Page, p2: Page, p3: Page)
    requires
        gsave_rel(p0, p1),
        p2.saved() == p1.saved(),
        grestore_rel(p2, p3),
    ensures
        p3.gstate() == p0.gstate(),
        p3.saved() == p0.saved(),
{
    assert(p2.saved().last() == p0.gstate());
    assert(p2.saved().drop_last() =~= p0.saved());
}

} // verus!
