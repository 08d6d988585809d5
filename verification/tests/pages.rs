use haru::document::Document;
use haru::error::Error;
use haru::error::{
    STATUS_CANNOT_RESTORE_GSTATE, STATUS_EXCEED_GSTATE_LIMIT, STATUS_INVALID_FONT_SIZE,
    STATUS_INVALID_PARAM_COUNT, STATUS_INVALID_ROTATE, STATUS_INVALID_SIZE, STATUS_OUT_OF_RANGE,
};
use haru::geom::{Color, Point, Rect};
use haru::gstate::{LineCap, LineJoin, PaintColor};
use haru::ops::{PageDirection, PageOp, PageSize, TextAlignment};

#[test]
fn fresh_page_starts_in_description_mode() {
    let mut doc = Document::new();
    let page = doc.add_page().unwrap();
    // Nothing has been emitted: no text block is open, no path begun.
    assert_eq!(page.ops_len(), 0);
    assert_eq!(doc.page_count(), 1);
    // The engine's default page size and line width.
    assert_eq!(page.width(), 595276);
    assert_eq!(page.height(), 841890);
    assert_eq!(page.line_width(), 1000);
}

#[test]
fn text_mode_closes_even_when_body_fails() {
    let mut doc = Document::new();
    let mut page = doc.add_page().unwrap();
    let r = page.run_text_mode(|mut w| {
        let r = w.show_text("bad\0text");
        (w, r)
    });
    // The body's error propagates...
    assert_eq!(r, Err(Error::InvalidArgument));
    // ...but the text block was still closed: exactly BeginText then
    // EndText, nothing in between.
    let ops = page.ops_ref();
    assert_eq!(ops.len(), 2);
    assert!(matches!(ops[0], PageOp::BeginText));
    assert!(matches!(ops[1], PageOp::EndText));
}

#[test]
fn text_mode_brackets_are_balanced_after_success() {
    let mut doc = Document::new();
    let mut page = doc.add_page().unwrap();
    let r = page.run_text_mode(|mut w| {
        let r = w.show_text("hello");
        (w, r)
    });
    assert_eq!(r, Ok(()));
    let ops = page.ops_ref();
    assert_eq!(ops.len(), 3);
    assert!(matches!(ops[0], PageOp::BeginText));
    assert!(matches!(&ops[1], PageOp::ShowText(v) if v.as_slice() == b"hello"));
    assert!(matches!(ops[2], PageOp::EndText));
}

#[test]
fn move_text_pos_accumulates_in_order() {
    let mut doc = Document::new();
    let mut page = doc.add_page().unwrap();
    let r = page.run_text_mode(|mut w| {
        // Entering text mode puts the position at the origin.
        assert_eq!(w.current_text_pos(), Some(Point { x: 0, y: 0 }));
        w.move_text_pos(Point { x: 10000, y: 20000 }).unwrap();
        assert_eq!(w.current_text_pos(), Some(Point { x: 10000, y: 20000 }));
        w.move_text_pos(Point { x: 5000, y: -3000 }).unwrap();
        assert_eq!(w.current_text_pos(), Some(Point { x: 15000, y: 17000 }));
        (w, Ok(()))
    });
    assert_eq!(r, Ok(()));
    // The last known position survives leaving text mode.
    assert_eq!(page.current_text_pos(), Some(Point { x: 15000, y: 17000 }));
}

#[test]
fn show_text_makes_the_position_unknown_but_moves_still_work() {
    let mut doc = Document::new();
    let mut page = doc.add_page().unwrap();
    let r = page.run_text_mode(|mut w| {
        w.move_text_pos(Point { x: 100000, y: 700000 }).unwrap();
        w.show_text("Hello").unwrap();
        // The engine advances by glyph widths only it knows.
        assert_eq!(w.current_text_pos(), None);
        // A further relative move is still exact: it offsets the line
        // start, not the glyph cursor.
        w.move_text_pos(Point { x: 0, y: -12000 }).unwrap();
        assert_eq!(w.current_text_pos(), Some(Point { x: 100000, y: 688000 }));
        (w, Ok(()))
    });
    assert_eq!(r, Ok(()));
}

#[test]
fn gsave_grestore_restores_state() {
    let mut doc = Document::new();
    let font = doc.font("Helvetica", None).unwrap();
    let mut page = doc.add_page().unwrap();
    let red = Color { red: 1000, green: 0, blue: 0 };
    let green = Color { red: 0, green: 1000, blue: 0 };
    page.set_line_width(2000).unwrap();
    page.set_rgb_fill(red).unwrap();
    page.set_font_and_size(&font, 12000).unwrap();
    page.gsave().unwrap();
    page.set_line_width(5000).unwrap();
    page.set_rgb_fill(green).unwrap();
    page.set_font_and_size(&font, 24000).unwrap();
    assert_eq!(page.line_width(), 5000);
    page.grestore().unwrap();
    // Everything set inside the bracket is invisible after it.
    assert_eq!(page.line_width(), 2000);
    assert_eq!(page.rgb_fill(), Some(red));
    assert_eq!(page.current_font_size(), Ok(12000));
}

#[test]
fn grestore_with_nothing_saved_is_rejected() {
    let mut doc = Document::new();
    let mut page = doc.add_page().unwrap();
    assert_eq!(
        page.grestore(),
        Err(Error::EngineRejected(STATUS_CANNOT_RESTORE_GSTATE))
    );
}

#[test]
fn gsave_beyond_depth_limit_is_rejected() {
    let mut doc = Document::new();
    let mut page = doc.add_page().unwrap();
    for _ in 0..28 {
        assert_eq!(page.gsave(), Ok(()));
    }
    assert_eq!(
        page.gsave(),
        Err(Error::EngineRejected(STATUS_EXCEED_GSTATE_LIMIT))
    );
}

#[test]
fn show_text_with_nul_byte_emits_nothing() {
    let mut doc = Document::new();
    let mut page = doc.add_page().unwrap();
    let r = page.run_text_mode(|mut w| {
        assert_eq!(w.show_text("fine").unwrap(), ());
        let bad = w.show_text_bytes(b"with\0nul");
        assert_eq!(bad, Err(Error::InvalidArgument));
        (w, Ok(()))
    });
    assert_eq!(r, Ok(()));
    // Only the good text was emitted.
    let ops = page.ops_ref();
    assert_eq!(ops.len(), 3);
    assert!(matches!(&ops[1], PageOp::ShowText(v) if v.as_slice() == b"fine"));
}

#[test]
fn hello_world_page_emits_the_expected_stream() {
    let mut doc = Document::new();
    let font = doc.font("Helvetica", None).unwrap();
    let mut page = doc.add_page().unwrap();
    page.set_font_and_size(&font, 24000).unwrap();
    let r = page.run_text_mode(|mut w| {
        let mut r = w.text_out(Point { x: 100000, y: 700000 }, "Hello World");
        if r.is_ok() {
            r = Ok(());
        }
        (w, r)
    });
    assert_eq!(r, Ok(()));
    let ops = page.ops_ref();
    assert_eq!(ops.len(), 4);
    assert!(matches!(ops[0], PageOp::SetFontAndSize(0, 24000)));
    assert!(matches!(ops[1], PageOp::BeginText));
    assert!(matches!(&ops[2], PageOp::TextOut(p, v)
        if *p == (Point { x: 100000, y: 700000 }) && v.as_slice() == b"Hello World"));
    assert!(matches!(ops[3], PageOp::EndText));
}

#[test]
fn path_mode_records_construction_and_painting() {
    let mut doc = Document::new();
    let mut page = doc.add_page().unwrap();
    let r = page.run_path_mode(|mut w| {
        w.move_to(Point { x: 10000, y: 10000 }).unwrap();
        w.line_to(Point { x: 20000, y: 30000 }).unwrap();
        assert_eq!(w.current_pos(), Some(Point { x: 20000, y: 30000 }));
        w.rectangle(Point { x: 5000, y: 5000 }, 40000, 20000).unwrap();
        let r = w.fill_stroke();
        // Painting clears the path and returns the point to the origin.
        assert_eq!(w.current_pos(), Some(Point { x: 0, y: 0 }));
        (w, r)
    });
    assert_eq!(r, Ok(()));
    let ops = page.ops_ref();
    assert_eq!(ops.len(), 4);
    assert!(matches!(ops[0], PageOp::MoveTo(Point { x: 10000, y: 10000 })));
    assert!(matches!(ops[1], PageOp::LineTo(Point { x: 20000, y: 30000 })));
    assert!(matches!(ops[2], PageOp::Rectangle(Point { x: 5000, y: 5000 }, 40000, 20000)));
    assert!(matches!(ops[3], PageOp::FillStroke));
}

#[test]
fn arc_rejects_only_a_full_turn_or_more() {
    let mut doc = Document::new();
    let mut page = doc.add_page().unwrap();
    let r = page.run_path_mode(|mut w| {
        let full = w.arc(Point { x: 0, y: 0 }, 10000, 0, 360000);
        assert_eq!(full, Err(Error::EngineRejected(STATUS_OUT_OF_RANGE)));
        // A reversed pair of angles sweeps the other way.
        let reversed = w.arc(Point { x: 0, y: 0 }, 10000, 180000, 0);
        assert_eq!(reversed, Ok(()));
        let ok = w.arc(Point { x: 0, y: 0 }, 10000, 0, 180000);
        assert_eq!(ok, Ok(()));
        (w, Ok(()))
    });
    assert_eq!(r, Ok(()));
    assert_eq!(page.ops_len(), 2);
}

#[test]
fn colors_outside_unit_range_are_rejected() {
    let mut doc = Document::new();
    let mut page = doc.add_page().unwrap();
    let too_red = Color { red: 1001, green: 0, blue: 0 };
    assert_eq!(
        page.set_rgb_fill(too_red),
        Err(Error::EngineRejected(STATUS_OUT_OF_RANGE))
    );
    assert_eq!(
        page.set_gray_stroke(-1),
        Err(Error::EngineRejected(STATUS_OUT_OF_RANGE))
    );
    // Nothing was emitted and the fill is still the default black.
    assert_eq!(page.ops_len(), 0);
    assert_eq!(page.fill_color(), PaintColor::Gray(0));
}

#[test]
fn dash_pattern_rules_match_the_engine() {
    let mut doc = Document::new();
    let mut page = doc.add_page().unwrap();
    // Three segments: neither one nor even.
    assert_eq!(
        page.set_dash(&[3, 1, 3], 0),
        Err(Error::EngineRejected(STATUS_INVALID_PARAM_COUNT))
    );
    // A zero-length segment.
    assert_eq!(
        page.set_dash(&[3, 0], 0),
        Err(Error::EngineRejected(STATUS_OUT_OF_RANGE))
    );
    // A phase with no segments.
    assert_eq!(
        page.set_dash(&[], 2),
        Err(Error::EngineRejected(STATUS_OUT_OF_RANGE))
    );
    // A segment beyond the engine's bound.
    assert_eq!(
        page.set_dash(&[101], 0),
        Err(Error::EngineRejected(STATUS_OUT_OF_RANGE))
    );
    assert_eq!(page.ops_len(), 0);
    assert_eq!(page.set_dash(&[3, 7], 1), Ok(()));
    let ops = page.ops_ref();
    assert!(matches!(&ops[0], PageOp::SetDash(v, 1) if v.as_slice() == &[3u16, 7u16]));
}

#[test]
fn page_setup_is_validated() {
    let mut doc = Document::new();
    let mut page = doc.add_page().unwrap();
    assert_eq!(
        page.set_width(2000),
        Err(Error::EngineRejected(STATUS_INVALID_SIZE))
    );
    assert_eq!(
        page.set_rotate(45),
        Err(Error::EngineRejected(STATUS_INVALID_ROTATE))
    );
    assert_eq!(page.set_rotate(270), Ok(()));
    page.set_size(PageSize::A4, PageDirection::Landscape).unwrap();
    assert_eq!(page.width(), 841890);
    assert_eq!(page.height(), 595276);
    page.set_size(PageSize::Letter, PageDirection::Portrait).unwrap();
    assert_eq!(page.width(), 612000);
    assert_eq!(page.height(), 792000);
}

#[test]
fn predefined_page_sizes_match_the_engine_table() {
    assert_eq!(PageSize::Letter.dimensions(), (612000, 792000));
    assert_eq!(PageSize::A3.dimensions(), (841890, 1190551));
    assert_eq!(PageSize::A4.dimensions(), (595276, 841890));
    assert_eq!(PageSize::B5.dimensions(), (498898, 708661));
    assert_eq!(PageSize::Comm10.dimensions(), (297000, 684000));
}

#[test]
fn text_state_ranges_match_the_engine() {
    let mut doc = Document::new();
    let mut page = doc.add_page().unwrap();
    assert_eq!(
        page.set_char_space(300001),
        Err(Error::EngineRejected(STATUS_OUT_OF_RANGE))
    );
    assert_eq!(page.set_char_space(-30000), Ok(()));
    assert_eq!(
        page.set_horizontal_scalling(9999),
        Err(Error::EngineRejected(STATUS_OUT_OF_RANGE))
    );
    assert_eq!(page.set_horizontal_scalling(10000), Ok(()));
    assert_eq!(page.set_line_width(-1), Err(Error::EngineRejected(STATUS_OUT_OF_RANGE)));
}

#[test]
fn move_text_pos2_sets_the_leading() {
    let mut doc = Document::new();
    let mut page = doc.add_page().unwrap();
    let r = page.run_text_mode(|mut w| {
        w.move_text_pos2(Point { x: 0, y: -14000 }).unwrap();
        assert_eq!(w.current_text_pos(), Some(Point { x: 0, y: -14000 }));
        // The negated vertical offset became the leading, so the next
        // line sits another 14 points down.
        w.move_to_next_line().unwrap();
        assert_eq!(w.current_text_pos(), Some(Point { x: 0, y: -28000 }));
        (w, Ok(()))
    });
    assert_eq!(r, Ok(()));
}

#[test]
fn current_font_needs_a_selection() {
    let mut doc = Document::new();
    let font = doc.font("Helvetica", None).unwrap();
    let mut page = doc.add_page().unwrap();
    assert_eq!(page.current_font(), Err(Error::EngineNullHandle));
    assert_eq!(page.current_font_size(), Err(Error::EngineNullHandle));
    page.set_font_and_size(&font, 10000).unwrap();
    assert_eq!(page.current_font().unwrap().handle(), font.handle());
    assert_eq!(page.current_font_size(), Ok(10000));
}

#[test]
fn font_sizes_outside_the_engine_range_are_rejected() {
    let mut doc = Document::new();
    let font = doc.font("Helvetica", None).unwrap();
    let mut page = doc.add_page().unwrap();
    assert_eq!(
        page.set_font_and_size(&font, 0),
        Err(Error::EngineRejected(STATUS_INVALID_FONT_SIZE))
    );
    assert_eq!(
        page.set_font_and_size(&font, 600001),
        Err(Error::EngineRejected(STATUS_INVALID_FONT_SIZE))
    );
    assert_eq!(page.ops_len(), 0);
}

#[test]
fn text_position_overflow_becomes_unknown() {
    let mut doc = Document::new();
    let mut page = doc.add_page().unwrap();
    let r = page.run_text_mode(|mut w| {
        w.move_text_pos(Point { x: i64::MAX, y: 0 }).unwrap();
        assert_eq!(w.current_text_pos(), Some(Point { x: i64::MAX, y: 0 }));
        // The next offset leaves the coordinate range: the operation is
        // still emitted, but the position is no longer determined.
        w.move_text_pos(Point { x: 1, y: 0 }).unwrap();
        assert_eq!(w.current_text_pos(), None);
        (w, Ok(()))
    });
    assert_eq!(r, Ok(()));
    assert_eq!(page.ops_len(), 4);
}

#[test]
fn show_text_next_line_follows_the_leading() {
    let mut doc = Document::new();
    let mut page = doc.add_page().unwrap();
    let r = page.run_text_mode(|mut w| {
        w.set_text_leading(16000).unwrap();
        w.move_text_pos(Point { x: 50000, y: 500000 }).unwrap();
        w.show_text_next_line("first").unwrap();
        // The line start dropped one leading; the glyph cursor is the
        // engine's business.
        assert_eq!(w.current_text_pos(), None);
        w.move_to_next_line().unwrap();
        assert_eq!(w.current_text_pos(), Some(Point { x: 50000, y: 468000 }));
        (w, Ok(()))
    });
    assert_eq!(r, Ok(()));
}

#[test]
fn show_text_next_line_ex_sets_the_spacing() {
    let mut doc = Document::new();
    let mut page = doc.add_page().unwrap();
    let r = page.run_text_mode(|mut w| {
        assert_eq!(
            w.show_text_next_line_ex(300001, 0, "x"),
            Err(Error::EngineRejected(STATUS_OUT_OF_RANGE))
        );
        w.show_text_next_line_ex(2000, 1000, "spaced").unwrap();
        (w, Ok(()))
    });
    assert_eq!(r, Ok(()));
    let ops = page.ops_ref();
    assert_eq!(ops.len(), 3);
    assert!(matches!(&ops[1], PageOp::ShowTextNextLineEx(2000, 1000, v)
        if v.as_slice() == b"spaced"));
}

#[test]
fn text_rect_records_the_layout_request() {
    let mut doc = Document::new();
    let mut page = doc.add_page().unwrap();
    let rect = Rect { left: 10000, top: 700000, right: 300000, bottom: 600000 };
    let r = page.run_text_mode(|mut w| {
        let r = w.text_rect(rect, "boxed", TextAlignment::Center);
        (w, r)
    });
    assert_eq!(r, Ok(()));
    let ops = page.ops_ref();
    assert!(matches!(&ops[1], PageOp::TextRect(rc, v, TextAlignment::Center)
        if *rc == rect && v.as_slice() == b"boxed"));
    assert_eq!(page.current_text_pos(), None);
}

#[test]
fn curves_and_circle_track_the_current_point() {
    let mut doc = Document::new();
    let mut page = doc.add_page().unwrap();
    let r = page.run_path_mode(|mut w| {
        w.move_to(Point { x: 0, y: 0 }).unwrap();
        w.curve_to(
            Point { x: 10000, y: 0 },
            Point { x: 20000, y: 10000 },
            Point { x: 30000, y: 10000 },
        )
        .unwrap();
        assert_eq!(w.current_pos(), Some(Point { x: 30000, y: 10000 }));
        w.curve_to_2(Point { x: 40000, y: 20000 }, Point { x: 50000, y: 20000 }).unwrap();
        assert_eq!(w.current_pos(), Some(Point { x: 50000, y: 20000 }));
        w.circle(Point { x: 100000, y: 100000 }, 25000).unwrap();
        // The current point ends at the circle's leftmost point.
        assert_eq!(w.current_pos(), Some(Point { x: 75000, y: 100000 }));
        let r = w.stroke();
        (w, r)
    });
    assert_eq!(r, Ok(()));
}

#[test]
fn line_style_is_available_in_text_mode() {
    let mut doc = Document::new();
    let mut page = doc.add_page().unwrap();
    let r = page.run_text_mode(|mut w| {
        w.set_line_cap(LineCap::Round).unwrap();
        w.set_line_join(LineJoin::Bevel).unwrap();
        w.set_dash(&[3, 7], 0).unwrap();
        w.clear_dash().unwrap();
        (w, Ok(()))
    });
    assert_eq!(r, Ok(()));
    let ops = page.ops_ref();
    assert_eq!(ops.len(), 6);
    assert!(matches!(ops[1], PageOp::SetLineCap(LineCap::Round)));
    assert!(matches!(ops[2], PageOp::SetLineJoin(LineJoin::Bevel)));
    assert!(matches!(&ops[3], PageOp::SetDash(v, 0) if v.as_slice() == &[3u16, 7u16]));
    assert!(matches!(ops[4], PageOp::ClearDash));
}

#[test]
fn skewed_text_matrix_makes_moves_undetermined() {
    let mut doc = Document::new();
    let mut page = doc.add_page().unwrap();
    let r = page.run_text_mode(|mut w| {
        // An identity matrix keeps relative moves exact.
        w.set_text_matrix(1000, 0, 0, 1000, 50000, 600000).unwrap();
        assert_eq!(w.current_text_pos(), Some(Point { x: 50000, y: 600000 }));
        w.move_text_pos(Point { x: 10000, y: 0 }).unwrap();
        assert_eq!(w.current_text_pos(), Some(Point { x: 60000, y: 600000 }));
        // A rotated matrix still places the position at its
        // translation, but the engine transforms later moves through
        // it, so they are no longer tracked.
        w.set_text_matrix(0, 1000, -1000, 0, 50000, 600000).unwrap();
        assert_eq!(w.current_text_pos(), Some(Point { x: 50000, y: 600000 }));
        w.move_text_pos(Point { x: 10000, y: 0 }).unwrap();
        assert_eq!(w.current_text_pos(), None);
        (w, Ok(()))
    });
    assert_eq!(r, Ok(()));
    // Entering text mode again resets the matrix, so moves are exact.
    let r = page.run_text_mode(|mut w| {
        w.move_text_pos(Point { x: 1000, y: 2000 }).unwrap();
        assert_eq!(w.current_text_pos(), Some(Point { x: 1000, y: 2000 }));
        (w, Ok(()))
    });
    assert_eq!(r, Ok(()));
}
