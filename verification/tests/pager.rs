use pager::controller::{Controller, Event, KeyCode, MouseKind, Status};
use pager::document::Document;
use pager::viewport::{Intent, Viewport};
use pager::wrap::{wrap_display, DisplayLine};

fn doc_of(lines: &[&str]) -> Document {
    let mut v: Vec<String> = Vec::new();
    for l in lines {
        v.push((*l).to_string());
    }
    Document { lines: v }
}

fn texts(rows: &[DisplayLine]) -> Vec<String> {
    rows.iter().map(|d| d.text.clone()).collect()
}

fn flags(rows: &[DisplayLine]) -> Vec<bool> {
    rows.iter().map(|d| d.continuation).collect()
}

#[test]
fn wrap_is_deterministic_across_calls() {
    let lines = vec![
        "the quick brown fox jumps over the lazy dog".to_string(),
        "".to_string(),
        "a bb ccc dddd".to_string(),
    ];
    let a = wrap_display(&lines, 0, 10);
    let b = wrap_display(&lines, 0, 10);
    assert_eq!(texts(&a), texts(&b));
    assert_eq!(flags(&a), flags(&b));
}

#[test]
fn wrap_never_splits_a_short_token() {
    let lines = vec!["aaaa bbbb cccc".to_string()];
    let rows = wrap_display(&lines, 0, 5);
    assert_eq!(texts(&rows), vec!["aaaa", "bbbb", "cccc"]);
}

#[test]
fn wrap_keeps_a_long_token_whole() {
    let lines = vec!["xy abcdefghij zz".to_string()];
    let rows = wrap_display(&lines, 0, 5);
    // the ten-letter token exceeds the width and stands alone, unbroken
    assert_eq!(texts(&rows), vec!["xy", "abcdefghij", "zz"]);
}

#[test]
fn wrap_empty_line_yields_one_empty_row() {
    let lines = vec!["".to_string()];
    let rows = wrap_display(&lines, 0, 8);
    assert_eq!(texts(&rows), vec![""]);
    assert_eq!(flags(&rows), vec![false]);
}

#[test]
fn wrap_offset_skips_leading_lines() {
    let lines = vec!["one".to_string(), "two".to_string(), "three".to_string()];
    let rows = wrap_display(&lines, 1, 10);
    assert_eq!(texts(&rows), vec!["two", "three"]);
}

#[test]
fn wrap_offset_past_end_yields_nothing() {
    let lines = vec!["one".to_string()];
    let rows = wrap_display(&lines, 5, 10);
    assert!(rows.is_empty());
}

#[test]
fn continuation_marker_on_every_segment_but_the_first() {
    let lines = vec!["aaaa bbbb cccc".to_string()];
    let rows = wrap_display(&lines, 0, 5);
    assert_eq!(flags(&rows), vec![false, true, true]);
    assert_eq!(rows[0].rendered(), "aaaa".to_string());
    assert_eq!(rows[1].rendered(), "\u{21a9} bbbb".to_string());
    assert_eq!(rows[2].rendered(), "\u{21a9} cccc".to_string());
}

#[test]
fn scroll_down_guarded_by_last_page() {
    let mut v = Viewport::new(80, 10);
    v.apply(Intent::ScrollDown, 12);
    assert_eq!(v.offset, 1);
    v.apply(Intent::ScrollDown, 12);
    assert_eq!(v.offset, 2);
    // offset + height is no longer below total: stay put
    v.apply(Intent::ScrollDown, 12);
    assert_eq!(v.offset, 2);
}

#[test]
fn scroll_up_stops_at_the_top() {
    let mut v = Viewport::new(80, 10);
    v.apply(Intent::ScrollUp, 100);
    assert_eq!(v.offset, 0);
    v.apply(Intent::ScrollDown, 100);
    v.apply(Intent::ScrollUp, 100);
    assert_eq!(v.offset, 0);
}

#[test]
fn page_down_underflow_safe_on_short_document() {
    let mut v = Viewport::new(80, 10);
    v.apply(Intent::PageDown, 5);
    assert_eq!(v.offset, 0);
}

#[test]
fn end_then_home_round_trip() {
    let mut v = Viewport::new(80, 20);
    v.apply(Intent::End, 100);
    assert_eq!(v.offset, 80);
    v.apply(Intent::Home, 100);
    assert_eq!(v.offset, 0);
    v.apply(Intent::PageDown, 100);
    v.apply(Intent::Home, 100);
    assert_eq!(v.offset, 0);
}

#[test]
fn end_resets_to_top_on_short_document() {
    let mut v = Viewport::new(80, 20);
    v.apply(Intent::ScrollDown, 100);
    v.apply(Intent::End, 5);
    assert_eq!(v.offset, 0);
}

#[test]
fn page_up_floors_at_zero() {
    let mut v = Viewport::new(80, 20);
    v.apply(Intent::ScrollDown, 100);
    v.apply(Intent::ScrollDown, 100);
    v.apply(Intent::PageUp, 100);
    assert_eq!(v.offset, 0);
    v.apply(Intent::End, 100);
    v.apply(Intent::PageUp, 100);
    assert_eq!(v.offset, 60);
}

#[test]
fn page_down_advances_a_page_and_clamps() {
    let mut v = Viewport::new(80, 20);
    v.apply(Intent::PageDown, 100);
    assert_eq!(v.offset, 20);
    v.apply(Intent::End, 100);
    v.apply(Intent::PageDown, 100);
    assert_eq!(v.offset, 80);
}

#[test]
fn mouse_scroll_moves_three_lines() {
    let mut v = Viewport::new(80, 20);
    v.apply(Intent::MouseScrollDown, 100);
    assert_eq!(v.offset, 3);
    v.apply(Intent::MouseScrollUp, 100);
    assert_eq!(v.offset, 0);
}

#[test]
fn mouse_scroll_up_floors_at_zero() {
    let mut v = Viewport::new(80, 20);
    v.apply(Intent::ScrollDown, 100);
    assert_eq!(v.offset, 1);
    v.apply(Intent::MouseScrollUp, 100);
    assert_eq!(v.offset, 0);
}

#[test]
fn document_splits_lines_at_both_endings() {
    let bytes: Vec<u8> = b"alpha\nbeta\r\ngamma\n".to_vec();
    let d = Document::load(&bytes);
    assert_eq!(d.lines, vec!["alpha", "beta", "gamma"]);
}

#[test]
fn document_decodes_invalid_bytes_lossily() {
    let bytes: Vec<u8> = vec![b'h', b'i', 0xff, b'!'];
    let d = Document::load(&bytes);
    assert_eq!(d.lines, vec!["hi\u{fffd}!"]);
}

#[test]
fn empty_input_yields_empty_document_and_quiet_loop() {
    let bytes: Vec<u8> = Vec::new();
    let d = Document::load(&bytes);
    assert_eq!(d.len(), 0);
    let mut c = Controller::new(d, 80, 24);
    let frame = c.render_frame();
    match frame {
        Some(rows) => assert!(rows.is_empty()),
        None => panic!("first frame of a fresh controller must draw"),
    }
    c.handle_event(&Event::Key(KeyCode::Char('q')));
    assert_eq!(c.status, Status::Terminated);
}

#[test]
fn redraw_suppressed_after_no_op_intent() {
    let d = doc_of(&["one", "two", "three"]);
    let mut c = Controller::new(d, 80, 24);
    assert!(c.render_frame().is_some());
    // nothing changed: no second redraw cycle
    assert!(c.render_frame().is_none());
    // scrolling up at the top is a no-op: the memo still matches
    c.handle_event(&Event::Key(KeyCode::Up));
    assert_eq!(c.viewport.offset, 0);
    assert!(c.render_frame().is_none());
}

#[test]
fn redraw_follows_a_real_move() {
    let d = doc_of(&["one", "two", "three", "four", "five"]);
    let mut c = Controller::new(d, 80, 2);
    assert!(c.render_frame().is_some());
    c.handle_event(&Event::Key(KeyCode::Down));
    assert_eq!(c.viewport.offset, 1);
    let frame = c.render_frame();
    match frame {
        Some(rows) => assert_eq!(texts(&rows), vec!["two", "three"]),
        None => panic!("a moved offset must trigger a redraw"),
    }
}

#[test]
fn resize_forces_redraw_even_with_same_offset() {
    let d = doc_of(&["one", "two"]);
    let mut c = Controller::new(d, 80, 24);
    assert!(c.render_frame().is_some());
    c.handle_event(&Event::Resize(100, 30));
    assert_eq!(c.viewport.width, 100);
    assert_eq!(c.viewport.height, 30);
    assert!(c.render_frame().is_some());
}

#[test]
fn degenerate_geometry_draws_nothing() {
    let d = doc_of(&["one", "two"]);
    let mut c = Controller::new(d, 0, 24);
    assert!(c.render_frame().is_none());
    c.handle_event(&Event::Resize(80, 0));
    assert!(c.render_frame().is_none());
    c.handle_event(&Event::Resize(80, 24));
    assert!(c.render_frame().is_some());
}

#[test]
fn frame_truncated_to_viewport_height() {
    let d = doc_of(&["one", "two", "three", "four"]);
    let mut c = Controller::new(d, 80, 2);
    let frame = c.render_frame();
    match frame {
        Some(rows) => assert_eq!(texts(&rows), vec!["one", "two"]),
        None => panic!("first frame of a fresh controller must draw"),
    }
}

#[test]
fn unrecognized_events_are_ignored() {
    let d = doc_of(&["one", "two"]);
    let mut c = Controller::new(d, 80, 24);
    c.handle_event(&Event::Key(KeyCode::Char('x')));
    c.handle_event(&Event::Key(KeyCode::Other));
    c.handle_event(&Event::Mouse(MouseKind::Other));
    c.handle_event(&Event::Other);
    assert_eq!(c.viewport.offset, 0);
    assert_eq!(c.status, Status::Running);
}
