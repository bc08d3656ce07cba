use twitter_tool_rs::bounding_box::BoundingBox;
use twitter_tool_rs::draw::{DrawOp, TextSegment};
use twitter_tool_rs::scroll_buffer::ScrollBuffer;

fn filled_buffer(lines: usize) -> ScrollBuffer {
    let mut buffer = ScrollBuffer::new();
    for i in 0..lines {
        buffer.push(vec![TextSegment::plain(&format!("line {i}"))]);
    }
    buffer
}

fn window_of(buffer: &ScrollBuffer) -> (usize, usize) {
    // The window offset is the absolute cursor line minus its
    // window-relative position.
    let absolute = buffer.get_cursor_line();
    let relative = buffer.get_cursor().1 as usize;
    (absolute - relative, absolute)
}

#[test]
fn cursor_stays_in_window_after_any_moves() {
    let mut buffer = filled_buffer(10);
    let height: usize = 3;
    let _ = buffer.render(BoundingBox::new(0, 0, 20, height as u16));

    for &target in &[0usize, 9, 4, 5, 2, 8, 0, 3, 9] {
        buffer.move_cursor_to(0, target);
        let (offset, cursor) = window_of(&buffer);
        assert!(offset <= cursor && cursor < offset + height, "cursor {cursor} outside [{offset}, {})", offset + height);
    }
}

#[test]
fn moving_down_puts_target_at_bottom_edge() {
    let mut buffer = filled_buffer(10);
    let _ = buffer.render(BoundingBox::new(0, 0, 20, 4));
    buffer.move_cursor_to(0, 7);
    let (offset, cursor) = window_of(&buffer);
    assert_eq!(cursor, 7);
    assert_eq!(offset, 4, "downward movement puts the target exactly at the bottom edge");
}

#[test]
fn moving_up_puts_target_at_top() {
    let mut buffer = filled_buffer(10);
    let _ = buffer.render(BoundingBox::new(0, 0, 20, 4));
    buffer.move_cursor_to(0, 9);
    buffer.move_cursor_to(0, 2);
    let (offset, cursor) = window_of(&buffer);
    assert_eq!(cursor, 2);
    assert_eq!(offset, 2, "upward movement makes the target the new top");
}

#[test]
fn offset_only_changes_when_cursor_would_leave_window() {
    let mut buffer = filled_buffer(10);
    let _ = buffer.render(BoundingBox::new(0, 0, 20, 4));
    assert!(!buffer.should_render());

    // Moves within the window leave the offset alone and mark nothing dirty.
    buffer.move_cursor_to(0, 1);
    let (offset, _) = window_of(&buffer);
    assert_eq!(offset, 0);
    assert!(!buffer.should_render());
    buffer.move_cursor_to(0, 3);
    let (offset, _) = window_of(&buffer);
    assert_eq!(offset, 0);
    assert!(!buffer.should_render());

    // A move below the window shifts it and marks the buffer dirty.
    buffer.move_cursor_to(0, 4);
    let (offset, _) = window_of(&buffer);
    assert_eq!(offset, 1);
    assert!(buffer.should_render());
}

#[test]
fn cursor_target_is_clamped_to_stored_lines() {
    let mut buffer = filled_buffer(5);
    let _ = buffer.render(BoundingBox::new(0, 0, 20, 3));
    buffer.move_cursor_to(0, 100);
    assert_eq!(buffer.get_cursor_line(), 4);

    let mut empty = ScrollBuffer::new();
    empty.move_cursor_to(0, 100);
    assert_eq!(empty.get_cursor_line(), 0);
}

#[test]
fn move_cursor_steps_relative_and_saturates() {
    let mut buffer = filled_buffer(5);
    let _ = buffer.render(BoundingBox::new(0, 0, 20, 3));
    buffer.move_cursor(2);
    assert_eq!(buffer.get_cursor_line(), 2);
    buffer.move_cursor(-1);
    assert_eq!(buffer.get_cursor_line(), 1);
    buffer.move_cursor(-10);
    assert_eq!(buffer.get_cursor_line(), 0);
}

#[test]
fn resize_recomputes_window_by_minimal_movement() {
    let mut buffer = filled_buffer(10);
    let _ = buffer.render(BoundingBox::new(0, 0, 20, 6));
    buffer.move_cursor_to(0, 5);
    // Shrinking the viewport re-anchors the window so the cursor stays
    // visible at the bottom edge.
    let _ = buffer.render(BoundingBox::new(0, 0, 20, 2));
    let (offset, cursor) = window_of(&buffer);
    assert_eq!(cursor, 5);
    assert_eq!(offset, 4);
}

#[test]
fn render_paints_only_visible_lines_and_clears_dirty() {
    let mut buffer = filled_buffer(10);
    let ops = buffer.render(BoundingBox::new(2, 1, 8, 3));
    // Three visible rows, each: move, reset color, reset attributes, clear,
    // move back, then one styled segment of three ops.
    assert_eq!(ops.len(), 3 * (5 + 3));
    assert!(matches!(ops[0], DrawOp::MoveTo(2, 1)));
    assert!(!buffer.should_render());
    // A second render with the same region and no change paints nothing.
    let ops = buffer.render(BoundingBox::new(2, 1, 8, 3));
    assert!(ops.is_empty());
}

#[test]
fn append_moves_lines_and_clear_empties() {
    let mut buffer = ScrollBuffer::new();
    let mut more = vec![
        vec![TextSegment::plain("a")],
        vec![TextSegment::plain("b")],
    ];
    buffer.append(&mut more);
    assert!(more.is_empty());
    assert_eq!(buffer.height(), 2);
    buffer.push_newline();
    assert_eq!(buffer.height(), 3);
    buffer.clear();
    assert_eq!(buffer.height(), 0);
}
