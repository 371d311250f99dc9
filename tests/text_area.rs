use termwidgets::error::ConfigError;
use termwidgets::text_area::TextArea;

fn area(visible: usize) -> TextArea {
    TextArea::new("Example", None, visible).unwrap()
}

#[test]
fn text_area_test_insert_char() {
    let mut text_area = area(3);
    text_area.insert_char('a');
    assert_eq!(text_area.line(0), "a", "Character should be inserted");
}

#[test]
fn test_insert_new_line() {
    let mut text_area = area(3);
    text_area.insert_char('a');
    text_area.insert_char('\n');
    assert_eq!(text_area.line_count(), 2, "New line should be added");
    assert_eq!(text_area.cursor_y(), 1, "Cursor should move to the new line");
}

#[test]
fn test_cursor_movement() {
    let mut text_area = area(3);
    text_area.insert_char('a');
    text_area.insert_char('b');
    text_area.move_cursor_left();
    assert_eq!(text_area.cursor_x(), 1, "Cursor should move left");
    text_area.move_cursor_right();
    assert_eq!(text_area.cursor_x(), 2, "Cursor should move right");
    text_area.insert_char('\n');
    text_area.move_cursor_up();
    assert_eq!(text_area.cursor_y(), 0, "Cursor should move up");
    text_area.move_cursor_down();
    assert_eq!(text_area.cursor_y(), 1, "Cursor should move down");
}

#[test]
fn text_area_test_delete_char() {
    let mut text_area = area(3);
    text_area.insert_char('a');
    text_area.insert_char('b');
    text_area.delete_char();
    assert_eq!(text_area.line(0), "a", "Last character should be deleted");
    text_area.insert_char('\n');

    text_area.move_cursor_up();

    text_area.delete_char();
    assert_eq!(text_area.line(0).len(), 1, "Lines should merge");
}

#[test]
fn test_scrolling() {
    let mut text_area = area(3);
    for _ in 0..5 {
        text_area.insert_char('a');
        text_area.insert_char('\n');
    }
    text_area.move_cursor_down();
    text_area.move_cursor_down();
    text_area.move_cursor_down();
    text_area.move_cursor_down();
    assert_eq!(text_area.scroll_offset(), 3, "Should scroll down when cursor moves beyond visible lines");
}

#[test]
fn typing_then_splitting_line() {
    let mut t = area(3);
    t.insert_char('a');
    t.insert_char('b');
    assert_eq!(t.text(), "ab");
    assert_eq!((t.cursor_y(), t.cursor_x()), (0, 2));
    t.insert_new_line();
    assert_eq!(t.line_count(), 2);
    assert_eq!(t.line(0), "ab");
    assert_eq!(t.line(1), "");
    assert_eq!((t.cursor_y(), t.cursor_x()), (1, 0));
}

#[test]
fn split_then_delete_restores_line() {
    let mut t = area(3);
    for c in "abcd".chars() {
        t.insert_char(c);
    }
    t.move_cursor_left();
    t.move_cursor_left();
    t.insert_new_line();
    assert_eq!(t.line(0), "ab");
    assert_eq!(t.line(1), "cd");
    t.delete_char();
    assert_eq!(t.line_count(), 1);
    assert_eq!(t.line(0), "abcd");
    assert_eq!((t.cursor_y(), t.cursor_x()), (0, 2));
}

fn assert_cursor_valid(t: &TextArea) {
    assert!(t.cursor_y() < t.line_count());
    assert!(t.cursor_x() <= t.line(t.cursor_y()).chars().count());
    assert!(t.scroll_offset() <= t.cursor_y());
    assert!(t.cursor_y() < t.scroll_offset() + t.visible_lines());
}

#[test]
fn edits_keep_cursor_on_text() {
    let mut t = area(2);
    assert_cursor_valid(&t);
    let script = "ab\ncde\n\nf\u{e9}g\nh";
    for c in script.chars() {
        t.insert_char(c);
        assert_cursor_valid(&t);
    }
    for step in 0..40 {
        match step % 7 {
            0 => t.move_cursor_up(),
            1 => t.move_cursor_left(),
            2 => t.delete_char(),
            3 => t.move_cursor_down(),
            4 => t.move_cursor_right(),
            5 => t.move_cursor_up(),
            _ => t.insert_char('x'),
        }
        assert_cursor_valid(&t);
    }
}

#[test]
fn delete_at_start_does_nothing() {
    let mut t = area(3);
    t.delete_char();
    assert_eq!(t.line_count(), 1);
    assert_eq!(t.line(0), "");
    assert_eq!((t.cursor_y(), t.cursor_x()), (0, 0));
}

#[test]
fn left_wraps_to_previous_line_and_scrolls() {
    let mut t = area(1);
    t.insert_char('a');
    t.insert_char('\n');
    assert_eq!(t.scroll_offset(), 1);
    t.move_cursor_left();
    assert_eq!((t.cursor_y(), t.cursor_x()), (0, 1));
    assert_eq!(t.scroll_offset(), 0);
    t.move_cursor_right();
    assert_eq!((t.cursor_y(), t.cursor_x()), (1, 0));
    assert_eq!(t.scroll_offset(), 1);
}

#[test]
fn moving_down_clamps_column() {
    let mut t = area(3);
    for c in "long\nx".chars() {
        t.insert_char(c);
    }
    t.move_cursor_up();
    assert_eq!((t.cursor_y(), t.cursor_x()), (0, 1));
    t.move_cursor_right();
    t.move_cursor_right();
    t.move_cursor_right();
    t.move_cursor_down();
    assert_eq!((t.cursor_y(), t.cursor_x()), (1, 1));
}

#[test]
fn text_joins_lines() {
    let mut t = TextArea::new("L", Some("help"), 2).unwrap();
    for c in "one\ntwo\n".chars() {
        t.insert_char(c);
    }
    assert_eq!(t.text(), "one\ntwo\n");
    assert_eq!(t.label(), "L");
    assert_eq!(t.helper(), Some("help"));
}

#[test]
fn text_area_rejects_empty_window() {
    assert!(matches!(TextArea::new("L", None, 0), Err(ConfigError::ZeroWindow)));
}
