use tbe::buffer::LineBuffer;
use tbe::instr::KeyEvent;
use tbe::session::Session;
use tbe::viewport::Cursor;

fn cs(s: &str) -> Vec<char> {
    s.chars().collect()
}

fn session_on(text: &str) -> Session {
    Session::with_text(cs("notes.txt"), &cs(text))
}

#[test]
fn load_splits_into_lines() {
    let b = LineBuffer::load_from_text(&cs("a\nb\nc"));
    assert_eq!(b.line_count(), 3);
    assert_eq!(b.line(1), cs("a"));
    assert_eq!(b.line(2), cs("b"));
    assert_eq!(b.line(3), cs("c"));
}

#[test]
fn save_appends_trailing_terminator() {
    let b = LineBuffer::load_from_text(&cs("a\nb\nc"));
    assert_eq!(b.to_text(), cs("a\nb\nc\n"));
}

#[test]
fn load_after_save_restores_the_lines() {
    let b = LineBuffer::load_from_text(&cs("a\nb\nc"));
    let again = LineBuffer::load_from_text(&b.to_text());
    assert_eq!(again.line_count(), 3);
    assert_eq!(again.line(1), cs("a"));
    assert_eq!(again.line(2), cs("b"));
    assert_eq!(again.line(3), cs("c"));
}

#[test]
fn empty_text_yields_one_empty_line() {
    let b = LineBuffer::load_from_text(&cs(""));
    assert_eq!(b.line_count(), 1);
    assert_eq!(b.line(1), cs(""));
}

#[test]
fn lone_terminator_yields_one_empty_line() {
    let b = LineBuffer::load_from_text(&cs("\n"));
    assert_eq!(b.line_count(), 1);
    assert_eq!(b.line(1), cs(""));
}

#[test]
fn insert_char_at_insertion_point() {
    let mut b = LineBuffer::load_from_text(&cs("ac"));
    b.insert_char(1, 2, 'b');
    assert_eq!(b.line(1), cs("abc"));
}

#[test]
fn insert_char_out_of_bounds_is_a_no_op() {
    let mut b = LineBuffer::load_from_text(&cs("ac"));
    b.insert_char(2, 1, 'x');
    b.insert_char(1, 5, 'x');
    b.insert_char(1, 0, 'x');
    assert_eq!(b.line_count(), 1);
    assert_eq!(b.line(1), cs("ac"));
}

#[test]
fn split_then_merge_restores_the_line() {
    let mut b = LineBuffer::load_from_text(&cs("hello world"));
    b.split_line(1, 6);
    assert_eq!(b.line_count(), 2);
    assert_eq!(b.line(1), cs("hello"));
    assert_eq!(b.line(2), cs(" world"));
    b.merge_with_previous(2);
    assert_eq!(b.line_count(), 1);
    assert_eq!(b.line(1), cs("hello world"));
}

#[test]
fn merge_on_first_line_is_a_no_op() {
    let mut b = LineBuffer::load_from_text(&cs("a\nb"));
    b.merge_with_previous(1);
    assert_eq!(b.line_count(), 2);
    assert_eq!(b.line(1), cs("a"));
}

#[test]
fn backspace_at_column_one_merges_lines() {
    let mut s = session_on("ab\ncd");
    s.cursor = Cursor::new(2, 1);
    let r = s.handle_insert_key(KeyEvent::Backspace);
    assert!(r.is_none());
    assert_eq!(s.buffer.line_count(), 1);
    assert_eq!(s.buffer.line(1), cs("abcd"));
    assert_eq!(s.cursor.line, 1);
    assert_eq!(s.cursor.col, 3);
}

#[test]
fn backspace_mid_line_deletes_backwards() {
    let mut s = session_on("abc");
    s.cursor = Cursor::new(1, 3);
    s.handle_insert_key(KeyEvent::Backspace);
    assert_eq!(s.buffer.line(1), cs("ac"));
    assert_eq!(s.cursor.col, 2);
}

#[test]
fn backspace_at_start_of_first_line_does_nothing() {
    let mut s = session_on("abc");
    s.handle_insert_key(KeyEvent::Backspace);
    assert_eq!(s.buffer.line(1), cs("abc"));
    assert_eq!(s.cursor.col, 1);
}

#[test]
fn enter_splits_and_moves_to_new_line() {
    let mut s = session_on("hello world");
    s.cursor = Cursor::new(1, 6);
    s.handle_insert_key(KeyEvent::Enter);
    assert_eq!(s.buffer.line_count(), 2);
    assert_eq!(s.buffer.line(1), cs("hello"));
    assert_eq!(s.buffer.line(2), cs(" world"));
    assert_eq!(s.cursor.line, 2);
    assert_eq!(s.cursor.col, 1);
}

#[test]
fn typing_inserts_at_cursor_and_advances() {
    let mut s = session_on("");
    s.handle_insert_key(KeyEvent::Char('h'));
    s.handle_insert_key(KeyEvent::Char('i'));
    assert_eq!(s.buffer.line(1), cs("hi"));
    assert_eq!(s.cursor.col, 3);
}

#[test]
fn delete_clears_the_current_line() {
    let mut s = session_on("one\ntwo");
    s.cursor = Cursor::new(2, 3);
    s.handle_insert_key(KeyEvent::Delete);
    assert_eq!(s.buffer.line(2), cs(""));
    assert_eq!(s.cursor.col, 1);
}

#[test]
fn arrows_stay_within_bounds() {
    let mut s = session_on("ab\nc");
    s.handle_insert_key(KeyEvent::Up);
    assert_eq!((s.cursor.line, s.cursor.col), (1, 1));
    s.handle_insert_key(KeyEvent::Left);
    assert_eq!((s.cursor.line, s.cursor.col), (1, 1));
    s.handle_insert_key(KeyEvent::Right);
    s.handle_insert_key(KeyEvent::Right);
    s.handle_insert_key(KeyEvent::Right);
    assert_eq!((s.cursor.line, s.cursor.col), (1, 3));
    s.handle_insert_key(KeyEvent::Down);
    assert_eq!((s.cursor.line, s.cursor.col), (2, 2));
    s.handle_insert_key(KeyEvent::Down);
    assert_eq!((s.cursor.line, s.cursor.col), (2, 2));
}

#[test]
fn moving_down_clamps_the_column() {
    let mut s = session_on("abcdef\nab");
    s.cursor = Cursor::new(1, 7);
    s.handle_insert_key(KeyEvent::Down);
    assert_eq!(s.cursor.line, 2);
    assert_eq!(s.cursor.col, 3);
}

#[test]
fn clamp_pulls_a_stray_cursor_back() {
    let b = LineBuffer::load_from_text(&cs("ab"));
    let mut c = Cursor::new(5, 9);
    c.clamp_to(&b);
    assert_eq!((c.line, c.col), (1, 3));
    let mut legal = Cursor::new(1, 2);
    legal.clamp_to(&b);
    assert_eq!((legal.line, legal.col), (1, 2));
}

#[test]
fn enter_at_end_of_line_opens_an_empty_line() {
    let mut s = session_on("abc");
    s.cursor = Cursor::new(1, 4);
    s.handle_insert_key(KeyEvent::Enter);
    assert_eq!(s.buffer.line_count(), 2);
    assert_eq!(s.buffer.line(1), cs("abc"));
    assert_eq!(s.buffer.line(2), cs(""));
    assert_eq!((s.cursor.line, s.cursor.col), (2, 1));
}

#[test]
fn escape_leaves_insert_mode() {
    let mut s = session_on("abc");
    let r = s.handle_insert_key(KeyEvent::Esc);
    assert_eq!(r, Some(vec![tbe::instr::Instr::EnterCommandMode]));
    assert_eq!(s.buffer.line(1), cs("abc"));
}
