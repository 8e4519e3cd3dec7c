use tbe::instr::{Instr, KeyEvent, Mode, mode_step};
use tbe::session::{Action, Session, Status, handle_command_key, handle_running_key};
use tbe::viewport::{Cursor, Size2, lines_to_draw, output_rows, scroll_into_view, text_rows};

fn cs(s: &str) -> Vec<char> {
    s.chars().collect()
}

#[test]
fn mode_transitions_follow_the_table() {
    assert_eq!(mode_step(Mode::Command, &Instr::EnterInsertMode), Mode::Insert);
    assert_eq!(mode_step(Mode::Command, &Instr::EnterRunningMode), Mode::RunningOutput);
    assert_eq!(mode_step(Mode::Insert, &Instr::EnterCommandMode), Mode::Command);
    assert_eq!(mode_step(Mode::RunningOutput, &Instr::EnterCommandMode), Mode::Command);
    assert_eq!(mode_step(Mode::Insert, &Instr::EnterRunningMode), Mode::Insert);
    assert_eq!(mode_step(Mode::Command, &Instr::Quit), Mode::Command);
}

#[test]
fn quit_clears_the_run_flag() {
    let mut s = Session::new(cs("a.txt"));
    let a = s.apply_instr(&Instr::Quit);
    assert!(matches!(a, Action::Nothing));
    assert!(!s.running);
    assert_eq!(s.mode, Mode::Command);
}

#[test]
fn run_shell_stores_the_pending_command() {
    let mut s = Session::new(cs("a.txt"));
    s.apply_instr(&Instr::RunShell(cs("ls -la")));
    assert_eq!(s.cmd, cs("ls -la"));
}

#[test]
fn save_returns_the_text_to_write() {
    let mut s = Session::with_text(cs("a.txt"), &cs("a\nb"));
    let a = s.apply_instr(&Instr::SaveFile);
    match a {
        Action::Save(path, text) => {
            assert_eq!(path, cs("a.txt"));
            assert_eq!(text, cs("a\nb\n"));
        },
        _ => panic!("expected a save action"),
    }
}

#[test]
fn load_returns_the_path_to_read() {
    let mut s = Session::new(cs("a.txt"));
    let a = s.apply_instr(&Instr::LoadFile(cs("b.txt")));
    match a {
        Action::Load(path) => assert_eq!(path, cs("b.txt")),
        _ => panic!("expected a load action"),
    }
    assert_eq!(s.path, cs("a.txt"));
}

#[test]
fn successful_load_replaces_buffer_and_resets_cursor() {
    let mut s = Session::with_text(cs("a.txt"), &cs("long\ntext\nhere"));
    s.cursor = Cursor::new(3, 2);
    s.offset = 1;
    s.finish_load(cs("b.txt"), Some(&cs("x")));
    assert_eq!(s.buffer.line_count(), 1);
    assert_eq!(s.buffer.line(1), cs("x"));
    assert_eq!((s.cursor.line, s.cursor.col), (1, 1));
    assert_eq!(s.offset, 0);
    assert_eq!(s.path, cs("b.txt"));
    assert_eq!(s.status, Status::Loaded(cs("b.txt")));
}

#[test]
fn failed_load_leaves_a_single_empty_line() {
    let mut s = Session::with_text(cs("a.txt"), &cs("long\ntext\nhere"));
    s.cursor = Cursor::new(3, 2);
    s.finish_load(cs("missing.txt"), None);
    assert_eq!(s.buffer.line_count(), 1);
    assert_eq!(s.buffer.line(1), cs(""));
    assert_eq!((s.cursor.line, s.cursor.col), (1, 1));
    assert_eq!(s.path, cs("a.txt"));
    assert_eq!(s.status, Status::LoadFailed(cs("missing.txt")));
}

#[test]
fn save_outcome_sets_the_status() {
    let mut s = Session::new(cs("a.txt"));
    s.finish_save(true);
    assert_eq!(s.status, Status::Saved(cs("a.txt")));
    s.finish_save(false);
    assert_eq!(s.status, Status::SaveFailed(cs("a.txt")));
    s.clear_status();
    assert_eq!(s.status, Status::Idle);
}

#[test]
fn command_line_accumulates_until_enter() {
    let mut cmd: Vec<char> = Vec::new();
    assert_eq!(handle_command_key(&mut cmd, KeyEvent::Char(':')), None);
    assert_eq!(handle_command_key(&mut cmd, KeyEvent::Char('w')), None);
    assert_eq!(handle_command_key(&mut cmd, KeyEvent::Char('x')), None);
    assert_eq!(handle_command_key(&mut cmd, KeyEvent::Backspace), None);
    assert_eq!(cmd, cs(":w"));
    assert_eq!(handle_command_key(&mut cmd, KeyEvent::Char('q')), None);
    let r = handle_command_key(&mut cmd, KeyEvent::Enter);
    assert_eq!(r, Some(vec![Instr::SaveFile, Instr::Quit]));
    assert!(cmd.is_empty());
}

#[test]
fn i_on_empty_command_line_enters_insert_mode() {
    let mut cmd: Vec<char> = Vec::new();
    let r = handle_command_key(&mut cmd, KeyEvent::Char('i'));
    assert_eq!(r, Some(vec![Instr::EnterInsertMode]));
    assert!(cmd.is_empty());
}

#[test]
fn i_within_a_command_is_an_ordinary_character() {
    let mut cmd = cs(":qu");
    assert_eq!(handle_command_key(&mut cmd, KeyEvent::Char('i')), None);
    assert_eq!(cmd, cs(":qui"));
}

#[test]
fn running_screen_waits_for_enter() {
    assert_eq!(handle_running_key(KeyEvent::Char('x')), None);
    assert_eq!(handle_running_key(KeyEvent::Esc), None);
    assert_eq!(handle_running_key(KeyEvent::Enter), Some(vec![Instr::EnterCommandMode]));
}

#[test]
fn viewport_scrolls_down_to_the_cursor() {
    let mut offset: usize = 0;
    scroll_into_view(&mut offset, 12, 20, 5);
    assert_eq!(offset, 7);
    assert!(offset <= 12 - 1 && 12 <= offset + 5);
}

#[test]
fn viewport_scrolls_up_to_the_cursor() {
    let mut offset: usize = 9;
    scroll_into_view(&mut offset, 3, 20, 5);
    assert_eq!(offset, 2);
}

#[test]
fn viewport_keeps_a_visible_cursor_in_place() {
    let mut offset: usize = 2;
    scroll_into_view(&mut offset, 4, 20, 5);
    assert_eq!(offset, 2);
}

#[test]
fn viewport_offset_never_passes_the_end() {
    let mut offset: usize = 15;
    scroll_into_view(&mut offset, 3, 4, 10);
    assert_eq!(offset, 0);
}

#[test]
fn tracking_after_edits_keeps_the_cursor_visible() {
    let mut s = Session::with_text(cs("a.txt"), &cs("1\n2\n3\n4\n5\n6\n7\n8"));
    s.cursor = Cursor::new(8, 1);
    s.track_viewport(3);
    assert!(s.offset <= 7 && 8 <= s.offset + 3);
    assert_eq!(s.offset, 5);
}

#[test]
fn renderer_draws_at_most_the_window() {
    assert_eq!(lines_to_draw(0, 3, 10), 3);
    assert_eq!(lines_to_draw(0, 30, 10), 10);
    assert_eq!(lines_to_draw(25, 30, 10), 5);
    assert_eq!(lines_to_draw(4, 4, 10), 0);
}

#[test]
fn terminal_rows_reserve_the_status_area() {
    let t = Size2::new(80, 24);
    assert_eq!(t.x, 80);
    assert_eq!(t.y, 24);
    assert_eq!(text_rows(t), 22);
    assert_eq!(output_rows(t), 21);
    assert_eq!(text_rows(Size2::new(10, 2)), 1);
    assert_eq!(output_rows(Size2::new(10, 2)), 0);
}
