use vigil::buffer::Buffer;
use vigil::editor::Editor;
use vigil::input::Action;
use vigil::input::Effect;
use vigil::input::Event;
use vigil::input::Key;
use vigil::input::KeyPress;
use vigil::input::Mode;

fn editor(lines: &[&str]) -> Editor {
    let v: Vec<String> = lines.iter().map(|s| s.to_string()).collect();
    Editor::new(Buffer::new(None, v), 80, 24)
}

fn key(k: Key) -> Event {
    Event::Key(KeyPress { key: k, ctrl: false })
}

fn ctrl_key(k: Key) -> Event {
    Event::Key(KeyPress { key: k, ctrl: true })
}

fn lines_of(e: &Editor) -> Vec<String> {
    e.buffer.lines.clone()
}

#[test]
fn insert_char_advances_cursor() {
    // buffer ["abc"], cursor at (0,0); inserting 'X' gives ["Xabc"], cx = 1
    let mut e = editor(&["abc"]);
    let eff = e.apply_action(Action::InsertCharAtCursorPos('X'));
    assert_eq!(eff, Effect::Continue);
    assert_eq!(lines_of(&e), vec!["Xabc".to_string()]);
    assert_eq!(e.cx, 1);
}

#[test]
fn delete_line_command_sequence() {
    // Normal mode, 'd' then 'd' with the cursor on line 1 of ["a","b","c"]
    let mut e = editor(&["a", "b", "c"]);
    e.cy = 1;
    let a1 = e.handle_event(key(Key::Char('d'))).unwrap();
    assert_eq!(a1, Action::SetWaitingCad('d'));
    e.apply_action(a1);
    assert_eq!(e.waiting_command, Some('d'));
    let a2 = e.handle_event(key(Key::Char('d'))).unwrap();
    assert_eq!(a2, Action::DeleteCurrentLine);
    e.apply_action(a2);
    assert_eq!(lines_of(&e), vec!["a".to_string(), "c".to_string()]);
    assert_eq!(e.waiting_command, None);
}

#[test]
fn escape_aborts_pending_command() {
    // Normal mode, 'd' then Esc: no buffer mutation, Normal mode, prefix cleared
    let mut e = editor(&["a", "b"]);
    let a1 = e.handle_event(key(Key::Char('d'))).unwrap();
    e.apply_action(a1);
    let a2 = e.handle_event(key(Key::Esc)).unwrap();
    assert_eq!(a2, Action::EnterMode(Mode::Normal));
    e.apply_action(a2);
    assert_eq!(lines_of(&e), vec!["a".to_string(), "b".to_string()]);
    assert_eq!(e.mode, Mode::Normal);
    assert_eq!(e.waiting_command, None);
}

#[test]
fn pending_command_aborts_silently_on_other_key() {
    let mut e = editor(&["a", "b"]);
    let a1 = e.handle_event(key(Key::Char('d'))).unwrap();
    e.apply_action(a1);
    assert_eq!(e.handle_event(key(Key::Char('x'))), None);
    assert_eq!(e.waiting_command, None);
    assert_eq!(lines_of(&e), vec!["a".to_string(), "b".to_string()]);
}

#[test]
fn backspace_at_column_zero_joins_to_previous_line_end() {
    // Insert mode, Backspace at column 0 on a line > 0: the cursor moves to
    // the end of the previous line and that line loses its last character
    let mut e = editor(&["ab", "cd"]);
    e.mode = Mode::Insert;
    e.cy = 1;
    e.cx = 0;
    let a = e.handle_event(key(Key::Backspace)).unwrap();
    assert_eq!(a, Action::DeleteCharAtCursorPos);
    e.apply_action(a);
    assert_eq!(lines_of(&e), vec!["a".to_string(), "cd".to_string()]);
    assert_eq!(e.cy, 0);
    assert_eq!(e.cx, 1);
}

#[test]
fn backspace_at_column_zero_of_first_line_is_noop() {
    let mut e = editor(&["ab"]);
    e.mode = Mode::Insert;
    e.apply_action(Action::DeleteCharAtCursorPos);
    assert_eq!(lines_of(&e), vec!["ab".to_string()]);
    assert_eq!((e.cx, e.cy), (0, 0));
}

#[test]
fn backspace_within_line_removes_previous_char() {
    let mut e = editor(&["abc"]);
    e.cx = 2;
    e.apply_action(Action::DeleteCharAtCursorPos);
    assert_eq!(lines_of(&e), vec!["ac".to_string()]);
    assert_eq!(e.cx, 1);
}

#[test]
fn backspace_onto_empty_previous_line_removes_nothing() {
    let mut e = editor(&["", "x"]);
    e.cy = 1;
    e.apply_action(Action::DeleteCharAtCursorPos);
    assert_eq!(lines_of(&e), vec!["".to_string(), "x".to_string()]);
    assert_eq!((e.cx, e.cy), (0, 0));
}

#[test]
fn check_bounds_clamps_column_to_line_length() {
    let mut e = editor(&["abc"]);
    e.cx = 10;
    e.check_bounds();
    assert_eq!(e.cx, 3);
}

#[test]
fn check_bounds_clamps_row_to_last_line() {
    let mut e = editor(&["a", "b"]);
    e.cy = 7;
    e.check_bounds();
    assert_eq!(e.cy, 1);
    assert_eq!(e.vtop, 0);
}

#[test]
fn check_bounds_on_empty_buffer_resets_cursor() {
    let mut e = editor(&[]);
    e.cx = 4;
    e.cy = 9;
    e.check_bounds();
    assert_eq!((e.cx, e.cy), (0, 0));
}

#[test]
fn check_bounds_clamps_column_to_screen_width() {
    let mut e = editor(&["aaaaaaaaaa"]);
    e.size = (5, 24);
    e.cx = 9;
    e.check_bounds();
    assert_eq!(e.cx, 5);
}

#[test]
fn normal_mode_key_table() {
    let mut e = editor(&["a"]);
    assert_eq!(e.handle_event(key(Key::Char('q'))), Some(Action::Quit));
    assert_eq!(e.handle_event(key(Key::Char('k'))), Some(Action::MoveUp));
    assert_eq!(e.handle_event(key(Key::Up)), Some(Action::MoveUp));
    assert_eq!(e.handle_event(key(Key::Char('j'))), Some(Action::MoveDown));
    assert_eq!(e.handle_event(key(Key::Down)), Some(Action::MoveDown));
    assert_eq!(e.handle_event(key(Key::Char('h'))), Some(Action::MoveLeft));
    assert_eq!(e.handle_event(key(Key::Left)), Some(Action::MoveLeft));
    assert_eq!(e.handle_event(key(Key::Char('l'))), Some(Action::MoveRight));
    assert_eq!(e.handle_event(key(Key::Right)), Some(Action::MoveRight));
    assert_eq!(e.handle_event(key(Key::Char('i'))), Some(Action::EnterMode(Mode::Insert)));
    assert_eq!(e.handle_event(key(Key::Char('0'))), Some(Action::MoveToLineStart));
    assert_eq!(e.handle_event(key(Key::Home)), Some(Action::MoveToLineStart));
    assert_eq!(e.handle_event(key(Key::Char('$'))), Some(Action::MoveToLineEnd));
    assert_eq!(e.handle_event(key(Key::End)), Some(Action::MoveToLineEnd));
    assert_eq!(e.handle_event(ctrl_key(Key::Char('b'))), Some(Action::PageUp));
    assert_eq!(e.handle_event(key(Key::Char('b'))), None);
    assert_eq!(e.handle_event(ctrl_key(Key::Char('f'))), Some(Action::PageDown));
    assert_eq!(e.handle_event(key(Key::Char('f'))), None);
    assert_eq!(e.handle_event(ctrl_key(Key::Char('s'))), Some(Action::Save));
    assert_eq!(e.handle_event(key(Key::Char('s'))), None);
    assert_eq!(e.handle_event(key(Key::Char('d'))), Some(Action::SetWaitingCad('d')));
    assert_eq!(e.handle_event(key(Key::Char('z'))), None);
    assert_eq!(e.handle_event(key(Key::Enter)), None);
    assert_eq!(e.handle_event(Event::Other), None);
}

#[test]
fn insert_mode_key_table() {
    let mut e = editor(&["a"]);
    e.mode = Mode::Insert;
    assert_eq!(e.handle_event(key(Key::Esc)), Some(Action::EnterMode(Mode::Normal)));
    assert_eq!(e.handle_event(key(Key::Char('x'))), Some(Action::InsertCharAtCursorPos('x')));
    assert_eq!(e.handle_event(key(Key::Backspace)), Some(Action::DeleteCharAtCursorPos));
    assert_eq!(e.handle_event(key(Key::Enter)), Some(Action::NewLine));
    assert_eq!(e.handle_event(key(Key::Char('q'))), Some(Action::InsertCharAtCursorPos('q')));
    assert_eq!(e.handle_event(key(Key::Up)), None);
}

#[test]
fn resize_event_updates_size_and_yields_nothing() {
    let mut e = editor(&["a"]);
    assert_eq!(e.handle_event(Event::Resize(100, 40)), None);
    assert_eq!(e.size, (100, 40));
}

#[test]
fn resize_is_handled_before_pending_command() {
    let mut e = editor(&["a"]);
    e.apply_action(Action::SetWaitingCad('d'));
    assert_eq!(e.handle_event(Event::Resize(90, 30)), None);
    assert_eq!(e.waiting_command, Some('d'));
}

#[test]
fn movement_actions() {
    let mut e = editor(&["hello", "world"]);
    e.apply_action(Action::MoveDown);
    assert_eq!(e.cy, 1);
    e.apply_action(Action::MoveUp);
    assert_eq!(e.cy, 0);
    e.apply_action(Action::MoveUp);
    assert_eq!((e.cy, e.vtop), (0, 0));
    e.apply_action(Action::MoveRight);
    assert_eq!(e.cx, 1);
    e.apply_action(Action::MoveLeft);
    assert_eq!(e.cx, 0);
    e.apply_action(Action::MoveLeft);
    assert_eq!(e.cx, 0);
    e.apply_action(Action::MoveToLineEnd);
    assert_eq!(e.cx, 4);
    e.apply_action(Action::MoveToLineStart);
    assert_eq!(e.cx, 0);
}

#[test]
fn move_up_scrolls_viewport_at_top_row() {
    let mut e = editor(&["a", "b", "c"]);
    e.vtop = 2;
    e.cy = 0;
    e.apply_action(Action::MoveUp);
    assert_eq!((e.vtop, e.cy), (1, 0));
}

#[test]
fn move_down_scrolls_viewport_past_content_height() {
    let lines: Vec<&str> = vec!["x"; 40];
    let mut e = editor(&lines);
    // screen height 24 leaves 22 content rows
    e.cy = 22;
    e.apply_action(Action::MoveDown);
    assert_eq!((e.vtop, e.cy), (1, 22));
}

#[test]
fn page_up_and_page_down() {
    let lines: Vec<&str> = vec!["x"; 100];
    let mut e = editor(&lines);
    e.apply_action(Action::PageDown);
    assert_eq!(e.vtop, 22);
    e.apply_action(Action::PageDown);
    assert_eq!(e.vtop, 44);
    e.apply_action(Action::PageUp);
    assert_eq!(e.vtop, 22);
    e.apply_action(Action::PageUp);
    assert_eq!(e.vtop, 0);
    e.apply_action(Action::PageUp);
    assert_eq!(e.vtop, 0);
    // near the end there is no further page to show
    e.vtop = 90;
    e.apply_action(Action::PageDown);
    assert_eq!(e.vtop, 90);
}

#[test]
fn new_line_action_moves_cursor_only() {
    let mut e = editor(&["ab"]);
    e.cx = 1;
    e.apply_action(Action::NewLine);
    assert_eq!((e.cx, e.cy), (0, 1));
    assert_eq!(lines_of(&e), vec!["ab".to_string()]);
}

#[test]
fn delete_current_line_pulls_cursor_and_viewport_up() {
    let mut e = editor(&["a", "b", "c", "d"]);
    e.vtop = 1;
    e.cy = 1;
    // cursor is on buffer line 2
    e.apply_action(Action::DeleteCurrentLine);
    assert_eq!(lines_of(&e), vec!["a".to_string(), "b".to_string(), "d".to_string()]);
    assert_eq!((e.vtop, e.cy), (0, 0));
}

#[test]
fn quit_and_save_leave_state_untouched() {
    let mut e = editor(&["a"]);
    assert_eq!(e.apply_action(Action::Quit), Effect::Quit);
    assert_eq!(e.apply_action(Action::Save), Effect::Save);
    assert_eq!(lines_of(&e), vec!["a".to_string()]);
    assert_eq!((e.cx, e.cy, e.vtop), (0, 0, 0));
    assert_eq!(e.mode, Mode::Normal);
}

#[test]
fn enter_mode_switches_modes() {
    let mut e = editor(&["a"]);
    e.apply_action(Action::EnterMode(Mode::Insert));
    assert_eq!(e.mode, Mode::Insert);
    e.apply_action(Action::EnterMode(Mode::Normal));
    assert_eq!(e.mode, Mode::Normal);
}

#[test]
fn geometry_queries() {
    let mut e = editor(&["abc", "de"]);
    assert_eq!(e.vwidth(), 80);
    assert_eq!(e.vheight(), 22);
    e.size = (10, 1);
    assert_eq!(e.vheight(), 0);
    e.size = (80, 24);
    e.vtop = 1;
    e.cy = 0;
    assert_eq!(e.buffer_line(), 1);
    assert_eq!(e.line_length(), 2);
    assert_eq!(e.viewport_line(0), Some("de".to_string()));
    assert_eq!(e.viewport_line(5), None);
}
