use spliminal::focus::FocusBlock;
use spliminal::pane::pane_lines;
use spliminal::session::{App, ExecOutput, Key, KeyEvent, KeyEventKind};

fn type_str(app: &mut App, s: &str) {
    for c in s.chars() {
        assert!(app.handle_key_event(Key::Char(c)).is_none());
    }
}

fn focused_input() -> App {
    let mut app = App::new();
    app.handle_key_event(Key::Tab);
    assert_eq!(app.focus(), FocusBlock::Input);
    app
}

fn ran(stdout: &[u8], stderr: &[u8]) -> Result<ExecOutput, String> {
    Ok(ExecOutput { stdout: stdout.to_vec(), stderr: stderr.to_vec() })
}

#[test]
fn focus_prev_undoes_next() {
    let all = [FocusBlock::Input, FocusBlock::Output, FocusBlock::Error, FocusBlock::Unfocused];
    for s in all {
        assert_eq!(s.next().prev(), s);
        assert_eq!(s.prev().next(), s);
    }
}

#[test]
fn focus_cycle_has_length_four() {
    let all = [FocusBlock::Input, FocusBlock::Output, FocusBlock::Error, FocusBlock::Unfocused];
    for s in all {
        assert_eq!(s.next().next().next().next(), s);
        assert_ne!(s.next(), s);
        assert_ne!(s.next().next(), s);
        assert_ne!(s.next().next().next(), s);
    }
    assert_eq!(FocusBlock::Input.next(), FocusBlock::Output);
    assert_eq!(FocusBlock::Output.next(), FocusBlock::Error);
    assert_eq!(FocusBlock::Error.next(), FocusBlock::Unfocused);
    assert_eq!(FocusBlock::Unfocused.next(), FocusBlock::Input);
    assert_eq!(FocusBlock::Input.prev(), FocusBlock::Unfocused);
}

#[test]
fn new_session_is_empty_and_unfocused() {
    let app = App::new();
    assert_eq!(app.focus(), FocusBlock::Unfocused);
    assert!(!app.should_exit());
    assert!(app.input_text().is_empty());
    assert!(app.output_text().is_empty());
    assert!(app.error_text().is_empty());
    let d = App::default();
    assert_eq!(d.focus(), FocusBlock::Unfocused);
    assert!(d.input_text().is_empty());
}

#[test]
fn tab_and_backtab_move_focus() {
    let mut app = App::new();
    app.handle_key_event(Key::Tab);
    assert_eq!(app.focus(), FocusBlock::Input);
    app.handle_key_event(Key::Tab);
    assert_eq!(app.focus(), FocusBlock::Output);
    app.handle_key_event(Key::BackTab);
    app.handle_key_event(Key::BackTab);
    assert_eq!(app.focus(), FocusBlock::Unfocused);
    app.next_focus();
    assert_eq!(app.focus(), FocusBlock::Input);
    app.prev_focus();
    assert_eq!(app.focus(), FocusBlock::Unfocused);
}

#[test]
fn input_history_tracks_the_edited_line() {
    let mut app = focused_input();
    type_str(&mut app, "lsx");
    app.handle_key_event(Key::Backspace);
    assert_eq!(app.input_text(), &vec!["ls".to_string()]);
    let cmd = app.handle_key_event(Key::Enter);
    assert_eq!(cmd, Some("ls".to_string()));
    assert_eq!(app.input_text(), &vec!["ls".to_string(), String::new()]);
    type_str(&mut app, "pwd");
    assert_eq!(app.input_text(), &vec!["ls".to_string(), "pwd".to_string()]);
    assert_eq!(app.focus(), FocusBlock::Input);
}

#[test]
fn enter_on_empty_history_opens_a_record() {
    let mut app = focused_input();
    assert_eq!(app.handle_key_event(Key::Enter), None);
    assert_eq!(app.input_text(), &vec![String::new()]);
}

#[test]
fn blank_command_runs_nothing() {
    let mut app = focused_input();
    type_str(&mut app, " \t  \u{3000}");
    assert_eq!(app.pending_command(), None);
    assert_eq!(app.handle_key_event(Key::Enter), None);
    assert_eq!(app.input_text().len(), 2);
    assert_eq!(app.input_text()[1], "");
    assert!(app.output_text().is_empty());
    assert!(app.error_text().is_empty());
}

#[test]
fn submitted_command_is_trimmed() {
    let mut app = focused_input();
    type_str(&mut app, "  echo  a \n");
    assert_eq!(app.pending_command(), Some("echo  a".to_string()));
    assert_eq!(app.handle_key_event(Key::Enter), Some("echo  a".to_string()));
}

#[test]
fn stdout_only_adds_one_output_record() {
    let mut app = App::new();
    app.record_result(ran(b"out\n", b""));
    assert_eq!(app.output_text(), &vec!["out\n".to_string()]);
    assert!(app.error_text().is_empty());
}

#[test]
fn stderr_only_adds_one_error_record() {
    let mut app = App::new();
    app.record_result(ran(b"", b"bad\n"));
    assert!(app.output_text().is_empty());
    assert_eq!(app.error_text(), &vec!["bad\n".to_string()]);
}

#[test]
fn both_streams_add_one_record_each() {
    let mut app = App::new();
    app.record_result(ran(b"a", b"b"));
    app.record_result(ran(b"", b""));
    assert_eq!(app.output_text(), &vec!["a".to_string()]);
    assert_eq!(app.error_text(), &vec!["b".to_string()]);
    assert!(app.input_text().is_empty());
}

#[test]
fn invalid_bytes_are_replaced() {
    let mut app = App::new();
    app.record_result(ran(b"ok\xff", b""));
    assert_eq!(app.output_text(), &vec!["ok\u{FFFD}".to_string()]);
}

#[test]
fn spawn_failure_goes_to_error_pane() {
    let mut app = App::new();
    app.record_result(Err("no such file".to_string()));
    assert!(app.output_text().is_empty());
    assert_eq!(app.error_text(), &vec!["failed to start: no such file".to_string()]);
}

#[test]
fn q_depends_on_focus() {
    let mut app = focused_input();
    app.handle_key_event(Key::Char('q'));
    assert!(!app.should_exit());
    assert_eq!(app.input_text(), &vec!["q".to_string()]);

    app.handle_key_event(Key::Tab);
    assert_eq!(app.focus(), FocusBlock::Output);
    app.handle_key_event(Key::Char('q'));
    app.handle_key_event(Key::Tab);
    assert_eq!(app.focus(), FocusBlock::Error);
    app.handle_key_event(Key::Char('q'));
    assert!(!app.should_exit());
    assert_eq!(app.input_text(), &vec!["q".to_string()]);

    app.handle_key_event(Key::Tab);
    assert_eq!(app.focus(), FocusBlock::Unfocused);
    app.handle_key_event(Key::Char('q'));
    assert!(app.should_exit());
    assert_eq!(app.input_text(), &vec!["q".to_string()]);
}

#[test]
fn other_characters_do_not_exit() {
    let mut app = App::new();
    app.handle_key_event(Key::Char('x'));
    app.handle_key_event(Key::Other);
    assert!(!app.should_exit());
    assert!(app.input_text().is_empty());
    app.exit();
    assert!(app.should_exit());
}

#[test]
fn end_to_end_echo() {
    let mut app = App::new();
    assert_eq!(app.focus(), FocusBlock::Unfocused);
    app.handle_key_event(Key::Tab);
    assert_eq!(app.focus(), FocusBlock::Input);
    for c in ['e', 'c', 'h', 'o', ' ', 'h', 'i'] {
        app.handle_key_event(Key::Char(c));
    }
    assert_eq!(app.input_text().last().unwrap(), "echo hi");
    let cmd = app.handle_key_event(Key::Enter);
    assert_eq!(cmd, Some("echo hi".to_string()));
    app.record_result(ran(b"hi\n", b""));
    assert_eq!(app.output_text(), &vec!["hi\n".to_string()]);
    assert_eq!(app.input_text(), &vec!["echo hi".to_string(), String::new()]);
    assert!(app.error_text().is_empty());
    app.handle_key_event(Key::BackTab);
    assert_eq!(app.focus(), FocusBlock::Unfocused);
    app.handle_key_event(Key::BackTab);
    assert_eq!(app.focus(), FocusBlock::Error);
    assert!(app.is_highlighted(FocusBlock::Error));
    assert!(!app.is_highlighted(FocusBlock::Input));
    assert!(!app.is_highlighted(FocusBlock::Output));
    assert_eq!(app.input_lines(), vec!["[0]: echo hi".to_string(), "[1]: ".to_string()]);
    assert_eq!(app.output_lines(), vec!["[0]: hi\n".to_string()]);
    assert!(app.error_lines().is_empty());
}

#[test]
fn backspace_on_empty_line_stays_empty() {
    let mut app = focused_input();
    app.handle_key_event(Key::Backspace);
    assert!(app.input_text().is_empty());
    app.handle_key_event(Key::Enter);
    app.handle_key_event(Key::Backspace);
    app.handle_key_event(Key::Backspace);
    assert_eq!(app.input_text(), &vec![String::new()]);
    type_str(&mut app, "a");
    app.handle_key_event(Key::Backspace);
    app.handle_key_event(Key::Backspace);
    assert_eq!(app.input_text(), &vec![String::new()]);
}

#[test]
fn only_presses_are_dispatched() {
    let mut app = App::new();
    let tab = |kind| KeyEvent { code: Key::Tab, kind };
    assert_eq!(app.handle_event(tab(KeyEventKind::Release)), None);
    assert_eq!(app.handle_event(tab(KeyEventKind::Repeat)), None);
    assert_eq!(app.focus(), FocusBlock::Unfocused);
    app.handle_event(tab(KeyEventKind::Press));
    assert_eq!(app.focus(), FocusBlock::Input);
    app.handle_event(KeyEvent { code: Key::Char('z'), kind: KeyEventKind::Press });
    let r = app.handle_event(KeyEvent { code: Key::Enter, kind: KeyEventKind::Press });
    assert_eq!(r, Some("z".to_string()));
}

#[test]
fn keys_outside_input_focus_leave_input_alone() {
    let mut app = App::new();
    app.handle_key_event(Key::Backspace);
    assert_eq!(app.handle_key_event(Key::Enter), None);
    app.handle_key_event(Key::Tab);
    app.handle_key_event(Key::Tab);
    app.handle_key_event(Key::Char('a'));
    assert_eq!(app.handle_key_event(Key::Enter), None);
    assert!(app.input_text().is_empty());
}

#[test]
fn pane_lines_number_records() {
    let records: Vec<String> = (0..12).map(|i| format!("r{}", i)).collect();
    let from_zero = pane_lines(&records, 0);
    assert_eq!(from_zero.len(), 12);
    assert_eq!(from_zero[0], "[0]: r0");
    assert_eq!(from_zero[11], "[11]: r11");
    let from_one = pane_lines(&records, 1);
    assert_eq!(from_one[0], "[1]: r0");
    assert_eq!(from_one[9], "[10]: r9");
    assert!(pane_lines(&Vec::new(), 1).is_empty());
}

#[test]
fn error_lines_start_at_one() {
    let mut app = App::new();
    app.record_result(ran(b"", b"e1"));
    app.record_result(ran(b"", b"e2"));
    assert_eq!(app.error_lines(), vec!["[1]: e1".to_string(), "[2]: e2".to_string()]);
}
