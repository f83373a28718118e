use countdown_prompt::line_buffer::LineBuffer;
use countdown_prompt::render::clear_old_rows;
use countdown_prompt::render::echo_text;
use countdown_prompt::render::normalize_window_size;
use countdown_prompt::render::prompt_string;
use countdown_prompt::session::decode_keystroke;
use countdown_prompt::session::remaining_seconds;
use countdown_prompt::session::Event;
use countdown_prompt::session::Session;
use countdown_prompt::session::SessionState;
use countdown_prompt::session::TimerAction;
use countdown_prompt::session::MAX_TRANSACTION_SECONDS;

fn key(text: &str) -> Event {
    Event::Keystroke(text.to_string())
}

fn type_line(session: &mut Session, line: &str) {
    for c in line.chars() {
        let mut one = String::new();
        one.push(c);
        let outcome = session.apply_event(Event::Keystroke(one));
        assert!(outcome.echo.is_none());
        assert_eq!(outcome.timer, TimerAction::Keep);
    }
}

#[test]
fn line_buffer_read_returns_whole_committed_value() {
    let mut buffer = LineBuffer::new("> ".to_string());
    assert_eq!(buffer.get_string(), "> ");
    buffer.replace_string("abc".to_string());
    assert_eq!(buffer.get_string(), "abc");
    buffer.append_string("def".to_string());
    assert_eq!(buffer.get_string(), "abcdef");
    buffer.replace_string(String::new());
    assert_eq!(buffer.get_string(), "");
}

#[test]
fn backspace_on_empty_line_is_noop() {
    let mut session = Session::new(MAX_TRANSACTION_SECONDS);
    let state_before = session.state();
    let prompt_before = session.prompt_snapshot();
    let line_before = session.line_snapshot();
    assert_eq!(line_before, "");

    let outcome = session.apply_event(key("\u{7f}"));

    assert_eq!(session.state(), state_before);
    assert_eq!(session.prompt_snapshot(), prompt_before);
    assert_eq!(session.line_snapshot(), line_before);
    assert!(outcome.echo.is_none());
    assert_eq!(outcome.timer, TimerAction::Keep);
}

#[test]
fn start_commits_to_counting_down_and_restarts_timer() {
    let mut session = Session::new(MAX_TRANSACTION_SECONDS);
    assert_eq!(session.state(), SessionState::Idle);

    type_line(&mut session, "start");
    assert_eq!(session.line_snapshot(), "start");
    let outcome = session.apply_event(key("\n"));

    assert_eq!(session.state(), SessionState::CountingDown { remaining: 30 });
    assert_eq!(outcome.timer, TimerAction::Restart);
    assert_eq!(outcome.echo, Some("start".to_string()));
    assert_eq!(session.line_snapshot(), "");
    assert_eq!(session.prompt_snapshot(), "> ");

    // A second "start" while already counting down demands exactly one
    // restart again: cancel the old task, spawn one new one.
    type_line(&mut session, "start");
    let outcome2 = session.apply_event(key("\n"));
    assert_eq!(session.state(), SessionState::CountingDown { remaining: 30 });
    assert_eq!(outcome2.timer, TimerAction::Restart);
}

#[test]
fn stop_restores_default_prompt_and_cancels_timer() {
    let mut session = Session::new(MAX_TRANSACTION_SECONDS);
    type_line(&mut session, "start");
    session.apply_event(key("\n"));
    session.apply_event(Event::PromptUpdate(5));
    assert_eq!(session.prompt_snapshot(), "5> ");

    type_line(&mut session, "stop");
    let outcome = session.apply_event(key("\n"));

    assert_eq!(session.prompt_snapshot(), "> ");
    assert_eq!(session.state(), SessionState::Idle);
    assert_eq!(outcome.timer, TimerAction::Cancel);
    assert_eq!(outcome.echo, Some("stop".to_string()));
}

#[test]
fn stop_without_a_countdown_is_a_welldefined_noop() {
    let mut session = Session::new(MAX_TRANSACTION_SECONDS);
    type_line(&mut session, "stop");
    let outcome = session.apply_event(key("\n"));
    assert_eq!(session.state(), SessionState::Idle);
    assert_eq!(session.prompt_snapshot(), "> ");
    assert_eq!(outcome.timer, TimerAction::Cancel);
}

#[test]
fn three_appends_then_three_backspaces_restore_empty_line() {
    let mut session = Session::new(MAX_TRANSACTION_SECONDS);
    let state_before = session.state();
    let prompt_before = session.prompt_snapshot();

    session.apply_event(key("a"));
    session.apply_event(key("b"));
    session.apply_event(key("c"));
    assert_eq!(session.line_snapshot(), "abc");
    session.apply_event(key("\u{7f}"));
    session.apply_event(key("\u{7f}"));
    session.apply_event(key("\u{7f}"));

    assert_eq!(session.line_snapshot(), "");
    assert_eq!(session.state(), state_before);
    assert_eq!(session.prompt_snapshot(), prompt_before);
}

#[test]
fn backspace_on_empty_line_does_not_append_the_delete_byte() {
    let mut session = Session::new(MAX_TRANSACTION_SECONDS);
    session.apply_event(key("\u{7f}"));
    session.apply_event(key("x"));
    assert_eq!(session.line_snapshot(), "x");
}

#[test]
fn countdown_displays_decreasing_then_default_without_state_reset() {
    let mut session = Session::new(MAX_TRANSACTION_SECONDS);
    type_line(&mut session, "start");
    let outcome = session.apply_event(key("\n"));
    assert_eq!(outcome.timer, TimerAction::Restart);

    for n in (1..=30u64).rev() {
        let tick = session.apply_event(Event::PromptUpdate(n));
        assert_eq!(session.prompt_snapshot(), format!("{}> ", n));
        assert!(tick.echo.is_none());
        assert_eq!(tick.timer, TimerAction::Keep);
    }
    // At expiry the zero tick maps to the default prompt; the machine
    // state is not reset to Idle.
    session.apply_event(Event::PromptUpdate(0));
    assert_eq!(session.prompt_snapshot(), "> ");
    assert_eq!(session.state(), SessionState::CountingDown { remaining: 30 });
    session.apply_event(Event::PromptUpdate(0));
    assert_eq!(session.prompt_snapshot(), "> ");
}

#[test]
fn plain_line_is_echoed_and_prompt_unchanged() {
    let mut session = Session::new(MAX_TRANSACTION_SECONDS);
    type_line(&mut session, "hello");
    let outcome = session.apply_event(key("\n"));
    assert_eq!(outcome.echo, Some("hello".to_string()));
    assert_eq!(outcome.timer, TimerAction::Keep);
    assert_eq!(session.prompt_snapshot(), "> ");
    assert_eq!(session.state(), SessionState::Idle);
    assert_eq!(session.line_snapshot(), "");
}

#[test]
fn handle_line_commits_directly() {
    let mut session = Session::new(MAX_TRANSACTION_SECONDS);
    type_line(&mut session, "start");
    let outcome = session.handle_line();
    assert_eq!(outcome.echo, Some("start".to_string()));
    assert_eq!(outcome.timer, TimerAction::Restart);
    assert_eq!(session.line_snapshot(), "");
}

#[test]
fn remaining_seconds_is_exact_and_clamped() {
    assert_eq!(remaining_seconds(30, 0), 30);
    assert_eq!(remaining_seconds(30, 7), 23);
    assert_eq!(remaining_seconds(30, 30), 0);
    assert_eq!(remaining_seconds(30, 31), 0);
    assert_eq!(remaining_seconds(0, 5), 0);
}

#[test]
fn prompt_string_formats_remaining_time() {
    assert_eq!(prompt_string(30), "30> ");
    assert_eq!(prompt_string(7), "7> ");
    assert_eq!(prompt_string(100), "100> ");
    assert_eq!(prompt_string(0), "> ");
}

#[test]
fn decode_keystroke_decodes_ascii_and_rejects_high_bytes() {
    assert_eq!(decode_keystroke(b'a'), Some("a".to_string()));
    assert_eq!(decode_keystroke(b'\n'), Some("\n".to_string()));
    assert_eq!(decode_keystroke(0x7f), Some("\u{7f}".to_string()));
    assert_eq!(decode_keystroke(0x80), None);
    assert_eq!(decode_keystroke(200), None);
}

#[test]
fn render_text_clears_the_row_then_paints_prompt_and_line() {
    let mut session = Session::new(MAX_TRANSACTION_SECONDS);
    assert_eq!(session.render_text(), "\r\u{1b}[0K> ");
    session.apply_event(key("h"));
    session.apply_event(key("i"));
    assert_eq!(session.render_text(), "\r\u{1b}[0K> hi");
}

#[test]
fn clear_old_rows_appends_the_clear_sequence() {
    let mut buffer = "x".to_string();
    clear_old_rows(&mut buffer);
    assert_eq!(buffer, "x\r\u{1b}[0K");
}

#[test]
fn echo_text_puts_the_line_on_its_own_row() {
    assert_eq!(echo_text(&"hello".to_string()), "\nhello\n");
}

#[test]
fn normalize_window_size_fills_in_defaults() {
    assert_eq!(normalize_window_size(true, 120, 40), (120, 40));
    assert_eq!(normalize_window_size(true, 0, 40), (80, 40));
    assert_eq!(normalize_window_size(true, 120, 0), (120, usize::MAX));
    assert_eq!(normalize_window_size(false, 120, 40), (80, 24));
}
