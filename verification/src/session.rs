use vstd::prelude::*;
use vstd::string::StringExecFns;
use vstd::string::StrSliceExecFns;

use crate::line_buffer::LineBuffer;
use crate::render::clear_old_rows;
use crate::render::clear_row_text;
use crate::render::prompt_string;
use crate::render::prompt_text;

verus! {

/// How many seconds one countdown runs in the stock configuration.
pub const MAX_TRANSACTION_SECONDS: u64 = 30;

/// The default prompt, shown while no countdown is painting the row.
pub open spec fn default_prompt() -> Seq<char> {
    "> "@
}

/// The keystroke that commits the pending line.
pub open spec fn newline_key() -> Seq<char> {
    "\n"@
}

/// The keystroke that deletes the last pending character.
pub open spec fn backspace_key() -> Seq<char> {
    "\u{7f}"@
}

/// Whether a countdown is active.
#[derive(Clone, Copy, PartialEq, Eq, Structural, Debug)]
pub enum SessionState {
    /// No countdown runs; the prompt is the fixed default.
    Idle,
    /// A countdown of `remaining` seconds was begun and still owns the prompt.
    CountingDown { remaining: u64 },
}

/// The command a committed line names.
#[derive(Clone, Copy, PartialEq, Eq, Structural, Debug)]
pub enum Command {
    /// The literal line "start": begin a countdown.
    Start,
    /// The literal line "stop": cancel the countdown and restore the prompt.
    Stop,
    /// Any other line: echoed, nothing else.
    Other,
}

/// What the session's owner must do to the countdown task after an event.
#[derive(Clone, Copy, PartialEq, Eq, Structural, Debug)]
pub enum TimerAction {
    /// Cancel the running countdown task if one exists, then spawn
    /// exactly one new one.
    Restart,
    /// Cancel the running countdown task if one exists; spawn none.
    Cancel,
    /// Leave the countdown task as it is.
    Keep,
}

/// One message consumed by the session's dispatch loop.  The two event
/// sources feed separate rendezvous channels; merging them into one
/// enumeration keeps per-channel order and promises nothing across the
/// two, which is exactly what the combined wait provides.
pub enum Event {
    /// A countdown tick carrying the remaining whole seconds.
    PromptUpdate(u64),
    /// One decoded keystroke.
    Keystroke(String),
}

/// The abstract state of a session: machine state, prompt text, pending
/// line text, and the configured countdown length.
#[verifier::ext_equal]
pub struct SessionView {
    pub state: SessionState,
    pub prompt: Seq<char>,
    pub line: Seq<char>,
    pub max_transaction_seconds: u64,
}

/// Classifies a committed line.
pub open spec fn classify_line(line: Seq<char>) -> Command {
    if line == "start"@ {
        Command::Start
    } else if line == "stop"@ {
        Command::Stop
    } else {
        Command::Other
    }
}

/// The countdown-task operation a command demands.
pub open spec fn timer_action_for(command: Command) -> TimerAction {
    match command {
        Command::Start => TimerAction::Restart,
        Command::Stop => TimerAction::Cancel,
        Command::Other => TimerAction::Keep,
    }
}

/// The pending line after one keystroke: a newline clears it, a
/// backspace drops the last character and is a no-op on an empty line,
/// anything else is appended.
pub open spec fn line_after_key(line: Seq<char>, key: Seq<char>) -> Seq<char> {
    if key == newline_key() {
        Seq::<char>::empty()
    } else if key == backspace_key() {
        if line.len() == 0 {
            line
        } else {
            line.take(line.len() - 1)
        }
    } else {
        line + key
    }
}

/// The machine state after committing the pending line.
pub open spec fn state_after_commit(v: SessionView) -> SessionState {
    match classify_line(v.line) {
        Command::Start => SessionState::CountingDown { remaining: v.max_transaction_seconds },
        Command::Stop => SessionState::Idle,
        Command::Other => v.state,
    }
}

/// The prompt after committing the pending line: "stop" restores the
/// default, nothing else touches it.
pub open spec fn prompt_after_commit(v: SessionView) -> Seq<char> {
    if classify_line(v.line) == Command::Stop {
        default_prompt()
    } else {
        v.prompt
    }
}

/// One step of the session state machine: how consuming one event
/// changes the abstract state.
pub open spec fn session_step(v: SessionView, event: Event) -> SessionView {
    match event {
        Event::PromptUpdate(remaining) => SessionView {
            state: v.state,
            prompt: prompt_text(remaining),
            line: v.line,
            max_transaction_seconds: v.max_transaction_seconds,
        },
        Event::Keystroke(key) => if key@ == newline_key() {
            SessionView {
                state: state_after_commit(v),
                prompt: prompt_after_commit(v),
                line: Seq::<char>::empty(),
                max_transaction_seconds: v.max_transaction_seconds,
            }
        } else {
            SessionView {
                state: v.state,
                prompt: v.prompt,
                line: line_after_key(v.line, key@),
                max_transaction_seconds: v.max_transaction_seconds,
            }
        },
    }
}

/// The line echoed after one event: the committed line on a newline,
/// nothing otherwise.
pub open spec fn step_echo(v: SessionView, event: Event) -> Option<Seq<char>> {
    match event {
        Event::PromptUpdate(_) => None,
        Event::Keystroke(key) => if key@ == newline_key() {
            Some(v.line)
        } else {
            None
        },
    }
}

/// The countdown-task operation one event demands of the owner.
pub open spec fn step_timer(v: SessionView, event: Event) -> TimerAction {
    match event {
        Event::PromptUpdate(_) => TimerAction::Keep,
        Event::Keystroke(key) => if key@ == newline_key() {
            timer_action_for(classify_line(v.line))
        } else {
            TimerAction::Keep
        },
    }
}

/// What the session's owner must do after one event is consumed.
pub struct Outcome {
    /// The committed line to echo, if the event committed one.
    pub echo: Option<String>,
    /// The countdown-task lifecycle operation the event demands.
    pub timer: TimerAction,
}

/// The orchestrator's state: the two text cells and the machine state.
/// The owner runs the loop around it — wait for an event on either
/// channel, hand it to `apply_event`, perform the returned task
/// operation, repaint with `render_text`.
pub struct Session {
    state: SessionState,
    prompt: LineBuffer,
    line: LineBuffer,
    max_transaction_seconds: u64,
}

impl View for Session {
    type V = SessionView;

    closed spec fn view(&self) -> SessionView {
        SessionView {
            state: self.state,
            prompt: self.prompt@,
            line: self.line@,
            max_transaction_seconds: self.max_transaction_seconds,
        }
    }
}

impl Session {
    /// Creates a session in `Idle` with the default prompt, an empty
    /// pending line, and countdowns of `max_transaction_seconds` seconds.
    pub fn new(max_transaction_seconds: u64) -> (session: Session)
        ensures
            session@.state == SessionState::Idle,
            session@.prompt == default_prompt(),
            session@.line == Seq::<char>::empty(),
            session@.max_transaction_seconds == max_transaction_seconds,
    {
        Session {
            state: SessionState::Idle,
            prompt: LineBuffer::new(String::from_str("> ")),
            line: LineBuffer::new(String::new()),
            max_transaction_seconds,
        }
    }

    /// The machine state.
    pub fn state(&self) -> (state: SessionState)
        ensures
            state == self@.state,
    {
        self.state
    }

    /// A complete snapshot of the prompt text.
    pub fn prompt_snapshot(&self) -> (prompt: String)
        ensures
            prompt@ == self@.prompt,
    {
        self.prompt.get_string()
    }

    /// A complete snapshot of the pending line.
    pub fn line_snapshot(&self) -> (line: String)
        ensures
            line@ == self@.line,
    {
        self.line.get_string()
    }

    /// The full row to paint: clear the current row, then write the
    /// prompt and the pending line.
    pub fn render_text(&self) -> (text: String)
        ensures
            text@ == clear_row_text() + self@.prompt + self@.line,
    {
        let mut buffer = String::new();
        clear_old_rows(&mut buffer);
        let prompt = self.prompt.get_string();
        let line = self.line.get_string();
        buffer.append(prompt.as_str());
        buffer.append(line.as_str());
        proof {
            assert(buffer@ =~= clear_row_text() + self@.prompt + self@.line);
        }
        buffer
    }

    /// Commits the pending line: dispatches it as a command, clears the
    /// line, and returns it for echoing together with the countdown-task
    /// operation the command demands.
    pub fn handle_line(&mut self) -> (outcome: Outcome)
        ensures
            final(self)@.state == state_after_commit(old(self)@),
            final(self)@.prompt == prompt_after_commit(old(self)@),
            final(self)@.line == Seq::<char>::empty(),
            final(self)@.max_transaction_seconds == old(self)@.max_transaction_seconds,
            outcome.echo matches Some(echoed) && echoed@ == old(self)@.line,
            outcome.timer == timer_action_for(classify_line(old(self)@.line)),
    {
        let line = self.line.get_string();
        let timer: TimerAction;
        if line == String::from_str("start") {
            self.state = SessionState::CountingDown { remaining: self.max_transaction_seconds };
            timer = TimerAction::Restart;
        } else if line == String::from_str("stop") {
            self.state = SessionState::Idle;
            self.prompt.replace_string(String::from_str("> "));
            timer = TimerAction::Cancel;
        } else {
            timer = TimerAction::Keep;
        }
        self.line.replace_string(String::new());
        Outcome { echo: Some(line), timer }
    }

    /// Consumes one event: applies its mutation to the state and says
    /// what the owner must do before the next repaint.
    pub fn apply_event(&mut self, event: Event) -> (outcome: Outcome)
        ensures
            final(self)@ == session_step(old(self)@, event),
            outcome.timer == step_timer(old(self)@, event),
            outcome.echo is Some <==> step_echo(old(self)@, event) is Some,
            outcome.echo matches Some(echoed) ==> echoed@ == step_echo(old(self)@, event)->0,
    {
        match event {
            Event::PromptUpdate(remaining) => {
                let text = prompt_string(remaining);
                self.prompt.replace_string(text);
                proof {
                    assert(final(self)@ =~= session_step(old(self)@, event));
                }
                Outcome { echo: None, timer: TimerAction::Keep }
            },
            Event::Keystroke(key) => {
                if key == String::from_str("\n") {
                    let outcome = self.handle_line();
                    proof {
                        assert(final(self)@ =~= session_step(old(self)@, event));
                    }
                    outcome
                } else if key == String::from_str("\u{7f}") {
                    let current = self.line.get_string();
                    let length = current.as_str().unicode_len();
                    if length > 0 {
                        let truncated = current.as_str().substring_char(0, length - 1);
                        self.line.replace_string(truncated.to_owned());
                    }
                    proof {
                        assert(final(self)@ =~= session_step(old(self)@, event));
                    }
                    Outcome { echo: None, timer: TimerAction::Keep }
                } else {
                    self.line.append_string(key);
                    proof {
                        assert(final(self)@ =~= session_step(old(self)@, event));
                    }
                    Outcome { echo: None, timer: TimerAction::Keep }
                }
            },
        }
    }
}

/// Law: a backspace consumed while the pending line is empty changes
/// nothing — the state after the step is identical to the state before,
/// nothing is echoed, and the countdown task is left alone.
pub proof fn lemma_backspace_on_empty_line_is_noop(v: SessionView, key: String)
    requires
        v.line.len() == 0,
        key@ == backspace_key(),
    ensures
        session_step(v, Event::Keystroke(key)) == v,
        step_echo(v, Event::Keystroke(key)) is None,
        step_timer(v, Event::Keystroke(key)) == TimerAction::Keep,
{
    reveal_strlit("\n");
    reveal_strlit("\u{7f}");
    assert("\u{7f}"@[0] == '\u{7f}');
    assert("\n"@[0] == '\n');
    assert(key@ != newline_key());
    assert(session_step(v, Event::Keystroke(key)) =~= v);
}

/// Law: one ordinary keystroke followed by one backspace leaves the
/// pending line exactly as it was, whatever it held, so a run of
/// appends is undone by as many backspaces.
pub proof fn lemma_backspace_undoes_keystroke(line: Seq<char>, key: Seq<char>)
    requires
        key != newline_key(),
        key != backspace_key(),
        key.len() == 1,
    ensures
        line_after_key(line_after_key(line, key), backspace_key()) == line,
{
    reveal_strlit("\n");
    reveal_strlit("\u{7f}");
    assert("\u{7f}"@[0] == '\u{7f}');
    assert("\n"@[0] == '\n');
    assert(backspace_key() != newline_key());
    let appended = line + key;
    assert(appended.len() == line.len() + 1);
    assert(appended.take(appended.len() - 1) =~= line);
}

/// Law: committing the line "start" moves the session to
/// `CountingDown` and has the owner cancel any previous countdown task
/// and spawn exactly one new one — from `Idle` and from `CountingDown`
/// alike, so two countdown tasks are never left running at once.
pub proof fn lemma_start_restarts_countdown(v: SessionView, key: String)
    requires
        v.line == "start"@,
        key@ == newline_key(),
    ensures
        session_step(v, Event::Keystroke(key)).state == (SessionState::CountingDown {
            remaining: v.max_transaction_seconds,
        }),
        session_step(v, Event::Keystroke(key)).prompt == v.prompt,
        session_step(v, Event::Keystroke(key)).line == Seq::<char>::empty(),
        step_timer(v, Event::Keystroke(key)) == TimerAction::Restart,
{
}

/// Law: a countdown tick never touches the machine state or the pending
/// line; it only repaints the prompt — the remaining time while time is
/// left, the default prompt at and after expiry, with no reset to
/// `Idle` — and it never echoes or touches the countdown task.
pub proof fn lemma_tick_only_repaints_prompt(v: SessionView, remaining: u64)
    ensures
        session_step(v, Event::PromptUpdate(remaining)).state == v.state,
        session_step(v, Event::PromptUpdate(remaining)).line == v.line,
        session_step(v, Event::PromptUpdate(remaining)).prompt == prompt_text(remaining),
        remaining == 0 ==> session_step(v, Event::PromptUpdate(remaining)).prompt
            == default_prompt(),
        step_echo(v, Event::PromptUpdate(remaining)) is None,
        step_timer(v, Event::PromptUpdate(remaining)) == TimerAction::Keep,
{
}

/// Law: committing the line "stop" restores the default prompt "> ",
/// returns the machine to `Idle`, and has the owner cancel the
/// countdown task, so no further prompt update can arrive from it.
pub proof fn lemma_stop_restores_prompt(v: SessionView, key: String)
    requires
        v.line == "stop"@,
        key@ == newline_key(),
    ensures
        session_step(v, Event::Keystroke(key)).prompt == default_prompt(),
        session_step(v, Event::Keystroke(key)).state == SessionState::Idle,
        session_step(v, Event::Keystroke(key)).line == Seq::<char>::empty(),
        step_timer(v, Event::Keystroke(key)) == TimerAction::Cancel,
{
    reveal_strlit("start");
    reveal_strlit("stop");
    assert("start"@.len() == 5);
    assert("stop"@.len() == 4);
}

/// Seconds left on a countdown of `total` seconds after `elapsed`
/// seconds have passed, clamped at zero so that a tick arriving after
/// expiry can never wrap around.
pub fn remaining_seconds(total: u64, elapsed: u64) -> (remaining: u64)
    ensures
        remaining == if elapsed <= total {
            (total - elapsed) as u64
        } else {
            0u64
        },
{
    if elapsed <= total {
        total - elapsed
    } else {
        0
    }
}

/// The one-character string one raw input byte decodes to.
///
/// Relies on core::str::from_utf8: a single byte below 0x80 is valid
/// UTF-8 and decodes to exactly that ASCII character; a single byte at
/// or above 0x80 is never valid UTF-8 on its own.
#[verifier::external_body]
fn utf8_single_byte(byte: u8) -> (decoded: Option<String>)
    ensures
        decoded is Some <==> byte < 128,
        decoded matches Some(s) ==> s@ == seq![byte as char],
{
    match core::str::from_utf8(core::slice::from_ref(&byte)) {
        Ok(s) => Some(s.to_string()),
        Err(_) => None,
    }
}

/// Decodes one raw input byte into the keystroke message handed to the
/// session: its one ASCII character, or nothing for a byte that is not
/// a character on its own — the caller must treat that as fatal.
pub fn decode_keystroke(byte: u8) -> (decoded: Option<String>)
    ensures
        decoded is Some <==> byte < 128,
        decoded matches Some(s) ==> s@ == seq![byte as char],
{
    utf8_single_byte(byte)
}

} // verus!
