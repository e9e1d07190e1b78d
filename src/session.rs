//! The interactive session: the focus, the three pane histories, the exit
//! flag, and how each key press and each command result changes them.

use vstd::prelude::*;
use vstd::string::StringExecFns;

use crate::focus::FocusBlock;
use crate::pane::{numbered_lines, pane_lines};
use crate::text::{
    all_ws, decode_lossy, lemma_blank_trims_empty, lossy_utf8, pop_char, push_char, trim_text,
    trimmed,
};

verus! {

/// A key as the session distinguishes it; every other key is `Other`.
#[derive(Debug, Clone, Copy, PartialEq, Eq, Structural)]
pub enum Key {
    Char(char),
    Tab,
    BackTab,
    Backspace,
    Enter,
    Other,
}

/// Whether the terminal reported a key going down, repeating or coming up.
#[derive(Debug, Clone, Copy, PartialEq, Eq, Structural)]
pub enum KeyEventKind {
    Press,
    Repeat,
    Release,
}

/// One keyboard event.
#[derive(Debug, Clone, Copy, PartialEq, Eq, Structural)]
pub struct KeyEvent {
    pub code: Key,
    pub kind: KeyEventKind,
}

/// The two streams a finished command wrote, captured apart.
#[derive(Debug)]
pub struct ExecOutput {
    pub stdout: Vec<u8>,
    pub stderr: Vec<u8>,
}

/// The abstract state of a session; each history is a sequence of texts in
/// the order they were appended.
pub struct SessionModel {
    pub exit: bool,
    pub focus: FocusBlock,
    pub input: Seq<Seq<char>>,
    pub output: Seq<Seq<char>>,
    pub error: Seq<Seq<char>>,
}

/// The session state: which pane is focused, what each pane holds, and
/// whether the user asked to leave.
#[derive(Debug)]
pub struct App {
    exit: bool,
    focus: FocusBlock,
    input_text: Vec<String>,
    output_text: Vec<String>,
    error_text: Vec<String>,
}

/// The texts of a sequence of strings.
pub open spec fn texts(v: Seq<String>) -> Seq<Seq<char>> {
    v.map_values(|s: String| s@)
}

/// The text of an optional string.
pub open spec fn opt_text(o: Option<String>) -> Option<Seq<char>> {
    match o {
        Some(s) => Some(s@),
        None => None,
    }
}

/// The session before any key press: nothing focused, all histories empty.
pub open spec fn initial() -> SessionModel {
    SessionModel {
        exit: false,
        focus: FocusBlock::Unfocused,
        input: Seq::empty(),
        output: Seq::empty(),
        error: Seq::empty(),
    }
}

/// `s` without its last character, or `s` itself when it is empty.
pub open spec fn pop_last(s: Seq<char>) -> Seq<char> {
    if s.len() > 0 {
        s.drop_last()
    } else {
        s
    }
}

/// The input history after typing `c`: an empty record is added first when
/// there is none, and `c` goes at the end of the last record.
pub open spec fn type_char(input: Seq<Seq<char>>, c: char) -> Seq<Seq<char>> {
    let base = if input.len() == 0 {
        seq![Seq::<char>::empty()]
    } else {
        input
    };
    base.update(base.len() - 1, base.last().push(c))
}

/// The input history after Backspace: the last record loses its last
/// character, if it has one.
pub open spec fn erase_char(input: Seq<Seq<char>>) -> Seq<Seq<char>> {
    if input.len() == 0 {
        input
    } else {
        input.update(input.len() - 1, pop_last(input.last()))
    }
}

/// How one key press changes the session. Enter while the input pane is
/// focused opens a new empty record; what the submitted command prints is
/// recorded apart, once it has run.
pub open spec fn key_step(m: SessionModel, key: Key) -> SessionModel {
    match key {
        Key::Char(c) => {
            if m.focus == FocusBlock::Unfocused && c == 'q' {
                SessionModel { exit: true, ..m }
            } else if m.focus == FocusBlock::Input {
                SessionModel { input: type_char(m.input, c), ..m }
            } else {
                m
            }
        },
        Key::Tab => SessionModel { focus: m.focus.spec_next(), ..m },
        Key::BackTab => SessionModel { focus: m.focus.spec_prev(), ..m },
        Key::Backspace => {
            if m.focus == FocusBlock::Input {
                SessionModel { input: erase_char(m.input), ..m }
            } else {
                m
            }
        },
        Key::Enter => {
            if m.focus == FocusBlock::Input {
                SessionModel { input: m.input.push(Seq::empty()), ..m }
            } else {
                m
            }
        },
        Key::Other => m,
    }
}

/// The command that the last input record holds: its text without leading
/// and trailing whitespace, or nothing when that is empty.
pub open spec fn command_of(m: SessionModel) -> Option<Seq<char>> {
    if m.input.len() == 0 || trimmed(m.input.last()).len() == 0 {
        None
    } else {
        Some(trimmed(m.input.last()))
    }
}

/// The command that pressing `key` submits for execution, if any.
pub open spec fn submitted(m: SessionModel, key: Key) -> Option<Seq<char>> {
    if key == Key::Enter && m.focus == FocusBlock::Input {
        command_of(m)
    } else {
        None
    }
}

/// The words that open an error record for a command that could not start.
pub open spec fn spawn_failure_prefix() -> Seq<char> {
    seq!['f', 'a', 'i', 'l', 'e', 'd', ' ', 't', 'o', ' ', 's', 't', 'a', 'r', 't', ':', ' ']
}

/// `h` with the decoded text of `b` appended when `b` is not empty.
pub open spec fn append_if_nonempty(h: Seq<Seq<char>>, b: Seq<u8>) -> Seq<Seq<char>> {
    if b.len() > 0 {
        h.push(lossy_utf8(b))
    } else {
        h
    }
}

/// The session after the keys `keys` are pressed in order from `m`.
pub open spec fn run_keys(m: SessionModel, keys: Seq<Key>) -> SessionModel
    decreases keys.len(),
{
    if keys.len() == 0 {
        m
    } else {
        key_step(run_keys(m, keys.drop_last()), keys.last())
    }
}

/// Whether `k` edits the input: a character, Backspace or Enter.
pub open spec fn is_edit_key(k: Key) -> bool {
    k is Char || k == Key::Backspace || k == Key::Enter
}

/// The line being edited: the last input record, or the empty line when
/// there is none.
pub open spec fn current_buffer(m: SessionModel) -> Seq<char> {
    if m.input.len() == 0 {
        Seq::empty()
    } else {
        m.input.last()
    }
}

/// The line that results from `start` under the editing keys `keys`: a
/// character is added at the end, Backspace removes the last character,
/// Enter starts a fresh empty line.
pub open spec fn edit_buffer(start: Seq<char>, keys: Seq<Key>) -> Seq<char>
    decreases keys.len(),
{
    if keys.len() == 0 {
        start
    } else {
        let prev = edit_buffer(start, keys.drop_last());
        match keys.last() {
            Key::Char(c) => prev.push(c),
            Key::Backspace => pop_last(prev),
            Key::Enter => Seq::empty(),
            _ => prev,
        }
    }
}

proof fn lemma_edit_run(m: SessionModel, keys: Seq<Key>)
    requires
        m.focus == FocusBlock::Input,
        forall|i: int| 0 <= i < keys.len() ==> is_edit_key(#[trigger] keys[i]),
    ensures
        run_keys(m, keys).focus == FocusBlock::Input,
        run_keys(m, keys).exit == m.exit,
        run_keys(m, keys).output == m.output,
        run_keys(m, keys).error == m.error,
        run_keys(m, keys).input.len() >= m.input.len(),
        (exists|i: int| 0 <= i < keys.len() && #[trigger] keys[i] != Key::Backspace) ==> run_keys(
            m,
            keys,
        ).input.len() > 0,
        current_buffer(run_keys(m, keys)) == edit_buffer(current_buffer(m), keys),
    decreases keys.len(),
{
    if keys.len() > 0 {
        let front = keys.drop_last();
        assert forall|i: int| 0 <= i < front.len() implies is_edit_key(#[trigger] front[i]) by {
            assert(front[i] == keys[i]);
        }
        lemma_edit_run(m, front);
        let k = keys.last();
        assert(is_edit_key(keys[keys.len() - 1]));
        if exists|i: int| 0 <= i < keys.len() && #[trigger] keys[i] != Key::Backspace {
            if k == Key::Backspace {
                let i = choose|i: int| 0 <= i < keys.len() && #[trigger] keys[i] != Key::Backspace;
                assert(front[i] == keys[i]);
            }
        }
    }
}

/// Whatever characters, Backspaces and Enters are pressed while the input
/// pane is focused, the focus stays there, the other panes and the exit flag
/// are untouched, and the last input record is exactly the line being
/// edited. The input history is never empty afterwards, unless it was empty
/// and only Backspace was pressed.
pub proof fn lemma_input_history_invariant(m: SessionModel, keys: Seq<Key>)
    requires
        m.focus == FocusBlock::Input,
        forall|i: int| 0 <= i < keys.len() ==> is_edit_key(#[trigger] keys[i]),
        m.input.len() > 0 || exists|i: int| 0 <= i < keys.len() && #[trigger] keys[i] != Key::Backspace,
    ensures
        run_keys(m, keys).focus == FocusBlock::Input,
        run_keys(m, keys).exit == m.exit,
        run_keys(m, keys).output == m.output,
        run_keys(m, keys).error == m.error,
        run_keys(m, keys).input.len() > 0,
        run_keys(m, keys).input.last() == edit_buffer(current_buffer(m), keys),
{
    lemma_edit_run(m, keys);
}

/// Submitting a line of whitespace alone runs nothing and leaves the output
/// and error histories as they were, but still opens a new empty input
/// record.
pub proof fn lemma_blank_submission(m: SessionModel)
    requires
        m.focus == FocusBlock::Input,
        all_ws(current_buffer(m)),
    ensures
        submitted(m, Key::Enter) is None,
        key_step(m, Key::Enter).input == m.input.push(Seq::empty()),
        key_step(m, Key::Enter).output == m.output,
        key_step(m, Key::Enter).error == m.error,
{
    lemma_blank_trims_empty(current_buffer(m));
}

/// The records before the line being edited.
pub open spec fn earlier_records(m: SessionModel) -> Seq<Seq<char>> {
    if m.input.len() == 0 {
        Seq::empty()
    } else {
        m.input.drop_last()
    }
}

/// `q` is a character to type while the input pane is focused, the exit key
/// while nothing is focused, and nothing at all on the output or error pane.
pub proof fn lemma_q_is_modal(m: SessionModel)
    ensures
        m.focus == FocusBlock::Input ==> key_step(m, Key::Char('q')) == (SessionModel {
            input: earlier_records(m).push(current_buffer(m).push('q')),
            ..m
        }),
        m.focus == FocusBlock::Unfocused ==> key_step(m, Key::Char('q')) == (SessionModel {
            exit: true,
            ..m
        }),
        (m.focus == FocusBlock::Output || m.focus == FocusBlock::Error) ==> key_step(
            m,
            Key::Char('q'),
        ) == m,
{
    if m.focus == FocusBlock::Input {
        assert(type_char(m.input, 'q') =~= earlier_records(m).push(current_buffer(m).push('q')));
    }
}

/// Backspace on an empty line leaves it empty and the input history as it
/// was.
pub proof fn lemma_backspace_on_empty(m: SessionModel)
    requires
        current_buffer(m).len() == 0,
    ensures
        key_step(m, Key::Backspace).input == m.input,
        current_buffer(key_step(m, Key::Backspace)).len() == 0,
{
    if m.input.len() > 0 {
        assert(m.input.update(m.input.len() - 1, pop_last(m.input.last())) =~= m.input);
    }
}

impl View for App {
    type V = SessionModel;

    closed spec fn view(&self) -> SessionModel {
        SessionModel {
            exit: self.exit,
            focus: self.focus,
            input: texts(self.input_text@),
            output: texts(self.output_text@),
            error: texts(self.error_text@),
        }
    }
}

impl App {
    /// A session with nothing focused and every history empty.
    pub fn new() -> (r: App)
        ensures
            r@ == initial(),
    {
        let r = App {
            exit: false,
            focus: FocusBlock::Unfocused,
            input_text: Vec::new(),
            output_text: Vec::new(),
            error_text: Vec::new(),
        };
        assert(r@.input =~= Seq::<Seq<char>>::empty());
        assert(r@.output =~= Seq::<Seq<char>>::empty());
        assert(r@.error =~= Seq::<Seq<char>>::empty());
        r
    }

    /// Sets the exit flag.
    pub fn exit(&mut self)
        ensures
            final(self)@ == (SessionModel { exit: true, ..old(self)@ }),
    {
        self.exit = true;
    }

    /// Moves the focus one step forward.
    pub fn next_focus(&mut self)
        ensures
            final(self)@ == (SessionModel { focus: old(self)@.focus.spec_next(), ..old(self)@ }),
    {
        self.focus = self.focus.next();
    }

    /// Moves the focus one step backward.
    pub fn prev_focus(&mut self)
        ensures
            final(self)@ == (SessionModel { focus: old(self)@.focus.spec_prev(), ..old(self)@ }),
    {
        self.focus = self.focus.prev();
    }
    /// The command that Enter would submit now: the last input record
    /// trimmed of surrounding whitespace, or `None` when nothing remains.
    pub fn pending_command(&self) -> (r: Option<String>)
        ensures
            opt_text(r) == command_of(self@),
    {
        let n = self.input_text.len();
        if n == 0 {
            return None;
        }
        let t = trim_text(self.input_text[n - 1].as_str());
        assert(self@.input.last() == self.input_text@[n - 1]@);
        if t.is_empty() {
            None
        } else {
            Some(String::from_str(t))
        }
    }

    /// Adds `c` at the end of the last input record, first adding an empty
    /// record when the input history has none.
    fn type_into_line(&mut self, c: char)
        ensures
            final(self)@ == (SessionModel { input: type_char(old(self)@.input, c), ..old(self)@ }),
    {
        if self.input_text.len() == 0 {
            self.input_text.push(String::new());
        }
        let ghost base = self.input_text@;
        match self.input_text.pop() {
            Some(mut last) => {
                push_char(&mut last, c);
                self.input_text.push(last);
                assert(texts(self.input_text@) =~= texts(base).update(
                    base.len() - 1,
                    texts(base).last().push(c),
                ));
            },
            None => {},
        }
        proof {
            if old(self)@.input.len() == 0 {
                assert(texts(base) =~= seq![Seq::<char>::empty()]);
            }
        }
    }

    /// Removes the last character of the last input record, if there is one.
    fn erase_in_line(&mut self)
        ensures
            final(self)@ == (SessionModel { input: erase_char(old(self)@.input), ..old(self)@ }),
    {
        let ghost base = self.input_text@;
        match self.input_text.pop() {
            Some(mut last) => {
                let _ = pop_char(&mut last);
                self.input_text.push(last);
                assert(texts(self.input_text@) =~= texts(base).update(
                    base.len() - 1,
                    pop_last(texts(base).last()),
                ));
            },
            None => {},
        }
    }

    /// Applies one key press. Returns the command to run when the press
    /// submits one: Enter on the input pane with a last record that is not
    /// blank.
    pub fn handle_key_event(&mut self, key: Key) -> (cmd: Option<String>)
        ensures
            final(self)@ == key_step(old(self)@, key),
            opt_text(cmd) == submitted(old(self)@, key),
    {
        match key {
            Key::Char(c) => {
                if self.focus == FocusBlock::Unfocused && c == 'q' {
                    self.exit();
                }
                if self.focus == FocusBlock::Input {
                    self.type_into_line(c);
                }
                None
            },
            Key::Tab => {
                self.next_focus();
                None
            },
            Key::BackTab => {
                self.prev_focus();
                None
            },
            Key::Backspace => {
                if self.focus == FocusBlock::Input {
                    self.erase_in_line();
                }
                None
            },
            Key::Enter => {
                if self.focus == FocusBlock::Input {
                    let cmd = self.pending_command();
                    self.input_text.push(String::new());
                    assert(texts(self.input_text@) =~= old(self)@.input.push(Seq::empty()));
                    cmd
                } else {
                    None
                }
            },
            Key::Other => None,
        }
    }

    /// Applies a keyboard event: presses are dispatched as
    /// `handle_key_event` does, repeats and releases change nothing.
    pub fn handle_event(&mut self, event: KeyEvent) -> (cmd: Option<String>)
        ensures
            event.kind == KeyEventKind::Press ==> final(self)@ == key_step(old(self)@, event.code)
                && opt_text(cmd) == submitted(old(self)@, event.code),
            event.kind != KeyEventKind::Press ==> final(self)@ == old(self)@ && cmd.is_none(),
    {
        match event.kind {
            KeyEventKind::Press => self.handle_key_event(event.code),
            _ => None,
        }
    }

    /// Records what a submitted command produced. Captured stdout that is not
    /// empty becomes one output record and captured stderr that is not empty
    /// one error record, each decoded leniently; a command that could not
    /// start becomes one error record naming the failure.
    pub fn record_result(&mut self, result: Result<ExecOutput, String>)
        ensures
            final(self)@.exit == old(self)@.exit,
            final(self)@.focus == old(self)@.focus,
            final(self)@.input == old(self)@.input,
            match result {
                Ok(out) => {
                    &&& final(self)@.output == append_if_nonempty(old(self)@.output, out.stdout@)
                    &&& final(self)@.error == append_if_nonempty(old(self)@.error, out.stderr@)
                },
                Err(msg) => {
                    &&& final(self)@.output == old(self)@.output
                    &&& final(self)@.error == old(self)@.error.push(spawn_failure_prefix() + msg@)
                },
            },
    {
        match result {
            Ok(out) => {
                if out.stdout.len() > 0 {
                    let text = decode_lossy(&out.stdout);
                    self.output_text.push(text);
                }
                if out.stderr.len() > 0 {
                    let text = decode_lossy(&out.stderr);
                    self.error_text.push(text);
                }
                assert(texts(self.output_text@) =~= append_if_nonempty(
                    old(self)@.output,
                    out.stdout@,
                ));
                assert(texts(self.error_text@) =~= append_if_nonempty(
                    old(self)@.error,
                    out.stderr@,
                ));
            },
            Err(msg) => {
                let mut text = String::from_str("failed to start: ");
                proof {
                    reveal_strlit("failed to start: ");
                    assert("failed to start: "@ =~= spawn_failure_prefix());
                }
                text.append(msg.as_str());
                self.error_text.push(text);
                assert(texts(self.error_text@) =~= old(self)@.error.push(
                    spawn_failure_prefix() + msg@,
                ));
            },
        }
    }
    /// The display lines of the input pane, numbered from 0.
    pub fn input_lines(&self) -> (r: Vec<String>)
        ensures
            texts(r@) == numbered_lines(self@.input, 0),
    {
        pane_lines(&self.input_text, 0)
    }

    /// The display lines of the output pane, numbered from 0.
    pub fn output_lines(&self) -> (r: Vec<String>)
        ensures
            texts(r@) == numbered_lines(self@.output, 0),
    {
        pane_lines(&self.output_text, 0)
    }

    /// The display lines of the error pane, numbered from 1.
    pub fn error_lines(&self) -> (r: Vec<String>)
        ensures
            texts(r@) == numbered_lines(self@.error, 1),
    {
        pane_lines(&self.error_text, 1)
    }

    /// Whether `pane` is drawn with the accent border: it is the focused one.
    pub fn is_highlighted(&self, pane: FocusBlock) -> (r: bool)
        ensures
            r == (self@.focus == pane),
    {
        self.focus == pane
    }

    /// Whether the user asked to leave.
    pub fn should_exit(&self) -> (r: bool)
        ensures
            r == self@.exit,
    {
        self.exit
    }

    /// The focused pane.
    pub fn focus(&self) -> (r: FocusBlock)
        ensures
            r == self@.focus,
    {
        self.focus
    }

    /// The input history; its last record is the line being edited.
    pub fn input_text(&self) -> (r: &Vec<String>)
        ensures
            texts(r@) == self@.input,
    {
        &self.input_text
    }

    /// The output history.
    pub fn output_text(&self) -> (r: &Vec<String>)
        ensures
            texts(r@) == self@.output,
    {
        &self.output_text
    }

    /// The error history.
    pub fn error_text(&self) -> (r: &Vec<String>)
        ensures
            texts(r@) == self@.error,
    {
        &self.error_text
    }
}

impl Default for App {
    fn default() -> (r: App)
        ensures
            r@ == initial(),
    {
        App::new()
    }
}

} // verus!
