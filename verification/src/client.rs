//! The chat client: its command line, how it waits for the daemon's pipes,
//! and how it turns key presses into edits of the input line and messages.
use vstd::prelude::*;
use vstd::string::*;
use crate::text::{push_char, pop_char};
use crate::client_daemon::{ClientToDaemonMsg, test_phrase};

verus! {

/// The client's subcommands.
#[derive(Debug, Clone, Copy, PartialEq, Eq, Structural)]
pub enum Opts {
    Chat(ChatOpts),
}

/// Options of the `chat` subcommand.
#[derive(Debug, Clone, Copy, PartialEq, Eq, Structural)]
pub struct ChatOpts {
    /// Whether to wait for the daemon without limit rather than give up after
    /// 10 ms.
    pub no_timeout: bool,
}

/// What to do once the wait for the daemon's pipes is over.
#[derive(Debug, Clone, Copy, PartialEq, Eq, Structural)]
pub enum FifoOutcome {
    /// Wait for the opening to finish and use its result.
    Join,
    /// Give up: the daemon is not running.
    TimedOut,
}

impl ChatOpts {
    /// How long to let the pipes open before deciding, in milliseconds: 10,
    /// or no pause at all under `--no-timeout`.
    pub fn fifo_wait_ms(&self) -> (r: u64)
        ensures
            r == if self.no_timeout { 0u64 } else { 10u64 },
    {
        if self.no_timeout {
            0
        } else {
            10
        }
    }

    /// After the pause: under `--no-timeout`, or when the pipes opened in time,
    /// use the result of opening them; otherwise give up.
    pub fn fifo_outcome(&self, opened_in_time: bool) -> (r: FifoOutcome)
        ensures
            r == if self.no_timeout || opened_in_time { FifoOutcome::Join } else { FifoOutcome::TimedOut },
    {
        if self.no_timeout || opened_in_time {
            FifoOutcome::Join
        } else {
            FifoOutcome::TimedOut
        }
    }
}

/// The key of a key press.
#[derive(Debug, Clone, Copy, PartialEq, Eq, Structural)]
pub enum KeyCode {
    Char(char),
    Backspace,
    Enter,
    Other,
}

/// The modifier bit of the Control key.
pub const CONTROL: u8 = 0b0000_0010;

/// A key press: the key and the set of modifier keys held, one bit each
/// (shift 1, control 2, alt 4, super 8, hyper 16, meta 32).
#[derive(Debug, Clone, Copy, PartialEq, Eq, Structural)]
pub struct KeyEvent {
    pub code: KeyCode,
    pub modifiers: u8,
}

/// A terminal event.
#[derive(Debug, Clone, Copy, PartialEq, Eq, Structural)]
pub enum TermEvent {
    Key(KeyEvent),
    Other,
}

/// Whether the event loop goes on.
#[derive(Debug, Clone, Copy, PartialEq, Eq, Structural)]
pub enum Flow {
    Continue,
    Break,
}

/// The effect of one key press, to be carried out in this order: send
/// `send` to the daemon as a `Send` message, clear the terminal line when
/// `clear_line`, print `echo`; then the input line becomes `input`.
#[derive(Debug)]
pub struct KeyOutcome {
    pub flow: Flow,
    pub input: String,
    pub send: Option<String>,
    pub clear_line: bool,
    pub echo: String,
}

/// The mathematical value of a [`KeyOutcome`].
pub struct KeyOutcomeView {
    pub flow: Flow,
    pub input: Seq<char>,
    pub send: Option<Seq<char>>,
    pub clear_line: bool,
    pub echo: Seq<char>,
}

impl View for KeyOutcome {
    type V = KeyOutcomeView;

    open spec fn view(&self) -> KeyOutcomeView {
        KeyOutcomeView {
            flow: self.flow,
            input: self.input@,
            send: match self.send {
                Some(t) => Some(t@),
                None => None,
            },
            clear_line: self.clear_line,
            echo: self.echo@,
        }
    }
}

/// The prompt printed at the start of the input line.
pub open spec fn prompt() -> Seq<char> {
    "> "@
}

/// Nothing happens and the loop goes on.
pub open spec fn unchanged(input: Seq<char>) -> KeyOutcomeView {
    KeyOutcomeView { flow: Flow::Continue, input, send: None, clear_line: false, echo: Seq::empty() }
}

/// The effect of a key press on the input line `input`: Ctrl-C ends the
/// loop; Backspace erases the last character (on screen too) when there is
/// one; Enter sends a non-empty line and starts a fresh prompt; any other
/// character is typed in; other keys do nothing.
pub open spec fn key_effect(input: Seq<char>, kev: KeyEvent) -> KeyOutcomeView {
    match kev.code {
        KeyCode::Char(c) => {
            if c == 'c' && kev.modifiers == CONTROL {
                KeyOutcomeView { flow: Flow::Break, input, send: None, clear_line: false, echo: Seq::empty() }
            } else {
                KeyOutcomeView { flow: Flow::Continue, input: input.push(c), send: None, clear_line: false, echo: seq![c] }
            }
        },
        KeyCode::Backspace => {
            if input.len() > 0 {
                KeyOutcomeView { flow: Flow::Continue, input: input.drop_last(), send: None, clear_line: false, echo: "\x08 \x08"@ }
            } else {
                unchanged(input)
            }
        },
        KeyCode::Enter => {
            if input.len() > 0 {
                KeyOutcomeView { flow: Flow::Continue, input: Seq::empty(), send: Some(input), clear_line: true, echo: prompt() }
            } else {
                unchanged(input)
            }
        },
        KeyCode::Other => unchanged(input),
    }
}

/// The chat client's input line.
#[derive(Debug)]
pub struct State {
    pub input: String,
}

impl State {
    /// The effect of the key press `kev`; see [`key_effect`].
    pub fn handle_kev(&self, kev: &KeyEvent) -> (r: KeyOutcome)
        ensures
            r@ == key_effect(self.input@, *kev),
    {
        match kev.code {
            KeyCode::Char(c) => {
                if c == 'c' && kev.modifiers == CONTROL {
                    KeyOutcome { flow: Flow::Break, input: self.input.clone(), send: None, clear_line: false, echo: String::new() }
                } else {
                    let mut input = self.input.clone();
                    push_char(&mut input, c);
                    let mut echo = String::new();
                    push_char(&mut echo, c);
                    proof {
                        assert(echo@ =~= seq![c]);
                    }
                    KeyOutcome { flow: Flow::Continue, input, send: None, clear_line: false, echo }
                }
            },
            KeyCode::Backspace => {
                let mut input = self.input.clone();
                let popped = pop_char(&mut input);
                if popped.is_some() {
                    KeyOutcome { flow: Flow::Continue, input, send: None, clear_line: false, echo: String::from_str("\x08 \x08") }
                } else {
                    KeyOutcome { flow: Flow::Continue, input, send: None, clear_line: false, echo: String::new() }
                }
            },
            KeyCode::Enter => {
                let n = self.input.as_str().unicode_len();
                if n == 0 {
                    KeyOutcome { flow: Flow::Continue, input: self.input.clone(), send: None, clear_line: false, echo: String::new() }
                } else {
                    KeyOutcome {
                        flow: Flow::Continue,
                        input: String::new(),
                        send: Some(self.input.clone()),
                        clear_line: true,
                        echo: String::from_str("> "),
                    }
                }
            },
            KeyCode::Other => KeyOutcome { flow: Flow::Continue, input: self.input.clone(), send: None, clear_line: false, echo: String::new() },
        }
    }

    /// The effect of a terminal event: key presses as in [`State::handle_kev`],
    /// anything else changes nothing.
    pub fn handle_term_evt(&self, ev: &TermEvent) -> (r: KeyOutcome)
        ensures
            r@ == match *ev {
                TermEvent::Key(kev) => key_effect(self.input@, kev),
                TermEvent::Other => unchanged(self.input@),
            },
    {
        match ev {
            TermEvent::Key(kev) => self.handle_kev(kev),
            TermEvent::Other => KeyOutcome { flow: Flow::Continue, input: self.input.clone(), send: None, clear_line: false, echo: String::new() },
        }
    }

    /// The text that redraws the input line after something was printed
    /// above it: the prompt followed by the input.
    pub fn prompt_line(&self) -> (r: String)
        ensures
            r@ == prompt() + self.input@,
    {
        String::from_str("> ").concat(self.input.as_str())
    }
}

/// A line read from the terminal without its last character (the line end
/// that `read_line` keeps); an empty line stays empty.
pub fn chomp(line: String) -> (r: String)
    ensures
        r@ == if line@.len() > 0 { line@.drop_last() } else { line@ },
{
    let mut s = line;
    let _ = pop_char(&mut s);
    s
}

/// The message the client sends to check that the daemon answers.
pub fn hook_message() -> (r: ClientToDaemonMsg)
    ensures
        r matches ClientToDaemonMsg::Test(t) && t@ == "The quick brown fox jumped over the lazy dogs"@,
{
    ClientToDaemonMsg::Test(test_phrase())
}

/// The input line after typing the characters `cs` one by one (no modifier
/// keys held).
pub open spec fn typed(input: Seq<char>, cs: Seq<char>) -> Seq<char>
    decreases cs.len(),
{
    if cs.len() == 0 {
        input
    } else {
        key_effect(typed(input, cs.drop_last()), KeyEvent { code: KeyCode::Char(cs.last()), modifiers: 0 }).input
    }
}

/// Typing appends to the input line: after typing `cs`, the line is the old
/// line followed by `cs`.
pub proof fn lemma_typing_appends(input: Seq<char>, cs: Seq<char>)
    ensures
        typed(input, cs) == input + cs,
    decreases cs.len(),
{
    if cs.len() > 0 {
        lemma_typing_appends(input, cs.drop_last());
        assert(input + cs.drop_last() + seq![cs.last()] =~= input + cs);
        assert((input + cs.drop_last()).push(cs.last()) =~= input + cs);
    }
}

/// Enter sends exactly what was typed: from an empty line, typing a
/// non-empty `cs` and pressing Enter sends `cs` to the daemon and leaves an
/// empty line behind a fresh prompt.
pub proof fn lemma_enter_sends_typed_line(cs: Seq<char>, modifiers: u8)
    requires
        cs.len() > 0,
    ensures
        ({
            let line = typed(Seq::empty(), cs);
            let out = key_effect(line, KeyEvent { code: KeyCode::Enter, modifiers });
            &&& out.send == Some(cs)
            &&& out.input == Seq::<char>::empty()
            &&& out.flow == Flow::Continue
            &&& out.echo == prompt()
        }),
{
    lemma_typing_appends(Seq::empty(), cs);
    assert(Seq::<char>::empty() + cs =~= cs);
}

/// Backspace undoes the last character typed, on the line and on screen.
pub proof fn lemma_backspace_undoes_typing(input: Seq<char>, c: char, modifiers: u8, bs_modifiers: u8)
    requires
        !(c == 'c' && modifiers == CONTROL),
    ensures
        ({
            let after = key_effect(input, KeyEvent { code: KeyCode::Char(c), modifiers });
            let back = key_effect(after.input, KeyEvent { code: KeyCode::Backspace, modifiers: bs_modifiers });
            &&& back.input == input
            &&& back.echo == "\x08 \x08"@
        }),
{
    assert(input.push(c).drop_last() =~= input);
}

/// Ctrl-C always ends the loop and leaves the input line as it was.
pub proof fn lemma_ctrl_c_breaks(input: Seq<char>)
    ensures
        key_effect(input, KeyEvent { code: KeyCode::Char('c'), modifiers: CONTROL }).flow == Flow::Break,
        key_effect(input, KeyEvent { code: KeyCode::Char('c'), modifiers: CONTROL }).input == input,
{
}

/// What every key press does to the input line `input`:
/// - only Ctrl-C (the character 'c' with exactly the Control modifier) ends
///   the loop, and it changes nothing;
/// - any other character is appended to the line and echoed;
/// - Backspace removes the last character and echoes backspace-space-backspace,
///   or does nothing on an empty line;
/// - Enter sends a non-empty line, empties it, clears the terminal line and
///   prints the prompt "> ", or does nothing on an empty line;
/// - any other key does nothing at all.
pub proof fn lemma_key_press_effects(input: Seq<char>, kev: KeyEvent)
    ensures
        (key_effect(input, kev).flow == Flow::Break) <==> (kev.code == KeyCode::Char('c') && kev.modifiers == CONTROL),
        kev.code == KeyCode::Char('c') && kev.modifiers == CONTROL ==> {
            &&& key_effect(input, kev).input == input
            &&& key_effect(input, kev).send is None
            &&& !key_effect(input, kev).clear_line
            &&& key_effect(input, kev).echo.len() == 0
        },
        kev.code is Char && !(kev.code == KeyCode::Char('c') && kev.modifiers == CONTROL) ==> {
            &&& key_effect(input, kev).input.len() == input.len() + 1
            &&& key_effect(input, kev).input.subrange(0, input.len() as int) == input
            &&& key_effect(input, kev).input.last() == kev.code->Char_0
            &&& key_effect(input, kev).echo.len() == 1
            &&& key_effect(input, kev).echo[0] == kev.code->Char_0
            &&& key_effect(input, kev).send is None
            &&& !key_effect(input, kev).clear_line
        },
        kev.code == KeyCode::Backspace && input.len() > 0 ==> {
            &&& key_effect(input, kev).input == input.subrange(0, input.len() - 1)
            &&& key_effect(input, kev).echo == seq!['\x08', ' ', '\x08']
            &&& key_effect(input, kev).send is None
            &&& !key_effect(input, kev).clear_line
        },
        kev.code == KeyCode::Enter && input.len() > 0 ==> {
            &&& key_effect(input, kev).send == Some(input)
            &&& key_effect(input, kev).input.len() == 0
            &&& key_effect(input, kev).clear_line
            &&& key_effect(input, kev).echo == seq!['>', ' ']
        },
        (kev.code == KeyCode::Other || ((kev.code == KeyCode::Backspace || kev.code == KeyCode::Enter) && input.len() == 0)) ==> {
            &&& key_effect(input, kev).flow == Flow::Continue
            &&& key_effect(input, kev).input == input
            &&& key_effect(input, kev).send is None
            &&& !key_effect(input, kev).clear_line
            &&& key_effect(input, kev).echo.len() == 0
        },
{
    reveal_strlit("\x08 \x08");
    reveal_strlit("> ");
    if kev.code is Char {
        let c = kev.code->Char_0;
        if !(c == 'c' && kev.modifiers == CONTROL) {
            assert(input.push(c).subrange(0, input.len() as int) =~= input);
        }
    }
    if kev.code == KeyCode::Backspace && input.len() > 0 {
        assert(input.drop_last() =~= input.subrange(0, input.len() - 1));
        assert("\x08 \x08"@ =~= seq!['\x08', ' ', '\x08']);
    }
    if kev.code == KeyCode::Enter && input.len() > 0 {
        assert("> "@ =~= seq!['>', ' ']);
    }
}

/// A terminal event that is not a key press leaves everything as it was:
/// the loop goes on, the line is unchanged, and nothing is sent or printed.
pub proof fn lemma_other_events_ignored(input: Seq<char>)
    ensures
        unchanged(input).flow == Flow::Continue,
        unchanged(input).input == input,
        unchanged(input).send is None,
        !unchanged(input).clear_line,
        unchanged(input).echo.len() == 0,
{
}

} // verus!
