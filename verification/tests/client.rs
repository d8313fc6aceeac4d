use rclc::client::{
    chomp, hook_message, ChatOpts, FifoOutcome, Flow, KeyCode, KeyEvent, Opts, State, TermEvent, CONTROL,
};
use rclc::client_daemon::ClientToDaemonMsg;

fn key(code: KeyCode) -> KeyEvent {
    KeyEvent { code, modifiers: 0 }
}

fn state(s: &str) -> State {
    State { input: s.to_string() }
}

#[test]
fn typing_appends_and_echoes() {
    let out = state("hi").handle_kev(&key(KeyCode::Char('!')));
    assert_eq!(out.flow, Flow::Continue);
    assert_eq!(out.input, "hi!");
    assert_eq!(out.echo, "!");
    assert!(out.send.is_none());
    assert!(!out.clear_line);
}

#[test]
fn ctrl_c_breaks_without_change() {
    let out = state("draft").handle_kev(&KeyEvent { code: KeyCode::Char('c'), modifiers: CONTROL });
    assert_eq!(out.flow, Flow::Break);
    assert_eq!(out.input, "draft");
    assert_eq!(out.echo, "");
    // control held with another key, or 'c' with more modifiers, is typed in
    let out2 = state("").handle_kev(&KeyEvent { code: KeyCode::Char('c'), modifiers: CONTROL | 1 });
    assert_eq!(out2.flow, Flow::Continue);
    assert_eq!(out2.input, "c");
}

#[test]
fn backspace_erases_last_char() {
    let out = state("abc").handle_kev(&key(KeyCode::Backspace));
    assert_eq!(out.input, "ab");
    assert_eq!(out.echo, "\x08 \x08");
    let empty = state("").handle_kev(&key(KeyCode::Backspace));
    assert_eq!(empty.input, "");
    assert_eq!(empty.echo, "");
}

#[test]
fn enter_sends_and_clears() {
    let out = state("hello there").handle_kev(&key(KeyCode::Enter));
    assert_eq!(out.flow, Flow::Continue);
    assert_eq!(out.send.as_deref(), Some("hello there"));
    assert_eq!(out.input, "");
    assert!(out.clear_line);
    assert_eq!(out.echo, "> ");
    let none = state("").handle_kev(&key(KeyCode::Enter));
    assert!(none.send.is_none());
    assert!(!none.clear_line);
    assert_eq!(none.echo, "");
}

#[test]
fn other_keys_and_events_do_nothing() {
    let out = state("x").handle_kev(&key(KeyCode::Other));
    assert_eq!(out.input, "x");
    assert_eq!(out.echo, "");
    let ev = state("x").handle_term_evt(&TermEvent::Other);
    assert_eq!(ev.flow, Flow::Continue);
    assert_eq!(ev.input, "x");
    let k = state("x").handle_term_evt(&TermEvent::Key(key(KeyCode::Char('y'))));
    assert_eq!(k.input, "xy");
}

#[test]
fn type_then_enter_sends_typed_line() {
    let mut st = state("");
    for c in "héllo".chars() {
        let out = st.handle_kev(&key(KeyCode::Char(c)));
        st.input = out.input;
    }
    let out = st.handle_kev(&key(KeyCode::Enter));
    assert_eq!(out.send.as_deref(), Some("héllo"));
}

#[test]
fn backspace_undoes_typing() {
    let st = state("ab");
    let typed = st.handle_kev(&key(KeyCode::Char('z')));
    let back = State { input: typed.input }.handle_kev(&key(KeyCode::Backspace));
    assert_eq!(back.input, "ab");
}

#[test]
fn prompt_line_redraws_input() {
    assert_eq!(state("abc").prompt_line(), "> abc");
    assert_eq!(state("").prompt_line(), "> ");
}

#[test]
fn fifo_timeout_rules() {
    let timed = ChatOpts { no_timeout: false };
    let patient = ChatOpts { no_timeout: true };
    assert_eq!(timed.fifo_wait_ms(), 10);
    assert_eq!(patient.fifo_wait_ms(), 0);
    assert_eq!(timed.fifo_outcome(true), FifoOutcome::Join);
    assert_eq!(timed.fifo_outcome(false), FifoOutcome::TimedOut);
    assert_eq!(patient.fifo_outcome(false), FifoOutcome::Join);
    let Opts::Chat(o) = Opts::Chat(patient);
    assert!(o.no_timeout);
}

#[test]
fn chomp_drops_line_end() {
    assert_eq!(chomp("hello\n".to_string()), "hello");
    assert_eq!(chomp("".to_string()), "");
    assert_eq!(chomp("ab".to_string()), "a");
}

#[test]
fn hook_sends_test_phrase() {
    match hook_message() {
        ClientToDaemonMsg::Test(t) => assert_eq!(t, "The quick brown fox jumped over the lazy dogs"),
        other => panic!("unexpected {:?}", other),
    }
}
