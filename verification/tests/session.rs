use rustyline::error::{from_errno, Errno, ReadlineError};
use rustyline::history::History;
use rustyline::keys::{decode, Action, Pending};
use rustyline::output::Output;
use rustyline::session::{apply, can_apply, show_prompt, start_line, step, Step};
use rustyline::state::{State, MAX_LINE};

/// Types `keys` and returns what came of the last one.
fn type_keys(s: &mut State, history: &mut Option<History>, keys: &str) -> Option<Step> {
    let mut pending = Pending::Nothing;
    let mut last = Some(Step::Continue);
    for ch in keys.chars() {
        last = step(s, history, &mut pending, ch);
    }
    last
}

fn accepted(step: Option<Step>) -> String {
    match step {
        Some(Step::Accepted(line)) => line,
        other => panic!("no line: {:?}", other),
    }
}

fn failed(step: Option<Step>) -> ReadlineError {
    match step {
        Some(Step::Failed(error)) => error,
        other => panic!("no error: {:?}", other),
    }
}

fn two_entries() -> Option<History> {
    let mut history = History::new();
    history.add("line0");
    history.add("line1");
    Some(history)
}

#[test]
fn start_writes_the_prompt() {
    let s = start_line("日> ", 80, &two_entries());
    assert_eq!(vec!["日> ".as_bytes().to_vec()], s.out.writes);
    assert_eq!(4, s.prompt_width);
    assert_eq!(2, s.history_index);
    assert_eq!("", s.buf);
    assert_eq!(0, s.pos);
    assert_eq!(4096, s.limit);
    assert_eq!(0, start_line(">> ", 80, &None).history_index);
    assert_eq!(vec!["日> ".as_bytes().to_vec()], show_prompt("日> ").take());
}

#[test]
fn typed_text_is_accepted() {
    let mut s = start_line(">> ", 80, &None);
    assert_eq!("héllo", accepted(type_keys(&mut s, &mut None, "héllo\r")));
}

#[test]
fn enter_accepts_with_the_cursor_anywhere() {
    let mut s = start_line("", 80, &None);
    assert_eq!("abc", accepted(type_keys(&mut s, &mut None, "abc\x02\x02\r")));
    assert_eq!(1, s.pos);
}

#[test]
fn editing_keys() {
    let cases = [
        ("abc\x01x\r", "xabc"),
        ("abc\x01\x05x\r", "abcx"),
        ("abc\x02x\r", "abxc"),
        ("abc\x01\x06x\r", "axbc"),
        ("abc\x08\r", "ab"),
        ("abc\x7f\r", "ab"),
        ("abc\x01\x04\r", "bc"),
        ("abc\x02\x0b\r", "ab"),
        ("abc\x02\x15\r", "c"),
        ("abc\x02\x14\r", "acb"),
        ("ab cd \x17\r", "ab "),
        ("ab\x0ccd\r", "abcd"),
        ("abc\x1b[D\x1b[3~\r", "ab"),
        ("abc\x1b[Hx\r", "xabc"),
        ("abc\x1bOHx\r", "xabc"),
        ("abc\x1b[H\x1b[Fx\r", "abcx"),
        ("abc\x1b[H\x1bOFx\r", "abcx"),
        ("abc\x1b[H\x1b[Cx\r", "axbc"),
        ("abc\x1bxd\r", "abcd"),
        ("abc\x1b[4~d\r", "abcd"),
        ("abc\x1b[Zd\r", "abcd"),
        ("abc\x1bOZd\r", "abcd"),
        ("abc\x1b[3xd\r", "abcd"),
        ("a\tb\nc\r", "a\tb\nc"),
    ];
    for (keys, line) in cases.iter() {
        let mut s = start_line("", 80, &None);
        assert_eq!(*line, accepted(type_keys(&mut s, &mut None, keys)), "{:?}", keys);
    }
}

#[test]
fn interrupt_gives_eagain() {
    let mut s = start_line("", 80, &None);
    assert_eq!(from_errno(Errno::EAGAIN), failed(type_keys(&mut s, &mut None, "abc\x03")));
    assert_eq!("abc", s.buf);
}

#[test]
fn end_of_input_on_an_empty_line_only() {
    let mut s = start_line("", 80, &None);
    assert_eq!(ReadlineError::Eof, failed(type_keys(&mut s, &mut None, "\x04")));
    assert_eq!("abc", accepted(type_keys(&mut s, &mut None, "abc\x04\r")));
}

#[test]
fn history_gives_back_the_typed_line() {
    let mut history = two_entries();
    let mut s = start_line("", 80, &history);
    type_keys(&mut s, &mut history, "typed\x02\x10\x10");
    assert_eq!("line0", s.buf);
    assert_eq!("typed", s.history_end);
    assert_eq!("typed", accepted(type_keys(&mut s, &mut history, "\x0e\x0e\r")));
    assert_eq!(5, s.pos);
    assert_eq!(2, s.history_index);
    assert_eq!(2, history.unwrap().len());
}

#[test]
fn arrow_keys_browse_the_history() {
    let mut history = two_entries();
    let mut s = start_line("", 80, &history);
    assert_eq!("line0", accepted(type_keys(&mut s, &mut history, "\x1b[A\x1b[A\x1b[A\r")));
    assert_eq!("line1", accepted(type_keys(&mut s, &mut history, "\x1b[B\r")));
}

#[test]
fn no_history_and_an_empty_history_change_nothing() {
    let mut s = start_line("", 80, &None);
    let mut empty = Some(History::new());
    type_keys(&mut s, &mut None, "ab");
    let writes = s.out.writes.len();
    type_keys(&mut s, &mut None, "\x10\x0e\x1b[A\x1b[B");
    type_keys(&mut s, &mut empty, "\x10\x0e\x1b[A\x1b[B");
    assert_eq!("ab", s.buf);
    assert_eq!(writes, s.out.writes.len());
}

#[test]
fn commands_keep_the_prompt_and_the_output() {
    let mut s = start_line(">> ", 80, &None);
    type_keys(&mut s, &mut None, "ab\x02\x14\x0c");
    assert_eq!(">> ", s.prompt);
    assert_eq!(3, s.prompt_width);
    assert_eq!(80, s.cols);
    assert_eq!(b">> ".to_vec(), s.out.writes[0]);
    assert_eq!(b"a".to_vec(), s.out.writes[1]);
}

#[test]
fn clear_screen_repaints_the_line() {
    let mut s = start_line("> ", 80, &None);
    type_keys(&mut s, &mut None, "ab");
    s.out.take();
    assert!(s.out.writes.is_empty());
    type_keys(&mut s, &mut None, "\x0c");
    assert_eq!(
        vec![b"\x1b[H\x1b[2J".to_vec(), b"\r> ab\x1b[0K\r\x1b[4C".to_vec()],
        s.out.take()
    );
}

#[test]
fn nothing_is_painted_on_a_terminal_too_narrow() {
    let mut s = start_line("prompt", 6, &None);
    let mut pending = Pending::Nothing;
    assert!(step(&mut s, &mut None, &mut pending, 'a').is_none());
    assert!(step(&mut s, &mut None, &mut pending, '\x0c').is_none());
    assert_eq!("", s.buf);
    assert_eq!(1, s.out.writes.len());
    // Nothing has to be painted for these.
    assert!(step(&mut s, &mut None, &mut pending, '\x01').is_some());
    assert_eq!("", accepted(step(&mut s, &mut None, &mut pending, '\r')));
}

#[test]
fn a_full_line_takes_no_more() {
    let mut s = State::new(Output::new(), "", 3, 80, 0);
    assert!(matches!(type_keys(&mut s, &mut None, "abcd"), Some(Step::Continue)));
    assert_eq!("abc", s.buf);
    // The other commands still work.
    type_keys(&mut s, &mut None, "\x7f");
    assert_eq!("ab", s.buf);
    // Two bytes are too many, one is not.
    type_keys(&mut s, &mut None, "ßc");
    assert_eq!("abc", s.buf);
}

#[test]
fn a_line_takes_at_most_max_line_bytes() {
    let mut s = start_line("", 80, &None);
    let text: String = std::iter::repeat('x').take(MAX_LINE - 1).collect();
    type_keys(&mut s, &mut None, &text);
    assert_eq!(4095, s.buf.len());
    type_keys(&mut s, &mut None, "α日");
    assert_eq!(4095, s.buf.len());
    assert_eq!(4096, accepted(type_keys(&mut s, &mut None, "yz\r")).len());
}

#[test]
fn a_recalled_line_takes_at_most_max_line_bytes() {
    let long: String = std::iter::repeat('x').take(MAX_LINE - 1).collect();
    let mut entries = History::new();
    entries.add(&long);
    let mut history = Some(entries);
    let mut s = start_line("", 80, &history);
    type_keys(&mut s, &mut history, "ab\x10ß");
    assert_eq!(long, s.buf);
    type_keys(&mut s, &mut history, "yz");
    assert_eq!(4096, s.buf.len());
    type_keys(&mut s, &mut history, "\x0ec");
    assert_eq!("abc", s.buf);
    assert_eq!(4096, s.limit);
    assert_eq!(4095, accepted(type_keys(&mut s, &mut history, "\x10\r")).len());
}

#[test]
fn the_buffer_has_room_for_a_long_line() {
    let mut s = start_line("", 80, &None);
    let text: String = std::iter::repeat('x').take(4096).collect();
    let mut pending = Pending::Nothing;
    for ch in text.chars() {
        step(&mut s, &mut None, &mut pending, ch);
        s.out.take();
    }
    assert_eq!(text, s.buf);
}

#[test]
fn a_history_entry_leaves_room_to_type() {
    let mut history = two_entries();
    let mut s = start_line("", 80, &history);
    assert_eq!("line1!", accepted(type_keys(&mut s, &mut history, "\x10!\r")));
    assert_eq!(4096, s.limit);
    assert!(s.buf.capacity() >= 4096);
}

#[test]
fn a_long_history_entry_keeps_its_room() {
    let long: String = std::iter::repeat('x').take(5000).collect();
    let mut entries = History::new();
    entries.add(&long);
    let mut history = Some(entries);
    let mut s = start_line("", 80, &history);
    type_keys(&mut s, &mut history, "\x10y");
    assert_eq!(long, s.buf);
    assert_eq!(5000, s.limit);
    type_keys(&mut s, &mut history, "\x7fyz");
    assert_eq!(5000, s.buf.len());
    assert!(s.buf.ends_with("xy"));
}

#[test]
fn the_typed_line_comes_back_after_edits() {
    let mut history = two_entries();
    let mut s = start_line("", 80, &history);
    let keys = "typed\x10!\x01\x0b\x10\x17abc\x0e\x04\x0e\r";
    assert_eq!("typed", accepted(type_keys(&mut s, &mut history, keys)));
    assert_eq!(5, s.pos);
}

#[test]
fn apply_carries_out_one_command() {
    let mut s = start_line("", 80, &None);
    assert!(can_apply(&s, &None, Action::Insert('α')));
    assert!(matches!(apply(&mut s, &mut None, Action::Insert('α')), Step::Continue));
    assert!(can_apply(&s, &None, Action::MoveHome));
    assert!(matches!(apply(&mut s, &mut None, Action::MoveHome), Step::Continue));
    assert_eq!(0, s.pos);
    assert_eq!("α", s.buf);
}

#[test]
fn escape_sequences_end() {
    assert_eq!((Pending::Escape, None), decode(Pending::Nothing, '\x1b'));
    assert_eq!((Pending::Bracket, None), decode(Pending::Escape, '['));
    assert_eq!((Pending::LetterO, None), decode(Pending::Escape, 'O'));
    assert_eq!((Pending::Nothing, None), decode(Pending::Escape, 'x'));
    assert_eq!((Pending::BracketDigit('3'), None), decode(Pending::Bracket, '3'));
    assert_eq!((Pending::Nothing, Some(Action::Delete)), decode(Pending::BracketDigit('3'), '~'));
    assert_eq!((Pending::Nothing, None), decode(Pending::BracketDigit('2'), '~'));
    assert_eq!((Pending::Nothing, Some(Action::MoveLeft)), decode(Pending::Bracket, 'D'));
    assert_eq!((Pending::Nothing, Some(Action::Insert('q'))), decode(Pending::Nothing, 'q'));
}
