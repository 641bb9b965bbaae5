use rustyline::consts::{char_to_key_press, KeyPress};
use rustyline::error::{Errno, ReadlineError};
use rustyline::history::History;
use rustyline::input::{decode_char, utf8_char_width};
use rustyline::terminal::{
    columns_or_default, is_unsupported_term, make_raw, read_mode, require_tty, Attributes,
    FlagBits, ReadMode,
};
use rustyline::text::{chars_of, len_in_bytes, split};

#[test]
fn unsupported_terminals() {
    for term in ["dumb", "cons25", "emacs", "DUMB", "Cons25", "eMacs"].iter() {
        assert!(is_unsupported_term(Some(term)), "{}", term);
    }
    for term in ["xterm", "", "dumber", "emac", "ėmacs"].iter() {
        assert!(!is_unsupported_term(Some(term)), "{}", term);
    }
    assert!(!is_unsupported_term(None));
}

#[test]
fn read_modes() {
    assert_eq!(ReadMode::Direct, read_mode(Some("dumb"), true));
    assert_eq!(ReadMode::Direct, read_mode(Some("dumb"), false));
    assert_eq!(ReadMode::Raw, read_mode(Some("xterm"), true));
    assert_eq!(ReadMode::Direct, read_mode(Some("xterm"), false));
    assert_eq!(ReadMode::Raw, read_mode(None, true));
    assert_eq!(ReadMode::Direct, read_mode(None, false));
}

#[test]
fn raw_mode_needs_a_terminal() {
    assert_eq!(Ok(()), require_tty(true));
    assert_eq!(Err(ReadlineError::Errno(Errno::ENOTTY)), require_tty(false));
}

#[test]
fn columns() {
    assert_eq!(132, columns_or_default(Some(132)));
    assert_eq!(0, columns_or_default(Some(0)));
    assert_eq!(80, columns_or_default(None));
}

#[test]
fn raw_mode() {
    let bits = FlagBits {
        brkint: 0x002,
        icrnl: 0x100,
        inpck: 0x010,
        istrip: 0x020,
        ixon: 0x400,
        opost: 0x001,
        cs8: 0x030,
        echo: 0x008,
        icanon: 0x002,
        iexten: 0x8000,
        isig: 0x001,
        vmin: 6,
        vtime: 5,
    };
    let attributes = Attributes {
        input: 0x6d32,
        output: 0x05,
        control: 0x8f,
        local: 0x8a3b,
        control_chars: vec![3, 28, 127, 21, 4, 9, 9, 0],
    };
    let raw = make_raw(attributes, bits);
    assert_eq!(0x6800, raw.input);
    assert_eq!(0x04, raw.output);
    assert_eq!(0xbf, raw.control);
    assert_eq!(0x0a30, raw.local);
    assert_eq!(vec![3, 28, 127, 21, 4, 0, 1, 0], raw.control_chars);
    let again = make_raw(raw, bits);
    assert_eq!(0x6800, again.input);
    assert_eq!(0x04, again.output);
    assert_eq!(0xbf, again.control);
    assert_eq!(0x0a30, again.local);
    assert_eq!(vec![3, 28, 127, 21, 4, 0, 1, 0], again.control_chars);
}

#[test]
fn key_presses() {
    assert_eq!(KeyPress::CTRL_A, char_to_key_press('\x01'));
    assert_eq!(KeyPress::CTRL_W, char_to_key_press('\x17'));
    assert_eq!(KeyPress::ENTER, char_to_key_press('\r'));
    assert_eq!(KeyPress::ESC, char_to_key_press('\x1b'));
    assert_eq!(KeyPress::BACKSPACE, char_to_key_press('\x7f'));
    assert_eq!(KeyPress::OTHER, char_to_key_press('a'));
    assert_eq!(KeyPress::OTHER, char_to_key_press('\0'));
}

#[test]
fn characters_from_bytes() {
    for ch in ['a', '\0', '\x7f', 'ß', '\u{7ff}', '日', '\u{ffff}', '😀', '\u{10ffff}'].iter() {
        let bytes = ch.to_string().into_bytes();
        assert_eq!(bytes.len(), utf8_char_width(bytes[0]));
        assert_eq!(Some(*ch), decode_char(&bytes));
    }
    for first in [0x80u8, 0xbf, 0xc0, 0xc1, 0xf5, 0xff].iter() {
        assert_eq!(0, utf8_char_width(*first));
    }
    assert_eq!(None, decode_char(b""));
    assert_eq!(None, decode_char(b"ab"));
    assert_eq!(None, decode_char(&[0xc3]));
    assert_eq!(None, decode_char(&[0xed, 0xa0, 0x80]));
}

#[test]
fn history_entries() {
    let mut history = History::new();
    assert_eq!(0, history.len());
    assert_eq!(None, history.get(0));
    history.add("ls");
    history.add("cd");
    assert_eq!(2, history.len());
    assert_eq!(Some(&String::from("ls")), history.get(0));
    assert_eq!(Some(&String::from("cd")), history.get(1));
    assert_eq!(None, history.get(2));
}

#[test]
fn text_helpers() {
    assert_eq!(("aß", "日"), split("aß日", 3));
    assert_eq!(6, len_in_bytes("aß日"));
    assert_eq!(vec!['a', 'ß', '日'], chars_of("aß日"));
}
