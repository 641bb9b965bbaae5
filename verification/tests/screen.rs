use rustyline::edit::{edit_delete_prev_word, edit_insert, edit_move_home, edit_move_left, prev_word_start};
use rustyline::output::{clear_screen, write_and_flush, Output};
use rustyline::screen::{paint_bytes, push_decimal, visible_window};
use rustyline::state::{refresh_line, State};
use rustyline::width::{width, width_of_char};

fn state<'a>(prompt: &'a str, line: &str, pos: usize, cols: usize) -> State<'a> {
    let mut s = State::new(Output::new(), prompt, 128, cols, 0);
    s.buf.push_str(line);
    s.pos = pos;
    s
}

fn painted(s: &mut State) -> String {
    refresh_line(s);
    String::from_utf8(s.out.take().pop().unwrap()).unwrap()
}

#[test]
fn widths() {
    assert_eq!(0, width(""));
    assert_eq!(5, width("hello"));
    assert_eq!(4, width("日本"));
    assert_eq!(1, width("e\u{301}"));
    assert_eq!(2, width("a\x1bb\x00"));
    assert_eq!(width("a日") + width("b"), width("a日b"));
    assert_eq!(1, width_of_char('a'));
    assert_eq!(2, width_of_char('日'));
    assert_eq!(0, width_of_char('\x07'));
    assert_eq!(0, width_of_char('\0'));
}

#[test]
fn control_characters_take_no_columns() {
    let text = "\x07a\x1b日\x7f\0\u{9f}b\n";
    let kept: String = text.chars().filter(|c| !c.is_control()).collect();
    assert_eq!("a日b", kept);
    assert_eq!(4, width(text));
    assert_eq!(4, width(&kept));
}

#[test]
fn windows() {
    let cells = vec![1, 2, 1, 0, 1];
    // Everything fits.
    let w = visible_window(&cells, 2, 6);
    assert_eq!((0, 5, 3), (w.start, w.end, w.column));
    // The cursor keeps a column behind the text before it.
    let w = visible_window(&cells, 5, 5);
    assert_eq!((1, 5, 4), (w.start, w.end, w.column));
    let w = visible_window(&cells, 5, 4);
    assert_eq!((2, 5, 2), (w.start, w.end, w.column));
    // The text behind the cursor may take the last column.
    let w = visible_window(&cells, 0, 3);
    assert_eq!((0, 2, 0), (w.start, w.end, w.column));
    let w = visible_window(&cells, 0, 4);
    assert_eq!((0, 4, 0), (w.start, w.end, w.column));
    // One column.
    let w = visible_window(&cells, 2, 1);
    assert_eq!((2, 4, 0), (w.start, w.end, w.column));
}

#[test]
fn a_new_state_has_the_room_asked_for() {
    let s = State::new(Output::new(), ">> ", 128, 80, 2);
    assert_eq!(">> ", s.prompt);
    assert_eq!(3, s.prompt_width);
    assert_eq!("", s.buf);
    assert!(s.buf.capacity() >= 128);
    assert_eq!(128, s.limit);
    assert_eq!(0, s.pos);
    assert_eq!(80, s.cols);
    assert_eq!(2, s.history_index);
    assert_eq!("", s.history_end);
}

#[test]
fn short_line_is_painted_whole() {
    assert_eq!("\r> héllo\x1b[0K\r\x1b[4C", painted(&mut state("> ", "héllo", 3, 80)));
    assert_eq!("\r\x1b[0K\r\x1b[0C", painted(&mut state("", "", 0, 80)));
    assert_eq!("\r日日\x1b[0K\r\x1b[2C", painted(&mut state("", "日日", 3, 80)));
}

#[test]
fn long_line_scrolls() {
    assert_eq!("\r> 23456789\x1b[0K\r\x1b[9C", painted(&mut state("> ", "0123456789", 9, 10)));
    assert_eq!("\r> 3456789\x1b[0K\r\x1b[9C", painted(&mut state("> ", "0123456789", 10, 10)));
    assert_eq!("\r> 01234567\x1b[0K\r\x1b[2C", painted(&mut state("> ", "0123456789", 0, 10)));
    assert_eq!("\r日a\x1b[0K\r\x1b[3C", painted(&mut state("", "日日a", 7, 4)));
}

#[test]
fn one_column_is_enough_to_paint() {
    assert_eq!("\r>\x1b[0K\r\x1b[1C", painted(&mut state(">", "ab", 2, 2)));
    assert_eq!("\r>a\x1b[0K\r\x1b[1C", painted(&mut state(">", "ab", 0, 2)));
}

#[test]
fn insert_at_the_end_writes_the_character_alone() {
    let mut s = state("> ", "ab", 2, 6);
    edit_insert(&mut s, 'ß');
    assert_eq!(vec!["ß".as_bytes().to_vec()], s.out.take());
    // The row is full now.
    edit_insert(&mut s, 'c');
    assert_eq!(vec!["\r> bßc\x1b[0K\r\x1b[5C".as_bytes().to_vec()], s.out.take());
    edit_move_home(&mut s);
    s.out.take();
    edit_insert(&mut s, '日');
    assert_eq!(vec!["\r> 日ab\x1b[0K\r\x1b[4C".as_bytes().to_vec()], s.out.take());
    assert_eq!("日abßc", s.buf);
}

#[test]
fn insert_into_a_full_line_does_nothing() {
    let mut s = state("", "αß", 4, 80);
    s.limit = 4;
    edit_insert(&mut s, 'x');
    assert_eq!("αß", s.buf);
    assert!(s.out.writes.is_empty());
    s.limit = 5;
    edit_insert(&mut s, 'γ');
    assert_eq!("αß", s.buf);
    edit_insert(&mut s, 'x');
    assert_eq!("αßx", s.buf);
    assert_eq!(5, s.pos);
}

#[test]
fn nothing_to_do_writes_nothing() {
    let mut s = state("", "ab", 0, 80);
    edit_move_left(&mut s);
    edit_move_home(&mut s);
    edit_delete_prev_word(&mut s);
    assert!(s.out.writes.is_empty());
}

#[test]
fn words() {
    assert_eq!(0, prev_word_start(&vec![]));
    assert_eq!(0, prev_word_start(&vec![true, true]));
    assert_eq!(0, prev_word_start(&vec![false, false]));
    assert_eq!(2, prev_word_start(&vec![false, true, false, true, true]));
    let mut s = state("", "foo bar\u{3000} x", 11, 80);
    edit_delete_prev_word(&mut s);
    assert_eq!("foo x", s.buf);
    assert_eq!(4, s.pos);
    edit_delete_prev_word(&mut s);
    assert_eq!("x", s.buf);
    assert_eq!(0, s.pos);
}

#[test]
fn decimals() {
    for n in [0usize, 7, 10, 80, 109, 65535, usize::MAX].iter() {
        let mut out = vec![b'x'];
        push_decimal(&mut out, *n);
        assert_eq!(format!("x{}", n).into_bytes(), out);
    }
}

#[test]
fn paint_is_prompt_text_and_cursor() {
    assert_eq!("\rpt\x1b[0K\r\x1b[12C".as_bytes().to_vec(), paint_bytes("p", "t", 12));
}

#[test]
fn output_keeps_writes_apart() {
    let mut out = Output::new();
    write_and_flush(&mut out, b"ab");
    clear_screen(&mut out);
    write_and_flush(&mut out, b"");
    assert_eq!(vec![b"ab".to_vec(), b"\x1b[H\x1b[2J".to_vec(), b"".to_vec()], out.take());
    assert!(out.take().is_empty());
}
