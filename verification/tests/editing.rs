use rustyline::edit;
use rustyline::history::History;
use rustyline::output::Output;
use rustyline::state::State;

fn init_state(line: &str, pos: usize, cols: usize) -> State<'static> {
    State {
        out: Output::new(),
        prompt: "",
        prompt_width: 0,
        buf: String::from(line),
        pos: pos,
        cols: cols,
        history_index: 0,
        history_end: String::new(),
        limit: line.len(),
    }
}

#[test]
fn insert() {
    let mut s = State::new(Output::new(), "", 128, 80, 0);
    edit::edit_insert(&mut s, 'α');
    assert_eq!("α", s.buf);
    assert_eq!(2, s.pos);

    edit::edit_insert(&mut s, 'ß');
    assert_eq!("αß", s.buf);
    assert_eq!(4, s.pos);

    s.pos = 0;
    edit::edit_insert(&mut s, 'γ');
    assert_eq!("γαß", s.buf);
    assert_eq!(2, s.pos);
}

#[test]
fn moves() {
    let mut s = init_state("αß", 4, 80);
    edit::edit_move_left(&mut s);
    assert_eq!("αß", s.buf);
    assert_eq!(2, s.pos);

    edit::edit_move_right(&mut s);
    assert_eq!("αß", s.buf);
    assert_eq!(4, s.pos);

    edit::edit_move_home(&mut s);
    assert_eq!("αß", s.buf);
    assert_eq!(0, s.pos);

    edit::edit_move_end(&mut s);
    assert_eq!("αß", s.buf);
    assert_eq!(4, s.pos);
}

#[test]
fn delete() {
    let mut s = init_state("αß", 2, 80);
    edit::edit_delete(&mut s);
    assert_eq!("α", s.buf);
    assert_eq!(2, s.pos);

    edit::edit_backspace(&mut s);
    assert_eq!("", s.buf);
    assert_eq!(0, s.pos);
}

#[test]
fn kill() {
    let mut s = init_state("αßγδε", 6, 80);
    edit::edit_kill_line(&mut s);
    assert_eq!("αßγ", s.buf);
    assert_eq!(6, s.pos);

    s.pos = 4;
    edit::edit_discard_line(&mut s);
    assert_eq!("γ", s.buf);
    assert_eq!(0, s.pos);
}

#[test]
fn transpose() {
    let mut s = init_state("aßc", 1, 80);
    edit::edit_transpose_chars(&mut s);
    assert_eq!("ßac", s.buf);
    assert_eq!(3, s.pos);

    s.buf = String::from("aßc");
    s.pos = 3;
    edit::edit_transpose_chars(&mut s);
    assert_eq!("acß", s.buf);
    assert_eq!(2, s.pos);
}

#[test]
fn delete_prev_word() {
    let mut s = init_state("a ß  c", 6, 80);
    edit::edit_delete_prev_word(&mut s);
    assert_eq!("a c", s.buf);
    assert_eq!(2, s.pos);
}

#[test]
fn edit_history_next() {
    let line = "current edited line";
    let mut s = init_state(line, 6, 80);
    let mut history = History::new();
    history.add("line0");
    history.add("line1");
    s.history_index = history.len();
    s.buf = String::from(line);

    for _ in 0..2 {
        edit::edit_history_next(&mut s, &mut history, false);
        assert_eq!(line, s.buf);
    }

    edit::edit_history_next(&mut s, &mut history, true);
    assert_eq!(line, s.history_end);
    assert_eq!(1, s.history_index);
    assert_eq!("line1", s.buf);

    for _ in 0..2 {
        edit::edit_history_next(&mut s, &mut history, true);
        assert_eq!(line, s.history_end);
        assert_eq!(0, s.history_index);
        assert_eq!("line0", s.buf);
    }

    edit::edit_history_next(&mut s, &mut history, false);
    assert_eq!(line, s.history_end);
    assert_eq!(1, s.history_index);
    assert_eq!("line1", s.buf);

    edit::edit_history_next(&mut s, &mut history, false);
    assert_eq!(line, s.history_end);
    assert_eq!(2, s.history_index);
    assert_eq!(line, s.buf);
}
