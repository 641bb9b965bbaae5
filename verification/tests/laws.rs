use rustyline::edit;
use rustyline::output::Output;
use rustyline::state::State;

fn state(line: &str, pos: usize) -> State<'static> {
    let mut s = State::new(Output::new(), "", 128, 80, 0);
    s.buf.push_str(line);
    s.pos = pos;
    s
}

#[test]
fn moves_undo_each_other() {
    let mut s = state("aß日c", 3);
    edit::edit_move_left(&mut s);
    assert_eq!(1, s.pos);
    edit::edit_move_right(&mut s);
    assert_eq!(3, s.pos);
    edit::edit_move_right(&mut s);
    assert_eq!(6, s.pos);
    edit::edit_move_left(&mut s);
    assert_eq!(3, s.pos);
    assert_eq!("aß日c", s.buf);
}

#[test]
fn home_and_end_are_done_once() {
    let mut s = state("aß日c", 3);
    edit::edit_move_end(&mut s);
    edit::edit_move_end(&mut s);
    assert_eq!(7, s.pos);
    assert_eq!(1, s.out.writes.len());
    edit::edit_move_home(&mut s);
    edit::edit_move_home(&mut s);
    assert_eq!(0, s.pos);
    assert_eq!(2, s.out.writes.len());
}

#[test]
fn insert_is_undone() {
    let mut s = state("aß", 1);
    edit::edit_insert(&mut s, '日');
    assert_eq!("a日ß", s.buf);
    edit::edit_backspace(&mut s);
    assert_eq!("aß", s.buf);
    assert_eq!(1, s.pos);

    edit::edit_insert(&mut s, '日');
    edit::edit_move_left(&mut s);
    edit::edit_delete(&mut s);
    assert_eq!("aß", s.buf);
    assert_eq!(1, s.pos);
}

#[test]
fn backspace_is_left_and_delete() {
    let mut s = state("aß日", 3);
    let mut t = state("aß日", 3);
    edit::edit_backspace(&mut s);
    edit::edit_move_left(&mut t);
    edit::edit_delete(&mut t);
    assert_eq!("a日", s.buf);
    assert_eq!(s.buf, t.buf);
    assert_eq!(s.pos, t.pos);
}

#[test]
fn kill_and_discard_empty_the_line() {
    let mut s = state("aß日", 3);
    edit::edit_kill_line(&mut s);
    edit::edit_discard_line(&mut s);
    assert_eq!("", s.buf);
    let mut s = state("aß日", 3);
    edit::edit_discard_line(&mut s);
    edit::edit_kill_line(&mut s);
    assert_eq!("", s.buf);
    assert_eq!(0, s.pos);
}

#[test]
fn kill_and_discard_part_the_line() {
    let mut s = state("aß日", 3);
    edit::edit_kill_line(&mut s);
    assert_eq!("aß", s.buf);
    let mut t = state("aß日", 3);
    edit::edit_discard_line(&mut t);
    assert_eq!("日", t.buf);
    assert_eq!("aß日", format!("{}{}", s.buf, t.buf));
}

#[test]
fn transpose_twice_at_the_end() {
    let mut s = state("xß日", 3);
    edit::edit_transpose_chars(&mut s);
    assert_eq!("x日ß", s.buf);
    assert_eq!(6, s.buf.len());
    assert_eq!(4, s.pos);
    edit::edit_transpose_chars(&mut s);
    assert_eq!("xß日", s.buf);
    assert_eq!(3, s.pos);
}

#[test]
fn transpose_at_the_ends_of_the_line_does_nothing() {
    let mut s = state("ab", 0);
    edit::edit_transpose_chars(&mut s);
    s.pos = 2;
    edit::edit_transpose_chars(&mut s);
    assert_eq!("ab", s.buf);
    assert!(s.out.writes.is_empty());
}
