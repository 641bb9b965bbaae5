//! From the characters that the terminal sends to editing commands.

use vstd::prelude::*;

use crate::consts::{char_to_key_press, key_press, KeyPress};

verus! {

/// An editing command.
#[derive(Clone, Copy, Debug, PartialEq, Eq, Structural)]
pub enum Action {
    MoveHome,
    MoveLeft,
    MoveRight,
    MoveEnd,
    Delete,
    /// Delete at the cursor, or end the input where the line is empty.
    DeleteOrEof,
    Backspace,
    KillLine,
    DiscardLine,
    DeletePrevWord,
    TransposeChars,
    ClearScreen,
    HistoryPrev,
    HistoryNext,
    Insert(char),
    /// Give up.
    Interrupt,
    /// Hand the line over.
    Accept,
}

/// How much of an escape sequence has been read.
#[derive(Clone, Copy, Debug, PartialEq, Eq, Structural)]
pub enum Pending {
    /// None of one.
    Nothing,
    /// `ESC`.
    Escape,
    /// `ESC [`.
    Bracket,
    /// `ESC [` and a digit.
    BracketDigit(char),
    /// `ESC O`.
    LetterO,
}

/// What a key does outside of an escape sequence. `ESC` starts one.
pub open spec fn action_of(ch: char) -> Option<Action> {
    match key_press(ch) {
        KeyPress::CTRL_A => Some(Action::MoveHome),
        KeyPress::CTRL_B => Some(Action::MoveLeft),
        KeyPress::CTRL_C => Some(Action::Interrupt),
        KeyPress::CTRL_D => Some(Action::DeleteOrEof),
        KeyPress::CTRL_E => Some(Action::MoveEnd),
        KeyPress::CTRL_F => Some(Action::MoveRight),
        KeyPress::CTRL_H | KeyPress::BACKSPACE => Some(Action::Backspace),
        KeyPress::CTRL_K => Some(Action::KillLine),
        KeyPress::CTRL_L => Some(Action::ClearScreen),
        KeyPress::CTRL_N => Some(Action::HistoryNext),
        KeyPress::CTRL_P => Some(Action::HistoryPrev),
        KeyPress::CTRL_T => Some(Action::TransposeChars),
        KeyPress::CTRL_U => Some(Action::DiscardLine),
        KeyPress::CTRL_W => Some(Action::DeletePrevWord),
        KeyPress::ENTER => Some(Action::Accept),
        KeyPress::ESC => None,
        KeyPress::OTHER => Some(Action::Insert(ch)),
    }
}

/// What `ESC [` and `ch` do.
pub open spec fn bracket_action(ch: char) -> Option<Action> {
    match ch {
        'A' => Some(Action::HistoryPrev),
        'B' => Some(Action::HistoryNext),
        'C' => Some(Action::MoveRight),
        'D' => Some(Action::MoveLeft),
        'H' => Some(Action::MoveHome),
        'F' => Some(Action::MoveEnd),
        _ => None,
    }
}

/// What `ESC O` and `ch` do.
pub open spec fn letter_o_action(ch: char) -> Option<Action> {
    match ch {
        'H' => Some(Action::MoveHome),
        'F' => Some(Action::MoveEnd),
        _ => None,
    }
}

/// Whether `ch` is a decimal digit.
pub open spec fn is_decimal_digit(ch: char) -> bool {
    '0' <= ch && ch <= '9'
}

/// What has been read of an escape sequence once `ch` has come in, and the command that `ch`
/// completes. Sequences with no meaning are swallowed.
pub open spec fn decoded(pending: Pending, ch: char) -> (Pending, Option<Action>) {
    match pending {
        Pending::Nothing => if key_press(ch) == KeyPress::ESC {
            (Pending::Escape, None)
        } else {
            (Pending::Nothing, action_of(ch))
        },
        Pending::Escape => if ch == '[' {
            (Pending::Bracket, None)
        } else if ch == 'O' {
            (Pending::LetterO, None)
        } else {
            (Pending::Nothing, None)
        },
        Pending::Bracket => if is_decimal_digit(ch) {
            (Pending::BracketDigit(ch), None)
        } else {
            (Pending::Nothing, bracket_action(ch))
        },
        Pending::BracketDigit(digit) => if digit == '3' && ch == '~' {
            (Pending::Nothing, Some(Action::Delete))
        } else {
            (Pending::Nothing, None)
        },
        Pending::LetterO => (Pending::Nothing, letter_o_action(ch)),
    }
}

fn key_action(ch: char) -> (res: Option<Action>)
    ensures
        res == action_of(ch),
{
    match char_to_key_press(ch) {
        KeyPress::CTRL_A => Some(Action::MoveHome),
        KeyPress::CTRL_B => Some(Action::MoveLeft),
        KeyPress::CTRL_C => Some(Action::Interrupt),
        KeyPress::CTRL_D => Some(Action::DeleteOrEof),
        KeyPress::CTRL_E => Some(Action::MoveEnd),
        KeyPress::CTRL_F => Some(Action::MoveRight),
        KeyPress::CTRL_H | KeyPress::BACKSPACE => Some(Action::Backspace),
        KeyPress::CTRL_K => Some(Action::KillLine),
        KeyPress::CTRL_L => Some(Action::ClearScreen),
        KeyPress::CTRL_N => Some(Action::HistoryNext),
        KeyPress::CTRL_P => Some(Action::HistoryPrev),
        KeyPress::CTRL_T => Some(Action::TransposeChars),
        KeyPress::CTRL_U => Some(Action::DiscardLine),
        KeyPress::CTRL_W => Some(Action::DeletePrevWord),
        KeyPress::ENTER => Some(Action::Accept),
        KeyPress::ESC => None,
        KeyPress::OTHER => Some(Action::Insert(ch)),
    }
}

/// Takes in the next character that the terminal sent.
pub fn decode(pending: Pending, ch: char) -> (res: (Pending, Option<Action>))
    ensures
        res == decoded(pending, ch),
{
    match pending {
        Pending::Nothing => match key_action(ch) {
            None => (Pending::Escape, None),
            Some(action) => (Pending::Nothing, Some(action)),
        },
        Pending::Escape => if ch == '[' {
            (Pending::Bracket, None)
        } else if ch == 'O' {
            (Pending::LetterO, None)
        } else {
            (Pending::Nothing, None)
        },
        // Extended escape, another character follows.
        Pending::Bracket => if '0' <= ch && ch <= '9' {
            (Pending::BracketDigit(ch), None)
        } else {
            let action = match ch {
                'A' => Some(Action::HistoryPrev),
                'B' => Some(Action::HistoryNext),
                'C' => Some(Action::MoveRight),
                'D' => Some(Action::MoveLeft),
                'H' => Some(Action::MoveHome),
                'F' => Some(Action::MoveEnd),
                _ => None,
            };
            (Pending::Nothing, action)
        },
        Pending::BracketDigit(digit) => if ch == '~' && digit == '3' {
            (Pending::Nothing, Some(Action::Delete))
        } else {
            (Pending::Nothing, None)
        },
        Pending::LetterO => {
            let action = match ch {
                'H' => Some(Action::MoveHome),
                'F' => Some(Action::MoveEnd),
                _ => None,
            };
            (Pending::Nothing, action)
        },
    }
}

/// Outside of an escape sequence each of these characters is a command, ESC starts a sequence, and
/// every other character is inserted.
pub proof fn law_keys_outside_of_escape_sequences(ch: char)
    ensures
        decoded(Pending::Nothing, '\x01') == (Pending::Nothing, Some(Action::MoveHome)),
        decoded(Pending::Nothing, '\x02') == (Pending::Nothing, Some(Action::MoveLeft)),
        decoded(Pending::Nothing, '\x03') == (Pending::Nothing, Some(Action::Interrupt)),
        decoded(Pending::Nothing, '\x04') == (Pending::Nothing, Some(Action::DeleteOrEof)),
        decoded(Pending::Nothing, '\x05') == (Pending::Nothing, Some(Action::MoveEnd)),
        decoded(Pending::Nothing, '\x06') == (Pending::Nothing, Some(Action::MoveRight)),
        decoded(Pending::Nothing, '\x08') == (Pending::Nothing, Some(Action::Backspace)),
        decoded(Pending::Nothing, '\x0b') == (Pending::Nothing, Some(Action::KillLine)),
        decoded(Pending::Nothing, '\x0c') == (Pending::Nothing, Some(Action::ClearScreen)),
        decoded(Pending::Nothing, '\x0d') == (Pending::Nothing, Some(Action::Accept)),
        decoded(Pending::Nothing, '\x0e') == (Pending::Nothing, Some(Action::HistoryNext)),
        decoded(Pending::Nothing, '\x10') == (Pending::Nothing, Some(Action::HistoryPrev)),
        decoded(Pending::Nothing, '\x14') == (Pending::Nothing, Some(Action::TransposeChars)),
        decoded(Pending::Nothing, '\x15') == (Pending::Nothing, Some(Action::DiscardLine)),
        decoded(Pending::Nothing, '\x17') == (Pending::Nothing, Some(Action::DeletePrevWord)),
        decoded(Pending::Nothing, '\x7f') == (Pending::Nothing, Some(Action::Backspace)),
        decoded(Pending::Nothing, '\x1b') == (Pending::Escape, None::<Action>),
        !seq![
            '\x01',
            '\x02',
            '\x03',
            '\x04',
            '\x05',
            '\x06',
            '\x08',
            '\x0b',
            '\x0c',
            '\x0d',
            '\x0e',
            '\x10',
            '\x14',
            '\x15',
            '\x17',
            '\x1b',
            '\x7f',
        ].contains(ch) ==> decoded(Pending::Nothing, ch) == (
            Pending::Nothing,
            Some(Action::Insert(ch)),
        ),
{
    let keys = seq![
            '\x01',
            '\x02',
            '\x03',
            '\x04',
            '\x05',
            '\x06',
            '\x08',
            '\x0b',
            '\x0c',
            '\x0d',
            '\x0e',
            '\x10',
            '\x14',
            '\x15',
            '\x17',
            '\x1b',
            '\x7f',
    ];
    if !keys.contains(ch) {
        assert(ch != keys[0] && ch != keys[1] && ch != keys[2] && ch != keys[3]);
        assert(ch != keys[4] && ch != keys[5] && ch != keys[6] && ch != keys[7]);
        assert(ch != keys[8] && ch != keys[9] && ch != keys[10] && ch != keys[11]);
        assert(ch != keys[12] && ch != keys[13] && ch != keys[14] && ch != keys[15]);
        assert(ch != keys[16]);
    }
}

/// Within an escape sequence a character leads on or ends it: `ESC [` and a letter are the arrow
/// keys, Home and End, `ESC O` and a letter Home and End, `ESC [ 3 ~` is Delete, and whatever else
/// follows `ESC`, `ESC O`, `ESC [` or `ESC [` and a digit is swallowed.
pub proof fn law_keys_within_escape_sequences(ch: char, digit: char)
    ensures
        decoded(Pending::Escape, '[') == (Pending::Bracket, None::<Action>),
        decoded(Pending::Escape, 'O') == (Pending::LetterO, None::<Action>),
        ch != '[' && ch != 'O' ==> decoded(Pending::Escape, ch) == (
            Pending::Nothing,
            None::<Action>,
        ),
        decoded(Pending::Bracket, 'A') == (Pending::Nothing, Some(Action::HistoryPrev)),
        decoded(Pending::Bracket, 'B') == (Pending::Nothing, Some(Action::HistoryNext)),
        decoded(Pending::Bracket, 'C') == (Pending::Nothing, Some(Action::MoveRight)),
        decoded(Pending::Bracket, 'D') == (Pending::Nothing, Some(Action::MoveLeft)),
        decoded(Pending::Bracket, 'H') == (Pending::Nothing, Some(Action::MoveHome)),
        decoded(Pending::Bracket, 'F') == (Pending::Nothing, Some(Action::MoveEnd)),
        '0' <= ch && ch <= '9' ==> decoded(Pending::Bracket, ch) == (
            Pending::BracketDigit(ch),
            None::<Action>,
        ),
        (ch < '0' || '9' < ch && ch < 'A' || ch == 'E' || ch == 'G' || 'H' < ch) ==> decoded(
            Pending::Bracket,
            ch,
        ) == (Pending::Nothing, None::<Action>),
        decoded(Pending::BracketDigit('3'), '~') == (Pending::Nothing, Some(Action::Delete)),
        digit != '3' || ch != '~' ==> decoded(Pending::BracketDigit(digit), ch) == (
            Pending::Nothing,
            None::<Action>,
        ),
        decoded(Pending::LetterO, 'H') == (Pending::Nothing, Some(Action::MoveHome)),
        decoded(Pending::LetterO, 'F') == (Pending::Nothing, Some(Action::MoveEnd)),
        ch != 'H' && ch != 'F' ==> decoded(Pending::LetterO, ch) == (
            Pending::Nothing,
            None::<Action>,
        ),
{
}

} // verus!
