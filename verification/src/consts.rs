//! The keys that mean something to the editor.

use vstd::prelude::*;

verus! {

/// A key with a meaning of its own, or any other character.
#[allow(non_camel_case_types)]
#[derive(Clone, Copy, Debug, PartialEq, Eq, Structural)]
pub enum KeyPress {
    CTRL_A,
    CTRL_B,
    CTRL_C,
    CTRL_D,
    CTRL_E,
    CTRL_F,
    CTRL_H,
    CTRL_K,
    CTRL_L,
    CTRL_N,
    CTRL_P,
    CTRL_T,
    CTRL_U,
    CTRL_W,
    ENTER,
    ESC,
    BACKSPACE,
    OTHER,
}

/// The key that sends `ch`. The control key clears all but the low five bits of a letter.
pub open spec fn key_press(ch: char) -> KeyPress {
    match ch {
        '\x01' => KeyPress::CTRL_A,
        '\x02' => KeyPress::CTRL_B,
        '\x03' => KeyPress::CTRL_C,
        '\x04' => KeyPress::CTRL_D,
        '\x05' => KeyPress::CTRL_E,
        '\x06' => KeyPress::CTRL_F,
        '\x08' => KeyPress::CTRL_H,
        '\x0b' => KeyPress::CTRL_K,
        '\x0c' => KeyPress::CTRL_L,
        '\x0d' => KeyPress::ENTER,
        '\x0e' => KeyPress::CTRL_N,
        '\x10' => KeyPress::CTRL_P,
        '\x14' => KeyPress::CTRL_T,
        '\x15' => KeyPress::CTRL_U,
        '\x17' => KeyPress::CTRL_W,
        '\x1b' => KeyPress::ESC,
        '\x7f' => KeyPress::BACKSPACE,
        _ => KeyPress::OTHER,
    }
}

/// The key that sends `ch`.
pub fn char_to_key_press(ch: char) -> (res: KeyPress)
    ensures
        res == key_press(ch),
{
    match ch {
        '\x01' => KeyPress::CTRL_A,
        '\x02' => KeyPress::CTRL_B,
        '\x03' => KeyPress::CTRL_C,
        '\x04' => KeyPress::CTRL_D,
        '\x05' => KeyPress::CTRL_E,
        '\x06' => KeyPress::CTRL_F,
        '\x08' => KeyPress::CTRL_H,
        '\x0b' => KeyPress::CTRL_K,
        '\x0c' => KeyPress::CTRL_L,
        '\x0d' => KeyPress::ENTER,
        '\x0e' => KeyPress::CTRL_N,
        '\x10' => KeyPress::CTRL_P,
        '\x14' => KeyPress::CTRL_T,
        '\x15' => KeyPress::CTRL_U,
        '\x17' => KeyPress::CTRL_W,
        '\x1b' => KeyPress::ESC,
        '\x7f' => KeyPress::BACKSPACE,
        _ => KeyPress::OTHER,
    }
}

/// Each key with a meaning of its own is sent by one character and by no other: Control and a
/// letter by the low five bits of the letter, Enter by CR, ESC and Backspace by ESC and DEL.
pub proof fn law_key_presses(ch: char)
    ensures
        key_press(ch) == KeyPress::CTRL_A <==> ch == '\x01',
        key_press(ch) == KeyPress::CTRL_B <==> ch == '\x02',
        key_press(ch) == KeyPress::CTRL_C <==> ch == '\x03',
        key_press(ch) == KeyPress::CTRL_D <==> ch == '\x04',
        key_press(ch) == KeyPress::CTRL_E <==> ch == '\x05',
        key_press(ch) == KeyPress::CTRL_F <==> ch == '\x06',
        key_press(ch) == KeyPress::CTRL_H <==> ch == '\x08',
        key_press(ch) == KeyPress::CTRL_K <==> ch == '\x0b',
        key_press(ch) == KeyPress::CTRL_L <==> ch == '\x0c',
        key_press(ch) == KeyPress::CTRL_N <==> ch == '\x0e',
        key_press(ch) == KeyPress::CTRL_P <==> ch == '\x10',
        key_press(ch) == KeyPress::CTRL_T <==> ch == '\x14',
        key_press(ch) == KeyPress::CTRL_U <==> ch == '\x15',
        key_press(ch) == KeyPress::CTRL_W <==> ch == '\x17',
        key_press(ch) == KeyPress::ENTER <==> ch == '\x0d',
        key_press(ch) == KeyPress::ESC <==> ch == '\x1b',
        key_press(ch) == KeyPress::BACKSPACE <==> ch == '\x7f',
{
}

/// A character that is no control character is never taken for a key with a meaning of its own.
pub proof fn law_printable_characters_are_no_keys(ch: char)
    requires
        (' ' <= ch && ch <= '~') || ch >= '\u{a0}',
    ensures
        key_press(ch) == KeyPress::OTHER,
{
}

} // verus!
