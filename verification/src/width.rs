//! How many terminal columns characters and strings take.

use unicode_width::{UnicodeWidthChar, UnicodeWidthStr};
use vstd::prelude::*;

verus! {

/// The width that the tables of `unicode_width` hold for a character from U+00A0 on.
pub uninterp spec fn table_width(c: char) -> usize;

/// The width of a character in columns; `None` for control characters but NUL.
pub open spec fn char_width(c: char) -> Option<usize> {
    if c == '\0' {
        Some(0)
    } else if ' ' <= c && c <= '~' {
        Some(1)
    } else if c >= '\u{A0}' {
        Some(table_width(c))
    } else {
        None
    }
}

/// The columns that a character takes on the screen: control characters take none.
pub open spec fn cell_width(c: char) -> usize {
    match char_width(c) {
        Some(w) => w,
        None => 0,
    }
}

/// The columns that a text takes on the screen.
pub open spec fn text_width(s: Seq<char>) -> nat
    decreases s.len(),
{
    if s.len() == 0 {
        0
    } else {
        text_width(s.drop_last()) + cell_width(s.last()) as nat
    }
}

/// `UnicodeWidthChar::width` for `char`: 1 for printable ASCII, 0 for NUL, `None` for the other
/// control characters, and what the crate's tables hold, named `table_width` here, for all
/// characters from U+00A0 on.
#[verifier::external_body]
pub(crate) fn unicode_char_width(c: char) -> (res: Option<usize>)
    ensures
        res == char_width(c),
        c >= '\u{A0}' ==> res == Some(table_width(c)),
{
    UnicodeWidthChar::width(c)
}

/// `UnicodeWidthStr::width` for `str`: the sum of the widths of the characters, where control
/// characters count for nothing.
#[verifier::external_body]
pub(crate) fn unicode_str_width(s: &str) -> (res: usize)
    ensures
        res == text_width(s@),
{
    UnicodeWidthStr::width(s)
}

/// The columns that `s` takes. Control characters are treated as having zero width.
pub fn width(s: &str) -> (res: usize)
    ensures
        res == text_width(s@),
{
    unicode_str_width(s)
}

/// The columns that `c` takes. A control character is treated as having zero width.
pub fn width_of_char(c: char) -> (res: usize)
    ensures
        res == cell_width(c),
{
    match unicode_char_width(c) {
        Some(w) => w,
        None => 0,
    }
}

/// Printable ASCII text takes as many columns as it has characters.
pub proof fn law_ascii_width(s: Seq<char>)
    requires
        forall|i: int| 0 <= i < s.len() ==> ' ' <= #[trigger] s[i] && s[i] <= '~',
    ensures
        text_width(s) == s.len(),
    decreases s.len(),
{
    if s.len() > 0 {
        law_ascii_width(s.drop_last());
    }
}

/// Whether `c` is a control character.
pub open spec fn is_control(c: char) -> bool {
    c < ' ' || ('\u{7f}' <= c && c <= '\u{9f}')
}

/// Control characters are treated as having zero width: a text without them takes the columns
/// that it takes with them.
pub proof fn law_control_characters_take_no_columns(s: Seq<char>)
    ensures
        text_width(s.filter(|c: char| !is_control(c))) == text_width(s),
    decreases s.len(),
{
    reveal(Seq::filter);
    if s.len() > 0 {
        law_control_characters_take_no_columns(s.drop_last());
        let kept = s.drop_last().filter(|c: char| !is_control(c));
        if !is_control(s.last()) {
            assert(kept.push(s.last()).drop_last() == kept);
        }
    }
}

/// A text takes the columns of its parts.
pub proof fn law_width_of_parts(a: Seq<char>, b: Seq<char>)
    ensures
        text_width(a + b) == text_width(a) + text_width(b),
    decreases b.len(),
{
    if b.len() == 0 {
        assert(a + b == a);
    } else {
        law_width_of_parts(a, b.drop_last());
        assert((a + b).drop_last() == a + b.drop_last());
    }
}

/// One character takes its own width: none where it is a control character, one column where it
/// is printable ASCII, and from U+00A0 on what the tables say.
pub proof fn law_width_of_one(c: char)
    ensures
        text_width(seq![c]) == cell_width(c),
        c < ' ' || ('\u{7f}' <= c && c <= '\u{9f}') ==> cell_width(c) == 0,
        ' ' <= c && c <= '~' ==> cell_width(c) == 1,
        c >= '\u{a0}' ==> cell_width(c) == table_width(c),
{
    assert(seq![c].drop_last() == Seq::<char>::empty());
    assert(text_width(Seq::<char>::empty()) == 0);
}

} // verus!
