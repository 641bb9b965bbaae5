//! What the keys do, from the character that is typed to the line and the row.

use vstd::prelude::*;
use vstd::utf8::*;

use crate::consts::{key_press, law_printable_characters_are_no_keys, KeyPress};
use crate::effects::{law_insert, law_what_fits};
use crate::error::{Errno, ReadlineError};
use crate::keys::{law_keys_outside_of_escape_sequences, Pending};
use crate::laws::{law_enter_hands_over_what_was_typed, run};
use crate::model::StateView;
use crate::session::{stepped, StepView};

verus! {

/// The keys that edit the line do so wherever the row can be painted, and more is then read.
pub proof fn law_editing_keys(v: StateView, entries: Option<Seq<Seq<char>>>)
    requires
        v.prompt_width < v.cols,
    ensures
        stepped(v, Pending::Nothing, entries, '\x01') == Some(
            (v.move_home(), Pending::Nothing, StepView::Continue),
        ),
        stepped(v, Pending::Nothing, entries, '\x02') == Some(
            (v.move_left(), Pending::Nothing, StepView::Continue),
        ),
        stepped(v, Pending::Nothing, entries, '\x05') == Some(
            (v.move_end(), Pending::Nothing, StepView::Continue),
        ),
        stepped(v, Pending::Nothing, entries, '\x06') == Some(
            (v.move_right(), Pending::Nothing, StepView::Continue),
        ),
        stepped(v, Pending::Nothing, entries, '\x08') == Some(
            (v.backspace(), Pending::Nothing, StepView::Continue),
        ),
        stepped(v, Pending::Nothing, entries, '\x0b') == Some(
            (v.kill_line(), Pending::Nothing, StepView::Continue),
        ),
        stepped(v, Pending::Nothing, entries, '\x0c') == Some(
            (v.clear(), Pending::Nothing, StepView::Continue),
        ),
        stepped(v, Pending::Nothing, entries, '\x14') == Some(
            (v.transpose_chars(), Pending::Nothing, StepView::Continue),
        ),
        stepped(v, Pending::Nothing, entries, '\x15') == Some(
            (v.discard_line(), Pending::Nothing, StepView::Continue),
        ),
        stepped(v, Pending::Nothing, entries, '\x17') == Some(
            (v.delete_prev_word(), Pending::Nothing, StepView::Continue),
        ),
        stepped(v, Pending::Nothing, entries, '\x7f') == Some(
            (v.backspace(), Pending::Nothing, StepView::Continue),
        ),
{
}

/// Control-P and Control-N go back and forward in the history, and do nothing where there is none.
pub proof fn law_history_keys(v: StateView, entries: Seq<Seq<char>>)
    requires
        v.prompt_width < v.cols,
        v.history_index < usize::MAX,
    ensures
        stepped(v, Pending::Nothing, Some(entries), '\x10') == Some(
            (v.browse(entries, true), Pending::Nothing, StepView::Continue),
        ),
        stepped(v, Pending::Nothing, Some(entries), '\x0e') == Some(
            (v.browse(entries, false), Pending::Nothing, StepView::Continue),
        ),
        stepped(v, Pending::Nothing, None, '\x10') == Some(
            (v, Pending::Nothing, StepView::Continue),
        ),
        stepped(v, Pending::Nothing, None, '\x0e') == Some(
            (v, Pending::Nothing, StepView::Continue),
        ),
{
}

/// Enter hands over the text on both sides of the cursor, Control-C gives up whatever was typed,
/// and Control-D ends the input where nothing was typed and deletes at the cursor elsewhere.
pub proof fn law_keys_that_end_a_line(v: StateView, entries: Option<Seq<Seq<char>>>)
    ensures
        stepped(v, Pending::Nothing, entries, '\x0d') == Some(
            (v, Pending::Nothing, StepView::Accepted(v.before + v.after)),
        ),
        stepped(v, Pending::Nothing, entries, '\x03') == Some(
            (v, Pending::Nothing, StepView::Failed(ReadlineError::Errno(Errno::EAGAIN))),
        ),
        v.before.len() + v.after.len() == 0 ==> stepped(v, Pending::Nothing, entries, '\x04')
            == Some((v, Pending::Nothing, StepView::Failed(ReadlineError::Eof))),
        v.before.len() + v.after.len() > 0 && v.prompt_width < v.cols ==> stepped(
            v,
            Pending::Nothing,
            entries,
            '\x04',
        ) == Some((v.delete(), Pending::Nothing, StepView::Continue)),
{
}

/// Every character but those of the keys with a meaning of their own is inserted at the cursor,
/// which moves behind it, or dropped where the line would outgrow its limit.
pub proof fn law_any_other_character_is_inserted(
    v: StateView,
    entries: Option<Seq<Seq<char>>>,
    ch: char,
)
    requires
        v.prompt_width < v.cols,
        !seq![
            '\x01',
            '\x02',
            '\x03',
            '\x04',
            '\x05',
            '\x06',
            '\x08',
            '\x0b',
            '\x0c',
            '\x0d',
            '\x0e',
            '\x10',
            '\x14',
            '\x15',
            '\x17',
            '\x1b',
            '\x7f',
        ].contains(ch),
    ensures
        stepped(v, Pending::Nothing, entries, ch) matches Some((w, pending, outcome)) && {
            &&& pending == Pending::Nothing
            &&& outcome == StepView::Continue
            &&& if encode_utf8(v.before + v.after).len() + encode_utf8(seq![ch]).len()
                <= v.limit {
                &&& w.before + w.after == (v.before + v.after).insert(v.before.len() as int, ch)
                &&& w.before.len() == v.before.len() + 1
            } else {
                w == v
            }
        },
{
    law_keys_outside_of_escape_sequences(ch);
    law_what_fits(v, ch);
    law_insert(v, ch);
}

/// Text without control characters that is typed on an empty line, within its limit, is the line
/// that Enter hands over.
pub proof fn law_printable_text_is_handed_over(
    v: StateView,
    entries: Option<Seq<Seq<char>>>,
    text: Seq<char>,
)
    requires
        v.before.len() == 0,
        v.after.len() == 0,
        v.prompt_width < v.cols,
        encode_utf8(text).len() <= v.limit,
        forall|i: int|
            0 <= i < text.len() ==> (' ' <= #[trigger] text[i] && text[i] <= '~') || text[i]
                >= '\u{a0}',
    ensures
        run(v, Pending::Nothing, entries, text.push('\x0d')) matches Some((w, pending, outcome))
            && outcome == StepView::Accepted(text),
{
    assert forall|i: int| 0 <= i < text.len() implies key_press(#[trigger] text[i])
        == KeyPress::OTHER by {
        law_printable_characters_are_no_keys(text[i]);
    }
    law_enter_hands_over_what_was_typed(v, entries, text);
}

/// ESC and what follows it change nothing until a sequence is complete. `ESC [` and `A`, `B`, `C`,
/// `D`, `H` or `F` then do what Control-P, -N, -F, -B, -A or -E do, and so do `ESC O` and `H` or
/// `F`; every other sequence but that of Delete does nothing.
pub proof fn law_escape_sequences(
    v: StateView,
    entries: Option<Seq<Seq<char>>>,
    ch: char,
    digit: char,
)
    ensures
        stepped(v, Pending::Nothing, entries, '\x1b') == Some(
            (v, Pending::Escape, StepView::Continue),
        ),
        stepped(v, Pending::Escape, entries, '[') == Some(
            (v, Pending::Bracket, StepView::Continue),
        ),
        stepped(v, Pending::Escape, entries, 'O') == Some(
            (v, Pending::LetterO, StepView::Continue),
        ),
        ch != '[' && ch != 'O' ==> stepped(v, Pending::Escape, entries, ch) == Some(
            (v, Pending::Nothing, StepView::Continue),
        ),
        stepped(v, Pending::Bracket, entries, 'A') == stepped(
            v,
            Pending::Nothing,
            entries,
            '\x10',
        ),
        stepped(v, Pending::Bracket, entries, 'B') == stepped(
            v,
            Pending::Nothing,
            entries,
            '\x0e',
        ),
        stepped(v, Pending::Bracket, entries, 'C') == stepped(
            v,
            Pending::Nothing,
            entries,
            '\x06',
        ),
        stepped(v, Pending::Bracket, entries, 'D') == stepped(
            v,
            Pending::Nothing,
            entries,
            '\x02',
        ),
        stepped(v, Pending::Bracket, entries, 'H') == stepped(
            v,
            Pending::Nothing,
            entries,
            '\x01',
        ),
        stepped(v, Pending::Bracket, entries, 'F') == stepped(
            v,
            Pending::Nothing,
            entries,
            '\x05',
        ),
        '0' <= ch && ch <= '9' ==> stepped(v, Pending::Bracket, entries, ch) == Some(
            (v, Pending::BracketDigit(ch), StepView::Continue),
        ),
        (ch < '0' || '9' < ch && ch < 'A' || ch == 'E' || ch == 'G' || 'H' < ch) ==> stepped(
            v,
            Pending::Bracket,
            entries,
            ch,
        ) == Some((v, Pending::Nothing, StepView::Continue)),
        digit != '3' || ch != '~' ==> stepped(v, Pending::BracketDigit(digit), entries, ch)
            == Some((v, Pending::Nothing, StepView::Continue)),
        stepped(v, Pending::LetterO, entries, 'H') == stepped(
            v,
            Pending::Nothing,
            entries,
            '\x01',
        ),
        stepped(v, Pending::LetterO, entries, 'F') == stepped(
            v,
            Pending::Nothing,
            entries,
            '\x05',
        ),
        ch != 'H' && ch != 'F' ==> stepped(v, Pending::LetterO, entries, ch) == Some(
            (v, Pending::Nothing, StepView::Continue),
        ),
{
}

/// The Delete key, `ESC [ 3 ~`, deletes at the cursor and never ends the input.
pub proof fn law_delete_sequence(v: StateView, entries: Option<Seq<Seq<char>>>)
    ensures
        v.prompt_width < v.cols || v.after.len() == 0 ==> stepped(
            v,
            Pending::BracketDigit('3'),
            entries,
            '~',
        ) == Some((v.delete(), Pending::Nothing, StepView::Continue)),
{
}

} // verus!
