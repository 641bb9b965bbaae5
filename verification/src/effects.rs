//! What each command does, said in terms of the line and the cursor alone. The line is the text
//! before the cursor followed by the text from it on, and the cursor stands before the character
//! whose number is the length of the former.

use vstd::prelude::*;
use vstd::utf8::*;

use crate::model::{blanks_of, run_start, word_start, StateView};
use crate::screen::{
    cells, decimal, law_window, lemma_span_grows, lemma_span_of_part, span, window_end,
    window_start,
};
use crate::strings::white_space;
use crate::text::lemma_one_char;
use crate::width::{law_width_of_parts, text_width};

verus! {

/// The columns of the part of the line that starts with character `i` and ends with the `k`
/// characters from the cursor on.
proof fn lemma_part_around_the_cursor(v: StateView, i: int, k: int)
    requires
        0 <= i <= v.before.len(),
        0 <= k <= v.after.len(),
    ensures
        v.line().subrange(i, v.before.len() + k) == v.before.skip(i) + v.after.take(k),
        span(cells(v.line()), i, v.before.len() as int) == text_width(v.before.skip(i)),
        span(cells(v.line()), i, v.before.len() + k) == text_width(v.before.skip(i)) + text_width(
            v.after.take(k),
        ),
{
    let cursor = v.before.len() as int;
    assert(v.line().subrange(i, cursor) == v.before.skip(i));
    assert(v.line().subrange(i, cursor + k) == v.before.skip(i) + v.after.take(k));
    lemma_span_of_part(v.line(), i, cursor);
    lemma_span_of_part(v.line(), i, cursor + k);
    law_width_of_parts(v.before.skip(i), v.after.take(k));
}

/// There is always a part of the line to show: as much of the text before the cursor as leaves a
/// column for the cursor itself, and as much of the text from the cursor on as the row then holds.
pub proof fn law_some_part_is_shown(v: StateView)
    requires
        v.prompt_width < v.cols,
    ensures
        exists|i: int, k: int|
            {
                &&& 0 <= i <= v.before.len()
                &&& 0 <= k <= v.after.len()
                &&& v.prompt_width + text_width(#[trigger] v.before.skip(i)) < v.cols
                &&& i > 0 ==> v.prompt_width + text_width(v.before.skip(i - 1)) >= v.cols
                &&& v.prompt_width + text_width(v.before.skip(i)) + text_width(
                    #[trigger] v.after.take(k),
                ) <= v.cols
                &&& k < v.after.len() ==> v.prompt_width + text_width(v.before.skip(i))
                    + text_width(v.after.take(k + 1)) > v.cols
            },
{
    let widths = cells(v.line());
    let cursor = v.before.len() as int;
    let room = v.cols - v.prompt_width;
    law_window(widths, cursor, room);
    let i = window_start(widths, cursor, room);
    let k = window_end(widths, cursor, room) - cursor;
    lemma_part_around_the_cursor(v, i, k);
    if i > 0 {
        lemma_part_around_the_cursor(v, i - 1, 0);
        assert(span(widths, i - 1, cursor) >= room);
    }
    if k < v.after.len() {
        lemma_part_around_the_cursor(v, i, k + 1);
        assert(span(widths, i, cursor + k + 1) > room);
    }
    assert(v.before.skip(i).len() >= 0 && v.after.take(k).len() >= 0);
}

/// Painting the row writes, in one go and changing nothing else: a carriage return, the prompt,
/// the text before the cursor from character `i` on, the first `k` characters from the cursor on,
/// `ESC [ 0 K`, and a carriage return with `ESC [ n C`, where `n` is the column behind the prompt
/// and the text that is shown before the cursor. So the cursor stands on the first character
/// behind it. Here `i` is as small as leaves a column for the cursor, and `k` as large as the row
/// holds.
pub proof fn law_the_row_shows_the_text_around_the_cursor(v: StateView, i: int, k: int)
    requires
        0 <= i <= v.before.len(),
        0 <= k <= v.after.len(),
        v.prompt_width + text_width(v.before.skip(i)) < v.cols,
        i > 0 ==> v.prompt_width + text_width(v.before.skip(i - 1)) >= v.cols,
        v.prompt_width + text_width(v.before.skip(i)) + text_width(v.after.take(k)) <= v.cols,
        k < v.after.len() ==> v.prompt_width + text_width(v.before.skip(i)) + text_width(
            v.after.take(k + 1),
        ) > v.cols,
    ensures
        v.repaint() == (StateView {
            out: v.out.push(
                seq![0x0du8] + encode_utf8(v.prompt) + encode_utf8(
                    v.before.skip(i) + v.after.take(k),
                ) + seq![0x1bu8, 0x5b, 0x30, 0x4b] + seq![0x0du8, 0x1b, 0x5b] + decimal(
                    v.prompt_width + text_width(v.before.skip(i)),
                ) + seq![0x43u8],
            ),
            ..v
        }),
{
    let widths = cells(v.line());
    let cursor = v.before.len() as int;
    let room = v.cols - v.prompt_width;
    law_window(widths, cursor, room);
    let first = window_start(widths, cursor, room);
    let last = window_end(widths, cursor, room);
    lemma_part_around_the_cursor(v, i, k);
    if i < first {
        assert(span(widths, i, cursor) >= room);
    }
    if i > first {
        lemma_part_around_the_cursor(v, i - 1, 0);
        lemma_span_grows(widths, i - 1, cursor, first, cursor);
    }
    assert(first == i);
    if last < cursor + k {
        assert(span(widths, i, cursor + k) > room);
    }
    if last > cursor + k {
        lemma_part_around_the_cursor(v, i, k + 1);
        lemma_span_grows(widths, i, cursor + k + 1, i, last);
    }
    assert(last == cursor + k);
    assert(v.repaint().out.last() == seq![0x0du8] + encode_utf8(v.prompt) + encode_utf8(
        v.before.skip(i) + v.after.take(k),
    ) + seq![0x1bu8, 0x5b, 0x30, 0x4b] + seq![0x0du8, 0x1b, 0x5b] + decimal(
        v.prompt_width + text_width(v.before.skip(i)),
    ) + seq![0x43u8]);
}

/// The row can be painted exactly where the prompt leaves a column for the cursor.
pub proof fn law_where_the_row_can_be_painted(v: StateView)
    ensures
        v.can_paint() <==> v.prompt_width < v.cols,
{
}

/// Clearing the screen writes `ESC [ H ESC [ 2 J` and paints the row anew. The line, the cursor
/// and everything else stay.
pub proof fn law_clear_screen(v: StateView)
    ensures
        v.clear() == (StateView {
            out: v.out.push(seq![0x1bu8, 0x5b, 0x48, 0x1b, 0x5b, 0x32, 0x4a]),
            ..v
        }).repaint(),
{
}

/// A character fits exactly where the bytes of the line and its own do not exceed the limit.
pub proof fn law_what_fits(v: StateView, ch: char)
    ensures
        v.fits(ch) <==> encode_utf8(v.before + v.after).len() + encode_utf8(seq![ch]).len()
            <= v.limit,
{
    lemma_one_char(ch);
}

/// A character that fits is put into the line at the cursor, which moves behind it; one that does
/// not changes nothing. At the end of a line that stays shorter than the row the character itself
/// is written; everywhere else the row is painted anew.
pub proof fn law_insert(v: StateView, ch: char)
    ensures
        ({
            let w = v.insert(ch);
            let cursor = v.before.len() as int;
            let fits = encode_utf8(v.before + v.after).len() + encode_utf8(seq![ch]).len()
                <= v.limit;
            let next = StateView { before: w.before, after: w.after, ..v };
            &&& !fits ==> w == v
            &&& fits ==> {
                &&& w.before + w.after == (v.before + v.after).insert(cursor, ch)
                &&& w.before.len() == cursor + 1
                &&& w == if v.after.len() == 0 && v.prompt_width + text_width(v.before)
                    + text_width(seq![ch]) < v.cols {
                    StateView { out: v.out.push(encode_utf8(seq![ch])), ..next }
                } else {
                    next.repaint()
                }
            }
        }),
{
    lemma_one_char(ch);
    let w = v.insert(ch);
    law_width_of_parts(v.before, seq![ch]);
    assert(v.before.push(ch) + v.after == (v.before + v.after).insert(v.before.len() as int, ch));
    if v.after.len() == 0 {
        assert(v.before.push(ch) + v.after == v.before + seq![ch]);
    }
}

/// A move to the left takes the cursor over one character, and none at the start of the line; the
/// line stays. Where the cursor moves the row is painted anew, and nothing else changes.
pub proof fn law_move_left(v: StateView)
    ensures
        ({
            let w = v.move_left();
            &&& v.before.len() == 0 ==> w == v
            &&& v.before.len() > 0 ==> {
                &&& w.before + w.after == v.before + v.after
                &&& w.before.len() == v.before.len() - 1
                &&& w == (StateView { before: w.before, after: w.after, ..v }).repaint()
            }
        }),
{
    assert(v.before.len() > 0 ==> v.move_left().before + v.move_left().after == v.before + v.after);
}

/// A move to the right takes the cursor over one character, and none at the end of the line; the
/// line stays. Where the cursor moves the row is painted anew, and nothing else changes.
pub proof fn law_move_right(v: StateView)
    ensures
        ({
            let w = v.move_right();
            &&& v.after.len() == 0 ==> w == v
            &&& v.after.len() > 0 ==> {
                &&& w.before + w.after == v.before + v.after
                &&& w.before.len() == v.before.len() + 1
                &&& w == (StateView { before: w.before, after: w.after, ..v }).repaint()
            }
        }),
{
    assert(v.after.len() > 0 ==> v.move_right().before + v.move_right().after == v.before
        + v.after);
}

/// Home takes the cursor to the start of the line, which stays. Where the cursor moves the row is
/// painted anew, and nothing else changes.
pub proof fn law_move_home(v: StateView)
    ensures
        ({
            let w = v.move_home();
            &&& v.before.len() == 0 ==> w == v
            &&& v.before.len() > 0 ==> {
                &&& w.before + w.after == v.before + v.after
                &&& w.before.len() == 0
                &&& w == (StateView { before: w.before, after: w.after, ..v }).repaint()
            }
        }),
{
    assert(v.before.len() > 0 ==> v.move_home().before + v.move_home().after == v.before + v.after);
}

/// End takes the cursor to the end of the line, which stays. Where the cursor moves the row is
/// painted anew, and nothing else changes.
pub proof fn law_move_end(v: StateView)
    ensures
        ({
            let w = v.move_end();
            &&& v.after.len() == 0 ==> w == v
            &&& v.after.len() > 0 ==> {
                &&& w.before + w.after == v.before + v.after
                &&& w.before.len() == (v.before + v.after).len()
                &&& w == (StateView { before: w.before, after: w.after, ..v }).repaint()
            }
        }),
{
    assert(v.after.len() > 0 ==> v.move_end().before + v.move_end().after == v.before + v.after);
}

/// Delete takes the character at the cursor out of the line, and the cursor stays; at the end of
/// the line there is none. Where the line changes the row is painted anew, and nothing else
/// changes.
pub proof fn law_delete(v: StateView)
    ensures
        ({
            let w = v.delete();
            let cursor = v.before.len() as int;
            &&& v.after.len() == 0 ==> w == v
            &&& v.after.len() > 0 ==> {
                &&& w.before + w.after == (v.before + v.after).remove(cursor)
                &&& w.before.len() == cursor
                &&& w == (StateView { before: w.before, after: w.after, ..v }).repaint()
            }
        }),
{
    assert(v.after.len() > 0 ==> v.delete().before + v.delete().after == (v.before
        + v.after).remove(v.before.len() as int));
}

/// Backspace takes the character before the cursor out of the line, and the cursor goes to where
/// it stood; at the start of the line there is none. Where the line changes the row is painted
/// anew, and nothing else changes.
pub proof fn law_backspace(v: StateView)
    ensures
        ({
            let w = v.backspace();
            let cursor = v.before.len() as int;
            &&& v.before.len() == 0 ==> w == v
            &&& v.before.len() > 0 ==> {
                &&& w.before + w.after == (v.before + v.after).remove(cursor - 1)
                &&& w.before.len() == cursor - 1
                &&& w == (StateView { before: w.before, after: w.after, ..v }).repaint()
            }
        }),
{
    assert(v.before.len() > 0 ==> v.backspace().before + v.backspace().after == (v.before
        + v.after).remove(v.before.len() - 1));
}

/// Killing to the end leaves exactly the part of the line before the cursor, which stays behind
/// it. Where the line changes the row is painted anew, and nothing else changes.
pub proof fn law_kill_line(v: StateView)
    ensures
        ({
            let w = v.kill_line();
            let cursor = v.before.len() as int;
            &&& w.before + w.after == (v.before + v.after).take(cursor)
            &&& w.before.len() == cursor
            &&& v.after.len() == 0 ==> w == v
            &&& v.after.len() > 0 ==> w == (StateView {
                before: w.before,
                after: w.after,
                ..v
            }).repaint()
        }),
{
    assert(v.kill_line().before + v.kill_line().after == (v.before + v.after).take(
        v.before.len() as int,
    ));
}

/// Killing to the beginning leaves exactly the part of the line from the cursor on, which now
/// stands before it. Where the line changes the row is painted anew, and nothing else changes.
pub proof fn law_discard_line(v: StateView)
    ensures
        ({
            let w = v.discard_line();
            let cursor = v.before.len() as int;
            &&& w.before + w.after == (v.before + v.after).skip(cursor)
            &&& w.before.len() == 0
            &&& v.before.len() == 0 ==> w == v
            &&& v.before.len() > 0 ==> w == (StateView {
                before: w.before,
                after: w.after,
                ..v
            }).repaint()
        }),
{
    assert(v.discard_line().before + v.discard_line().after == (v.before + v.after).skip(
        v.before.len() as int,
    ));
}

/// With a character on both sides of the cursor these two change places and every other one stays
/// where it is, however long the line. The cursor moves behind the two, or stays between them
/// where they end the line. The row is painted anew, and nothing else changes. At either end of
/// the line nothing is done.
pub proof fn law_transpose_chars(v: StateView)
    ensures
        ({
            let w = v.transpose_chars();
            let cursor = v.before.len() as int;
            let line = v.before + v.after;
            &&& v.before.len() == 0 || v.after.len() == 0 ==> w == v
            &&& v.before.len() > 0 && v.after.len() > 0 ==> {
                &&& (w.before + w.after).len() == line.len()
                &&& (w.before + w.after)[cursor - 1] == line[cursor]
                &&& (w.before + w.after)[cursor] == line[cursor - 1]
                &&& forall|i: int|
                    0 <= i < line.len() && i != cursor - 1 && i != cursor ==> #[trigger] (w.before
                        + w.after)[i] == line[i]
                &&& w.before.len() == if cursor + 1 < line.len() {
                    cursor + 1
                } else {
                    cursor
                }
                &&& w == (StateView { before: w.before, after: w.after, ..v }).repaint()
            }
        }),
{
}

proof fn lemma_run_start_is(flags: Seq<bool>, n: int, value: bool, start: int)
    requires
        0 <= start <= n <= flags.len(),
        forall|i: int| start <= i < n ==> #[trigger] flags[i] == value,
        start > 0 ==> flags[start - 1] != value,
    ensures
        run_start(flags, n, value) == start,
    decreases n,
{
    if start < n {
        assert(flags[n - 1] == value);
        lemma_run_start_is(flags, n - 1, value, start);
    }
}

/// The last word starts at `start` where all flags from `end` on say white space, all from
/// `start` up to `end` say none, and neither run could start earlier.
pub proof fn law_word_start(blanks: Seq<bool>, start: int, end: int)
    requires
        0 <= start <= end <= blanks.len(),
        forall|i: int| end <= i < blanks.len() ==> #[trigger] blanks[i],
        forall|i: int| start <= i < end ==> !#[trigger] blanks[i],
        end > 0 ==> !blanks[end - 1],
        start > 0 ==> blanks[start - 1],
    ensures
        word_start(blanks) == start,
{
    lemma_run_start_is(blanks, blanks.len() as int, true, end);
    lemma_run_start_is(blanks, end, false, start);
}

/// Killing the word behind the cursor takes out the text from character `start` up to the cursor,
/// which goes to where it started: all of the white space before the cursor, from character `end`
/// on, and all of the word before that. The row is painted anew, and nothing else changes. At the
/// start of the line nothing is done.
pub proof fn law_kill_word(v: StateView, start: int, end: int)
    requires
        0 <= start <= end <= v.before.len(),
        forall|i: int| end <= i < v.before.len() ==> white_space(#[trigger] v.before[i]),
        forall|i: int| start <= i < end ==> !white_space(#[trigger] v.before[i]),
        end > 0 ==> !white_space(v.before[end - 1]),
        start > 0 ==> white_space(v.before[start - 1]),
    ensures
        ({
            let w = v.delete_prev_word();
            let line = v.before + v.after;
            &&& v.before.len() == 0 ==> w == v
            &&& v.before.len() > 0 ==> {
                &&& w.before + w.after == line.take(start) + line.skip(v.before.len() as int)
                &&& w.before.len() == start
                &&& w == (StateView { before: w.before, after: w.after, ..v }).repaint()
            }
        }),
{
    law_word_start(blanks_of(v.before), start, end);
    let line = v.before + v.after;
    assert(v.before.take(start) == line.take(start));
    assert(v.after == line.skip(v.before.len() as int));
}

/// Going back in the history makes the place one less and the line exactly the entry at that
/// place, with the cursor behind it, wherever the cursor was and whatever the line held. The line
/// that was being typed, behind the last entry, is remembered; elsewhere the one that was
/// remembered stays, and it is shown where there is no entry at the place. The line may then take
/// 4096 bytes, or what it takes if that is more. The row is painted anew, and nothing else
/// changes. With no entry before the place nothing is done.
pub proof fn law_previous_entry(v: StateView, entries: Seq<Seq<char>>)
    ensures
        ({
            let w = v.browse(entries, true);
            &&& entries.len() == 0 || v.history_index == 0 ==> w == v
            &&& entries.len() > 0 && v.history_index > 0 ==> {
                &&& w.history_index + 1 == v.history_index
                &&& v.history_index <= entries.len() ==> w.before
                    == entries[w.history_index as int]
                &&& v.history_index > entries.len() ==> w.before == v.history_end
                &&& w.after.len() == 0
                &&& v.history_index == entries.len() ==> w.history_end == v.before + v.after
                &&& v.history_index != entries.len() ==> w.history_end == v.history_end
                &&& w.limit >= 4096 && w.limit >= encode_utf8(w.before).len()
                &&& w.limit == 4096 || w.limit == encode_utf8(w.before).len()
                &&& w == (StateView {
                    before: w.before,
                    after: w.after,
                    history_index: w.history_index,
                    history_end: w.history_end,
                    limit: w.limit,
                    ..v
                }).repaint()
            }
        }),
{
}

/// Going forward in the history makes the place one more and the line exactly the entry at that
/// place, with the cursor behind it, or behind the last entry the line that was remembered, which
/// stays remembered. The line may then take 4096 bytes, or what it takes if that is more. The row
/// is painted anew, and nothing else changes. At the line that is being typed, or with no entry at
/// all, nothing is done.
pub proof fn law_next_entry(v: StateView, entries: Seq<Seq<char>>)
    ensures
        ({
            let w = v.browse(entries, false);
            &&& entries.len() == 0 || v.history_index == entries.len() ==> w == v
            &&& entries.len() > 0 && v.history_index != entries.len() ==> {
                &&& w.history_index == v.history_index + 1
                &&& w.history_index < entries.len() ==> w.before
                    == entries[w.history_index as int]
                &&& w.history_index >= entries.len() ==> w.before == v.history_end
                &&& w.after.len() == 0
                &&& w.history_end == v.history_end
                &&& w.limit >= 4096 && w.limit >= encode_utf8(w.before).len()
                &&& w.limit == 4096 || w.limit == encode_utf8(w.before).len()
                &&& w == (StateView {
                    before: w.before,
                    after: w.after,
                    history_index: w.history_index,
                    limit: w.limit,
                    ..v
                }).repaint()
            }
        }),
{
}

/// Between the entries going forward shows again what going back left, and the other way round.
pub proof fn law_browsing_is_undone(v: StateView, entries: Seq<Seq<char>>)
    ensures
        0 < v.history_index < entries.len() ==> {
            let w = v.browse(entries, true).browse(entries, false);
            &&& w.history_index == v.history_index
            &&& w.before == entries[v.history_index as int]
            &&& w.after.len() == 0
        },
        v.history_index + 1 < entries.len() ==> {
            let w = v.browse(entries, false).browse(entries, true);
            &&& w.history_index == v.history_index
            &&& w.before == entries[v.history_index as int]
            &&& w.after.len() == 0
        },
{
}

} // verus!
