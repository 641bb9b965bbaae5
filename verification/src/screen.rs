//! What is sent to the terminal: the part of the line that fits on one row, and the control
//! sequences around it.

use vstd::prelude::*;
use vstd::utf8::*;

use crate::width::{cell_width, text_width};

verus! {

/// The columns that the cells from number `i` up to number `j` take together.
pub open spec fn span(widths: Seq<usize>, i: int, j: int) -> nat
    decreases j - i,
{
    if i >= j {
        0
    } else {
        span(widths, i, j - 1) + widths[j - 1] as nat
    }
}

/// The leftmost cell that can still be shown when the text from there up to the cursor has to
/// stay below `room` columns, looking at the cells before `from`.
pub open spec fn open_left(widths: Seq<usize>, from: int, cursor: int, room: int) -> int
    decreases from,
{
    if from <= 0 || span(widths, from - 1, cursor) >= room {
        from
    } else {
        open_left(widths, from - 1, cursor, room)
    }
}

/// The end of the text that can be shown from cell `start` on within `room` columns, looking at
/// the cells from `to` on.
pub open spec fn open_right(widths: Seq<usize>, start: int, to: int, room: int) -> int
    decreases widths.len() - to,
{
    if to >= widths.len() || span(widths, start, to + 1) > room {
        to
    } else {
        open_right(widths, start, to + 1, room)
    }
}

/// The first visible cell of a line whose cursor stands before cell `cursor`, on a row with
/// `room` columns: as far left of the cursor as leaves a column for the cursor itself.
pub open spec fn window_start(widths: Seq<usize>, cursor: int, room: int) -> int {
    open_left(widths, cursor, cursor, room)
}

/// The end of the visible cells: as far right as the row has columns.
pub open spec fn window_end(widths: Seq<usize>, cursor: int, room: int) -> int {
    open_right(widths, window_start(widths, cursor, room), cursor, room)
}

/// A span starts with its first cell.
pub proof fn lemma_span_first(widths: Seq<usize>, i: int, j: int)
    requires
        i < j,
    ensures
        span(widths, i, j) == widths[i] as nat + span(widths, i + 1, j),
    decreases j - i,
{
    if i + 1 < j {
        lemma_span_first(widths, i, j - 1);
    } else {
        assert(span(widths, i, i) == 0);
        assert(span(widths, i + 1, j) == 0);
    }
}

/// A wider range of cells takes no fewer columns.
pub proof fn lemma_span_grows(widths: Seq<usize>, i: int, j: int, i2: int, j2: int)
    requires
        i2 <= i <= j <= j2,
    ensures
        span(widths, i, j) <= span(widths, i2, j2),
    decreases (i - i2) + (j2 - j),
{
    if j < j2 {
        lemma_span_grows(widths, i, j, i2, j2 - 1);
    } else if i2 < i {
        lemma_span_first(widths, i2, j2);
        lemma_span_grows(widths, i, j, i2 + 1, j2);
    }
}

proof fn lemma_open_left(widths: Seq<usize>, from: int, cursor: int, room: int)
    requires
        0 <= from <= cursor <= widths.len(),
        span(widths, from, cursor) < room,
    ensures
        0 <= open_left(widths, from, cursor, room) <= from,
        span(widths, open_left(widths, from, cursor, room), cursor) < room,
        forall|s: int|
            0 <= s < open_left(widths, from, cursor, room) ==> #[trigger] span(widths, s, cursor)
                >= room,
    decreases from,
{
    if from <= 0 || span(widths, from - 1, cursor) >= room {
        assert forall|s: int| 0 <= s < from implies #[trigger] span(widths, s, cursor) >= room by {
            lemma_span_grows(widths, from - 1, cursor, s, cursor);
        }
    } else {
        lemma_open_left(widths, from - 1, cursor, room);
    }
}

proof fn lemma_open_right(widths: Seq<usize>, start: int, to: int, room: int)
    requires
        0 <= start <= to <= widths.len(),
        span(widths, start, to) <= room,
    ensures
        to <= open_right(widths, start, to, room) <= widths.len(),
        span(widths, start, open_right(widths, start, to, room)) <= room,
        forall|e: int|
            open_right(widths, start, to, room) < e <= widths.len() ==> #[trigger] span(
                widths,
                start,
                e,
            ) > room,
    decreases widths.len() - to,
{
    if to >= widths.len() || span(widths, start, to + 1) > room {
        assert forall|e: int| to < e <= widths.len() implies #[trigger] span(widths, start, e)
            > room by {
            lemma_span_grows(widths, start, to + 1, start, e);
        }
    } else {
        lemma_open_right(widths, start, to + 1, room);
    }
}

/// The visible part of a line holds the cursor, leaves a column for it, never takes more columns
/// than the row has, and cannot be made longer: starting further left would push the cursor off
/// the row, ending further right would overflow it.
pub proof fn law_window(widths: Seq<usize>, cursor: int, room: int)
    requires
        0 <= cursor <= widths.len(),
        0 < room,
    ensures
        0 <= window_start(widths, cursor, room) <= cursor,
        cursor <= window_end(widths, cursor, room) <= widths.len(),
        span(widths, window_start(widths, cursor, room), cursor) < room,
        span(widths, window_start(widths, cursor, room), window_end(widths, cursor, room)) <= room,
        forall|s: int|
            0 <= s < window_start(widths, cursor, room) ==> #[trigger] span(widths, s, cursor)
                >= room,
        forall|e: int|
            window_end(widths, cursor, room) < e <= widths.len() ==> #[trigger] span(
                widths,
                window_start(widths, cursor, room),
                e,
            ) > room,
{
    assert(span(widths, cursor, cursor) == 0);
    lemma_open_left(widths, cursor, cursor, room);
    lemma_open_right(widths, window_start(widths, cursor, room), cursor, room);
}

/// A line that fits on the row with the cursor anywhere in it is shown whole.
pub proof fn law_short_line_is_shown_whole(widths: Seq<usize>, cursor: int, room: int)
    requires
        0 <= cursor <= widths.len(),
        span(widths, 0, widths.len() as int) < room,
    ensures
        window_start(widths, cursor, room) == 0,
        window_end(widths, cursor, room) == widths.len(),
{
    law_window(widths, cursor, room);
    lemma_span_grows(widths, 0, cursor, 0, widths.len() as int);
    let start = window_start(widths, cursor, room);
    if start > 0 {
        assert(span(widths, 0, cursor) >= room);
    }
    if window_end(widths, cursor, room) < widths.len() {
        assert(span(widths, start, widths.len() as int) > room);
    }
}

/// The visible part of a line, in cells, and the columns between its start and the cursor.
pub struct Window {
    pub start: usize,
    pub end: usize,
    pub column: usize,
}

/// Finds the visible part of a line whose cells have the given widths, with the cursor before
/// cell `cursor`, on a row with `room` columns.
pub fn visible_window(widths: &Vec<usize>, cursor: usize, room: usize) -> (res: Window)
    requires
        cursor <= widths.len(),
        0 < room,
    ensures
        res.start == window_start(widths@, cursor as int, room as int),
        res.end == window_end(widths@, cursor as int, room as int),
        res.column == span(widths@, res.start as int, cursor as int),
        res.start <= cursor <= res.end <= widths.len(),
        res.column < room,
{
    let mut start: usize = cursor;
    let mut column: usize = 0;
    proof {
        assert(span(widths@, cursor as int, cursor as int) == 0);
    }
    while start > 0 && widths[start - 1] < room - column
        invariant
            start <= cursor <= widths.len(),
            column < room,
            column == span(widths@, start as int, cursor as int),
            open_left(widths@, start as int, cursor as int, room as int) == window_start(
                widths@,
                cursor as int,
                room as int,
            ),
        decreases start,
    {
        proof {
            lemma_span_first(widths@, start - 1, cursor as int);
        }
        column = column + widths[start - 1];
        start = start - 1;
    }
    proof {
        if start > 0 {
            lemma_span_first(widths@, start - 1, cursor as int);
        }
    }
    let mut end: usize = cursor;
    let mut shown: usize = column;
    while end < widths.len() && widths[end] <= room - shown
        invariant
            start <= cursor <= end <= widths.len(),
            shown <= room,
            shown == span(widths@, start as int, end as int),
            start == window_start(widths@, cursor as int, room as int),
            open_right(widths@, start as int, end as int, room as int) == window_end(
                widths@,
                cursor as int,
                room as int,
            ),
        decreases widths.len() - end,
    {
        shown = shown + widths[end];
        end = end + 1;
    }
    Window { start, end, column }
}

/// The widths of the characters of a line.
pub open spec fn cells(line: Seq<char>) -> Seq<usize> {
    line.map_values(|c: char| cell_width(c))
}

/// The cells of a part of a line take together what that part takes.
pub proof fn lemma_span_of_part(line: Seq<char>, i: int, j: int)
    requires
        0 <= i <= j <= line.len(),
    ensures
        span(cells(line), i, j) == text_width(line.subrange(i, j)),
    decreases j - i,
{
    if i < j {
        lemma_span_of_part(line, i, j - 1);
        assert(line.subrange(i, j).drop_last() == line.subrange(i, j - 1));
    }
}

/// `n` in decimal digits.
pub open spec fn decimal(n: nat) -> Seq<u8>
    decreases n,
{
    if n < 10 {
        seq![(48 + n) as u8]
    } else {
        decimal(n / 10).push((48 + n % 10) as u8)
    }
}

/// Appends `n` in decimal digits.
pub fn push_decimal(out: &mut Vec<u8>, n: usize)
    ensures
        final(out)@ == old(out)@ + decimal(n as nat),
    decreases n,
{
    if n >= 10 {
        push_decimal(out, n / 10);
    }
    let digit: u8 = 48 + (n % 10) as u8;
    out.push(digit);
    assert(out@ == old(out)@ + decimal(n as nat));
}

/// Erase from the cursor to the end of the row: `ESC [ 0 K`.
pub open spec fn erase_to_right() -> Seq<u8> {
    seq![0x1b, 0x5b, 0x30, 0x4b]
}

/// Move the cursor to the left edge and from there `column` columns to the right:
/// `CR ESC [ column C`.
pub open spec fn to_column(column: nat) -> Seq<u8> {
    seq![0x0d, 0x1b, 0x5b] + decimal(column) + seq![0x43]
}

/// Move the cursor to the upper left corner and clear the screen: `ESC [ H ESC [ 2 J`.
pub open spec fn home_and_clear() -> Seq<u8> {
    seq![0x1b, 0x5b, 0x48, 0x1b, 0x5b, 0x32, 0x4a]
}

/// What repaints the row: from its left edge the prompt and the visible text, nothing behind
/// them, and the cursor at `column`.
pub open spec fn paint(prompt: Seq<char>, visible: Seq<char>, column: nat) -> Seq<u8> {
    seq![0x0du8] + encode_utf8(prompt) + encode_utf8(visible) + erase_to_right() + to_column(
        column,
    )
}

/// Builds what repaints the row.
pub fn paint_bytes(prompt: &str, visible: &str, column: usize) -> (res: Vec<u8>)
    ensures
        res@ == paint(prompt@, visible@, column as nat),
{
    let mut res: Vec<u8> = Vec::new();
    // Cursor to left edge.
    res.push(0x0d);
    // The prompt and the visible text.
    res.extend_from_slice(prompt.as_bytes());
    res.extend_from_slice(visible.as_bytes());
    assert(res@ == seq![0x0du8] + encode_utf8(prompt@) + encode_utf8(visible@));
    // Erase to right.
    res.push(0x1b);
    res.push(0x5b);
    res.push(0x30);
    res.push(0x4b);
    // Cursor to its column.
    res.push(0x0d);
    res.push(0x1b);
    res.push(0x5b);
    push_decimal(&mut res, column);
    res.push(0x43);
    assert(res@ == paint(prompt@, visible@, column as nat));
    res
}

/// No cells take no columns, one cell takes its width, and neighbouring ranges of cells take
/// together what the range from the start of the one to the end of the other takes.
pub proof fn law_span(widths: Seq<usize>, i: int, j: int, k: int)
    requires
        0 <= i <= j <= k <= widths.len(),
    ensures
        span(widths, i, i) == 0,
        i < widths.len() ==> span(widths, i, i + 1) == widths[i],
        span(widths, i, j) + span(widths, j, k) == span(widths, i, k),
    decreases k - j,
{
    if i < widths.len() {
        assert(span(widths, i, i) == 0);
        assert(span(widths, i, i + 1) == widths[i]);
    }
    if j < k {
        law_span(widths, i, j, k - 1);
    }
}

/// One digit is written for a number below ten, and ten times a number and a digit is written as
/// that number with the digit behind it.
pub proof fn law_decimal(n: nat, digit: nat)
    requires
        digit < 10,
    ensures
        decimal(digit) == seq![(0x30 + digit) as u8],
        n > 0 ==> decimal(10 * n + digit) == decimal(n).push((0x30 + digit) as u8),
{
    if n > 0 {
        assert((10 * n + digit) / 10 == n);
        assert((10 * n + digit) % 10 == digit);
    }
}

/// What repaints a row: a carriage return, the prompt, the text, `ESC [ 0 K`, and a carriage
/// return with `ESC [`, the column and `C`.
pub proof fn law_paint(prompt: Seq<char>, visible: Seq<char>, column: nat)
    ensures
        paint(prompt, visible, column) == seq![0x0du8] + encode_utf8(prompt) + encode_utf8(visible)
            + seq![0x1bu8, 0x5b, 0x30, 0x4b, 0x0d, 0x1b, 0x5b] + decimal(column) + seq![0x43u8],
        home_and_clear() == seq![0x1bu8, 0x5b, 0x48, 0x1b, 0x5b, 0x32, 0x4a],
{
    assert(paint(prompt, visible, column) == seq![0x0du8] + encode_utf8(prompt) + encode_utf8(
        visible,
    ) + seq![0x1bu8, 0x5b, 0x30, 0x4b, 0x0d, 0x1b, 0x5b] + decimal(column) + seq![0x43u8]);
}

} // verus!
