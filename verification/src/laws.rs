//! What holds of the editor as a whole.

use vstd::prelude::*;
use vstd::utf8::*;

use crate::consts::{key_press, KeyPress};
use crate::error::{Errno, ReadlineError};
use crate::keys::{decoded, Action, Pending};
use crate::model::{blanks_of, run_start, word_start, StateView};
use crate::screen::{
    cells, home_and_clear, law_short_line_is_shown_whole, law_window, lemma_span_of_part, span,
};
use crate::session::{stepped, StepView};
use crate::state::{lemma_parts, State, MAX_LINE};
use crate::strings::white_space;
use crate::text::{byte_len, lemma_empty, lemma_encode_concat, lemma_push_len};
use crate::width::text_width;

verus! {

/// The two editors hold the same text with the cursor at the same place.
pub open spec fn same_text(v: StateView, w: StateView) -> bool {
    v.before == w.before && v.after == w.after
}

/// States whose text and cursor are the same have the same buffer and the same position in it.
pub proof fn law_same_text_is_same_buffer(s: &State, t: &State)
    requires
        s.wf(),
        t.wf(),
        same_text(s@, t@),
    ensures
        s.buf@ == t.buf@,
        s.pos == t.pos,
{
    lemma_parts(s);
    lemma_parts(t);
}

/// Moving the cursor changes nothing in the line.
pub proof fn law_moves_keep_the_line(v: StateView)
    ensures
        v.move_left().line() == v.line(),
        v.move_right().line() == v.line(),
        v.move_home().line() == v.line(),
        v.move_end().line() == v.line(),
{
    assert(v.move_left().line() == v.line());
    assert(v.move_right().line() == v.line());
    assert(v.move_home().line() == v.line());
    assert(v.move_end().line() == v.line());
}

/// A move to the left is undone by a move to the right.
pub proof fn law_right_undoes_left(v: StateView)
    requires
        v.before.len() > 0,
    ensures
        same_text(v.move_left().move_right(), v),
{
    assert(v.move_left().move_right().before == v.before);
    assert(v.move_left().move_right().after == v.after);
}

/// A move to the right is undone by a move to the left.
pub proof fn law_left_undoes_right(v: StateView)
    requires
        v.after.len() > 0,
    ensures
        same_text(v.move_right().move_left(), v),
{
    assert(v.move_right().move_left().before == v.before);
    assert(v.move_right().move_left().after == v.after);
}

/// Home and End put the cursor at the two ends of the line, and there is nothing more to do for
/// them once it is there.
pub proof fn law_home_and_end(v: StateView)
    ensures
        v.move_home().before.len() == 0,
        v.move_end().after.len() == 0,
        v.move_home().move_home() == v.move_home(),
        v.move_end().move_end() == v.move_end(),
{
}

/// Backspace takes back a character that was just inserted.
pub proof fn law_backspace_undoes_insert(v: StateView, ch: char)
    requires
        v.fits(ch),
    ensures
        same_text(v.insert(ch).backspace(), v),
{
    assert(v.before.push(ch).drop_last() == v.before);
}

/// So do a move to the left and Delete.
pub proof fn law_left_and_delete_undo_insert(v: StateView, ch: char)
    requires
        v.fits(ch),
    ensures
        same_text(v.insert(ch).move_left().delete(), v),
{
    assert(v.before.push(ch).drop_last() == v.before);
    assert((seq![ch] + v.after).drop_first() == v.after);
}

/// Backspace does what a move to the left and Delete do.
pub proof fn law_backspace_is_left_and_delete(v: StateView)
    requires
        v.before.len() > 0,
    ensures
        same_text(v.backspace(), v.move_left().delete()),
{
    assert((seq![v.before.last()] + v.after).drop_first() == v.after);
}

/// Killing the line on both sides of the cursor leaves it empty, in either order.
pub proof fn law_kill_and_discard_empty_the_line(v: StateView)
    ensures
        v.kill_line().discard_line().line().len() == 0,
        v.discard_line().kill_line().line().len() == 0,
{
}

/// What killing to the end keeps, followed by what killing to the beginning keeps, is the line.
pub proof fn law_kill_and_discard_part_the_line(v: StateView)
    ensures
        v.kill_line().line() + v.discard_line().line() == v.line(),
{
    assert(v.kill_line().line() == v.before);
    assert(v.discard_line().line() == v.after);
}

proof fn lemma_transpose_keeps_the_length(v: StateView)
    ensures
        byte_len(v.transpose_chars().line()) == byte_len(v.line()),
{
    if v.before.len() > 0 && v.after.len() > 0 {
        let head = v.before.drop_last();
        let (left, right) = (seq![v.before.last()], seq![v.after[0]]);
        let rest = v.after.drop_first();
        assert(v.line() == head + (left + (right + rest)));
        assert(v.transpose_chars().line() == head + (right + (left + rest)));
        lemma_encode_concat(head, left + (right + rest));
        lemma_encode_concat(left, right + rest);
        lemma_encode_concat(right, rest);
        lemma_encode_concat(head, right + (left + rest));
        lemma_encode_concat(right, left + rest);
        lemma_encode_concat(left, rest);
    }
}

/// Exchanging two characters loses none and adds none, and the line takes as many bytes as
/// before. At the ends of the line nothing is done.
pub proof fn law_transpose_keeps_the_characters(v: StateView)
    ensures
        v.transpose_chars().line().to_multiset() == v.line().to_multiset(),
        byte_len(v.transpose_chars().line()) == byte_len(v.line()),
        v.before.len() == 0 || v.after.len() == 0 ==> v.transpose_chars() == v,
{
    lemma_transpose_keeps_the_length(v);
    if v.before.len() > 0 && v.after.len() > 0 {
        let line = v.line();
        let i = v.before.len() - 1;
        let swapped = line.update(i, line[i + 1]).update(i + 1, line[i]);
        assert(v.transpose_chars().line() == swapped);
        line.to_multiset_ensures();
        line.update(i, line[i + 1]).to_multiset_ensures();
        vstd::seq_lib::to_multiset_update(line, i, line[i + 1]);
        vstd::seq_lib::to_multiset_update(line.update(i, line[i + 1]), i + 1, line[i]);
        assert(line.to_multiset().count(line[i]) > 0);
        assert(swapped.to_multiset() == line.to_multiset());
    }
}

/// At the last character of the line a second exchange undoes the first.
pub proof fn law_transpose_twice_at_the_end(v: StateView)
    requires
        v.before.len() > 0,
        v.after.len() == 1,
    ensures
        same_text(v.transpose_chars().transpose_chars(), v),
{
    let w = v.transpose_chars();
    assert(w.before.drop_last() == v.before.drop_last());
    assert(w.transpose_chars().before == v.before);
    assert(w.transpose_chars().after == v.after);
}

proof fn lemma_run_start(flags: Seq<bool>, n: int, value: bool)
    requires
        0 <= n <= flags.len(),
    ensures
        0 <= run_start(flags, n, value) <= n,
        forall|i: int| run_start(flags, n, value) <= i < n ==> #[trigger] flags[i] == value,
        run_start(flags, n, value) > 0 ==> flags[run_start(flags, n, value) - 1] != value,
    decreases n,
{
    if n > 0 && flags[n - 1] == value {
        lemma_run_start(flags, n - 1, value);
    }
}

/// Deleting the previous word takes away a run of characters that are not white space together
/// with the white space behind it, all of either run, and nothing else. The cursor ends up where
/// the word started: at the start of the line or behind white space.
pub proof fn law_delete_prev_word(v: StateView)
    requires
        v.before.len() > 0,
    ensures
        ({
            let w = v.delete_prev_word();
            let start = w.before.len();
            let end = run_start(blanks_of(v.before), v.before.len() as int, true);
            &&& w.after == v.after
            &&& start <= end <= v.before.len()
            &&& w.before == v.before.take(start as int)
            &&& forall|i: int|
                start <= i < end ==> !(#[trigger] white_space(v.before[i]))
            &&& forall|i: int|
                end <= i < v.before.len() ==> #[trigger] white_space(v.before[i])
            &&& start == 0 || white_space(w.before.last())
            &&& end > 0 ==> start < end
            &&& start < v.before.len()
        }),
{
    let flags = blanks_of(v.before);
    let n = v.before.len() as int;
    let end = run_start(flags, n, true);
    lemma_run_start(flags, n, true);
    lemma_run_start(flags, end, false);
    let start = word_start(flags);
    assert forall|i: int| start <= i < end implies !(#[trigger] white_space(v.before[i])) by {
        assert(flags[i] == false);
    }
    assert forall|i: int| end <= i < n implies #[trigger] white_space(v.before[i]) by {
        assert(flags[i] == true);
    }
    if end > 0 {
        assert(flags[end - 1] == false);
    }
}

/// The place in the history never leaves it.
pub proof fn law_history_index_stays_in_range(
    v: StateView,
    entries: Seq<Seq<char>>,
    prev: bool,
)
    requires
        v.history_index <= entries.len(),
    ensures
        v.browse(entries, prev).history_index <= entries.len(),
{
}

/// The editor after `n` commands for the previous or the next history entry.
pub open spec fn browse_times(
    v: StateView,
    entries: Seq<Seq<char>>,
    prev: bool,
    n: nat,
) -> StateView
    decreases n,
{
    if n == 0 {
        v
    } else {
        browse_times(v, entries, prev, (n - 1) as nat).browse(entries, prev)
    }
}

/// `n` steps back from the line that was typed show the entry number `n` from the end, with the
/// cursor behind it, and remember the line that was typed.
pub proof fn law_going_back_in_history(v: StateView, entries: Seq<Seq<char>>, n: nat)
    requires
        v.history_index == entries.len(),
        0 < n <= entries.len(),
    ensures
        browse_times(v, entries, true, n).before == entries[entries.len() - n],
        browse_times(v, entries, true, n).after.len() == 0,
        browse_times(v, entries, true, n).history_index == entries.len() - n,
        browse_times(v, entries, true, n).history_end == v.line(),
    decreases n,
{
    reveal_with_fuel(browse_times, 2);
    if n > 1 {
        law_going_back_in_history(v, entries, (n - 1) as nat);
    }
}

/// Before the first entry there is nothing to go back to.
pub proof fn law_first_entry_is_the_end(v: StateView, entries: Seq<Seq<char>>)
    requires
        v.history_index == 0,
    ensures
        v.browse(entries, true) == v,
{
}

/// Behind the line that was typed there is nothing to go forward to.
pub proof fn law_typed_line_is_the_end(v: StateView, entries: Seq<Seq<char>>)
    requires
        v.history_index == entries.len(),
    ensures
        v.browse(entries, false) == v,
{
}

proof fn lemma_going_forward(
    v: StateView,
    entries: Seq<Seq<char>>,
    typed: Seq<char>,
    n: nat,
    m: nat,
)
    requires
        v.history_index == entries.len() - n,
        v.history_end == typed,
        0 < m <= n <= entries.len(),
    ensures
        ({
            let w = browse_times(v, entries, false, m);
            &&& w.history_index == entries.len() - n + m
            &&& w.history_end == typed
            &&& w.after.len() == 0
            &&& w.before == if m < n {
                entries[entries.len() - n + m]
            } else {
                typed
            }
        }),
    decreases m,
{
    reveal_with_fuel(browse_times, 2);
    if m > 1 {
        lemma_going_forward(v, entries, typed, n, (m - 1) as nat);
    }
}

/// As many steps forward as there were steps back bring back the line that was typed, with the
/// cursor behind it.
pub proof fn law_history_gives_back_the_typed_line(
    v: StateView,
    entries: Seq<Seq<char>>,
    n: nat,
)
    requires
        v.history_index == entries.len(),
        0 < n <= entries.len(),
    ensures
        ({
            let w = browse_times(browse_times(v, entries, true, n), entries, false, n);
            &&& w.before == v.line()
            &&& w.after.len() == 0
            &&& w.history_index == entries.len()
        }),
{
    law_going_back_in_history(v, entries, n);
    lemma_going_forward(browse_times(v, entries, true, n), entries, v.line(), n, n);
}

/// Whatever is painted, the cursor is on the row, the text that is shown holds it, and prompt and
/// text together take no more columns than the terminal has.
pub proof fn law_picture_fits_on_the_row(v: StateView)
    requires
        v.can_paint(),
    ensures
        0 <= v.first_visible() <= v.before.len() <= v.last_visible() <= v.line().len(),
        v.cursor_column() < v.cols,
        v.cursor_column() == v.prompt_width + text_width(
            v.line().subrange(v.first_visible(), v.before.len() as int),
        ),
        v.prompt_width + text_width(v.line().subrange(v.first_visible(), v.last_visible()))
            <= v.cols,
{
    law_window(cells(v.line()), v.before.len() as int, v.room());
    lemma_span_of_part(v.line(), v.first_visible(), v.before.len() as int);
    lemma_span_of_part(v.line(), v.first_visible(), v.last_visible());
}

/// A line that is shorter than the room behind the prompt is painted whole.
pub proof fn law_short_line_is_painted_whole(v: StateView)
    requires
        v.prompt_width + text_width(v.line()) < v.cols,
    ensures
        v.line().subrange(v.first_visible(), v.last_visible()) == v.line(),
        v.cursor_column() == v.prompt_width + text_width(v.before),
{
    lemma_span_of_part(v.line(), 0, v.line().len() as int);
    assert(v.line().subrange(0, v.line().len() as int) == v.line());
    law_short_line_is_shown_whole(cells(v.line()), v.before.len() as int, v.room());
    lemma_span_of_part(v.line(), 0, v.before.len() as int);
    assert(v.line().subrange(0, v.before.len() as int) == v.before);
}

/// `w` has the prompt and the terminal of `v`, and everything that `v` asked to be written.
pub open spec fn same_frame(v: StateView, w: StateView) -> bool {
    &&& w.prompt == v.prompt
    &&& w.prompt_width == v.prompt_width
    &&& w.cols == v.cols
    &&& w.out.len() >= v.out.len()
    &&& w.out.take(v.out.len() as int) == v.out
}

proof fn lemma_write_keeps_the_frame(v: StateView, bytes: Seq<u8>)
    ensures
        same_frame(v, v.write(bytes)),
        same_frame(v, v),
{
    assert(v.write(bytes).out.take(v.out.len() as int) == v.out);
    assert(v.out.take(v.out.len() as int) == v.out);
}

proof fn lemma_frames_chain(u: StateView, v: StateView, w: StateView)
    requires
        same_frame(u, v),
        same_frame(v, w),
    ensures
        same_frame(u, w),
{
    assert(w.out.take(u.out.len() as int) == w.out.take(v.out.len() as int).take(
        u.out.len() as int,
    ));
}

proof fn lemma_painting_keeps_the_frame(v: StateView, w: StateView)
    requires
        w.prompt == v.prompt,
        w.prompt_width == v.prompt_width,
        w.cols == v.cols,
        w.out == v.out,
    ensures
        same_frame(v, w.repaint()),
{
    lemma_write_keeps_the_frame(w, w.picture());
}

proof fn lemma_moves_keep_the_frame(v: StateView)
    ensures
        same_frame(v, v.move_left()),
        same_frame(v, v.move_right()),
        same_frame(v, v.move_home()),
        same_frame(v, v.move_end()),
{
    lemma_write_keeps_the_frame(v, Seq::empty());
    lemma_painting_keeps_the_frame(
        v,
        v.with_text(v.before.drop_last(), seq![v.before.last()] + v.after),
    );
    lemma_painting_keeps_the_frame(
        v,
        v.with_text(v.before.push(v.after[0]), v.after.drop_first()),
    );
    lemma_painting_keeps_the_frame(v, v.with_text(Seq::empty(), v.line()));
    lemma_painting_keeps_the_frame(v, v.with_text(v.line(), Seq::empty()));
}

proof fn lemma_deletions_keep_the_frame(v: StateView)
    ensures
        same_frame(v, v.delete()),
        same_frame(v, v.backspace()),
        same_frame(v, v.kill_line()),
        same_frame(v, v.discard_line()),
        same_frame(v, v.delete_prev_word()),
{
    lemma_write_keeps_the_frame(v, Seq::empty());
    lemma_painting_keeps_the_frame(v, v.with_text(v.before, v.after.drop_first()));
    lemma_painting_keeps_the_frame(v, v.with_text(v.before.drop_last(), v.after));
    lemma_painting_keeps_the_frame(v, v.with_text(v.before, Seq::empty()));
    lemma_painting_keeps_the_frame(v, v.with_text(Seq::empty(), v.after));
    lemma_painting_keeps_the_frame(
        v,
        v.with_text(v.before.take(word_start(blanks_of(v.before))), v.after),
    );
}

proof fn lemma_insert_keeps_the_frame(v: StateView, ch: char)
    ensures
        same_frame(v, v.insert(ch)),
{
    let next = v.with_text(v.before.push(ch), v.after);
    lemma_painting_keeps_the_frame(v, next);
    lemma_write_keeps_the_frame(next, encode_scalar(ch as u32));
}

proof fn lemma_transpose_keeps_the_frame(v: StateView)
    ensures
        same_frame(v, v.transpose_chars()),
{
    lemma_write_keeps_the_frame(v, Seq::empty());
    let head = v.before.drop_last();
    lemma_painting_keeps_the_frame(
        v,
        v.with_text(head.push(v.after[0]).push(v.before.last()), v.after.drop_first()),
    );
    lemma_painting_keeps_the_frame(
        v,
        v.with_text(head.push(v.after[0]), seq![v.before.last()]),
    );
}

proof fn lemma_browsing_keeps_the_frame(v: StateView, entries: Seq<Seq<char>>, prev: bool)
    ensures
        same_frame(v, v.browse(entries, prev)),
{
    let w = v.browse(entries, prev);
    lemma_write_keeps_the_frame(v, w.out.last());
}

proof fn lemma_clearing_keeps_the_frame(v: StateView)
    ensures
        same_frame(v, v.clear()),
{
    let cleared = v.write(home_and_clear());
    lemma_write_keeps_the_frame(v, home_and_clear());
    lemma_write_keeps_the_frame(cleared, cleared.picture());
    lemma_frames_chain(v, cleared, v.clear());
}

/// No command touches the prompt or the size of the terminal, and what was asked to be written
/// stays asked for.
pub proof fn law_commands_keep_the_frame(
    v: StateView,
    entries: Option<Seq<Seq<char>>>,
    action: Action,
)
    ensures
        same_frame(v, v.after_action(entries, action)),
{
    lemma_write_keeps_the_frame(v, Seq::empty());
    match action {
        Action::MoveHome | Action::MoveLeft | Action::MoveRight | Action::MoveEnd => {
            lemma_moves_keep_the_frame(v);
        },
        Action::Delete | Action::DeleteOrEof | Action::Backspace | Action::KillLine
        | Action::DiscardLine | Action::DeletePrevWord => {
            lemma_deletions_keep_the_frame(v);
        },
        Action::TransposeChars => {
            lemma_transpose_keeps_the_frame(v);
        },
        Action::ClearScreen => {
            lemma_clearing_keeps_the_frame(v);
        },
        Action::HistoryPrev => {
            if let Some(e) = entries {
                lemma_browsing_keeps_the_frame(v, e, true);
            }
        },
        Action::HistoryNext => {
            if let Some(e) = entries {
                lemma_browsing_keeps_the_frame(v, e, false);
            }
        },
        Action::Insert(ch) => {
            lemma_insert_keeps_the_frame(v, ch);
        },
        Action::Interrupt | Action::Accept => {},
    }
}

/// Commands other than the two for the history keep the place in it, the line that was typed and
/// the limit of the line. So do these two where there is no history.
pub proof fn law_other_commands_keep_the_place_in_history(
    v: StateView,
    entries: Option<Seq<Seq<char>>>,
    action: Action,
)
    requires
        entries is None || (action != Action::HistoryPrev && action != Action::HistoryNext),
    ensures
        v.after_action(entries, action).history_index == v.history_index,
        v.after_action(entries, action).history_end == v.history_end,
        v.after_action(entries, action).limit == v.limit,
{
}

/// A line within its limit stays within it, whatever the command.
pub proof fn law_line_stays_within_its_limit(
    v: StateView,
    entries: Option<Seq<Seq<char>>>,
    action: Action,
)
    requires
        byte_len(v.line()) <= v.limit,
    ensures
        byte_len(v.after_action(entries, action).line()) <= v.after_action(
            entries,
            action,
        ).limit,
{
    lemma_encode_concat(v.before, v.after);
    match action {
        Action::MoveHome | Action::MoveLeft | Action::MoveRight | Action::MoveEnd => {
            law_moves_keep_the_line(v);
        },
        Action::Delete | Action::DeleteOrEof => {
            if v.after.len() > 0 {
                let rest = v.after.drop_first();
                assert(v.after == seq![v.after[0]] + rest);
                lemma_encode_concat(seq![v.after[0]], rest);
                lemma_encode_concat(v.before, rest);
            }
        },
        Action::Backspace => {
            if v.before.len() > 0 {
                let head = v.before.drop_last();
                assert(v.before == head.push(v.before.last()));
                lemma_push_len(head, v.before.last());
                lemma_encode_concat(head, v.after);
            }
        },
        Action::KillLine => {
            assert(v.before + Seq::<char>::empty() == v.before);
        },
        Action::DiscardLine => {
            assert(Seq::<char>::empty() + v.after == v.after);
        },
        Action::DeletePrevWord => {
            if v.before.len() > 0 {
                law_delete_prev_word(v);
                let start = v.delete_prev_word().before.len() as int;
                assert(v.before == v.before.take(start) + v.before.skip(start));
                lemma_encode_concat(v.before.take(start), v.before.skip(start));
                lemma_encode_concat(v.before.take(start), v.after);
            }
        },
        Action::TransposeChars => {
            lemma_transpose_keeps_the_length(v);
        },
        Action::HistoryPrev | Action::HistoryNext => {
            let w = v.after_action(entries, action);
            assert(w != v ==> w.before + w.after == w.before);
        },
        Action::Insert(ch) => {
            lemma_push_len(v.before, ch);
            lemma_encode_concat(v.before.push(ch), v.after);
        },
        Action::ClearScreen | Action::Interrupt | Action::Accept => {},
    }
}

/// The editor after the commands `actions`.
pub open spec fn after_actions(
    v: StateView,
    entries: Seq<Seq<char>>,
    actions: Seq<Action>,
) -> StateView
    decreases actions.len(),
{
    if actions.len() == 0 {
        v
    } else {
        after_actions(v, entries, actions.drop_last()).after_action(
            Some(entries),
            actions.last(),
        )
    }
}

proof fn lemma_typed_line_is_remembered(
    v: StateView,
    entries: Seq<Seq<char>>,
    actions: Seq<Action>,
    k: int,
)
    requires
        v.history_index == entries.len(),
        entries.len() > 0,
        actions.len() > 0,
        actions[0] == Action::HistoryPrev,
        0 < k <= actions.len(),
        forall|j: int|
            0 < j < k ==> #[trigger] after_actions(v, entries, actions.take(j)).history_index
                < entries.len(),
    ensures
        after_actions(v, entries, actions.take(k)).history_end == v.line(),
    decreases k,
{
    let first = actions.take(k);
    assert(first.drop_last() == actions.take(k - 1));
    assert(first.last() == actions[k - 1]);
    if k == 1 {
        assert(after_actions(v, entries, actions.take(0)) == v);
    } else {
        lemma_typed_line_is_remembered(v, entries, actions, k - 1);
        let u = after_actions(v, entries, actions.take(k - 1));
        assert(u.history_index < entries.len());
        let action = actions[k - 1];
        if action != Action::HistoryPrev && action != Action::HistoryNext {
            law_other_commands_keep_the_place_in_history(u, Some(entries), action);
        }
    }
}

/// Whatever is done to the entries on the way, the first return behind the last entry brings back
/// the line that was typed, with the cursor behind it.
pub proof fn law_typed_line_comes_back_after_any_commands(
    v: StateView,
    entries: Seq<Seq<char>>,
    actions: Seq<Action>,
)
    requires
        v.history_index == entries.len(),
        entries.len() > 0,
        actions.len() > 0,
        actions[0] == Action::HistoryPrev,
        forall|j: int|
            0 < j < actions.len() ==> #[trigger] after_actions(
                v,
                entries,
                actions.take(j),
            ).history_index < entries.len(),
        after_actions(v, entries, actions).history_index == entries.len(),
    ensures
        after_actions(v, entries, actions).before == v.line(),
        after_actions(v, entries, actions).after.len() == 0,
{
    let n = actions.len() as int;
    assert(actions.take(n) == actions);
    assert(actions.drop_last() == actions.take(n - 1));
    if n == 1 {
        assert(after_actions(v, entries, actions.take(0)) == v);
    } else {
        lemma_typed_line_is_remembered(v, entries, actions, n - 1);
        let u = after_actions(v, entries, actions.take(n - 1));
        assert(u.history_index < entries.len());
        let action = actions.last();
        if action != Action::HistoryPrev && action != Action::HistoryNext {
            law_other_commands_keep_the_place_in_history(u, Some(entries), action);
        }
    }
}

/// How far into an escape sequence the input is.
pub open spec fn depth(pending: Pending) -> nat {
    match pending {
        Pending::Nothing => 0,
        Pending::Escape => 1,
        Pending::Bracket => 2,
        Pending::LetterO => 2,
        Pending::BracketDigit(_) => 3,
    }
}

/// Each character either ends an escape sequence or leads one step further into it, and none is
/// longer than `ESC` and three characters.
pub proof fn law_escape_sequences_end(pending: Pending, ch: char)
    ensures
        depth(pending) <= 3,
        depth(decoded(pending, ch).0) == 0 || depth(decoded(pending, ch).0) == depth(pending) + 1,
        depth(decoded(pending, ch).0) != 0 ==> decoded(pending, ch).1 is None,
{
}

/// Where the characters `keys` leave the editor and what comes of them. Nothing is read once the
/// line was handed over or failed.
pub open spec fn run(
    v: StateView,
    pending: Pending,
    entries: Option<Seq<Seq<char>>>,
    keys: Seq<char>,
) -> Option<(StateView, Pending, StepView)>
    decreases keys.len(),
{
    if keys.len() == 0 {
        Some((v, pending, StepView::Continue))
    } else {
        match run(v, pending, entries, keys.drop_last()) {
            Some((w, p, StepView::Continue)) => stepped(w, p, entries, keys.last()),
            other => other,
        }
    }
}

/// Typing a text that stays within the limit of the line puts it before the cursor.
pub proof fn law_typed_text_is_inserted(
    v: StateView,
    entries: Option<Seq<Seq<char>>>,
    text: Seq<char>,
)
    requires
        forall|i: int| 0 <= i < text.len() ==> key_press(#[trigger] text[i]) == KeyPress::OTHER,
        text.len() > 0 ==> v.can_paint(),
        byte_len(v.line()) + byte_len(text) <= v.limit,
    ensures
        run(v, Pending::Nothing, entries, text) matches Some((w, p, outcome)) && {
            &&& w.before == v.before + text
            &&& w.after == v.after
            &&& w.prompt_width == v.prompt_width
            &&& w.cols == v.cols
            &&& w.limit == v.limit
            &&& p == Pending::Nothing
            &&& outcome == StepView::Continue
        },
    decreases text.len(),
{
    if text.len() == 0 {
        assert(v.before + text == v.before);
    } else {
        let start = text.drop_last();
        let ch = text.last();
        assert(text == start.push(ch));
        lemma_push_len(start, ch);
        law_typed_text_is_inserted(v, entries, start);
        let last = run(v, Pending::Nothing, entries, start)->0;
        let w = last.0;
        lemma_encode_concat(v.before, v.after);
        lemma_encode_concat(v.before, start);
        lemma_encode_concat(w.before, w.after);
        assert(w.before.push(ch) == v.before + text);
    }
}

/// What was typed on an empty line, within its limit, is what Enter hands over.
pub proof fn law_enter_hands_over_what_was_typed(
    v: StateView,
    entries: Option<Seq<Seq<char>>>,
    text: Seq<char>,
)
    requires
        forall|i: int| 0 <= i < text.len() ==> key_press(#[trigger] text[i]) == KeyPress::OTHER,
        text.len() > 0 ==> v.can_paint(),
        v.line().len() == 0,
        byte_len(text) <= v.limit,
    ensures
        run(v, Pending::Nothing, entries, text.push('\r')) matches Some((w, p, outcome))
            && outcome == StepView::Accepted(text),
{
    assert(v.line() == Seq::<char>::empty());
    lemma_empty(v.line());
    law_typed_text_is_inserted(v, entries, text);
    assert(text.push('\r').drop_last() == text);
    let last = run(v, Pending::Nothing, entries, text)->0;
    let w = last.0;
    assert(w.line() == text);
}

/// A character that would take the line beyond its limit is dropped without an error.
pub proof fn law_character_beyond_the_limit_is_dropped(
    v: StateView,
    entries: Option<Seq<Seq<char>>>,
    ch: char,
)
    requires
        key_press(ch) == KeyPress::OTHER,
        !v.fits(ch),
    ensures
        stepped(v, Pending::Nothing, entries, ch) == Some(
            (v, Pending::Nothing, StepView::Continue),
        ),
{
}

/// Enter hands the line over, wherever the cursor is.
pub proof fn law_enter(v: StateView, entries: Option<Seq<Seq<char>>>)
    ensures
        stepped(v, Pending::Nothing, entries, '\r') == Some(
            (v, Pending::Nothing, StepView::Accepted(v.line())),
        ),
{
}

/// Control-C gives up, whatever was typed.
pub proof fn law_interrupt(v: StateView, entries: Option<Seq<Seq<char>>>)
    ensures
        stepped(v, Pending::Nothing, entries, '\x03') == Some(
            (
                v,
                Pending::Nothing,
                StepView::Failed(ReadlineError::Errno(Errno::EAGAIN)),
            ),
        ),
{
}

/// Control-D ends the input on an empty line, and only there.
pub proof fn law_end_of_input(v: StateView, entries: Option<Seq<Seq<char>>>)
    requires
        v.after.len() > 0 ==> v.can_paint(),
    ensures
        stepped(v, Pending::Nothing, entries, '\x04') == Some(
            (
                v.delete(),
                Pending::Nothing,
                if v.line().len() == 0 {
                    StepView::Failed(ReadlineError::Eof)
                } else {
                    StepView::Continue
                },
            ),
        ),
{
}

/// No entry of the history takes more than `MAX_LINE` bytes.
pub open spec fn short_entries(entries: Option<Seq<Seq<char>>>) -> bool {
    entries matches Some(e) ==> forall|i: int|
        0 <= i < e.len() ==> byte_len(#[trigger] e[i]) <= MAX_LINE
}

/// The line and the one that is remembered take at most `MAX_LINE` bytes, and the line may not
/// take more.
pub open spec fn bounded(v: StateView) -> bool {
    &&& v.limit == MAX_LINE
    &&& byte_len(v.line()) <= MAX_LINE
    &&& byte_len(v.history_end) <= MAX_LINE
}

proof fn lemma_command_keeps_the_bound(
    v: StateView,
    entries: Option<Seq<Seq<char>>>,
    action: Action,
)
    requires
        short_entries(entries),
        bounded(v),
    ensures
        bounded(v.after_action(entries, action)),
{
    law_line_stays_within_its_limit(v, entries, action);
    if entries is Some && (action == Action::HistoryPrev || action == Action::HistoryNext) {
        let w = v.after_action(entries, action);
        assert(w != v ==> w.before + w.after == w.before);
    } else {
        law_other_commands_keep_the_place_in_history(v, entries, action);
    }
}

proof fn lemma_run_keeps_the_bound(
    v: StateView,
    pending: Pending,
    entries: Option<Seq<Seq<char>>>,
    keys: Seq<char>,
)
    requires
        short_entries(entries),
        bounded(v),
    ensures
        run(v, pending, entries, keys) matches Some((w, p, outcome)) ==> {
            &&& bounded(w)
            &&& outcome matches StepView::Accepted(line) ==> line == w.line()
        },
    decreases keys.len(),
{
    if keys.len() > 0 {
        lemma_run_keeps_the_bound(v, pending, entries, keys.drop_last());
        if let Some((w, p, StepView::Continue)) = run(v, pending, entries, keys.drop_last()) {
            if let Some(action) = decoded(p, keys.last()).1 {
                lemma_command_keeps_the_bound(w, entries, action);
            }
        }
    }
}

/// No line is longer than it may be. Where no entry of the history takes more than `MAX_LINE`
/// bytes, or there is no history, then whatever is typed on a line with room for `MAX_LINE`
/// bytes, at no time does it take more, nor does the line that Enter hands over.
pub proof fn law_line_takes_at_most_max_line(
    v: StateView,
    pending: Pending,
    entries: Option<Seq<Seq<char>>>,
    keys: Seq<char>,
)
    requires
        short_entries(entries),
        bounded(v),
    ensures
        run(v, pending, entries, keys) matches Some((w, p, outcome)) ==> {
            &&& byte_len(w.line()) <= MAX_LINE
            &&& outcome matches StepView::Accepted(line) ==> byte_len(line) <= MAX_LINE
        },
{
    lemma_run_keeps_the_bound(v, pending, entries, keys);
}

/// `key` does what `ESC`, `first` and `second` do.
pub open spec fn same_key(
    v: StateView,
    entries: Option<Seq<Seq<char>>>,
    first: char,
    second: char,
    key: char,
) -> bool {
    run(v, Pending::Nothing, entries, seq!['\x1b', first, second]) == stepped(
        v,
        Pending::Nothing,
        entries,
        key,
    )
}

proof fn lemma_sequence_of_three(
    v: StateView,
    entries: Option<Seq<Seq<char>>>,
    first: char,
    second: char,
)
    ensures
        first == '[' ==> run(
            v,
            Pending::Nothing,
            entries,
            seq!['\x1b', first, second],
        ) == stepped(v, Pending::Bracket, entries, second),
        first == 'O' ==> run(
            v,
            Pending::Nothing,
            entries,
            seq!['\x1b', first, second],
        ) == stepped(v, Pending::LetterO, entries, second),
{
    let keys = seq!['\x1b', first, second];
    let two = seq!['\x1b', first];
    let one = seq!['\x1b'];
    assert(keys.drop_last() == two);
    assert(two.drop_last() == one);
    assert(one.drop_last() == Seq::<char>::empty());
    reveal_with_fuel(run, 4);
}

/// The arrow keys, Home and End do what Control-P, Control-N, Control-F, Control-B, Control-A
/// and Control-E do.
pub proof fn law_arrow_keys(v: StateView, entries: Option<Seq<Seq<char>>>)
    ensures
        same_key(v, entries, '[', 'A', '\x10'),
        same_key(v, entries, '[', 'B', '\x0e'),
        same_key(v, entries, '[', 'C', '\x06'),
        same_key(v, entries, '[', 'D', '\x02'),
        same_key(v, entries, '[', 'H', '\x01'),
        same_key(v, entries, '[', 'F', '\x05'),
        same_key(v, entries, 'O', 'H', '\x01'),
        same_key(v, entries, 'O', 'F', '\x05'),
{
    lemma_sequence_of_three(v, entries, '[', 'A');
    lemma_sequence_of_three(v, entries, '[', 'B');
    lemma_sequence_of_three(v, entries, '[', 'C');
    lemma_sequence_of_three(v, entries, '[', 'D');
    lemma_sequence_of_three(v, entries, '[', 'H');
    lemma_sequence_of_three(v, entries, '[', 'F');
    lemma_sequence_of_three(v, entries, 'O', 'H');
    lemma_sequence_of_three(v, entries, 'O', 'F');
}

/// The Delete key deletes at the cursor and, unlike Control-D, never ends the input.
pub proof fn law_delete_key(v: StateView, entries: Option<Seq<Seq<char>>>)
    requires
        v.after.len() > 0 ==> v.can_paint(),
    ensures
        run(v, Pending::Nothing, entries, seq!['\x1b', '[', '3', '~']) == Some(
            (v.delete(), Pending::Nothing, StepView::Continue),
        ),
{
    let keys = seq!['\x1b', '[', '3', '~'];
    lemma_sequence_of_three(v, entries, '[', '3');
    assert(keys.drop_last() == seq!['\x1b', '[', '3']);
}

/// In any state, Backspace after an insertion gives back the buffer and the position in it.
pub proof fn law_backspace_restores_the_buffer(s: &State, inserted: &State, back: &State, ch: char)
    requires
        s.wf(),
        back.wf(),
        s@.fits(ch),
        inserted@ == s@.insert(ch),
        back@ == inserted@.backspace(),
    ensures
        back.buf@ == s.buf@,
        back.pos == s.pos,
{
    law_backspace_undoes_insert(s@, ch);
    law_same_text_is_same_buffer(back, s);
}

/// In any state with the cursor before the last character, a second exchange gives back the
/// buffer and the position in it.
pub proof fn law_transpose_twice_restores_the_buffer(s: &State, once: &State, twice: &State)
    requires
        s.wf(),
        twice.wf(),
        s@.before.len() > 0,
        s@.after.len() == 1,
        once@ == s@.transpose_chars(),
        twice@ == once@.transpose_chars(),
    ensures
        twice.buf@ == s.buf@,
        twice.pos == s.pos,
{
    law_transpose_twice_at_the_end(s@);
    law_same_text_is_same_buffer(twice, s);
}

} // verus!
