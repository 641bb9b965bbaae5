//! The editing commands.

use vstd::prelude::*;
use vstd::string::*;

use crate::history::History;
use crate::model::{blanks_of, run_start, word_start};
use crate::output::write_and_flush;
use crate::state::{lemma_parts, lemma_placed, refresh_line, State, MAX_LINE};
use crate::strings::remove_range;
use crate::text::{
    byte_len, chars_of, lemma_char_index, lemma_empty, lemma_encode_concat, lemma_ends,
    lemma_push_len, lemma_split, len_in_bytes, split,
};
use crate::width::width;

verus! {

/// The character before the cursor, which parts the line in three: what stands before it, the
/// character itself, and what stands from the cursor on.
fn char_before(s: &State) -> (res: char)
    requires
        s.wf(),
        s@.before.len() > 0,
    ensures
        res == s@.before.last(),
        s@.before == s@.before.drop_last().push(res),
        s.buf@ == s@.before.drop_last() + (seq![res] + s@.after),
        s.pos == byte_len(s@.before.drop_last()) + byte_len(seq![res]),
        byte_len(seq![res] + s@.after) == byte_len(seq![res]) + byte_len(s@.after),
{
    let (left, _right) = split(s.buf.as_str(), s.pos);
    let n = left.unicode_len();
    let ch = left.get_char(n - 1);
    proof {
        lemma_parts(s);
        let head = s@.before.drop_last();
        assert(s@.before == head.push(ch));
        assert(s.buf@ == head + (seq![ch] + s@.after));
        lemma_push_len(head, ch);
        lemma_encode_concat(seq![ch], s@.after);
    }
    ch
}

/// Insert the character `ch` at cursor current position. A line that would outgrow its limit
/// takes no more characters.
pub fn edit_insert(s: &mut State, ch: char)
    requires
        old(s).wf(),
        old(s)@.fits(ch) ==> old(s)@.can_paint(),
    ensures
        final(s).wf(),
        final(s)@ == old(s)@.insert(ch),
{
    let ghost a = s@.before;
    let ghost b = s@.after;
    proof {
        lemma_parts(s);
        lemma_push_len(a, ch);
        lemma_encode_concat(a.push(ch), b);
        lemma_encode_concat(a, b);
    }
    let len = len_in_bytes(s.buf.as_str());
    let size = ch.len_utf8();
    if len <= s.limit && size <= s.limit - len {
        if len == s.pos {
            s.buf.push(ch);
            s.pos = s.pos + size;
            proof {
                assert(s.buf@ == a.push(ch) + b);
                lemma_placed(s, a.push(ch), b);
            }
            if s.prompt_width < s.cols && width(s.buf.as_str()) < s.cols - s.prompt_width {
                // Avoid a full update of the line in the trivial case.
                let mut text = String::new();
                proof {
                    lemma_ends(Seq::empty());
                }
                text.push(ch);
                assert(text@ == seq![ch]);
                write_and_flush(&mut s.out, text.as_str().as_bytes());
            } else {
                refresh_line(s);
            }
        } else {
            s.buf.insert(s.pos, ch);
            s.pos = s.pos + size;
            proof {
                assert(s.buf@ == a.push(ch) + b);
                lemma_placed(s, a.push(ch), b);
            }
            refresh_line(s);
        }
    }
}

/// Move cursor on the left.
pub fn edit_move_left(s: &mut State)
    requires
        old(s).wf(),
        old(s)@.before.len() > 0 ==> old(s)@.can_paint(),
    ensures
        final(s).wf(),
        final(s)@ == old(s)@.move_left(),
{
    let ghost a = s@.before;
    let ghost b = s@.after;
    proof {
        lemma_parts(s);
    }
    if s.pos > 0 {
        let ch = char_before(s);
        s.pos = s.pos - ch.len_utf8();
        proof {
            lemma_placed(s, a.drop_last(), seq![ch] + b);
        }
        refresh_line(s);
    }
}

/// Move cursor on the right.
pub fn edit_move_right(s: &mut State)
    requires
        old(s).wf(),
        old(s)@.after.len() > 0 ==> old(s)@.can_paint(),
    ensures
        final(s).wf(),
        final(s)@ == old(s)@.move_right(),
{
    let ghost a = s@.before;
    let ghost b = s@.after;
    proof {
        lemma_parts(s);
    }
    let len = len_in_bytes(s.buf.as_str());
    if s.pos != len {
        let (_left, right) = split(s.buf.as_str(), s.pos);
        let ch = right.get_char(0);
        proof {
            lemma_push_len(a, ch);
            lemma_encode_concat(a.push(ch), b.drop_first());
            assert(s.buf@ == a.push(ch) + b.drop_first());
        }
        s.pos = s.pos + ch.len_utf8();
        proof {
            lemma_placed(s, a.push(ch), b.drop_first());
        }
        refresh_line(s);
    }
}

/// Move cursor to the start of the line.
pub fn edit_move_home(s: &mut State)
    requires
        old(s).wf(),
        old(s)@.before.len() > 0 ==> old(s)@.can_paint(),
    ensures
        final(s).wf(),
        final(s)@ == old(s)@.move_home(),
{
    proof {
        lemma_parts(s);
    }
    if s.pos > 0 {
        s.pos = 0;
        proof {
            assert(s.buf@ == Seq::<char>::empty() + s.buf@);
            lemma_empty(Seq::empty());
            lemma_placed(s, Seq::empty(), s.buf@);
        }
        refresh_line(s);
    }
}

/// Move cursor to the end of the line.
pub fn edit_move_end(s: &mut State)
    requires
        old(s).wf(),
        old(s)@.after.len() > 0 ==> old(s)@.can_paint(),
    ensures
        final(s).wf(),
        final(s)@ == old(s)@.move_end(),
{
    proof {
        lemma_parts(s);
    }
    let len = len_in_bytes(s.buf.as_str());
    if s.pos != len {
        s.pos = len;
        proof {
            assert(s.buf@ == s.buf@ + Seq::<char>::empty());
            lemma_empty(Seq::empty());
            lemma_placed(s, s.buf@, Seq::empty());
        }
        refresh_line(s);
    }
}

/// Delete the character at the right of the cursor without altering the cursor position.
/// Basically this is what happens with the "Delete" keyboard key.
pub fn edit_delete(s: &mut State)
    requires
        old(s).wf(),
        old(s)@.after.len() > 0 ==> old(s)@.can_paint(),
    ensures
        final(s).wf(),
        final(s)@ == old(s)@.delete(),
{
    let ghost a = s@.before;
    let ghost b = s@.after;
    proof {
        lemma_parts(s);
    }
    let len = len_in_bytes(s.buf.as_str());
    if len > 0 && s.pos < len {
        s.buf.remove(s.pos);
        proof {
            assert(b == seq![b[0]] + b.drop_first());
            lemma_encode_concat(seq![b[0]], b.drop_first());
            assert(s.buf@ == a + b.drop_first());
            lemma_placed(s, a, b.drop_first());
        }
        refresh_line(s);
    }
}

/// Backspace implementation.
pub fn edit_backspace(s: &mut State)
    requires
        old(s).wf(),
        old(s)@.before.len() > 0 ==> old(s)@.can_paint(),
    ensures
        final(s).wf(),
        final(s)@ == old(s)@.backspace(),
{
    let ghost a = s@.before;
    let ghost b = s@.after;
    proof {
        lemma_parts(s);
    }
    if s.pos > 0 && len_in_bytes(s.buf.as_str()) > 0 {
        let ch = char_before(s);
        s.pos = s.pos - ch.len_utf8();
        proof {
            lemma_placed(s, a.drop_last(), seq![ch] + b);
            lemma_parts(s);
        }
        s.buf.remove(s.pos);
        proof {
            assert(s.buf@ == a.drop_last() + b);
            lemma_placed(s, a.drop_last(), b);
        }
        refresh_line(s);
    }
}

/// Kill the text from point to the end of the line.
pub fn edit_kill_line(s: &mut State)
    requires
        old(s).wf(),
        old(s)@.after.len() > 0 ==> old(s)@.can_paint(),
    ensures
        final(s).wf(),
        final(s)@ == old(s)@.kill_line(),
{
    let ghost a = s@.before;
    proof {
        lemma_parts(s);
        lemma_ends(s.buf@);
        lemma_char_index(s.buf@, s.buf@.len() as int, byte_len(s.buf@) as int);
    }
    let len = len_in_bytes(s.buf.as_str());
    if len > 0 && s.pos < len {
        remove_range(&mut s.buf, s.pos, len);
        proof {
            lemma_empty(Seq::empty());
            assert(s.buf@ == a + Seq::<char>::empty());
            lemma_placed(s, a, Seq::empty());
        }
        refresh_line(s);
    }
}

/// Kill backward from point to the beginning of the line.
pub fn edit_discard_line(s: &mut State)
    requires
        old(s).wf(),
        old(s)@.before.len() > 0 ==> old(s)@.can_paint(),
    ensures
        final(s).wf(),
        final(s)@ == old(s)@.discard_line(),
{
    let ghost b = s@.after;
    proof {
        lemma_parts(s);
        lemma_ends(s.buf@);
        lemma_char_index(s.buf@, 0, 0);
    }
    if s.pos > 0 && len_in_bytes(s.buf.as_str()) > 0 {
        remove_range(&mut s.buf, 0, s.pos);
        s.pos = 0;
        proof {
            lemma_empty(Seq::empty());
            assert(s.buf@ == Seq::<char>::empty() + b);
            lemma_placed(s, Seq::empty(), b);
        }
        refresh_line(s);
    }
}

/// Exchange the char before cursor with the character at cursor.
pub fn edit_transpose_chars(s: &mut State)
    requires
        old(s).wf(),
        old(s)@.before.len() > 0 && old(s)@.after.len() > 0 ==> old(s)@.can_paint(),
    ensures
        final(s).wf(),
        final(s)@ == old(s)@.transpose_chars(),
{
    let ghost a = s@.before;
    let ghost b = s@.after;
    proof {
        lemma_parts(s);
    }
    let len = len_in_bytes(s.buf.as_str());
    if s.pos > 0 && s.pos < len {
        let ghost head = a.drop_last();
        let ghost rest = b.drop_first();
        let ch = s.buf.remove(s.pos);
        let size = ch.len_utf8();
        proof {
            assert(s.buf@ == a + rest);
            lemma_placed(s, a, rest);
        }
        let och = char_before(s);
        let osize = och.len_utf8();
        proof {
            assert(b == seq![ch] + rest);
            lemma_push_len(head, ch);
            lemma_push_len(head.push(ch), och);
            lemma_encode_concat(seq![ch], rest);
            lemma_encode_concat(head.push(och), rest);
            lemma_encode_concat(head.push(ch).push(och), rest);
            lemma_split(head, seq![och] + rest);
            lemma_empty(rest);
        }
        s.buf.insert(s.pos - osize, ch);
        proof {
            assert(s.buf@ == head.push(ch).push(och) + rest);
            assert(head.push(ch).push(och) == head.push(ch) + seq![och]);
        }
        if s.pos != len_in_bytes(s.buf.as_str()) - size {
            s.pos = s.pos + size;
            proof {
                lemma_placed(s, head.push(ch).push(och), rest);
            }
        } else {
            if size >= osize {
                s.pos = s.pos + (size - osize);
            } else {
                s.pos = s.pos - (osize - size);
            }
            proof {
                assert(s.buf@ == head.push(ch) + seq![och]);
                lemma_placed(s, head.push(ch), seq![och]);
            }
        }
        refresh_line(s);
    }
}

/// Where the last word starts, given for each character whether it is white space.
pub fn prev_word_start(blanks: &Vec<bool>) -> (res: usize)
    ensures
        res == word_start(blanks@),
        res <= blanks.len(),
{
    let mut n: usize = blanks.len();
    while n > 0 && blanks[n - 1]
        invariant
            n <= blanks.len(),
            run_start(blanks@, n as int, true) == run_start(blanks@, blanks@.len() as int, true),
        decreases n,
    {
        n = n - 1;
    }
    let ghost end = n as int;
    while n > 0 && !blanks[n - 1]
        invariant
            n <= blanks.len(),
            run_start(blanks@, n as int, false) == run_start(blanks@, end, false),
        decreases n,
    {
        n = n - 1;
    }
    n
}

/// Which characters of `s` are white space.
fn white_spaces(s: &str) -> (res: Vec<bool>)
    ensures
        res@ == blanks_of(s@),
{
    let chars = chars_of(s);
    let mut res: Vec<bool> = Vec::new();
    let mut i: usize = 0;
    while i < chars.len()
        invariant
            i <= chars.len(),
            chars@ == s@,
            res@ == blanks_of(s@.take(i as int)),
        decreases chars.len() - i,
    {
        res.push(chars[i].is_whitespace());
        i = i + 1;
        assert(res@ == blanks_of(s@.take(i as int)));
    }
    assert(s@.take(s@.len() as int) == s@);
    res
}

/// Delete the previous word, maintaining the cursor at the start of the current word.
pub fn edit_delete_prev_word(s: &mut State)
    requires
        old(s).wf(),
        old(s)@.before.len() > 0 ==> old(s)@.can_paint(),
    ensures
        final(s).wf(),
        final(s)@ == old(s)@.delete_prev_word(),
{
    let ghost a = s@.before;
    let ghost b = s@.after;
    proof {
        lemma_parts(s);
    }
    if s.pos > 0 {
        let (left, _right) = split(s.buf.as_str(), s.pos);
        let blanks = white_spaces(left);
        let start = prev_word_start(&blanks);
        let old_pos = s.pos;
        let pos = len_in_bytes(left.substring_char(0, start));
        let ghost kept = a.take(start as int);
        proof {
            assert(a.subrange(0, start as int) == kept);
            assert(kept + a.skip(start as int) == a);
            lemma_encode_concat(kept, a.skip(start as int));
            assert(s.buf@ == kept + (a.skip(start as int) + b));
            lemma_split(kept, a.skip(start as int) + b);
        }
        remove_range(&mut s.buf, pos, old_pos);
        s.pos = pos;
        proof {
            assert(s.buf@ == kept + b);
            lemma_placed(s, kept, b);
        }
        refresh_line(s);
    }
}

/// Substitute the currently edited line with the next or previous history entry.
pub fn edit_history_next(s: &mut State, history: &mut History, prev: bool)
    requires
        old(s).wf(),
        old(s)@.can_browse(old(history)@, prev) ==> old(s)@.can_paint() && (prev || old(
            s,
        ).history_index < usize::MAX),
    ensures
        final(s).wf(),
        final(s)@ == old(s)@.browse(old(history)@, prev),
        *final(history) == *old(history),
{
    proof {
        lemma_parts(s);
    }
    if history.len() > 0 {
        if s.history_index == history.len() {
            if prev {
                // Save the current edited line before to overwrite it.
                s.history_end = s.buf.clone();
            } else {
                return;
            }
        } else if s.history_index == 0 && prev {
            return;
        }
        if prev {
            s.history_index = s.history_index - 1;
        } else {
            s.history_index = s.history_index + 1;
        }
        match history.get(s.history_index) {
            Some(entry) => {
                s.buf = entry.clone();
            },
            None => {
                s.buf = s.history_end.clone();
            },
        }
        let len = len_in_bytes(s.buf.as_str());
        s.pos = len;
        if s.buf.capacity() < MAX_LINE {
            s.buf.reserve_exact(MAX_LINE - len);
        }
        s.limit = if len > MAX_LINE {
            len
        } else {
            MAX_LINE
        };
        proof {
            lemma_empty(Seq::empty());
            assert(s.buf@ == s.buf@ + Seq::<char>::empty());
            lemma_placed(s, s.buf@, Seq::empty());
        }
        refresh_line(s);
    }
}

} // verus!
