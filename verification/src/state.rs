//! The state of one line being edited.

use vstd::prelude::*;
use vstd::utf8::*;

use crate::model::StateView;
use crate::output::{write_and_flush, Output};
use crate::screen::{cells, paint_bytes, visible_window};
use crate::text::{
    byte_len, char_index, chars_of, lemma_empty, lemma_encode_concat, lemma_split, on_boundary,
    split, starts_at,
};
use crate::width::{text_width, width, width_of_char};

verus! {

/// Maximum buffer size for the line read.
pub const MAX_LINE: usize = 4096;

/// The state during line editing.
pub struct State<'prompt> {
    /// What is to be written to the terminal.
    pub out: Output,
    /// Prompt to display.
    pub prompt: &'prompt str,
    /// Prompt Unicode width.
    pub prompt_width: usize,
    /// Edited line buffer.
    pub buf: String,
    /// Current cursor position (byte position).
    pub pos: usize,
    /// Number of columns in terminal.
    pub cols: usize,
    /// The history index we are currently editing.
    pub history_index: usize,
    /// Current edited line before history browsing.
    pub history_end: String,
    /// The bytes that the line may take while it is typed.
    pub limit: usize,
}

impl<'prompt> View for State<'prompt> {
    type V = StateView;

    open spec fn view(&self) -> StateView {
        StateView {
            before: self.buf@.take(char_index(self.buf@, self.pos as int)),
            after: self.buf@.skip(char_index(self.buf@, self.pos as int)),
            prompt: self.prompt@,
            prompt_width: self.prompt_width as nat,
            cols: self.cols as nat,
            history_index: self.history_index as nat,
            history_end: self.history_end@,
            limit: self.limit as nat,
            out: self.out@,
        }
    }
}

impl<'prompt> State<'prompt> {
    /// The cursor stands between two characters, or at an end of the line. Neither the line nor
    /// its limit is larger than a string can be.
    pub open spec fn wf(&self) -> bool {
        &&& on_boundary(self.buf@, self.pos as int)
        &&& byte_len(self.buf@) <= isize::MAX
        &&& self.limit <= isize::MAX
    }

    /// An empty line, which has room for `capacity` bytes.
    pub fn new(
        out: Output,
        prompt: &'prompt str,
        capacity: usize,
        cols: usize,
        history_index: usize,
    ) -> (res: State<'prompt>)
        requires
            capacity <= isize::MAX,
        ensures
            res.wf(),
            res@ == (StateView {
                before: Seq::empty(),
                after: Seq::empty(),
                prompt: prompt@,
                prompt_width: text_width(prompt@),
                cols: cols as nat,
                history_index: history_index as nat,
                history_end: Seq::empty(),
                limit: capacity as nat,
                out: out@,
            }),
    {
        let res = State {
            out,
            prompt,
            prompt_width: width(prompt),
            buf: String::with_capacity(capacity),
            pos: 0,
            cols,
            history_index,
            history_end: String::new(),
            limit: capacity,
        };
        proof {
            lemma_empty(Seq::empty());
            lemma_placed(&res, Seq::empty(), Seq::empty());
        }
        res
    }
}

/// The cursor of `s` stands between the texts `a` and `b`.
pub proof fn lemma_placed(s: &State, a: Seq<char>, b: Seq<char>)
    requires
        s.buf@ == a + b,
        s.pos == byte_len(a),
        byte_len(a) + byte_len(b) <= isize::MAX,
        s.limit <= isize::MAX,
    ensures
        s.wf(),
        s@.before == a,
        s@.after == b,
{
    lemma_split(a, b);
    lemma_encode_concat(a, b);
    assert(starts_at(s.buf@, a.len() as int, s.pos as int));
}

/// The buffer is the text on both sides of the cursor.
pub proof fn lemma_parts(s: &State)
    requires
        s.wf(),
    ensures
        s.buf@ == s@.before + s@.after,
        s.buf@ == s@.line(),
        s.pos == byte_len(s@.before),
        byte_len(s.buf@) == byte_len(s@.before) + byte_len(s@.after),
        s.pos == 0 <==> s@.before.len() == 0,
        s.pos == byte_len(s.buf@) <==> s@.after.len() == 0,
        starts_at(s.buf@, s@.before.len() as int, s.pos as int),
        char_index(s.buf@, s.pos as int) == s@.before.len(),
{
    let k = char_index(s.buf@, s.pos as int);
    assert(starts_at(s.buf@, k, s.pos as int));
    assert(s.buf@ == s@.before + s@.after);
    lemma_encode_concat(s@.before, s@.after);
    lemma_empty(s@.before);
    lemma_empty(s@.after);
}

/// The widths of the characters of `s`.
fn widths_of(s: &str) -> (res: Vec<usize>)
    ensures
        res@ == cells(s@),
{
    let chars = chars_of(s);
    let mut res: Vec<usize> = Vec::new();
    let mut i: usize = 0;
    while i < chars.len()
        invariant
            i <= chars.len(),
            chars@ == s@,
            res@ == cells(s@.take(i as int)),
        decreases chars.len() - i,
    {
        res.push(width_of_char(chars[i]));
        i = i + 1;
        assert(res@ == cells(s@.take(i as int)));
    }
    assert(s@.take(s@.len() as int) == s@);
    res
}

/// Rewrite the currently edited line accordingly to the buffer content, cursor position, and
/// number of columns of the terminal.
pub fn refresh_line(s: &mut State)
    requires
        old(s).wf(),
        old(s)@.can_paint(),
    ensures
        final(s).wf(),
        final(s)@ == old(s)@.repaint(),
{
    proof {
        lemma_parts(s);
    }
    let widths = widths_of(s.buf.as_str());
    let (left, _right) = split(s.buf.as_str(), s.pos);
    let cursor = left.unicode_len();
    let window = visible_window(&widths, cursor, s.cols - s.prompt_width);
    let visible = s.buf.as_str().substring_char(window.start, window.end);
    let bytes = paint_bytes(s.prompt, visible, s.prompt_width + window.column);
    assert(bytes@ == s@.picture());
    write_and_flush(&mut s.out, bytes.as_slice());
}

/// A state shows its buffer, parted at its position, and its other fields as they are.
pub proof fn law_what_a_state_holds(s: &State)
    requires
        s.wf(),
    ensures
        s.buf@ == s@.before + s@.after,
        s.pos == encode_utf8(s@.before).len(),
        s@.prompt == s.prompt@,
        s@.prompt_width == s.prompt_width,
        s@.cols == s.cols,
        s@.history_index == s.history_index,
        s@.history_end == s.history_end@,
        s@.limit == s.limit,
        s@.out == s.out@,
{
    lemma_parts(s);
}

/// Any buffer with the position between two parts of it is that of a valid state, as long as it
/// and the limit are no larger than a string can be.
pub proof fn law_any_line_can_be_held(s: &State, before: Seq<char>, after: Seq<char>)
    requires
        s.buf@ == before + after,
        s.pos == encode_utf8(before).len(),
        encode_utf8(before + after).len() <= isize::MAX,
        s.limit <= isize::MAX,
    ensures
        s.wf(),
        s@.before == before,
        s@.after == after,
{
    lemma_encode_concat(before, after);
    lemma_placed(s, before, after);
}

} // verus!
