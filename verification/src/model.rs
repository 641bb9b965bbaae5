//! The editor as a mathematical object, and what each command makes of it.

use vstd::prelude::*;
use vstd::utf8::*;

use crate::screen::{cells, home_and_clear, paint, span, window_end, window_start};
use crate::state::MAX_LINE;
use crate::strings::white_space;
use crate::text::byte_len;
use crate::width::text_width;

verus! {

/// What an editor holds: the text on both sides of the cursor, what is needed to paint it, the
/// place in the history, and the writes asked for so far.
#[verifier::ext_equal]
pub struct StateView {
    /// The text before the cursor.
    pub before: Seq<char>,
    /// The text from the cursor on.
    pub after: Seq<char>,
    pub prompt: Seq<char>,
    /// The columns that the prompt takes.
    pub prompt_width: nat,
    /// The columns that the terminal has.
    pub cols: nat,
    /// The history entry that is being edited; the number of entries stands for the line that
    /// was typed.
    pub history_index: nat,
    /// The line that was typed, while history entries are being looked at.
    pub history_end: Seq<char>,
    /// The bytes that the line may take while it is typed.
    pub limit: nat,
    pub out: Seq<Seq<u8>>,
}

/// The bytes that a line may take once it has become `text`: `MAX_LINE`, or what `text` takes if
/// that is more.
pub open spec fn limit_for(text: Seq<char>) -> nat {
    if byte_len(text) > MAX_LINE {
        byte_len(text)
    } else {
        MAX_LINE as nat
    }
}

/// The start of the run of flags equal to `value` that ends before number `n`; `n` itself where
/// there is no such run.
pub open spec fn run_start(flags: Seq<bool>, n: int, value: bool) -> int
    decreases n,
{
    if n > 0 && flags[n - 1] == value {
        run_start(flags, n - 1, value)
    } else {
        n
    }
}

/// Where the last word starts, given for each character whether it is white space: white space
/// at the end belongs to the word before it.
pub open spec fn word_start(blanks: Seq<bool>) -> int {
    run_start(blanks, run_start(blanks, blanks.len() as int, true), false)
}

/// Which characters are white space.
pub open spec fn blanks_of(text: Seq<char>) -> Seq<bool> {
    text.map_values(|c: char| white_space(c))
}

impl StateView {
    /// The whole line.
    pub open spec fn line(self) -> Seq<char> {
        self.before + self.after
    }

    /// The same editor with other text around its cursor.
    pub open spec fn with_text(self, before: Seq<char>, after: Seq<char>) -> StateView {
        StateView { before, after, ..self }
    }

    /// The same editor with one more write asked for.
    pub open spec fn write(self, bytes: Seq<u8>) -> StateView {
        StateView { out: self.out.push(bytes), ..self }
    }

    /// The terminal is wide enough for the prompt and the cursor. Nothing can be painted
    /// otherwise.
    pub open spec fn can_paint(self) -> bool {
        self.prompt_width < self.cols
    }

    /// The columns that the prompt leaves for the line.
    pub open spec fn room(self) -> int {
        self.cols - self.prompt_width
    }

    /// The first visible character of the line.
    pub open spec fn first_visible(self) -> int {
        window_start(cells(self.line()), self.before.len() as int, self.room())
    }

    /// The end of the visible part of the line.
    pub open spec fn last_visible(self) -> int {
        window_end(cells(self.line()), self.before.len() as int, self.room())
    }

    /// The column of the cursor.
    pub open spec fn cursor_column(self) -> nat {
        self.prompt_width + span(
            cells(self.line()),
            self.first_visible(),
            self.before.len() as int,
        )
    }

    /// The bytes that paint the prompt, the visible part of the line and the cursor.
    pub open spec fn picture(self) -> Seq<u8> {
        paint(
            self.prompt,
            self.line().subrange(self.first_visible(), self.last_visible()),
            self.cursor_column(),
        )
    }

    /// The row is painted anew.
    pub open spec fn repaint(self) -> StateView {
        self.write(self.picture())
    }

    /// The screen is cleared and the row painted anew.
    pub open spec fn clear(self) -> StateView {
        self.write(home_and_clear()).repaint()
    }

    /// The line stays within its limit with `ch` added.
    pub open spec fn fits(self, ch: char) -> bool {
        byte_len(self.line()) + encode_scalar(ch as u32).len() <= self.limit
    }

    /// `ch` is inserted before the cursor if the line stays within its limit, and dropped
    /// otherwise. At the end of a line that stays short it is enough to write it; otherwise the
    /// row is painted anew.
    pub open spec fn insert(self, ch: char) -> StateView {
        let next = self.with_text(self.before.push(ch), self.after);
        if !self.fits(ch) {
            self
        } else if self.after.len() == 0 && self.prompt_width + text_width(next.line())
            < self.cols {
            next.write(encode_scalar(ch as u32))
        } else {
            next.repaint()
        }
    }

    /// The cursor moves one character to the left.
    pub open spec fn move_left(self) -> StateView {
        if self.before.len() > 0 {
            self.with_text(
                self.before.drop_last(),
                seq![self.before.last()] + self.after,
            ).repaint()
        } else {
            self
        }
    }

    /// The cursor moves one character to the right.
    pub open spec fn move_right(self) -> StateView {
        if self.after.len() > 0 {
            self.with_text(self.before.push(self.after[0]), self.after.drop_first()).repaint()
        } else {
            self
        }
    }

    /// The cursor moves to the start of the line.
    pub open spec fn move_home(self) -> StateView {
        if self.before.len() > 0 {
            self.with_text(Seq::empty(), self.line()).repaint()
        } else {
            self
        }
    }

    /// The cursor moves to the end of the line.
    pub open spec fn move_end(self) -> StateView {
        if self.after.len() > 0 {
            self.with_text(self.line(), Seq::empty()).repaint()
        } else {
            self
        }
    }

    /// The character at the cursor goes.
    pub open spec fn delete(self) -> StateView {
        if self.after.len() > 0 {
            self.with_text(self.before, self.after.drop_first()).repaint()
        } else {
            self
        }
    }

    /// The character before the cursor goes.
    pub open spec fn backspace(self) -> StateView {
        if self.before.len() > 0 {
            self.with_text(self.before.drop_last(), self.after).repaint()
        } else {
            self
        }
    }

    /// The text from the cursor on goes.
    pub open spec fn kill_line(self) -> StateView {
        if self.after.len() > 0 {
            self.with_text(self.before, Seq::empty()).repaint()
        } else {
            self
        }
    }

    /// The text before the cursor goes.
    pub open spec fn discard_line(self) -> StateView {
        if self.before.len() > 0 {
            self.with_text(Seq::empty(), self.after).repaint()
        } else {
            self
        }
    }

    /// The characters on both sides of the cursor change places. The cursor moves behind them,
    /// but stays between them at the last character of the line.
    pub open spec fn transpose_chars(self) -> StateView {
        if self.before.len() > 0 && self.after.len() > 0 {
            let head = self.before.drop_last();
            let left = self.before.last();
            let right = self.after[0];
            let rest = self.after.drop_first();
            if rest.len() > 0 {
                self.with_text(head.push(right).push(left), rest).repaint()
            } else {
                self.with_text(head.push(right), seq![left]).repaint()
            }
        } else {
            self
        }
    }

    /// The word before the cursor goes, with the white space behind it.
    pub open spec fn delete_prev_word(self) -> StateView {
        if self.before.len() > 0 {
            self.with_text(
                self.before.take(word_start(blanks_of(self.before))),
                self.after,
            ).repaint()
        } else {
            self
        }
    }

    /// There is an entry to go to: one before the current place, or one behind it.
    pub open spec fn can_browse(self, entries: Seq<Seq<char>>, prev: bool) -> bool {
        &&& entries.len() > 0
        &&& if prev {
            self.history_index > 0
        } else {
            self.history_index != entries.len()
        }
    }

    /// The line becomes the previous or the next entry of the history, or behind the last entry
    /// the line that was typed. That one is remembered when the first entry replaces it. The line
    /// may then be typed on, up to `MAX_LINE` bytes.
    pub open spec fn browse(self, entries: Seq<Seq<char>>, prev: bool) -> StateView {
        if self.can_browse(entries, prev) {
            let index: int = if prev {
                self.history_index - 1
            } else {
                self.history_index as int + 1
            };
            let typed = if self.history_index == entries.len() {
                self.line()
            } else {
                self.history_end
            };
            let text = if index < entries.len() {
                entries[index]
            } else {
                typed
            };
            StateView {
                before: text,
                after: Seq::empty(),
                history_index: index as nat,
                history_end: typed,
                limit: limit_for(text),
                ..self
            }.repaint()
        } else {
            self
        }
    }
}

} // verus!
