//! Reading one line: the characters that the terminal sends go in, commands are carried out, and
//! in the end there is a line or an error.

use vstd::prelude::*;
use vstd::utf8::*;

use crate::edit::{
    edit_backspace, edit_delete, edit_delete_prev_word, edit_discard_line, edit_history_next,
    edit_insert, edit_kill_line, edit_move_end, edit_move_home, edit_move_left,
    edit_move_right, edit_transpose_chars,
};
use crate::error::{from_errno, Errno, ReadlineError};
use crate::history::History;
use crate::keys::{decode, decoded, Action, Pending};
use crate::model::StateView;
use crate::output::{clear_screen, write_and_flush, Output};
use crate::state::{lemma_parts, refresh_line, State, MAX_LINE};
use crate::text::{lemma_empty, lemma_one_char, len_in_bytes};
use crate::width::text_width;

verus! {

/// What comes of a character that was typed.
#[derive(Debug)]
pub enum Step {
    /// More characters are needed.
    Continue,
    /// The line was handed over.
    Accepted(String),
    /// There will be no line.
    Failed(ReadlineError),
}

/// `Step` with its text as a sequence of characters.
#[verifier::ext_equal]
pub enum StepView {
    Continue,
    Accepted(Seq<char>),
    Failed(ReadlineError),
}

impl View for Step {
    type V = StepView;

    open spec fn view(&self) -> StepView {
        match self {
            Step::Continue => StepView::Continue,
            Step::Accepted(line) => StepView::Accepted(line@),
            Step::Failed(error) => StepView::Failed(*error),
        }
    }
}

/// The entries of a history, where there is one.
pub open spec fn entries_of(history: Option<History>) -> Option<Seq<Seq<char>>> {
    match history {
        Some(h) => Some(h@),
        None => None,
    }
}

impl StateView {
    /// Where a command leaves the editor.
    pub open spec fn after_action(
        self,
        entries: Option<Seq<Seq<char>>>,
        action: Action,
    ) -> StateView {
        match action {
            Action::MoveHome => self.move_home(),
            Action::MoveLeft => self.move_left(),
            Action::MoveRight => self.move_right(),
            Action::MoveEnd => self.move_end(),
            Action::Delete => self.delete(),
            Action::DeleteOrEof => self.delete(),
            Action::Backspace => self.backspace(),
            Action::KillLine => self.kill_line(),
            Action::DiscardLine => self.discard_line(),
            Action::DeletePrevWord => self.delete_prev_word(),
            Action::TransposeChars => self.transpose_chars(),
            Action::ClearScreen => self.clear(),
            Action::HistoryPrev => match entries {
                Some(e) => self.browse(e, true),
                None => self,
            },
            Action::HistoryNext => match entries {
                Some(e) => self.browse(e, false),
                None => self,
            },
            Action::Insert(ch) => self.insert(ch),
            Action::Interrupt => self,
            Action::Accept => self,
        }
    }

    /// What comes of a command.
    pub open spec fn outcome(self, action: Action) -> StepView {
        match action {
            Action::Interrupt => StepView::Failed(ReadlineError::Errno(Errno::EAGAIN)),
            Action::DeleteOrEof => if self.line().len() == 0 {
                StepView::Failed(ReadlineError::Eof)
            } else {
                StepView::Continue
            },
            Action::Accept => StepView::Accepted(self.line()),
            _ => StepView::Continue,
        }
    }

    /// A command can be carried out: where it changes anything the terminal is wide enough for
    /// the prompt, and the place in the history does not outgrow the machine.
    pub open spec fn applicable(
        self,
        entries: Option<Seq<Seq<char>>>,
        action: Action,
    ) -> bool {
        self.after_action(entries, action) != self ==> {
            &&& self.can_paint()
            &&& action == Action::HistoryNext ==> self.history_index < usize::MAX
        }
    }
}

/// Where the character `ch` leaves the editor and its place in an escape sequence, and what comes
/// of it; `None` where the command that it completes cannot be carried out.
pub open spec fn stepped(
    v: StateView,
    pending: Pending,
    entries: Option<Seq<Seq<char>>>,
    ch: char,
) -> Option<(StateView, Pending, StepView)> {
    let (next, action) = decoded(pending, ch);
    match action {
        None => Some((v, next, StepView::Continue)),
        Some(a) => if v.applicable(entries, a) {
            Some((v.after_action(entries, a), next, v.outcome(a)))
        } else {
            None
        },
    }
}

/// A command changes the editor exactly where it has something to do.
proof fn lemma_changes(v: StateView, entries: Option<Seq<Seq<char>>>, action: Action)
    ensures
        v.after_action(entries, action) != v <==> match action {
            Action::MoveHome | Action::MoveLeft | Action::Backspace | Action::DiscardLine
            | Action::DeletePrevWord => v.before.len() > 0,
            Action::MoveRight | Action::MoveEnd | Action::Delete | Action::DeleteOrEof
            | Action::KillLine => v.after.len() > 0,
            Action::TransposeChars => v.before.len() > 0 && v.after.len() > 0,
            Action::ClearScreen => true,
            Action::HistoryPrev => entries is Some && v.can_browse(entries->0, true),
            Action::HistoryNext => entries is Some && v.can_browse(entries->0, false),
            Action::Insert(ch) => v.fits(ch),
            Action::Interrupt | Action::Accept => false,
        },
{
    let next = v.after_action(entries, action);
    assert(next.out.len() == v.out.len() ==> next == v);
}

/// Whether `action` can be carried out.
pub fn can_apply(s: &State, history: &Option<History>, action: Action) -> (res: bool)
    requires
        s.wf(),
    ensures
        res == s@.applicable(entries_of(*history), action),
{
    proof {
        lemma_parts(s);
        lemma_changes(s@, entries_of(*history), action);
        if let Action::Insert(ch) = action {
            lemma_one_char(ch);
        }
    }
    let len = len_in_bytes(s.buf.as_str());
    let paintable = s.prompt_width < s.cols;
    match action {
        Action::MoveHome | Action::MoveLeft | Action::Backspace | Action::DiscardLine
        | Action::DeletePrevWord => s.pos == 0 || paintable,
        Action::MoveRight | Action::MoveEnd | Action::Delete | Action::DeleteOrEof
        | Action::KillLine => s.pos == len || paintable,
        Action::TransposeChars => s.pos == 0 || s.pos == len || paintable,
        Action::ClearScreen => paintable,
        Action::HistoryPrev => match history {
            Some(h) => h.len() == 0 || s.history_index == 0 || paintable,
            None => true,
        },
        Action::HistoryNext => match history {
            Some(h) => h.len() == 0 || s.history_index == h.len() || (paintable && s.history_index
                < usize::MAX),
            None => true,
        },
        Action::Insert(ch) => len > s.limit || ch.len_utf8() > s.limit - len || paintable,
        Action::Interrupt | Action::Accept => true,
    }
}

/// Carries out `action`.
pub fn apply(s: &mut State, history: &mut Option<History>, action: Action) -> (res: Step)
    requires
        old(s).wf(),
        old(s)@.applicable(entries_of(*old(history)), action),
    ensures
        final(s).wf(),
        final(s)@ == old(s)@.after_action(entries_of(*old(history)), action),
        res@ == old(s)@.outcome(action),
        *final(history) == *old(history),
{
    proof {
        lemma_parts(s);
        lemma_changes(s@, entries_of(*history), action);
    }
    match action {
        Action::MoveHome => edit_move_home(s),
        Action::MoveLeft => edit_move_left(s),
        Action::MoveRight => edit_move_right(s),
        Action::MoveEnd => edit_move_end(s),
        Action::Delete => edit_delete(s),
        Action::DeleteOrEof => {
            if len_in_bytes(s.buf.as_str()) > 0 {
                edit_delete(s);
            } else {
                proof {
                    lemma_empty(s.buf@);
                }
                return Step::Failed(ReadlineError::Eof);
            }
        },
        Action::Backspace => edit_backspace(s),
        Action::KillLine => edit_kill_line(s),
        Action::DiscardLine => edit_discard_line(s),
        Action::DeletePrevWord => edit_delete_prev_word(s),
        Action::TransposeChars => edit_transpose_chars(s),
        Action::ClearScreen => {
            // Clear the screen leaving the current line at the top of the screen.
            clear_screen(&mut s.out);
            refresh_line(s);
        },
        Action::HistoryPrev => {
            if let Some(h) = history {
                edit_history_next(s, h, true);
            }
        },
        Action::HistoryNext => {
            if let Some(h) = history {
                edit_history_next(s, h, false);
            }
        },
        Action::Insert(ch) => edit_insert(s, ch),
        Action::Interrupt => {
            return Step::Failed(from_errno(Errno::EAGAIN));
        },
        // Accept the line regardless of where the cursor is.
        Action::Accept => {
            return Step::Accepted(s.buf.clone());
        },
    }
    Step::Continue
}

/// What shows the prompt.
pub fn show_prompt(prompt: &str) -> (res: Output)
    ensures
        res@ == seq![encode_utf8(prompt@)],
{
    let mut out = Output::new();
    write_and_flush(&mut out, prompt.as_bytes());
    out
}

/// Starts to read a line: shows the prompt, and sets up an empty line with room for `MAX_LINE`
/// bytes.
pub fn start_line<'prompt>(
    prompt: &'prompt str,
    cols: usize,
    history: &Option<History>,
) -> (res: State<'prompt>)
    ensures
        res.wf(),
        res@ == (StateView {
            before: Seq::empty(),
            after: Seq::empty(),
            prompt: prompt@,
            prompt_width: text_width(prompt@),
            cols: cols as nat,
            history_index: match entries_of(*history) {
                Some(entries) => entries.len(),
                None => 0,
            },
            history_end: Seq::empty(),
            limit: MAX_LINE as nat,
            out: seq![encode_utf8(prompt@)],
        }),
{
    let out = show_prompt(prompt);
    let history_index: usize = match history {
        Some(h) => h.len(),
        None => 0,
    };
    State::new(out, prompt, MAX_LINE, cols, history_index)
}

/// Takes in a character that was typed. `None` says that the command that it completes cannot be
/// carried out; nothing changes then.
pub fn step(
    s: &mut State,
    history: &mut Option<History>,
    pending: &mut Pending,
    ch: char,
) -> (res: Option<Step>)
    requires
        old(s).wf(),
    ensures
        final(s).wf(),
        *final(history) == *old(history),
        match stepped(old(s)@, *old(pending), entries_of(*old(history)), ch) {
            Some((state, next, outcome)) => {
                &&& res is Some
                &&& res->0@ == outcome
                &&& final(s)@ == state
                &&& *final(pending) == next
            },
            None => {
                &&& res is None
                &&& final(s)@ == old(s)@
                &&& *final(pending) == *old(pending)
            },
        },
{
    let (next, action) = decode(*pending, ch);
    match action {
        None => {
            *pending = next;
            Some(Step::Continue)
        },
        Some(a) => if can_apply(s, history, a) {
            *pending = next;
            Some(apply(s, history, a))
        } else {
            None
        },
    }
}

/// Each command leaves the editor where its own function does: Control-D deletes as Delete does,
/// the two for the history do nothing where there is none, giving up and handing over change
/// nothing.
pub proof fn law_commands(v: StateView, entries: Seq<Seq<char>>, history: bool, ch: char)
    ensures
        ({
            let e = if history {
                Some(entries)
            } else {
                None
            };
            &&& v.after_action(e, Action::MoveHome) == v.move_home()
            &&& v.after_action(e, Action::MoveLeft) == v.move_left()
            &&& v.after_action(e, Action::MoveRight) == v.move_right()
            &&& v.after_action(e, Action::MoveEnd) == v.move_end()
            &&& v.after_action(e, Action::Delete) == v.delete()
            &&& v.after_action(e, Action::DeleteOrEof) == v.delete()
            &&& v.after_action(e, Action::Backspace) == v.backspace()
            &&& v.after_action(e, Action::KillLine) == v.kill_line()
            &&& v.after_action(e, Action::DiscardLine) == v.discard_line()
            &&& v.after_action(e, Action::DeletePrevWord) == v.delete_prev_word()
            &&& v.after_action(e, Action::TransposeChars) == v.transpose_chars()
            &&& v.after_action(e, Action::ClearScreen) == v.clear()
            &&& v.after_action(e, Action::Insert(ch)) == v.insert(ch)
            &&& v.after_action(e, Action::Interrupt) == v
            &&& v.after_action(e, Action::Accept) == v
            &&& history ==> v.after_action(e, Action::HistoryPrev) == v.browse(entries, true)
            &&& history ==> v.after_action(e, Action::HistoryNext) == v.browse(entries, false)
            &&& !history ==> v.after_action(e, Action::HistoryPrev) == v
            &&& !history ==> v.after_action(e, Action::HistoryNext) == v
        }),
{
}

/// Only three commands can end a line: giving up does, with EAGAIN, handing over does, with the
/// text on both sides of the cursor, and Control-D does where there is none.
pub proof fn law_outcomes(v: StateView, action: Action)
    ensures
        v.outcome(Action::Interrupt) == StepView::Failed(ReadlineError::Errno(Errno::EAGAIN)),
        v.outcome(Action::Accept) == StepView::Accepted(v.before + v.after),
        v.before.len() + v.after.len() == 0 ==> v.outcome(Action::DeleteOrEof)
            == StepView::Failed(ReadlineError::Eof),
        v.before.len() + v.after.len() > 0 ==> v.outcome(Action::DeleteOrEof)
            == StepView::Continue,
        action != Action::Interrupt && action != Action::Accept && action != Action::DeleteOrEof
            ==> v.outcome(action) == StepView::Continue,
{
}

/// On a terminal that is wide enough for the prompt and the cursor every command can be carried
/// out, as long as the place in the history can be counted on. On a narrower one only those can
/// that have nothing to do.
pub proof fn law_what_can_be_carried_out(
    v: StateView,
    entries: Option<Seq<Seq<char>>>,
    action: Action,
)
    ensures
        v.prompt_width < v.cols && v.history_index < usize::MAX ==> v.applicable(entries, action),
        v.prompt_width < v.cols && action != Action::HistoryNext ==> v.applicable(entries, action),
        v.prompt_width >= v.cols ==> (v.applicable(entries, action) <==> v.after_action(
            entries,
            action,
        ) == v),
        action == Action::HistoryNext && v.history_index >= usize::MAX ==> (v.applicable(
            entries,
            action,
        ) <==> v.after_action(entries, action) == v),
{
}

/// A character that completes no command changes the editor in nothing; one that completes a
/// command that can be carried out leaves it where the command does; and one that completes any
/// other command is refused.
pub proof fn law_step(
    v: StateView,
    pending: Pending,
    entries: Option<Seq<Seq<char>>>,
    ch: char,
    action: Action,
)
    ensures
        decoded(pending, ch).1 == None::<Action> ==> stepped(v, pending, entries, ch) == Some(
            (v, decoded(pending, ch).0, StepView::Continue),
        ),
        decoded(pending, ch).1 == Some(action) && v.applicable(entries, action) ==> stepped(
            v,
            pending,
            entries,
            ch,
        ) == Some(
            (v.after_action(entries, action), decoded(pending, ch).0, v.outcome(action)),
        ),
        decoded(pending, ch).1 == Some(action) && !v.applicable(entries, action) ==> stepped(
            v,
            pending,
            entries,
            ch,
        ) is None,
{
}

/// A history is shown by its entries, and what comes of a character by its text or error.
pub proof fn law_what_is_shown(history: History, line: String, error: ReadlineError)
    ensures
        entries_of(Some(history)) == Some(history@),
        entries_of(None) == None::<Seq<Seq<char>>>,
        Step::Continue@ == StepView::Continue,
        Step::Accepted(line)@ == StepView::Accepted(line@),
        Step::Failed(error)@ == StepView::Failed(error),
{
}

} // verus!
