//! What is decided about the terminal before a line is read.

use vstd::prelude::*;

use crate::error::{from_errno, Errno, ReadlineError};
use crate::strings::same_but_for_case;

verus! {

/// Unsupported terminals that don't support RAW mode.
pub open spec fn unsupported_terms() -> Seq<Seq<char>> {
    seq!["dumb"@, "cons25"@, "emacs"@]
}

/// The terminal type `term` is one of the unsupported ones, in whatever case it is written. With
/// no terminal type nothing is known to be unsupported.
pub open spec fn is_unsupported(term: Option<Seq<char>>) -> bool {
    match term {
        Some(name) => exists|i: int|
            0 <= i < unsupported_terms().len() && same_but_for_case(
                #[trigger] unsupported_terms()[i],
                name,
            ),
        None => false,
    }
}

/// The characters of a terminal type, where there is one.
pub open spec fn term_name(term: Option<&str>) -> Option<Seq<char>> {
    match term {
        Some(name) => Some(name@),
        None => None,
    }
}

/// Check to see if the terminal type `term` is unsupported.
pub fn is_unsupported_term(term: Option<&str>) -> (res: bool)
    ensures
        res == is_unsupported(term_name(term)),
{
    match term {
        Some(name) => {
            let dumb = "dumb".eq_ignore_ascii_case(name);
            let cons25 = "cons25".eq_ignore_ascii_case(name);
            let emacs = "emacs".eq_ignore_ascii_case(name);
            proof {
                let terms = unsupported_terms();
                assert(terms[0] == "dumb"@ && terms[1] == "cons25"@ && terms[2] == "emacs"@);
            }
            dumb || cons25 || emacs
        },
        None => false,
    }
}

/// How a line is read.
#[derive(Clone, Copy, Debug, PartialEq, Eq, Structural)]
pub enum ReadMode {
    /// Show the prompt and take the line as the system delivers it.
    Direct,
    /// Show the prompt and edit the line in raw mode.
    Raw,
}

/// How a line is read from the terminal type `term`, where `tty` says whether the input is a
/// terminal at all. The prompt is shown either way.
pub fn read_mode(term: Option<&str>, tty: bool) -> (res: ReadMode)
    ensures
        res == (if tty && !is_unsupported(term_name(term)) {
            ReadMode::Raw
        } else {
            ReadMode::Direct
        }),
{
    if is_unsupported_term(term) {
        ReadMode::Direct
    } else if tty {
        ReadMode::Raw
    } else {
        ReadMode::Direct
    }
}

/// Raw mode can be had on a terminal only.
pub fn require_tty(tty: bool) -> (res: Result<(), ReadlineError>)
    ensures
        res == (if tty {
            Ok(())
        } else {
            Err(ReadlineError::Errno(Errno::ENOTTY))
        }),
{
    if !tty {
        Err(from_errno(Errno::ENOTTY))
    } else {
        Ok(())
    }
}

/// The number of columns to assume, given what the terminal says of itself: 80 if it says
/// nothing.
pub fn columns_or_default(reported: Option<u16>) -> (res: usize)
    ensures
        res == (match reported {
            Some(cols) => cols as int,
            None => 80,
        }),
{
    match reported {
        Some(cols) => cols as usize,
        None => 80,
    }
}

/// The settings of a terminal, each group of flags as a bit set.
#[derive(Debug)]
pub struct Attributes {
    pub input: u64,
    pub output: u64,
    pub control: u64,
    pub local: u64,
    pub control_chars: Vec<u8>,
}

/// The bits that the system uses for the flags that raw mode is about, and the places of the two
/// control characters.
#[derive(Clone, Copy, Debug)]
pub struct FlagBits {
    pub brkint: u64,
    pub icrnl: u64,
    pub inpck: u64,
    pub istrip: u64,
    pub ixon: u64,
    pub opost: u64,
    pub cs8: u64,
    pub echo: u64,
    pub icanon: u64,
    pub iexten: u64,
    pub isig: u64,
    pub vmin: usize,
    pub vtime: usize,
}

impl FlagBits {
    /// The input flags that raw mode clears.
    pub open spec fn input_off(self) -> u64 {
        self.brkint | self.icrnl | self.inpck | self.istrip | self.ixon
    }

    /// The local flags that raw mode clears.
    pub open spec fn local_off(self) -> u64 {
        self.echo | self.icanon | self.iexten | self.isig
    }

    /// The settings `raw` are `from` turned into raw mode: characters come one by one, as they
    /// are typed, without echo and without being acted on, and output goes out as it is.
    pub open spec fn makes_raw(self, from: &Attributes, raw: &Attributes) -> bool {
        &&& raw.input == from.input & !self.input_off()
        &&& raw.output == from.output & !self.opost
        &&& raw.control == from.control | self.cs8
        &&& raw.local == from.local & !self.local_off()
        &&& raw.control_chars@ == from.control_chars@.update(self.vmin as int, 1).update(
            self.vtime as int,
            0,
        )
    }
}

/// Turns the settings of a terminal into those of raw mode.
pub fn make_raw(attributes: Attributes, bits: FlagBits) -> (res: Attributes)
    requires
        bits.vmin < attributes.control_chars.len(),
        bits.vtime < attributes.control_chars.len(),
    ensures
        bits.makes_raw(&attributes, &res),
{
    let mut raw = attributes;
    raw.input = raw.input & !(bits.brkint | bits.icrnl | bits.inpck | bits.istrip | bits.ixon);
    raw.output = raw.output & !bits.opost;
    raw.control = raw.control | bits.cs8;
    raw.local = raw.local & !(bits.echo | bits.icanon | bits.iexten | bits.isig);
    raw.control_chars.set(bits.vmin, 1);
    raw.control_chars.set(bits.vtime, 0);
    raw
}

/// In raw mode each of the flags that it is about is as it should be.
pub proof fn law_raw_mode_flags(bits: FlagBits, from: &Attributes, raw: &Attributes)
    requires
        bits.makes_raw(from, raw),
        bits.vmin < from.control_chars@.len(),
        bits.vtime < from.control_chars@.len(),
    ensures
        raw.input & bits.brkint == 0,
        raw.input & bits.icrnl == 0,
        raw.input & bits.inpck == 0,
        raw.input & bits.istrip == 0,
        raw.input & bits.ixon == 0,
        raw.output & bits.opost == 0,
        raw.control & bits.cs8 == bits.cs8,
        raw.local & bits.echo == 0,
        raw.local & bits.icanon == 0,
        raw.local & bits.iexten == 0,
        raw.local & bits.isig == 0,
        bits.vmin != bits.vtime ==> raw.control_chars@[bits.vmin as int] == 1,
        raw.control_chars@[bits.vtime as int] == 0,
{
    let (i, o, c, l) = (from.input, from.output, from.control, from.local);
    let (b1, b2, b3, b4, b5) = (bits.brkint, bits.icrnl, bits.inpck, bits.istrip, bits.ixon);
    let (l1, l2, l3, l4) = (bits.echo, bits.icanon, bits.iexten, bits.isig);
    let (p, s) = (bits.opost, bits.cs8);
    assert({
        let r = i & !(b1 | b2 | b3 | b4 | b5);
        r & b1 == 0 && r & b2 == 0 && r & b3 == 0 && r & b4 == 0 && r & b5 == 0
    }) by (bit_vector);
    assert({
        let r = l & !(l1 | l2 | l3 | l4);
        r & l1 == 0 && r & l2 == 0 && r & l3 == 0 && r & l4 == 0
    }) by (bit_vector);
    assert((o & !p) & p == 0) by (bit_vector);
    assert((c | s) & s == s) by (bit_vector);
}

/// Raw mode leaves the flags that it is not about as they were.
pub proof fn law_raw_mode_keeps_other_flags(
    bits: FlagBits,
    from: &Attributes,
    raw: &Attributes,
    flag: u64,
)
    requires
        bits.makes_raw(from, raw),
    ensures
        flag & bits.input_off() == 0 ==> raw.input & flag == from.input & flag,
        flag & bits.opost == 0 ==> raw.output & flag == from.output & flag,
        flag & bits.cs8 == 0 ==> raw.control & flag == from.control & flag,
        flag & bits.local_off() == 0 ==> raw.local & flag == from.local & flag,
{
    let (i, o, c, l) = (from.input, from.output, from.control, from.local);
    let (m, n, p, s) = (bits.input_off(), bits.local_off(), bits.opost, bits.cs8);
    assert(flag & m == 0 ==> (i & !m) & flag == i & flag) by (bit_vector);
    assert(flag & n == 0 ==> (l & !n) & flag == l & flag) by (bit_vector);
    assert(flag & p == 0 ==> (o & !p) & flag == o & flag) by (bit_vector);
    assert(flag & s == 0 ==> (c | s) & flag == c & flag) by (bit_vector);
}

/// Turning raw mode into raw mode changes nothing.
pub proof fn law_raw_mode_is_idempotent(
    bits: FlagBits,
    from: &Attributes,
    raw: &Attributes,
    again: &Attributes,
)
    requires
        bits.makes_raw(from, raw),
        bits.makes_raw(raw, again),
        bits.vmin < from.control_chars@.len(),
        bits.vtime < from.control_chars@.len(),
    ensures
        again.input == raw.input,
        again.output == raw.output,
        again.control == raw.control,
        again.local == raw.local,
        again.control_chars@ == raw.control_chars@,
{
    let (i, o, c, l) = (from.input, from.output, from.control, from.local);
    let (m, n, p, s) = (bits.input_off(), bits.local_off(), bits.opost, bits.cs8);
    assert((i & !m) & !m == i & !m) by (bit_vector);
    assert((l & !n) & !n == l & !n) by (bit_vector);
    assert((o & !p) & !p == o & !p) by (bit_vector);
    assert((c | s) | s == c | s) by (bit_vector);
    assert(again.control_chars@ == raw.control_chars@);
}

/// A terminal type is unsupported exactly where it is "dumb", "cons25" or "emacs", in whatever
/// case it is written. Having none is not.
pub proof fn law_unsupported_terminals(term: &str)
    ensures
        is_unsupported(term_name(Some(term))) <==> same_but_for_case("dumb"@, term@)
            || same_but_for_case("cons25"@, term@) || same_but_for_case("emacs"@, term@),
        !is_unsupported(term_name(None)),
{
    let terms = unsupported_terms();
    assert(terms[0] == "dumb"@ && terms[1] == "cons25"@ && terms[2] == "emacs"@);
}

/// Raw mode keeps every flag that is none of those it is about, and every control character but
/// the two it sets, of which the second counts where they share a place.
pub proof fn law_raw_mode_keeps_everything_else(
    bits: FlagBits,
    from: &Attributes,
    raw: &Attributes,
    flag: u64,
)
    requires
        bits.makes_raw(from, raw),
        bits.vmin < from.control_chars@.len(),
        bits.vtime < from.control_chars@.len(),
    ensures
        flag & bits.brkint == 0 && flag & bits.icrnl == 0 && flag & bits.inpck == 0 && flag
            & bits.istrip == 0 && flag & bits.ixon == 0 ==> raw.input & flag == from.input & flag,
        flag & bits.opost == 0 ==> raw.output & flag == from.output & flag,
        flag & bits.cs8 == 0 ==> raw.control & flag == from.control & flag,
        flag & bits.echo == 0 && flag & bits.icanon == 0 && flag & bits.iexten == 0 && flag
            & bits.isig == 0 ==> raw.local & flag == from.local & flag,
        raw.control_chars@.len() == from.control_chars@.len(),
        forall|i: int|
            0 <= i < from.control_chars@.len() && i != bits.vmin && i != bits.vtime
                ==> #[trigger] raw.control_chars@[i] == from.control_chars@[i],
        raw.control_chars@[bits.vtime as int] == 0,
{
    let (i, l) = (from.input, from.local);
    let (b1, b2, b3, b4, b5) = (bits.brkint, bits.icrnl, bits.inpck, bits.istrip, bits.ixon);
    let (l1, l2, l3, l4) = (bits.echo, bits.icanon, bits.iexten, bits.isig);
    law_raw_mode_keeps_other_flags(bits, from, raw, flag);
    assert(flag & b1 == 0 && flag & b2 == 0 && flag & b3 == 0 && flag & b4 == 0 && flag & b5 == 0
        ==> (i & !(b1 | b2 | b3 | b4 | b5)) & flag == i & flag) by (bit_vector);
    assert(flag & l1 == 0 && flag & l2 == 0 && flag & l3 == 0 && flag & l4 == 0 ==> (l & !(l1 | l2
        | l3 | l4)) & flag == l & flag) by (bit_vector);
}

} // verus!
