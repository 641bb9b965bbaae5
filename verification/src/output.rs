//! The writes that the editor wants done on the terminal.

use vstd::prelude::*;

use crate::screen::home_and_clear;

verus! {

/// Writes in the order in which they are to reach the terminal, which is to be flushed after
/// each of them.
#[derive(Debug)]
pub struct Output {
    pub writes: Vec<Vec<u8>>,
}

impl View for Output {
    type V = Seq<Seq<u8>>;

    open spec fn view(&self) -> Seq<Seq<u8>> {
        self.writes@.map_values(|write: Vec<u8>| write@)
    }
}

impl Output {
    /// Nothing to write yet.
    pub fn new() -> (res: Output)
        ensures
            res@ == Seq::<Seq<u8>>::empty(),
    {
        let res = Output { writes: Vec::new() };
        assert(res@ == Seq::<Seq<u8>>::empty());
        res
    }

    /// Hands the pending writes over and forgets them.
    pub fn take(&mut self) -> (res: Vec<Vec<u8>>)
        ensures
            res@.map_values(|write: Vec<u8>| write@) == old(self)@,
            final(self)@ == Seq::<Seq<u8>>::empty(),
    {
        let mut res: Vec<Vec<u8>> = Vec::new();
        std::mem::swap(&mut res, &mut self.writes);
        assert(self@ == Seq::<Seq<u8>>::empty());
        res
    }
}

/// Asks for `buf` to be written and the terminal to be flushed.
pub fn write_and_flush(w: &mut Output, buf: &[u8])
    ensures
        final(w)@ == old(w)@.push(buf@),
{
    let write = vstd::slice::slice_to_vec(buf);
    w.writes.push(write);
    assert(w@ == old(w)@.push(buf@));
}

/// Clears the screen. Used to handle ctrl+l.
pub fn clear_screen(out: &mut Output)
    ensures
        final(out)@ == old(out)@.push(home_and_clear()),
{
    let sequence: [u8; 7] = [0x1b, 0x5b, 0x48, 0x1b, 0x5b, 0x32, 0x4a];
    assert(sequence@ == home_and_clear());
    write_and_flush(out, sequence.as_slice());
}

/// The writes are shown as they are, in their order.
pub proof fn law_what_an_output_holds(out: &Output)
    ensures
        out@.len() == out.writes@.len(),
        forall|i: int| 0 <= i < out@.len() ==> #[trigger] out@[i] == out.writes@[i]@,
{
}

} // verus!
