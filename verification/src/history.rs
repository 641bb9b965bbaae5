//! The lines that were entered before.

use vstd::prelude::*;

verus! {

/// The lines that were entered before, oldest first.
#[derive(Debug)]
pub struct History {
    pub entries: Vec<String>,
}

impl View for History {
    type V = Seq<Seq<char>>;

    open spec fn view(&self) -> Seq<Seq<char>> {
        self.entries@.map_values(|entry: String| entry@)
    }
}

impl History {
    /// An empty history.
    pub fn new() -> (res: History)
        ensures
            res@ == Seq::<Seq<char>>::empty(),
    {
        let res = History { entries: Vec::new() };
        assert(res@ == Seq::<Seq<char>>::empty());
        res
    }

    /// The number of entries.
    pub fn len(&self) -> (res: usize)
        ensures
            res == self@.len(),
    {
        self.entries.len()
    }

    /// The entry number `index`, counted from the oldest.
    pub fn get(&self, index: usize) -> (res: Option<&String>)
        ensures
            res is Some <==> index < self@.len(),
            res matches Some(entry) ==> entry@ == self@[index as int],
    {
        if index < self.entries.len() {
            Some(&self.entries[index])
        } else {
            None
        }
    }

    /// Adds `line` as the newest entry.
    pub fn add(&mut self, line: &str)
        ensures
            final(self)@ == old(self)@.push(line@),
    {
        self.entries.push(line.to_owned());
        assert(self@ == old(self)@.push(line@));
    }
}

/// A history shows its entries as they are, in their order.
pub proof fn law_what_a_history_holds(history: &History)
    ensures
        history@.len() == history.entries@.len(),
        forall|i: int|
            0 <= i < history@.len() ==> #[trigger] history@[i] == history.entries@[i]@,
{
}

} // verus!
