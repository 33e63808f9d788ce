//! The trail of instruction words most recently carried out.

use vstd::prelude::*;

verus! {

/// The number of instruction words the trail keeps.
pub const HISTORY_LENGTH: usize = 20;

/// The trail `trail` with `opcode` added at its end; the oldest word leaves
/// when that makes more than twenty.
pub open spec fn recorded(trail: Seq<u16>, opcode: u16) -> Seq<u16> {
    if trail.len() < 20 {
        trail.push(opcode)
    } else {
        trail.push(opcode).drop_first()
    }
}

/// The last twenty instruction words, oldest first.
#[derive(Clone, Debug, PartialEq, Eq)]
pub struct History {
    pub(crate) words: Vec<u16>,
}

impl History {
    /// The words on the trail, oldest first.
    pub open(crate) spec fn view(&self) -> Seq<u16> {
        self.words@
    }

    /// A trail never holds more than twenty words.
    pub open spec fn wf(&self) -> bool {
        self@.len() <= 20
    }

    /// An empty trail.
    pub fn new() -> (history: History)
        ensures
            history@ == Seq::<u16>::empty(),
            history.wf(),
    {
        History { words: Vec::new() }
    }

    /// Adds `opcode` as the newest word.
    pub fn record(&mut self, opcode: u16)
        requires
            old(self).wf(),
        ensures
            final(self).wf(),
            final(self)@ == recorded(old(self)@, opcode),
    {
        self.words.push(opcode);
        if self.words.len() > 20 {
            self.words.remove(0);
        }
    }

    /// The words on the trail, oldest first.
    pub fn words(&self) -> (words: &[u16])
        ensures
            words@ == self@,
    {
        self.words.as_slice()
    }
}

} // verus!
