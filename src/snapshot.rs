//! Change-tracking cells over values read from the game.
use vstd::prelude::*;

verus! {

/// The value seen at the previous successful poll and the one seen now.
#[derive(Clone, Copy, Debug)]
pub struct Pair<T> {
    pub old: T,
    pub current: T,
}

/// A change-tracking cell: empty until its first value, then the last two
/// values committed to it.
#[derive(Clone, Copy, Debug)]
pub struct Snapshot<T> {
    pub pair: Option<Pair<T>>,
}

impl<T: Copy> Snapshot<T> {
    /// An empty cell.
    pub fn new() -> (r: Self)
        ensures
            r.pair is None,
    {
        Snapshot { pair: None }
    }

    /// The cell after `value` is committed to it: the first value fills
    /// both slots, a later one shifts `current` into `old`.
    pub open spec fn shifted(self, value: T) -> Self {
        match self.pair {
            None => Snapshot { pair: Some(Pair { old: value, current: value }) },
            Some(p) => Snapshot { pair: Some(Pair { old: p.current, current: value }) },
        }
    }

    /// Commits a newly read value.
    pub fn update(&mut self, value: T)
        ensures
            *final(self) == old(self).shifted(value),
    {
        match self.pair {
            None => {
                self.pair = Some(Pair { old: value, current: value });
            },
            Some(p) => {
                self.pair = Some(Pair { old: p.current, current: value });
            },
        }
    }
}

} // verus!
