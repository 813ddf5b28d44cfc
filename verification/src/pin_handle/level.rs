//! Signal levels and the store of the levels last observed.

use std::collections::HashMap;
use vstd::prelude::*;

verus! {

broadcast use vstd::std_specs::hash::group_hash_axioms;

/// The level of a signal line.
#[derive(Debug, Clone, Copy, PartialEq, Eq, Structural)]
pub enum PinLevel {
    High,
    Low,
}

/// One edge notification: the identifier of the line and its new level.
pub type PinSignal = (usize, PinLevel);

/// The level that the last of `signals` for line `pin_id` brought; `None` if
/// none of them is for the line.
pub open spec fn last_level(signals: Seq<PinSignal>, pin_id: usize) -> Option<PinLevel>
    decreases signals.len(),
{
    if signals.len() == 0 {
        None
    } else if signals.last().0 == pin_id {
        Some(signals.last().1)
    } else {
        last_level(signals.drop_last(), pin_id)
    }
}

/// Writing one more signal gives its line the level that it brought and leaves
/// every other line the level that it had.
pub broadcast proof fn lemma_last_level_push(
    signals: Seq<PinSignal>,
    signal: PinSignal,
    pin_id: usize,
)
    ensures
        #[trigger] last_level(signals.push(signal), pin_id) == (if signal.0 == pin_id {
            Some(signal.1)
        } else {
            last_level(signals, pin_id)
        }),
{
    assert(signals.push(signal).drop_last() == signals);
}

/// The last observed level of every line that has been observed at all.
///
/// What a store holds is told by the signals written to it, in their order:
/// the level of a line is that of the last signal for the line. A line has no
/// level before its first signal, and none is ever taken away. The store
/// itself keeps one entry for each line, not the signals.
pub struct LevelStore {
    levels: HashMap<usize, PinLevel>,
    written: Ghost<Seq<PinSignal>>,
}

impl View for LevelStore {
    type V = Seq<PinSignal>;

    /// The signals written so far, in their order.
    closed spec fn view(&self) -> Seq<PinSignal> {
        self.written@
    }
}

impl LevelStore {
    #[verifier::type_invariant]
    spec fn keeps_last_levels(self) -> bool {
        forall|pin_id: usize|
            self.levels@.get(pin_id) == #[trigger] last_level(self.written@, pin_id)
    }

    /// A store to which nothing has been written.
    pub fn new() -> (store: Self)
        ensures
            store@ == Seq::<PinSignal>::empty(),
    {
        LevelStore { levels: HashMap::new(), written: Ghost(Seq::empty()) }
    }

    /// The level of the last signal written for `pin_id`, or `None` if none
    /// was ever written.
    pub fn get(&self, pin_id: usize) -> (level: Option<PinLevel>)
        ensures
            level == last_level(self@, pin_id),
    {
        proof {
            use_type_invariant(self);
        }
        match self.levels.get(&pin_id) {
            None => None,
            Some(level) => Some(*level),
        }
    }

    /// Writes the signal `(pin_id, level)`, whatever level the line had, and
    /// returns the level that it had.
    pub fn set(&mut self, pin_id: usize, level: PinLevel) -> (previous: Option<PinLevel>)
        ensures
            final(self)@ == old(self)@.push((pin_id, level)),
            previous == last_level(old(self)@, pin_id),
    {
        proof {
            use_type_invariant(&*self);
        }
        // The table and the record of what was written change together: the
        // store is taken apart and put together again.
        let mut taken = LevelStore::new();
        std::mem::swap(self, &mut taken);
        let LevelStore { mut levels, written } = taken;
        let previous = levels.insert(pin_id, level);
        proof {
            assert forall|id: usize|
                levels@.get(id) == #[trigger] last_level(written@.push((pin_id, level)), id) by {
                lemma_last_level_push(written@, (pin_id, level), id);
            }
        }
        *self = LevelStore { levels, written: Ghost(written@.push((pin_id, level))) };
        previous
    }
}

} // verus!
