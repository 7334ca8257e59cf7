//! The old/current tracker of one quantity read from the game's memory.
use vstd::prelude::*;

verus! {

/// The previous and the current value of a watched quantity.
#[derive(Clone, Copy, Debug, PartialEq, Eq)]
pub struct Pair<T> {
    pub old: T,
    pub current: T,
}

/// The pair after one read: a successful read shifts `current` into `old`;
/// a failed read changes nothing. Before the first successful read there is
/// no pair, and the first one takes `initial` as its `old`.
pub open spec fn step<T>(pair: Option<Pair<T>>, initial: T, value: Option<T>) -> Option<Pair<T>> {
    match value {
        Some(v) => match pair {
            Some(p) => Some(Pair { old: p.current, current: v }),
            None => Some(Pair { old: initial, current: v }),
        },
        None => pair,
    }
}

/// The pair after a sequence of reads, from `pair`.
pub open spec fn replay<T>(pair: Option<Pair<T>>, initial: T, reads: Seq<Option<T>>) -> Option<Pair<T>>
    decreases reads.len(),
{
    if reads.len() == 0 {
        pair
    } else {
        step(replay(pair, initial, reads.drop_last()), initial, reads.last())
    }
}

/// The values of the successful reads, in order.
pub open spec fn successes<T>(reads: Seq<Option<T>>) -> Seq<T>
    decreases reads.len(),
{
    if reads.len() == 0 {
        Seq::empty()
    } else {
        let rest = successes(reads.drop_last());
        match reads.last() {
            Some(v) => rest.push(v),
            None => rest,
        }
    }
}

/// A watched quantity: the offsets of its pointer path and its history.
pub struct Watcher<T> {
    pub offsets: Vec<u64>,
    pub initial: T,
    pub pair: Option<Pair<T>>,
}

impl<T: Copy> Watcher<T> {
    /// A watcher with no history, reached through `offsets`, whose first
    /// `old` value is `initial`.
    pub fn new(offsets: Vec<u64>, initial: T) -> (r: Watcher<T>)
        ensures
            r.offsets@ == offsets@,
            r.initial == initial,
            r.pair is None,
    {
        Watcher { offsets, initial, pair: None }
    }

    /// Takes in the result of one read of the quantity, and returns the pair
    /// if there has been a successful read so far.
    pub fn update(&mut self, value: Option<T>) -> (r: Option<Pair<T>>)
        ensures
            final(self).pair == step(old(self).pair, old(self).initial, value),
            final(self).initial == old(self).initial,
            final(self).offsets@ == old(self).offsets@,
            r == final(self).pair,
    {
        match value {
            Some(v) => {
                let old_value = match self.pair {
                    Some(p) => p.current,
                    None => self.initial,
                };
                self.pair = Some(Pair { old: old_value, current: v });
            },
            None => {},
        }
        self.pair
    }
}

/// After any sequence of reads, failed ones included, a watcher's `current`
/// is the value of the last successful read and its `old` the value of the
/// one before it, or the initial value when there was only one.
pub proof fn lemma_history_follows_successes<T>(initial: T, reads: Seq<Option<T>>)
    ensures
        ({
            let s = successes(reads);
            let p = replay(None, initial, reads);
            &&& s.len() == 0 <==> p is None
            &&& s.len() >= 1 ==> p->Some_0.current == s[s.len() - 1]
            &&& s.len() >= 2 ==> p->Some_0.old == s[s.len() - 2]
            &&& s.len() == 1 ==> p->Some_0.old == initial
        }),
    decreases reads.len(),
{
    if reads.len() > 0 {
        lemma_history_follows_successes(initial, reads.drop_last());
    }
}

/// A failed read leaves a watcher's history as it was.
pub proof fn lemma_failed_read_is_no_op<T>(pair: Option<Pair<T>>, initial: T, reads: Seq<Option<T>>)
    ensures
        replay(pair, initial, reads.push(None)) == replay(pair, initial, reads),
{
    assert(reads.push(None).drop_last() =~= reads);
}

} // verus!
