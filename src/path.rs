//! The walk along a pointer path in the game's memory.
//!
//! A path is a base address and a list of offsets. The first offset is
//! added to the base; every later one is added to the pointer read at the
//! address reached so far. The last address holds the watched value itself.
//! The walk decides the addresses; the host does the reads and hands each
//! pointer back, and gives up on the whole path when one read fails.
use vstd::prelude::*;

verus! {

/// What the host reads next.
#[derive(Clone, Copy, Debug, PartialEq, Eq, Structural)]
pub enum PathRead {
    /// A pointer (eight bytes) at this address, to be handed to `follow`.
    Pointer(u64),
    /// The watched value at this address: the end of the path.
    Value(u64),
}

/// The address of the `k`-th read of a path, where `pointers` holds the
/// pointers read before it.
pub open spec fn read_address(base: u64, offsets: Seq<u64>, pointers: Seq<u64>) -> u64 {
    if pointers.len() == 0 {
        base.wrapping_add(offsets[0])
    } else {
        pointers.last().wrapping_add(offsets[pointers.len() as int])
    }
}

/// A walk in progress along a pointer path.
pub struct PointerWalk {
    pub offsets: Vec<u64>,
    pub index: usize,
    pub address: u64,
}

impl PointerWalk {
    /// The walk is at one of the path's offsets.
    pub open spec fn wf(&self) -> bool {
        self.index < self.offsets@.len()
    }

    /// Whether the current address holds the value rather than a pointer.
    pub open spec fn spec_at_value(&self) -> bool {
        self.index + 1 == self.offsets@.len()
    }

    /// Starts a walk at `base`; `None` for a path with no offsets.
    pub fn new(base: u64, offsets: Vec<u64>) -> (r: Option<PointerWalk>)
        ensures
            r is None <==> offsets@.len() == 0,
            r matches Some(w) ==> {
                &&& w.wf()
                &&& w.offsets@ == offsets@
                &&& w.index == 0
                &&& w.address == read_address(base, offsets@, Seq::empty())
            },
    {
        if offsets.len() == 0 {
            None
        } else {
            let address = base.wrapping_add(offsets[0]);
            Some(PointerWalk { offsets, index: 0, address })
        }
    }

    /// The read that the walk waits for.
    pub fn next_read(&self) -> (r: PathRead)
        requires
            self.wf(),
        ensures
            self.spec_at_value() ==> r == PathRead::Value(self.address),
            !self.spec_at_value() ==> r == PathRead::Pointer(self.address),
    {
        if self.index == self.offsets.len() - 1 {
            PathRead::Value(self.address)
        } else {
            PathRead::Pointer(self.address)
        }
    }

    /// Goes on from the pointer read at the current address.
    pub fn follow(&mut self, pointer: u64)
        requires
            old(self).wf(),
            !old(self).spec_at_value(),
        ensures
            final(self).wf(),
            final(self).offsets@ == old(self).offsets@,
            final(self).index == old(self).index + 1,
            final(self).address == pointer.wrapping_add(old(self).offsets@[old(self).index + 1]),
    {
        let n = self.offsets.len();
        assert(self.index < n - 1);
        self.index = self.index + 1;
        self.address = pointer.wrapping_add(self.offsets[self.index]);
    }
}

} // verus!
