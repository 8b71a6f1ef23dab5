//! The control block: one shared allocation per managed value, holding the
//! value itself together with its strong and weak reference counters.
//!
//! A block moves through three states, and only forward:
//! * `Live` — at least one strong handle exists; the value may be read.
//! * `Dead` — the last strong handle is gone and the value has been
//!   destroyed, but weak handles remain, so the bookkeeping stays allocated.
//! * `Freed` — both counters reached zero and the allocation was reclaimed.
//!   No handle can reach a freed block, so freeing happens at most once.

use vstd::prelude::*;

verus! {

/// One control block. `Live` carries the managed value and both counters;
/// `Dead` keeps only the weak counter for the weak handles that survive the
/// value; `Freed` is the reclaimed state.
pub enum Block<T> {
    Live { value: T, strong: usize, weak: usize },
    Dead { weak: usize },
    Freed,
}

impl<T> Block<T> {
    /// A live block is held by at least one strong handle; a dead block is
    /// held by at least one weak handle (otherwise it would have been freed).
    pub open spec fn wf(self) -> bool {
        match self {
            Block::Live { strong, .. } => strong >= 1,
            Block::Dead { weak } => weak >= 1,
            Block::Freed => true,
        }
    }

    /// The strong count: the number of outstanding strong handles.
    pub open spec fn strong(self) -> nat {
        match self {
            Block::Live { strong, .. } => strong as nat,
            Block::Dead { .. } => 0,
            Block::Freed => 0,
        }
    }

    /// The weak count: the number of outstanding weak handles.
    pub open spec fn weak(self) -> nat {
        match self {
            Block::Live { weak, .. } => weak as nat,
            Block::Dead { weak } => weak as nat,
            Block::Freed => 0,
        }
    }

    /// The managed value, meaningful only while the block is live.
    pub open spec fn value(self) -> T {
        match self {
            Block::Live { value, .. } => value,
            _ => arbitrary(),
        }
    }
}

} // verus!
