//! A reduced single-threaded owning handle: reference counting with no weak
//! handles at all. One counter, one rule — the value and its control block
//! go together, freed the instant the last handle is disposed of.

use vstd::prelude::*;

use crate::block::Block;

verus! {

/// The arena holding every control block of this handle family. With no
/// weak handles, every block is either live with a weak count of zero, or
/// freed.
pub struct MyRcHeap<T> {
    blocks: Vec<Block<T>>,
}

/// An owning handle: shares ownership of the value in its control block.
pub struct MyRc {
    i: usize,
}

impl MyRc {
    /// The index of the control block this handle refers to.
    pub closed spec fn id(self) -> int {
        self.i as int
    }
}

impl<T> View for MyRcHeap<T> {
    type V = Seq<Block<T>>;

    closed spec fn view(&self) -> Seq<Block<T>> {
        self.blocks@
    }
}

impl<T> MyRcHeap<T> {
    /// Every block is well formed, no block outlives its value, and no
    /// block carries a weak count: this family has no weak handles.
    pub open spec fn wf(self) -> bool {
        forall|i: int|
            0 <= i < self@.len() ==> {
                &&& (#[trigger] self@[i]).wf()
                &&& !(self@[i] is Dead)
                &&& self@[i].weak() == 0
            }
    }

    /// The reference count of block `i`.
    pub open spec fn count_at(self, i: int) -> nat {
        self@[i].strong()
    }

    /// The value managed by block `i`, meaningful while the block is live.
    pub open spec fn value_at(self, i: int) -> T {
        self@[i].value()
    }

    /// Block `i` holds a living value.
    pub open spec fn is_live(self, i: int) -> bool {
        0 <= i < self@.len() && self@[i] is Live
    }

    /// Block `i` has been reclaimed.
    pub open spec fn is_freed(self, i: int) -> bool {
        0 <= i < self@.len() && self@[i] is Freed
    }

    /// A handle is valid while its block is live.
    pub open spec fn valid(self, rc: MyRc) -> bool {
        self.is_live(rc.id())
    }

    /// The heaps agree on every block but `i`.
    pub open spec fn agrees_except(self, other: Self, i: int) -> bool {
        &&& self@.len() == other@.len()
        &&& forall|j: int| 0 <= j < other@.len() && j != i ==> self@[j] == other@[j]
    }

    /// An empty arena: no control block has been allocated yet.
    pub fn new() -> (h: Self)
        ensures
            h.wf(),
            h@.len() == 0,
    {
        MyRcHeap { blocks: Vec::new() }
    }
}

impl MyRc {
    /// Constructs the first handle to a fresh value: a new control block is
    /// allocated with reference count 1.
    pub fn new<T>(heap: &mut MyRcHeap<T>, value: T) -> (rc: MyRc)
        requires
            old(heap).wf(),
        ensures
            final(heap).wf(),
            final(heap)@.len() == old(heap)@.len() + 1,
            forall|j: int| 0 <= j < old(heap)@.len() ==> final(heap)@[j] == old(heap)@[j],
            rc.id() == old(heap)@.len(),
            final(heap).valid(rc),
            final(heap).count_at(rc.id()) == 1,
            final(heap).value_at(rc.id()) == value,
    {
        let i = heap.blocks.len();
        heap.blocks.push(Block::Live { value, strong: 1, weak: 0 });
        MyRc { i }
    }

    /// Duplicates this handle: the reference count rises by one and a second
    /// handle to the same block is returned. Nothing else changes.
    pub fn clone<T>(&self, heap: &mut MyRcHeap<T>) -> (other: MyRc)
        requires
            old(heap).wf(),
            old(heap).valid(*self),
            old(heap).count_at(self.id()) < usize::MAX,
        ensures
            final(heap).wf(),
            final(heap).agrees_except(*old(heap), self.id()),
            other.id() == self.id(),
            final(heap).valid(*self),
            final(heap).valid(other),
            final(heap).count_at(self.id()) == old(heap).count_at(self.id()) + 1,
            final(heap).value_at(self.id()) == old(heap).value_at(self.id()),
    {
        match &mut heap.blocks[self.i] {
            Block::Live { strong, .. } => {
                *strong = *strong + 1;
            },
            _ => {
                proof {
                    assert(false);
                }
            },
        }
        MyRc { i: self.i }
    }

    /// Reads the managed value. A handle in existence is proof that the
    /// count is at least one, so the value has not been destroyed.
    pub fn get<'a, T>(&self, heap: &'a MyRcHeap<T>) -> (v: &'a T)
        requires
            heap.valid(*self),
        ensures
            *v == heap.value_at(self.id()),
    {
        match &heap.blocks[self.i] {
            Block::Live { value, .. } => value,
            _ => unreached(),
        }
    }

    /// The reference count of this handle's block.
    pub fn ref_count<T>(&self, heap: &MyRcHeap<T>) -> (n: usize)
        requires
            self.id() < heap@.len(),
        ensures
            n == heap.count_at(self.id()),
    {
        match &heap.blocks[self.i] {
            Block::Live { strong, .. } => *strong,
            _ => 0,
        }
    }

    /// Gives up this handle; the reference count falls by one. The value is
    /// destroyed and handed back, its block freed with it, exactly when this
    /// was the last handle.
    pub fn dispose<T>(self, heap: &mut MyRcHeap<T>) -> (dead: Option<T>)
        requires
            old(heap).wf(),
            old(heap).valid(self),
        ensures
            final(heap).wf(),
            final(heap).agrees_except(*old(heap), self.id()),
            old(heap).count_at(self.id()) >= 2 ==> {
                &&& final(heap).is_live(self.id())
                &&& final(heap).count_at(self.id()) == old(heap).count_at(self.id()) - 1
                &&& final(heap).value_at(self.id()) == old(heap).value_at(self.id())
            },
            old(heap).count_at(self.id()) == 1 ==> final(heap).is_freed(self.id()),
            dead == (if old(heap).count_at(self.id()) == 1 {
                Some(old(heap).value_at(self.id()))
            } else {
                None::<T>
            }),
    {
        let i = self.i;
        let taken = heap.blocks.remove(i);
        let (back, dead) = match taken {
            Block::Live { value, strong, weak } => {
                if strong > 1 {
                    (Block::Live { value, strong: strong - 1, weak }, None)
                } else {
                    (Block::Freed, Some(value))
                }
            },
            b => {
                proof {
                    assert(false);
                }
                (b, None)
            },
        };
        let ghost back_spec = back;
        heap.blocks.insert(i, back);
        proof {
            lemma_remove_insert(old(heap)@, i as int, back_spec);
        }
        dead
    }
}

/// Removing a sequence element and putting another back in its place is the
/// same as updating that place.
proof fn lemma_remove_insert<A>(s: Seq<A>, i: int, a: A)
    requires
        0 <= i < s.len(),
    ensures
        s.remove(i).insert(i, a) == s.update(i, a),
{
    assert(s.remove(i).insert(i, a) =~= s.update(i, a));
}

} // verus!
