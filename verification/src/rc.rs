//! The single-threaded strong/weak handle pair.
//!
//! A [`RcHeap`] is the arena of control blocks for one execution context.
//! [`Rc`] is a strong (owning) handle and [`Weak`] a non-owning one; each
//! carries the index of its block. Handles cannot be copied or cloned
//! directly: duplication goes through the heap, which adjusts the counters,
//! and disposal consumes the handle, so each handle is given up exactly once.

use vstd::prelude::*;

use crate::block::Block;

verus! {

/// The arena holding every control block of this execution context.
pub struct RcHeap<T> {
    blocks: Vec<Block<T>>,
}

/// A strong handle: shares ownership of the value in its control block and
/// keeps that value alive for as long as the handle exists.
pub struct Rc {
    i: usize,
}

/// A weak handle: refers to a control block without keeping the value alive;
/// it can only be asked to attempt promotion to a strong handle.
pub struct Weak {
    i: usize,
}

impl Rc {
    /// The index of the control block this handle refers to.
    pub closed spec fn id(self) -> int {
        self.i as int
    }
}

impl Weak {
    /// The index of the control block this handle refers to.
    pub closed spec fn id(self) -> int {
        self.i as int
    }
}

impl<T> View for RcHeap<T> {
    type V = Seq<Block<T>>;

    closed spec fn view(&self) -> Seq<Block<T>> {
        self.blocks@
    }
}

impl<T> RcHeap<T> {
    /// Every block of the heap is well formed.
    pub open spec fn wf(self) -> bool {
        forall|i: int| 0 <= i < self@.len() ==> (#[trigger] self@[i]).wf()
    }

    /// The strong count of block `i`: zero once the value is destroyed.
    pub open spec fn strong_at(self, i: int) -> nat {
        self@[i].strong()
    }

    /// The weak count of block `i`: zero once the block is freed.
    pub open spec fn weak_at(self, i: int) -> nat {
        self@[i].weak()
    }

    /// The value managed by block `i`, meaningful while the block is live.
    pub open spec fn value_at(self, i: int) -> T {
        self@[i].value()
    }

    /// Block `i` holds a living value.
    pub open spec fn is_live(self, i: int) -> bool {
        0 <= i < self@.len() && self@[i] is Live
    }

    /// Block `i` has destroyed its value but is still allocated for the
    /// weak handles that remain.
    pub open spec fn is_dead(self, i: int) -> bool {
        0 <= i < self@.len() && self@[i] is Dead
    }

    /// Block `i` has been reclaimed.
    pub open spec fn is_freed(self, i: int) -> bool {
        0 <= i < self@.len() && self@[i] is Freed
    }

    /// A strong handle is valid while its block is live; a strong handle in
    /// existence is proof that the strong count is at least one.
    pub open spec fn valid_strong(self, rc: Rc) -> bool {
        self.is_live(rc.id())
    }

    /// A weak handle is valid while its block still counts it.
    pub open spec fn valid_weak(self, w: Weak) -> bool {
        0 <= w.id() < self@.len() && self.weak_at(w.id()) >= 1
    }

    /// The heaps agree on every block but `i`.
    pub open spec fn agrees_except(self, other: Self, i: int) -> bool {
        &&& self@.len() == other@.len()
        &&& forall|j: int| 0 <= j < other@.len() && j != i ==> self@[j] == other@[j]
    }

    /// An empty arena: no control block has been allocated yet.
    pub fn new() -> (h: Self)
        ensures
            h.wf(),
            h@.len() == 0,
    {
        RcHeap { blocks: Vec::new() }
    }
}

impl Rc {
    /// Constructs the first strong handle to a fresh value: a new control
    /// block is allocated with strong count 1 and weak count 0.
    pub fn new<T>(heap: &mut RcHeap<T>, value: T) -> (rc: Rc)
        requires
            old(heap).wf(),
        ensures
            final(heap).wf(),
            final(heap)@.len() == old(heap)@.len() + 1,
            forall|j: int| 0 <= j < old(heap)@.len() ==> final(heap)@[j] == old(heap)@[j],
            rc.id() == old(heap)@.len(),
            final(heap).valid_strong(rc),
            final(heap).strong_at(rc.id()) == 1,
            final(heap).weak_at(rc.id()) == 0,
            final(heap).value_at(rc.id()) == value,
    {
        let i = heap.blocks.len();
        heap.blocks.push(Block::Live { value, strong: 1, weak: 0 });
        Rc { i }
    }

    /// Duplicates this strong handle: the strong count rises by one and a
    /// second handle to the same block is returned. Nothing else changes.
    pub fn duplicate<T>(&self, heap: &mut RcHeap<T>) -> (other: Rc)
        requires
            old(heap).wf(),
            old(heap).valid_strong(*self),
            old(heap).strong_at(self.id()) < usize::MAX,
        ensures
            final(heap).wf(),
            final(heap).agrees_except(*old(heap), self.id()),
            other.id() == self.id(),
            final(heap).valid_strong(*self),
            final(heap).valid_strong(other),
            final(heap).strong_at(self.id()) == old(heap).strong_at(self.id()) + 1,
            final(heap).weak_at(self.id()) == old(heap).weak_at(self.id()),
            final(heap).value_at(self.id()) == old(heap).value_at(self.id()),
    {
        match &mut heap.blocks[self.i] {
            Block::Live { strong, .. } => {
                *strong = *strong + 1;
            },
            _ => {
                proof {
                    assert(false);
                }
            },
        }
        Rc { i: self.i }
    }

    /// Derives a weak handle from this strong handle: the weak count rises
    /// by one; the strong count and the value are untouched.
    pub fn downgrade<T>(&self, heap: &mut RcHeap<T>) -> (w: Weak)
        requires
            old(heap).wf(),
            old(heap).valid_strong(*self),
            old(heap).weak_at(self.id()) < usize::MAX,
        ensures
            final(heap).wf(),
            final(heap).agrees_except(*old(heap), self.id()),
            w.id() == self.id(),
            final(heap).valid_strong(*self),
            final(heap).valid_weak(w),
            final(heap).strong_at(self.id()) == old(heap).strong_at(self.id()),
            final(heap).weak_at(self.id()) == old(heap).weak_at(self.id()) + 1,
            final(heap).value_at(self.id()) == old(heap).value_at(self.id()),
    {
        match &mut heap.blocks[self.i] {
            Block::Live { weak, .. } => {
                *weak = *weak + 1;
            },
            _ => {
                proof {
                    assert(false);
                }
            },
        }
        Weak { i: self.i }
    }

    /// Reads the managed value. A strong handle in existence is proof that
    /// the strong count is at least one, so the value has not been destroyed.
    pub fn get<'a, T>(&self, heap: &'a RcHeap<T>) -> (v: &'a T)
        requires
            heap.valid_strong(*self),
        ensures
            *v == heap.value_at(self.id()),
    {
        match &heap.blocks[self.i] {
            Block::Live { value, .. } => value,
            _ => unreached(),
        }
    }

    /// The strong count of this handle's block.
    pub fn strong_count<T>(&self, heap: &RcHeap<T>) -> (n: usize)
        requires
            self.id() < heap@.len(),
        ensures
            n == heap.strong_at(self.id()),
    {
        match &heap.blocks[self.i] {
            Block::Live { strong, .. } => *strong,
            _ => 0,
        }
    }

    /// The weak count of this handle's block.
    pub fn weak_count<T>(&self, heap: &RcHeap<T>) -> (n: usize)
        requires
            self.id() < heap@.len(),
        ensures
            n == heap.weak_at(self.id()),
    {
        match &heap.blocks[self.i] {
            Block::Live { weak, .. } => *weak,
            Block::Dead { weak } => *weak,
            Block::Freed => 0,
        }
    }

    /// Gives up this strong handle; the strong count falls by one.
    ///
    /// The destroyed value is handed back exactly when this was the last
    /// strong handle: with no weak handles left the control block is freed
    /// with it; with weak handles remaining the block stays allocated, dead,
    /// so the weak handles can still observe that the value is gone.
    pub fn dispose<T>(self, heap: &mut RcHeap<T>) -> (dead: Option<T>)
        requires
            old(heap).wf(),
            old(heap).valid_strong(self),
        ensures
            final(heap).wf(),
            final(heap).agrees_except(*old(heap), self.id()),
            old(heap).strong_at(self.id()) >= 2 ==> {
                &&& final(heap).is_live(self.id())
                &&& final(heap).strong_at(self.id()) == old(heap).strong_at(self.id()) - 1
                &&& final(heap).weak_at(self.id()) == old(heap).weak_at(self.id())
                &&& final(heap).value_at(self.id()) == old(heap).value_at(self.id())
            },
            old(heap).strong_at(self.id()) == 1 && old(heap).weak_at(self.id()) == 0
                ==> final(heap).is_freed(self.id()),
            old(heap).strong_at(self.id()) == 1 && old(heap).weak_at(self.id()) >= 1 ==> {
                &&& final(heap).is_dead(self.id())
                &&& final(heap).weak_at(self.id()) == old(heap).weak_at(self.id())
            },
            dead == (if old(heap).strong_at(self.id()) == 1 {
                Some(old(heap).value_at(self.id()))
            } else {
                None::<T>
            }),
    {
        let i = self.i;
        let taken = heap.blocks.remove(i);
        let (back, dead) = match taken {
            Block::Live { value, strong, weak } => {
                if strong > 1 {
                    (Block::Live { value, strong: strong - 1, weak }, None)
                } else if weak == 0 {
                    (Block::Freed, Some(value))
                } else {
                    (Block::Dead { weak }, Some(value))
                }
            },
            b => {
                proof {
                    assert(false);
                }
                (b, None)
            },
        };
        let ghost back_spec = back;
        heap.blocks.insert(i, back);
        proof {
            lemma_remove_insert(old(heap)@, i as int, back_spec);
        }
        dead
    }
}

impl Weak {
    /// Duplicates this weak handle: the weak count rises by one. The block
    /// may be live or already dead; its state is otherwise untouched.
    pub fn duplicate<T>(&self, heap: &mut RcHeap<T>) -> (other: Weak)
        requires
            old(heap).wf(),
            old(heap).valid_weak(*self),
            old(heap).weak_at(self.id()) < usize::MAX,
        ensures
            final(heap).wf(),
            final(heap).agrees_except(*old(heap), self.id()),
            other.id() == self.id(),
            final(heap).valid_weak(*self),
            final(heap).valid_weak(other),
            final(heap).weak_at(self.id()) == old(heap).weak_at(self.id()) + 1,
            final(heap).strong_at(self.id()) == old(heap).strong_at(self.id()),
            final(heap).is_live(self.id()) == old(heap).is_live(self.id()),
            final(heap).is_dead(self.id()) == old(heap).is_dead(self.id()),
            old(heap).is_live(self.id()) ==> final(heap).value_at(self.id()) == old(
                heap,
            ).value_at(self.id()),
    {
        match &mut heap.blocks[self.i] {
            Block::Live { weak, .. } => {
                *weak = *weak + 1;
            },
            Block::Dead { weak } => {
                *weak = *weak + 1;
            },
            Block::Freed => {
                proof {
                    assert(false);
                }
            },
        }
        Weak { i: self.i }
    }

    /// Attempts to promote this weak handle to a strong one. The strong
    /// count is read: if it is zero the value is gone and nothing is
    /// returned; otherwise the count rises by one and a fresh strong handle
    /// is returned, observing the original value unchanged. In this
    /// single-threaded variant nothing can intervene between the read and
    /// the increment, so the pair is atomic by construction.
    pub fn upgrade<T>(&self, heap: &mut RcHeap<T>) -> (r: Option<Rc>)
        requires
            old(heap).wf(),
            old(heap).valid_weak(*self),
            old(heap).strong_at(self.id()) < usize::MAX,
        ensures
            final(heap).wf(),
            final(heap).agrees_except(*old(heap), self.id()),
            r is Some <==> old(heap).strong_at(self.id()) >= 1,
            old(heap).is_dead(self.id()) ==> r == None::<Rc> && final(heap)@ == old(heap)@,
            old(heap).is_live(self.id()) ==> {
                &&& (r matches Some(rc) && rc.id() == self.id())
                &&& final(heap).is_live(self.id())
                &&& final(heap).strong_at(self.id()) == old(heap).strong_at(self.id()) + 1
                &&& final(heap).weak_at(self.id()) == old(heap).weak_at(self.id())
                &&& final(heap).value_at(self.id()) == old(heap).value_at(self.id())
            },
            r matches Some(rc) ==> final(heap).valid_strong(rc),
            final(heap).valid_weak(*self),
    {
        let live = match &heap.blocks[self.i] {
            Block::Live { .. } => true,
            _ => false,
        };
        if !live {
            return None;
        }
        match &mut heap.blocks[self.i] {
            Block::Live { strong, .. } => {
                *strong = *strong + 1;
            },
            _ => {
                proof {
                    assert(false);
                }
            },
        }
        Some(Rc { i: self.i })
    }

    /// The strong count of this handle's block: zero exactly when the value
    /// has been destroyed.
    pub fn strong_count<T>(&self, heap: &RcHeap<T>) -> (n: usize)
        requires
            self.id() < heap@.len(),
        ensures
            n == heap.strong_at(self.id()),
    {
        match &heap.blocks[self.i] {
            Block::Live { strong, .. } => *strong,
            _ => 0,
        }
    }

    /// The weak count of this handle's block.
    pub fn weak_count<T>(&self, heap: &RcHeap<T>) -> (n: usize)
        requires
            self.id() < heap@.len(),
        ensures
            n == heap.weak_at(self.id()),
    {
        match &heap.blocks[self.i] {
            Block::Live { weak, .. } => *weak,
            Block::Dead { weak } => *weak,
            Block::Freed => 0,
        }
    }

    /// Gives up this weak handle; the weak count falls by one. The block is
    /// freed exactly when this was the last weak handle and the strong count
    /// had already reached zero; while strong handles remain, the block
    /// stays theirs and nothing further happens.
    pub fn dispose<T>(self, heap: &mut RcHeap<T>) -> (freed: bool)
        requires
            old(heap).wf(),
            old(heap).valid_weak(self),
        ensures
            final(heap).wf(),
            final(heap).agrees_except(*old(heap), self.id()),
            freed == (old(heap).weak_at(self.id()) == 1 && old(heap).strong_at(self.id()) == 0),
            freed ==> final(heap).is_freed(self.id()),
            !freed ==> {
                &&& final(heap).weak_at(self.id()) == old(heap).weak_at(self.id()) - 1
                &&& final(heap).strong_at(self.id()) == old(heap).strong_at(self.id())
                &&& final(heap).is_live(self.id()) == old(heap).is_live(self.id())
                &&& (old(heap).is_live(self.id()) ==> final(heap).value_at(self.id()) == old(
                    heap,
                ).value_at(self.id()))
            },
    {
        let i = self.i;
        let last_weak_of_dead = match &heap.blocks[i] {
            Block::Dead { weak } => *weak == 1,
            _ => false,
        };
        if last_weak_of_dead {
            heap.blocks[i] = Block::Freed;
            true
        } else {
            match &mut heap.blocks[i] {
                Block::Live { weak, .. } => {
                    *weak = *weak - 1;
                },
                Block::Dead { weak } => {
                    *weak = *weak - 1;
                },
                Block::Freed => {
                    proof {
                        assert(false);
                    }
                },
            }
            false
        }
    }
}

/// Removing a sequence element and putting another back in its place is the
/// same as updating that place.
proof fn lemma_remove_insert<A>(s: Seq<A>, i: int, a: A)
    requires
        0 <= i < s.len(),
    ensures
        s.remove(i).insert(i, a) == s.update(i, a),
{
    assert(s.remove(i).insert(i, a) =~= s.update(i, a));
}

/// Law (the block is freed exactly once): a freed control block is beyond
/// the reach of every handle — no strong or weak handle naming it is valid,
/// so no operation can touch it again, whatever order the final strong
/// disposal and the final weak disposal happened in.
pub proof fn lemma_freed_unreachable<T>(heap: RcHeap<T>, i: int)
    requires
        heap.is_freed(i),
    ensures
        forall|rc: Rc| rc.id() == i ==> !heap.valid_strong(rc),
        forall|w: Weak| w.id() == i ==> !heap.valid_weak(w),
{
}

/// Law (the value is destroyed exactly once): once a block's value is gone
/// — the block dead or freed — no strong handle naming it is valid, so no
/// operation that reads or disposes of the value can reach it again.
pub proof fn lemma_no_strong_handle_after_death<T>(heap: RcHeap<T>, i: int)
    requires
        0 <= i < heap@.len(),
        !heap.is_live(i),
    ensures
        heap.strong_at(i) == 0,
        forall|rc: Rc| rc.id() == i ==> !heap.valid_strong(rc),
{
}

} // verus!
