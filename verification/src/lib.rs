//! Reference-counted shared ownership, verified.
//!
//! A heap-allocated value is shared through *strong* handles, which keep it
//! alive, and observed through *weak* handles, which do not. Each managed
//! value lives in a control block together with a strong and a weak counter.
//! The value is destroyed the instant the strong count falls to zero; the
//! block itself is reclaimed when the second of the two counters reaches
//! zero, whichever order that happens in.
//!
//! Raw-pointer aliasing is modelled by an explicit arena: a heap of control
//! blocks, with handles that carry the index of their block. Disposal is
//! explicit: every handle is consumed exactly once by its dispose operation,
//! mirroring drop-on-scope-exit semantics.
//!
//! Two parallel handle families implement the same protocol: [`rc`] for a
//! single execution context, and [`arc`] for the thread-safe discipline, in
//! which the promotion of a weak handle refuses to raise a strong count it
//! observes at zero. The counter laws they share are stated and proved in
//! [`counting`]. A reduced owning-handle family without weak handles stands
//! in [`my_rc`], and the transparent single-owner box in [`my_box`] is an
//! unrelated utility that only shares the namespace.

pub mod block;
pub mod counting;
pub mod rc;
pub mod arc;
pub mod my_rc;
pub mod my_box;
