//! Two self-contained, in-memory collection primitives:
//!
//! - [`array::Array`]: a growable contiguous array with amortized-doubling
//!   capacity (initial capacity 8), supporting append and ordered removal.
//! - [`linked::SingleLinkedList`]: an append-only singly linked list with
//!   forward iteration and positional indexing.
//!
//! Both structures are single-threaded and synchronous; simultaneous use from
//! several threads requires external synchronization by the caller. The one
//! failure condition either structure can report is an out-of-bounds access:
//! a requested logical index that is not below the current element count.

use vstd::prelude::*;

pub mod array;
pub mod linked;

verus! {

/// The contents of a collection after inserting the values of `vs`, in order,
/// at the back of an empty collection. This is the abstract effect of a run of
/// [`array::Array::push`] or [`linked::SingleLinkedList::append`] calls
/// starting from `new()`, whose `ensures` each add one value at the back.
pub open spec fn after_insertions<T>(vs: Seq<T>) -> Seq<T>
    decreases vs.len(),
{
    if vs.len() == 0 {
        Seq::<T>::empty()
    } else {
        after_insertions(vs.drop_last()).push(vs.last())
    }
}

/// Inserting N values at the back of an empty collection yields exactly those
/// values, in insertion order: the length is N, the collection is empty if and
/// only if N == 0, and the value at logical position `i` is the value inserted
/// at position `i`.
pub proof fn lemma_after_insertions_exact<T>(vs: Seq<T>)
    ensures
        after_insertions(vs) == vs,
        after_insertions(vs).len() == vs.len(),
        after_insertions(vs).len() == 0 <==> vs.len() == 0,
        forall|i: int| 0 <= i < vs.len() ==> after_insertions(vs)[i] == vs[i],
    decreases vs.len(),
{
    if vs.len() == 0 {
        assert(after_insertions(vs) =~= vs);
    } else {
        lemma_after_insertions_exact(vs.drop_last());
        assert(after_insertions(vs) =~= vs);
    }
}

} // verus!
