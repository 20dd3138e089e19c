//! A growable contiguous array ("dynamic array").
//!
//! Elements live in one owned, contiguous buffer, which manages its own
//! storage. A separate capacity count carries the documented growth policy as
//! a verified model quantity: it starts at zero, becomes `max(capacity * 2, 8)`
//! whenever an insertion finds the array full, and never shrinks. Growth
//! preserves every element already stored. Out-of-bounds reads fail
//! deterministically: the checked accessors return `None`, never a value from
//! an adjacent position.

use vstd::prelude::*;

verus! {

/// The smallest non-zero capacity: the first growth step of an empty array
/// claims this many element slots.
pub const INITIAL_CAPACITY: usize = 8;

/// The capacity after one growth step from `cap`: `max(cap * 2, 8)`.
pub open spec fn grown_capacity(cap: usize) -> int {
    if 2 * (cap as int) >= INITIAL_CAPACITY as int {
        2 * (cap as int)
    } else {
        INITIAL_CAPACITY as int
    }
}

/// A growable contiguous array with amortized-doubling capacity.
pub struct Array<T> {
    buf: Vec<T>,
    capacity: usize,
}

impl<T> View for Array<T> {
    type V = Seq<T>;

    closed spec fn view(&self) -> Seq<T> {
        self.buf@
    }
}

impl<T> Array<T> {
    /// The element slots the growth policy has granted so far; always at
    /// least the element count.
    pub closed spec fn cap(&self) -> usize {
        self.capacity
    }

    /// Well-formedness: the live elements fit within the capacity, and the
    /// capacity is one the growth policy can produce — zero before the first
    /// growth step, and never below the initial baseline after it.
    pub closed spec fn wf(&self) -> bool {
        &&& self.buf@.len() <= self.capacity
        &&& (self.capacity == 0 || self.capacity >= INITIAL_CAPACITY)
    }

    /// An empty array with zero capacity; reserves nothing.
    pub fn new() -> (r: Self)
        ensures
            r.wf(),
            r@ == Seq::<T>::empty(),
            r.cap() == 0,
    {
        Array { buf: Vec::new(), capacity: 0 }
    }

    /// The current element count.
    pub fn len(&self) -> (r: usize)
        ensures
            r == self@.len(),
    {
        self.buf.len()
    }

    /// Whether the array holds no elements.
    pub fn is_empty(&self) -> (r: bool)
        ensures
            r <==> self@.len() == 0,
    {
        self.buf.len() == 0
    }

    /// One growth step: the capacity becomes `max(capacity * 2, 8)`. Every
    /// element is preserved, in order.
    pub fn resize(&mut self)
        requires
            old(self).wf(),
            old(self).cap() <= usize::MAX / 2,
        ensures
            final(self).wf(),
            final(self)@ == old(self)@,
            final(self).cap() == grown_capacity(old(self).cap()),
    {
        self.capacity = if self.capacity > 0 {
            self.capacity * 2
        } else {
            INITIAL_CAPACITY
        };
    }

    /// Appends `value` at the back, growing the capacity first when the array
    /// is full. Every element already stored keeps its position.
    pub fn push(&mut self, value: T)
        requires
            old(self).wf(),
            old(self)@.len() == old(self).cap() ==> old(self).cap() <= usize::MAX / 2,
        ensures
            final(self).wf(),
            final(self)@ == old(self)@.push(value),
            old(self)@.len() < old(self).cap() ==> final(self).cap() == old(self).cap(),
            old(self)@.len() == old(self).cap() ==> final(self).cap() == grown_capacity(
                old(self).cap(),
            ),
    {
        if self.buf.len() == self.capacity {
            self.resize();
        }
        self.buf.push(value);
    }

    /// Removes the element at `index`, shifting every later element one
    /// position down. The capacity is unchanged. An index at or past the
    /// element count is out of contract: callers that cannot rule it out use
    /// the checked accessors first.
    pub fn remove(&mut self, index: usize)
        requires
            old(self).wf(),
            index < old(self)@.len(),
        ensures
            final(self).wf(),
            final(self)@ == old(self)@.remove(index as int),
            final(self).cap() == old(self).cap(),
    {
        self.buf.remove(index);
    }

    /// The element at logical position `index`; the unchecked fast path,
    /// for callers that have established the bound.
    pub fn index(&self, index: usize) -> (r: &T)
        requires
            index < self@.len(),
        ensures
            *r == self@[index as int],
    {
        &self.buf[index]
    }

    /// The element at logical position `index`, or `None` exactly when
    /// `index` is not below the element count.
    pub fn get(&self, index: usize) -> (r: Option<&T>)
        ensures
            match r {
                Some(v) => index < self@.len() && *v == self@[index as int],
                None => index >= self@.len(),
            },
    {
        if index < self.buf.len() {
            Some(&self.buf[index])
        } else {
            None
        }
    }

    /// Indexed read by signed offset: negative offsets are rejected, not
    /// wrapped, and an offset at or past the element count yields `None`.
    pub fn get_signed(&self, index: isize) -> (r: Option<&T>)
        ensures
            match r {
                Some(v) => 0 <= index < self@.len() && *v == self@[index as int],
                None => index < 0 || index >= self@.len(),
            },
    {
        if index < 0 {
            None
        } else {
            self.get(index as usize)
        }
    }
}

/// Removing the element at position `k` drops the length by exactly one,
/// keeps every element at a position below `k` where it was, and shifts every
/// element that was above `k` down by one position. Together with
/// [`Array::get`], the element previously at the last position is no longer
/// reachable at its old index.
pub proof fn lemma_remove_shifts<T>(s: Seq<T>, k: int)
    requires
        0 <= k < s.len(),
    ensures
        s.remove(k).len() == s.len() - 1,
        forall|i: int| 0 <= i < k ==> s.remove(k)[i] == s[i],
        forall|i: int| k <= i < s.len() - 1 ==> s.remove(k)[i] == s[i + 1],
{
}

} // verus!
