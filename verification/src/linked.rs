//! An append-only singly linked list.
//!
//! Nodes live in an owned arena (a growable buffer of nodes) and refer to one
//! another by stable arena positions, so no node is ever leaked and dropping
//! the list frees the whole chain. Because the list only ever appends at the
//! tail, nodes stand in the arena in chain order; the well-formedness
//! invariant pins the `first` and `last` cursors and every `next` link to
//! that chain. Indexing and iteration walk the chain through the `next`
//! links, exactly as the chain is linked.

use vstd::prelude::*;

verus! {

/// One node of the chain: a value and the arena position of its successor,
/// absent at the tail.
struct SingleLinkedListNode<T> {
    value: T,
    next: Option<usize>,
}

impl<T> SingleLinkedListNode<T> {
    /// A fresh node with no successor.
    fn new(value: T) -> (r: Self)
        ensures
            r.value == value,
            r.next is None,
    {
        SingleLinkedListNode { value, next: None }
    }
}

/// An append-only singly linked list with forward iteration and positional
/// indexing.
pub struct SingleLinkedList<T> {
    nodes: Vec<SingleLinkedListNode<T>>,
    first: Option<usize>,
    last: Option<usize>,
    len: usize,
}

impl<T> View for SingleLinkedList<T> {
    type V = Seq<T>;

    closed spec fn view(&self) -> Seq<T> {
        self.nodes@.map(|_i: int, n: SingleLinkedListNode<T>| n.value)
    }
}

impl<T> SingleLinkedList<T> {
    /// Well-formedness: `len` counts the nodes; `first` and `last` are absent
    /// exactly when the list is empty and otherwise name the head and the
    /// tail of the chain; each node's `next` link leads to its successor in
    /// the chain, and the tail has none.
    pub closed spec fn wf(&self) -> bool {
        &&& self.len == self.nodes@.len()
        &&& self.first == (if self.len == 0 {
            None::<usize>
        } else {
            Some(0usize)
        })
        &&& self.last == (if self.len == 0 {
            None::<usize>
        } else {
            Some((self.len - 1) as usize)
        })
        &&& forall|i: int|
            0 <= i < self.nodes@.len() ==> (#[trigger] self.nodes@[i].next) == (if i + 1
                < self.nodes@.len() {
                Some((i + 1) as usize)
            } else {
                None::<usize>
            })
    }

    /// An empty list.
    pub fn new() -> (r: Self)
        ensures
            r.wf(),
            r@ == Seq::<T>::empty(),
    {
        let r = SingleLinkedList { nodes: Vec::new(), first: None, last: None, len: 0 };
        proof {
            assert(r@ =~= Seq::<T>::empty());
        }
        r
    }

    /// Whether the list holds no values.
    pub fn is_empty(&self) -> (r: bool)
        requires
            self.wf(),
        ensures
            r <==> self@.len() == 0,
    {
        self.first.is_none()
    }

    /// The current node count.
    pub fn len(&self) -> (r: usize)
        requires
            self.wf(),
        ensures
            r == self@.len(),
    {
        self.len
    }

    /// Appends `item` at the tail: an empty list gains its first node, with
    /// both cursors on it; otherwise a fresh node is linked as the successor
    /// of the current tail, which the `last` cursor then follows.
    pub fn append(&mut self, item: T)
        requires
            old(self).wf(),
            old(self)@.len() < usize::MAX,
        ensures
            final(self).wf(),
            final(self)@ == old(self)@.push(item),
    {
        if self.first.is_none() {
            self.nodes.push(SingleLinkedListNode::new(item));
            self.first = Some(0);
            self.last = Some(0);
        } else {
            let idx = self.nodes.len();
            let tail = self.last.unwrap();
            self.nodes.push(SingleLinkedListNode::new(item));
            self.nodes[tail].next = Some(idx);
            self.last = Some(idx);
        }
        self.len = self.len + 1;
        proof {
            assert(self@ =~= old(self)@.push(item));
        }
    }

    /// The value at logical position `index`, found by walking the chain from
    /// `first` and counting positions; the unchecked fast path, for callers
    /// that have established the bound.
    pub fn index(&self, index: usize) -> (r: &T)
        requires
            self.wf(),
            index < self@.len(),
        ensures
            *r == self@[index as int],
    {
        let mut i: usize = 0;
        let mut current: Option<usize> = self.first;
        while i < index
            invariant
                self.wf(),
                index < self@.len(),
                i <= index,
                current == Some(i),
            decreases index - i,
        {
            let cur = current.unwrap();
            current = self.nodes[cur].next;
            i = i + 1;
        }
        let cur = current.unwrap();
        &self.nodes[cur].value
    }

    /// The value at logical position `index`, or `None` exactly when walking
    /// the chain runs off its end first, that is, when `index` is not below
    /// the node count.
    pub fn get(&self, index: usize) -> (r: Option<&T>)
        requires
            self.wf(),
        ensures
            match r {
                Some(v) => index < self@.len() && *v == self@[index as int],
                None => index >= self@.len(),
            },
    {
        if index < self.len {
            Some(self.index(index))
        } else {
            None
        }
    }

    /// A forward cursor over the chain, starting at `first`.
    pub fn iter(&self) -> (it: SingleLinkedListIter<'_, T>)
        requires
            self.wf(),
        ensures
            it.wf(),
            it.elems() == self@,
            it.pos() == 0,
    {
        SingleLinkedListIter { current: self.first, list: self }
    }
}

impl<T> Default for SingleLinkedList<T> {
    /// The same empty list as [`SingleLinkedList::new`].
    fn default() -> (r: Self)
        ensures
            r.wf(),
            r@ == Seq::<T>::empty(),
    {
        Self::new()
    }
}

/// A lazy, forward-only cursor over a list's chain. It yields each value once,
/// from the head to the tail, and nothing past the tail; a fresh traversal
/// takes a fresh call of [`SingleLinkedList::iter`].
pub struct SingleLinkedListIter<'a, T> {
    current: Option<usize>,
    list: &'a SingleLinkedList<T>,
}

impl<'a, T> SingleLinkedListIter<'a, T> {
    /// The values the traversal walks over, head first.
    pub closed spec fn elems(&self) -> Seq<T> {
        self.list@
    }

    /// How many values have been yielded so far; an absent cursor means the
    /// traversal has run off the end of the chain.
    pub closed spec fn pos(&self) -> int {
        match self.current {
            Some(i) => i as int,
            None => self.list@.len() as int,
        }
    }

    /// Well-formedness: the underlying list is well-formed and the cursor,
    /// when present, stands on a node of the chain.
    pub closed spec fn wf(&self) -> bool {
        &&& self.list.wf()
        &&& match self.current {
            Some(i) => i < self.list@.len(),
            None => true,
        }
    }

    /// Yields the value at the cursor and steps the cursor down the chain's
    /// `next` link, or yields `None` exactly when every value has been
    /// yielded already.
    pub fn next(&mut self) -> (r: Option<&'a T>)
        requires
            old(self).wf(),
        ensures
            final(self).wf(),
            final(self).elems() == old(self).elems(),
            match r {
                Some(v) => {
                    &&& old(self).pos() < old(self).elems().len()
                    &&& *v == old(self).elems()[old(self).pos()]
                    &&& final(self).pos() == old(self).pos() + 1
                },
                None => {
                    &&& old(self).pos() == old(self).elems().len()
                    &&& final(self).pos() == old(self).pos()
                },
            },
    {
        match self.current {
            Some(cur) => {
                let list = self.list;
                self.current = list.nodes[cur].next;
                Some(&list.nodes[cur].value)
            },
            None => None,
        }
    }
}

} // verus!
