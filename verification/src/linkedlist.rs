//! A linked list with owned values.
//!
//! Each node owns the node behind it, so the list is a chain with one way
//! through it. Work at the front takes one step; work at the back walks the
//! chain.

use vstd::prelude::*;

verus! {

/// One link of the chain: an element and the nodes behind it.
pub struct Node<T> {
    element: T,
    next: Option<Box<Node<T>>>,
}

/// The elements of a chain, front first.
pub closed spec fn chain_elements<T>(chain: Option<Box<Node<T>>>) -> Seq<T>
    decreases chain,
{
    match chain {
        None => Seq::empty(),
        Some(node) => seq![node.element] + chain_elements(node.next),
    }
}

impl<T> Node<T> {
    /// The elements from this node on, front first. There is at least one.
    pub closed spec fn elements(&self) -> Seq<T> {
        seq![self.element] + chain_elements(self.next)
    }

    /// A node with nothing behind it.
    pub fn new(element: T) -> (node: Self)
        ensures
            node.elements() == seq![element],
    {
        let node = Self { next: None, element };
        assert(node.elements() =~= seq![element]);
        node
    }

    /// The node's own element; what was behind it is dropped.
    pub fn into_element(self: Box<Self>) -> (element: T)
        ensures
            element == self.elements()[0],
    {
        let node = *self;
        node.element
    }

    /// Hangs `tail` behind the last node of this chain.
    fn attach(&mut self, tail: Box<Node<T>>)
        ensures
            final(self).elements() == old(self).elements() + tail.elements(),
        decreases *old(self),
    {
        match self.next.take() {
            None => {
                self.next = Some(tail);
                assert(chain_elements(self.next) =~= tail.elements());
            },
            Some(mut behind) => {
                behind.attach(tail);
                self.next = Some(behind);
                assert(chain_elements(self.next) =~= behind.elements());
            },
        }
        assert(final(self).elements() =~= old(self).elements() + tail.elements());
    }

    /// The element of the last node of this chain.
    fn last_element(&self) -> (element: &T)
        ensures
            *element == self.elements().last(),
        decreases self,
    {
        match &self.next {
            None => {
                assert(self.elements() =~= seq![self.element]);
                &self.element
            },
            Some(behind) => {
                assert(self.elements().last() == behind.elements().last());
                behind.last_element()
            },
        }
    }

    /// The element of the last node of this chain, to change in place.
    fn last_element_mut(&mut self) -> (element: &mut T)
        ensures
            *element == old(self).elements().last(),
            final(self).elements() =~= old(self).elements().update(
                old(self).elements().len() - 1,
                *final(element),
            ),
        decreases *old(self),
    {
        match &mut self.next {
            None => &mut self.element,
            Some(behind) => behind.last_element_mut(),
        }
    }

    /// Cuts the last node off the chain that starts here and returns what
    /// is left of the chain together with the element cut off.
    fn detach_last(self: Box<Self>) -> (r: (Option<Box<Node<T>>>, T))
        ensures
            chain_elements(r.0) == self.elements().drop_last(),
            r.1 == self.elements().last(),
        decreases self,
    {
        let mut node = *self;
        match node.next.take() {
            None => {
                assert(self.elements() =~= seq![node.element]);
                assert(chain_elements(None::<Box<Node<T>>>) =~= self.elements().drop_last());
                (None, node.element)
            },
            Some(behind) => {
                let (rest, last) = behind.detach_last();
                node.next = rest;
                let kept = Some(Box::new(node));
                assert(chain_elements(kept) =~= self.elements().drop_last());
                (kept, last)
            },
        }
    }
}

/// A list of owned values. Its view is the sequence of its elements, front
/// first.
pub struct LinkedList<T> {
    head: Option<Box<Node<T>>>,
    len: usize,
}

impl<T> View for LinkedList<T> {
    type V = Seq<T>;

    closed spec fn view(&self) -> Seq<T> {
        chain_elements(self.head)
    }
}

impl<T> LinkedList<T> {
    /// The recorded length is the number of nodes. Every list that this
    /// module hands out is well formed.
    pub closed spec fn wf(&self) -> bool {
        self.len == chain_elements(self.head).len()
    }

    /// An empty list.
    #[must_use]
    pub fn new() -> (list: Self)
        ensures
            list.wf(),
            list@ == Seq::<T>::empty(),
    {
        Self { head: None, len: 0 }
    }

    /// Moves all elements of `other` behind those of `self`, in their order.
    /// `other` is left empty.
    pub fn append(&mut self, other: &mut Self)
        requires
            old(self).wf(),
            old(other).wf(),
            old(self)@.len() + old(other)@.len() <= usize::MAX,
        ensures
            final(self).wf(),
            final(other).wf(),
            final(self)@ == old(self)@ + old(other)@,
            final(other)@ == Seq::<T>::empty(),
    {
        match other.head.take() {
            None => {
                assert(self@ =~= old(self)@ + old(other)@);
            },
            Some(tail) => {
                match self.head.take() {
                    None => {
                        self.head = Some(tail);
                        assert(self@ =~= old(self)@ + old(other)@);
                    },
                    Some(mut front) => {
                        front.attach(tail);
                        self.head = Some(front);
                        assert(self@ =~= old(self)@ + old(other)@);
                    },
                }
                self.len = self.len + other.len;
                other.len = 0;
            },
        }
    }

    /// Whether the list has no element.
    pub fn is_empty(&self) -> (b: bool)
        ensures
            b == (self@.len() == 0),
    {
        self.head.is_none()
    }

    /// The number of elements.
    pub fn len(&self) -> (n: usize)
        requires
            self.wf(),
        ensures
            n == self@.len(),
    {
        self.len
    }

    /// Drops every element, front first, one node at a time.
    pub fn clear(&mut self)
        ensures
            final(self).wf(),
            final(self)@ == Seq::<T>::empty(),
    {
        let mut rest = self.head.take();
        self.len = 0;
        while rest.is_some()
            invariant
                self.head is None,
                self.len == 0,
            decreases chain_elements(rest).len(),
        {
            let node = *rest.unwrap();
            rest = node.next;
        }
    }

    /// Whether `x` is an element. The list has no way to compare elements
    /// and so finds none: the answer is `false` for every list and every `x`.
    pub fn contains(&self, x: T) -> (found: bool)
        ensures
            !found,
    {
        false
    }

    /// The front element, if there is one.
    pub fn front(&self) -> (r: Option<&T>)
        ensures
            self@.len() == 0 <==> r is None,
            r is Some ==> *r->0 == self@[0],
    {
        match &self.head {
            None => None,
            Some(node) => Some(&node.element),
        }
    }

    /// The front element, if there is one, to change in place. Nothing else
    /// in the list changes.
    pub fn front_mut(&mut self) -> (r: Option<&mut T>)
        ensures
            final(self).wf() == old(self).wf(),
            match r {
                None => old(self)@.len() == 0 && final(self)@ == old(self)@,
                Some(element) => old(self)@.len() > 0 && *element == old(self)@[0] && final(self)@
                    =~= old(self)@.update(0, *final(element)),
            },
    {
        match &mut self.head {
            None => None,
            Some(node) => Some(&mut node.element),
        }
    }

    /// The back element, if there is one, to change in place. Nothing else in
    /// the list changes.
    pub fn back_mut(&mut self) -> (r: Option<&mut T>)
        ensures
            final(self).wf() == old(self).wf(),
            match r {
                None => old(self)@.len() == 0 && final(self)@ == old(self)@,
                Some(element) => {
                    &&& old(self)@.len() > 0
                    &&& *element == old(self)@.last()
                    &&& final(self)@ =~= old(self)@.update(old(self)@.len() - 1, *final(element))
                },
            },
    {
        match &mut self.head {
            None => None,
            Some(node) => Some(node.last_element_mut()),
        }
    }

    /// The back element, if there is one.
    pub fn back(&self) -> (r: Option<&T>)
        ensures
            self@.len() == 0 <==> r is None,
            r is Some ==> *r->0 == self@.last(),
    {
        match &self.head {
            None => None,
            Some(node) => Some(node.last_element()),
        }
    }

    /// Puts `ele` before every element.
    pub fn push_front(&mut self, ele: T)
        requires
            old(self).wf(),
            old(self)@.len() < usize::MAX,
        ensures
            final(self).wf(),
            final(self)@ == seq![ele] + old(self)@,
    {
        let node = Box::new(Node { element: ele, next: self.head.take() });
        self.head = Some(node);
        self.len = self.len + 1;
    }

    /// Removes the front element and returns it; `None` on an empty list.
    pub fn pop_front(&mut self) -> (r: Option<T>)
        requires
            old(self).wf(),
        ensures
            final(self).wf(),
            old(self)@.len() == 0 ==> r is None && final(self)@ == old(self)@,
            old(self)@.len() > 0 ==> r == Some(old(self)@[0]) && final(self)@ == old(self)@.skip(1),
    {
        match self.head.take() {
            None => None,
            Some(node) => {
                let node = *node;
                self.head = node.next;
                self.len = self.len - 1;
                assert(self@ =~= old(self)@.skip(1));
                Some(node.element)
            },
        }
    }

    /// Puts `ele` behind every element.
    pub fn push_back(&mut self, ele: T)
        requires
            old(self).wf(),
            old(self)@.len() < usize::MAX,
        ensures
            final(self).wf(),
            final(self)@ == old(self)@.push(ele),
    {
        let node = Box::new(Node::new(ele));
        match self.head.take() {
            None => {
                self.head = Some(node);
            },
            Some(mut front) => {
                front.attach(node);
                self.head = Some(front);
            },
        }
        self.len = self.len + 1;
        assert(self@ =~= old(self)@.push(ele));
    }

    /// Removes the back element and returns it; `None` on an empty list.
    pub fn pop_back(&mut self) -> (r: Option<T>)
        requires
            old(self).wf(),
        ensures
            final(self).wf(),
            old(self)@.len() == 0 ==> r is None && final(self)@ == old(self)@,
            old(self)@.len() > 0 ==> r == Some(old(self)@.last()) && final(self)@ == old(
                self,
            )@.drop_last(),
    {
        match self.head.take() {
            None => None,
            Some(front) => {
                let (rest, last) = front.detach_last();
                self.head = rest;
                self.len = self.len - 1;
                Some(last)
            },
        }
    }
}

} // verus!
