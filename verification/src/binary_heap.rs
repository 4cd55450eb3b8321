//! A binary max-heap in a vector.

use std::cmp::Ordering;
use vstd::prelude::*;
use vstd::std_specs::cmp::PartialOrdSpec;

verus! {

/// `a` is less than `b` in the order of `T`.
pub open spec fn less<T: Ord>(a: T, b: T) -> bool {
    a.partial_cmp_spec(&b) == Some(Ordering::Less)
}

/// `a` is less than or equal to `b` in the order of `T`.
pub open spec fn at_most<T: Ord>(a: T, b: T) -> bool {
    a.partial_cmp_spec(&b) matches Some(Ordering::Less | Ordering::Equal)
}

/// What the heap asks of the order of `T`: that `<` and `<=` compute it, that
/// any two values are comparable, that `<` is the strict part of `<=`, and
/// that `<=` is transitive.
pub open spec fn orders_totally<T: Ord>() -> bool {
    &&& T::obeys_partial_cmp_spec()
    &&& forall|a: T, b: T| #[trigger] at_most(a, b) || at_most(b, a)
    &&& forall|a: T, b: T| #[trigger] less(a, b) <==> !at_most(b, a)
    &&& forall|a: T, b: T, c: T| #[trigger]
        at_most(a, b) && #[trigger] at_most(b, c) ==> at_most(a, c)
}

/// The place of the parent of the element at `i`.
pub open spec fn parent(i: int) -> int {
    (i - 1) / 2
}

/// The element at `i` is not greater than its parent.
pub open spec fn sits_right<T: Ord>(s: Seq<T>, i: int) -> bool {
    at_most(s[i], s[parent(i)])
}

/// Heap order: no element is greater than its parent, so none is greater
/// than the root.
pub open spec fn is_max_heap<T: Ord>(s: Seq<T>) -> bool {
    forall|i: int| 0 < i < s.len() ==> #[trigger] sits_right(s, i)
}

/// Heap order but for the element at `pos`, which may be out of place both
/// ways: every other element that is not a child of `pos` sits right, and
/// the children of `pos` would sit right under the parent of `pos`.
spec fn heap_except<T: Ord>(s: Seq<T>, pos: int) -> bool {
    &&& forall|i: int|
        0 < i < s.len() && i != pos && parent(i) != pos ==> #[trigger] sits_right(s, i)
    &&& forall|k: int|
        0 < k < s.len() && parent(k) == pos && pos > 0 ==> at_most(
            #[trigger] s[k],
            s[parent(pos)],
        )
}

/// Heap order but for the element at `pos`, which may be greater than its
/// parent.
spec fn heap_except_upwards<T: Ord>(s: Seq<T>, pos: int) -> bool {
    &&& heap_except(s, pos)
    &&& forall|k: int| 0 < k < s.len() && parent(k) == pos ==> #[trigger] sits_right(s, k)
}

/// In heap order the root is a greatest element.
pub proof fn lemma_root_is_greatest<T: Ord>(s: Seq<T>, i: int)
    requires
        orders_totally::<T>(),
        is_max_heap(s),
        0 <= i < s.len(),
    ensures
        at_most(s[i], s[0]),
    decreases i,
{
    if i > 0 {
        assert(sits_right(s, i));
        lemma_root_is_greatest(s, parent(i));
    }
}

/// A priority queue laid out as a binary tree in a vector: the children of
/// the element at `i` stand at `2 * i + 1` and `2 * i + 2`. Its view is that
/// vector, root first.
pub struct BinaryHeap<T> {
    data: Vec<T>,
}

impl<T> View for BinaryHeap<T> {
    type V = Seq<T>;

    closed spec fn view(&self) -> Seq<T> {
        self.data@
    }
}

/// `<[T]>::swap` on the elements of a vector: the elements at `a` and `b`
/// change places and every other element stays. The method panics on an
/// index out of bounds, which the precondition rules out.
#[verifier::external_body]
fn swap_elements<T>(v: &mut Vec<T>, a: usize, b: usize)
    requires
        a < old(v)@.len(),
        b < old(v)@.len(),
    ensures
        final(v)@ == old(v)@.update(a as int, old(v)@[b as int]).update(b as int, old(v)@[a as int]),
{
    v.swap(a, b);
}

/// `Vec::capacity`: the number of elements that the vector can hold without
/// allocating again, which is never less than the number it holds.
#[verifier::external_body]
fn capacity_of<T>(v: &Vec<T>) -> (capacity: usize)
    ensures
        capacity >= v@.len(),
{
    v.capacity()
}

/// Exchanging two elements of a sequence keeps what it holds.
proof fn lemma_swap_keeps_elements<T>(s: Seq<T>, a: int, b: int)
    requires
        0 <= a < s.len(),
        0 <= b < s.len(),
    ensures
        s.update(a, s[b]).update(b, s[a]).to_multiset() == s.to_multiset(),
{
    broadcast use vstd::seq_lib::group_to_multiset_ensures;

    let mid = s.update(a, s[b]);
    assert(mid.to_multiset() == s.to_multiset().remove(s[a]).insert(s[b]));
    assert(mid.update(b, s[a]).to_multiset() == mid.to_multiset().remove(mid[b]).insert(s[a]));
    assert(mid.update(b, s[a]).to_multiset() =~= s.to_multiset());
}

impl<T: Ord> BinaryHeap<T> {
    /// An empty heap.
    pub fn new() -> (heap: Self)
        ensures
            heap@ == Seq::<T>::empty(),
    {
        Self { data: Vec::new() }
    }

    /// An empty heap with room for `capacity` elements.
    pub fn new_with_capacity(capacity: usize) -> (heap: Self)
        ensures
            heap@ == Seq::<T>::empty(),
    {
        Self { data: Vec::with_capacity(capacity) }
    }

    /// The number of elements that the heap has room for before it allocates
    /// again.
    pub fn capacity(&self) -> (capacity: usize)
        ensures
            capacity >= self@.len(),
    {
        capacity_of(&self.data)
    }

    /// Whether the heap holds nothing.
    pub fn is_empty(&self) -> (b: bool)
        ensures
            b == (self@.len() == 0),
    {
        self.data.is_empty()
    }

    /// The number of elements.
    pub fn len(&self) -> (n: usize)
        ensures
            n == self@.len(),
    {
        self.data.len()
    }

    /// Adds `item`. Elements change places on the way from the new leaf to
    /// the root; none is lost or doubled, and heap order is kept.
    pub fn push(&mut self, item: T)
        ensures
            final(self)@.len() == old(self)@.len() + 1,
            final(self)@.to_multiset() == old(self)@.to_multiset().insert(item),
            orders_totally::<T>() && is_max_heap(old(self)@) ==> is_max_heap(final(self)@),
    {
        let old_len = self.len();
        self.data.push(item);
        proof {
            broadcast use vstd::seq_lib::group_to_multiset_ensures;

            if orders_totally::<T>() && is_max_heap(old(self)@) {
                let pushed = self.data@;
                assert forall|i: int|
                    0 < i < pushed.len() && i != old_len && parent(i) != old_len
                implies #[trigger] sits_right(pushed, i) by {
                    assert(sits_right(old(self)@, i));
                }
                assert(heap_except_upwards(pushed, old_len as int));
            }
        }
        self.sift_up(0, old_len);
    }

    /// Removes the root and returns it; `None` on an empty heap. The last
    /// leaf takes the root's place and is moved to where it belongs. None of
    /// the other elements is lost or doubled and heap order is kept, so the
    /// element returned is a greatest one.
    pub fn pop(&mut self) -> (r: Option<T>)
        ensures
            old(self)@.len() == 0 ==> r is None && final(self)@ == old(self)@,
            old(self)@.len() > 0 ==> {
                &&& r == Some(old(self)@[0])
                &&& final(self)@.len() == old(self)@.len() - 1
                &&& final(self)@.to_multiset() == old(self)@.to_multiset().remove(old(self)@[0])
            },
            orders_totally::<T>() && is_max_heap(old(self)@) ==> {
                &&& is_max_heap(final(self)@)
                &&& forall|i: int|
                    0 <= i < old(self)@.len() ==> at_most(#[trigger] old(self)@[i], r.unwrap())
            },
    {
        let n = self.data.len();
        if n == 0 {
            return None;
        }
        proof {
            lemma_swap_keeps_elements(self.data@, 0, n - 1);
        }
        swap_elements(&mut self.data, 0, n - 1);
        let ghost swapped = self.data@;
        let root = self.data.pop();
        proof {
            broadcast use vstd::seq_lib::group_to_multiset_ensures;

            assert(swapped =~= self.data@.push(swapped[n - 1]));
            assert(swapped.to_multiset() == self.data@.to_multiset().insert(swapped[n - 1]));
            assert(self.data@.to_multiset() =~= old(self)@.to_multiset().remove(old(self)@[0]));
            if orders_totally::<T>() && is_max_heap(old(self)@) {
                let cut = self.data@;
                assert forall|i: int| 0 < i < cut.len() && parent(i) != 0
                implies #[trigger] sits_right(cut, i) by {
                    assert(sits_right(old(self)@, i));
                }
                assert(heap_except(cut, 0));
                assert forall|i: int| 0 <= i < old(self)@.len() implies at_most(
                    #[trigger] old(self)@[i],
                    old(self)@[0],
                ) by {
                    lemma_root_is_greatest(old(self)@, i);
                }
            }
        }
        if n > 1 {
            self.sift_down_to_bottom(0);
        }
        root
    }

    /// The root, if there is one.
    pub fn peek(&self) -> (r: Option<&T>)
        ensures
            self@.len() == 0 <==> r is None,
            r is Some ==> *r->0 == self@[0],
    {
        if self.data.len() > 0 {
            Some(&self.data[0])
        } else {
            None
        }
    }

    /// Moves the element at `pos` towards `start` for as long as it is not
    /// less than its parent. With `start` at the root this mends a heap whose
    /// only fault is that the element at `pos` may be greater than its parent.
    fn sift_up(&mut self, start: usize, pos: usize)
        requires
            pos < old(self)@.len(),
        ensures
            final(self)@.len() == old(self)@.len(),
            final(self)@.to_multiset() == old(self)@.to_multiset(),
            orders_totally::<T>() && start == 0 && heap_except_upwards(old(self)@, pos as int)
                ==> is_max_heap(final(self)@),
    {
        let ghost mending = orders_totally::<T>() && start == 0 && heap_except_upwards(
            old(self)@,
            pos as int,
        );
        let mut pos = pos;
        while pos > start
            invariant
                pos < self.data@.len(),
                self.data@.len() == old(self)@.len(),
                self.data@.to_multiset() == old(self)@.to_multiset(),
                mending ==> orders_totally::<T>() && start == 0 && heap_except_upwards(
                    self.data@,
                    pos as int,
                ),
            ensures
                mending ==> is_max_heap(self.data@),
            decreases pos,
        {
            let up = (pos - 1) / 2;
            let ghost before = self.data@;
            if self.data[pos] < self.data[up] {
                proof {
                    if mending {
                        lemma_settled(before, pos as int);
                    }
                }
                break ;
            }
            proof {
                lemma_swap_keeps_elements(self.data@, pos as int, up as int);
            }
            swap_elements(&mut self.data, pos, up);
            proof {
                if mending {
                    lemma_step_up(before, self.data@, pos as int);
                }
            }
            pos = up;
        }
    }

    /// Moves the element at `pos` down to a leaf, each time below the larger
    /// of the two children, and from there up again as far as it belongs.
    /// From the root this mends a heap whose only fault is its root.
    fn sift_down_to_bottom(&mut self, pos: usize)
        requires
            pos < old(self)@.len(),
        ensures
            final(self)@.len() == old(self)@.len(),
            final(self)@.to_multiset() == old(self)@.to_multiset(),
            orders_totally::<T>() && pos == 0 && heap_except(old(self)@, 0) ==> is_max_heap(
                final(self)@,
            ),
    {
        let ghost mending = orders_totally::<T>() && pos == 0 && heap_except(old(self)@, 0);
        let end = self.len();
        let start = pos;
        let mut pos = pos;
        while pos < end / 2 && 2 * pos + 2 < end
            invariant
                end == self.data@.len(),
                pos < end,
                self.data@.len() == old(self)@.len(),
                self.data@.to_multiset() == old(self)@.to_multiset(),
                mending ==> orders_totally::<T>() && start == 0 && heap_except(
                    self.data@,
                    pos as int,
                ),
            decreases end - pos,
        {
            let mut child = 2 * pos + 1;
            if self.data[child] <= self.data[child + 1] {
                child = child + 1;
            }
            let ghost before = self.data@;
            proof {
                lemma_swap_keeps_elements(self.data@, pos as int, child as int);
            }
            swap_elements(&mut self.data, pos, child);
            proof {
                if mending {
                    lemma_step_down(before, self.data@, pos as int, child as int);
                }
            }
            pos = child;
        }
        if pos < end / 2 && 2 * pos + 1 < end {
            let child = 2 * pos + 1;
            let ghost before = self.data@;
            proof {
                lemma_swap_keeps_elements(self.data@, pos as int, child as int);
            }
            swap_elements(&mut self.data, pos, child);
            proof {
                if mending {
                    lemma_step_down(before, self.data@, pos as int, child as int);
                }
            }
            pos = child;
        }
        proof {
            if mending {
                lemma_leaf_is_open_upwards(self.data@, pos as int);
            }
        }
        self.sift_up(start, pos);
    }
}

/// An element that is less than its parent ends the mending: the heap is in
/// order.
proof fn lemma_settled<T: Ord>(s: Seq<T>, pos: int)
    requires
        orders_totally::<T>(),
        0 < pos < s.len(),
        heap_except_upwards(s, pos),
        less(s[pos], s[parent(pos)]),
    ensures
        is_max_heap(s),
{
    assert(at_most(s[pos], s[parent(pos)]) || at_most(s[parent(pos)], s[pos]));
    assert forall|i: int| 0 < i < s.len() implies #[trigger] sits_right(s, i) by {
        if i == pos {
        } else if parent(i) == pos {
        } else {
        }
    }
}

/// One step of mending upwards: an element that is not less than its parent
/// changes places with it, and the open place is then the parent's.
proof fn lemma_step_up<T: Ord>(before: Seq<T>, after: Seq<T>, pos: int)
    requires
        orders_totally::<T>(),
        0 < pos < before.len(),
        heap_except_upwards(before, pos),
        !less(before[pos], before[parent(pos)]),
        after == before.update(pos, before[parent(pos)]).update(parent(pos), before[pos]),
    ensures
        heap_except_upwards(after, parent(pos)),
{
    let up = parent(pos);
    assert(at_most(before[up], before[pos]));
    assert forall|i: int| 0 < i < after.len() && i != up && parent(i) != up
    implies #[trigger] sits_right(after, i) by {
        if parent(i) == pos {
            assert(at_most(before[i], before[parent(pos)]));
        } else {
            assert(sits_right(before, i));
        }
    }
    assert forall|k: int| 0 < k < after.len() && parent(k) == up && up > 0 implies at_most(
        #[trigger] after[k],
        after[parent(up)],
    ) by {
        assert(sits_right(before, up));
        if k == pos {
        } else {
            assert(sits_right(before, k));
            assert(at_most(before[k], before[up]) && at_most(before[up], before[parent(up)]));
        }
    }
    assert forall|k: int| 0 < k < after.len() && parent(k) == up
    implies #[trigger] sits_right(after, k) by {
        if k == pos {
        } else {
            assert(sits_right(before, k));
            assert(at_most(before[k], before[up]) && at_most(before[up], before[pos]));
        }
    }
}

/// One step of moving down: the element at the open place changes places
/// with a child that is not less than the other child, if there is another,
/// and the open place is then the child's.
proof fn lemma_step_down<T: Ord>(before: Seq<T>, after: Seq<T>, pos: int, child: int)
    requires
        orders_totally::<T>(),
        0 <= pos < child < before.len(),
        parent(child) == pos,
        heap_except(before, pos),
        forall|k: int|
            0 < k < before.len() && parent(k) == pos ==> at_most(#[trigger] before[k], before[child]),
        after == before.update(pos, before[child]).update(child, before[pos]),
    ensures
        heap_except(after, child),
{
    assert forall|i: int| 0 < i < after.len() && i != child && parent(i) != child
    implies #[trigger] sits_right(after, i) by {
        if i == pos {
            assert(at_most(before[child], before[parent(pos)]));
        } else if parent(i) == pos {
            assert(at_most(before[i], before[child]));
        } else {
            assert(sits_right(before, i));
        }
    }
    assert forall|k: int| 0 < k < after.len() && parent(k) == child && child > 0 implies at_most(
        #[trigger] after[k],
        after[parent(child)],
    ) by {
        assert(sits_right(before, k));
    }
}

/// At a leaf the open place has no children, so what is left to mend lies
/// upwards.
proof fn lemma_leaf_is_open_upwards<T: Ord>(s: Seq<T>, pos: int)
    requires
        0 <= pos < s.len(),
        2 * pos + 1 >= s.len(),
        heap_except(s, pos),
    ensures
        heap_except_upwards(s, pos),
{
}

} // verus!
