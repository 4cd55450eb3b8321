use channels::binary_heap::BinaryHeap;
use channels::cow::Cow;
use channels::linkedlist::{LinkedList, Node};
use channels::rc::{after_clone, after_drop};
use channels::reference::{
    acquire_exclusive, acquire_shared, is_reading, is_writing, release_exclusive, release_shared,
    UNUSED,
};

#[test]
#[allow(non_snake_case)]
fn BinaryHeap_test_new() {
    let heap: BinaryHeap<i32> = BinaryHeap::new();
    assert!(heap.is_empty());
}

#[test]
fn test_new_with_capacity() {
    let heap: BinaryHeap<i32> = BinaryHeap::new_with_capacity(10);
    assert!(heap.is_empty());
    assert_eq!(heap.capacity(), 10);
}

#[test]
fn test_is_empty() {
    let heap: BinaryHeap<i32> = BinaryHeap::new();
    assert!(heap.is_empty());
}

#[test]
fn test_pop_empty() {
    let mut heap: BinaryHeap<i32> = BinaryHeap::new();
    assert!(heap.pop().is_none());
}

#[test]
fn test_pop_non_empty() {
    let mut heap: BinaryHeap<i32> = BinaryHeap::new();
    heap.push(1);
    heap.push(2);
    heap.push(3);
    heap.push(4);
    assert_eq!(heap.pop(), Some(4));
    assert_eq!(heap.peek(), Some(&3));
}

#[test]
fn heap_pops_in_descending_order() {
    let mut heap: BinaryHeap<i32> = BinaryHeap::new();
    for x in [5, 1, 9, 3, 7, 7, 2, 8, 0, 6, 4] {
        heap.push(x);
    }
    assert_eq!(heap.len(), 11);
    let mut out = Vec::new();
    while let Some(x) = heap.pop() {
        out.push(x);
    }
    assert_eq!(out, vec![9, 8, 7, 7, 6, 5, 4, 3, 2, 1, 0]);
    assert!(heap.is_empty());
    assert_eq!(heap.peek(), None);
}

#[test]
fn heap_of_one() {
    let mut heap: BinaryHeap<u8> = BinaryHeap::new();
    heap.push(3);
    assert_eq!(heap.peek(), Some(&3));
    assert_eq!(heap.pop(), Some(3));
    assert_eq!(heap.pop(), None);
}

#[test]
fn test_borrowed() {
    let s = "hello".to_string();
    let cow: Cow<str> = Cow::Borrowed(&s);
    assert!(cow.is_borrowed());
    assert!(!cow.is_owned());
    assert_eq!(&*cow, "hello");
}

#[test]
fn test_owned() {
    let s = "hello".to_string();
    let cow: Cow<str> = Cow::Owned(s.clone());
    assert!(!cow.is_borrowed());
    assert!(cow.is_owned());
    assert_eq!(&*cow, "hello");
}

#[test]
fn test_to_mut() {
    let s = "hello".to_string();
    let mut cow: Cow<str> = Cow::Borrowed(&s);
    assert!(cow.is_borrowed());
    let mutable_ref = cow.to_mut();
    mutable_ref.push_str(" world");
    assert!(cow.is_owned());
    assert_eq!(&*cow, "hello world");
}

#[test]
fn to_mut_leaves_the_lender_alone() {
    let s = "hello".to_string();
    let mut cow: Cow<str> = Cow::Borrowed(&s);
    cow.to_mut().push('!');
    assert_eq!(&*cow, "hello!");
    assert_eq!(s, "hello");
    cow.to_mut().push('?');
    assert_eq!(cow.into_owned(), "hello!?");
}

#[test]
fn test_into_owned() {
    let s = "hello".to_string();
    let cow: Cow<str> = Cow::Borrowed(&s);
    let owned = cow.into_owned();
    assert_eq!(owned, "hello");
}

#[test]
fn cow_test_clone() {
    let s = "hello".to_string();
    let cow: Cow<str> = Cow::Borrowed(&s);
    let cloned = cow.clone();
    assert!(cloned.is_borrowed());
    assert_eq!(&*cloned, "hello");

    let cow: Cow<str> = Cow::Owned(s.clone());
    let cloned = cow.clone();
    assert!(cloned.is_owned());
    assert_eq!(&*cloned, "hello");
}

#[test]
fn linked_list_both_ends() {
    let mut list: LinkedList<i32> = LinkedList::new();
    assert!(list.is_empty());
    assert_eq!(list.len(), 0);
    assert_eq!(list.pop_front(), None);
    assert_eq!(list.pop_back(), None);
    list.push_back(2);
    list.push_back(3);
    list.push_front(1);
    assert_eq!(list.len(), 3);
    assert!(!list.is_empty());
    assert_eq!(list.front(), Some(&1));
    assert_eq!(list.pop_back(), Some(3));
    assert_eq!(list.pop_front(), Some(1));
    assert_eq!(list.pop_front(), Some(2));
    assert_eq!(list.pop_front(), None);
    assert!(list.is_empty());
}

#[test]
fn linked_list_append_and_clear() {
    let mut a: LinkedList<u8> = LinkedList::new();
    let mut b: LinkedList<u8> = LinkedList::new();
    a.push_back(1);
    b.push_back(2);
    b.push_back(3);
    a.append(&mut b);
    assert_eq!(a.len(), 3);
    assert!(b.is_empty());
    assert_eq!(b.len(), 0);
    let mut empty: LinkedList<u8> = LinkedList::new();
    empty.append(&mut a);
    assert!(a.is_empty());
    assert_eq!(empty.pop_front(), Some(1));
    assert_eq!(empty.pop_front(), Some(2));
    assert_eq!(empty.pop_front(), Some(3));
    empty.push_back(9);
    empty.clear();
    assert!(empty.is_empty());
    assert_eq!(empty.len(), 0);
}

#[test]
fn linked_list_contains_finds_nothing() {
    let mut list: LinkedList<i32> = LinkedList::new();
    list.push_back(1);
    assert!(!list.contains(1));
    assert!(!list.contains(2));
}

#[test]
fn node_gives_its_element_back() {
    let node = Box::new(Node::new(5));
    assert_eq!(node.into_element(), 5);
}

#[test]
fn borrow_flag_shared() {
    assert_eq!(acquire_shared(UNUSED), Some(1));
    assert_eq!(acquire_shared(1), Some(2));
    assert_eq!(acquire_shared(-1), None);
    assert_eq!(acquire_shared(isize::MAX), None);
    assert_eq!(release_shared(2), 1);
    assert_eq!(release_shared(1), UNUSED);
    assert!(is_reading(1));
    assert!(!is_reading(UNUSED));
    assert!(!is_reading(-1));
}

#[test]
fn borrow_flag_exclusive() {
    assert_eq!(acquire_exclusive(UNUSED), Some(UNUSED - 1));
    assert_eq!(acquire_exclusive(1), None);
    assert_eq!(acquire_exclusive(-1), None);
    assert_eq!(release_exclusive(-1), UNUSED);
    assert!(is_writing(-1));
    assert!(!is_writing(UNUSED));
    assert!(!is_writing(1));
}

#[test]
fn linked_list_ends_in_place() {
    let mut list: LinkedList<i32> = LinkedList::new();
    assert_eq!(list.front(), None);
    assert_eq!(list.back(), None);
    assert!(list.front_mut().is_none());
    assert!(list.back_mut().is_none());
    list.push_back(1);
    list.push_back(2);
    list.push_back(3);
    assert_eq!(list.back(), Some(&3));
    if let Some(front) = list.front_mut() {
        *front = 10;
    }
    if let Some(back) = list.back_mut() {
        *back = 30;
    }
    assert_eq!(list.len(), 3);
    assert_eq!(list.pop_front(), Some(10));
    assert_eq!(list.pop_front(), Some(2));
    assert_eq!(list.pop_front(), Some(30));
    assert_eq!(list.pop_front(), None);
}

#[test]
fn pointer_count_rule() {
    assert_eq!(after_clone(1), 2);
    assert_eq!(after_clone(2), 3);
    assert_eq!(after_drop(3), Some(2));
    assert_eq!(after_drop(2), Some(1));
    assert_eq!(after_drop(1), None);
}

#[test]
fn cow_borrow_reads_both_kinds() {
    let s = "hello".to_string();
    let borrowed: Cow<str> = Cow::Borrowed(&s);
    let r: &str = std::borrow::Borrow::<str>::borrow(&borrowed);
    assert_eq!(r, "hello");
    assert!(std::ptr::eq(r, s.as_str()));
    let owned: Cow<str> = Cow::Owned("world".to_string());
    let r: &str = std::borrow::Borrow::<str>::borrow(&owned);
    assert_eq!(r, "world");
}
