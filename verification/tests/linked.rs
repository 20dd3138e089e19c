use lists::linked::SingleLinkedList;

#[test]
fn linked_is_empty() {
    let list = SingleLinkedList::<i32>::new();
    assert_eq!(list.is_empty(), true)
}

#[test]
fn can_append() {
    let mut list = SingleLinkedList::<i32>::new();
    assert_eq!(list.is_empty(), true);
    list.append(69);
    assert_eq!(list.is_empty(), false);
    assert_eq!(list.len(), 1);
}

#[test]
fn can_append_multiple() {
    let mut list = SingleLinkedList::<i32>::new();
    assert_eq!(list.is_empty(), true);
    list.append(69);
    list.append(69);
    assert_eq!(list.is_empty(), false);
    assert_eq!(list.len(), 2);
}

#[test]
fn linked_can_index() {
    let mut list = SingleLinkedList::<i32>::new();
    list.append(69);
    assert_eq!(*list.index(0), 69);
}

#[test]
fn linked_can_index_2() {
    let mut list = SingleLinkedList::<i32>::new();
    list.append(69);
    list.append(666);
    assert_eq!(*list.index(1), 666);
}

#[test]
fn index_past_end_is_none() {
    let mut list = SingleLinkedList::<i32>::new();
    list.append(69);
    list.append(666);
    assert_eq!(list.get(2), None);
}

#[test]
fn can_iter() {
    let mut list = SingleLinkedList::<i32>::new();
    list.append(69);
    let mut it = list.iter();
    assert_eq!(it.next().unwrap(), &69);
}

#[test]
fn can_iter_2() {
    let mut list = SingleLinkedList::<i32>::new();
    list.append(69);
    list.append(666);
    let mut it = list.iter();
    assert_eq!(it.next().unwrap(), &69);
    assert_eq!(it.next().unwrap(), &666);
}

#[test]
fn append_iter_scenario() {
    let mut list = SingleLinkedList::<i32>::new();
    list.append(69);
    list.append(666);
    let mut it = list.iter();
    assert_eq!(it.next(), Some(&69));
    assert_eq!(it.next(), Some(&666));
    assert_eq!(it.next(), None);
    assert_eq!(list.get(0), Some(&69));
    assert_eq!(list.get(1), Some(&666));
    assert_eq!(list.get(2), None);
}

#[test]
fn new_list_is_empty_with_len_zero() {
    let list = SingleLinkedList::<i32>::new();
    assert_eq!(list.len(), 0);
    assert_eq!(list.is_empty(), true);
}

#[test]
fn default_list_is_empty() {
    let list = SingleLinkedList::<i32>::default();
    assert_eq!(list.is_empty(), true);
    assert_eq!(list.len(), 0);
}

#[test]
fn len_counts_every_append() {
    let mut list = SingleLinkedList::<u64>::new();
    for n in 0..12u64 {
        assert_eq!(list.len(), n as usize);
        list.append(n * 7);
    }
    assert_eq!(list.len(), 12);
}

#[test]
fn iter_yields_append_order_and_stops() {
    let mut list = SingleLinkedList::<u64>::new();
    for n in 0..12u64 {
        list.append(n * 7);
    }
    let mut it = list.iter();
    let mut count: usize = 0;
    while let Some(v) = it.next() {
        assert_eq!(*v, count as u64 * 7);
        count += 1;
    }
    assert_eq!(count, 12);
    assert_eq!(it.next(), None);
    assert_eq!(it.next(), None);
}

#[test]
fn iter_of_empty_list_yields_nothing() {
    let list = SingleLinkedList::<i32>::new();
    let mut it = list.iter();
    assert_eq!(it.next(), None);
}

#[test]
fn fresh_iter_repeats_the_traversal() {
    let mut list = SingleLinkedList::<i32>::new();
    list.append(69);
    list.append(666);
    let mut first = list.iter();
    assert_eq!(first.next(), Some(&69));
    assert_eq!(first.next(), Some(&666));
    assert_eq!(first.next(), None);
    let mut second = list.iter();
    assert_eq!(second.next(), Some(&69));
    assert_eq!(second.next(), Some(&666));
    assert_eq!(second.next(), None);
}

#[test]
fn indexed_reads_follow_insertion_order() {
    let mut list = SingleLinkedList::<u64>::new();
    for n in 0..9u64 {
        list.append(100 + n);
    }
    for n in 0..9u64 {
        assert_eq!(list.get(n as usize), Some(&(100 + n)));
    }
    assert_eq!(list.get(9), None);
}
