use std::cell::Cell as Counter;

use rt_map::BorrowFail;
use rt_map::RtMap;
use rt_map::RtVec;

#[derive(Debug)]
struct A(u32);

#[test]
fn keyed_entries_are_borrowed_independently() {
    let mut rt_map = RtMap::new();

    rt_map.insert('a', A(1));
    rt_map.insert('b', A(2));

    let mut a = rt_map.borrow_mut(&'a').unwrap();
    let mut b = rt_map.borrow_mut(&'b').unwrap();
    a.0 = 2;
    b.0 = 3;

    drop(a);
    drop(b);

    let a_0 = rt_map.borrow(&'a').unwrap();
    let a_1 = rt_map.borrow(&'a').unwrap();
    let b = rt_map.borrow(&'b').unwrap();

    assert_eq!(2, a_0.0);
    assert_eq!(2, a_1.0);
    assert_eq!(3, b.0);

    let a_try_borrow_mut = rt_map.try_borrow_mut(&'a');
    assert_eq!(Some(BorrowFail::BorrowConflictMut), a_try_borrow_mut.err());
}

#[test]
fn indexed_entries_are_borrowed_independently() {
    let mut rt_vec = RtVec::new();

    rt_vec.push(A(1));
    rt_vec.push(A(2));

    let mut a = rt_vec.borrow_mut(0).unwrap();
    let mut b = rt_vec.borrow_mut(1).unwrap();
    a.0 = 2;
    b.0 = 3;

    drop(a);
    drop(b);

    let a_0 = rt_vec.borrow(0).unwrap();
    let _a_1 = rt_vec.borrow(0).unwrap();
    let b = rt_vec.borrow(1).unwrap();

    assert_eq!(2, a_0.0);
    assert_eq!(3, b.0);

    let a_try_borrow_mut = rt_vec.try_borrow_mut(0);
    assert_eq!(Some(BorrowFail::BorrowConflictMut), a_try_borrow_mut.err());
}

#[test]
fn swap_remove_yields_the_entry_and_moves_the_last_into_its_place() {
    let mut rt_vec = RtVec::new();
    rt_vec.push(10);
    rt_vec.push(20);

    assert_eq!(10, rt_vec.swap_remove(0));

    assert_eq!(1, rt_vec.len());
    assert_eq!(20, *rt_vec.try_borrow(0).unwrap());

    let mut longer = RtVec::new();
    longer.push("foo");
    longer.push("bar");
    longer.push("baz");
    longer.push("qux");

    assert_eq!("bar", longer.swap_remove(1));
    assert_eq!(3, longer.len());
    assert_eq!("foo", *longer.try_borrow(0).unwrap());
    assert_eq!("qux", *longer.try_borrow(1).unwrap());
    assert_eq!("baz", *longer.try_borrow(2).unwrap());
}

#[test]
fn remove_yields_the_entry_and_keeps_the_order() {
    let mut rt_vec = RtVec::new();
    rt_vec.push(10);
    rt_vec.push(20);

    assert_eq!(10, rt_vec.remove(0));

    assert_eq!(1, rt_vec.len());
    assert_eq!(20, *rt_vec.try_borrow(0).unwrap());

    let mut longer = RtVec::new();
    longer.push("foo");
    longer.push("bar");
    longer.push("baz");
    longer.push("qux");

    assert_eq!("bar", longer.remove(1));
    assert_eq!(3, longer.len());
    assert_eq!("foo", *longer.try_borrow(0).unwrap());
    assert_eq!("baz", *longer.try_borrow(1).unwrap());
    assert_eq!("qux", *longer.try_borrow(2).unwrap());
}

#[test]
fn insert_shifts_the_entries_after_it() {
    let mut rt_vec = RtVec::new();
    rt_vec.push('a');
    rt_vec.insert(0, 'b');
    rt_vec.insert(1, 'c');

    assert_eq!('b', *rt_vec.try_borrow(0).unwrap());
    assert_eq!('c', *rt_vec.try_borrow(1).unwrap());
    assert_eq!('a', *rt_vec.try_borrow(2).unwrap());
}

#[test]
fn push_appends_in_order() {
    let mut rt_vec = RtVec::new();

    rt_vec.push('a');
    rt_vec.push('b');
    assert_eq!('a', *rt_vec.try_borrow(0).unwrap());
    assert_eq!('b', *rt_vec.try_borrow(1).unwrap());
    assert!(rt_vec.capacity() >= 2);
}

#[test]
fn or_insert_with_evaluates_only_for_an_absent_key() {
    let evaluations = Counter::new(0u32);
    let expensive = || {
        evaluations.set(evaluations.get() + 1);
        41
    };
    let mut rt_map = RtMap::new();

    let mut stored = rt_map.entry('a').or_insert_with(expensive).unwrap();
    assert_eq!(41, *stored);
    *stored += 1;
    drop(stored);
    assert_eq!(1, evaluations.get());

    let kept = rt_map.entry('a').or_insert(7).unwrap();
    assert_eq!(42, *kept);
    drop(kept);

    let untouched = rt_map.entry('a').or_insert_with(expensive).unwrap();
    assert_eq!(42, *untouched);
    drop(untouched);
    assert_eq!(1, evaluations.get());
    assert_eq!(1, rt_map.len());
}

#[test]
fn or_insert_is_refused_only_after_a_leaked_guard() {
    let mut rt_map = RtMap::new();
    rt_map.insert('a', 1);

    std::mem::forget(rt_map.try_borrow(&'a').unwrap());

    assert_eq!(
        Some(BorrowFail::BorrowConflictMut),
        rt_map.entry('a').or_insert(2).err()
    );
    assert_eq!(
        Some(BorrowFail::BorrowConflictMut),
        rt_map.entry('a').or_insert_with(|| 3).err()
    );
}

#[test]
fn map_insert_returns_the_value_replaced() {
    let mut map = RtMap::new();
    assert_eq!(map.insert(37, "a"), None);
    assert_eq!(map.is_empty(), false);

    map.insert(37, "b");
    assert_eq!(map.insert(37, "c"), Some("b"));
    assert_eq!(*map.try_borrow(&37).unwrap(), "c");
}

#[test]
fn map_remove_returns_the_value_once() {
    let mut map = RtMap::new();
    map.insert(1, "a");
    assert_eq!(map.remove(&1), Some("a"));
    assert_eq!(map.remove(&1), None);
}

#[test]
fn get_raw_hands_out_the_cell() {
    let mut rt_vec = RtVec::new();
    rt_vec.push(3);
    assert_eq!(3, *rt_vec.get_raw(0).unwrap().borrow());
    assert!(rt_vec.get_raw(1).is_none());

    let mut rt_map = RtMap::new();
    rt_map.insert('a', 4);
    assert_eq!(4, *rt_map.get_raw(&'a').unwrap().borrow());
    assert!(rt_map.get_raw(&'b').is_none());
}

#[test]
fn get_value_mut_writes_in_place() {
    let mut rt_vec = RtVec::new();
    rt_vec.push(3);
    *rt_vec.get_value_mut(0).unwrap() += 1;
    assert_eq!(4, *rt_vec.try_borrow(0).unwrap());
    assert!(rt_vec.get_value_mut(1).is_none());

    let mut rt_map = RtMap::new();
    rt_map.insert('a', 4);
    *rt_map.get_resource_mut(&'a').unwrap() += 1;
    assert_eq!(5, *rt_map.try_borrow(&'a').unwrap());
    assert!(rt_map.get_resource_mut(&'b').is_none());
}

#[test]
fn cloned_guard_shows_the_same_value_and_keeps_the_entry_shared() {
    let mut rt_vec = RtVec::new();
    rt_vec.push(5);

    let first = rt_vec.try_borrow(0).unwrap();
    let copy = first.try_clone().unwrap();
    drop(first);

    assert_eq!(5, *copy);
    assert_eq!(
        Some(BorrowFail::BorrowConflictMut),
        rt_vec.try_borrow_mut(0).err()
    );
    drop(copy);
    assert!(rt_vec.try_borrow_mut(0).is_ok());
}

#[test]
fn default_containers_are_empty() {
    let rt_vec = RtVec::<u8>::default();
    assert!(rt_vec.is_empty());
    assert_eq!(0, rt_vec.len());

    let rt_map = RtMap::<u8, u8>::default();
    assert!(rt_map.is_empty());
    assert_eq!(0, rt_map.len());
    assert_eq!(None, rt_map.try_borrow(&1).ok().map(|guard| *guard));
}

#[test]
fn map_capacity_holds_what_was_asked_for() {
    let rt_map: RtMap<i32, i32> = RtMap::with_capacity(10);
    assert!(rt_map.capacity() >= 10);
    assert!(rt_map.is_empty());
}
