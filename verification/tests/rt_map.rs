use rt_map::BorrowFail;
use rt_map::RtMap;

#[derive(Debug, Default, PartialEq)]
struct Res;

#[derive(Debug, Default, PartialEq)]
struct Value(u32);

#[test]
fn rt_map_insert() {
    let mut rt_map = RtMap::new();
    rt_map.insert('a', Res);

    assert!(rt_map.contains_key(&'a'));
    assert!(!rt_map.contains_key(&'b'));
}

#[test]
fn rt_map_with_capacity_reserves_enough_capacity() {
    let map: RtMap<i32, i32> = RtMap::with_capacity(100);
    assert!(map.capacity() >= 100);
}

#[test]
fn into_inner() {
    let mut rt_map = RtMap::new();
    rt_map.insert('a', Res);
    let inner_map = rt_map.into_inner();

    assert!(inner_map.contains_key(&'a'));
}

#[test]
fn rt_map_deref_and_deref_mut() {
    let mut rt_map = RtMap::new();
    rt_map.insert('a', 0);
    rt_map.insert('b', 1);

    rt_map.iter_mut().for_each(|(_k, v)| *v.borrow_mut() += 1);

    let a = rt_map.remove(&'a');
    assert_eq!(Some(1), a);

    let b = rt_map.iter().next();
    assert_eq!(Some(2), b.map(|(_k, v)| *v.borrow()));
}

#[test]
fn rt_map_is_empty_returns_true_when_map_does_not_contain_items() {
    let rt_map = RtMap::<char, u32>::new();

    assert!(rt_map.is_empty());
}

#[test]
fn rt_map_is_empty_returns_false_when_map_contains_items() {
    let mut rt_map = RtMap::new();

    rt_map.insert('a', 0);

    assert!(!rt_map.is_empty());
}

#[test]
fn entry_insert_value() {
    let mut rt_map = RtMap::new();

    let ref_mut = rt_map.entry('a').or_insert(1).unwrap();

    assert_eq!(1, *ref_mut);
    drop(ref_mut);

    let ref_mut = rt_map.entry('a').or_insert(2).unwrap();

    assert_eq!(1, *ref_mut);
    drop(ref_mut);

    rt_map.remove(&'a');

    let ref_mut = rt_map.entry('a').or_insert_with(|| 3).unwrap();

    assert_eq!(3, *ref_mut);
    drop(ref_mut);
}

#[test]
fn rt_map_get_mut_returns_mutable_reference_to_value() {
    let mut rt_map = RtMap::new();
    rt_map.insert('a', Value(1));

    let value = rt_map.get_mut(&'a');

    assert!(value.is_some());

    if let Some(value) = value {
        *value = Value(2);
    }

    let value = rt_map.get_mut(&'a').map(|value| value.0);

    assert_eq!(Some(2), value);
}

#[test]
#[should_panic(expected = "but it was already borrowed")]
fn rt_map_read_write_fails() {
    let mut rt_map = RtMap::new();
    rt_map.insert('a', Res);

    let _read = rt_map.borrow(&'a').unwrap();
    let _write = rt_map.borrow_mut(&'a').unwrap();
}

#[test]
#[should_panic(expected = "but it was already borrowed mutably")]
fn rt_map_write_read_fails() {
    let mut rt_map = RtMap::new();
    rt_map.insert('a', Res);

    let _write = rt_map.borrow_mut(&'a').unwrap();
    let _read = rt_map.borrow(&'a').unwrap();
}

#[test]
fn rt_map_remove_insert() {
    let mut rt_map = RtMap::new();
    rt_map.insert('a', Res);

    assert!(rt_map.contains_key(&'a'));

    rt_map.remove(&'a').unwrap();

    assert!(!rt_map.contains_key(&'a'));

    rt_map.insert('a', Res);

    assert!(rt_map.contains_key(&'a'));
}

#[test]
#[should_panic(expected = "Expected to borrow `'a'`, but it does not exist.")]
fn rt_map_borrow_before_insert_panics() {
    let rt_map = RtMap::<char, i32>::new();

    rt_map.borrow(&'a').unwrap();
}

#[test]
#[should_panic(expected = "Expected to borrow `'a'`, but it does not exist.")]
fn rt_map_borrow_mut_before_insert_panics() {
    let rt_map = RtMap::<char, i32>::new();

    rt_map.borrow_mut(&'a').unwrap();
}

#[test]
fn rt_map_borrow_mut_try_borrow_returns_borrow_conflict_imm() {
    let mut rt_map = RtMap::new();
    rt_map.insert('a', Res);

    let _res = rt_map.borrow_mut(&'a');

    assert_eq!(Err(BorrowFail::BorrowConflictImm), rt_map.try_borrow(&'a'));
}

#[test]
fn rt_map_borrow_try_borrow_mut_returns_borrow_conflict_mut() {
    let mut rt_map = RtMap::new();
    rt_map.insert('a', Res);

    let _res = rt_map.borrow(&'a');

    assert_eq!(
        Err(BorrowFail::BorrowConflictMut),
        rt_map.try_borrow_mut(&'a')
    );
}

#[test]
fn rt_map_borrow_mut_borrow_mut_returns_borrow_conflict_mut() {
    let mut rt_map = RtMap::new();
    rt_map.insert('a', Res);

    let _res = rt_map.borrow_mut(&'a');

    assert_eq!(
        Err(BorrowFail::BorrowConflictMut),
        rt_map.try_borrow_mut(&'a')
    );
}

#[test]
fn rt_map_try_borrow_before_insert_returns_value_not_found() {
    let rt_map = RtMap::<char, Res>::new();

    assert_eq!(Err(BorrowFail::ValueNotFound), rt_map.try_borrow(&'a'));
}

#[test]
fn rt_map_try_borrow_mut_before_insert_returns_value_not_found() {
    let rt_map = RtMap::<char, Res>::new();

    assert_eq!(Err(BorrowFail::ValueNotFound), rt_map.try_borrow_mut(&'a'));
}

#[test]
#[should_panic(expected = "Expected to borrow `'a'`, but it does not exist.")]
fn rt_map_borrow_before_insert_panics_value_not_found() {
    let rt_map = RtMap::<char, Res>::new();

    rt_map.borrow(&'a').unwrap();
}

#[test]
#[should_panic(expected = "Expected to borrow `'a'`, but it does not exist.")]
fn rt_map_borrow_mut_before_insert_panics_value_not_found() {
    let rt_map = RtMap::<char, Res>::new();

    rt_map.borrow_mut(&'a').unwrap();
}
