use draw_dispatch::util::SyncContainer;
use std::cell::Cell;
use std::rc::Rc;
use std::sync::{Arc, Mutex};

#[test]
fn reading_through_the_container_reads_the_value() {
    let c = SyncContainer::new(41u32);
    assert_eq!(*c, 41);
    let s = SyncContainer::new(String::from("handle"));
    assert_eq!(s.len(), 6);
    assert_eq!(&*s, "handle");
}

#[test]
fn writing_through_the_container_writes_the_value() {
    let mut c = SyncContainer::new(vec![1, 2, 3]);
    c.push(4);
    *c.last_mut().unwrap() = 9;
    assert_eq!(*c, vec![1, 2, 3, 9]);
    *c = vec![7];
    assert_eq!(*c, vec![7]);
}

#[test]
fn copy_of_a_plain_value_is_independent() {
    let mut a = SyncContainer::new(vec![1u8, 2]);
    let b = a.clone();
    a.push(3);
    assert_eq!(*a, vec![1, 2, 3]);
    assert_eq!(*b, vec![1, 2]);
    let mut n = SyncContainer::new(5i64);
    let m = n.clone();
    *n += 1;
    assert_eq!(*n, 6);
    assert_eq!(*m, 5);
}

#[test]
fn copy_of_a_shared_handle_sees_the_same_value() {
    let a = SyncContainer::new(Arc::new(Mutex::new(0u32)));
    let b = a.clone();
    *a.lock().unwrap() = 12;
    assert_eq!(*b.lock().unwrap(), 12);
    assert!(Arc::ptr_eq(&a, &b));
    assert_eq!(Arc::strong_count(&a), 2);

    let x = SyncContainer::new(Rc::new(Cell::new(1u8)));
    let y = x.clone();
    y.set(8);
    assert_eq!(x.get(), 8);
}

#[test]
fn container_shows_in_debug_as_a_tuple() {
    let c = SyncContainer::new(3u8);
    assert_eq!(format!("{:?}", c), "SyncContainer(3)");
}
