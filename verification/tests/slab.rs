use locker::async_locker::slab::Slab;

#[test]
fn slab_insert_then_remove_gives_the_value_back() {
    let mut slab = Slab::new();
    let a = slab.insert("a");
    let b = slab.insert("b");
    assert_eq!(a.0, 0);
    assert_eq!(b.0, 1);
    assert_eq!(slab.remove(a), "a");
    let c = slab.insert("c");
    assert_eq!(c.0, 0);
    assert_eq!(slab.len(), 2);
    assert_eq!(slab.remove(b), "b");
    assert_eq!(slab.remove(c), "c");
    let d = slab.insert("d");
    assert_eq!(d.0, 0);
}

#[test]
fn slab_iter_mut_visits_stored_values_in_slot_order() {
    let mut slab = Slab::new();
    let a = slab.insert(1);
    let _b = slab.insert(2);
    let _c = slab.insert(3);
    assert_eq!(slab.remove(a), 1);

    let mut iter = slab.iter_mut();
    let (i, v) = iter.next(&mut slab).unwrap();
    assert_eq!(i.0, 1);
    *v += 10;
    let (i, v) = iter.next(&mut slab).unwrap();
    assert_eq!(i.0, 2);
    assert_eq!(*v, 3);
    assert!(iter.next(&mut slab).is_none());

    let mut iter = slab.iter_mut();
    let (_, v) = iter.next(&mut slab).unwrap();
    assert_eq!(*v, 12);
}
