use refcount::my_box::MyBox;
use refcount::my_rc::{MyRc, MyRcHeap};

#[test]
fn my_rc_counts_and_reads() {
    let mut h: MyRcHeap<u64> = MyRcHeap::new();
    let rc1 = MyRc::new(&mut h, 5);
    assert_eq!(rc1.ref_count(&h), 1);
    let rc2 = rc1.clone(&mut h);
    let rc3 = rc1.clone(&mut h);
    assert_eq!(rc1.ref_count(&h), 3);
    assert_eq!(*rc1.get(&h), 5);
    assert_eq!(*rc2.get(&h), 5);
    assert_eq!(*rc3.get(&h), 5);
    assert_eq!(rc1.dispose(&mut h), None);
    assert_eq!(rc3.dispose(&mut h), None);
    assert_eq!(rc2.ref_count(&h), 1);
    assert_eq!(rc2.dispose(&mut h), Some(5));
}

#[test]
fn my_rc_destroys_once() {
    let mut h: MyRcHeap<String> = MyRcHeap::new();
    let rc1 = MyRc::new(&mut h, String::from("once"));
    let rc2 = rc1.clone(&mut h);
    let mut destroyed = 0;
    for d in [rc1.dispose(&mut h), rc2.dispose(&mut h)] {
        if let Some(s) = d {
            assert_eq!(s, "once");
            destroyed += 1;
        }
    }
    assert_eq!(destroyed, 1);
}

#[test]
fn my_box_passes_access_through() {
    let mut b = MyBox::new(String::from("hello, "));
    assert_eq!(b.get(), "hello, ");
    let old = b.replace(String::from("hello, world"));
    assert_eq!(old, "hello, ");
    assert_eq!(b.into_inner(), "hello, world");
}

#[test]
fn my_box_wraps_any_value() {
    let b = MyBox::new(42u64);
    assert_eq!(*b.get(), 42);
    assert_eq!(b.into_inner(), 42);
}
