use refcount::rc::{Rc, RcHeap};

#[test]
fn construct_starts_at_one() {
    let mut h: RcHeap<u64> = RcHeap::new();
    let rc = Rc::new(&mut h, 42);
    assert_eq!(rc.strong_count(&h), 1);
    assert_eq!(rc.weak_count(&h), 0);
    assert_eq!(*rc.get(&h), 42);
    assert_eq!(rc.dispose(&mut h), Some(42));
}

#[test]
fn scenario_five() {
    // Construct with value 5: strong=1, weak=0. Downgrade: weak=1.
    // Duplicate: strong=2. Dispose the original: strong=1, upgrade still
    // succeeds and yields 5. Dispose both remaining strong handles:
    // strong=0, the value is destroyed, upgrade yields nothing.
    let mut h: RcHeap<u64> = RcHeap::new();
    let rc1 = Rc::new(&mut h, 5);
    assert_eq!(rc1.strong_count(&h), 1);
    assert_eq!(rc1.weak_count(&h), 0);
    let w = rc1.downgrade(&mut h);
    assert_eq!(w.weak_count(&h), 1);
    let rc2 = rc1.duplicate(&mut h);
    assert_eq!(rc2.strong_count(&h), 2);
    assert_eq!(rc1.dispose(&mut h), None);
    assert_eq!(rc2.strong_count(&h), 1);
    let rc3 = w.upgrade(&mut h).expect("value still alive");
    assert_eq!(*rc3.get(&h), 5);
    assert_eq!(rc3.dispose(&mut h), None);
    assert_eq!(rc2.dispose(&mut h), Some(5));
    assert_eq!(w.strong_count(&h), 0);
    assert!(w.upgrade(&mut h).is_none());
    assert!(w.dispose(&mut h));
}

#[test]
fn destroy_runs_once_without_weak() {
    // However many strong handles existed, exactly one dispose hands the
    // value back: its destruction happens exactly once.
    let mut h: RcHeap<String> = RcHeap::new();
    let rc1 = Rc::new(&mut h, String::from("payload"));
    let rc2 = rc1.duplicate(&mut h);
    let rc3 = rc1.duplicate(&mut h);
    let rc4 = rc1.duplicate(&mut h);
    let mut destroyed = 0;
    for d in [
        rc2.dispose(&mut h),
        rc4.dispose(&mut h),
        rc1.dispose(&mut h),
        rc3.dispose(&mut h),
    ] {
        if let Some(s) = d {
            assert_eq!(s, "payload");
            destroyed += 1;
        }
    }
    assert_eq!(destroyed, 1);
}

#[test]
fn last_strong_with_weak_leaves_block() {
    // Disposing the last strong handle while weak handles exist destroys
    // the value but keeps the block, and every later upgrade yields nothing.
    let mut h: RcHeap<u64> = RcHeap::new();
    let rc = Rc::new(&mut h, 9);
    let w1 = rc.downgrade(&mut h);
    let w2 = w1.duplicate(&mut h);
    assert_eq!(rc.dispose(&mut h), Some(9));
    assert_eq!(w1.strong_count(&h), 0);
    assert_eq!(w1.weak_count(&h), 2);
    assert!(w1.upgrade(&mut h).is_none());
    assert!(w2.upgrade(&mut h).is_none());
    assert!(!w1.dispose(&mut h));
    assert!(w2.dispose(&mut h));
}

#[test]
fn upgrade_before_last_dispose_succeeds() {
    let mut h: RcHeap<u64> = RcHeap::new();
    let rc = Rc::new(&mut h, 7);
    let w = rc.downgrade(&mut h);
    let up = w.upgrade(&mut h).expect("strong handle still exists");
    assert_eq!(*up.get(&h), 7);
    assert_eq!(up.strong_count(&h), 2);
    assert_eq!(up.dispose(&mut h), None);
    assert_eq!(rc.dispose(&mut h), Some(7));
    // The value is gone and this is the last weak handle: the block is freed.
    assert!(w.dispose(&mut h));
}

#[test]
fn upgrade_after_last_dispose_fails() {
    let mut h: RcHeap<u64> = RcHeap::new();
    let rc = Rc::new(&mut h, 11);
    let w1 = rc.downgrade(&mut h);
    let w2 = rc.downgrade(&mut h);
    assert_eq!(rc.dispose(&mut h), Some(11));
    // Weak handles still exist, yet no upgrade can succeed any more.
    assert!(w1.upgrade(&mut h).is_none());
    assert!(w2.upgrade(&mut h).is_none());
    assert!(w1.upgrade(&mut h).is_none());
    assert!(!w1.dispose(&mut h));
    assert!(w2.dispose(&mut h));
}

#[test]
fn free_order_strong_then_weak() {
    // Final strong disposal first: the value dies but the block stays for
    // the weak handle; the final weak disposal then frees the block.
    let mut h: RcHeap<u64> = RcHeap::new();
    let rc = Rc::new(&mut h, 1);
    let w = rc.downgrade(&mut h);
    assert_eq!(rc.dispose(&mut h), Some(1));
    assert!(w.dispose(&mut h));
}

#[test]
fn free_order_weak_then_strong() {
    // Final weak disposal first: the block stays with its strong handles
    // and nothing is freed; the final strong disposal then frees it.
    let mut h: RcHeap<u64> = RcHeap::new();
    let rc = Rc::new(&mut h, 2);
    let w = rc.downgrade(&mut h);
    assert!(!w.dispose(&mut h));
    assert_eq!(rc.strong_count(&h), 1);
    assert_eq!(rc.weak_count(&h), 0);
    assert_eq!(rc.dispose(&mut h), Some(2));
}

#[test]
fn blocks_are_independent() {
    let mut h: RcHeap<u64> = RcHeap::new();
    let a = Rc::new(&mut h, 100);
    let b = Rc::new(&mut h, 200);
    assert_eq!(a.dispose(&mut h), Some(100));
    assert_eq!(*b.get(&h), 200);
    assert_eq!(b.strong_count(&h), 1);
    assert_eq!(b.dispose(&mut h), Some(200));
}
