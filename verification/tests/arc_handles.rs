use refcount::arc::{Arc, ArcHeap};

#[test]
fn scenario_five_thread_safe() {
    let mut h: ArcHeap<u64> = ArcHeap::new();
    let a1 = Arc::new(&mut h, 5);
    assert_eq!(a1.strong_count(&h), 1);
    assert_eq!(a1.weak_count(&h), 0);
    let w = a1.downgrade(&mut h);
    assert_eq!(w.weak_count(&h), 1);
    let a2 = a1.duplicate(&mut h);
    assert_eq!(a2.strong_count(&h), 2);
    assert_eq!(a1.dispose(&mut h), None);
    assert_eq!(a2.strong_count(&h), 1);
    let a3 = w.upgrade(&mut h).expect("value still alive");
    assert_eq!(*a3.get(&h), 5);
    assert_eq!(a3.dispose(&mut h), None);
    assert_eq!(a2.dispose(&mut h), Some(5));
    assert_eq!(w.strong_count(&h), 0);
    assert!(w.upgrade(&mut h).is_none());
    assert!(w.dispose(&mut h));
}

#[test]
fn destroy_runs_once_without_weak_thread_safe() {
    let mut h: ArcHeap<String> = ArcHeap::new();
    let a1 = Arc::new(&mut h, String::from("payload"));
    let a2 = a1.duplicate(&mut h);
    let a3 = a2.duplicate(&mut h);
    let mut destroyed = 0;
    for d in [a3.dispose(&mut h), a1.dispose(&mut h), a2.dispose(&mut h)] {
        if let Some(s) = d {
            assert_eq!(s, "payload");
            destroyed += 1;
        }
    }
    assert_eq!(destroyed, 1);
}

#[test]
fn upgrade_refused_once_value_is_gone() {
    let mut h: ArcHeap<u64> = ArcHeap::new();
    let a = Arc::new(&mut h, 11);
    let w1 = a.downgrade(&mut h);
    let w2 = w1.duplicate(&mut h);
    let up = w1.upgrade(&mut h).expect("strong handle still exists");
    assert_eq!(*up.get(&h), 11);
    assert_eq!(up.dispose(&mut h), None);
    assert_eq!(a.dispose(&mut h), Some(11));
    // The promotion step refuses to raise a strong count it observes at
    // zero, however many weak handles remain.
    assert!(w1.upgrade(&mut h).is_none());
    assert!(w2.upgrade(&mut h).is_none());
    assert!(!w2.dispose(&mut h));
    assert!(w1.dispose(&mut h));
}

#[test]
fn free_order_strong_then_weak_thread_safe() {
    let mut h: ArcHeap<u64> = ArcHeap::new();
    let a = Arc::new(&mut h, 1);
    let w = a.downgrade(&mut h);
    assert_eq!(a.dispose(&mut h), Some(1));
    assert!(w.dispose(&mut h));
}

#[test]
fn free_order_weak_then_strong_thread_safe() {
    let mut h: ArcHeap<u64> = ArcHeap::new();
    let a = Arc::new(&mut h, 2);
    let w = a.downgrade(&mut h);
    assert!(!w.dispose(&mut h));
    assert_eq!(a.dispose(&mut h), Some(2));
}

#[test]
fn balanced_duplicate_dispose_stress() {
    // Many rounds of duplicate-then-dispose, interleaved across a crowd of
    // handles, leave the strong count exactly where it began and the value
    // intact — the sequential content of the concurrent stress discipline.
    let workers: usize = 8;
    let rounds: usize = 100;
    let mut h: ArcHeap<u64> = ArcHeap::new();
    let root = Arc::new(&mut h, 77);
    for _ in 0..rounds {
        let mut held = Vec::new();
        for _ in 0..workers {
            held.push(root.duplicate(&mut h));
        }
        assert_eq!(root.strong_count(&h), 1 + workers);
        for a in held {
            assert_eq!(a.dispose(&mut h), None);
        }
        assert_eq!(root.strong_count(&h), 1);
    }
    assert_eq!(root.strong_count(&h), 1);
    assert_eq!(*root.get(&h), 77);
    assert_eq!(root.dispose(&mut h), Some(77));
}
