use std::sync::atomic::{AtomicU32, Ordering};
use okf::file::{is_last_reference, File, RefCount};

#[test]
fn refcount_releases_once_after_last() {
    for n in 1u32..=16 {
        let mut c = RefCount::new(n);
        let mut releases = Vec::new();
        for i in 0..n {
            if c.release() {
                releases.push(i);
            }
        }
        assert_eq!(releases, vec![n - 1]);
        assert_eq!(c.count(), 0);
    }
}

#[test]
fn refcount_atomic_decrements() {
    let n = 5u32;
    let count = AtomicU32::new(n);
    let mut released = 0;
    for _ in 0..n {
        let prev = count.fetch_sub(1, Ordering::Release);
        if is_last_reference(prev) {
            released += 1;
            assert_eq!(count.load(Ordering::Acquire), 0);
        }
    }
    assert_eq!(released, 1);
}

#[test]
fn file_refcnt_address() {
    assert_eq!(File::refcnt(0x1000), 0x1028);
    assert!(!is_last_reference(2));
    assert!(is_last_reference(1));
}
