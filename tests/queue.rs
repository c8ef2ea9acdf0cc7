use okf::queue::TailQueue;

#[test]
fn mount_list_visits_in_insertion_order() {
    let mut q = TailQueue::new();
    for m in [0x100u64, 0x200, 0x300, 0x400] {
        q.insert_tail(m);
    }
    assert_eq!(q.visit(), vec![0x100, 0x200, 0x300, 0x400]);
}

#[test]
fn mount_list_removed_not_visited() {
    let mut q = TailQueue::new();
    let a = q.insert_tail(1);
    let b = q.insert_tail(2);
    let c = q.insert_tail(3);
    q.remove(b);
    assert_eq!(q.visit(), vec![1, 3]);
    q.remove(a);
    assert_eq!(q.visit(), vec![3]);
    let d = q.insert_tail(4);
    assert_eq!(q.visit(), vec![3, 4]);
    q.remove(c);
    q.remove(d);
    assert!(q.visit().is_empty());
}

#[test]
fn mount_list_empty() {
    let q = TailQueue::new();
    assert!(q.visit().is_empty());
}
