use okf::malloc::{Allocator, M_WAITOK, M_ZERO};

// A stand-in for the kernel heap: hands out 8-byte aligned blocks at
// increasing addresses and records what is freed.
struct MockHeap {
    next: usize,
    freed: Vec<usize>,
}

impl MockHeap {
    fn malloc(&mut self, size: usize) -> usize {
        let mem = self.next;
        self.next += (size + 7) / 8 * 8 + 8;
        mem
    }

    fn free(&mut self, mem: usize) {
        self.freed.push(mem);
    }
}

#[test]
fn allocator_round_trip_and_alignment() {
    let a = Allocator::new();
    let mut heap = MockHeap { next: 0x1000_0008, freed: Vec::new() };
    let mut align = 1;
    while align <= 4096 {
        for size in [0usize, 1, 7, 8, 13, 100, 4096] {
            let req = a.request(size, align, false).unwrap();
            assert_eq!(req.flags, M_WAITOK);
            let mem = heap.malloc(req.size);
            let p = a.place(mem, size, align).unwrap();
            assert_eq!(p.ptr % align, 0);
            assert!(p.ptr + size + 8 <= mem + req.size);
            assert_eq!(p.ptr - p.shift, mem);
            let start = a.dealloc(p.ptr, p.shift);
            heap.free(start);
            assert_eq!(*heap.freed.last().unwrap(), mem);
        }
        align *= 2;
    }
}

#[test]
fn allocator_request_sizes() {
    let a = Allocator::new();
    // Up to the kernel's alignment only the shift word is added.
    assert_eq!(a.request(100, 8, false).unwrap().size, 108);
    assert_eq!(a.request(100, 1, false).unwrap().size, 108);
    // Beyond it, the padding for the shift is added too.
    assert_eq!(a.request(100, 64, false).unwrap().size, 100 + 56 + 8);
    assert_eq!(a.request(0, 4096, true).unwrap().flags, M_WAITOK | M_ZERO);
}

#[test]
fn allocator_request_overflow() {
    let a = Allocator::new();
    assert!(a.request(usize::MAX, 8, false).is_none());
    assert!(a.request(usize::MAX - 8, 16, false).is_none());
    assert!(a.request(usize::MAX - 8, 8, false).is_some());
}

#[test]
fn allocator_null_propagates() {
    let a = Allocator::new();
    assert!(a.place(0, 16, 16).is_none());
}

#[test]
fn allocator_shift_exact() {
    let a = Allocator::new();
    let p = a.place(0x1008, 10, 64).unwrap();
    assert_eq!(p.ptr, 0x1040);
    assert_eq!(p.shift, 0x38);
    let q = a.place(0x1000, 10, 64).unwrap();
    assert_eq!(q.ptr, 0x1000);
    assert_eq!(q.shift, 0);
}
