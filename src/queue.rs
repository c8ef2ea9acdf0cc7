//! Tail queues, the doubly linked lists that the kernel keeps its mounts in.
//!
//! [`TailQueue`] holds its nodes in an arena and links them by index, as the
//! kernel's `TAILQ_HEAD` and `TAILQ_ENTRY` link them by address.
use vstd::prelude::*;

verus! {

/// The index that stands for a null link.
pub const NIL: usize = usize::MAX;

/// The links of one node: `tqe_next` and `tqe_prev`.
#[derive(Clone, Copy)]
pub struct TailQueueEntry {
    /// The next node, or [`NIL`] at the tail.
    pub next: usize,
    /// The previous node, or [`NIL`] at the head.
    pub prev: usize,
}

#[derive(Clone, Copy)]
struct Node {
    item: u64,
    entry: TailQueueEntry,
    live: bool,
}

/// A tail queue of `u64` items (the addresses of kernel objects), kept in the
/// order they were inserted.
pub struct TailQueue {
    first: usize,
    last: usize,
    nodes: Vec<Node>,
    order: Ghost<Seq<usize>>,
}

impl View for TailQueue {
    type V = Seq<u64>;

    /// The items, from head to tail.
    closed spec fn view(&self) -> Seq<u64> {
        self.order@.map_values(|k: usize| self.nodes@[k as int].item)
    }
}

impl TailQueue {
    /// The nodes in the list, from head to tail; each is the handle that
    /// [`TailQueue::insert_tail`] returned for it.
    pub closed spec fn handles(&self) -> Seq<usize> {
        self.order@
    }

    /// Number of nodes ever inserted, removed ones included.
    pub closed spec fn slots(&self) -> nat {
        self.nodes@.len()
    }

    /// The links are those of a doubly linked list over the nodes in order,
    /// and a node is live exactly when it is in the list.
    pub closed spec fn wf(&self) -> bool {
        let o = self.order@;
        let n = self.nodes@;
        &&& n.len() < NIL
        &&& o.no_duplicates()
        &&& forall|i: int| 0 <= i < o.len() ==> #[trigger] o[i] < n.len()
        &&& forall|k: int| 0 <= k < n.len() ==> (#[trigger] n[k].live <==> o.contains(k as usize))
        &&& self.first == if o.len() == 0 {
            NIL
        } else {
            o[0]
        }
        &&& self.last == if o.len() == 0 {
            NIL
        } else {
            o.last()
        }
        &&& forall|i: int|
            0 <= i < o.len() ==> #[trigger] n[o[i] as int].entry.next == if i + 1 < o.len() {
                o[i + 1]
            } else {
                NIL
            }
        &&& forall|i: int|
            0 <= i < o.len() ==> #[trigger] n[o[i] as int].entry.prev == if i == 0 {
                NIL
            } else {
                o[i - 1]
            }
    }

    /// An empty queue.
    pub fn new() -> (r: TailQueue)
        ensures
            r.wf(),
            r@ == Seq::<u64>::empty(),
            r.handles() == Seq::<usize>::empty(),
            r.slots() == 0,
    {
        let r = TailQueue { first: NIL, last: NIL, nodes: Vec::new(), order: Ghost(Seq::empty()) };
        assert(r@ =~= Seq::<u64>::empty());
        r
    }

    /// Appends `item` at the tail and returns the handle of its node.
    pub fn insert_tail(&mut self, item: u64) -> (h: usize)
        requires
            old(self).wf(),
            old(self).slots() + 1 < NIL,
        ensures
            final(self).wf(),
            final(self)@ == old(self)@.push(item),
            final(self).handles() == old(self).handles().push(h),
            !old(self).handles().contains(h),
            final(self).slots() == old(self).slots() + 1,
    {
        let ghost o = self.order@;
        let k = self.nodes.len();
        let old_last = self.last;
        self.nodes.push(Node { item, entry: TailQueueEntry { next: NIL, prev: old_last }, live: true });
        if old_last == NIL {
            self.first = k;
        } else {
            let mut tail = self.nodes[old_last];
            tail.entry.next = k;
            self.nodes.set(old_last, tail);
        }
        self.last = k;
        self.order = Ghost(o.push(k));
        proof {
            let n = self.nodes@;
            let o2 = self.order@;
            assert(!o.contains(k)) by {
                if o.contains(k) {
                    let i = choose|i: int| 0 <= i < o.len() && o[i] == k;
                    assert(o[i] < k);
                }
            }
            assert forall|j: int| 0 <= j < n.len() implies (#[trigger] n[j].live <==> o2.contains(
                j as usize,
            )) by {
                if j < k {
                    if o2.contains(j as usize) {
                        let i = choose|i: int| 0 <= i < o2.len() && o2[i] == j as usize;
                        assert(i < o.len());
                        assert(o.contains(j as usize));
                    }
                    if o.contains(j as usize) {
                        let i = choose|i: int| 0 <= i < o.len() && o[i] == j as usize;
                        assert(o2[i] == j as usize);
                    }
                } else {
                    assert(o2[o.len() as int] == k);
                }
            }
            assert forall|i: int|
                0 <= i < o2.len() implies #[trigger] n[o2[i] as int].entry.next == if i + 1
                < o2.len() {
                o2[i + 1]
            } else {
                NIL
            } by {
                if i + 1 < o.len() {
                    assert(o[i] != old_last) by {
                        assert(o[o.len() - 1] == old_last);
                    }
                }
            }
            assert forall|i: int|
                0 <= i < o2.len() implies #[trigger] n[o2[i] as int].entry.prev == if i == 0 {
                NIL
            } else {
                o2[i - 1]
            } by {}
            assert(self@ =~= old(self)@.push(item));
        }
        k
    }

    /// Unlinks the node `h`. Its item is no longer in the queue and the
    /// others keep their order.
    #[verifier::rlimit(60)]
    pub fn remove(&mut self, h: usize)
        requires
            old(self).wf(),
            old(self).handles().contains(h),
        ensures
            final(self).wf(),
            exists|i: int|
                0 <= i < old(self).handles().len() && old(self).handles()[i] == h
                    && final(self).handles() == old(self).handles().remove(i) && final(self)@
                    == old(self)@.remove(i),
            !final(self).handles().contains(h),
            final(self).slots() == old(self).slots(),
    {
        let ghost o = self.order@;
        let ghost i = choose|i: int| 0 <= i < o.len() && o[i] == h;
        let node = self.nodes[h];
        let p = node.entry.prev;
        let nx = node.entry.next;
        proof {
            assert(o[i] < self.nodes@.len());
            assert(p == if i == 0 {
                NIL
            } else {
                o[i - 1]
            });
            assert(nx == if i + 1 < o.len() {
                o[i + 1]
            } else {
                NIL
            });
            if i > 0 {
                assert(o[i - 1] < self.nodes@.len());
            }
            if i + 1 < o.len() {
                assert(o[i + 1] < self.nodes@.len());
            }
        }
        if p == NIL {
            self.first = nx;
        } else {
            let mut pn = self.nodes[p];
            pn.entry.next = nx;
            self.nodes.set(p, pn);
        }
        if nx == NIL {
            self.last = p;
        } else {
            let mut nn = self.nodes[nx];
            nn.entry.prev = p;
            self.nodes.set(nx, nn);
        }
        let mut dead = self.nodes[h];
        dead.live = false;
        self.nodes.set(h, dead);
        self.order = Ghost(o.remove(i));
        proof {
            let o2 = self.order@;
            let n = self.nodes@;
            assert(forall|a: int, b: int|
                0 <= a < o.len() && 0 <= b < o.len() && a != b ==> o[a] != o[b]);
            assert forall|j: int| 0 <= j < n.len() implies (#[trigger] n[j].live <==> o2.contains(
                j as usize,
            )) by {
                if o2.contains(j as usize) {
                    let a = choose|a: int| 0 <= a < o2.len() && o2[a] == j as usize;
                    if a < i {
                        assert(o[a] == j as usize);
                    } else {
                        assert(o[a + 1] == j as usize);
                    }
                }
                if j != h && o.contains(j as usize) {
                    let a = choose|a: int| 0 <= a < o.len() && o[a] == j as usize;
                    if a < i {
                        assert(o2[a] == j as usize);
                    } else {
                        assert(o2[a - 1] == j as usize);
                    }
                }
            }
            assert forall|a: int|
                0 <= a < o2.len() implies #[trigger] n[o2[a] as int].entry.next == if a + 1
                < o2.len() {
                o2[a + 1]
            } else {
                NIL
            } by {
                if a + 1 < i {
                    assert(o2[a] == o[a] && o[a] != o[i - 1] && o[a] != h);
                    assert(i + 1 < o.len() ==> o[a] != o[i + 1]);
                } else if a + 1 == i {
                    assert(o2[a] == o[i - 1]);
                } else {
                    assert(o2[a] == o[a + 1] && o[a + 1] != h);
                    assert(i > 0 ==> o[a + 1] != o[i - 1]);
                }
            }
            assert forall|a: int|
                0 <= a < o2.len() implies #[trigger] n[o2[a] as int].entry.prev == if a == 0 {
                NIL
            } else {
                o2[a - 1]
            } by {
                if a < i {
                    assert(o2[a] == o[a] && o[a] != h);
                    assert(i + 1 < o.len() ==> o[a] != o[i + 1]);
                    assert(i > 0 && a != i - 1 ==> o[a] != o[i - 1]);
                } else if a == i {
                    assert(o2[a] == o[i + 1]);
                } else {
                    assert(o2[a] == o[a + 1] && o[a + 1] != h && o[a + 1] != o[i + 1]);
                    assert(i > 0 ==> o[a + 1] != o[i - 1]);
                }
            }
            assert(self@ =~= old(self)@.remove(i));
            if o2.contains(h) {
                let a = choose|a: int| 0 <= a < o2.len() && o2[a] == h;
                if a < i {
                    assert(o[a] == h);
                } else {
                    assert(o[a + 1] == h);
                }
            }
        }
    }

    /// The items from head to tail, each visited once by following the links.
    pub fn visit(&self) -> (r: Vec<u64>)
        requires
            self.wf(),
        ensures
            r@ == self@,
    {
        let mut out: Vec<u64> = Vec::new();
        let mut cur = self.first;
        let ghost o = self.order@;
        let ghost mut i: int = 0;
        while cur != NIL
            invariant
                self.wf(),
                0 <= i <= o.len(),
                o == self.order@,
                cur == if i < o.len() {
                    o[i]
                } else {
                    NIL
                },
                out@ == self@.take(i),
            decreases o.len() - i,
        {
            assert(i < o.len()) by {
                assert(o[i] < self.nodes@.len());
            }
            let node = self.nodes[cur];
            out.push(node.item);
            cur = node.entry.next;
            proof {
                assert(self@.take(i + 1) =~= self@.take(i).push(node.item));
                i = i + 1;
            }
        }
        proof {
            if i < o.len() {
                assert(o[i] < self.nodes@.len());
            }
            assert(self@.take(i) =~= self@);
        }
        out
    }
}

/// Each node in a well-formed queue appears once, and there is one item per
/// node: a walk from head to tail meets every node exactly once.
pub proof fn lemma_nodes_once(q: &TailQueue)
    requires
        q.wf(),
    ensures
        q.handles().no_duplicates(),
        q@.len() == q.handles().len(),
{
}

} // verus!
