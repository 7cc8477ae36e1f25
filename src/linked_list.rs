//! Intrusive circular doubly-linked queues over a table of link nodes.
//!
//! Every packet that crosses between the cores starts with a link node; a
//! node is named by its index in the table (the shared region's slot
//! number). A queue is a sentinel head node plus the nodes on its cycle.
//! The ghost map of the table records, for every head, the sequence of
//! members from the front to the back of its queue.

use vstd::prelude::*;

verus! {

/// The two links at the start of every shared packet.
#[derive(Debug, Copy, Clone, PartialEq, Eq, Structural)]
pub struct LinkedListNode {
    pub next: u32,
    pub prev: u32,
}

/// The links of `nodes` form the cycle head, s[0], ..., s[last], head.
pub open spec fn links_ok(nodes: Seq<LinkedListNode>, h: u32, s: Seq<u32>) -> bool {
    if s.len() == 0 {
        nodes[h as int].next == h && nodes[h as int].prev == h
    } else {
        &&& nodes[h as int].next == s[0]
        &&& nodes[h as int].prev == s.last()
        &&& nodes[s[0] as int].prev == h
        &&& nodes[s.last() as int].next == h
        &&& forall|i: int| 0 <= i < s.len() - 1 ==> #[trigger] nodes[s[i] as int].next == s[i + 1]
        &&& forall|i: int| 1 <= i < s.len() ==> #[trigger] nodes[s[i] as int].prev == s[i - 1]
    }
}

/// `s` is a proper member list for head `h` in a table of `len` nodes.
pub open spec fn members_ok(len: nat, h: u32, s: Seq<u32>) -> bool {
    &&& s.no_duplicates()
    &&& forall|i: int| 0 <= i < s.len() ==> #[trigger] s[i] < len && s[i] != h
}

/// The queues after `init_head(h)`: `h` heads an empty queue.
pub open spec fn after_init(q: Map<u32, Seq<u32>>, h: u32) -> Map<u32, Seq<u32>> {
    q.insert(h, Seq::empty())
}

/// The queues after `insert_tail(h, n)`: `n` joins the back of `h`'s queue.
pub open spec fn after_insert(q: Map<u32, Seq<u32>>, h: u32, n: u32) -> Map<u32, Seq<u32>> {
    q.insert(h, q[h].push(n))
}

/// The queues after `remove_head(h)`: the front member leaves, if any.
pub open spec fn after_remove(q: Map<u32, Seq<u32>>, h: u32) -> Map<u32, Seq<u32>> {
    if q[h].len() == 0 {
        q
    } else {
        q.insert(h, q[h].drop_first())
    }
}

/// What `remove_head(h)` hands back: the front member, if any.
pub open spec fn removed(q: Map<u32, Seq<u32>>, h: u32) -> Option<u32> {
    if q[h].len() == 0 {
        None
    } else {
        Some(q[h][0])
    }
}

/// A table of link nodes and the queues threaded through it.
pub struct NodeArena {
    nodes: Vec<LinkedListNode>,
    queues: Ghost<Map<u32, Seq<u32>>>,
}

impl View for NodeArena {
    type V = Map<u32, Seq<u32>>;

    /// For every queue head, its members from front to back.
    closed spec fn view(&self) -> Map<u32, Seq<u32>> {
        self.queues@
    }
}

impl NodeArena {
    /// Number of nodes in the table.
    pub closed spec fn spec_len(&self) -> nat {
        self.nodes@.len()
    }

    /// The links stored in the table.
    pub closed spec fn links(&self) -> Seq<LinkedListNode> {
        self.nodes@
    }

    /// Every queue is a proper cycle, and no node belongs to two queues.
    pub closed spec fn wf(&self) -> bool {
        &&& self.nodes@.len() <= u32::MAX
        &&& forall|h: u32| #[trigger]
            self.queues@.contains_key(h) ==> h < self.nodes@.len() && links_ok(
                self.nodes@,
                h,
                self.queues@[h],
            ) && members_ok(self.nodes@.len(), h, self.queues@[h])
        &&& forall|h1: u32, h2: u32, x: u32|
            #![trigger self.queues@[h1].contains(x), self.queues@[h2].contains(x)]
            self.queues@.contains_key(h1) && self.queues@.contains_key(h2) && h1 != h2
                && self.queues@[h1].contains(x) ==> !self.queues@[h2].contains(x)
        &&& forall|h1: u32, h2: u32|
            #![trigger self.queues@[h1].contains(h2), self.queues@.contains_key(h2)]
            self.queues@.contains_key(h1) && self.queues@.contains_key(h2)
                ==> !self.queues@[h1].contains(h2)
    }

    /// Node `n` exists and belongs to no queue, neither as head nor as member.
    pub open spec fn is_free(&self, n: u32) -> bool {
        &&& n < self.spec_len()
        &&& !self@.contains_key(n)
        &&& forall|h: u32| #[trigger] self@.contains_key(h) ==> !self@[h].contains(n)
    }

    /// Node `n` exists and is a member of no queue (it may head one).
    pub open spec fn is_unqueued(&self, n: u32) -> bool {
        &&& n < self.spec_len()
        &&& forall|h: u32| #[trigger] self@.contains_key(h) ==> !self@[h].contains(n)
    }

    /// A table of `len` nodes, each linked to node 0, with no queue yet.
    pub fn new(len: u32) -> (r: NodeArena)
        ensures
            r.wf(),
            r.spec_len() == len,
            r@ == Map::<u32, Seq<u32>>::empty(),
            forall|i: int| 0 <= i < len ==> #[trigger] r.links()[i] == (LinkedListNode { next: 0, prev: 0 }),
    {
        let mut nodes: Vec<LinkedListNode> = Vec::new();
        let mut i: u32 = 0;
        while i < len
            invariant
                i <= len,
                nodes@.len() == i,
                forall|k: int| 0 <= k < i ==> #[trigger] nodes@[k] == (LinkedListNode { next: 0, prev: 0 }),
            decreases len - i,
        {
            nodes.push(LinkedListNode { next: 0, prev: 0 });
            i = i + 1;
        }
        NodeArena { nodes, queues: Ghost(Map::empty()) }
    }

    /// The members of a queue are distinct, exist, and differ from its head;
    /// no head is a member of any queue.
    pub proof fn lemma_members(&self, h: u32)
        requires
            self.wf(),
            self@.contains_key(h),
        ensures
            members_ok(self.spec_len(), h, self@[h]),
            h < self.spec_len(),
            forall|h2: u32| #[trigger] self@.contains_key(h2) ==> !self@[h].contains(h2),
    {
    }

    /// Two different queues share no member.
    pub proof fn lemma_disjoint(&self, h1: u32, h2: u32)
        requires
            self.wf(),
            self@.contains_key(h1),
            self@.contains_key(h2),
            h1 != h2,
        ensures
            forall|x: u32| #[trigger] self@[h1].contains(x) ==> !self@[h2].contains(x),
    {
        assert forall|x: u32| #[trigger] self@[h1].contains(x) implies !self@[h2].contains(x) by {
            assert(self.queues@[h1].contains(x));
        }
    }

    /// Number of nodes in the table.
    pub fn len(&self) -> (r: u32)
        requires
            self.wf(),
        ensures
            r == self.spec_len(),
    {
        self.nodes.len() as u32
    }

    /// The links of node `n`.
    pub fn node(&self, n: u32) -> (r: LinkedListNode)
        requires
            n < self.spec_len(),
        ensures
            r == self.links()[n as int],
    {
        self.nodes[n as usize]
    }

    /// Queues whose nodes kept their links are still proper cycles.
    proof fn lemma_frame(old_nodes: Seq<LinkedListNode>, new_nodes: Seq<LinkedListNode>, h: u32, s: Seq<u32>)
        requires
            links_ok(old_nodes, h, s),
            h < old_nodes.len(),
            old_nodes.len() == new_nodes.len(),
            members_ok(old_nodes.len(), h, s),
            new_nodes[h as int] == old_nodes[h as int],
            forall|i: int| 0 <= i < s.len() ==> new_nodes[#[trigger] s[i] as int] == old_nodes[s[i] as int],
        ensures
            links_ok(new_nodes, h, s),
    {
        if s.len() > 0 {
            assert(new_nodes[s[0] as int] == old_nodes[s[0] as int]);
            assert(new_nodes[s[s.len() - 1] as int] == old_nodes[s[s.len() - 1] as int]);
            assert forall|i: int| 0 <= i < s.len() - 1 implies #[trigger] new_nodes[s[i] as int].next == s[i + 1] by {
                assert(new_nodes[s[i] as int] == old_nodes[s[i] as int]);
            }
            assert forall|i: int| 1 <= i < s.len() implies #[trigger] new_nodes[s[i] as int].prev == s[i - 1] by {
                assert(new_nodes[s[i] as int] == old_nodes[s[i] as int]);
            }
        }
    }

    /// Makes `h` the head of an empty queue, whatever its links held before.
    /// A queue `h` headed before is forgotten; its members become free.
    pub fn init_head(&mut self, h: u32)
        requires
            old(self).wf(),
            old(self).is_unqueued(h),
        ensures
            final(self).wf(),
            final(self).spec_len() == old(self).spec_len(),
            final(self)@ == after_init(old(self)@, h),
    {
        let ghost old_nodes = self.nodes@;
        self.nodes.set(h as usize, LinkedListNode { next: h, prev: h });
        let ghost q = self.queues@;
        self.queues = Ghost(after_init(self.queues@, h));
        proof {
            assert forall|h2: u32| #[trigger] self.queues@.contains_key(h2) implies h2 < self.nodes@.len()
                && links_ok(self.nodes@, h2, self.queues@[h2]) && members_ok(
                self.nodes@.len(),
                h2,
                self.queues@[h2],
            ) by {
                if h2 != h {
                    assert(q.contains_key(h2));
                    assert(old(self)@ == q);
                    assert(old(self)@.contains_key(h2));
                    assert(!q[h2].contains(h));
                    assert forall|i: int| 0 <= i < q[h2].len() implies self.nodes@[#[trigger] q[h2][i] as int]
                        == old_nodes[q[h2][i] as int] by {
                        assert(q[h2].contains(q[h2][i]));
                    }
                    Self::lemma_frame(old_nodes, self.nodes@, h2, q[h2]);
                }
            }
        }
    }

    /// Whether the queue headed by `h` has no member.
    pub fn is_empty(&self, h: u32) -> (r: bool)
        requires
            self.wf(),
            self@.contains_key(h),
        ensures
            r == (self@[h].len() == 0),
    {
        let n = self.nodes[h as usize];
        proof {
            if self@[h].len() > 0 {
                assert(self@[h][0] != h);
            }
        }
        n.next == h
    }

    /// Appends free node `n` at the back of the queue headed by `h`.
    pub fn insert_tail(&mut self, h: u32, n: u32)
        requires
            old(self).wf(),
            old(self)@.contains_key(h),
            old(self).is_free(n),
        ensures
            final(self).wf(),
            final(self).spec_len() == old(self).spec_len(),
            final(self)@ == after_insert(old(self)@, h, n),
    {
        let ghost q = self.queues@;
        let ghost s = q[h];
        let ghost old_nodes = self.nodes@;
        let head = self.nodes[h as usize];
        let tail = head.prev;
        proof {
            if s.len() > 0 {
                assert(s.contains(s.last()));
                assert(s.contains(s[0]));
            }
        }
        self.nodes.set(n as usize, LinkedListNode { next: h, prev: tail });
        self.nodes.set(h as usize, LinkedListNode { next: head.next, prev: n });
        let t = self.nodes[tail as usize];
        self.nodes.set(tail as usize, LinkedListNode { next: n, prev: t.prev });
        self.queues = Ghost(after_insert(self.queues@, h, n));
        proof {
            let s2 = s.push(n);
            let nodes = self.nodes@;
            assert(self.queues@[h] == s2);
            if s.len() == 0 {
                assert(links_ok(nodes, h, s2));
            } else {
                assert(tail == s.last());
                assert forall|i: int| 0 <= i < s2.len() - 1 implies #[trigger] nodes[s2[i] as int].next == s2[i + 1] by {
                    if i < s.len() - 1 {
                        assert(s[i] != s.last());
                        assert(s2[i] == s[i]);
                    }
                }
                assert forall|i: int| 1 <= i < s2.len() implies #[trigger] nodes[s2[i] as int].prev == s2[i - 1] by {
                    if i < s.len() {
                        assert(s2[i] == s[i]);
                        assert(s.contains(s[i]));
                    }
                }
                assert(links_ok(nodes, h, s2));
            }
            assert forall|i: int| 0 <= i < s2.len() implies #[trigger] s2[i] < nodes.len() && s2[i] != h by {
                if i < s.len() {
                    assert(s2[i] == s[i]);
                }
            }
            assert(s2.no_duplicates()) by {
                assert forall|i: int, j: int| 0 <= i < s2.len() && 0 <= j < s2.len() && i != j implies s2[i] != s2[j] by {
                    if i < s.len() && j < s.len() {
                    } else if i < s.len() {
                        assert(s.contains(s[i]));
                    } else if j < s.len() {
                        assert(s.contains(s[j]));
                    }
                }
            }
            assert forall|h2: u32| #[trigger] self.queues@.contains_key(h2) implies h2 < nodes.len() && links_ok(
                nodes,
                h2,
                self.queues@[h2],
            ) && members_ok(nodes.len(), h2, self.queues@[h2]) by {
                if h2 != h {
                    assert(q.contains_key(h2));
                    assert forall|i: int| 0 <= i < q[h2].len() implies nodes[#[trigger] q[h2][i] as int]
                        == old_nodes[q[h2][i] as int] by {
                        assert(q[h2].contains(q[h2][i]));
                        if s.len() > 0 {
                            assert(s.contains(s.last()));
                        }
                    }
                    if s.len() > 0 {
                        assert(s.contains(s.last()));
                    }
                    Self::lemma_frame(old_nodes, nodes, h2, q[h2]);
                }
            }
            assert forall|h1: u32, h2: u32, x: u32|
                self.queues@.contains_key(h1) && self.queues@.contains_key(h2) && h1 != h2
                    && #[trigger] self.queues@[h1].contains(x) implies !#[trigger] self.queues@[h2].contains(x) by {
                if h1 == h {
                    if x != n {
                        assert(s.contains(x)) by {
                            let k = choose|k: int| 0 <= k < s2.len() && s2[k] == x;
                            assert(s[k] == x);
                        }
                    }
                } else if h2 == h {
                    if x != n {
                        if s2.contains(x) {
                            let k = choose|k: int| 0 <= k < s2.len() && s2[k] == x;
                            assert(s[k] == x);
                            assert(s.contains(x));
                        }
                    }
                }
            }
            assert forall|h1: u32, h2: u32|
                self.queues@.contains_key(h1) && self.queues@.contains_key(h2)
                    implies !#[trigger] self.queues@[h1].contains(h2) by {
                if h1 == h && s2.contains(h2) && h2 != n {
                    let k = choose|k: int| 0 <= k < s2.len() && s2[k] == h2;
                    assert(s[k] == h2);
                    assert(s.contains(h2));
                }
            }
        }
    }

    /// Takes the front member off the queue headed by `h`; `None` when the
    /// queue is empty. The node taken keeps its stale links.
    pub fn remove_head(&mut self, h: u32) -> (r: Option<u32>)
        requires
            old(self).wf(),
            old(self)@.contains_key(h),
        ensures
            final(self).wf(),
            final(self).spec_len() == old(self).spec_len(),
            final(self)@ == after_remove(old(self)@, h),
            r == removed(old(self)@, h),
            r matches Some(n) ==> final(self).is_free(n),
    {
        let ghost q = self.queues@;
        let ghost s = q[h];
        let ghost old_nodes = self.nodes@;
        let head = self.nodes[h as usize];
        if head.next == h {
            proof {
                if s.len() > 0 {
                    assert(s[0] != h);
                }
            }
            return None;
        }
        let first = head.next;
        proof {
            assert(s.len() > 0);
            assert(s.contains(s[0]));
            if s.len() > 1 {
                assert(s.contains(s[1]));
                assert(old_nodes[s[0] as int].next == s[1]);
            }
        }
        let f = self.nodes[first as usize];
        let second = f.next;
        self.nodes.set(h as usize, LinkedListNode { next: second, prev: head.prev });
        let sn = self.nodes[second as usize];
        self.nodes.set(second as usize, LinkedListNode { next: sn.next, prev: h });
        self.queues = Ghost(after_remove(self.queues@, h));
        proof {
            let s2 = s.drop_first();
            let nodes = self.nodes@;
            assert(self.queues@[h] == s2);
            assert(s.contains(s.last()));
            if s.len() == 1 {
                assert(links_ok(nodes, h, s2));
            } else {
                assert(second == s[1]);
                assert forall|i: int| 0 <= i < s2.len() - 1 implies #[trigger] nodes[s2[i] as int].next == s2[i + 1] by {
                    assert(s2[i] == s[i + 1]);
                    assert(s.contains(s[i + 1]));
                    if i > 0 {
                        assert(s[i + 1] != s[1]);
                    }
                    assert(old_nodes[s[i + 1] as int].next == s[i + 2]);
                }
                assert forall|i: int| 1 <= i < s2.len() implies #[trigger] nodes[s2[i] as int].prev == s2[i - 1] by {
                    assert(s2[i] == s[i + 1]);
                    assert(s.contains(s[i + 1]));
                    assert(s[i + 1] != s[1]);
                    assert(old_nodes[s[i + 1] as int].prev == s[i]);
                }
                if s.len() > 2 {
                    assert(s.last() != s[1]);
                }
                assert(links_ok(nodes, h, s2));
            }
            assert forall|i: int| 0 <= i < s2.len() implies #[trigger] s2[i] < nodes.len() && s2[i] != h by {
                assert(s2[i] == s[i + 1]);
            }
            assert(s2.no_duplicates()) by {
                assert forall|i: int, j: int| 0 <= i < s2.len() && 0 <= j < s2.len() && i != j implies s2[i] != s2[j] by {
                    assert(s2[i] == s[i + 1]);
                    assert(s2[j] == s[j + 1]);
                }
            }
            assert forall|h2: u32| #[trigger] self.queues@.contains_key(h2) implies h2 < nodes.len() && links_ok(
                nodes,
                h2,
                self.queues@[h2],
            ) && members_ok(nodes.len(), h2, self.queues@[h2]) by {
                if h2 != h {
                    assert(q.contains_key(h2));
                    assert(!q[h2].contains(h));
                    if s.len() > 1 {
                        assert(s.contains(second));
                    }
                    assert forall|i: int| 0 <= i < q[h2].len() implies nodes[#[trigger] q[h2][i] as int]
                        == old_nodes[q[h2][i] as int] by {
                        assert(q[h2].contains(q[h2][i]));
                    }
                    Self::lemma_frame(old_nodes, nodes, h2, q[h2]);
                }
            }
            assert forall|h1: u32, h2: u32, x: u32|
                self.queues@.contains_key(h1) && self.queues@.contains_key(h2) && h1 != h2
                    && #[trigger] self.queues@[h1].contains(x) implies !#[trigger] self.queues@[h2].contains(x) by {
                if h1 == h {
                    let k = choose|k: int| 0 <= k < s2.len() && s2[k] == x;
                    assert(s[k + 1] == x);
                    assert(s.contains(x));
                } else if h2 == h {
                    if s2.contains(x) {
                        let k = choose|k: int| 0 <= k < s2.len() && s2[k] == x;
                        assert(s[k + 1] == x);
                        assert(s.contains(x));
                    }
                }
            }
            assert forall|h1: u32, h2: u32|
                self.queues@.contains_key(h1) && self.queues@.contains_key(h2)
                    implies !#[trigger] self.queues@[h1].contains(h2) by {
                if h1 == h && s2.contains(h2) {
                    let k = choose|k: int| 0 <= k < s2.len() && s2[k] == h2;
                    assert(s[k + 1] == h2);
                    assert(s.contains(h2));
                }
            }
            assert forall|h2: u32| #[trigger] self@.contains_key(h2) implies !self@[h2].contains(first) by {
                if h2 == h {
                    if s2.contains(first) {
                        let k = choose|k: int| 0 <= k < s2.len() && s2[k] == first;
                        assert(s[k + 1] == first);
                        assert(s[0] == first);
                    }
                } else {
                    assert(q.contains_key(h2));
                }
            }
            assert(!self@.contains_key(first)) by {
                if q.contains_key(first) {
                    assert(q[h].contains(first));
                }
            }
        }
        Some(first)
    }
}

/// One queue operation, for stating facts about runs of them.
#[derive(Debug, Copy, Clone, PartialEq, Eq, Structural)]
pub enum QueueOp {
    Insert(u32),
    Remove,
}

/// The queues after running `ops` on the queue headed by `h`.
pub open spec fn apply_ops(q: Map<u32, Seq<u32>>, h: u32, ops: Seq<QueueOp>) -> Map<u32, Seq<u32>>
    decreases ops.len(),
{
    if ops.len() == 0 {
        q
    } else {
        let before = apply_ops(q, h, ops.drop_last());
        match ops.last() {
            QueueOp::Insert(n) => after_insert(before, h, n),
            QueueOp::Remove => after_remove(before, h),
        }
    }
}

/// Number of inserts in `ops`.
pub open spec fn inserts(ops: Seq<QueueOp>) -> nat
    decreases ops.len(),
{
    if ops.len() == 0 {
        0
    } else {
        inserts(ops.drop_last()) + if ops.last() is Insert {
            1nat
        } else {
            0nat
        }
    }
}

/// Number of removes in `ops`.
pub open spec fn removes(ops: Seq<QueueOp>) -> nat
    decreases ops.len(),
{
    if ops.len() == 0 {
        0
    } else {
        removes(ops.drop_last()) + if ops.last() is Remove {
            1nat
        } else {
            0nat
        }
    }
}

/// Every remove in `ops` finds the queue non-empty, counting from an empty
/// queue.
pub open spec fn removes_find_items(ops: Seq<QueueOp>) -> bool
    decreases ops.len(),
{
    if ops.len() == 0 {
        true
    } else {
        removes_find_items(ops.drop_last()) && (ops.last() is Remove ==> removes(ops.drop_last())
            < inserts(ops.drop_last()))
    }
}

/// The queues after appending `items`, in order, to the queue headed by `h`.
pub open spec fn fill(q: Map<u32, Seq<u32>>, h: u32, items: Seq<u32>) -> Map<u32, Seq<u32>>
    decreases items.len(),
{
    if items.len() == 0 {
        q
    } else {
        after_insert(fill(q, h, items.drop_last()), h, items.last())
    }
}

/// The nodes handed out by up to `k` removes from the queue headed by `h`,
/// in the order they come out.
pub open spec fn drained(q: Map<u32, Seq<u32>>, h: u32, k: nat) -> Seq<u32>
    decreases k,
{
    if k == 0 || q[h].len() == 0 {
        Seq::empty()
    } else {
        seq![q[h][0]] + drained(after_remove(q, h), h, (k - 1) as nat)
    }
}

proof fn lemma_length_counts(q: Map<u32, Seq<u32>>, h: u32, ops: Seq<QueueOp>)
    requires
        removes_find_items(ops),
    ensures
        apply_ops(after_init(q, h), h, ops).contains_key(h),
        apply_ops(after_init(q, h), h, ops)[h].len() + removes(ops) == inserts(ops),
    decreases ops.len(),
{
    if ops.len() > 0 {
        lemma_length_counts(q, h, ops.drop_last());
    }
}

/// Since its last `init_head`, a queue is empty exactly when it has seen as
/// many inserts as removes, for every run in which no remove meets an empty
/// queue.
pub proof fn lemma_empty_iff_balanced(q: Map<u32, Seq<u32>>, h: u32, ops: Seq<QueueOp>)
    requires
        removes_find_items(ops),
    ensures
        (apply_ops(after_init(q, h), h, ops)[h].len() == 0) <==> (inserts(ops) == removes(ops)),
{
    lemma_length_counts(q, h, ops);
}

/// A queue is empty right after `init_head`, whatever it held before.
pub proof fn lemma_init_then_empty(q: Map<u32, Seq<u32>>, h: u32)
    ensures
        after_init(q, h).contains_key(h),
        after_init(q, h)[h].len() == 0,
{
}

proof fn lemma_fill(q: Map<u32, Seq<u32>>, h: u32, items: Seq<u32>)
    requires
        q.contains_key(h),
    ensures
        fill(q, h, items).contains_key(h),
        fill(q, h, items)[h] == q[h] + items,
    decreases items.len(),
{
    if items.len() > 0 {
        lemma_fill(q, h, items.drop_last());
        assert(q[h] + items == (q[h] + items.drop_last()).push(items.last()));
    }
}

proof fn lemma_drain(q: Map<u32, Seq<u32>>, h: u32)
    requires
        q.contains_key(h),
    ensures
        drained(q, h, q[h].len()) == q[h],
        after_remove(q, h).contains_key(h),
    decreases q[h].len(),
{
    if q[h].len() > 0 {
        let q2 = after_remove(q, h);
        lemma_drain(q2, h);
        assert(q2[h] == q[h].drop_first());
        assert(seq![q[h][0]] + q[h].drop_first() == q[h]);
    }
}

/// Appending items one by one to a freshly initialised queue and then
/// removing as many hands the same items back, in the same order; the queue
/// is then empty again.
pub proof fn lemma_fifo(q: Map<u32, Seq<u32>>, h: u32, items: Seq<u32>)
    ensures
        drained(fill(after_init(q, h), h, items), h, items.len()) == items,
{
    let q0 = after_init(q, h);
    lemma_fill(q0, h, items);
    assert(q0[h] + items == items);
    lemma_drain(fill(q0, h, items), h);
}

} // verus!
