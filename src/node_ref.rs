//! Node references: slots that hold a concrete DOM node or forward to
//! another slot, so that a reference can be resolved after the fact.
use vstd::prelude::*;

verus! {

/// A concrete DOM node, known by the handle that the rendering backend gave it.
#[derive(Clone, Copy, PartialEq, Eq, Structural, Debug)]
pub struct Node {
    pub id: u64,
}

/// The DOM element that a component is mounted under.
#[derive(Clone, Copy, PartialEq, Eq, Structural, Debug)]
pub struct Element {
    pub id: u64,
}

/// A reference to one slot of a [`NodeRefs`] table.
#[derive(Clone, Copy, PartialEq, Eq, Structural, Debug)]
pub struct NodeRef {
    pub index: usize,
}

/// One slot: either a resolved node, a forwarding link, or nothing yet.
#[derive(Clone, Copy, PartialEq, Eq, Structural, Debug)]
pub struct NodeRefSlot {
    pub node: Option<Node>,
    pub link: Option<NodeRef>,
}

/// The table of node references.
pub struct NodeRefs {
    slots: Vec<NodeRefSlot>,
}

/// The slot of a fresh reference.
pub open spec fn empty_slot() -> NodeRefSlot {
    NodeRefSlot { node: None, link: None }
}

/// The table after `r` is set to `node`; references out of range change nothing.
pub open spec fn slots_set(s: Seq<NodeRefSlot>, r: NodeRef, node: Option<Node>) -> Seq<NodeRefSlot> {
    if r.index < s.len() {
        s.update(r.index as int, NodeRefSlot { node, link: None })
    } else {
        s
    }
}

/// The table after `r` is made to forward to `target`. Linking a reference to
/// itself, or a reference out of range, changes nothing.
pub open spec fn slots_link(s: Seq<NodeRefSlot>, r: NodeRef, target: NodeRef) -> Seq<NodeRefSlot> {
    if r.index < s.len() && target.index < s.len() && r != target {
        s.update(r.index as int, NodeRefSlot { node: None, link: Some(target) })
    } else {
        s
    }
}

/// What `r` resolves to when at most `fuel` links are followed.
pub open spec fn resolve(s: Seq<NodeRefSlot>, r: NodeRef, fuel: nat) -> Option<Node>
    decreases fuel,
{
    if r.index >= s.len() {
        None
    } else if s[r.index as int].node.is_some() {
        s[r.index as int].node
    } else if fuel == 0 {
        None
    } else {
        match s[r.index as int].link {
            Some(t) => resolve(s, t, (fuel - 1) as nat),
            None => None,
        }
    }
}

/// `r` resolves to `n` once its chain of links is followed far enough.
pub open spec fn resolves_to(s: Seq<NodeRefSlot>, r: NodeRef, n: Node) -> bool {
    exists|k: nat| resolve(s, r, k) == Some(n)
}

/// A reference that forwards to another resolves to exactly the nodes that
/// the other resolves to, whichever of the two is resolved first and however
/// late the other is set.
pub proof fn lemma_link_shares_resolution(s: Seq<NodeRefSlot>, a: NodeRef, b: NodeRef, n: Node)
    requires
        a.index < s.len(),
        s[a.index as int] == (NodeRefSlot { node: None, link: Some(b) }),
    ensures
        resolves_to(s, a, n) <==> resolves_to(s, b, n),
{
    if resolves_to(s, a, n) {
        let k = choose|k: nat| resolve(s, a, k) == Some(n);
        assert(resolve(s, b, (k - 1) as nat) == Some(n));
    }
    if resolves_to(s, b, n) {
        let k = choose|k: nat| resolve(s, b, k) == Some(n);
        assert(resolve(s, a, k + 1) == Some(n));
    }
}

/// Linking `a` to `b` and later setting `b` to a node resolves `a` to that node.
pub proof fn lemma_link_then_set(s: Seq<NodeRefSlot>, a: NodeRef, b: NodeRef, n: Node)
    requires
        a.index < s.len(),
        b.index < s.len(),
        a != b,
    ensures
        resolves_to(slots_set(slots_link(s, a, b), b, Some(n)), a, n),
        resolves_to(slots_set(slots_link(s, a, b), b, Some(n)), b, n),
{
    let s2 = slots_set(slots_link(s, a, b), b, Some(n));
    assert(resolve(s2, a, 1) == Some(n));
    assert(resolve(s2, b, 0) == Some(n));
}

impl View for NodeRefs {
    type V = Seq<NodeRefSlot>;

    closed spec fn view(&self) -> Seq<NodeRefSlot> {
        self.slots@
    }
}

impl NodeRefs {
    /// An empty table.
    pub fn new() -> (r: NodeRefs)
        ensures
            r@ == Seq::<NodeRefSlot>::empty(),
    {
        NodeRefs { slots: Vec::new() }
    }

    /// Adds a fresh reference that resolves to nothing.
    pub fn create(&mut self) -> (r: NodeRef)
        ensures
            r.index == old(self)@.len(),
            final(self)@ == old(self)@.push(empty_slot()),
    {
        let index = self.slots.len();
        self.slots.push(NodeRefSlot { node: None, link: None });
        NodeRef { index }
    }

    /// Makes `r` hold `node` and forward nowhere.
    pub fn set(&mut self, r: NodeRef, node: Option<Node>)
        ensures
            final(self)@ == slots_set(old(self)@, r, node),
    {
        if r.index < self.slots.len() {
            self.slots.set(r.index, NodeRefSlot { node, link: None });
        }
    }

    /// Makes `r` forward to `target`, so that resolving `r` resolves `target`.
    pub fn link(&mut self, r: NodeRef, target: NodeRef)
        ensures
            final(self)@ == slots_link(old(self)@, r, target),
    {
        if r.index < self.slots.len() && target.index < self.slots.len() && r != target {
            self.slots.set(r.index, NodeRefSlot { node: None, link: Some(target) });
        }
    }

    /// The node that `r` resolves to, following at most as many links as the
    /// table has slots (a chain that loops resolves to nothing).
    pub fn get(&self, r: NodeRef) -> (n: Option<Node>)
        ensures
            n == resolve(self@, r, self@.len() as nat),
    {
        let len = self.slots.len();
        let mut cur = r;
        let mut fuel: usize = len;
        while fuel > 0
            invariant
                len == self@.len(),
                fuel <= len,
                resolve(self@, cur, fuel as nat) == resolve(self@, r, len as nat),
            decreases fuel,
        {
            if cur.index >= len {
                return None;
            }
            let slot = self.slots[cur.index];
            if slot.node.is_some() {
                return slot.node;
            }
            match slot.link {
                Some(t) => {
                    cur = t;
                    fuel = fuel - 1;
                },
                None => {
                    return None;
                },
            }
        }
        if cur.index >= len {
            None
        } else {
            self.slots[cur.index].node
        }
    }
}

} // verus!
