use std::collections::BTreeMap;
use std::collections::VecDeque;
use vstd::prelude::*;

verus! {

/// Fences exported for each ring and not yet handed to a guest fence, in the
/// order in which they were exported.
pub struct PendingFences<H> {
    queues: BTreeMap<u32, VecDeque<H>>,
}

impl<H> View for PendingFences<H> {
    type V = Map<u32, Seq<H>>;

    closed spec fn view(&self) -> Map<u32, Seq<H>> {
        self.queues@.map_values(|q: VecDeque<H>| q@)
    }
}

/// The fences pending on `ring`, oldest first (none if the ring never had one).
pub open spec fn pending_on<H>(m: Map<u32, Seq<H>>, ring: u32) -> Seq<H> {
    if m.contains_key(ring) {
        m[ring]
    } else {
        Seq::empty()
    }
}

/// The fence that taking from `ring` yields: the oldest pending one, if any.
pub open spec fn taken<H>(m: Map<u32, Seq<H>>, ring: u32) -> Option<H> {
    if pending_on(m, ring).len() > 0 {
        Some(pending_on(m, ring)[0])
    } else {
        None
    }
}

/// The pending fences after taking from `ring`: its oldest fence leaves, and
/// nothing changes when none is pending.
pub open spec fn after_take<H>(m: Map<u32, Seq<H>>, ring: u32) -> Map<u32, Seq<H>> {
    if pending_on(m, ring).len() > 0 {
        m.insert(ring, pending_on(m, ring).drop_first())
    } else {
        m
    }
}

impl<H> PendingFences<H> {
    /// No fence is pending on any ring.
    pub fn new() -> (r: Self)
        ensures
            r@ == Map::<u32, Seq<H>>::empty(),
    {
        let r = PendingFences { queues: BTreeMap::new() };
        assert(r@ =~= Map::<u32, Seq<H>>::empty());
        r
    }

    /// Appends `fence` behind the fences already pending on `ring`.
    pub fn push_back(&mut self, ring: u32, fence: H)
        ensures
            final(self)@ == old(self)@.insert(ring, pending_on(old(self)@, ring).push(fence)),
    {
        broadcast use vstd::std_specs::btree::group_btree_axioms;
        broadcast use vstd::laws_cmp::group_laws_cmp;
        let ghost old_map = self.queues@;
        let mut q = match self.queues.remove(&ring) {
            Some(q) => q,
            None => VecDeque::new(),
        };
        assert(q@ == pending_on(old(self)@, ring));
        q.push_back(fence);
        self.queues.insert(ring, q);
        assert(self@ =~= old(self)@.insert(ring, pending_on(old(self)@, ring).push(fence)));
    }

    /// Takes the oldest fence pending on `ring`, if there is one. A ring whose
    /// fences have all been taken keeps an empty queue.
    pub fn pop_front(&mut self, ring: u32) -> (fence: Option<H>)
        ensures
            pending_on(old(self)@, ring).len() == 0 ==> fence is None && final(self)@ == old(self)@,
            pending_on(old(self)@, ring).len() > 0 ==> {
                &&& fence == Some(pending_on(old(self)@, ring)[0])
                &&& final(self)@ == old(self)@.insert(ring, pending_on(old(self)@, ring).drop_first())
            },
            fence == taken(old(self)@, ring),
            final(self)@ == after_take(old(self)@, ring),
    {
        broadcast use vstd::std_specs::btree::group_btree_axioms;
        broadcast use vstd::laws_cmp::group_laws_cmp;
        match self.queues.remove(&ring) {
            Some(mut q) => {
                let fence = q.pop_front();
                self.queues.insert(ring, q);
                if fence.is_some() {
                    assert(self@ =~= old(self)@.insert(
                        ring,
                        pending_on(old(self)@, ring).drop_first(),
                    ));
                } else {
                    assert(self@ =~= old(self)@);
                }
                fence
            },
            None => {
                assert(self.queues@ =~= old(self).queues@);
                None
            },
        }
    }
}

} // verus!
