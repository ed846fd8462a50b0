//! The tally of the answers to a request sent to all nodes, where the
//! answer is taken once enough nodes gave the same bytes.

use crate::node::{bytes_eq, contains_node, NodeId};
use vstd::prelude::*;

verus! {

/// Each distinct answer, with the nodes that gave it, in the order in
/// which the answers first came; `node_count` answers make a vote; `active`
/// says that the vote is done.
pub struct VoteTally {
    votes: Vec<(Vec<u8>, Vec<NodeId>)>,
    node_count: usize,
    active: bool,
}

/// The voters after `node` answers again with an answer it may have given.
pub open spec fn add_voter(voters: Seq<NodeId>, node: NodeId) -> Seq<NodeId> {
    if voters.contains(node) {
        voters
    } else {
        voters.push(node)
    }
}

/// The entries of a tally hold distinct answers, each with distinct nodes.
pub open spec fn entries_wf(e: Seq<(Seq<u8>, Seq<NodeId>)>) -> bool {
    &&& forall|i: int, j: int| 0 <= i < j < e.len() ==> #[trigger] e[i].0 != #[trigger] e[j].0
    &&& forall|i: int| 0 <= i < e.len() ==> (#[trigger] e[i]).1.no_duplicates()
}

/// Some answer has at least `n` voters.
pub open spec fn has_quorum(e: Seq<(Seq<u8>, Seq<NodeId>)>, n: nat) -> bool {
    exists|i: int| 0 <= i < e.len() && (#[trigger] e[i]).1.len() >= n
}

impl VoteTally {
    /// The answers and their voters.
    pub closed spec fn entries(&self) -> Seq<(Seq<u8>, Seq<NodeId>)> {
        self.votes@.map_values(|v: (Vec<u8>, Vec<NodeId>)| (v.0@, v.1@))
    }

    /// How many equal answers make the vote.
    pub closed spec fn node_count(&self) -> nat {
        self.node_count as nat
    }

    /// Whether the vote is done.
    pub closed spec fn is_active(&self) -> bool {
        self.active
    }

    pub closed spec fn wf(&self) -> bool {
        &&& entries_wf(self.entries())
        &&& self.active ==> has_quorum(self.entries(), self.node_count as nat)
    }

    /// An empty tally; the vote takes `node_count` equal answers.
    pub fn new(node_count: usize) -> (t: VoteTally)
        ensures
            t.wf(),
            t.entries() == Seq::<(Seq<u8>, Seq<NodeId>)>::empty(),
            t.node_count() == node_count,
            !t.is_active(),
    {
        let t = VoteTally { votes: Vec::new(), node_count, active: false };
        assert(t.entries() =~= Seq::<(Seq<u8>, Seq<NodeId>)>::empty());
        t
    }

    /// Whether the vote is done.
    pub fn active(&self) -> (r: bool)
        ensures
            r == self.is_active(),
    {
        self.active
    }

    /// Records that `node_id` answered `data`. A node that repeats an
    /// answer is counted once. The vote is done when an answer that was
    /// already known reaches `node_count` voters; the first voter of an
    /// answer does not end the vote.
    pub fn write_data(&mut self, node_id: NodeId, data: Vec<u8>)
        requires
            old(self).wf(),
        ensures
            final(self).wf(),
            final(self).node_count() == old(self).node_count(),
            forall|i: int|
                0 <= i < old(self).entries().len() && (#[trigger] old(self).entries()[i]).0
                    == data@ ==> {
                    let voters = add_voter(old(self).entries()[i].1, node_id);
                    &&& final(self).entries() == old(self).entries().update(i, (data@, voters))
                    &&& final(self).is_active() == (old(self).is_active() || voters.len()
                        >= old(self).node_count())
                },
            (forall|i: int|
                0 <= i < old(self).entries().len() ==> (#[trigger] old(self).entries()[i]).0
                    != data@) ==> {
                &&& final(self).entries() == old(self).entries().push((data@, seq![node_id]))
                &&& final(self).is_active() == old(self).is_active()
            },
    {
        let ghost e0 = self.entries();
        let ghost n0 = self.node_count;
        let ghost a0 = self.active;
        let mut i: usize = 0;
        while i < self.votes.len()
            invariant
                i <= self.votes@.len(),
                self.entries() == e0,
                self.node_count == n0,
                self.active == a0,
                n0 == old(self).node_count(),
                a0 == old(self).is_active(),
                e0 == old(self).entries(),
                self.wf(),
                forall|j: int| 0 <= j < i ==> (#[trigger] e0[j]).0 != data@,
            decreases self.votes@.len() - i,
        {
            assert(self.entries()[i as int] == (self.votes@[i as int].0@, self.votes@[i as int].1@));
            if bytes_eq(self.votes[i].0.as_slice(), data.as_slice()) {
                let (key, mut voters) = self.votes.remove(i);
                let ghost rest = self.votes@;
                if !contains_node(&voters, node_id) {
                    voters.push(node_id);
                }
                let reached = voters.len() >= self.node_count;
                self.votes.insert(i, (key, voters));
                proof {
                    assert(self.entries() =~= e0.update(i as int, (data@, add_voter(e0[i as int].1, node_id))));
                    if !e0[i as int].1.contains(node_id) {
                        assert(add_voter(e0[i as int].1, node_id).no_duplicates());
                    }
                    let e1 = self.entries();
                    assert(forall|x: int| 0 <= x < e1.len() ==> (#[trigger] e1[x]).0 == e0[x].0);
                    assert(forall|x: int| 0 <= x < e1.len() && x != i ==> #[trigger] e1[x] == e0[x]);
                    assert(entries_wf(e1));
                    assert forall|k: int| 0 <= k < e0.len() && (#[trigger] e0[k]).0 == data@ implies k == i by {
                        if k != i {
                            if k < i {
                                assert(e0[k].0 != e0[i as int].0);
                            } else {
                                assert(e0[i as int].0 != e0[k].0);
                            }
                        }
                    }
                }
                if reached {
                    self.active = true;
                }
                proof {
                    if self.active {
                        if reached {
                            assert(self.entries()[i as int].1.len() >= self.node_count);
                        } else {
                            let k = choose|k: int| 0 <= k < e0.len() && (#[trigger] e0[k]).1.len() >= self.node_count;
                            if k != i {
                                assert(self.entries()[k] == e0[k]);
                            }
                        }
                    }
                }
                return;
            }
            i = i + 1;
        }
        let ghost d = data@;
        let mut voters: Vec<NodeId> = Vec::new();
        voters.push(node_id);
        self.votes.push((data, voters));
        proof {
            assert(self.entries() =~= e0.push((d, seq![node_id])));
            if self.active {
                let k = choose|k: int| 0 <= k < e0.len() && (#[trigger] e0[k]).1.len() >= self.node_count;
                assert(self.entries()[k] == e0[k]);
            }
        }
    }

    /// The first answer, in the order in which answers first came, that
    /// has at least `node_count` voters, with its voters; `None` if there is
    /// none.
    pub fn read_result(&self) -> (r: Option<(Vec<NodeId>, Vec<u8>)>)
        requires
            self.wf(),
        ensures
            match r {
                Some((nodes, data)) => exists|i: int|
                    0 <= i < self.entries().len() && #[trigger] self.entries()[i] == (data@, nodes@)
                        && nodes@.len() >= self.node_count() && forall|j: int|
                        0 <= j < i ==> (#[trigger] self.entries()[j]).1.len() < self.node_count(),
                None => !has_quorum(self.entries(), self.node_count()),
            },
    {
        let mut i: usize = 0;
        while i < self.votes.len()
            invariant
                i <= self.votes@.len(),
                forall|j: int|
                    0 <= j < i ==> (#[trigger] self.entries()[j]).1.len() < self.node_count(),
            decreases self.votes@.len() - i,
        {
            assert(self.entries()[i as int] == (self.votes@[i as int].0@, self.votes@[i as int].1@));
            if self.votes[i].1.len() >= self.node_count {
                let nodes = vstd::slice::slice_to_vec(self.votes[i].1.as_slice());
                let data = vstd::slice::slice_to_vec(self.votes[i].0.as_slice());
                return Some((nodes, data));
            }
            i = i + 1;
        }
        None
    }
}

/// Once the vote is done, reading it gives an answer with at least
/// `node_count` distinct voters.
pub proof fn law_active_vote_has_answer(t: VoteTally)
    requires
        t.wf(),
        t.is_active(),
    ensures
        has_quorum(t.entries(), t.node_count()),
        forall|i: int| 0 <= i < t.entries().len() ==> (#[trigger] t.entries()[i]).1.no_duplicates(),
{
}

} // verus!
