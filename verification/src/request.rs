//! The bookkeeping of the requests that a node sends: each request gets a
//! fresh id, under which its response is kept until the request is done.

use std::collections::HashMap;
use vstd::prelude::*;

verus! {

pub type NetworkRequestId = u64;

/// The requests in flight, by id. `R` is what receives the responses.
pub struct NetworkRequestMgr<R> {
    last_request_id: NetworkRequestId,
    requests: HashMap<NetworkRequestId, R>,
}

/// The first id that a node hands out is above `node_id * 10^18`, so that
/// the ids of different nodes do not meet.
pub open spec fn first_request_id(node_id: u16) -> int {
    node_id as int * 1_000_000_000_000_000_000
}

impl<R> NetworkRequestMgr<R> {
    /// No request in flight has an id above the last id handed out.
    pub closed spec fn wf(&self) -> bool {
        forall|id: NetworkRequestId| #[trigger]
            self.requests@.contains_key(id) ==> id <= self.last_request_id
    }

    /// The last id handed out.
    pub closed spec fn last_id(&self) -> NetworkRequestId {
        self.last_request_id
    }

    /// The requests in flight.
    pub closed spec fn pending(&self) -> Map<NetworkRequestId, R> {
        self.requests@
    }

    /// A manager with no request in flight. The node id must be at most 18,
    /// else `node_id * 10^18` does not fit in 64 bits.
    pub fn new(node_id: u16) -> (m: Self)
        requires
            first_request_id(node_id) <= u64::MAX,
        ensures
            m.wf(),
            m.last_id() == first_request_id(node_id),
            m.pending() == Map::<NetworkRequestId, R>::empty(),
    {
        Self {
            last_request_id: node_id as u64 * 1_000_000_000_000_000_000,
            requests: HashMap::new(),
        }
    }

    /// Keeps a response receiver under a fresh id, which it returns: the
    /// id after the last one handed out.
    pub fn insert_request(&mut self, response: R) -> (id: NetworkRequestId)
        requires
            old(self).wf(),
            old(self).last_id() < u64::MAX,
        ensures
            final(self).wf(),
            id == old(self).last_id() + 1,
            final(self).last_id() == id,
            !old(self).pending().contains_key(id),
            final(self).pending() == old(self).pending().insert(id, response),
    {
        let id = self.last_request_id + 1;
        self.last_request_id = id;
        self.requests.insert(id, response);
        id
    }

    /// The last id handed out.
    pub fn last_request_id(&self) -> (r: NetworkRequestId)
        ensures
            r == self.last_id(),
    {
        self.last_request_id
    }

    /// The response receiver of a request in flight.
    pub fn get(&self, request_id: NetworkRequestId) -> (r: Option<&R>)
        ensures
            match r {
                Some(v) => self.pending().contains_key(request_id) && *v
                    == self.pending()[request_id],
                None => !self.pending().contains_key(request_id),
            },
    {
        self.requests.get(&request_id)
    }

    /// Forgets a request.
    pub fn remove(&mut self, request_id: NetworkRequestId)
        requires
            old(self).wf(),
        ensures
            final(self).wf(),
            final(self).last_id() == old(self).last_id(),
            final(self).pending() == old(self).pending().remove(request_id),
    {
        self.requests.remove(&request_id);
    }
}

/// A request that is made and then done leaves the requests in flight as
/// they were, and the next request gets a new id.
pub proof fn law_request_done_leaves_no_trace<R>(
    m0: NetworkRequestMgr<R>,
    m1: NetworkRequestMgr<R>,
    m2: NetworkRequestMgr<R>,
    id: NetworkRequestId,
    response: R,
)
    requires
        !m0.pending().contains_key(id),
        m1.pending() == m0.pending().insert(id, response),
        m2.pending() == m1.pending().remove(id),
        m1.last_id() == id,
        m2.last_id() == m1.last_id(),
    ensures
        m2.pending() == m0.pending(),
        m2.last_id() == id,
{
    assert(m2.pending() =~= m0.pending());
}

} // verus!
