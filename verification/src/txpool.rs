use crate::msg::tx::ActTx;
use vstd::prelude::*;

verus! {

/// Raw transactions as they come in, and those ready for a block.
pub struct TXPool {
    incoming_queue: Vec<ActTx>,
    ready_queue: Vec<ActTx>,
}

impl TXPool {
    /// The transactions that came in.
    pub closed spec fn incoming(&self) -> Seq<ActTx> {
        self.incoming_queue@
    }

    /// The transactions ready for a block.
    pub closed spec fn ready(&self) -> Seq<ActTx> {
        self.ready_queue@
    }

    /// A pool with both queues empty.
    pub fn new() -> (p: Self)
        ensures
            p.incoming() == Seq::<ActTx>::empty(),
            p.ready() == Seq::<ActTx>::empty(),
    {
        TXPool { incoming_queue: Vec::new(), ready_queue: Vec::new() }
    }

    /// Starts the service that feeds the incoming queue. The pool has no
    /// such service, so this returns at once.
    pub fn start_service() {
    }
}

} // verus!
