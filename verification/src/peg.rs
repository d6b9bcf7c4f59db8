//! Pegs: opening one on the server, following it, and letting it go.

use vstd::prelude::*;
use crate::api::{DelPegReq, DelPegResp, NewPegReq, NewPegResp, PegStatus};
use crate::ids::OrderId;
use crate::models::Peg;
use crate::ports::{Action, ServerCall, Store};
use crate::worker::{peg_step, Data};

verus! {

/// The request that opens a peg on the server.
pub fn new_peg(req: NewPegReq) -> (r: ServerCall)
    ensures
        r == (ServerCall::Peg { recv_addr: req.recv_addr, peg_in: req.peg_in, blocks: req.blocks }),
{
    ServerCall::Peg { recv_addr: req.recv_addr, peg_in: req.peg_in, blocks: req.blocks }
}

/// The request for the state of a peg.
pub fn peg_status_request(order_id: OrderId) -> (r: ServerCall)
    ensures
        r == (ServerCall::PegStatus { order_id }),
{
    ServerCall::PegStatus { order_id }
}

impl Data {
    /// Takes in a peg that the server opened and its first state: the state
    /// goes the way of every report of a peg's state, and the peg is followed
    /// from now on. The actions say, in this order: tell the clients, where
    /// the peg was followed already, then store the peg.
    pub fn new_peg_done(&mut self, order_id: OrderId, peg_addr: String, status: PegStatus) -> (r: (
        Vec<Action>,
        NewPegResp,
    ))
        ensures
            r.1 == (NewPegResp { order_id, peg_addr }),
            r.0@.len() > 0,
            r.0@.last() == Action::Store(Store::AddPeg(Peg { order_id })),
            peg_step(
                *old(self),
                status,
                Data { pegs: old(self).pegs, ..*final(self) },
                r.0@.drop_last(),
            ),
            final(self).pegs@ == old(self).pegs@.insert(order_id, ()),
            old(self).wf() ==> final(self).wf(),
    {
        let mut actions = self.process_peg_status(status);
        let ghost told = actions@;
        actions.push(Action::Store(Store::AddPeg(Peg { order_id })));
        self.pegs.insert(order_id, ());
        proof {
            assert(actions@.drop_last() =~= told);
        }
        (actions, NewPegResp { order_id, peg_addr })
    }

    /// Lets a peg go from the store. The worker goes on following it until it
    /// starts anew.
    pub fn del_peg(&self, req: DelPegReq) -> (r: (Action, DelPegResp))
        ensures
            r.0 == Action::Store(Store::DeletePeg(req.order_id)),
    {
        (Action::Store(Store::DeletePeg(req.order_id)), DelPegResp {  })
    }
}

/// Of two reports of the state of one peg, the later is the one kept.
pub proof fn law_latest_peg_status_kept(
    statuses: Map<OrderId, PegStatus>,
    earlier: PegStatus,
    later: PegStatus,
)
    requires
        earlier.order_id == later.order_id,
    ensures
        statuses.insert(earlier.order_id, earlier).insert(later.order_id, later)[later.order_id]
            == later,
        statuses.insert(earlier.order_id, earlier).insert(later.order_id, later)
            == statuses.insert(later.order_id, later),
{
    assert(statuses.insert(earlier.order_id, earlier).insert(later.order_id, later)
        =~= statuses.insert(later.order_id, later));
}

} // verus!
