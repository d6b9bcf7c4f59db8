//! The rows that the worker keeps in its store.

use vstd::prelude::*;
use crate::ids::{OrderId, Txid};

verus! {

/// A peg order that the worker follows.
#[derive(Copy, Clone, PartialEq, Eq, Structural, Debug)]
pub struct Peg {
    pub order_id: OrderId,
}

/// A transaction whose fate clients want to follow.
#[derive(Clone, PartialEq, Eq, Debug)]
pub struct MonitoredTx {
    pub txid: Txid,
    /// What the transaction does, in words.
    pub description: Option<String>,
    pub user_note: Option<String>,
}

/// An address handed out to a client.
#[derive(Clone, PartialEq, Eq, Debug)]
pub struct Address {
    /// The derivation index.
    pub ind: u32,
    pub address: String,
    pub user_note: Option<String>,
}

impl MonitoredTx {
    /// A copy of the row.
    pub fn copy(&self) -> (r: Self)
        ensures
            r == *self,
    {
        MonitoredTx {
            txid: self.txid,
            description: crate::api::copy_note(&self.description),
            user_note: crate::api::copy_note(&self.user_note),
        }
    }
}

impl Address {
    /// A copy of the row.
    pub fn copy(&self) -> (r: Self)
        ensures
            r == *self,
    {
        Address {
            ind: self.ind,
            address: self.address.clone(),
            user_note: crate::api::copy_note(&self.user_note),
        }
    }
}

} // verus!
