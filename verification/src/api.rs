//! What clients ask and are told: requests, responses and notifications.

use vstd::prelude::*;
use crate::duplicate::{copy_all, Duplicate};
use crate::ids::{OrderId, QuoteId, Txid};

verus! {

/// An amount as a client states it. `text` is the amount as it was written.
/// `units` is that amount in smallest units at `precision` decimal places,
/// and `exact` says whether those units say the very same amount again.
#[derive(Clone, PartialEq, Eq, Debug)]
pub struct Amount {
    pub units: u64,
    pub exact: bool,
    /// The decimal places at which `units` and `exact` were taken.
    pub precision: u8,
    pub text: String,
}

impl Amount {
    /// Whether the units say the amount exactly at an asset's precision:
    /// they were taken at that precision, and found exact.
    pub open spec fn exact_at(self, asset_precision: u8) -> bool {
        self.exact && self.precision == asset_precision
    }
}

/// Asks for a fresh address.
#[derive(Clone, PartialEq, Eq, Debug)]
pub struct NewAddressReq {
    pub user_note: Option<String>,
}

/// The address handed out, and its derivation index.
#[derive(Clone, PartialEq, Eq, Debug)]
pub struct NewAddressResp {
    pub index: u32,
    pub address: String,
}

/// One payment of a transaction to draft.
#[derive(Clone, PartialEq, Eq, Debug)]
pub struct Recipient {
    pub address: String,
    /// The ticker of the asset to pay in.
    pub asset: String,
    pub amount: Amount,
}

/// Asks for a transaction that makes these payments to be drafted.
#[derive(Clone, PartialEq, Eq, Debug)]
pub struct CreateTxReq {
    pub recipients: Vec<Recipient>,
}

/// The drafted transaction, and the network fee it pays.
#[derive(Copy, Clone, PartialEq, Eq, Structural, Debug)]
pub struct CreateTxResp {
    pub txid: Txid,
    pub network_fee: u64,
}

/// Asks for a drafted transaction to be sent.
#[derive(Clone, PartialEq, Eq, Debug)]
pub struct SendTxReq {
    pub txid: Txid,
    pub user_note: Option<String>,
}

/// How one side took a broadcast.
#[derive(Clone, PartialEq, Eq, Debug)]
pub enum BroadcastStatus {
    Success,
    Error { error_msg: String },
}

/// How the wallet and the server each took the broadcast.
#[derive(Clone, PartialEq, Eq, Debug)]
pub struct SendTxResp {
    pub res_wallet: BroadcastStatus,
    pub res_server: BroadcastStatus,
}

/// Asks what a swap of one asset for another would give.
#[derive(Clone, PartialEq, Eq, Debug)]
pub struct GetQuoteReq {
    /// The ticker of the asset to send.
    pub send_asset: String,
    /// The ticker of the asset to receive.
    pub recv_asset: String,
    pub send_amount: Amount,
    pub receive_address: String,
}

/// A quote that can be accepted while it stands.
#[derive(Copy, Clone, PartialEq, Eq, Structural, Debug)]
pub struct GetQuoteResp {
    pub quote_id: QuoteId,
    /// What the swap gives, in the smallest units of the asset received.
    pub recv_amount: u64,
    /// How long the quote stands, in milliseconds.
    pub ttl: u64,
    pub txid: Txid,
}

/// Asks for a quote to be taken.
#[derive(Clone, PartialEq, Eq, Debug)]
pub struct AcceptQuoteReq {
    pub quote_id: QuoteId,
    pub user_note: Option<String>,
}

/// The transaction that carries out the swap.
#[derive(Copy, Clone, PartialEq, Eq, Structural, Debug)]
pub struct AcceptQuoteResp {
    pub txid: Txid,
}

/// Asks for a peg to be opened.
#[derive(Clone, PartialEq, Eq, Debug)]
pub struct NewPegReq {
    pub recv_addr: String,
    pub peg_in: bool,
    pub blocks: Option<i32>,
}

/// The peg opened, and the address to pay to.
#[derive(Clone, PartialEq, Eq, Debug)]
pub struct NewPegResp {
    pub order_id: OrderId,
    pub peg_addr: String,
}

/// Asks for a peg to be let go.
#[derive(Copy, Clone, PartialEq, Eq, Structural, Debug)]
pub struct DelPegReq {
    pub order_id: OrderId,
}

/// The peg was let go.
#[derive(Copy, Clone, PartialEq, Eq, Structural, Debug)]
pub struct DelPegResp {
}

/// Asks where the monitored transactions stand.
#[derive(Copy, Clone, PartialEq, Eq, Structural, Debug)]
pub struct GetMonitoredTxsReq {
}

/// Where the wallet has seen a transaction.
#[derive(Copy, Clone, PartialEq, Eq, Structural, Debug)]
pub enum SwapStatus {
    /// Not at all.
    NotFound,
    /// Known, in no block yet.
    Mempool,
    /// In a block.
    Confirmed,
}

/// A monitored transaction as clients are told of it.
#[derive(Clone, PartialEq, Eq, Debug)]
pub struct MonitoredTx {
    pub txid: Txid,
    pub status: SwapStatus,
    pub description: String,
    pub user_note: Option<String>,
}

/// The monitored transactions and where each stands.
#[derive(Clone, PartialEq, Eq, Debug)]
pub struct GetMonitoredTxsResp {
    pub txs: Vec<MonitoredTx>,
}

/// What the wallet holds of one registered asset.
#[derive(Clone, PartialEq, Eq, Debug)]
pub struct Balance {
    pub ticker: String,
    /// The sum, in the asset's smallest units.
    pub units: u64,
    /// The asset's decimal places.
    pub precision: u8,
}

/// What the wallet holds, asset by asset.
#[derive(Clone, PartialEq, Eq, Debug)]
pub struct BalancesNotif {
    pub balances: Vec<Balance>,
}

/// The state of a peg as the server reports it. `detail` is the rest of the
/// report, carried as it came.
#[derive(Clone, PartialEq, Eq, Debug)]
pub struct PegStatus {
    pub order_id: OrderId,
    pub detail: String,
}

/// What clients are told unasked.
#[derive(Clone, PartialEq, Eq, Debug)]
pub enum Notif {
    Balances(BalancesNotif),
    PegStatus(PegStatus),
}

/// A client's request.
#[derive(Clone, PartialEq, Eq, Debug)]
pub enum Req {
    NewAddress(NewAddressReq),
    CreateTx(CreateTxReq),
    SendTx(SendTxReq),
    GetQuote(GetQuoteReq),
    AcceptQuote(AcceptQuoteReq),
    NewPeg(NewPegReq),
    DelPeg(DelPegReq),
    GetMonitoredTxs(GetMonitoredTxsReq),
}

/// The answer to a request that succeeded.
#[derive(Clone, PartialEq, Eq, Debug)]
pub enum Resp {
    NewAddress(NewAddressResp),
    CreateTx(CreateTxResp),
    SendTx(SendTxResp),
    GetQuote(GetQuoteResp),
    AcceptQuote(AcceptQuoteResp),
    NewPeg(NewPegResp),
    DelPeg(DelPegResp),
    GetMonitoredTxs(GetMonitoredTxsResp),
}

/// Whether two lists say the same of the same tickers in the same order.
pub open spec fn balances_agree(a: Seq<Balance>, b: Seq<Balance>) -> bool {
    &&& a.len() == b.len()
    &&& forall|i: int|
        0 <= i < a.len() ==> {
            &&& (#[trigger] a[i]).ticker@ == b[i].ticker@
            &&& a[i].units == b[i].units
            &&& a[i].precision == b[i].precision
        }
}

/// A copy of an optional note.
pub fn copy_note(note: &Option<String>) -> (r: Option<String>)
    ensures
        r == *note,
{
    match note {
        Some(text) => Some(text.clone()),
        None => None,
    }
}

impl Duplicate for Balance {
    fn copy(&self) -> (r: Self) {
        Balance { ticker: self.ticker.clone(), units: self.units, precision: self.precision }
    }
}

impl Balance {
    /// Whether both say the same of the same ticker.
    pub fn same(&self, other: &Self) -> (r: bool)
        ensures
            r == (self.ticker@ == other.ticker@ && self.units == other.units && self.precision
                == other.precision),
    {
        self.ticker == other.ticker && self.units == other.units && self.precision
            == other.precision
    }
}

impl PegStatus {
    /// A copy of the report.
    pub fn copy(&self) -> (r: Self)
        ensures
            r == *self,
    {
        PegStatus { order_id: self.order_id, detail: self.detail.clone() }
    }
}

impl BalancesNotif {
    /// A copy, balance by balance.
    pub fn copy(&self) -> (r: Self)
        ensures
            r.balances@ == self.balances@,
    {
        BalancesNotif { balances: copy_all(&self.balances) }
    }

    /// Whether both list the same balances in the same order.
    pub open spec fn agrees(self, other: Self) -> bool {
        balances_agree(self.balances@, other.balances@)
    }

    /// Whether both list the same balances in the same order.
    pub fn same(&self, other: &Self) -> (r: bool)
        ensures
            r == self.agrees(*other),
    {
        let n = self.balances.len();
        if n != other.balances.len() {
            return false;
        }
        let mut i: usize = 0;
        while i < n
            invariant
                n == self.balances@.len(),
                n == other.balances@.len(),
                i <= n,
                forall|j: int|
                    0 <= j < i ==> {
                        &&& (#[trigger] self.balances@[j]).ticker@ == other.balances@[j].ticker@
                        &&& self.balances@[j].units == other.balances@[j].units
                        &&& self.balances@[j].precision == other.balances@[j].precision
                    },
            decreases n - i,
        {
            if !self.balances[i].same(&other.balances[i]) {
                return false;
            }
            i += 1;
        }
        true
    }
}

} // verus!
