//! What the worker asks of the wallet, the market server, the store and the
//! clients, and what the server sends it.

use vstd::prelude::*;
use crate::api::{Notif, PegStatus};
use crate::gateway::ClientId;
use crate::ids::{AssetId, OrderId, OutPoint, QuoteId, Txid};
use crate::market::{AssetPair, AssetType, MarketInfo, TradeDir};
use crate::models::{Address, MonitoredTx, Peg};
use crate::wallet::Utxo;

verus! {

/// One payment of a transaction that the wallet is to draft.
#[derive(Clone, PartialEq, Eq, Debug)]
pub struct Payment {
    pub address: String,
    pub asset_id: AssetId,
    /// The amount, in the asset's smallest units.
    pub amount: u64,
}

/// A request to the wallet.
#[derive(Clone, PartialEq, Eq, Debug)]
pub enum WalletCall {
    /// Name an address: the one at `index`, or the first unused one.
    NewAddress { change: bool, index: Option<u32> },
    CreateTx { recipients: Vec<Payment> },
    /// Broadcast the serialized transaction.
    BroadcastTx { tx: Vec<u8> },
    /// Report where these transactions stand.
    GetTxs { txids: Vec<Txid> },
}

/// What the wallet reports of a transaction it knows.
#[derive(Copy, Clone, PartialEq, Eq, Structural, Debug)]
pub struct WalletTx {
    pub txid: Txid,
    /// The height of the block that holds it, once one does.
    pub height: Option<u32>,
}

/// The opening of a stream of quotes.
#[derive(Clone, PartialEq, Eq, Debug)]
pub struct StartQuotes {
    pub asset_pair: AssetPair,
    pub asset_type: AssetType,
    pub amount: u64,
    pub trade_dir: TradeDir,
    pub utxos: Vec<Utxo>,
    pub receive_address: String,
    pub change_address: String,
}

/// A request to the market server.
#[derive(Clone, PartialEq, Eq, Debug)]
pub enum ServerCall {
    ListMarkets,
    PegStatus { order_id: OrderId },
    Peg { recv_addr: String, peg_in: bool, blocks: Option<i32> },
    CheckOutpoints { outpoints: Vec<OutPoint> },
    /// Broadcast the serialized transaction.
    BroadcastTx { tx: Vec<u8> },
    StartQuotes(StartQuotes),
    GetQuote { quote_id: QuoteId },
    /// Hand in the signed, serialized partially signed transaction.
    TakerSign { quote_id: QuoteId, pset: Vec<u8> },
}

/// A change to the store.
#[derive(Clone, PartialEq, Eq, Debug)]
pub enum Store {
    AddPeg(Peg),
    DeletePeg(OrderId),
    AddMonitoredTx(MonitoredTx),
    AddAddress(Address),
}

/// One thing for the worker's surroundings to do. A list of actions is done
/// from its first to its last.
#[derive(Clone, PartialEq, Eq, Debug)]
pub enum Action {
    Wallet(WalletCall),
    Server(ServerCall),
    Store(Store),
    /// Tell each of these clients, in this order.
    Notify { clients: Vec<ClientId>, notif: Notif },
}

/// How the server answers the opening of a stream of quotes.
#[derive(Clone, PartialEq, Eq, Debug)]
pub enum QuoteStatus {
    Success {
        quote_id: QuoteId,
        base_amount: u64,
        quote_amount: u64,
        server_fee: u64,
        fixed_fee: u64,
        /// How long the quote stands, in milliseconds.
        ttl: u64,
    },
    LowBalance { available: u64 },
    Error { error_msg: String },
}

/// A quote, sent on the stream that `quote_sub_id` names.
#[derive(Clone, PartialEq, Eq, Debug)]
pub struct QuoteNotif {
    pub quote_sub_id: u64,
    pub status: QuoteStatus,
}

/// An answer of the server to a request, as far as the worker reads it.
#[derive(Clone, PartialEq, Eq, Debug)]
pub enum Response {
    ListMarkets(Vec<MarketInfo>),
    PegStatus(PegStatus),
    /// Any other answer, and any error.
    Other,
}

/// What the server sends unasked, as far as the worker reads it.
#[derive(Clone, PartialEq, Eq, Debug)]
pub enum Notification {
    PegStatus(PegStatus),
    MarketAdded(MarketInfo),
    MarketRemoved(AssetPair),
    Quote(QuoteNotif),
    Other,
}

/// What arrives from the connection to the server.
#[derive(Clone, PartialEq, Eq, Debug)]
pub enum WsEvent {
    Connected,
    Disconnected,
    Response(Response),
    Notification(Notification),
}

} // verus!
