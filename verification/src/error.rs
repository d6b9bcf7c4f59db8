//! The errors that a command can end in.

use vstd::prelude::*;
use crate::ids::AssetId;

verus! {

/// Why a request to the market server gave no answer.
#[derive(Clone, PartialEq, Eq, Debug)]
pub enum WsError {
    /// The connection dropped while the request was pending.
    Disconnected,
    /// No answer came before the deadline.
    Timeout,
    /// The server answered with an error of its own.
    Rejected(String),
}

/// Why a command failed.
#[derive(Clone, PartialEq, Eq, Debug)]
pub enum Error {
    /// The ticker is not registered.
    UnknownTicker(String),
    /// The amount, given in this text, cannot be said exactly at the asset's
    /// precision.
    InvalidAssetAmount(String, u8),
    /// A further address would lie too far beyond the wallet's first unused one.
    GapLimit,
    /// No market trades the two assets.
    NoMarket,
    /// No quote is known under the identifier.
    NoQuote,
    /// The quote is known but its time is over.
    QuoteExpired,
    /// The server could not quote.
    QuoteError(String),
    /// The wallet or the quote covers less than the amount asked for.
    NotEnoughAmount { asset_id: AssetId, required: u64, available: u64 },
    /// No drafted transaction is known under the identifier.
    NoCreatedTx,
    /// The inputs of a drafted transaction could not be confirmed.
    UtxoCheckFailed(String),
    /// The wallet has not reported its outputs yet.
    NoUtxos,
    /// The wallet refused.
    Wallet(String),
    /// The market server gave no usable answer.
    WsError(WsError),
    /// The store refused.
    Persistence(String),
    /// Received data could not be decoded.
    Codec(String),
}

} // verus!
