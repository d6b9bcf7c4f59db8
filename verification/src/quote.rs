//! Swaps: asking the server for a quote, waiting for it, weighing it, keeping
//! it until its time is over, and accepting it.

use vstd::prelude::*;
use vstd::string::StringExecFns;
use crate::api::{AcceptQuoteReq, AcceptQuoteResp, GetQuoteReq, GetQuoteResp};
use crate::assets::{try_get_asset, Asset};
use crate::error::{Error, WsError};
use crate::ids::{QuoteId, Txid};
use crate::market::{
    asset_type, base_trade_dir, dir_of, find_market, first_trading, has_market, quote_amounts,
    quote_sides, side_of, AssetType, MarketInfo, TradeDir,
};
use crate::models::MonitoredTx;
use crate::ports::{
    Action, Notification, QuoteNotif, QuoteStatus, ServerCall, StartQuotes, Store, WsEvent,
};
use crate::send::try_convert_asset_amount;
use crate::duplicate::copy_all;
use crate::tx::{pset_transaction_id, pset_txid};
use crate::wallet::{of_asset, total_of};
use crate::worker::{standing, ws_step, Data, Quote};

verus! {

/// How long a quote is waited for, in milliseconds.
pub const QUOTE_WAIT_MS: u64 = 15_000;

/// What a swap needs settled before the server is asked: the two assets, the
/// market that trades them, the side sent and the amount sent.
#[derive(Copy, Clone, PartialEq, Eq, Structural, Debug)]
pub struct QuotePlan {
    pub send_asset: Asset,
    pub recv_asset: Asset,
    pub market: MarketInfo,
    pub asset_type: AssetType,
    pub base_trade_dir: TradeDir,
    /// The amount to send, in the smallest units of its asset.
    pub send_amount: u64,
}

/// How the wait for a quote ended.
#[derive(Clone, PartialEq, Eq, Debug)]
pub enum QuoteOutcome {
    Disconnected,
    Timeout,
    Quote(QuoteNotif),
}

/// A quote that the worker found to ask exactly what the client sends.
#[derive(Copy, Clone, PartialEq, Eq, Structural, Debug)]
pub struct Settled {
    pub quote_id: QuoteId,
    /// What the swap gives, in the smallest units of the asset received.
    pub recv_amount: u64,
    /// How long the quote stands from when it is kept, in milliseconds.
    pub ttl: u64,
}

/// Whether a plan is the one for a request, given the assets its tickers
/// resolve to.
pub open spec fn plans(data: Data, req: GetQuoteReq, plan: QuotePlan) -> bool {
    let send = data.ticker_loader.resolve(req.send_asset@);
    let recv = data.ticker_loader.resolve(req.recv_asset@);
    &&& plan.send_asset == send
    &&& plan.recv_asset == recv
    &&& exists|i: int|
        first_trading(data.markets@, send.asset_id, recv.asset_id, i) && plan.market
            == data.markets@[i]
    &&& plan.asset_type == side_of(plan.market, send.asset_id)
    &&& plan.base_trade_dir == dir_of(plan.asset_type)
    &&& plan.send_amount == req.send_amount.units
}

/// What an event means to the wait for the quote of one stream: its end, or
/// nothing.
pub open spec fn quote_signal(event: WsEvent, quote_sub_id: u64) -> Option<QuoteOutcome> {
    match event {
        WsEvent::Disconnected => Some(QuoteOutcome::Disconnected),
        WsEvent::Notification(Notification::Quote(quote)) => if quote.quote_sub_id
            == quote_sub_id {
            Some(QuoteOutcome::Quote(quote))
        } else {
            None
        },
        _ => None,
    }
}

/// Whether the fees of a quote can be added up in 64 bits.
pub open spec fn fees_fit(outcome: QuoteOutcome) -> bool {
    outcome matches QuoteOutcome::Quote(quote) ==> (quote.status matches QuoteStatus::Success {
        server_fee,
        fixed_fee,
        ..
    } ==> server_fee + fixed_fee <= u64::MAX)
}

/// What the end of the wait comes to for a plan.
pub open spec fn settles(plan: QuotePlan, outcome: QuoteOutcome) -> Result<Settled, Error> {
    match outcome {
        QuoteOutcome::Disconnected => Err(Error::WsError(WsError::Disconnected)),
        QuoteOutcome::Timeout => Err(Error::WsError(WsError::Timeout)),
        QuoteOutcome::Quote(quote) => match quote.status {
            QuoteStatus::Success {
                quote_id,
                base_amount,
                quote_amount,
                server_fee,
                fixed_fee,
                ttl,
            } => {
                let sides = quote_sides(
                    plan.base_trade_dir,
                    plan.market.fee_asset,
                    base_amount,
                    quote_amount,
                    (server_fee + fixed_fee) as u64,
                );
                if sides.0 == plan.send_amount {
                    Ok(Settled { quote_id, recv_amount: sides.1, ttl })
                } else {
                    Err(
                        Error::NotEnoughAmount {
                            asset_id: plan.send_asset.asset_id,
                            required: plan.send_amount,
                            available: sides.0,
                        },
                    )
                }
            },
            QuoteStatus::LowBalance { available } => Err(
                Error::NotEnoughAmount {
                    asset_id: plan.send_asset.asset_id,
                    required: plan.send_amount,
                    available,
                },
            ),
            QuoteStatus::Error { error_msg } => Err(Error::QuoteError(error_msg)),
        },
    }
}

/// What `get_quote` gives for a request: the plan where both tickers are
/// registered, a market trades the two assets and the amount is exact, else
/// the first of these that fails.
pub open spec fn quote_planned(data: Data, req: GetQuoteReq, r: Result<QuotePlan, Error>) -> bool {
    &&& !data.ticker_loader.knows(req.send_asset@) ==> r == Err::<QuotePlan, Error>(
        Error::UnknownTicker(req.send_asset),
    )
    &&& data.ticker_loader.knows(req.send_asset@) && !data.ticker_loader.knows(req.recv_asset@)
        ==> r == Err::<QuotePlan, Error>(Error::UnknownTicker(req.recv_asset))
    &&& data.ticker_loader.knows(req.send_asset@) && data.ticker_loader.knows(req.recv_asset@)
        ==> {
        let send = data.ticker_loader.resolve(req.send_asset@);
        let recv = data.ticker_loader.resolve(req.recv_asset@);
        &&& !has_market(data.markets@, send.asset_id, recv.asset_id) ==> r == Err::<
            QuotePlan,
            Error,
        >(Error::NoMarket)
        &&& has_market(data.markets@, send.asset_id, recv.asset_id) && !req.send_amount.exact_at(
            send.precision,
        )
            ==> r == Err::<QuotePlan, Error>(
            Error::InvalidAssetAmount(req.send_amount.text, send.precision),
        )
        &&& has_market(data.markets@, send.asset_id, recv.asset_id) && req.send_amount.exact_at(
            send.precision,
        )
            ==> (r matches Ok(plan) && plans(data, req, plan))
    }
}

/// What `accept_quote` does with a request at a reading of the clock: `post`
/// is the state after it, `pre` the state before.
pub open spec fn accepts(
    pre: Data,
    req: AcceptQuoteReq,
    now: u64,
    post: Data,
    r: Result<Vec<Action>, Error>,
) -> bool {
    &&& !pre.quotes@.contains_key(req.quote_id) ==> r == Err::<Vec<Action>, Error>(Error::NoQuote)
        && post == pre
    &&& pre.quotes@.contains_key(req.quote_id) && !pre.quotes@[req.quote_id].valid_at(now) ==> r
        == Err::<Vec<Action>, Error>(Error::QuoteExpired) && post == pre
    &&& pre.quotes@.contains_key(req.quote_id) && pre.quotes@[req.quote_id].valid_at(now) ==> {
        let quote = pre.quotes@[req.quote_id];
        let row = MonitoredTx {
            txid: quote.txid,
            description: Some(quote.note),
            user_note: req.user_note,
        };
        &&& post.monitored_txs@ == pre.monitored_txs@.insert(quote.txid, row)
        &&& r matches Ok(actions)
        &&& actions@.len() == 2
        &&& actions@[0] == Action::Store(Store::AddMonitoredTx(row))
        &&& actions@[1] matches Action::Server(ServerCall::TakerSign { quote_id, pset })
        &&& quote_id == req.quote_id
        &&& pset@ == quote.pset@
    }
    &&& post == (Data { monitored_txs: post.monitored_txs, ..pre })
}

/// What `get_quote_start` gives for a plan: the opening of the stream of
/// quotes with the wallet's outputs in the asset sent, where the wallet has
/// reported its outputs and they cover the amount, else why not.
pub open spec fn started(
    data: Data,
    plan: QuotePlan,
    receive_address: String,
    change_address: String,
    r: Result<ServerCall, Error>,
) -> bool {
    &&& data.utxo_data is None ==> r == Err::<ServerCall, Error>(Error::NoUtxos)
    &&& data.utxo_data is Some ==> {
        let utxos = data.utxo_data->0@;
        let total = total_of(utxos, plan.send_asset.asset_id);
        &&& total < plan.send_amount ==> r == Err::<ServerCall, Error>(
            Error::NotEnoughAmount {
                asset_id: plan.send_asset.asset_id,
                required: plan.send_amount,
                available: total as u64,
            },
        )
        &&& total >= plan.send_amount ==> (r matches Ok(ServerCall::StartQuotes(start))
            && start.asset_pair == plan.market.asset_pair && start.asset_type == plan.asset_type
            && start.amount == plan.send_amount && start.trade_dir == TradeDir::Sell
            && start.utxos@ == of_asset(utxos, plan.send_asset.asset_id) && start.receive_address
            == receive_address && start.change_address == change_address)
    }
}

/// What is said of a swap.
pub open spec fn swap_note(req: GetQuoteReq, recv_amount: Seq<char>) -> Seq<char> {
    "swap "@ + req.send_amount.text@ + " "@ + req.send_asset@ + " for "@ + recv_amount + " "@
        + req.recv_asset@ + " to "@ + req.receive_address@
}

impl QuoteStatus {
    /// A copy of the answer.
    pub fn copy(&self) -> (r: Self)
        ensures
            r == *self,
    {
        match self {
            QuoteStatus::Success {
                quote_id,
                base_amount,
                quote_amount,
                server_fee,
                fixed_fee,
                ttl,
            } => QuoteStatus::Success {
                quote_id: *quote_id,
                base_amount: *base_amount,
                quote_amount: *quote_amount,
                server_fee: *server_fee,
                fixed_fee: *fixed_fee,
                ttl: *ttl,
            },
            QuoteStatus::LowBalance { available } => QuoteStatus::LowBalance {
                available: *available,
            },
            QuoteStatus::Error { error_msg } => QuoteStatus::Error { error_msg: error_msg.clone() },
        }
    }
}

impl QuoteNotif {
    /// A copy of the quote.
    pub fn copy(&self) -> (r: Self)
        ensures
            r == *self,
    {
        QuoteNotif { quote_sub_id: self.quote_sub_id, status: self.status.copy() }
    }
}

/// The reading of the clock at which the wait for a quote ends.
pub fn quote_deadline(now: u64) -> (r: u64)
    requires
        now + QUOTE_WAIT_MS <= u64::MAX,
    ensures
        r == now + QUOTE_WAIT_MS,
{
    now + QUOTE_WAIT_MS
}

/// The reading of the clock from which a quote no longer stands: the reading
/// at which it is kept, and how long the quote says it stands.
pub fn quote_expiry(now: u64, ttl: u64) -> (r: u64)
    requires
        now + ttl <= u64::MAX,
    ensures
        r == now + ttl,
{
    now + ttl
}

/// What an event means to the wait for the quote of one stream.
pub fn quote_status(event: &WsEvent, quote_sub_id: u64) -> (r: Option<QuoteOutcome>)
    ensures
        r == quote_signal(*event, quote_sub_id),
{
    match event {
        WsEvent::Disconnected => Some(QuoteOutcome::Disconnected),
        WsEvent::Notification(Notification::Quote(quote)) => {
            if quote.quote_sub_id == quote_sub_id {
                Some(QuoteOutcome::Quote(quote.copy()))
            } else {
                None
            }
        },
        _ => None,
    }
}

/// Weighs how the wait for a quote ended: a quote that asks exactly the
/// amount planned is settled; anything else is an error.
pub fn get_quote_settle(plan: &QuotePlan, outcome: QuoteOutcome) -> (r: Result<Settled, Error>)
    requires
        fees_fit(outcome),
    ensures
        r == settles(*plan, outcome),
{
    let quote = match outcome {
        QuoteOutcome::Disconnected => {
            return Err(Error::WsError(WsError::Disconnected));
        },
        QuoteOutcome::Timeout => {
            return Err(Error::WsError(WsError::Timeout));
        },
        QuoteOutcome::Quote(quote) => quote,
    };
    match quote.status {
        QuoteStatus::Success { quote_id, base_amount, quote_amount, server_fee, fixed_fee, ttl } => {
            let total_fee = server_fee + fixed_fee;
            let (quote_send_amount, quote_recv_amount) = quote_amounts(
                plan.base_trade_dir,
                plan.market.fee_asset,
                base_amount,
                quote_amount,
                total_fee,
            );
            if quote_send_amount != plan.send_amount {
                return Err(
                    Error::NotEnoughAmount {
                        asset_id: plan.send_asset.asset_id,
                        required: plan.send_amount,
                        available: quote_send_amount,
                    },
                );
            }
            Ok(Settled { quote_id, recv_amount: quote_recv_amount, ttl })
        },
        QuoteStatus::LowBalance { available } => Err(
            Error::NotEnoughAmount {
                asset_id: plan.send_asset.asset_id,
                required: plan.send_amount,
                available,
            },
        ),
        QuoteStatus::Error { error_msg } => Err(Error::QuoteError(error_msg)),
    }
}

/// Whether the fees of a quote can be added up in 64 bits.
pub fn fees_in_range(outcome: &QuoteOutcome) -> (r: bool)
    ensures
        r == fees_fit(*outcome),
{
    match outcome {
        QuoteOutcome::Quote(quote) => match &quote.status {
            QuoteStatus::Success { server_fee, fixed_fee, .. } => server_fee.checked_add(
                *fixed_fee,
            ).is_some(),
            _ => true,
        },
        _ => true,
    }
}

impl Data {
    /// Settles what a swap needs before the server is asked: both tickers
    /// resolved, the first market that trades the two assets found, and the
    /// amount taken in units.
    pub fn get_quote(&self, req: &GetQuoteReq) -> (r: Result<QuotePlan, Error>)
        ensures
            quote_planned(*self, *req, r),
    {
        let send_asset = try_get_asset(&self.ticker_loader, &req.send_asset)?;
        let recv_asset = try_get_asset(&self.ticker_loader, &req.recv_asset)?;
        let market = match find_market(&self.markets, &send_asset.asset_id, &recv_asset.asset_id) {
            Some(market) => market,
            None => {
                return Err(Error::NoMarket);
            },
        };
        let asset_type = asset_type(&market, &send_asset.asset_id);
        let base_trade_dir = base_trade_dir(asset_type);
        let send_amount = try_convert_asset_amount(&req.send_amount, send_asset.precision)?;
        Ok(QuotePlan { send_asset, recv_asset, market, asset_type, base_trade_dir, send_amount })
    }

    /// Gathers the wallet's outputs in the asset sent and, where they cover
    /// the amount, opens the stream of quotes with them.
    pub fn get_quote_start(
        &self,
        plan: &QuotePlan,
        receive_address: String,
        change_address: String,
    ) -> (r: Result<ServerCall, Error>)
        ensures
            started(*self, *plan, receive_address, change_address, r),
    {
        let utxo_data = match &self.utxo_data {
            Some(utxo_data) => utxo_data,
            None => {
                return Err(Error::NoUtxos);
            },
        };
        let utxos = utxo_data.select(&plan.send_asset.asset_id);
        let total = utxo_data.total(&plan.send_asset.asset_id);
        if total < plan.send_amount {
            return Err(
                Error::NotEnoughAmount {
                    asset_id: plan.send_asset.asset_id,
                    required: plan.send_amount,
                    available: total,
                },
            );
        }
        Ok(
            ServerCall::StartQuotes(
                StartQuotes {
                    asset_pair: plan.market.asset_pair,
                    asset_type: plan.asset_type,
                    amount: plan.send_amount,
                    trade_dir: TradeDir::Sell,
                    utxos,
                    receive_address,
                    change_address,
                },
            ),
        )
    }

    /// Takes in an event while a quote is waited for: the event does what it
    /// always does, and the result says whether it ends the wait.
    pub fn get_quote_watch(&mut self, event: WsEvent, quote_sub_id: u64) -> (r: (
        Vec<Action>,
        Option<QuoteOutcome>,
    ))
        ensures
            ws_step(*old(self), event, *final(self), r.0@),
            r.1 == quote_signal(event, quote_sub_id),
            old(self).wf() ==> final(self).wf(),
    {
        let status = quote_status(&event, quote_sub_id);
        let actions = self.process_ws_event(event);
        (actions, status)
    }

    /// Checks what can be known of the transaction of a quote before it is
    /// signed: that it has an identifier, and that the wallet has reported its
    /// outputs.
    pub fn quote_txid_checked(&self, txid: Option<Txid>) -> (r: Result<Txid, Error>)
        ensures
            txid is None ==> (r matches Err(Error::Codec(text)) && text@ == "invalid PSET"@),
            txid is Some && self.utxo_data is None ==> r == Err::<Txid, Error>(Error::NoUtxos),
            txid is Some && self.utxo_data is Some ==> r == Ok::<Txid, Error>(txid->0),
    {
        let txid = match txid {
            Some(txid) => txid,
            None => {
                return Err(Error::Codec("invalid PSET".to_owned()));
            },
        };
        if self.utxo_data.is_none() {
            return Err(Error::NoUtxos);
        }
        Ok(txid)
    }

    /// Reads the identifier of the transaction that a serialized partially
    /// signed transaction yields, and checks it as `quote_txid_checked` does.
    pub fn get_quote_txid(&self, pset: &Vec<u8>) -> (r: Result<Txid, Error>)
        ensures
            pset_txid(pset@) is None ==> (r matches Err(Error::Codec(text)) && text@
                == "invalid PSET"@),
            pset_txid(pset@) is Some && self.utxo_data is None ==> r == Err::<Txid, Error>(
                Error::NoUtxos,
            ),
            pset_txid(pset@) is Some && self.utxo_data is Some ==> r == Ok::<Txid, Error>(
                pset_txid(pset@)->0,
            ),
    {
        self.quote_txid_checked(pset_transaction_id(pset))
    }

    /// Keeps a settled quote, signed, until its time is over, and answers the
    /// client.
    pub fn get_quote_done(
        &mut self,
        req: &GetQuoteReq,
        settled: Settled,
        txid: Txid,
        signed_pset: Vec<u8>,
        expires_at: u64,
        recv_amount: &String,
    ) -> (r: GetQuoteResp)
        ensures
            r == (GetQuoteResp {
                quote_id: settled.quote_id,
                recv_amount: settled.recv_amount,
                ttl: settled.ttl,
                txid,
            }),
            final(self).quotes@.contains_key(settled.quote_id),
            final(self).quotes@[settled.quote_id].txid == txid,
            final(self).quotes@[settled.quote_id].pset == signed_pset,
            final(self).quotes@[settled.quote_id].expires_at == expires_at,
            final(self).quotes@[settled.quote_id].note@ == swap_note(*req, recv_amount@),
            final(self).quotes@.remove(settled.quote_id) == old(self).quotes@.remove(
                settled.quote_id,
            ),
            *final(self) == (Data { quotes: final(self).quotes, ..*old(self) }),
            old(self).wf() ==> final(self).wf(),
    {
        let mut note = String::from_str("swap ");
        note.append(req.send_amount.text.as_str());
        note.append(" ");
        note.append(req.send_asset.as_str());
        note.append(" for ");
        note.append(recv_amount.as_str());
        note.append(" ");
        note.append(req.recv_asset.as_str());
        note.append(" to ");
        note.append(req.receive_address.as_str());
        let quote = Quote { txid, pset: signed_pset, expires_at, note };
        self.quotes.insert(settled.quote_id, quote);
        proof {
            assert(self.quotes@.remove(settled.quote_id) =~= old(self).quotes@.remove(
                settled.quote_id,
            ));
        }
        GetQuoteResp {
            quote_id: settled.quote_id,
            recv_amount: settled.recv_amount,
            ttl: settled.ttl,
            txid,
        }
    }

    /// Accepts a quote that still stands: its transaction is monitored from
    /// now on, and the actions say, in this order: store the monitored row,
    /// then hand the signed transaction to the server.
    pub fn accept_quote(&mut self, req: AcceptQuoteReq, now: u64) -> (r: Result<Vec<Action>, Error>)
        ensures
            accepts(*old(self), req, now, *final(self), r),
            old(self).wf() ==> final(self).wf(),
    {
        let quote = match self.quotes.get(&req.quote_id) {
            Some(quote) => quote,
            None => {
                return Err(Error::NoQuote);
            },
        };
        if !quote.ttl_valid(now) {
            return Err(Error::QuoteExpired);
        }
        let pset = copy_all(&quote.pset);
        let row = MonitoredTx {
            txid: quote.txid,
            description: Some(quote.note.clone()),
            user_note: req.user_note,
        };
        let mut actions: Vec<Action> = Vec::new();
        actions.push(Action::Store(Store::AddMonitoredTx(row.copy())));
        actions.push(Action::Server(ServerCall::TakerSign { quote_id: req.quote_id, pset }));
        self.monitored_txs.insert(row.txid, row);
        Ok(actions)
    }

    /// The identifier of the transaction of a quote, if the quote is known.
    pub fn quote_txid(&self, quote_id: &QuoteId) -> (r: Option<Txid>)
        ensures
            r == (if self.quotes@.contains_key(*quote_id) {
                Some(self.quotes@[*quote_id].txid)
            } else {
                None
            }),
    {
        match self.quotes.get(quote_id) {
            Some(quote) => Some(quote.txid),
            None => None,
        }
    }

    /// Answers the client once the server has taken the signed transaction
    /// of a quote and named the same transaction.
    pub fn accept_quote_done(&self, quote_id: &QuoteId, txid: Txid) -> (r: AcceptQuoteResp)
        requires
            self.quotes@.contains_key(*quote_id),
            self.quotes@[*quote_id].txid == txid,
        ensures
            r == (AcceptQuoteResp { txid }),
    {
        AcceptQuoteResp { txid }
    }
}

/// A quote can be accepted only while it stands, and the sweep at or after
/// its last moment drops it.
pub proof fn law_quote_gone_after_expiry(quotes: Map<QuoteId, Quote>, quote_id: QuoteId, now: u64)
    requires
        quotes.contains_key(quote_id),
        now >= quotes[quote_id].expires_at,
    ensures
        !quotes[quote_id].valid_at(now),
        !standing(quotes, now).contains_key(quote_id),
{
}

} // verus!
