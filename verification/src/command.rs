//! The commands that reach the worker, and how each goes from one step to
//! the next: what it asks of the worker's surroundings, and what it makes of
//! their reply.

use vstd::prelude::*;
use crate::address::within_gap;
use crate::api::{
    AcceptQuoteReq, AcceptQuoteResp, CreateTxReq, DelPegReq, DelPegResp, GetMonitoredTxsReq,
    GetQuoteReq, GetQuoteResp, NewAddressReq, NewAddressResp, NewPegReq, NewPegResp, Notif,
    PegStatus, Resp, SendTxReq, SendTxResp,
};
use crate::error::{Error, WsError};
use crate::gateway::ClientId;
use crate::ids::{Key, OrderId, QuoteId, Txid};
use crate::models::{Address, MonitoredTx, Peg};
use crate::peg::{new_peg, peg_status_request};
use crate::ports::{Action, ServerCall, Store, WalletCall, WalletTx, WsEvent};
use crate::quote::{
    accepts, fees_fit, fees_in_range, get_quote_settle, quote_deadline, quote_expiry,
    quote_planned, quote_signal, settles, started, swap_note, QuoteOutcome, QuotePlan, Settled,
    QUOTE_WAIT_MS,
};
use crate::send::{broadcast_status, drafts, send_checked, told_of, Draft};
use crate::tx::{fee_total, pset_txid, raw_outputs, raw_txid, Transaction};
use crate::worker::{is_replay, peg_step, ws_step, Data};

verus! {

/// What a client asks of the worker, or what the gateway reports of a client.
#[derive(Clone, PartialEq, Eq, Debug)]
pub enum Command {
    NewAddress { req: NewAddressReq },
    CreateTx { req: CreateTxReq },
    SendTx { req: SendTxReq },
    GetQuote { req: GetQuoteReq },
    AcceptQuote { req: AcceptQuoteReq },
    NewPeg { req: NewPegReq },
    DelPeg { req: DelPegReq },
    GetMonitoredTxs { req: GetMonitoredTxsReq },
    ClientConnected { client_id: ClientId },
    ClientDisconnected { client_id: ClientId },
}

/// What a command waits for.
#[derive(Clone, PartialEq, Eq, Debug)]
pub enum Wait {
    /// The wallet's answer to a request.
    Wallet(WalletCall),
    /// The server's answer to a request.
    Server(ServerCall),
    /// How the server and the wallet take the serialized transaction, both
    /// asked to broadcast it at once.
    Broadcast { tx: Vec<u8> },
    /// The next event of the connection to the server, or the reading of the
    /// clock at which the wait ends, whichever comes first.
    Event { deadline: u64 },
    /// The wallet's signatures on the serialized partially signed
    /// transaction, and the amount received as clients read it.
    Sign { pset: Vec<u8>, recv_amount: u64, recv_precision: u8 },
}

/// What the server answers to a request that a command waits on.
#[derive(Clone, PartialEq, Eq, Debug)]
pub enum ServerReply {
    /// The outputs named are known and unspent.
    CheckOutpoints,
    /// The server took the transaction to broadcast.
    BroadcastTx,
    Peg { order_id: OrderId, peg_addr: String },
    PegStatus(PegStatus),
    StartQuotes { quote_sub_id: u64 },
    /// The serialized partially signed transaction of a quote.
    GetQuote { pset: Vec<u8> },
    TakerSign { txid: Txid },
}

/// What comes back to a command that waited.
#[derive(PartialEq, Eq, Debug)]
pub enum Reply {
    /// The wallet named an address.
    Address { index: u32, address: String },
    /// The wallet drafted a transaction; here is its serialization.
    Tx(Vec<u8>),
    /// The wallet reported the transactions it knows of those asked for.
    Txs(Vec<WalletTx>),
    /// The wallet refused.
    WalletFailed(String),
    /// The server answered.
    Server(ServerReply),
    /// The server gave no usable answer; `text` is the error in words.
    ServerFailed { error: WsError, text: String },
    /// How the wallet and the server took the broadcast.
    Broadcast { wallet: Result<(), String>, server: Result<(), String> },
    /// An event arrived from the connection to the server.
    Event(WsEvent),
    /// The deadline passed.
    Timeout,
    /// The wallet signed; `recv_amount` is the amount received as clients
    /// read it.
    Signed { pset: Vec<u8>, recv_amount: String },
}

/// Where a command stands while it waits.
#[derive(Clone, PartialEq, Eq, Debug)]
pub enum Pending {
    /// For the wallet's first unused address.
    NewAddressFirst { user_note: Option<String> },
    /// For the address at the index decided.
    NewAddressNamed { index: u32, user_note: Option<String> },
    /// For the transaction drafted.
    CreateTx { note: String },
    /// For the server's verdict on the outputs spent.
    SendTxCheck { req: SendTxReq },
    /// For both broadcasts.
    SendTxBroadcast,
    /// For a change address.
    QuoteChange { req: GetQuoteReq, plan: QuotePlan },
    /// For the stream of quotes to open.
    QuoteStart { req: GetQuoteReq, plan: QuotePlan },
    /// For the quote of the stream.
    QuoteWait { req: GetQuoteReq, plan: QuotePlan, quote_sub_id: u64, deadline: u64 },
    /// For the transaction of the quote.
    QuotePset { req: GetQuoteReq, settled: Settled, recv_precision: u8 },
    /// For the wallet's signatures.
    QuoteSign { req: GetQuoteReq, settled: Settled, txid: Txid, expires_at: u64 },
    /// For the server to take the signed transaction.
    AcceptSign { quote_id: QuoteId },
    /// For the peg to open.
    PegOpen,
    /// For the first state of the peg.
    PegFirstStatus { order_id: OrderId, peg_addr: String },
    /// For the wallet's report on the monitored transactions.
    MonitoredTxs,
}

/// What the worker's surroundings do next for a command.
#[derive(PartialEq, Eq, Debug)]
pub enum Step {
    /// Carry out `first` from its first action to its last, then wait for
    /// `then`, and come back with the reply and with `pending`.
    Ask { first: Vec<Action>, then: Wait, pending: Pending },
    /// Carry out `first`, then answer the client.
    Done { first: Vec<Action>, resp: Result<Resp, Error> },
    /// Tell the client that connected, in this order.
    Connected { notifs: Vec<Notif> },
    /// Nothing: the client is gone.
    Disconnected,
}

/// Whether a step asks for this with nothing to carry out before.
pub open spec fn asks(step: Step, then: Wait, pending: Pending) -> bool {
    step matches Step::Ask { first, then: t, pending: p } && first@.len() == 0 && t == then && p
        == pending
}

/// Whether a step ends the command with this answer and nothing to carry out
/// before.
pub open spec fn ends(step: Step, resp: Result<Resp, Error>) -> bool {
    step matches Step::Done { first, resp: r } && first@.len() == 0 && r == resp
}

/// Whether a reply is of a kind that the command waits for.
pub open spec fn expects(pending: Pending, reply: Reply) -> bool {
    match pending {
        Pending::NewAddressFirst { .. }
        | Pending::NewAddressNamed { .. }
        | Pending::QuoteChange { .. } => reply is Address || reply is WalletFailed,
        Pending::CreateTx { .. } => reply is Tx || reply is WalletFailed,
        Pending::MonitoredTxs => reply is Txs || reply is WalletFailed,
        Pending::SendTxCheck { .. } => reply matches Reply::Server(ServerReply::CheckOutpoints)
            || reply is ServerFailed,
        Pending::SendTxBroadcast => reply is Broadcast,
        Pending::QuoteStart { .. } => reply matches Reply::Server(ServerReply::StartQuotes { .. })
            || reply is ServerFailed,
        Pending::QuoteWait { .. } => reply is Event || reply is Timeout,
        Pending::QuotePset { .. } => reply matches Reply::Server(ServerReply::GetQuote { .. })
            || reply is ServerFailed,
        Pending::QuoteSign { .. } => reply is Signed,
        Pending::AcceptSign { .. } => reply matches Reply::Server(ServerReply::TakerSign { .. })
            || reply is ServerFailed,
        Pending::PegOpen => reply matches Reply::Server(ServerReply::Peg { .. })
            || reply is ServerFailed,
        Pending::PegFirstStatus { .. } => reply matches Reply::Server(ServerReply::PegStatus(_))
            || reply is ServerFailed,
    }
}

/// How a wait for a quote ends with a reply, if it does.
pub open spec fn wait_end(reply: Reply, quote_sub_id: u64) -> Option<QuoteOutcome> {
    match reply {
        Reply::Event(event) => quote_signal(event, quote_sub_id),
        _ => Some(QuoteOutcome::Timeout),
    }
}

/// Whether the numbers that a reply brings can be reckoned with: an index,
/// a sum of fees and the reading of the clock until which a quote stands
/// must each be writable in the bits they have, and the server must name the
/// transaction of the quote that it took.
pub open spec fn reckons(data: Data, pending: Pending, reply: Reply, now: u64) -> bool {
    match pending {
        Pending::NewAddressFirst { .. } => reply matches Reply::Address { index, .. }
            ==> data.can_issue(index),
        Pending::QuoteStart { .. } => reply matches Reply::Server(_) ==> now + QUOTE_WAIT_MS
            <= u64::MAX,
        Pending::QuoteWait { quote_sub_id, .. } => wait_end(reply, quote_sub_id) matches Some(
            outcome,
        ) ==> fees_fit(outcome),
        Pending::QuotePset { settled, .. } => reply matches Reply::Server(
            ServerReply::GetQuote { .. },
        ) ==> now + settled.ttl <= u64::MAX,
        Pending::AcceptSign { quote_id } => reply matches Reply::Server(
            ServerReply::TakerSign { txid },
        ) ==> data.quotes@.contains_key(quote_id) && data.quotes@[quote_id].txid == txid,
        _ => true,
    }
}

/// What `process_command` does with a command at a reading of the clock:
/// `post` is the state after it, `pre` the state before.
pub open spec fn begins(pre: Data, command: Command, now: u64, post: Data, step: Step) -> bool {
    match command {
        Command::NewAddress { req } => post == pre && asks(
            step,
            Wait::Wallet(WalletCall::NewAddress { change: false, index: None }),
            Pending::NewAddressFirst { user_note: req.user_note },
        ),
        Command::CreateTx { req } => post == pre && exists|draft: Result<Draft, Error>|
            drafts(pre.ticker_loader, req, draft) && match draft {
                Ok(draft) => asks(
                    step,
                    Wait::Wallet(WalletCall::CreateTx { recipients: draft.recipients }),
                    Pending::CreateTx { note: draft.note },
                ),
                Err(err) => ends(step, Err(err)),
            },
        Command::SendTx { req } => post == pre && exists|ask: Result<ServerCall, Error>|
            send_checked(pre, req.txid, ask) && match ask {
                Ok(call) => asks(step, Wait::Server(call), Pending::SendTxCheck { req }),
                Err(err) => ends(step, Err(err)),
            },
        Command::GetQuote { req } => post == pre && exists|plan: Result<QuotePlan, Error>|
            quote_planned(pre, req, plan) && match plan {
                Ok(plan) => asks(
                    step,
                    Wait::Wallet(WalletCall::NewAddress { change: true, index: None }),
                    Pending::QuoteChange { req, plan },
                ),
                Err(err) => ends(step, Err(err)),
            },
        Command::AcceptQuote { req } => exists|actions: Result<Vec<Action>, Error>|
            accepts(pre, req, now, post, actions) && match actions {
                Ok(actions) => step matches Step::Ask { first, then, pending } && first@
                    == actions@.drop_last() && actions@.last() == Action::Server(then->Server_0)
                    && then is Server && pending == (Pending::AcceptSign {
                    quote_id: req.quote_id,
                }),
                Err(err) => ends(step, Err(err)),
            },
        Command::NewPeg { req } => post == pre && asks(
            step,
            Wait::Server(
                ServerCall::Peg { recv_addr: req.recv_addr, peg_in: req.peg_in, blocks: req.blocks },
            ),
            Pending::PegOpen,
        ),
        Command::DelPeg { req } => post == pre && (step matches Step::Done { first, resp }
            && first@ == seq![Action::Store(Store::DeletePeg(req.order_id))] && resp == Ok::<
            Resp,
            Error,
        >(Resp::DelPeg(DelPegResp {  }))),
        Command::GetMonitoredTxs { req } => post == pre && (step matches Step::Ask {
            first,
            then: Wait::Wallet(WalletCall::GetTxs { txids }),
            pending: Pending::MonitoredTxs,
        } && first@.len() == 0 && txids@ == pre.monitored_txs.keys()),
        Command::ClientConnected { client_id } => {
            &&& step matches Step::Connected { notifs }
            &&& is_replay(notifs@, pre.last_balances, pre.peg_statuses.values())
            &&& post.clients@ == pre.clients@.insert(client_id, ())
            &&& post == (Data { clients: post.clients, ..pre })
        },
        Command::ClientDisconnected { client_id } => {
            &&& step == Step::Disconnected
            &&& post.clients@ == pre.clients@.remove(client_id)
            &&& post == (Data { clients: post.clients, ..pre })
        },
    }
}

/// What a command that waited for a wallet address makes of the reply.
pub open spec fn resumes_address(
    pre: Data,
    pending: Pending,
    reply: Reply,
    post: Data,
    step: Step,
) -> bool {
    match (pending, reply) {
        (_, Reply::WalletFailed(text)) => post == pre && ends(step, Err(Error::Wallet(text))),
        (Pending::NewAddressFirst { user_note }, Reply::Address { index, .. }) => post == pre && (
        if within_gap(pre.addresses@, index) {
            let next = crate::address::next_index(pre.addresses@, index) as u32;
            asks(
                step,
                Wait::Wallet(WalletCall::NewAddress { change: false, index: Some(next) }),
                Pending::NewAddressNamed { index: next, user_note },
            )
        } else {
            ends(step, Err(Error::GapLimit))
        }),
        (Pending::NewAddressNamed { index, user_note }, Reply::Address { address, .. }) => {
            let row = Address { ind: index, address, user_note };
            &&& post.addresses@ == pre.addresses@.insert(index, row)
            &&& post == (Data { addresses: post.addresses, ..pre })
            &&& step matches Step::Done { first, resp }
            &&& first@ == seq![Action::Store(Store::AddAddress(row))]
            &&& resp == Ok::<Resp, Error>(Resp::NewAddress(NewAddressResp { index, address }))
        },
        (Pending::QuoteChange { req, plan }, Reply::Address { address, .. }) => post == pre
            && exists|start: Result<ServerCall, Error>|
            started(pre, plan, req.receive_address, address, start) && match start {
                Ok(call) => asks(step, Wait::Server(call), Pending::QuoteStart { req, plan }),
                Err(err) => ends(step, Err(err)),
            },
        _ => true,
    }
}

/// What a command that waited for the wallet's draft or report makes of the
/// reply.
pub open spec fn resumes_wallet(
    pre: Data,
    pending: Pending,
    reply: Reply,
    post: Data,
    step: Step,
) -> bool {
    match (pending, reply) {
        (_, Reply::WalletFailed(text)) => post == pre && ends(step, Err(Error::Wallet(text))),
        (Pending::CreateTx { note }, Reply::Tx(raw)) => {
            &&& post == (Data { created_txs: post.created_txs, ..pre })
            &&& !Transaction::readable(raw@) ==> post == pre && (step matches Step::Done {
                first,
                resp: Err(Error::Codec(text)),
            } && first@.len() == 0 && text@ == "invalid transaction"@)
            &&& Transaction::readable(raw@) ==> {
                let txid = raw_txid(raw@)->0;
                let fee = fee_total(raw_outputs(raw@)->0, pre.policy_asset);
                &&& fee > u64::MAX ==> post == pre && (step matches Step::Done {
                    first,
                    resp: Err(Error::Codec(text)),
                } && first@.len() == 0 && text@ == "network fee out of range"@)
                &&& fee <= u64::MAX ==> {
                    &&& ends(
                        step,
                        Ok(
                            Resp::CreateTx(
                                crate::api::CreateTxResp { txid, network_fee: fee as u64 },
                            ),
                        ),
                    )
                    &&& post.created_txs@.contains_key(txid)
                    &&& post.created_txs@[txid].tx.reads(raw@)
                    &&& post.created_txs@[txid].note == note
                    &&& post.created_txs@.remove(txid) == pre.created_txs@.remove(txid)
                }
            }
        },
        (Pending::MonitoredTxs, Reply::Txs(txs)) => {
            &&& post == pre
            &&& step matches Step::Done { first, resp: Ok(Resp::GetMonitoredTxs(resp)) }
            &&& first@.len() == 0
            &&& resp.txs@.len() == pre.monitored_txs.keys().len()
            &&& forall|i: int|
                0 <= i < resp.txs@.len() ==> told_of(
                    pre.monitored_txs.values()[i],
                    txs@,
                    #[trigger] resp.txs@[i],
                )
        },
        _ => true,
    }
}

/// What a command that sends a transaction makes of the reply.
pub open spec fn resumes_send(
    pre: Data,
    pending: Pending,
    reply: Reply,
    post: Data,
    step: Step,
) -> bool {
    match (pending, reply) {
        (Pending::SendTxCheck { req }, _) => {
            let checked: Result<(), String> = match reply {
                Reply::ServerFailed { text, .. } => Err(text),
                _ => Ok(()),
            };
            &&& post == (Data { monitored_txs: post.monitored_txs, ..pre })
            &&& !pre.created_txs@.contains_key(req.txid) ==> post == pre && ends(
                step,
                Err(Error::NoCreatedTx),
            )
            &&& pre.created_txs@.contains_key(req.txid) ==> match checked {
                Err(text) => post == pre && ends(step, Err(Error::UtxoCheckFailed(text))),
                Ok(_) => {
                    let row = MonitoredTx {
                        txid: req.txid,
                        description: Some(pre.created_txs@[req.txid].note),
                        user_note: req.user_note,
                    };
                    &&& post.monitored_txs@ == pre.monitored_txs@.insert(req.txid, row)
                    &&& step matches Step::Ask {
                        first,
                        then: Wait::Broadcast { tx },
                        pending: Pending::SendTxBroadcast,
                    }
                    &&& first@ == seq![Action::Store(Store::AddMonitoredTx(row))]
                    &&& tx@ == pre.created_txs@[req.txid].tx.raw@
                },
            }
        },
        (Pending::SendTxBroadcast, Reply::Broadcast { wallet, server }) => {
            &&& post.created_txs@ == Map::<Txid, crate::worker::CreatedTx>::empty()
            &&& post == (Data { created_txs: post.created_txs, ..pre })
            &&& ends(
                step,
                Ok(
                    Resp::SendTx(
                        SendTxResp {
                            res_wallet: broadcast_status(wallet),
                            res_server: broadcast_status(server),
                        },
                    ),
                ),
            )
        },
        _ => true,
    }
}

/// What a command that swaps makes of the reply, once the stream of quotes
/// was asked for.
pub open spec fn resumes_quote(
    pre: Data,
    pending: Pending,
    reply: Reply,
    now: u64,
    post: Data,
    step: Step,
) -> bool {
    match (pending, reply) {
        (Pending::QuoteStart { .. }, Reply::ServerFailed { error, .. })
        | (Pending::QuotePset { .. }, Reply::ServerFailed { error, .. }) => post == pre && ends(
            step,
            Err(Error::WsError(error)),
        ),
        (
            Pending::QuoteStart { req, plan },
            Reply::Server(ServerReply::StartQuotes { quote_sub_id }),
        ) => post == pre && asks(
            step,
            Wait::Event { deadline: (now + QUOTE_WAIT_MS) as u64 },
            Pending::QuoteWait {
                req,
                plan,
                quote_sub_id,
                deadline: (now + QUOTE_WAIT_MS) as u64,
            },
        ),
        (Pending::QuoteWait { req, plan, quote_sub_id, deadline }, _) => exists|
            actions: Vec<Action>,
        |
            {
                &&& match reply {
                    Reply::Event(event) => ws_step(pre, event, post, actions@),
                    _ => post == pre && actions@.len() == 0,
                }
                &&& match wait_end(reply, quote_sub_id) {
                    None => step == (Step::Ask {
                        first: actions,
                        then: Wait::Event { deadline },
                        pending,
                    }),
                    Some(outcome) => match settles(plan, outcome) {
                        Ok(settled) => step == (Step::Ask {
                            first: actions,
                            then: Wait::Server(ServerCall::GetQuote { quote_id: settled.quote_id }),
                            pending: Pending::QuotePset {
                                req,
                                settled,
                                recv_precision: plan.recv_asset.precision,
                            },
                        }),
                        Err(err) => step == (Step::Done { first: actions, resp: Err(err) }),
                    },
                }
            },
        (
            Pending::QuotePset { req, settled, recv_precision },
            Reply::Server(ServerReply::GetQuote { pset }),
        ) => post == pre && (if pset_txid(pset@) is None {
            step matches Step::Done { first, resp: Err(Error::Codec(text)) } && first@.len() == 0
                && text@ == "invalid PSET"@
        } else if pre.utxo_data is None {
            ends(step, Err(Error::NoUtxos))
        } else {
            asks(
                step,
                Wait::Sign { pset, recv_amount: settled.recv_amount, recv_precision },
                Pending::QuoteSign {
                    req,
                    settled,
                    txid: pset_txid(pset@)->0,
                    expires_at: (now + settled.ttl) as u64,
                },
            )
        }),
        (
            Pending::QuoteSign { req, settled, txid, expires_at },
            Reply::Signed { pset, recv_amount },
        ) => {
            &&& ends(
                step,
                Ok(
                    Resp::GetQuote(
                        GetQuoteResp {
                            quote_id: settled.quote_id,
                            recv_amount: settled.recv_amount,
                            ttl: settled.ttl,
                            txid,
                        },
                    ),
                ),
            )
            &&& post.quotes@.contains_key(settled.quote_id)
            &&& post.quotes@[settled.quote_id].txid == txid
            &&& post.quotes@[settled.quote_id].pset == pset
            &&& post.quotes@[settled.quote_id].expires_at == expires_at
            &&& post.quotes@[settled.quote_id].note@ == swap_note(req, recv_amount@)
            &&& post.quotes@.remove(settled.quote_id) == pre.quotes@.remove(settled.quote_id)
            &&& post == (Data { quotes: post.quotes, ..pre })
        },
        _ => true,
    }
}

/// What a command about a quote taken or a peg makes of the server's reply.
pub open spec fn resumes_server(
    pre: Data,
    pending: Pending,
    reply: Reply,
    post: Data,
    step: Step,
) -> bool {
    match (pending, reply) {
        (_, Reply::ServerFailed { error, .. }) => post == pre && ends(
            step,
            Err(Error::WsError(error)),
        ),
        (Pending::AcceptSign { .. }, Reply::Server(ServerReply::TakerSign { txid })) => post == pre
            && ends(step, Ok(Resp::AcceptQuote(AcceptQuoteResp { txid }))),
        (Pending::PegOpen, Reply::Server(ServerReply::Peg { order_id, peg_addr })) => post == pre
            && asks(
            step,
            Wait::Server(ServerCall::PegStatus { order_id }),
            Pending::PegFirstStatus { order_id, peg_addr },
        ),
        (
            Pending::PegFirstStatus { order_id, peg_addr },
            Reply::Server(ServerReply::PegStatus(status)),
        ) => {
            &&& step matches Step::Done { first, resp }
            &&& resp == Ok::<Resp, Error>(Resp::NewPeg(NewPegResp { order_id, peg_addr }))
            &&& first@.len() > 0
            &&& first@.last() == Action::Store(Store::AddPeg(Peg { order_id }))
            &&& peg_step(pre, status, Data { pegs: pre.pegs, ..post }, first@.drop_last())
            &&& post.pegs@ == pre.pegs@.insert(order_id, ())
        },
        _ => true,
    }
}

/// What `resume` does with the reply to a command that waited: `post` is the
/// state after it, `pre` the state before.
pub open spec fn resumes(
    pre: Data,
    pending: Pending,
    reply: Reply,
    now: u64,
    post: Data,
    step: Step,
) -> bool {
    match pending {
        Pending::NewAddressFirst { .. }
        | Pending::NewAddressNamed { .. }
        | Pending::QuoteChange { .. } => resumes_address(pre, pending, reply, post, step),
        Pending::CreateTx { .. } | Pending::MonitoredTxs => resumes_wallet(
            pre,
            pending,
            reply,
            post,
            step,
        ),
        Pending::SendTxCheck { .. } | Pending::SendTxBroadcast => resumes_send(
            pre,
            pending,
            reply,
            post,
            step,
        ),
        Pending::QuoteStart { .. }
        | Pending::QuoteWait { .. }
        | Pending::QuotePset { .. }
        | Pending::QuoteSign { .. } => resumes_quote(pre, pending, reply, now, post, step),
        Pending::AcceptSign { .. } | Pending::PegOpen | Pending::PegFirstStatus { .. } => resumes_server(
            pre,
            pending,
            reply,
            post,
            step,
        ),
    }
}

fn ask(then: Wait, pending: Pending) -> (r: Step)
    ensures
        asks(r, then, pending),
        r == (Step::Ask { first: r->Ask_first, then, pending }),
{
    Step::Ask { first: Vec::new(), then, pending }
}

fn end(resp: Result<Resp, Error>) -> (r: Step)
    ensures
        ends(r, resp),
{
    Step::Done { first: Vec::new(), resp }
}

impl Data {
    /// Begins a command. A client that is reported gone must be one that was
    /// taken in.
    pub fn process_command(&mut self, command: Command, now: u64) -> (r: Step)
        requires
            command matches Command::ClientDisconnected { client_id }
                ==> old(self).clients@.contains_key(client_id),
        ensures
            begins(*old(self), command, now, *final(self), r),
            old(self).wf() ==> final(self).wf(),
    {
        match command {
            Command::NewAddress { req } => ask(
                Wait::Wallet(WalletCall::NewAddress { change: false, index: None }),
                Pending::NewAddressFirst { user_note: req.user_note },
            ),
            Command::CreateTx { req } => {
                let draft = self.create_tx(&req);
                match draft {
                    Ok(draft) => ask(
                        Wait::Wallet(WalletCall::CreateTx { recipients: draft.recipients }),
                        Pending::CreateTx { note: draft.note },
                    ),
                    Err(err) => end(Err(err)),
                }
            },
            Command::SendTx { req } => {
                let checked = self.send_tx(&req.txid);
                match checked {
                    Ok(call) => ask(Wait::Server(call), Pending::SendTxCheck { req }),
                    Err(err) => end(Err(err)),
                }
            },
            Command::GetQuote { req } => {
                let plan = self.get_quote(&req);
                match plan {
                    Ok(plan) => ask(
                        Wait::Wallet(WalletCall::NewAddress { change: true, index: None }),
                        Pending::QuoteChange { req, plan },
                    ),
                    Err(err) => end(Err(err)),
                }
            },
            Command::AcceptQuote { req } => {
                let quote_id = req.quote_id;
                let accepted = self.accept_quote(req, now);
                match accepted {
                    Ok(mut actions) => {
                        let ghost all = actions@;
                        let last = actions.pop();
                        match last {
                            Some(Action::Server(call)) => {
                                proof {
                                    assert(actions@ =~= all.drop_last());
                                }
                                Step::Ask {
                                    first: actions,
                                    then: Wait::Server(call),
                                    pending: Pending::AcceptSign { quote_id },
                                }
                            },
                            _ => unreached(),
                        }
                    },
                    Err(err) => end(Err(err)),
                }
            },
            Command::NewPeg { req } => ask(Wait::Server(new_peg(req)), Pending::PegOpen),
            Command::DelPeg { req } => {
                let (action, resp) = self.del_peg(req);
                let mut first: Vec<Action> = Vec::new();
                first.push(action);
                Step::Done { first, resp: Ok(Resp::DelPeg(resp)) }
            },
            Command::GetMonitoredTxs { req } => ask(
                Wait::Wallet(self.monitored_txids()),
                Pending::MonitoredTxs,
            ),
            Command::ClientConnected { client_id } => Step::Connected {
                notifs: self.client_connected(client_id),
            },
            Command::ClientDisconnected { client_id } => {
                self.client_disconnected(client_id);
                Step::Disconnected
            },
        }
    }

    /// Goes on with a command that waited, from the reply it waited for.
    pub fn resume(&mut self, pending: Pending, reply: Reply, now: u64) -> (r: Step)
        requires
            expects(pending, reply),
            reckons(*old(self), pending, reply, now),
        ensures
            resumes(*old(self), pending, reply, now, *final(self), r),
            old(self).wf() ==> final(self).wf(),
    {
        match pending {
            Pending::NewAddressFirst { user_note } => match reply {
                Reply::Address { index, .. } => match self.new_address(index) {
                    Ok(WalletCall::NewAddress { index: Some(next), change }) => ask(
                        Wait::Wallet(WalletCall::NewAddress { change, index: Some(next) }),
                        Pending::NewAddressNamed { index: next, user_note },
                    ),
                    Ok(_) => unreached(),
                    Err(err) => end(Err(err)),
                },
                Reply::WalletFailed(text) => end(Err(Error::Wallet(text))),
                _ => unreached(),
            },
            Pending::NewAddressNamed { index, user_note } => match reply {
                Reply::Address { address, .. } => {
                    let (action, resp) = self.new_address_done(index, address, user_note);
                    let mut first: Vec<Action> = Vec::new();
                    first.push(action);
                    Step::Done { first, resp: Ok(Resp::NewAddress(resp)) }
                },
                Reply::WalletFailed(text) => end(Err(Error::Wallet(text))),
                _ => unreached(),
            },
            Pending::CreateTx { note } => match reply {
                Reply::Tx(raw) => match self.create_tx_reply(raw, note) {
                    Ok(resp) => end(Ok(Resp::CreateTx(resp))),
                    Err(err) => end(Err(err)),
                },
                Reply::WalletFailed(text) => end(Err(Error::Wallet(text))),
                _ => unreached(),
            },
            Pending::MonitoredTxs => match reply {
                Reply::Txs(txs) => end(Ok(Resp::GetMonitoredTxs(self.get_monitored_txs(&txs)))),
                Reply::WalletFailed(text) => end(Err(Error::Wallet(text))),
                _ => unreached(),
            },
            Pending::SendTxCheck { req } => {
                let checked = match reply {
                    Reply::ServerFailed { text, .. } => Err(text),
                    _ => Ok(()),
                };
                match self.send_tx_broadcast(req, checked) {
                    Ok(mut actions) => {
                        let ghost all = actions@;
                        let wallet = actions.pop();
                        let server = actions.pop();
                        match server {
                            Some(Action::Server(ServerCall::BroadcastTx { tx })) => {
                                proof {
                                    assert(actions@ =~= seq![all[0]]);
                                }
                                Step::Ask {
                                    first: actions,
                                    then: Wait::Broadcast { tx },
                                    pending: Pending::SendTxBroadcast,
                                }
                            },
                            _ => unreached(),
                        }
                    },
                    Err(err) => end(Err(err)),
                }
            },
            Pending::SendTxBroadcast => match reply {
                Reply::Broadcast { wallet, server } => end(
                    Ok(Resp::SendTx(self.send_tx_done(wallet, server))),
                ),
                _ => unreached(),
            },
            Pending::QuoteChange { req, plan } => match reply {
                Reply::Address { address, .. } => {
                    let start = self.get_quote_start(&plan, req.receive_address.clone(), address);
                    match start {
                        Ok(call) => ask(Wait::Server(call), Pending::QuoteStart { req, plan }),
                        Err(err) => end(Err(err)),
                    }
                },
                Reply::WalletFailed(text) => end(Err(Error::Wallet(text))),
                _ => unreached(),
            },
            Pending::QuoteStart { req, plan } => match reply {
                Reply::Server(ServerReply::StartQuotes { quote_sub_id }) => {
                    let deadline = quote_deadline(now);
                    ask(
                        Wait::Event { deadline },
                        Pending::QuoteWait { req, plan, quote_sub_id, deadline },
                    )
                },
                Reply::ServerFailed { error, .. } => end(Err(Error::WsError(error))),
                _ => unreached(),
            },
            Pending::QuoteWait { req, plan, quote_sub_id, deadline } => {
                let (actions, outcome) = match reply {
                    Reply::Event(event) => self.get_quote_watch(event, quote_sub_id),
                    _ => (Vec::new(), Some(QuoteOutcome::Timeout)),
                };
                match outcome {
                    None => Step::Ask {
                        first: actions,
                        then: Wait::Event { deadline },
                        pending: Pending::QuoteWait { req, plan, quote_sub_id, deadline },
                    },
                    Some(outcome) => match get_quote_settle(&plan, outcome) {
                        Ok(settled) => Step::Ask {
                            first: actions,
                            then: Wait::Server(ServerCall::GetQuote { quote_id: settled.quote_id }),
                            pending: Pending::QuotePset {
                                req,
                                settled,
                                recv_precision: plan.recv_asset.precision,
                            },
                        },
                        Err(err) => Step::Done { first: actions, resp: Err(err) },
                    },
                }
            },
            Pending::QuotePset { req, settled, recv_precision } => match reply {
                Reply::Server(ServerReply::GetQuote { pset }) => match self.get_quote_txid(
                    &pset,
                ) {
                    Ok(txid) => ask(
                        Wait::Sign { pset, recv_amount: settled.recv_amount, recv_precision },
                        Pending::QuoteSign {
                            req,
                            settled,
                            txid,
                            expires_at: quote_expiry(now, settled.ttl),
                        },
                    ),
                    Err(err) => end(Err(err)),
                },
                Reply::ServerFailed { error, .. } => end(Err(Error::WsError(error))),
                _ => unreached(),
            },
            Pending::QuoteSign { req, settled, txid, expires_at } => match reply {
                Reply::Signed { pset, recv_amount } => end(
                    Ok(
                        Resp::GetQuote(
                            self.get_quote_done(&req, settled, txid, pset, expires_at, &recv_amount),
                        ),
                    ),
                ),
                _ => unreached(),
            },
            Pending::AcceptSign { quote_id } => match reply {
                Reply::Server(ServerReply::TakerSign { txid }) => end(
                    Ok(Resp::AcceptQuote(self.accept_quote_done(&quote_id, txid))),
                ),
                Reply::ServerFailed { error, .. } => end(Err(Error::WsError(error))),
                _ => unreached(),
            },
            Pending::PegOpen => match reply {
                Reply::Server(ServerReply::Peg { order_id, peg_addr }) => ask(
                    Wait::Server(peg_status_request(order_id)),
                    Pending::PegFirstStatus { order_id, peg_addr },
                ),
                Reply::ServerFailed { error, .. } => end(Err(Error::WsError(error))),
                _ => unreached(),
            },
            Pending::PegFirstStatus { order_id, peg_addr } => match reply {
                Reply::Server(ServerReply::PegStatus(status)) => {
                    let (first, resp) = self.new_peg_done(order_id, peg_addr, status);
                    Step::Done { first, resp: Ok(Resp::NewPeg(resp)) }
                },
                Reply::ServerFailed { error, .. } => end(Err(Error::WsError(error))),
                _ => unreached(),
            },
        }
    }

    /// Whether the numbers that a reply brings can be reckoned with.
    pub fn can_resume(&self, pending: &Pending, reply: &Reply, now: u64) -> (r: bool)
        ensures
            r == (expects(*pending, *reply) && reckons(*self, *pending, *reply, now)),
    {
        if !expected(pending, reply) {
            return false;
        }
        match pending {
            Pending::NewAddressFirst { .. } => match reply {
                Reply::Address { index, .. } => self.has_room(*index),
                _ => true,
            },
            Pending::QuoteStart { .. } => match reply {
                Reply::Server(_) => now.checked_add(QUOTE_WAIT_MS).is_some(),
                _ => true,
            },
            Pending::QuoteWait { quote_sub_id, .. } => match reply {
                Reply::Event(event) => match crate::quote::quote_status(event, *quote_sub_id) {
                    Some(outcome) => fees_in_range(&outcome),
                    None => true,
                },
                _ => true,
            },
            Pending::QuotePset { settled, .. } => match reply {
                Reply::Server(ServerReply::GetQuote { .. }) => now.checked_add(
                    settled.ttl,
                ).is_some(),
                _ => true,
            },
            Pending::AcceptSign { quote_id } => match reply {
                Reply::Server(ServerReply::TakerSign { txid }) => match self.quote_txid(quote_id) {
                    Some(known) => known.same(txid),
                    None => false,
                },
                _ => true,
            },
            _ => true,
        }
    }
}

/// Whether a reply is of a kind that the command waits for.
pub fn expected(pending: &Pending, reply: &Reply) -> (r: bool)
    ensures
        r == expects(*pending, *reply),
{
    match pending {
        Pending::NewAddressFirst { .. }
        | Pending::NewAddressNamed { .. }
        | Pending::QuoteChange { .. } => match reply {
            Reply::Address { .. } | Reply::WalletFailed(_) => true,
            _ => false,
        },
        Pending::CreateTx { .. } => match reply {
            Reply::Tx(_) | Reply::WalletFailed(_) => true,
            _ => false,
        },
        Pending::MonitoredTxs => match reply {
            Reply::Txs(_) | Reply::WalletFailed(_) => true,
            _ => false,
        },
        Pending::SendTxCheck { .. } => match reply {
            Reply::Server(ServerReply::CheckOutpoints) | Reply::ServerFailed { .. } => true,
            _ => false,
        },
        Pending::SendTxBroadcast => match reply {
            Reply::Broadcast { .. } => true,
            _ => false,
        },
        Pending::QuoteStart { .. } => match reply {
            Reply::Server(ServerReply::StartQuotes { .. }) | Reply::ServerFailed { .. } => true,
            _ => false,
        },
        Pending::QuoteWait { .. } => match reply {
            Reply::Event(_) | Reply::Timeout => true,
            _ => false,
        },
        Pending::QuotePset { .. } => match reply {
            Reply::Server(ServerReply::GetQuote { .. }) | Reply::ServerFailed { .. } => true,
            _ => false,
        },
        Pending::QuoteSign { .. } => match reply {
            Reply::Signed { .. } => true,
            _ => false,
        },
        Pending::AcceptSign { .. } => match reply {
            Reply::Server(ServerReply::TakerSign { .. }) | Reply::ServerFailed { .. } => true,
            _ => false,
        },
        Pending::PegOpen => match reply {
            Reply::Server(ServerReply::Peg { .. }) | Reply::ServerFailed { .. } => true,
            _ => false,
        },
        Pending::PegFirstStatus { .. } => match reply {
            Reply::Server(ServerReply::PegStatus(_)) | Reply::ServerFailed { .. } => true,
            _ => false,
        },
    }
}

/// A transaction is monitored before it is broadcast: where the server has
/// confirmed the outputs of a drafted transaction, the monitored row is kept,
/// its storing is the one thing to carry out first, and the broadcast is what
/// is waited for after it.
pub proof fn law_monitored_before_broadcast(
    pre: Data,
    req: SendTxReq,
    reply: Reply,
    post: Data,
    step: Step,
)
    requires
        resumes_send(pre, Pending::SendTxCheck { req }, reply, post, step),
        pre.created_txs@.contains_key(req.txid),
        reply matches Reply::Server(ServerReply::CheckOutpoints),
    ensures
        step matches Step::Ask { first, then, .. } && then is Broadcast && first@.len() == 1 && (
        first@[0] matches Action::Store(Store::AddMonitoredTx(row)) && row.txid == req.txid
            && post.monitored_txs@.contains_key(req.txid) && post.monitored_txs@[req.txid] == row),
{
}

/// Once both sides have taken a broadcast, no drafted transaction is left,
/// whatever either side said.
pub proof fn law_no_draft_left_after_send(
    pre: Data,
    wallet: Result<(), String>,
    server: Result<(), String>,
    post: Data,
    step: Step,
)
    requires
        resumes_send(pre, Pending::SendTxBroadcast, Reply::Broadcast { wallet, server }, post, step),
    ensures
        forall|txid: Txid| !post.created_txs@.contains_key(txid),
        step matches Step::Done { resp: Ok(Resp::SendTx(resp)), .. } && resp.res_wallet
            == broadcast_status(wallet) && resp.res_server == broadcast_status(server),
{
}

/// A client that connects is told the latest balances, where there are any,
/// and then every state of a peg that is kept, and from then on it is among
/// the clients that are told of what happens.
pub proof fn law_client_told_all_on_connect(
    pre: Data,
    client_id: ClientId,
    now: u64,
    post: Data,
    step: Step,
)
    requires
        begins(pre, Command::ClientConnected { client_id }, now, post, step),
    ensures
        step matches Step::Connected { notifs } && notifs@.len() == (if pre.last_balances is Some {
            1int
        } else {
            0int
        }) + pre.peg_statuses.values().len() && (pre.last_balances is Some ==> notifs@[0] is Balances)
            && (forall|i: int|
            (if pre.last_balances is Some {
                1int
            } else {
                0int
            }) <= i < notifs@.len() ==> (#[trigger] notifs@[i]) is PegStatus),
        post.clients@.contains_key(client_id),
{
    let notifs = step->Connected_notifs;
    let lead: int = if pre.last_balances is Some {
        1
    } else {
        0
    };
    assert forall|i: int| lead <= i < notifs@.len() implies (#[trigger] notifs@[i]) is PegStatus by {
        assert(notifs@[i] == Notif::PegStatus(pre.peg_statuses.values()[i - lead]));
    }
}

/// A report of the state of a peg that the worker follows reaches every
/// connected client, in ascending order of the clients, and is the state kept
/// for the peg from then on.
pub proof fn law_peg_status_reaches_every_client(
    pre: Data,
    status: PegStatus,
    post: Data,
    actions: Seq<Action>,
)
    requires
        peg_step(pre, status, post, actions),
        pre.pegs@.contains_key(status.order_id),
        pre.clients.sound(),
    ensures
        actions.len() == 1 && (actions[0] matches Action::Notify { clients, notif } && notif
            == Notif::PegStatus(status) && crate::table::lists_ascending(
            clients@,
            pre.clients@.dom(),
        )),
        post.peg_statuses@.contains_key(status.order_id),
        post.peg_statuses@[status.order_id] == status,
{
    pre.clients.lemma_listing();
}

/// A quote is kept until the reading of the clock at which its transaction
/// arrived plus the time that the quote itself says it stands, and the client
/// is told that same time.
pub proof fn law_quote_stands_for_its_ttl(
    pre: Data,
    req: GetQuoteReq,
    settled: Settled,
    recv_precision: u8,
    pset: Vec<u8>,
    now: u64,
    mid: Data,
    asked: Step,
    signed: Vec<u8>,
    recv_amount: String,
    later: u64,
    post: Data,
    done: Step,
)
    requires
        now + settled.ttl <= u64::MAX,
        resumes_quote(
            pre,
            Pending::QuotePset { req, settled, recv_precision },
            Reply::Server(ServerReply::GetQuote { pset }),
            now,
            mid,
            asked,
        ),
        asked is Ask,
        resumes_quote(
            mid,
            asked->Ask_pending,
            Reply::Signed { pset: signed, recv_amount },
            later,
            post,
            done,
        ),
    ensures
        post.quotes@.contains_key(settled.quote_id),
        post.quotes@[settled.quote_id].expires_at == now + settled.ttl,
        done matches Step::Done { resp: Ok(Resp::GetQuote(resp)), .. } && resp.ttl == settled.ttl,
{
}

} // verus!
