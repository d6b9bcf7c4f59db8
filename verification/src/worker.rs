//! The worker's state and what it does on the events that reach it: clients
//! that come and go, reports of the wallet, and messages of the market server.

use vstd::prelude::*;
use crate::api::{balances_agree, Balance, BalancesNotif, Notif, PegStatus};
use crate::assets::{Listing, TickerLoader};
use crate::gateway::ClientId;
use crate::ids::{AssetId, OrderId, QuoteId, Txid};
use crate::market::{remove_market, without_pair, MarketInfo};
use crate::models::{Address, MonitoredTx, Peg};
use crate::ports::{Action, Notification, Response, ServerCall, WsEvent};
use crate::table::Table;
use crate::tx::Transaction;
use crate::wallet::{holds_asset, total_of, Utxo, UtxoData};

verus! {

/// A quote that a client may accept until its time is over.
#[derive(Clone, PartialEq, Eq, Debug)]
pub struct Quote {
    pub txid: Txid,
    /// The signed, serialized partially signed transaction.
    pub pset: Vec<u8>,
    /// The reading of the clock, in milliseconds, from which the quote no
    /// longer stands.
    pub expires_at: u64,
    pub note: String,
}

impl Quote {
    /// Whether the quote still stands at a reading of the clock.
    pub open spec fn valid_at(self, now: u64) -> bool {
        now < self.expires_at
    }

    /// Whether the quote still stands at a reading of the clock.
    pub fn ttl_valid(&self, now: u64) -> (r: bool)
        ensures
            r == self.valid_at(now),
    {
        now < self.expires_at
    }
}

/// A transaction drafted by the wallet and not sent yet.
#[derive(Clone, PartialEq, Eq, Debug)]
pub struct CreatedTx {
    pub tx: Transaction,
    pub note: String,
}

/// The worker's state.
pub struct Data {
    /// The asset in which network fees are paid.
    pub policy_asset: AssetId,
    pub ticker_loader: TickerLoader,
    pub markets: Vec<MarketInfo>,
    pub clients: Table<ClientId, ()>,
    pub last_balances: Option<BalancesNotif>,
    pub utxo_data: Option<UtxoData>,
    pub pegs: Table<OrderId, ()>,
    pub peg_statuses: Table<OrderId, PegStatus>,
    pub monitored_txs: Table<Txid, MonitoredTx>,
    pub quotes: Table<QuoteId, Quote>,
    pub created_txs: Table<Txid, CreatedTx>,
    pub addresses: Table<u32, Address>,
}

/// The set of pegs that a run of rows names.
pub open spec fn peg_rows(rows: Seq<Peg>) -> Map<OrderId, ()>
    decreases rows.len(),
{
    if rows.len() == 0 {
        Map::empty()
    } else {
        peg_rows(rows.drop_last()).insert(rows.last().order_id, ())
    }
}

/// The monitored transactions that a run of rows gives, a later row taking
/// the place of an earlier one of the same transaction.
pub open spec fn monitored_rows(rows: Seq<MonitoredTx>) -> Map<Txid, MonitoredTx>
    decreases rows.len(),
{
    if rows.len() == 0 {
        Map::empty()
    } else {
        monitored_rows(rows.drop_last()).insert(rows.last().txid, rows.last())
    }
}

/// The addresses that a run of rows gives, a later row taking the place of
/// an earlier one of the same index.
pub open spec fn address_rows(rows: Seq<Address>) -> Map<u32, Address>
    decreases rows.len(),
{
    if rows.len() == 0 {
        Map::empty()
    } else {
        address_rows(rows.drop_last()).insert(rows.last().ind, rows.last())
    }
}

/// The requests for the state of each peg named, in order.
pub open spec fn peg_queries(ids: Seq<OrderId>) -> Seq<Action> {
    Seq::new(ids.len(), |i: int| Action::Server(ServerCall::PegStatus { order_id: ids[i] }))
}

/// The balances of the listed assets of which the wallet holds an output, in
/// the order of the listings.
pub open spec fn balances_of(listings: Seq<Listing>, utxos: Seq<Utxo>) -> Seq<Balance>
    decreases listings.len(),
{
    if listings.len() == 0 {
        Seq::empty()
    } else {
        let rest = balances_of(listings.drop_last(), utxos);
        let last = listings.last();
        if holds_asset(utxos, last.asset_id) {
            rest.push(
                Balance {
                    ticker: last.ticker,
                    units: total_of(utxos, last.asset_id) as u64,
                    precision: last.precision,
                },
            )
        } else {
            rest
        }
    }
}

/// What the wallet holds of each registered asset of which it holds any
/// output.
pub fn convert_balances(ticker_loader: &TickerLoader, utxo_data: &UtxoData) -> (r: Vec<Balance>)
    ensures
        r@ == balances_of(ticker_loader.listings@, utxo_data@),
{
    let n = ticker_loader.listings.len();
    let mut out: Vec<Balance> = Vec::new();
    let mut i: usize = 0;
    proof {
        assert(ticker_loader.listings@.take(0) =~= Seq::<Listing>::empty());
    }
    while i < n
        invariant
            n == ticker_loader.listings@.len(),
            i <= n,
            out@ == balances_of(ticker_loader.listings@.take(i as int), utxo_data@),
        decreases n - i,
    {
        proof {
            assert(ticker_loader.listings@.take(i + 1).drop_last()
                =~= ticker_loader.listings@.take(i as int));
        }
        let listing = &ticker_loader.listings[i];
        if utxo_data.has_asset(&listing.asset_id) {
            out.push(
                Balance {
                    ticker: listing.ticker.clone(),
                    units: utxo_data.total(&listing.asset_id),
                    precision: listing.precision,
                },
            );
        }
        i += 1;
    }
    proof {
        assert(ticker_loader.listings@.take(n as int) =~= ticker_loader.listings@);
    }
    out
}

impl Data {
    /// What every operation keeps: each row stands under its own identifier,
    /// and the parts of each drafted transaction are those that its bytes
    /// serialize.
    pub open spec fn wf(self) -> bool {
        &&& forall|k: OrderId| #[trigger]
            self.peg_statuses@.contains_key(k) ==> self.peg_statuses@[k].order_id == k
        &&& forall|k: Txid| #[trigger]
            self.monitored_txs@.contains_key(k) ==> self.monitored_txs@[k].txid == k
        &&& forall|k: Txid| #[trigger]
            self.created_txs@.contains_key(k) ==> self.created_txs@[k].tx.txid == k
                && self.created_txs@[k].tx.reads(self.created_txs@[k].tx.raw@)
        &&& forall|k: u32| #[trigger]
            self.addresses@.contains_key(k) ==> self.addresses@[k].ind == k
    }

    /// The state at the start: the rows of the store loaded, nothing else
    /// known yet.
    pub fn new(
        policy_asset: AssetId,
        ticker_loader: TickerLoader,
        pegs: Vec<Peg>,
        monitored_txs: Vec<MonitoredTx>,
        addresses: Vec<Address>,
    ) -> (r: Self)
        ensures
            r.policy_asset == policy_asset,
            r.ticker_loader == ticker_loader,
            r.markets@.len() == 0,
            r.clients@ == Map::<ClientId, ()>::empty(),
            r.last_balances is None,
            r.utxo_data is None,
            r.pegs@ == peg_rows(pegs@),
            r.peg_statuses@ == Map::<OrderId, PegStatus>::empty(),
            r.monitored_txs@ == monitored_rows(monitored_txs@),
            r.quotes@ == Map::<QuoteId, Quote>::empty(),
            r.created_txs@ == Map::<Txid, CreatedTx>::empty(),
            r.addresses@ == address_rows(addresses@),
            r.wf(),
    {
        let mut peg_table: Table<OrderId, ()> = Table::new();
        let mut i: usize = 0;
        proof {
            assert(pegs@.take(0) =~= Seq::<Peg>::empty());
        }
        while i < pegs.len()
            invariant
                i <= pegs@.len(),
                peg_table@ == peg_rows(pegs@.take(i as int)),
            decreases pegs@.len() - i,
        {
            proof {
                assert(pegs@.take(i + 1).drop_last() =~= pegs@.take(i as int));
            }
            peg_table.insert(pegs[i].order_id, ());
            i += 1;
        }
        proof {
            assert(pegs@.take(pegs@.len() as int) =~= pegs@);
        }
        let mut monitored_table: Table<Txid, MonitoredTx> = Table::new();
        let mut i: usize = 0;
        proof {
            assert(monitored_txs@.take(0) =~= Seq::<MonitoredTx>::empty());
        }
        while i < monitored_txs.len()
            invariant
                i <= monitored_txs@.len(),
                monitored_table@ == monitored_rows(monitored_txs@.take(i as int)),
                forall|k: Txid| #[trigger]
                    monitored_table@.contains_key(k) ==> monitored_table@[k].txid == k,
            decreases monitored_txs@.len() - i,
        {
            proof {
                assert(monitored_txs@.take(i + 1).drop_last() =~= monitored_txs@.take(i as int));
            }
            let row = monitored_txs[i].copy();
            monitored_table.insert(row.txid, row);
            i += 1;
        }
        proof {
            assert(monitored_txs@.take(monitored_txs@.len() as int) =~= monitored_txs@);
        }
        let mut address_table: Table<u32, Address> = Table::new();
        let mut i: usize = 0;
        proof {
            assert(addresses@.take(0) =~= Seq::<Address>::empty());
        }
        while i < addresses.len()
            invariant
                i <= addresses@.len(),
                address_table@ == address_rows(addresses@.take(i as int)),
                forall|k: u32| #[trigger]
                    address_table@.contains_key(k) ==> address_table@[k].ind == k,
            decreases addresses@.len() - i,
        {
            proof {
                assert(addresses@.take(i + 1).drop_last() =~= addresses@.take(i as int));
            }
            let row = addresses[i].copy();
            address_table.insert(row.ind, row);
            i += 1;
        }
        proof {
            assert(addresses@.take(addresses@.len() as int) =~= addresses@);
        }
        Data {
            policy_asset,
            ticker_loader,
            markets: Vec::new(),
            clients: Table::new(),
            last_balances: None,
            utxo_data: None,
            pegs: peg_table,
            peg_statuses: Table::new(),
            monitored_txs: monitored_table,
            quotes: Table::new(),
            created_txs: Table::new(),
            addresses: address_table,
        }
    }

    /// The action that tells every connected client, in ascending order of
    /// the clients' identifiers.
    pub fn send_notifs(&self, notif: Notif) -> (r: Action)
        ensures
            r matches Action::Notify { clients, notif: told } && clients@ == self.clients.keys()
                && told == notif,
            self.clients.sound(),
    {
        Action::Notify { clients: self.clients.key_list(), notif }
    }

    /// Takes in a report of the state of a peg: tells the clients of it where
    /// the peg is one that the worker follows, and keeps it as the latest.
    pub fn process_peg_status(&mut self, status: PegStatus) -> (r: Vec<Action>)
        ensures
            peg_step(*old(self), status, *final(self), r@),
            old(self).wf() ==> final(self).wf(),
    {
        let mut actions: Vec<Action> = Vec::new();
        if self.pegs.contains_key(&status.order_id) {
            actions.push(self.send_notifs(Notif::PegStatus(status.copy())));
        }
        self.peg_statuses.insert(status.order_id, status);
        actions
    }
}

/// Whether `notifs` is what a client is told on connecting: the latest
/// balances, where there are any, and then each state of a peg.
pub open spec fn is_replay(
    notifs: Seq<Notif>,
    last_balances: Option<BalancesNotif>,
    statuses: Seq<PegStatus>,
) -> bool {
    let lead: int = if last_balances is Some {
        1
    } else {
        0
    };
    &&& notifs.len() == lead + statuses.len()
    &&& last_balances is Some ==> (notifs[0] matches Notif::Balances(told) && told.balances@
        == last_balances->0.balances@)
    &&& forall|k: int|
        lead <= k < notifs.len() ==> #[trigger] notifs[k] == Notif::PegStatus(statuses[k - lead])
}

/// The quotes of a table that still stand at a reading of the clock.
pub open spec fn standing(quotes: Map<QuoteId, Quote>, now: u64) -> Map<QuoteId, Quote> {
    Map::new(|k: QuoteId| quotes.contains_key(k) && quotes[k].valid_at(now), |k: QuoteId| quotes[k])
}

/// What an event of the connection to the server does: `post` is the state
/// after it and `actions` what is to be done, `pre` being the state before.
pub open spec fn ws_step(pre: Data, event: WsEvent, post: Data, actions: Seq<Action>) -> bool {
    match event {
        WsEvent::Connected => post == pre && actions == seq![
            Action::Server(ServerCall::ListMarkets),
        ] + peg_queries(pre.pegs.keys()),
        WsEvent::Disconnected => post == pre && actions.len() == 0,
        WsEvent::Response(Response::ListMarkets(markets)) => post == (Data { markets, ..pre })
            && actions.len() == 0,
        WsEvent::Response(Response::PegStatus(status))
        | WsEvent::Notification(Notification::PegStatus(status)) => peg_step(
            pre,
            status,
            post,
            actions,
        ),
        WsEvent::Response(Response::Other) => post == pre && actions.len() == 0,
        WsEvent::Notification(Notification::MarketAdded(market)) => post.markets@
            == pre.markets@.push(market) && post == (Data { markets: post.markets, ..pre })
            && actions.len() == 0,
        WsEvent::Notification(Notification::MarketRemoved(pair)) => post.markets@ == without_pair(
            pre.markets@,
            pair,
        ) && post == (Data { markets: post.markets, ..pre }) && actions.len() == 0,
        WsEvent::Notification(Notification::Quote(_))
        | WsEvent::Notification(Notification::Other) => post == pre && actions.len() == 0,
    }
}

/// What a report of the state of a peg does: it is kept as the latest, and
/// every connected client is told of it where the peg is one that the worker
/// follows.
pub open spec fn peg_step(pre: Data, status: PegStatus, post: Data, actions: Seq<Action>) -> bool {
    &&& post.peg_statuses@ == pre.peg_statuses@.insert(status.order_id, status)
    &&& post == (Data { peg_statuses: post.peg_statuses, ..pre })
    &&& pre.pegs@.contains_key(status.order_id) ==> actions.len() == 1 && (
    actions[0] matches Action::Notify { clients, notif } && clients@ == pre.clients.keys() && notif
        == Notif::PegStatus(status))
    &&& !pre.pegs@.contains_key(status.order_id) ==> actions.len() == 0
}

impl Data {
    /// Takes in a client: what it is told first, in order, and its place
    /// among the clients.
    pub fn client_connected(&mut self, client_id: ClientId) -> (r: Vec<Notif>)
        ensures
            is_replay(r@, old(self).last_balances, old(self).peg_statuses.values()),
            final(self).clients@ == old(self).clients@.insert(client_id, ()),
            *final(self) == (Data { clients: final(self).clients, ..*old(self) }),
            old(self).peg_statuses.sound(),
            old(self).wf() ==> final(self).wf(),
    {
        let mut notifs: Vec<Notif> = Vec::new();
        if let Some(balances) = &self.last_balances {
            notifs.push(Notif::Balances(balances.copy()));
        }
        let ghost lead = notifs@.len() as int;
        let n = self.peg_statuses.len();
        let mut i: usize = 0;
        while i < n
            invariant
                n == self.peg_statuses.keys().len(),
                self.peg_statuses.sound(),
                i <= n,
                *self == *old(self),
                lead == (if self.last_balances is Some { 1int } else { 0int }),
                notifs@.len() == lead + i,
                self.last_balances is Some ==> (notifs@[0] matches Notif::Balances(told)
                    && told.balances@ == self.last_balances->0.balances@),
                forall|k: int|
                    lead <= k < notifs@.len() ==> #[trigger] notifs@[k] == Notif::PegStatus(
                        self.peg_statuses.values()[k - lead],
                    ),
            decreases n - i,
        {
            notifs.push(Notif::PegStatus(self.peg_statuses.value_at(i).copy()));
            i += 1;
        }
        self.clients.insert(client_id, ());
        notifs
    }

    /// Lets a client go.
    pub fn client_disconnected(&mut self, client_id: ClientId)
        requires
            old(self).clients@.contains_key(client_id),
        ensures
            final(self).clients@ == old(self).clients@.remove(client_id),
            *final(self) == (Data { clients: final(self).clients, ..*old(self) }),
            old(self).wf() ==> final(self).wf(),
    {
        self.clients.remove(&client_id);
    }

    /// What to ask the server once the connection stands: the markets, and
    /// the state of each peg followed, in ascending order of the pegs.
    pub fn process_ws_connected(&self) -> (r: Vec<Action>)
        ensures
            r@ == seq![Action::Server(ServerCall::ListMarkets)] + peg_queries(self.pegs.keys()),
            self.pegs.sound(),
    {
        let mut actions: Vec<Action> = Vec::new();
        actions.push(Action::Server(ServerCall::ListMarkets));
        let n = self.pegs.len();
        let mut i: usize = 0;
        while i < n
            invariant
                n == self.pegs.keys().len(),
                self.pegs.sound(),
                i <= n,
                actions@ == seq![Action::Server(ServerCall::ListMarkets)] + peg_queries(
                    self.pegs.keys().take(i as int),
                ),
            decreases n - i,
        {
            let order_id = self.pegs.key_at(i);
            actions.push(Action::Server(ServerCall::PegStatus { order_id }));
            proof {
                let head = seq![Action::Server(ServerCall::ListMarkets)];
                assert(self.pegs.keys().take(i + 1) =~= self.pegs.keys().take(i as int).push(
                    order_id,
                ));
                assert(head + peg_queries(self.pegs.keys().take(i + 1)) =~= (head + peg_queries(
                    self.pegs.keys().take(i as int),
                )).push(Action::Server(ServerCall::PegStatus { order_id })));
            }
            i += 1;
        }
        proof {
            assert(self.pegs.keys().take(n as int) =~= self.pegs.keys());
        }
        actions
    }

    /// Takes in an answer of the server: a list of markets takes the place of
    /// the markets known; no other answer changes anything here.
    pub fn process_market_resp(&mut self, markets: Vec<MarketInfo>)
        ensures
            final(self).markets == markets,
            *final(self) == (Data { markets: final(self).markets, ..*old(self) }),
            old(self).wf() ==> final(self).wf(),
    {
        self.markets = markets;
    }

    /// Takes in what the server sends unasked about markets.
    pub fn process_market_notif(&mut self, notif: Notification)
        ensures
            final(self).markets@ == match notif {
                Notification::MarketAdded(market) => old(self).markets@.push(market),
                Notification::MarketRemoved(pair) => without_pair(old(self).markets@, pair),
                _ => old(self).markets@,
            },
            !(notif is MarketAdded || notif is MarketRemoved) ==> *final(self) == *old(self),
            *final(self) == (Data { markets: final(self).markets, ..*old(self) }),
            old(self).wf() ==> final(self).wf(),
    {
        match notif {
            Notification::MarketAdded(market) => {
                self.markets.push(market);
            },
            Notification::MarketRemoved(pair) => {
                remove_market(&mut self.markets, &pair);
            },
            _ => {},
        }
    }

    /// Drops the quotes whose time is over at a reading of the clock.
    pub fn expire_quotes(&mut self, now: u64)
        ensures
            final(self).quotes@ == standing(old(self).quotes@, now),
            *final(self) == (Data { quotes: final(self).quotes, ..*old(self) }),
            old(self).wf() ==> final(self).wf(),
    {
        let mut i: usize = 0;
        let mut left = self.quotes.len();
        while i < left
            invariant
                *self == (Data { quotes: self.quotes, ..*old(self) }),
                self.quotes.sound(),
                left == self.quotes.keys().len(),
                i <= left,
                forall|j: int| 0 <= j < i ==> (#[trigger] self.quotes.values()[j]).valid_at(now),
                forall|k: QuoteId| #[trigger]
                    self.quotes@.contains_key(k) ==> old(self).quotes@.contains_key(k)
                        && self.quotes@[k] == old(self).quotes@[k],
                forall|k: QuoteId|
                    old(self).quotes@.contains_key(k) && old(self).quotes@[k].valid_at(now)
                        ==> #[trigger] self.quotes@.contains_key(k),
            decreases left - i,
        {
            if self.quotes.value_at(i).ttl_valid(now) {
                i += 1;
            } else {
                proof {
                    self.quotes.lemma_entry(i as int);
                }
                self.quotes.remove_at(i);
                left -= 1;
            }
        }
        proof {
            assert forall|k: QuoteId| #[trigger] self.quotes@.contains_key(k) implies self.quotes@[k].valid_at(
                now,
            ) by {
                let j = self.quotes.keys().index_of(k);
                self.quotes.lemma_entry(j);
            }
            assert(self.quotes@ =~= standing(old(self).quotes@, now));
        }
    }

    /// Takes in a report of the wallet: keeps it, and where the balances are
    /// not those last told, tells the clients and keeps them as the latest.
    pub fn process_wallet_event(&mut self, utxo_data: UtxoData) -> (r: Vec<Action>)
        ensures
            final(self).utxo_data == Some(utxo_data),
            *final(self) == (Data {
                utxo_data: final(self).utxo_data,
                last_balances: final(self).last_balances,
                ..*old(self)
            }),
            ({
                let fresh = balances_of(old(self).ticker_loader.listings@, utxo_data@);
                let told = old(self).last_balances is Some && balances_agree(
                    old(self).last_balances->0.balances@,
                    fresh,
                );
                &&& told ==> r@.len() == 0 && final(self).last_balances == old(self).last_balances
                &&& !told ==> r@.len() == 1 && (r@[0] matches Action::Notify { clients, notif }
                    && clients@ == old(self).clients.keys() && (notif matches Notif::Balances(b)
                    && b.balances@ == fresh)) && (final(self).last_balances matches Some(b)
                    && b.balances@ == fresh)
            }),
            old(self).wf() ==> final(self).wf(),
    {
        let new_balances = BalancesNotif {
            balances: convert_balances(&self.ticker_loader, &utxo_data),
        };
        self.utxo_data = Some(utxo_data);
        let told = match &self.last_balances {
            Some(last) => last.same(&new_balances),
            None => false,
        };
        let mut actions: Vec<Action> = Vec::new();
        if !told {
            actions.push(self.send_notifs(Notif::Balances(new_balances.copy())));
            self.last_balances = Some(new_balances);
        }
        actions
    }

    /// Takes in what arrives from the connection to the server, and says what
    /// to do about it.
    pub fn process_ws_event(&mut self, event: WsEvent) -> (r: Vec<Action>)
        ensures
            ws_step(*old(self), event, *final(self), r@),
            old(self).wf() ==> final(self).wf(),
    {
        match event {
            WsEvent::Connected => self.process_ws_connected(),
            WsEvent::Disconnected => Vec::new(),
            WsEvent::Response(Response::ListMarkets(markets)) => {
                self.process_market_resp(markets);
                Vec::new()
            },
            WsEvent::Response(Response::PegStatus(status)) => self.process_peg_status(status),
            WsEvent::Response(Response::Other) => Vec::new(),
            WsEvent::Notification(Notification::PegStatus(status)) => self.process_peg_status(
                status,
            ),
            WsEvent::Notification(notif) => {
                self.process_market_notif(notif);
                Vec::new()
            },
        }
    }
}

} // verus!
