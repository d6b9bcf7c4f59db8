use sideswap_manager::api::{
    AcceptQuoteReq, AcceptQuoteResp, Amount, CreateTxReq, DelPegReq, DelPegResp,
    GetMonitoredTxsReq, GetQuoteReq, GetQuoteResp, NewAddressReq, NewAddressResp, NewPegReq,
    NewPegResp, Notif, PegStatus, Recipient, Resp, SendTxReq, SendTxResp, BroadcastStatus,
    GetMonitoredTxsResp, SwapStatus,
};
use sideswap_manager::assets::TickerLoader;
use sideswap_manager::command::{expected, Command, Pending, Reply, ServerReply, Step, Wait};
use sideswap_manager::error::{Error, WsError};
use sideswap_manager::gateway::ClientId;
use sideswap_manager::ids::{AssetId, Hash32, OrderId, OutPoint, QuoteId, Txid};
use sideswap_manager::market::{AssetPair, AssetType, MarketInfo, TradeDir};
use sideswap_manager::models::{Address, MonitoredTx, Peg};
use sideswap_manager::ports::{
    Action, Notification, Payment, QuoteNotif, QuoteStatus, ServerCall, StartQuotes, Store,
    WalletCall, WalletTx, WsEvent,
};
use sideswap_manager::wallet::{Utxo, UtxoData};
use sideswap_manager::worker::Data;

fn asset(n: u128) -> AssetId {
    AssetId(Hash32 { hi: 0, lo: n })
}

fn order(n: u128) -> OrderId {
    OrderId(Hash32 { hi: 0, lo: n })
}

fn txid(n: u128) -> Txid {
    Txid(Hash32 { hi: 0, lo: n })
}

fn data() -> Data {
    let mut loader = TickerLoader::new();
    loader.register("L-BTC".to_owned(), asset(1), 8);
    loader.register("USDt".to_owned(), asset(2), 8);
    let monitored = vec![MonitoredTx { txid: txid(4), description: None, user_note: None }];
    let mut data = Data::new(asset(1), loader, vec![Peg { order_id: order(3) }], monitored, vec![]);
    data.process_market_resp(vec![MarketInfo {
        asset_pair: AssetPair { base: asset(1), quote: asset(2) },
        fee_asset: AssetType::Base,
    }]);
    data
}

fn status(n: u128, detail: &str) -> PegStatus {
    PegStatus { order_id: order(n), detail: detail.to_owned() }
}

fn ask(then: Wait, pending: Pending) -> Step {
    Step::Ask { first: vec![], then, pending }
}

fn done(resp: Result<Resp, Error>) -> Step {
    Step::Done { first: vec![], resp }
}

fn failed() -> Reply {
    Reply::ServerFailed { error: WsError::Timeout, text: "timeout".to_owned() }
}

fn sample_tx(fee: u64) -> elements::Transaction {
    let mut input = elements::TxIn::default();
    input.previous_output =
        elements::OutPoint::new(elements::hashes::Hash::from_byte_array([0x11; 32]), 1);
    let mut policy = [0u8; 32];
    policy[31] = 1;
    elements::Transaction {
        version: 2,
        lock_time: elements::LockTime::ZERO,
        input: vec![input],
        output: vec![elements::TxOut::new_fee(fee, elements::AssetId::from_byte_array(policy))],
    }
}

fn id_of(tx: &elements::Transaction) -> Txid {
    Txid(Hash32::from_bytes(&elements::hashes::Hash::to_byte_array(tx.txid())))
}

#[test]
fn new_address_runs_from_the_first_unused_index_to_the_stored_address() {
    let mut data = data();
    let command = Command::NewAddress { req: NewAddressReq { user_note: Some("n".to_owned()) } };
    let first = Pending::NewAddressFirst { user_note: Some("n".to_owned()) };
    assert_eq!(
        data.process_command(command, 0),
        ask(Wait::Wallet(WalletCall::NewAddress { change: false, index: None }), first.clone())
    );
    let reply = Reply::Address { index: 10, address: "unused".to_owned() };
    assert!(data.can_resume(&first, &reply, 0));
    let named = Pending::NewAddressNamed { index: 10, user_note: Some("n".to_owned()) };
    assert_eq!(
        data.resume(first, reply, 0),
        ask(Wait::Wallet(WalletCall::NewAddress { change: false, index: Some(10) }), named.clone())
    );
    let row = Address { ind: 10, address: "lq1".to_owned(), user_note: Some("n".to_owned()) };
    assert_eq!(
        data.resume(named, Reply::Address { index: 10, address: "lq1".to_owned() }, 0),
        Step::Done {
            first: vec![Action::Store(Store::AddAddress(row.clone()))],
            resp: Ok(Resp::NewAddress(NewAddressResp { index: 10, address: "lq1".to_owned() })),
        }
    );
    assert_eq!(data.addresses.get(&10), Some(&row));
}

#[test]
fn new_address_ends_at_the_gap_limit_or_a_wallet_failure() {
    let mut data = data();
    data.new_address_done(30, "a".to_owned(), None);
    let first = Pending::NewAddressFirst { user_note: None };
    assert_eq!(
        data.resume(first.clone(), Reply::Address { index: 10, address: String::new() }, 0),
        done(Err(Error::GapLimit))
    );
    assert_eq!(
        data.resume(first, Reply::WalletFailed("locked".to_owned()), 0),
        done(Err(Error::Wallet("locked".to_owned())))
    );
    assert_eq!(data.addresses.len(), 1);
}

#[test]
fn create_tx_runs_from_the_draft_to_the_kept_transaction() {
    let mut data = data();
    let recipient = |ticker: &str| Recipient {
        address: "a".to_owned(),
        asset: ticker.to_owned(),
        amount: Amount { units: 5, exact: true, precision: 8, text: "0.00000005".to_owned() },
    };
    let command = Command::CreateTx { req: CreateTxReq { recipients: vec![recipient("X")] } };
    assert_eq!(data.process_command(command, 0), done(Err(Error::UnknownTicker("X".to_owned()))));
    let command = Command::CreateTx { req: CreateTxReq { recipients: vec![recipient("L-BTC")] } };
    let pending = Pending::CreateTx { note: "send 0.00000005 L-BTC to a".to_owned() };
    assert_eq!(
        data.process_command(command, 0),
        ask(
            Wait::Wallet(WalletCall::CreateTx {
                recipients: vec![Payment { address: "a".to_owned(), asset_id: asset(1), amount: 5 }],
            }),
            pending.clone(),
        )
    );
    assert_eq!(
        data.resume(pending.clone(), Reply::Tx(vec![1, 2]), 0),
        done(Err(Error::Codec("invalid transaction".to_owned())))
    );
    let tx = sample_tx(33);
    assert_eq!(
        data.resume(pending, Reply::Tx(elements::encode::serialize(&tx)), 0),
        done(Ok(Resp::CreateTx(sideswap_manager::api::CreateTxResp {
            txid: id_of(&tx),
            network_fee: 33,
        })))
    );
    assert_eq!(data.created_txs.get(&id_of(&tx)).unwrap().note, "send 0.00000005 L-BTC to a");
}

#[test]
fn send_tx_stores_the_row_before_the_broadcast_and_forgets_the_drafts() {
    let mut data = data();
    let tx = sample_tx(33);
    let raw = elements::encode::serialize(&tx);
    data.create_tx_reply(raw.clone(), "note".to_owned()).unwrap();
    let spent = OutPoint { txid: Txid(Hash32::from_bytes(&[0x11; 32])), vout: 1 };
    data.process_wallet_event(
        UtxoData::new(vec![Utxo { outpoint: spent, asset: asset(1), value: 50 }]).unwrap(),
    );
    let req = SendTxReq { txid: id_of(&tx), user_note: Some("u".to_owned()) };
    let check = Pending::SendTxCheck { req: req.clone() };
    assert_eq!(
        data.process_command(Command::SendTx { req: req.clone() }, 0),
        ask(Wait::Server(ServerCall::CheckOutpoints { outpoints: vec![spent] }), check.clone())
    );
    let row = MonitoredTx {
        txid: id_of(&tx),
        description: Some("note".to_owned()),
        user_note: Some("u".to_owned()),
    };
    assert_eq!(
        data.resume(check, Reply::Server(ServerReply::CheckOutpoints), 0),
        Step::Ask {
            first: vec![Action::Store(Store::AddMonitoredTx(row.clone()))],
            then: Wait::Broadcast { tx: raw },
            pending: Pending::SendTxBroadcast,
        }
    );
    assert_eq!(data.monitored_txs.get(&id_of(&tx)), Some(&row));
    let reply = Reply::Broadcast { wallet: Ok(()), server: Err("x".to_owned()) };
    assert_eq!(
        data.resume(Pending::SendTxBroadcast, reply, 0),
        done(Ok(Resp::SendTx(SendTxResp {
            res_wallet: BroadcastStatus::Success,
            res_server: BroadcastStatus::Error { error_msg: "x".to_owned() },
        })))
    );
    assert!(data.created_txs.is_empty());
}

#[test]
fn send_tx_ends_on_an_unknown_draft_or_a_failed_check() {
    let mut data = data();
    let req = SendTxReq { txid: txid(1), user_note: None };
    assert_eq!(
        data.process_command(Command::SendTx { req: req.clone() }, 0),
        done(Err(Error::NoCreatedTx))
    );
    let tx = sample_tx(33);
    data.create_tx_reply(elements::encode::serialize(&tx), "note".to_owned()).unwrap();
    let check = Pending::SendTxCheck { req: SendTxReq { txid: id_of(&tx), user_note: None } };
    assert_eq!(
        data.resume(check, failed(), 0),
        done(Err(Error::UtxoCheckFailed("timeout".to_owned())))
    );
    assert_eq!(data.monitored_txs.len(), 1);
    assert!(!data.monitored_txs.contains_key(&id_of(&tx)));
}

fn quote_req() -> GetQuoteReq {
    GetQuoteReq {
        send_asset: "L-BTC".to_owned(),
        recv_asset: "USDt".to_owned(),
        send_amount: Amount { units: 1000, exact: true, precision: 8, text: "0.00001".to_owned() },
        receive_address: "r".to_owned(),
    }
}

fn success(sub: u64) -> WsEvent {
    WsEvent::Notification(Notification::Quote(QuoteNotif {
        quote_sub_id: sub,
        status: QuoteStatus::Success {
            quote_id: QuoteId(77),
            base_amount: 900,
            quote_amount: 500,
            server_fee: 80,
            fixed_fee: 20,
            ttl: 30_000,
        },
    }))
}

/// Runs a swap up to the wait for the quote of stream 5, opened at 1000.
fn waiting(data: &mut Data) -> Pending {
    data.process_wallet_event(
        UtxoData::new(vec![Utxo {
            outpoint: OutPoint { txid: txid(1), vout: 0 },
            asset: asset(1),
            value: 2000,
        }])
        .unwrap(),
    );
    let step = data.process_command(Command::GetQuote { req: quote_req() }, 0);
    let Step::Ask { then, pending, .. } = step else { panic!("unexpected {:?}", step) };
    assert_eq!(then, Wait::Wallet(WalletCall::NewAddress { change: true, index: None }));
    let step = data.resume(pending, Reply::Address { index: 0, address: "c".to_owned() }, 0);
    let Step::Ask { then, pending, .. } = step else { panic!("unexpected {:?}", step) };
    assert_eq!(
        then,
        Wait::Server(ServerCall::StartQuotes(StartQuotes {
            asset_pair: AssetPair { base: asset(1), quote: asset(2) },
            asset_type: AssetType::Base,
            amount: 1000,
            trade_dir: TradeDir::Sell,
            utxos: vec![Utxo { outpoint: OutPoint { txid: txid(1), vout: 0 }, asset: asset(1), value: 2000 }],
            receive_address: "r".to_owned(),
            change_address: "c".to_owned(),
        }))
    );
    let reply = Reply::Server(ServerReply::StartQuotes { quote_sub_id: 5 });
    assert!(data.can_resume(&pending, &reply, 1_000));
    let step = data.resume(pending, reply, 1_000);
    let Step::Ask { then, pending, first } = step else { panic!("unexpected {:?}", step) };
    assert_eq!(first, vec![]);
    assert_eq!(then, Wait::Event { deadline: 16_000 });
    pending
}

#[test]
fn get_quote_runs_from_the_plan_to_the_stored_quote() {
    let mut data = data();
    let wait = waiting(&mut data);

    let step = data.resume(wait.clone(), Reply::Event(success(6)), 2_000);
    assert_eq!(step, ask(Wait::Event { deadline: 16_000 }, wait.clone()));
    let other = WsEvent::Notification(Notification::PegStatus(status(3, "s")));
    let step = data.resume(wait.clone(), Reply::Event(other), 2_000);
    assert_eq!(
        step,
        Step::Ask {
            first: vec![Action::Notify { clients: vec![], notif: Notif::PegStatus(status(3, "s")) }],
            then: Wait::Event { deadline: 16_000 },
            pending: wait.clone(),
        }
    );
    assert!(data.peg_statuses.contains_key(&order(3)));

    let step = data.resume(wait, Reply::Event(success(5)), 3_000);
    let Step::Ask { then, pending, .. } = step else { panic!("unexpected {:?}", step) };
    assert_eq!(then, Wait::Server(ServerCall::GetQuote { quote_id: QuoteId(77) }));

    let pset = elements::pset::PartiallySignedTransaction::from_tx(sample_tx(1));
    let quote_txid = id_of(&pset.extract_tx().unwrap());
    let raw = elements::encode::serialize(&pset);
    let reply = Reply::Server(ServerReply::GetQuote { pset: raw.clone() });
    assert!(data.can_resume(&pending, &reply, 4_000));
    let step = data.resume(pending, reply, 4_000);
    let Step::Ask { then, pending, .. } = step else { panic!("unexpected {:?}", step) };
    assert_eq!(then, Wait::Sign { pset: raw, recv_amount: 500, recv_precision: 8 });

    let reply = Reply::Signed { pset: vec![9, 9], recv_amount: "0.000005".to_owned() };
    assert_eq!(
        data.resume(pending, reply, 5_000),
        done(Ok(Resp::GetQuote(GetQuoteResp {
            quote_id: QuoteId(77),
            recv_amount: 500,
            ttl: 30_000,
            txid: quote_txid,
        })))
    );
    let quote = data.quotes.get(&QuoteId(77)).unwrap();
    assert_eq!(quote.txid, quote_txid);
    assert_eq!(quote.pset, vec![9, 9]);
    assert_eq!(quote.expires_at, 34_000);
    assert_eq!(quote.note, "swap 0.00001 L-BTC for 0.000005 USDt to r");
}

#[test]
fn get_quote_times_out_without_storing_a_quote() {
    let mut data = data();
    let wait = waiting(&mut data);
    assert_eq!(
        data.resume(wait.clone(), Reply::Timeout, 16_000),
        done(Err(Error::WsError(WsError::Timeout)))
    );
    assert_eq!(
        data.resume(wait, Reply::Event(WsEvent::Disconnected), 2_000),
        done(Err(Error::WsError(WsError::Disconnected)))
    );
    assert!(data.quotes.is_empty());
}

#[test]
fn get_quote_ends_on_an_unreadable_pset_or_a_failed_request() {
    let mut data = data();
    let wait = waiting(&mut data);
    let step = data.resume(wait, Reply::Event(success(5)), 3_000);
    let Step::Ask { pending, .. } = step else { panic!("unexpected {:?}", step) };
    let reply = Reply::Server(ServerReply::GetQuote { pset: vec![1, 2] });
    assert_eq!(
        data.resume(pending.clone(), reply, 4_000),
        done(Err(Error::Codec("invalid PSET".to_owned())))
    );
    assert_eq!(data.resume(pending, failed(), 4_000), done(Err(Error::WsError(WsError::Timeout))));
    let mut fresh = self::data();
    let step = fresh.process_command(Command::GetQuote { req: quote_req() }, 0);
    let Step::Ask { pending, .. } = step else { panic!("unexpected {:?}", step) };
    assert_eq!(
        fresh.resume(pending, Reply::Address { index: 0, address: "c".to_owned() }, 0),
        done(Err(Error::NoUtxos))
    );
}

#[test]
fn accept_quote_hands_in_the_pset_after_storing_the_row() {
    let mut data = data();
    let settled =
        sideswap_manager::quote::Settled { quote_id: QuoteId(77), recv_amount: 5, ttl: 1 };
    data.get_quote_done(&quote_req(), settled, txid(9), vec![4, 5], 100, &"5".to_owned());
    let req = AcceptQuoteReq { quote_id: QuoteId(1), user_note: None };
    assert_eq!(data.process_command(Command::AcceptQuote { req }, 0), done(Err(Error::NoQuote)));
    let req = AcceptQuoteReq { quote_id: QuoteId(77), user_note: None };
    assert_eq!(
        data.process_command(Command::AcceptQuote { req: req.clone() }, 100),
        done(Err(Error::QuoteExpired))
    );
    let row = MonitoredTx {
        txid: txid(9),
        description: Some("swap 0.00001 L-BTC for 5 USDt to r".to_owned()),
        user_note: None,
    };
    let pending = Pending::AcceptSign { quote_id: QuoteId(77) };
    assert_eq!(
        data.process_command(Command::AcceptQuote { req }, 99),
        Step::Ask {
            first: vec![Action::Store(Store::AddMonitoredTx(row))],
            then: Wait::Server(ServerCall::TakerSign { quote_id: QuoteId(77), pset: vec![4, 5] }),
            pending: pending.clone(),
        }
    );
    let other = Reply::Server(ServerReply::TakerSign { txid: txid(8) });
    assert!(!data.can_resume(&pending, &other, 99));
    let reply = Reply::Server(ServerReply::TakerSign { txid: txid(9) });
    assert!(data.can_resume(&pending, &reply, 99));
    assert_eq!(
        data.resume(pending, reply, 99),
        done(Ok(Resp::AcceptQuote(AcceptQuoteResp { txid: txid(9) })))
    );
    assert!(data.quotes.contains_key(&QuoteId(77)));
}

#[test]
fn new_peg_runs_from_the_request_to_the_followed_peg() {
    let mut data = data();
    data.client_connected(ClientId(1));
    let req = NewPegReq { recv_addr: "bc1".to_owned(), peg_in: true, blocks: Some(2) };
    let call = ServerCall::Peg { recv_addr: "bc1".to_owned(), peg_in: true, blocks: Some(2) };
    assert_eq!(
        data.process_command(Command::NewPeg { req }, 0),
        ask(Wait::Server(call), Pending::PegOpen)
    );
    let first = Pending::PegFirstStatus { order_id: order(8), peg_addr: "p".to_owned() };
    assert_eq!(
        data.resume(
            Pending::PegOpen,
            Reply::Server(ServerReply::Peg { order_id: order(8), peg_addr: "p".to_owned() }),
            0
        ),
        ask(Wait::Server(ServerCall::PegStatus { order_id: order(8) }), first.clone())
    );
    assert_eq!(
        data.resume(first, Reply::Server(ServerReply::PegStatus(status(8, "first"))), 0),
        Step::Done {
            first: vec![Action::Store(Store::AddPeg(Peg { order_id: order(8) }))],
            resp: Ok(Resp::NewPeg(NewPegResp { order_id: order(8), peg_addr: "p".to_owned() })),
        }
    );
    assert!(data.pegs.contains_key(&order(8)));
    assert_eq!(data.client_connected(ClientId(2)), vec![Notif::PegStatus(status(8, "first"))]);
    assert_eq!(
        data.resume(Pending::PegOpen, failed(), 0),
        done(Err(Error::WsError(WsError::Timeout)))
    );
}

#[test]
fn new_peg_done_tells_clients_of_a_peg_followed_already() {
    let mut data = data();
    data.client_connected(ClientId(1));
    let (actions, _) = data.new_peg_done(order(3), "peg-addr".to_owned(), status(3, "again"));
    assert_eq!(
        actions,
        vec![
            Action::Notify { clients: vec![ClientId(1)], notif: Notif::PegStatus(status(3, "again")) },
            Action::Store(Store::AddPeg(Peg { order_id: order(3) })),
        ]
    );
    assert_eq!(data.pegs.len(), 1);
}

#[test]
fn del_peg_drops_the_row_and_leaves_the_memory_as_it_is() {
    let mut data = data();
    data.process_peg_status(status(3, "s"));
    assert_eq!(
        data.process_command(Command::DelPeg { req: DelPegReq { order_id: order(3) } }, 0),
        Step::Done {
            first: vec![Action::Store(Store::DeletePeg(order(3)))],
            resp: Ok(Resp::DelPeg(DelPegResp {})),
        }
    );
    assert!(data.pegs.contains_key(&order(3)));
    assert!(data.peg_statuses.contains_key(&order(3)));
    assert_eq!(data.process_peg_status(status(3, "t")).len(), 1);
}

#[test]
fn get_monitored_txs_asks_the_wallet_and_reports() {
    let mut data = data();
    assert_eq!(
        data.process_command(Command::GetMonitoredTxs { req: GetMonitoredTxsReq {} }, 0),
        ask(Wait::Wallet(WalletCall::GetTxs { txids: vec![txid(4)] }), Pending::MonitoredTxs)
    );
    let txs = vec![WalletTx { txid: txid(4), height: Some(3) }];
    assert_eq!(
        data.resume(Pending::MonitoredTxs, Reply::Txs(txs), 0),
        done(Ok(Resp::GetMonitoredTxs(GetMonitoredTxsResp {
            txs: vec![sideswap_manager::api::MonitoredTx {
                txid: txid(4),
                status: SwapStatus::Confirmed,
                description: String::new(),
                user_note: None,
            }],
        })))
    );
}

#[test]
fn clients_come_and_go_by_command() {
    let mut data = data();
    data.process_peg_status(status(3, "s"));
    assert_eq!(
        data.process_command(Command::ClientConnected { client_id: ClientId(1) }, 0),
        Step::Connected { notifs: vec![Notif::PegStatus(status(3, "s"))] }
    );
    assert!(data.clients.contains_key(&ClientId(1)));
    assert_eq!(
        data.process_command(Command::ClientDisconnected { client_id: ClientId(1) }, 0),
        Step::Disconnected
    );
    assert!(data.clients.is_empty());
}

#[test]
fn a_reply_of_another_kind_is_not_expected() {
    let data = data();
    assert!(expected(&Pending::PegOpen, &failed()));
    assert!(!expected(&Pending::PegOpen, &Reply::Timeout));
    assert!(!expected(&Pending::MonitoredTxs, &Reply::Tx(vec![])));
    assert!(!data.can_resume(&Pending::SendTxBroadcast, &Reply::Timeout, 0));
    let wait = Pending::QuoteStart {
        req: quote_req(),
        plan: data.get_quote(&quote_req()).unwrap(),
    };
    let reply = Reply::Server(ServerReply::StartQuotes { quote_sub_id: 1 });
    assert!(data.can_resume(&wait, &reply, u64::MAX - 15_000));
    assert!(!data.can_resume(&wait, &reply, u64::MAX - 14_999));
    let settled =
        sideswap_manager::quote::Settled { quote_id: QuoteId(1), recv_amount: 1, ttl: 30_000 };
    let wait = Pending::QuotePset { req: quote_req(), settled, recv_precision: 8 };
    let reply = Reply::Server(ServerReply::GetQuote { pset: vec![] });
    assert!(data.can_resume(&wait, &reply, u64::MAX - 30_000));
    assert!(!data.can_resume(&wait, &reply, u64::MAX - 29_999));
}

#[test]
fn a_quote_stands_for_the_time_it_names_itself() {
    let mut data = data();
    let wait = waiting(&mut data);
    let step = data.resume(wait, Reply::Event(success(5)), 3_000);
    let Step::Ask { pending, .. } = step else { panic!("unexpected {:?}", step) };
    let pset = elements::pset::PartiallySignedTransaction::from_tx(sample_tx(1));
    let reply = Reply::Server(ServerReply::GetQuote { pset: elements::encode::serialize(&pset) });
    let step = data.resume(pending, reply, 7_000);
    let Step::Ask { pending, .. } = step else { panic!("unexpected {:?}", step) };
    let reply = Reply::Signed { pset: vec![1], recv_amount: "0.000005".to_owned() };
    let step = data.resume(pending, reply, 9_000);
    let Step::Done { resp: Ok(Resp::GetQuote(resp)), .. } = step else {
        panic!("unexpected {:?}", step)
    };
    assert_eq!(resp.ttl, 30_000);
    assert_eq!(data.quotes.get(&QuoteId(77)).unwrap().expires_at, 7_000 + 30_000);
    let accept = AcceptQuoteReq { quote_id: QuoteId(77), user_note: None };
    assert!(data.accept_quote(accept.clone(), 36_999).is_ok());
    assert_eq!(data.accept_quote(accept, 37_000), Err(Error::QuoteExpired));
}
