//! Drafting transactions, sending them, and reporting where the monitored
//! ones stand.

use vstd::prelude::*;
use vstd::string::StringExecFns;
use crate::api::{
    copy_note, Amount, BroadcastStatus, CreateTxReq, CreateTxResp, GetMonitoredTxsResp, Recipient,
    SendTxReq, SendTxResp, SwapStatus,
};
use crate::assets::{try_get_asset, TickerLoader};
use crate::error::Error;
use crate::ids::{Key, Txid};
use crate::models::MonitoredTx;
use crate::ports::{Action, Payment, ServerCall, Store, WalletCall, WalletTx};
use crate::duplicate::copy_all;
use crate::tx::{fee_total, raw_outputs, raw_txid, Transaction};
use crate::wallet::holds_outpoint;
use crate::worker::{CreatedTx, Data};

verus! {

/// The units of an amount that is exact at the asset's precision; a refusal of
/// one that is not, or that was taken at another precision.
pub fn try_convert_asset_amount(amount: &Amount, asset_precision: u8) -> (r: Result<u64, Error>)
    ensures
        amount.exact_at(asset_precision) ==> r == Ok::<u64, Error>(amount.units),
        !amount.exact_at(asset_precision) ==> r == Err::<u64, Error>(
            Error::InvalidAssetAmount(amount.text, asset_precision),
        ),
{
    if !amount.exact || amount.precision != asset_precision {
        return Err(Error::InvalidAssetAmount(amount.text.clone(), asset_precision));
    }
    Ok(amount.units)
}

/// What a draft says of one payment.
pub open spec fn line_of(recipient: Recipient) -> Seq<char> {
    "send "@ + recipient.amount.text@ + " "@ + recipient.asset@ + " to "@ + recipient.address@
}

/// What a draft says of its payments: one line each, joined by a comma and a
/// space.
pub open spec fn note_of(recipients: Seq<Recipient>) -> Seq<char>
    decreases recipients.len(),
{
    if recipients.len() == 0 {
        Seq::empty()
    } else if recipients.len() == 1 {
        line_of(recipients[0])
    } else {
        note_of(recipients.drop_last()) + ", "@ + line_of(recipients.last())
    }
}

/// Whether a payment can be made: its ticker is registered and its amount
/// exact at the asset's precision.
pub open spec fn payable(loader: TickerLoader, recipient: Recipient) -> bool {
    loader.knows(recipient.asset@) && recipient.amount.exact_at(
        loader.resolve(recipient.asset@).precision,
    )
}

/// Why a payment that cannot be made is refused.
pub open spec fn refusal(loader: TickerLoader, recipient: Recipient) -> Error {
    if !loader.knows(recipient.asset@) {
        Error::UnknownTicker(recipient.asset)
    } else {
        Error::InvalidAssetAmount(
            recipient.amount.text,
            loader.resolve(recipient.asset@).precision,
        )
    }
}

/// The payment as the wallet is asked for it.
pub open spec fn payment_of(loader: TickerLoader, recipient: Recipient) -> Payment {
    Payment {
        address: recipient.address,
        asset_id: loader.resolve(recipient.asset@).asset_id,
        amount: recipient.amount.units,
    }
}

/// Whether position `i` holds the first payment that cannot be made.
pub open spec fn first_refused(loader: TickerLoader, recipients: Seq<Recipient>, i: int) -> bool {
    &&& 0 <= i < recipients.len()
    &&& !payable(loader, recipients[i])
    &&& forall|j: int| 0 <= j < i ==> payable(loader, #[trigger] recipients[j])
}

/// What `create_tx` gives for a request: a draft of all its payments where
/// every one can be made, else the refusal of the first that cannot.
pub open spec fn drafts(loader: TickerLoader, req: CreateTxReq, r: Result<Draft, Error>) -> bool {
    &&& (forall|i: int|
        0 <= i < req.recipients@.len() ==> payable(loader, #[trigger] req.recipients@[i])) ==> (
    r matches Ok(draft) && draft.note@ == note_of(req.recipients@) && draft.recipients@.len()
        == req.recipients@.len() && forall|i: int|
        0 <= i < req.recipients@.len() ==> #[trigger] draft.recipients@[i] == payment_of(
            loader,
            req.recipients@[i],
        ))
    &&& forall|i: int|
        first_refused(loader, req.recipients@, i) ==> r == Err::<Draft, Error>(
            refusal(loader, req.recipients@[i]),
        )
}

/// Whether the wallet holds every output that a drafted transaction spends.
pub open spec fn inputs_held(data: Data, txid: Txid) -> bool {
    forall|k: int|
        0 <= k < data.created_txs@[txid].tx.inputs@.len() ==> holds_outpoint(
            data.utxo_data->0@,
            #[trigger] data.created_txs@[txid].tx.inputs@[k],
        )
}

/// What `send_tx` gives for a transaction: the request to have its inputs
/// checked where it is drafted and the wallet holds them all, else why not.
pub open spec fn send_checked(data: Data, txid: Txid, r: Result<ServerCall, Error>) -> bool {
    &&& !data.created_txs@.contains_key(txid) ==> r == Err::<ServerCall, Error>(Error::NoCreatedTx)
    &&& data.created_txs@.contains_key(txid) && data.utxo_data is None ==> (
    r matches Err(Error::UtxoCheckFailed(text)) && text@ == "utxo_data is None"@)
    &&& data.created_txs@.contains_key(txid) && data.utxo_data is Some && !inputs_held(data, txid)
        ==> (r matches Err(Error::UtxoCheckFailed(text)) && text@ == "Can't find wallet UTXOs"@)
    &&& data.created_txs@.contains_key(txid) && data.utxo_data is Some && inputs_held(data, txid)
        ==> (r matches Ok(ServerCall::CheckOutpoints { outpoints }) && outpoints@
        == data.created_txs@[txid].tx.inputs@)
}

/// At most one position holds the first payment that cannot be made.
pub proof fn lemma_first_refused(loader: TickerLoader, recipients: Seq<Recipient>, i: int)
    requires
        first_refused(loader, recipients, i),
    ensures
        forall|k: int| first_refused(loader, recipients, k) ==> k == i,
{
    assert forall|k: int| first_refused(loader, recipients, k) implies k == i by {
        if k < i {
        } else if i < k {
        }
    }
}

/// A transaction for the wallet to draft, and what to say of it.
#[derive(Clone, PartialEq, Eq, Debug)]
pub struct Draft {
    pub recipients: Vec<Payment>,
    pub note: String,
}

/// Where the wallet has seen a transaction, by its first report of it.
pub open spec fn status_of(txs: Seq<WalletTx>, txid: Txid) -> SwapStatus {
    if exists|i: int| first_report(txs, txid, i) {
        let i = choose|i: int| first_report(txs, txid, i);
        if txs[i].height is Some {
            SwapStatus::Confirmed
        } else {
            SwapStatus::Mempool
        }
    } else {
        SwapStatus::NotFound
    }
}

/// Whether position `i` holds the first report of the transaction.
pub open spec fn first_report(txs: Seq<WalletTx>, txid: Txid, i: int) -> bool {
    &&& 0 <= i < txs.len()
    &&& txs[i].txid == txid
    &&& forall|j: int| 0 <= j < i ==> (#[trigger] txs[j]).txid != txid
}

/// What clients are told of a monitored transaction.
pub open spec fn told_of(row: MonitoredTx, txs: Seq<WalletTx>, told: crate::api::MonitoredTx) -> bool {
    &&& told.txid == row.txid
    &&& told.status == status_of(txs, row.txid)
    &&& told.description@ == (match row.description {
        Some(text) => text@,
        None => Seq::<char>::empty(),
    })
    &&& told.user_note == row.user_note
}

/// How one side took a broadcast.
pub open spec fn broadcast_status(res: Result<(), String>) -> BroadcastStatus {
    match res {
        Ok(_) => BroadcastStatus::Success,
        Err(error_msg) => BroadcastStatus::Error { error_msg },
    }
}

fn line(recipient: &Recipient) -> (r: String)
    ensures
        r@ == line_of(*recipient),
{
    let mut text = String::from_str("send ");
    text.append(recipient.amount.text.as_str());
    text.append(" ");
    text.append(recipient.asset.as_str());
    text.append(" to ");
    text.append(recipient.address.as_str());
    text
}

fn find_tx(txs: &Vec<WalletTx>, txid: &Txid) -> (r: SwapStatus)
    ensures
        r == status_of(txs@, *txid),
{
    let n = txs.len();
    let mut i: usize = 0;
    while i < n
        invariant
            n == txs@.len(),
            i <= n,
            forall|j: int| 0 <= j < i ==> (#[trigger] txs@[j]).txid != *txid,
        decreases n - i,
    {
        if txs[i].txid.same(txid) {
            proof {
                assert(first_report(txs@, *txid, i as int));
                let c = choose|c: int| first_report(txs@, *txid, c);
                if c < i {
                } else if i < c {
                }
            }
            return if txs[i].height.is_some() {
                SwapStatus::Confirmed
            } else {
                SwapStatus::Mempool
            };
        }
        i += 1;
    }
    SwapStatus::NotFound
}

impl Data {
    /// Turns a client's payments into a transaction for the wallet to draft:
    /// each ticker resolved, each amount taken in units. Refuses at the first
    /// payment whose ticker is unknown or whose amount is not exact.
    pub fn create_tx(&self, req: &CreateTxReq) -> (r: Result<Draft, Error>)
        ensures
            drafts(self.ticker_loader, *req, r),
    {
        let n = req.recipients.len();
        let mut recipients: Vec<Payment> = Vec::new();
        let mut note = String::new();
        let mut i: usize = 0;
        proof {
            assert(req.recipients@.take(0) =~= Seq::<Recipient>::empty());
        }
        while i < n
            invariant
                n == req.recipients@.len(),
                i <= n,
                note@ == note_of(req.recipients@.take(i as int)),
                recipients@.len() == i,
                forall|j: int| 0 <= j < i ==> payable(self.ticker_loader, #[trigger] req.recipients@[j]),
                forall|j: int|
                    0 <= j < i ==> #[trigger] recipients@[j] == payment_of(
                        self.ticker_loader,
                        req.recipients@[j],
                    ),
            decreases n - i,
        {
            let recipient = &req.recipients[i];
            let asset = match try_get_asset(&self.ticker_loader, &recipient.asset) {
                Ok(asset) => asset,
                Err(err) => {
                    proof {
                        lemma_first_refused(self.ticker_loader, req.recipients@, i as int);
                    }
                    return Err(err);
                },
            };
            let amount = match try_convert_asset_amount(&recipient.amount, asset.precision) {
                Ok(amount) => amount,
                Err(err) => {
                    proof {
                        lemma_first_refused(self.ticker_loader, req.recipients@, i as int);
                    }
                    return Err(err);
                },
            };
            recipients.push(
                Payment { address: recipient.address.clone(), asset_id: asset.asset_id, amount },
            );
            if i > 0 {
                note.append(", ");
            }
            let text = line(recipient);
            note.append(text.as_str());
            proof {
                let upto = req.recipients@.take(i + 1);
                assert(upto.drop_last() =~= req.recipients@.take(i as int));
                assert(upto.last() == req.recipients@[i as int]);
                if i == 0 {
                    assert(upto[0] == req.recipients@[0]);
                    assert(note@ =~= line_of(req.recipients@[0]));
                }
            }
            i += 1;
        }
        proof {
            assert(req.recipients@.take(n as int) =~= req.recipients@);
            assert forall|k: int| first_refused(self.ticker_loader, req.recipients@, k) implies false by {}
        }
        Ok(Draft { recipients, note })
    }

    /// Takes in the transaction that the wallet drafted, read from its
    /// bytes: keeps it under its identifier and answers with the fee it pays
    /// in the policy asset. Refuses, and keeps nothing, where that fee cannot
    /// be written in 64 bits.
    pub fn create_tx_done(&mut self, tx: Transaction, note: String) -> (r: Result<
        CreateTxResp,
        Error,
    >)
        requires
            tx.reads(tx.raw@),
        ensures
            fee_total(tx.outputs@, old(self).policy_asset) <= u64::MAX ==> {
                &&& r == Ok::<CreateTxResp, Error>(
                    CreateTxResp {
                        txid: tx.txid,
                        network_fee: fee_total(tx.outputs@, old(self).policy_asset) as u64,
                    },
                )
                &&& final(self).created_txs@ == old(self).created_txs@.insert(
                    tx.txid,
                    CreatedTx { tx, note },
                )
            },
            fee_total(tx.outputs@, old(self).policy_asset) > u64::MAX ==> {
                &&& r matches Err(Error::Codec(text)) && text@ == "network fee out of range"@
                &&& *final(self) == *old(self)
            },
            *final(self) == (Data { created_txs: final(self).created_txs, ..*old(self) }),
            old(self).wf() ==> final(self).wf(),
    {
        let network_fee = match tx.fee_in(&self.policy_asset) {
            Some(fee) => fee,
            None => {
                return Err(Error::Codec("network fee out of range".to_owned()));
            },
        };
        let txid = tx.txid;
        self.created_txs.insert(txid, CreatedTx { tx, note });
        Ok(CreateTxResp { txid, network_fee })
    }

    /// Takes in the serialized transaction that the wallet drafted. Refuses
    /// bytes that serialize no transaction; else goes on as `create_tx_done`
    /// does with what they serialize.
    pub fn create_tx_reply(&mut self, raw: Vec<u8>, note: String) -> (r: Result<CreateTxResp, Error>)
        ensures
            !Transaction::readable(raw@) ==> (r matches Err(Error::Codec(text)) && text@
                == "invalid transaction"@) && *final(self) == *old(self),
            Transaction::readable(raw@) ==> {
                let txid = raw_txid(raw@)->0;
                let fee = fee_total(raw_outputs(raw@)->0, old(self).policy_asset);
                &&& fee > u64::MAX ==> (r matches Err(Error::Codec(text)) && text@
                    == "network fee out of range"@) && *final(self) == *old(self)
                &&& fee <= u64::MAX ==> {
                    &&& r == Ok::<CreateTxResp, Error>(
                        CreateTxResp { txid, network_fee: fee as u64 },
                    )
                    &&& final(self).created_txs@.contains_key(txid)
                    &&& final(self).created_txs@[txid].tx.reads(raw@)
                    &&& final(self).created_txs@[txid].note == note
                    &&& final(self).created_txs@.remove(txid) == old(self).created_txs@.remove(
                        txid,
                    )
                }
            },
            *final(self) == (Data { created_txs: final(self).created_txs, ..*old(self) }),
            old(self).wf() ==> final(self).wf(),
    {
        match Transaction::decode(raw) {
            Some(tx) => {
                let ghost txid = tx.txid;
                let r = self.create_tx_done(tx, note);
                proof {
                    if r is Ok {
                        assert(self.created_txs@.remove(txid) =~= old(self).created_txs@.remove(
                            txid,
                        ));
                    }
                }
                r
            },
            None => Err(Error::Codec("invalid transaction".to_owned())),
        }
    }

    /// Looks up a drafted transaction and checks that the wallet holds every
    /// output it spends; then asks the server to check those outputs too.
    pub fn send_tx(&self, txid: &Txid) -> (r: Result<ServerCall, Error>)
        ensures
            send_checked(*self, *txid, r),
    {
        let created = match self.created_txs.get(txid) {
            Some(created) => created,
            None => {
                return Err(Error::NoCreatedTx);
            },
        };
        let utxo_data = match &self.utxo_data {
            Some(utxo_data) => utxo_data,
            None => {
                return Err(Error::UtxoCheckFailed("utxo_data is None".to_owned()));
            },
        };
        if !utxo_data.has_all(&created.tx.inputs) {
            return Err(Error::UtxoCheckFailed("Can't find wallet UTXOs".to_owned()));
        }
        Ok(ServerCall::CheckOutpoints { outpoints: copy_all(&created.tx.inputs) })
    }

    /// Takes in the server's verdict on the outputs of a drafted transaction.
    /// Where it confirmed them, the transaction is monitored from now on, and
    /// the actions say, in this order: store the monitored row, then have the
    /// server and the wallet broadcast.
    pub fn send_tx_broadcast(&mut self, req: SendTxReq, checked: Result<(), String>) -> (r: Result<
        Vec<Action>,
        Error,
    >)
        ensures
            !old(self).created_txs@.contains_key(req.txid) ==> r == Err::<Vec<Action>, Error>(
                Error::NoCreatedTx,
            ) && *final(self) == *old(self),
            old(self).created_txs@.contains_key(req.txid) ==> match checked {
                Err(text) => r == Err::<Vec<Action>, Error>(Error::UtxoCheckFailed(text))
                    && *final(self) == *old(self),
                Ok(_) => {
                    let row = MonitoredTx {
                        txid: req.txid,
                        description: Some(old(self).created_txs@[req.txid].note),
                        user_note: req.user_note,
                    };
                    &&& final(self).monitored_txs@ == old(self).monitored_txs@.insert(
                        req.txid,
                        row,
                    )
                    &&& r matches Ok(actions)
                    &&& actions@.len() == 3
                    &&& actions@[0] == Action::Store(Store::AddMonitoredTx(row))
                    &&& actions@[1] matches Action::Server(ServerCall::BroadcastTx { tx })
                    &&& tx@ == old(self).created_txs@[req.txid].tx.raw@
                    &&& actions@[2] matches Action::Wallet(WalletCall::BroadcastTx { tx: sent })
                    &&& sent@ == old(self).created_txs@[req.txid].tx.raw@
                },
            },
            *final(self) == (Data { monitored_txs: final(self).monitored_txs, ..*old(self) }),
            old(self).wf() ==> final(self).wf(),
    {
        let created = match self.created_txs.get(&req.txid) {
            Some(created) => created,
            None => {
                return Err(Error::NoCreatedTx);
            },
        };
        if let Err(text) = checked {
            return Err(Error::UtxoCheckFailed(text));
        }
        let row = MonitoredTx {
            txid: req.txid,
            description: Some(created.note.clone()),
            user_note: req.user_note,
        };
        let mut actions: Vec<Action> = Vec::new();
        actions.push(Action::Store(Store::AddMonitoredTx(row.copy())));
        actions.push(Action::Server(ServerCall::BroadcastTx { tx: copy_all(&created.tx.raw) }));
        actions.push(Action::Wallet(WalletCall::BroadcastTx { tx: copy_all(&created.tx.raw) }));
        self.monitored_txs.insert(req.txid, row);
        Ok(actions)
    }

    /// Takes in how the wallet and the server took the broadcast: forgets
    /// every drafted transaction, whatever they say, and answers with what
    /// each side said.
    pub fn send_tx_done(&mut self, res_wallet: Result<(), String>, res_server: Result<(), String>) -> (r:
        SendTxResp)
        ensures
            final(self).created_txs@ == Map::<Txid, CreatedTx>::empty(),
            *final(self) == (Data { created_txs: final(self).created_txs, ..*old(self) }),
            r == (SendTxResp {
                res_wallet: broadcast_status(res_wallet),
                res_server: broadcast_status(res_server),
            }),
            old(self).wf() ==> final(self).wf(),
    {
        self.created_txs.clear();
        let res_wallet = match res_wallet {
            Ok(_) => BroadcastStatus::Success,
            Err(error_msg) => BroadcastStatus::Error { error_msg },
        };
        let res_server = match res_server {
            Ok(_) => BroadcastStatus::Success,
            Err(error_msg) => BroadcastStatus::Error { error_msg },
        };
        SendTxResp { res_wallet, res_server }
    }

    /// Asks the wallet where the monitored transactions stand, in ascending
    /// order of their identifiers.
    pub fn monitored_txids(&self) -> (r: WalletCall)
        ensures
            r matches WalletCall::GetTxs { txids } && txids@ == self.monitored_txs.keys(),
            self.monitored_txs.sound(),
    {
        WalletCall::GetTxs { txids: self.monitored_txs.key_list() }
    }

    /// Reports each monitored transaction, in ascending order of their
    /// identifiers, with where the wallet has seen it.
    pub fn get_monitored_txs(&self, txs: &Vec<WalletTx>) -> (r: GetMonitoredTxsResp)
        ensures
            self.monitored_txs.sound(),
            r.txs@.len() == self.monitored_txs.keys().len(),
            forall|i: int|
                0 <= i < r.txs@.len() ==> told_of(
                    self.monitored_txs.values()[i],
                    txs@,
                    #[trigger] r.txs@[i],
                ),
    {
        let n = self.monitored_txs.len();
        let mut out: Vec<crate::api::MonitoredTx> = Vec::new();
        let mut i: usize = 0;
        while i < n
            invariant
                n == self.monitored_txs.keys().len(),
                self.monitored_txs.sound(),
                i <= n,
                out@.len() == i,
                forall|j: int|
                    0 <= j < i ==> told_of(self.monitored_txs.values()[j], txs@, #[trigger] out@[j]),
            decreases n - i,
        {
            let row = self.monitored_txs.value_at(i);
            let description = match &row.description {
                Some(text) => text.clone(),
                None => String::new(),
            };
            out.push(
                crate::api::MonitoredTx {
                    txid: row.txid,
                    status: find_tx(txs, &row.txid),
                    description,
                    user_note: copy_note(&row.user_note),
                },
            );
            i += 1;
        }
        GetMonitoredTxsResp { txs: out }
    }
}

/// What is checked of a drafted transaction is what is sent of it: its
/// identifier, and the outputs that its inputs spend, are those of the bytes
/// that are broadcast.
pub proof fn law_draft_sent_is_draft_checked(data: Data, txid: Txid)
    requires
        data.wf(),
        data.created_txs@.contains_key(txid),
    ensures
        raw_txid(data.created_txs@[txid].tx.raw@) == Some(txid),
        crate::tx::raw_inputs(data.created_txs@[txid].tx.raw@) == Some(
            data.created_txs@[txid].tx.inputs@,
        ),
{
}

} // verus!
