//! Transactions as the worker reads them: what a serialized transaction or a
//! partially signed one says of its identifier, its inputs and its fees.

use vstd::prelude::*;
use crate::duplicate::{copy_all, Duplicate};
use crate::ids::{AssetId, Hash32, OutPoint, Txid};

verus! {

/// What the worker reads of one output of a transaction.
#[derive(Copy, Clone, PartialEq, Eq, Structural, Debug)]
pub struct TxOutput {
    /// Whether the output pays the network fee.
    pub fee: bool,
    /// The asset, where it is not blinded.
    pub asset: Option<AssetId>,
    /// The value, where it is not blinded.
    pub value: Option<u64>,
}

/// A transaction: its serialized bytes and what the worker reads of them.
#[derive(Clone, PartialEq, Eq, Debug)]
pub struct Transaction {
    pub txid: Txid,
    /// The outputs that the inputs spend, in the order of the inputs.
    pub inputs: Vec<OutPoint>,
    pub outputs: Vec<TxOutput>,
    pub raw: Vec<u8>,
}

/// What the bytes serialize, if they serialize a transaction: its identifier,
/// the outputs that its inputs spend, and its outputs, each in order.
pub uninterp spec fn raw_tx(raw: Seq<u8>) -> Option<(Txid, Seq<OutPoint>, Seq<TxOutput>)>;

/// The identifier of the transaction that a serialized partially signed
/// transaction yields, if the bytes serialize one that yields a transaction.
pub uninterp spec fn pset_txid(raw: Seq<u8>) -> Option<Txid>;

/// The identifier of the transaction that the bytes serialize, if they
/// serialize one.
pub open spec fn raw_txid(raw: Seq<u8>) -> Option<Txid> {
    match raw_tx(raw) {
        Some(parts) => Some(parts.0),
        None => None,
    }
}

/// The outputs spent by the transaction that the bytes serialize, if they
/// serialize one.
pub open spec fn raw_inputs(raw: Seq<u8>) -> Option<Seq<OutPoint>> {
    match raw_tx(raw) {
        Some(parts) => Some(parts.1),
        None => None,
    }
}

/// The outputs of the transaction that the bytes serialize, if they serialize
/// one.
pub open spec fn raw_outputs(raw: Seq<u8>) -> Option<Seq<TxOutput>> {
    match raw_tx(raw) {
        Some(parts) => Some(parts.2),
        None => None,
    }
}

/// Calls `elements::encode::deserialize` for a `Transaction` once and hands
/// out `Transaction::txid`, the `previous_output` of each input and, for each
/// output, `TxOut::is_fee` with the explicit asset and value. Claims only
/// that the result depends on the bytes alone; nothing where the bytes do not
/// deserialize.
#[verifier::external_body]
fn read_tx(raw: &Vec<u8>) -> (r: Option<(Txid, Vec<OutPoint>, Vec<TxOutput>)>)
    ensures
        match r {
            Some(parts) => raw_tx(raw@) == Some((parts.0, parts.1@, parts.2@)),
            None => raw_tx(raw@) is None,
        },
{
    let tx: elements::Transaction = elements::encode::deserialize(raw).ok()?;
    let id = |h: elements::Txid| Txid(Hash32::from_bytes(&elements::hashes::Hash::to_byte_array(h)));
    let inputs = tx.input.iter().map(|i| OutPoint {
        txid: id(i.previous_output.txid),
        vout: i.previous_output.vout,
    }).collect();
    let outputs = tx.output.iter().map(|o| TxOutput {
        fee: o.is_fee(),
        asset: o.asset.explicit().map(|a| AssetId(Hash32::from_bytes(&a.to_byte_array()))),
        value: o.value.explicit(),
    }).collect();
    Some((id(tx.txid()), inputs, outputs))
}

/// Calls `elements::encode::deserialize` for a `PartiallySignedTransaction`,
/// then `extract_tx` and `Transaction::txid`. Claims only that the result
/// depends on the bytes alone; nothing where either step fails.
#[verifier::external_body]
fn read_pset_txid(raw: &Vec<u8>) -> (r: Option<Txid>)
    ensures
        r == pset_txid(raw@),
{
    let pset: elements::pset::PartiallySignedTransaction = elements::encode::deserialize(raw).ok()?;
    let tx = pset.extract_tx().ok()?;
    Some(Txid(Hash32::from_bytes(&elements::hashes::Hash::to_byte_array(tx.txid()))))
}

/// What one output adds to the fee counted in an asset.
pub open spec fn fee_part(output: TxOutput, asset: AssetId) -> int {
    if output.fee && output.asset == Some(asset) && output.value is Some {
        output.value->0 as int
    } else {
        0
    }
}

/// The sum of the fee outputs in one asset.
pub open spec fn fee_total(outputs: Seq<TxOutput>, asset: AssetId) -> int
    decreases outputs.len(),
{
    if outputs.len() == 0 {
        0
    } else {
        fee_total(outputs.drop_last(), asset) + fee_part(outputs.last(), asset)
    }
}

/// A fee never shrinks when outputs are added at the end.
pub proof fn lemma_fee_grows(outputs: Seq<TxOutput>, n: int, asset: AssetId)
    requires
        0 <= n <= outputs.len(),
    ensures
        0 <= fee_total(outputs.take(n), asset) <= fee_total(outputs, asset),
    decreases outputs.len() - n,
{
    if n == outputs.len() {
        assert(outputs.take(n) =~= outputs);
        lemma_fee_nonnegative(outputs, asset);
    } else {
        lemma_fee_grows(outputs, n + 1, asset);
        assert(outputs.take(n + 1).drop_last() =~= outputs.take(n));
        lemma_fee_nonnegative(outputs.take(n), asset);
    }
}

/// No fee is negative.
pub proof fn lemma_fee_nonnegative(outputs: Seq<TxOutput>, asset: AssetId)
    ensures
        0 <= fee_total(outputs, asset),
    decreases outputs.len(),
{
    if outputs.len() > 0 {
        lemma_fee_nonnegative(outputs.drop_last(), asset);
    }
}

impl Transaction {
    /// Whether the parts are those that the bytes serialize.
    pub open spec fn reads(self, raw: Seq<u8>) -> bool {
        &&& self.raw@ == raw
        &&& raw_tx(raw) == Some((self.txid, self.inputs@, self.outputs@))
    }

    /// Whether the bytes serialize a transaction.
    pub open spec fn readable(raw: Seq<u8>) -> bool {
        raw_tx(raw) is Some
    }

    /// Reads a serialized transaction.
    pub fn decode(raw: Vec<u8>) -> (r: Option<Self>)
        ensures
            match r {
                Some(tx) => tx.reads(raw@),
                None => !Self::readable(raw@),
            },
    {
        match read_tx(&raw) {
            Some((txid, inputs, outputs)) => Some(Transaction { txid, inputs, outputs, raw }),
            None => None,
        }
    }

    /// The fee that the transaction pays in one asset, or nothing where the
    /// sum cannot be written in 64 bits.
    pub fn fee_in(&self, asset: &AssetId) -> (r: Option<u64>)
        ensures
            match r {
                Some(fee) => fee == fee_total(self.outputs@, *asset),
                None => fee_total(self.outputs@, *asset) > u64::MAX,
            },
    {
        let n = self.outputs.len();
        let mut acc: u64 = 0;
        let mut i: usize = 0;
        while i < n
            invariant
                n == self.outputs@.len(),
                i <= n,
                acc == fee_total(self.outputs@.take(i as int), *asset),
            decreases n - i,
        {
            proof {
                assert(self.outputs@.take(i + 1).drop_last() =~= self.outputs@.take(i as int));
            }
            let output = self.outputs[i];
            if output.fee {
                if let Some(a) = output.asset {
                    if a.same(asset) {
                        if let Some(value) = output.value {
                            match acc.checked_add(value) {
                                Some(next) => {
                                    acc = next;
                                },
                                None => {
                                    proof {
                                        lemma_fee_grows(self.outputs@, i + 1, *asset);
                                    }
                                    return None;
                                },
                            }
                        }
                    }
                }
            }
            i += 1;
        }
        proof {
            assert(self.outputs@.take(n as int) =~= self.outputs@);
        }
        Some(acc)
    }

    /// A copy of the transaction.
    pub fn copy(&self) -> (r: Self)
        ensures
            r.txid == self.txid,
            r.inputs@ == self.inputs@,
            r.outputs@ == self.outputs@,
            r.raw@ == self.raw@,
    {
        Transaction {
            txid: self.txid,
            inputs: copy_all(&self.inputs),
            outputs: copy_all(&self.outputs),
            raw: copy_all(&self.raw),
        }
    }
}

/// The identifier of the transaction that a serialized partially signed
/// transaction yields.
pub fn pset_transaction_id(raw: &Vec<u8>) -> (r: Option<Txid>)
    ensures
        r == pset_txid(raw@),
{
    read_pset_txid(raw)
}

impl Duplicate for OutPoint {
    fn copy(&self) -> (r: Self) {
        *self
    }
}

impl Duplicate for TxOutput {
    fn copy(&self) -> (r: Self) {
        *self
    }
}

} // verus!
