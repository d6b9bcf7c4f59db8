//! What the wallet reports: its unspent outputs, and the sums and selections
//! that commands take from them.

use vstd::prelude::*;
use crate::ids::{AssetId, OutPoint};

verus! {

/// One unspent output of the wallet.
#[derive(Copy, Clone, PartialEq, Eq, Structural, Debug)]
pub struct Utxo {
    pub outpoint: OutPoint,
    pub asset: AssetId,
    pub value: u64,
}

/// The sum of the values that a sequence of outputs holds in one asset.
pub open spec fn total_of(utxos: Seq<Utxo>, asset: AssetId) -> int
    decreases utxos.len(),
{
    if utxos.len() == 0 {
        0
    } else {
        total_of(utxos.drop_last(), asset) + if utxos.last().asset == asset {
            utxos.last().value as int
        } else {
            0
        }
    }
}

/// The outputs of a sequence that are in one asset, in their order.
pub open spec fn of_asset(utxos: Seq<Utxo>, asset: AssetId) -> Seq<Utxo> {
    utxos.filter(|u: Utxo| u.asset == asset)
}

/// Whether some output of the sequence is in the asset.
pub open spec fn holds_asset(utxos: Seq<Utxo>, asset: AssetId) -> bool {
    exists|i: int| 0 <= i < utxos.len() && utxos[i].asset == asset
}

/// Whether some output of the sequence is the one named.
pub open spec fn holds_outpoint(utxos: Seq<Utxo>, outpoint: OutPoint) -> bool {
    exists|i: int| 0 <= i < utxos.len() && utxos[i].outpoint == outpoint
}

/// Whether the sum in every asset can be written in 64 bits.
pub open spec fn totals_fit(utxos: Seq<Utxo>) -> bool {
    forall|asset: AssetId| total_of(utxos, asset) <= u64::MAX
}

/// A sum never shrinks when outputs are added at the end.
pub proof fn lemma_total_grows(utxos: Seq<Utxo>, n: int, asset: AssetId)
    requires
        0 <= n <= utxos.len(),
    ensures
        0 <= total_of(utxos.take(n), asset) <= total_of(utxos, asset),
    decreases utxos.len() - n,
{
    if n == utxos.len() {
        assert(utxos.take(n) =~= utxos);
        lemma_total_nonnegative(utxos, asset);
    } else {
        lemma_total_grows(utxos, n + 1, asset);
        assert(utxos.take(n + 1).drop_last() =~= utxos.take(n));
        lemma_total_nonnegative(utxos.take(n), asset);
    }
}

/// No sum is negative.
pub proof fn lemma_total_nonnegative(utxos: Seq<Utxo>, asset: AssetId)
    ensures
        0 <= total_of(utxos, asset),
    decreases utxos.len(),
{
    if utxos.len() > 0 {
        lemma_total_nonnegative(utxos.drop_last(), asset);
    }
}

/// An asset that no output is in sums to nothing.
pub proof fn lemma_total_absent(utxos: Seq<Utxo>, asset: AssetId)
    requires
        !holds_asset(utxos, asset),
    ensures
        total_of(utxos, asset) == 0,
    decreases utxos.len(),
{
    if utxos.len() > 0 {
        assert(utxos[utxos.len() - 1].asset != asset);
        assert(!holds_asset(utxos.drop_last(), asset)) by {
            if holds_asset(utxos.drop_last(), asset) {
                let i = choose|i: int|
                    0 <= i < utxos.drop_last().len() && utxos.drop_last()[i].asset == asset;
                assert(utxos[i].asset == asset);
            }
        }
        lemma_total_absent(utxos.drop_last(), asset);
    }
}

/// The sum of the values held in one asset, or nothing where it cannot be
/// written in 64 bits.
fn sum_asset(utxos: &Vec<Utxo>, asset: &AssetId) -> (r: Option<u64>)
    ensures
        match r {
            Some(t) => t == total_of(utxos@, *asset),
            None => total_of(utxos@, *asset) > u64::MAX,
        },
{
    let n = utxos.len();
    let mut acc: u64 = 0;
    let mut i: usize = 0;
    while i < n
        invariant
            n == utxos@.len(),
            i <= n,
            acc == total_of(utxos@.take(i as int), *asset),
        decreases n - i,
    {
        proof {
            assert(utxos@.take(i + 1).drop_last() =~= utxos@.take(i as int));
        }
        if utxos[i].asset.same(asset) {
            match acc.checked_add(utxos[i].value) {
                Some(next) => {
                    acc = next;
                },
                None => {
                    proof {
                        lemma_total_grows(utxos@, i + 1, *asset);
                    }
                    return None;
                },
            }
        }
        i += 1;
    }
    proof {
        assert(utxos@.take(n as int) =~= utxos@);
    }
    Some(acc)
}

/// The wallet's unspent outputs, as it last reported them. Their sum in each
/// asset can be written in 64 bits.
pub struct UtxoData {
    utxos: Vec<Utxo>,
}

impl View for UtxoData {
    type V = Seq<Utxo>;

    closed spec fn view(&self) -> Seq<Utxo> {
        self.utxos@
    }
}

impl UtxoData {
    #[verifier::type_invariant]
    spec fn bounded(self) -> bool {
        totals_fit(self.utxos@)
    }

    /// Takes a report of the wallet. Refuses one whose sum in some asset
    /// cannot be written in 64 bits.
    pub fn new(utxos: Vec<Utxo>) -> (r: Option<Self>)
        ensures
            match r {
                Some(data) => data@ == utxos@ && totals_fit(utxos@),
                None => !totals_fit(utxos@),
            },
    {
        let n = utxos.len();
        let mut i: usize = 0;
        while i < n
            invariant
                n == utxos@.len(),
                i <= n,
                forall|j: int| 0 <= j < i ==> total_of(utxos@, #[trigger] utxos@[j].asset) <= u64::MAX,
            decreases n - i,
        {
            let asset = utxos[i].asset;
            if sum_asset(&utxos, &asset).is_none() {
                return None;
            }
            i += 1;
        }
        proof {
            assert forall|asset: AssetId| total_of(utxos@, asset) <= u64::MAX by {
                if holds_asset(utxos@, asset) {
                    let j = choose|j: int| 0 <= j < utxos@.len() && utxos@[j].asset == asset;
                    assert(total_of(utxos@, utxos@[j].asset) <= u64::MAX);
                } else {
                    lemma_total_absent(utxos@, asset);
                }
            }
        }
        Some(UtxoData { utxos })
    }

    /// The outputs, in the order of the report.
    pub fn utxos(&self) -> (r: &Vec<Utxo>)
        ensures
            r@ == self@,
            totals_fit(self@),
    {
        proof {
            use_type_invariant(self);
        }
        &self.utxos
    }

    /// The sum of the values held in one asset.
    pub fn total(&self, asset: &AssetId) -> (r: u64)
        ensures
            r == total_of(self@, *asset),
    {
        proof {
            use_type_invariant(self);
        }
        match sum_asset(&self.utxos, asset) {
            Some(t) => t,
            None => unreached(),
        }
    }

    /// Whether any output is in the asset.
    pub fn has_asset(&self, asset: &AssetId) -> (r: bool)
        ensures
            r == holds_asset(self@, *asset),
    {
        let n = self.utxos.len();
        let mut i: usize = 0;
        while i < n
            invariant
                n == self.utxos@.len(),
                i <= n,
                forall|j: int| 0 <= j < i ==> self.utxos@[j].asset != *asset,
            decreases n - i,
        {
            if self.utxos[i].asset.same(asset) {
                return true;
            }
            i += 1;
        }
        false
    }

    /// The outputs held in one asset, in the order of the report.
    pub fn select(&self, asset: &AssetId) -> (r: Vec<Utxo>)
        ensures
            r@ == of_asset(self@, *asset),
    {
        let n = self.utxos.len();
        let mut out: Vec<Utxo> = Vec::new();
        let mut i: usize = 0;
        proof {
            assert(self.utxos@.take(0) =~= Seq::<Utxo>::empty());
        }
        while i < n
            invariant
                n == self.utxos@.len(),
                i <= n,
                out@ == of_asset(self.utxos@.take(i as int), *asset),
            decreases n - i,
        {
            proof {
                assert(self.utxos@.take(i + 1) =~= self.utxos@.take(i as int).push(
                    self.utxos@[i as int],
                ));
                lemma_filter_push(self.utxos@.take(i as int), self.utxos@[i as int], *asset);
            }
            if self.utxos[i].asset.same(asset) {
                out.push(self.utxos[i]);
            }
            i += 1;
        }
        proof {
            assert(self.utxos@.take(n as int) =~= self.utxos@);
        }
        out
    }

    /// Whether the wallet holds the output named.
    pub fn has_outpoint(&self, outpoint: &OutPoint) -> (r: bool)
        ensures
            r == holds_outpoint(self@, *outpoint),
    {
        let n = self.utxos.len();
        let mut i: usize = 0;
        while i < n
            invariant
                n == self.utxos@.len(),
                i <= n,
                forall|j: int| 0 <= j < i ==> self.utxos@[j].outpoint != *outpoint,
            decreases n - i,
        {
            if self.utxos[i].outpoint.same(outpoint) {
                return true;
            }
            i += 1;
        }
        false
    }

    /// Whether the wallet holds every output named.
    pub fn has_all(&self, outpoints: &Vec<OutPoint>) -> (r: bool)
        ensures
            r == (forall|k: int|
                0 <= k < outpoints@.len() ==> holds_outpoint(self@, #[trigger] outpoints@[k])),
    {
        let n = outpoints.len();
        let mut k: usize = 0;
        while k < n
            invariant
                n == outpoints@.len(),
                k <= n,
                forall|j: int| 0 <= j < k ==> holds_outpoint(self@, #[trigger] outpoints@[j]),
            decreases n - k,
        {
            if !self.has_outpoint(&outpoints[k]) {
                return false;
            }
            k += 1;
        }
        true
    }
}

/// Selecting by asset goes output by output.
pub proof fn lemma_filter_push(utxos: Seq<Utxo>, next: Utxo, asset: AssetId)
    ensures
        of_asset(utxos.push(next), asset) == if next.asset == asset {
            of_asset(utxos, asset).push(next)
        } else {
            of_asset(utxos, asset)
        },
{
    reveal(Seq::filter);
    assert(utxos.push(next).drop_last() =~= utxos);
}

} // verus!
