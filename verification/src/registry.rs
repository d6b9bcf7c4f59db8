//! The asset registry as the client reads it: which of the assets asked for
//! are registered, and what is told of each.

use vstd::prelude::*;
use vstd::string::StrSliceExecFns;
use crate::assets::MAX_PRECISION;
use crate::ids::{AssetId, OutPoint};

verus! {

/// How many characters of an asset's identifier stand for its ticker where
/// the registry names none.
pub const DEFAULT_TICKER_LEN: usize = 4;

/// What the registry holds of one asset.
#[derive(Clone, PartialEq, Eq, Debug)]
pub struct RegistryEntry {
    pub asset_id: AssetId,
    /// The identifier as it is written.
    pub id_text: String,
    pub name: String,
    pub ticker: Option<String>,
    pub precision: u8,
    pub domain: Option<String>,
    pub icon: Option<String>,
    pub issuance_prevout: OutPoint,
    pub issuer_pubkey: String,
    /// The asset's contract, as it is written.
    pub contract: String,
}

/// The kind of market an asset trades in.
#[derive(Copy, Clone, PartialEq, Eq, Structural, Debug)]
pub enum MarketType {
    Stablecoin,
    Amp,
    Token,
}

/// What is told of a registered asset.
#[derive(Clone, PartialEq, Eq, Debug)]
pub struct Asset {
    pub asset_id: AssetId,
    pub name: String,
    pub ticker: String,
    pub icon: Option<String>,
    pub precision: u8,
    pub instant_swaps: Option<bool>,
    pub domain: Option<String>,
    pub issuance_prevout: Option<OutPoint>,
    pub issuer_pubkey: Option<String>,
    pub contract: Option<String>,
    pub market_type: Option<MarketType>,
}

/// The first characters of a text, as many as stand for a ticker.
pub open spec fn default_ticker(id_text: Seq<char>) -> Seq<char> {
    if id_text.len() <= DEFAULT_TICKER_LEN {
        id_text
    } else {
        id_text.subrange(0, DEFAULT_TICKER_LEN as int)
    }
}

/// Whether `asset` is what is told of an entry: a token without instant
/// swaps, under the entry's ticker or, where it has none, the start of its
/// identifier.
pub open spec fn tells(entry: RegistryEntry, asset: Asset) -> bool {
    &&& asset.asset_id == entry.asset_id
    &&& asset.name == entry.name
    &&& asset.ticker@ == (match entry.ticker {
        Some(ticker) => ticker@,
        None => default_ticker(entry.id_text@),
    })
    &&& asset.icon == entry.icon
    &&& asset.precision == entry.precision
    &&& asset.instant_swaps == Some(false)
    &&& asset.domain == entry.domain
    &&& asset.issuance_prevout == Some(entry.issuance_prevout)
    &&& asset.issuer_pubkey == Some(entry.issuer_pubkey)
    &&& asset.contract == Some(entry.contract)
    &&& asset.market_type == Some(MarketType::Token)
}

/// Whether position `i` holds the first entry of the asset.
pub open spec fn first_entry(loaded: Seq<RegistryEntry>, asset_id: AssetId, i: int) -> bool {
    &&& 0 <= i < loaded.len()
    &&& loaded[i].asset_id == asset_id
    &&& forall|j: int| 0 <= j < i ==> (#[trigger] loaded[j]).asset_id != asset_id
}

/// Whether the registry holds the asset.
pub open spec fn registered(loaded: Seq<RegistryEntry>, asset_id: AssetId) -> bool {
    exists|i: int| 0 <= i < loaded.len() && (#[trigger] loaded[i]).asset_id == asset_id
}

/// The entries of the assets asked for that the registry holds, in the order
/// in which they were asked for.
pub open spec fn found(asset_ids: Seq<AssetId>, loaded: Seq<RegistryEntry>) -> Seq<RegistryEntry>
    decreases asset_ids.len(),
{
    if asset_ids.len() == 0 {
        Seq::empty()
    } else {
        let rest = found(asset_ids.drop_last(), loaded);
        if registered(loaded, asset_ids.last()) {
            rest.push(loaded[choose|i: int| first_entry(loaded, asset_ids.last(), i)])
        } else {
            rest
        }
    }
}

/// Whether every entry has a precision that assets may have.
pub open spec fn precisions_allowed(loaded: Seq<RegistryEntry>) -> bool {
    forall|i: int| 0 <= i < loaded.len() ==> (#[trigger] loaded[i]).precision <= MAX_PRECISION
}

fn copy_text(text: &Option<String>) -> (r: Option<String>)
    ensures
        r == *text,
{
    match text {
        Some(text) => Some(text.clone()),
        None => None,
    }
}

fn find_entry(loaded: &Vec<RegistryEntry>, asset_id: &AssetId) -> (r: Option<usize>)
    ensures
        match r {
            Some(i) => first_entry(loaded@, *asset_id, i as int)
                && i == choose|c: int| first_entry(loaded@, *asset_id, c),
            None => !registered(loaded@, *asset_id),
        },
{
    let n = loaded.len();
    let mut i: usize = 0;
    while i < n
        invariant
            n == loaded@.len(),
            i <= n,
            forall|j: int| 0 <= j < i ==> (#[trigger] loaded@[j]).asset_id != *asset_id,
        decreases n - i,
    {
        if loaded[i].asset_id.same(asset_id) {
            proof {
                assert(first_entry(loaded@, *asset_id, i as int));
                let c = choose|c: int| first_entry(loaded@, *asset_id, c);
                if c < i {
                } else if i < c {
                }
            }
            return Some(i);
        }
        i += 1;
    }
    None
}

fn tell(entry: &RegistryEntry) -> (r: Asset)
    ensures
        tells(*entry, r),
{
    let ticker = match &entry.ticker {
        Some(ticker) => ticker.clone(),
        None => {
            let id_text = entry.id_text.as_str();
            let len = id_text.unicode_len();
            if len <= DEFAULT_TICKER_LEN {
                entry.id_text.clone()
            } else {
                id_text.substring_char(0, DEFAULT_TICKER_LEN).to_owned()
            }
        },
    };
    Asset {
        asset_id: entry.asset_id,
        name: entry.name.clone(),
        ticker,
        icon: copy_text(&entry.icon),
        precision: entry.precision,
        instant_swaps: Some(false),
        domain: copy_text(&entry.domain),
        issuance_prevout: Some(entry.issuance_prevout),
        issuer_pubkey: Some(entry.issuer_pubkey.clone()),
        contract: Some(entry.contract.clone()),
        market_type: Some(MarketType::Token),
    }
}

/// What is told of the assets asked for: one answer for each that the
/// registry holds, in the order in which they were asked for. Nothing where
/// one of those has a precision that assets may not have.
pub fn try_get_assets(asset_ids: &Vec<AssetId>, loaded: &Vec<RegistryEntry>) -> (r: Option<
    Vec<Asset>,
>)
    ensures
        match r {
            Some(assets) => {
                &&& precisions_allowed(found(asset_ids@, loaded@))
                &&& assets@.len() == found(asset_ids@, loaded@).len()
                &&& forall|i: int|
                    0 <= i < assets@.len() ==> tells(
                        found(asset_ids@, loaded@)[i],
                        #[trigger] assets@[i],
                    )
            },
            None => !precisions_allowed(found(asset_ids@, loaded@)),
        },
{
    let n = asset_ids.len();
    let mut out: Vec<Asset> = Vec::new();
    let mut k: usize = 0;
    proof {
        assert(asset_ids@.take(0) =~= Seq::<AssetId>::empty());
    }
    while k < n
        invariant
            n == asset_ids@.len(),
            k <= n,
            precisions_allowed(found(asset_ids@.take(k as int), loaded@)),
            out@.len() == found(asset_ids@.take(k as int), loaded@).len(),
            forall|i: int|
                0 <= i < out@.len() ==> tells(
                    found(asset_ids@.take(k as int), loaded@)[i],
                    #[trigger] out@[i],
                ),
        decreases n - k,
    {
        proof {
            assert(asset_ids@.take(k + 1).drop_last() =~= asset_ids@.take(k as int));
        }
        if let Some(i) = find_entry(loaded, &asset_ids[k]) {
            if loaded[i].precision > MAX_PRECISION {
                proof {
                    lemma_found_grows(asset_ids@, k + 1, loaded@);
                    let upto = found(asset_ids@.take(k + 1), loaded@);
                    assert(upto[upto.len() - 1].precision > MAX_PRECISION);
                }
                return None;
            }
            out.push(tell(&loaded[i]));
        }
        k += 1;
    }
    proof {
        assert(asset_ids@.take(n as int) =~= asset_ids@);
    }
    Some(out)
}

/// What is told of the assets asked for: one answer for each that the
/// registry holds, in the order in which they were asked for.
pub fn get_assets(asset_ids: &Vec<AssetId>, loaded: &Vec<RegistryEntry>) -> (r: Vec<Asset>)
    requires
        precisions_allowed(found(asset_ids@, loaded@)),
    ensures
        r@.len() == found(asset_ids@, loaded@).len(),
        forall|i: int|
            0 <= i < r@.len() ==> tells(found(asset_ids@, loaded@)[i], #[trigger] r@[i]),
{
    match try_get_assets(asset_ids, loaded) {
        Some(assets) => assets,
        None => unreached(),
    }
}

/// The entries found for the first assets asked for stand at the start of
/// those found for all.
pub proof fn lemma_found_grows(asset_ids: Seq<AssetId>, n: int, loaded: Seq<RegistryEntry>)
    requires
        0 <= n <= asset_ids.len(),
    ensures
        found(asset_ids.take(n), loaded).len() <= found(asset_ids, loaded).len(),
        forall|i: int|
            0 <= i < found(asset_ids.take(n), loaded).len() ==> found(asset_ids, loaded)[i]
                == #[trigger] found(asset_ids.take(n), loaded)[i],
    decreases asset_ids.len() - n,
{
    if n == asset_ids.len() {
        assert(asset_ids.take(n) =~= asset_ids);
    } else {
        lemma_found_grows(asset_ids, n + 1, loaded);
        assert(asset_ids.take(n + 1).drop_last() =~= asset_ids.take(n));
        let shorter = found(asset_ids.take(n), loaded);
        let longer = found(asset_ids.take(n + 1), loaded);
        assert forall|i: int| 0 <= i < shorter.len() implies found(asset_ids, loaded)[i]
            == #[trigger] shorter[i] by {
            assert(longer[i] == shorter[i]);
            assert(found(asset_ids, loaded)[i] == longer[i]);
        }
    }
}

} // verus!
