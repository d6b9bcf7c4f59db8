//! Markets: the pairs the server trades, which side a swap takes in them, and
//! what a quote asks and gives once the fee is counted.

use vstd::prelude::*;
use crate::ids::AssetId;

verus! {

/// One side of a market's pair.
#[derive(Copy, Clone, PartialEq, Eq, Structural, Debug)]
pub enum AssetType {
    Base,
    Quote,
}

/// What a trade does with the base asset.
#[derive(Copy, Clone, PartialEq, Eq, Structural, Debug)]
pub enum TradeDir {
    Sell,
    Buy,
}

/// The two assets of a market.
#[derive(Copy, Clone, PartialEq, Eq, Structural, Debug)]
pub struct AssetPair {
    pub base: AssetId,
    pub quote: AssetId,
}

/// A market of the server.
#[derive(Copy, Clone, PartialEq, Eq, Structural, Debug)]
pub struct MarketInfo {
    pub asset_pair: AssetPair,
    /// The side in which the fee is counted.
    pub fee_asset: AssetType,
}

/// Whether a market trades the two assets, in either orientation.
pub open spec fn trades(market: MarketInfo, send: AssetId, recv: AssetId) -> bool {
    market.asset_pair.base == send && market.asset_pair.quote == recv || market.asset_pair.base
        == recv && market.asset_pair.quote == send
}

/// Whether position `i` holds the first market that trades the two assets.
pub open spec fn first_trading(markets: Seq<MarketInfo>, send: AssetId, recv: AssetId, i: int) -> bool {
    &&& 0 <= i < markets.len()
    &&& trades(markets[i], send, recv)
    &&& forall|j: int| 0 <= j < i ==> !trades(#[trigger] markets[j], send, recv)
}

/// Whether any market trades the two assets.
pub open spec fn has_market(markets: Seq<MarketInfo>, send: AssetId, recv: AssetId) -> bool {
    exists|i: int| 0 <= i < markets.len() && trades(#[trigger] markets[i], send, recv)
}

/// The side of the market that is sent.
pub open spec fn side_of(market: MarketInfo, send: AssetId) -> AssetType {
    if market.asset_pair.base == send {
        AssetType::Base
    } else {
        AssetType::Quote
    }
}

/// What sending a side does with the base asset: sending base sells it,
/// sending quote buys it.
pub open spec fn dir_of(side: AssetType) -> TradeDir {
    match side {
        AssetType::Base => TradeDir::Sell,
        AssetType::Quote => TradeDir::Buy,
    }
}

/// The sum of two amounts, held at the greatest 64-bit value.
pub open spec fn sat_add(a: u64, b: u64) -> u64 {
    if a + b > u64::MAX {
        u64::MAX
    } else {
        (a + b) as u64
    }
}

/// The difference of two amounts, held at nothing.
pub open spec fn sat_sub(a: u64, b: u64) -> u64 {
    if a < b {
        0
    } else {
        (a - b) as u64
    }
}

/// What a quote asks the sender for and what it gives, the fee counted in
/// the market's fee asset: added to what is sent where that is the fee asset,
/// else taken from what is received.
pub open spec fn quote_sides(
    dir: TradeDir,
    fee_asset: AssetType,
    base_amount: u64,
    quote_amount: u64,
    total_fee: u64,
) -> (u64, u64) {
    match (dir, fee_asset) {
        (TradeDir::Sell, AssetType::Base) => (sat_add(base_amount, total_fee), quote_amount),
        (TradeDir::Sell, AssetType::Quote) => (base_amount, sat_sub(quote_amount, total_fee)),
        (TradeDir::Buy, AssetType::Base) => (quote_amount, sat_sub(base_amount, total_fee)),
        (TradeDir::Buy, AssetType::Quote) => (sat_add(quote_amount, total_fee), base_amount),
    }
}

/// The first market that trades the two assets, in either orientation.
pub fn find_market(markets: &Vec<MarketInfo>, send: &AssetId, recv: &AssetId) -> (r: Option<
    MarketInfo,
>)
    ensures
        match r {
            Some(m) => exists|i: int|
                first_trading(markets@, *send, *recv, i) && m == markets@[i],
            None => !has_market(markets@, *send, *recv),
        },
{
    let n = markets.len();
    let mut i: usize = 0;
    while i < n
        invariant
            n == markets@.len(),
            i <= n,
            forall|j: int| 0 <= j < i ==> !trades(#[trigger] markets@[j], *send, *recv),
        decreases n - i,
    {
        let pair = markets[i].asset_pair;
        if pair.base.same(send) && pair.quote.same(recv) || pair.base.same(recv)
            && pair.quote.same(send) {
            assert(first_trading(markets@, *send, *recv, i as int));
            return Some(markets[i]);
        }
        i += 1;
    }
    None
}

/// The side of a market that a swap sends.
pub fn asset_type(market: &MarketInfo, send: &AssetId) -> (r: AssetType)
    ensures
        r == side_of(*market, *send),
{
    if market.asset_pair.base.same(send) {
        AssetType::Base
    } else {
        AssetType::Quote
    }
}

/// What sending a side does with the base asset.
pub fn base_trade_dir(side: AssetType) -> (r: TradeDir)
    ensures
        r == dir_of(side),
{
    match side {
        AssetType::Base => TradeDir::Sell,
        AssetType::Quote => TradeDir::Buy,
    }
}

/// What a quote asks the sender for, and what it gives.
pub fn quote_amounts(
    dir: TradeDir,
    fee_asset: AssetType,
    base_amount: u64,
    quote_amount: u64,
    total_fee: u64,
) -> (r: (u64, u64))
    ensures
        r == quote_sides(dir, fee_asset, base_amount, quote_amount, total_fee),
{
    match (dir, fee_asset) {
        (TradeDir::Sell, AssetType::Base) => (base_amount.saturating_add(total_fee), quote_amount),
        (TradeDir::Sell, AssetType::Quote) => (base_amount, quote_amount.saturating_sub(total_fee)),
        (TradeDir::Buy, AssetType::Base) => (quote_amount, base_amount.saturating_sub(total_fee)),
        (TradeDir::Buy, AssetType::Quote) => (quote_amount.saturating_add(total_fee), base_amount),
    }
}

/// The markets without those of one pair, in their order.
pub open spec fn without_pair(markets: Seq<MarketInfo>, pair: AssetPair) -> Seq<MarketInfo> {
    markets.filter(|m: MarketInfo| m.asset_pair != pair)
}

/// Takes the markets of one pair out of the list.
pub fn remove_market(markets: &mut Vec<MarketInfo>, pair: &AssetPair)
    ensures
        final(markets)@ == without_pair(old(markets)@, *pair),
{
    let n = markets.len();
    let mut kept: Vec<MarketInfo> = Vec::new();
    let mut i: usize = 0;
    proof {
        assert(markets@.take(0) =~= Seq::<MarketInfo>::empty());
    }
    while i < n
        invariant
            n == markets@.len(),
            i <= n,
            *markets == *old(markets),
            kept@ == without_pair(markets@.take(i as int), *pair),
        decreases n - i,
    {
        let m = markets[i];
        proof {
            reveal(Seq::filter);
            assert(markets@.take(i + 1).drop_last() =~= markets@.take(i as int));
        }
        if !(m.asset_pair.base.same(&pair.base) && m.asset_pair.quote.same(&pair.quote)) {
            kept.push(m);
        }
        i += 1;
    }
    proof {
        assert(markets@.take(n as int) =~= markets@);
    }
    *markets = kept;
}

} // verus!
