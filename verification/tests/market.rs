use sideswap_manager::ids::{AssetId, Hash32};
use sideswap_manager::market::{
    asset_type, base_trade_dir, find_market, quote_amounts, remove_market, AssetPair, AssetType,
    MarketInfo, TradeDir,
};

fn asset(n: u128) -> AssetId {
    AssetId(Hash32 { hi: 0, lo: n })
}

fn market(base: u128, quote: u128, fee_asset: AssetType) -> MarketInfo {
    MarketInfo { asset_pair: AssetPair { base: asset(base), quote: asset(quote) }, fee_asset }
}

#[test]
fn find_market_matches_either_orientation() {
    let markets = vec![market(1, 2, AssetType::Base), market(3, 1, AssetType::Quote)];
    assert_eq!(find_market(&markets, &asset(1), &asset(2)), Some(markets[0]));
    assert_eq!(find_market(&markets, &asset(2), &asset(1)), Some(markets[0]));
    assert_eq!(find_market(&markets, &asset(1), &asset(3)), Some(markets[1]));
    assert_eq!(find_market(&markets, &asset(2), &asset(3)), None);
    assert_eq!(find_market(&vec![], &asset(1), &asset(2)), None);
}

#[test]
fn find_market_takes_the_first_match() {
    let markets = vec![market(2, 1, AssetType::Quote), market(1, 2, AssetType::Base)];
    assert_eq!(find_market(&markets, &asset(1), &asset(2)), Some(markets[0]));
}

#[test]
fn sending_base_sells_and_sending_quote_buys() {
    let m = market(1, 2, AssetType::Base);
    assert_eq!(asset_type(&m, &asset(1)), AssetType::Base);
    assert_eq!(asset_type(&m, &asset(2)), AssetType::Quote);
    assert_eq!(base_trade_dir(AssetType::Base), TradeDir::Sell);
    assert_eq!(base_trade_dir(AssetType::Quote), TradeDir::Buy);
}

#[test]
fn quote_amounts_follow_the_fee_table() {
    assert_eq!(quote_amounts(TradeDir::Sell, AssetType::Base, 900, 500, 100), (1000, 500));
    assert_eq!(quote_amounts(TradeDir::Sell, AssetType::Quote, 900, 500, 100), (900, 400));
    assert_eq!(quote_amounts(TradeDir::Buy, AssetType::Base, 900, 500, 100), (500, 800));
    assert_eq!(quote_amounts(TradeDir::Buy, AssetType::Quote, 900, 500, 100), (600, 900));
}

#[test]
fn quote_amounts_saturate() {
    assert_eq!(quote_amounts(TradeDir::Sell, AssetType::Quote, 900, 50, 100), (900, 0));
    assert_eq!(quote_amounts(TradeDir::Buy, AssetType::Base, 50, 500, 100), (500, 0));
    assert_eq!(
        quote_amounts(TradeDir::Sell, AssetType::Base, u64::MAX, 500, 100),
        (u64::MAX, 500)
    );
    assert_eq!(
        quote_amounts(TradeDir::Buy, AssetType::Quote, 7, u64::MAX - 1, 2),
        (u64::MAX, 7)
    );
}

#[test]
fn remove_market_drops_every_market_of_the_pair() {
    let mut markets = vec![
        market(1, 2, AssetType::Base),
        market(3, 1, AssetType::Quote),
        market(1, 2, AssetType::Quote),
        market(2, 1, AssetType::Base),
    ];
    remove_market(&mut markets, &AssetPair { base: asset(1), quote: asset(2) });
    assert_eq!(markets, vec![market(3, 1, AssetType::Quote), market(2, 1, AssetType::Base)]);
}
