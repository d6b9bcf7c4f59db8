use sideswap_manager::ids::{AssetId, Hash32, OutPoint, Txid};
use sideswap_manager::registry::{get_assets, try_get_assets, Asset, MarketType, RegistryEntry};

fn asset(n: u128) -> AssetId {
    AssetId(Hash32 { hi: 0, lo: n })
}

fn entry(n: u128, ticker: Option<&str>, precision: u8) -> RegistryEntry {
    RegistryEntry {
        asset_id: asset(n),
        id_text: format!("{:064x}", 0xabcdef00u128 + n),
        name: format!("Asset {}", n),
        ticker: ticker.map(|t| t.to_owned()),
        precision,
        domain: Some("example.com".to_owned()),
        icon: None,
        issuance_prevout: OutPoint { txid: Txid(Hash32 { hi: 1, lo: n }), vout: 2 },
        issuer_pubkey: "02aa".to_owned(),
        contract: "{}".to_owned(),
    }
}

fn told(n: u128, ticker: &str, precision: u8) -> Asset {
    Asset {
        asset_id: asset(n),
        name: format!("Asset {}", n),
        ticker: ticker.to_owned(),
        icon: None,
        precision,
        instant_swaps: Some(false),
        domain: Some("example.com".to_owned()),
        issuance_prevout: Some(OutPoint { txid: Txid(Hash32 { hi: 1, lo: n }), vout: 2 }),
        issuer_pubkey: Some("02aa".to_owned()),
        contract: Some("{}".to_owned()),
        market_type: Some(MarketType::Token),
    }
}

#[test]
fn get_assets_answers_in_the_order_asked_and_skips_the_unknown() {
    let loaded = vec![entry(1, Some("ONE"), 8), entry(2, Some("TWO"), 0), entry(3, Some("TRI"), 2)];
    assert_eq!(
        get_assets(&vec![asset(3), asset(9), asset(1)], &loaded),
        vec![told(3, "TRI", 2), told(1, "ONE", 8)]
    );
    assert_eq!(get_assets(&vec![], &loaded), vec![]);
    assert_eq!(get_assets(&vec![asset(1), asset(1)], &loaded), vec![told(1, "ONE", 8), told(1, "ONE", 8)]);
}

#[test]
fn an_asset_without_ticker_goes_by_the_start_of_its_identifier() {
    let mut short = entry(2, None, 8);
    short.id_text = "ab".to_owned();
    let loaded = vec![entry(1, None, 8), short];
    let assets = get_assets(&vec![asset(1), asset(2)], &loaded);
    assert_eq!(assets[0].ticker, "0000");
    assert_eq!(assets[1].ticker, "ab");
}

#[test]
fn try_get_assets_refuses_a_precision_that_assets_may_not_have() {
    let loaded = vec![entry(1, Some("ONE"), 8), entry(2, Some("TWO"), 9)];
    assert_eq!(try_get_assets(&vec![asset(1)], &loaded), Some(vec![told(1, "ONE", 8)]));
    assert_eq!(try_get_assets(&vec![asset(1), asset(2)], &loaded), None);
    assert_eq!(try_get_assets(&vec![asset(3)], &loaded), Some(vec![]));
}
