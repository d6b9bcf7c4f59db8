use sideswap_manager::ids::{AssetId, Hash32, OutPoint, Txid};
use sideswap_manager::wallet::{Utxo, UtxoData};

fn asset(n: u128) -> AssetId {
    AssetId(Hash32 { hi: 0, lo: n })
}

fn outpoint(n: u128, vout: u32) -> OutPoint {
    OutPoint { txid: Txid(Hash32 { hi: 0, lo: n }), vout }
}

fn utxo(n: u128, vout: u32, a: u128, value: u64) -> Utxo {
    Utxo { outpoint: outpoint(n, vout), asset: asset(a), value }
}

#[test]
fn utxo_totals_are_summed_by_asset() {
    let data = UtxoData::new(vec![utxo(1, 0, 1, 100), utxo(2, 0, 2, 7), utxo(3, 1, 1, 250)]).unwrap();
    assert_eq!(data.total(&asset(1)), 350);
    assert_eq!(data.total(&asset(2)), 7);
    assert_eq!(data.total(&asset(3)), 0);
    assert!(data.has_asset(&asset(2)));
    assert!(!data.has_asset(&asset(3)));
    assert_eq!(data.utxos().len(), 3);
}

#[test]
fn utxo_select_keeps_the_order_of_the_report() {
    let data = UtxoData::new(vec![utxo(1, 0, 1, 100), utxo(2, 0, 2, 7), utxo(3, 1, 1, 250)]).unwrap();
    assert_eq!(data.select(&asset(1)), vec![utxo(1, 0, 1, 100), utxo(3, 1, 1, 250)]);
    assert_eq!(data.select(&asset(9)), vec![]);
}

#[test]
fn utxo_data_refuses_a_sum_beyond_64_bits() {
    assert!(UtxoData::new(vec![utxo(1, 0, 1, u64::MAX), utxo(2, 0, 1, 1)]).is_none());
    assert!(UtxoData::new(vec![utxo(1, 0, 1, u64::MAX), utxo(2, 0, 2, 1)]).is_some());
    assert!(UtxoData::new(vec![utxo(1, 0, 1, u64::MAX), utxo(2, 0, 1, 0)]).is_some());
    assert!(UtxoData::new(vec![]).is_some());
}

#[test]
fn utxo_data_finds_outpoints() {
    let data = UtxoData::new(vec![utxo(1, 0, 1, 100), utxo(2, 5, 2, 7)]).unwrap();
    assert!(data.has_outpoint(&outpoint(2, 5)));
    assert!(!data.has_outpoint(&outpoint(2, 4)));
    assert!(data.has_all(&vec![outpoint(1, 0), outpoint(2, 5)]));
    assert!(!data.has_all(&vec![outpoint(1, 0), outpoint(3, 0)]));
    assert!(data.has_all(&vec![]));
}
