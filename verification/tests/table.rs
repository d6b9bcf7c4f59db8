use sideswap_manager::ids::{Hash32, Key, QuoteId, Txid};
use sideswap_manager::table::Table;

fn txid(hi: u128, lo: u128) -> Txid {
    Txid(Hash32 { hi, lo })
}

#[test]
fn table_starts_empty() {
    let table: Table<QuoteId, u32> = Table::new();
    assert_eq!(table.len(), 0);
    assert!(table.is_empty());
    assert_eq!(table.get(&QuoteId(1)), None);
    assert_eq!(table.last_key(), None);
    assert!(!table.contains_key(&QuoteId(1)));
}

#[test]
fn table_insert_keeps_keys_ascending() {
    let mut table: Table<QuoteId, &str> = Table::new();
    assert_eq!(table.insert(QuoteId(5), "five"), None);
    assert_eq!(table.insert(QuoteId(1), "one"), None);
    assert_eq!(table.insert(QuoteId(3), "three"), None);
    assert_eq!(table.key_list(), vec![QuoteId(1), QuoteId(3), QuoteId(5)]);
    assert_eq!(table.key_at(0), QuoteId(1));
    assert_eq!(*table.value_at(1), "three");
    assert_eq!(table.position(&QuoteId(5)), Some(2));
    assert_eq!(table.position(&QuoteId(4)), None);
    assert_eq!(table.last_key(), Some(QuoteId(5)));
}

#[test]
fn table_insert_replaces_and_hands_back_the_old_value() {
    let mut table: Table<QuoteId, u32> = Table::new();
    assert_eq!(table.insert(QuoteId(7), 70), None);
    assert_eq!(table.insert(QuoteId(7), 71), Some(70));
    assert_eq!(table.len(), 1);
    assert_eq!(table.get(&QuoteId(7)), Some(&71));
}

#[test]
fn table_remove_takes_out_one_entry() {
    let mut table: Table<QuoteId, u32> = Table::new();
    table.insert(QuoteId(1), 10);
    table.insert(QuoteId(2), 20);
    table.insert(QuoteId(3), 30);
    assert_eq!(table.remove(&QuoteId(2)), Some(20));
    assert_eq!(table.remove(&QuoteId(2)), None);
    assert_eq!(table.key_list(), vec![QuoteId(1), QuoteId(3)]);
    assert_eq!(table.remove_at(0), (QuoteId(1), 10));
    assert_eq!(table.key_list(), vec![QuoteId(3)]);
    table.clear();
    assert!(table.is_empty());
}

#[test]
fn table_orders_hashes_by_upper_half_first() {
    let mut table: Table<Txid, u8> = Table::new();
    table.insert(txid(1, 0), 1);
    table.insert(txid(0, u128::MAX), 2);
    table.insert(txid(0, 7), 3);
    assert_eq!(table.key_list(), vec![txid(0, 7), txid(0, u128::MAX), txid(1, 0)]);
    assert!(txid(0, u128::MAX).precedes(&txid(1, 0)));
    assert!(!txid(1, 0).precedes(&txid(1, 0)));
    assert!(txid(1, 0).same(&txid(1, 0)));
}

#[test]
fn hash_from_bytes_reads_big_endian_halves() {
    let mut bytes = [0u8; 32];
    bytes[15] = 1;
    bytes[31] = 2;
    bytes[0] = 0x80;
    let hash = Hash32::from_bytes(&bytes);
    assert_eq!(hash.hi, (0x80u128 << 120) + 1);
    assert_eq!(hash.lo, 2);
    let bytes = [0xffu8; 32];
    assert_eq!(Hash32::from_bytes(&bytes), Hash32 { hi: u128::MAX, lo: u128::MAX });
    assert_eq!(Hash32::new(3, 4), Hash32 { hi: 3, lo: 4 });
}
