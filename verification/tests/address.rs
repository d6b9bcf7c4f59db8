use sideswap_manager::api::NewAddressResp;
use sideswap_manager::assets::TickerLoader;
use sideswap_manager::error::Error;
use sideswap_manager::ids::{AssetId, Hash32};
use sideswap_manager::models::Address;
use sideswap_manager::ports::{Action, Store, WalletCall};
use sideswap_manager::worker::Data;

fn address(ind: u32) -> Address {
    Address { ind, address: format!("addr{}", ind), user_note: None }
}

fn data_with(addresses: Vec<Address>) -> Data {
    Data::new(AssetId(Hash32 { hi: 0, lo: 1 }), TickerLoader::new(), vec![], vec![], addresses)
}

fn issue(index: u32) -> Result<WalletCall, Error> {
    Ok(WalletCall::NewAddress { change: false, index: Some(index) })
}

#[test]
fn new_address_takes_the_wallet_index_when_it_is_ahead() {
    let data = data_with(vec![address(0), address(4)]);
    assert!(data.has_room(10));
    assert_eq!(data.new_address(10), issue(10));
}

#[test]
fn new_address_takes_the_index_after_the_last_stored_one() {
    let data = data_with(vec![address(0), address(4), address(2)]);
    assert_eq!(data.new_address(3), issue(5));
    assert_eq!(data.new_address(5), issue(5));
}

#[test]
fn new_address_on_an_empty_store_starts_at_the_wallet_index() {
    let data = data_with(vec![]);
    assert_eq!(data.new_address(0), issue(0));
    assert_eq!(data.new_address(7), issue(7));
}

#[test]
fn new_address_refuses_beyond_the_gap_limit() {
    let data = data_with(vec![address(30)]);
    assert_eq!(data.new_address(10), Err(Error::GapLimit));
    assert_eq!(data.new_address(11), Err(Error::GapLimit));
    assert_eq!(data.new_address(12), issue(31));
}

#[test]
fn new_address_gap_of_nineteen_passes_and_twenty_fails() {
    let data = data_with(vec![address(28)]);
    assert_eq!(data.new_address(10), issue(29));
    let data = data_with(vec![address(29)]);
    assert_eq!(data.new_address(10), Err(Error::GapLimit));
}

#[test]
fn new_address_done_keeps_the_address_and_stores_it() {
    let mut data = data_with(vec![]);
    let (action, resp) =
        data.new_address_done(10, "lq1address".to_owned(), Some("rent".to_owned()));
    let row = Address { ind: 10, address: "lq1address".to_owned(), user_note: Some("rent".to_owned()) };
    assert_eq!(action, Action::Store(Store::AddAddress(row.clone())));
    assert_eq!(resp, NewAddressResp { index: 10, address: "lq1address".to_owned() });
    assert_eq!(data.addresses.get(&10), Some(&row));
}

#[test]
fn consecutive_addresses_have_increasing_indices() {
    let mut data = data_with(vec![]);
    let mut last = None;
    for wallet_first_unused in [3u32, 3, 3, 4, 0, 7] {
        let index = match data.new_address(wallet_first_unused) {
            Ok(WalletCall::NewAddress { index: Some(index), .. }) => index,
            other => panic!("unexpected {:?}", other),
        };
        if let Some(last) = last {
            assert!(index > last);
        }
        data.new_address_done(index, format!("a{}", index), None);
        assert!(data.addresses.contains_key(&index));
        last = Some(index);
    }
    assert_eq!(last, Some(8));
}

#[test]
fn at_the_last_index_only_a_wallet_far_behind_is_answered() {
    let data = data_with(vec![address(u32::MAX)]);
    assert!(data.has_room(0));
    assert_eq!(data.new_address(0), Err(Error::GapLimit));
    assert!(data.has_room(u32::MAX - 19));
    assert_eq!(data.new_address(u32::MAX - 19), Err(Error::GapLimit));
    assert!(!data.has_room(u32::MAX - 18));
    assert!(!data.has_room(u32::MAX));
    let data = data_with(vec![address(u32::MAX - 1)]);
    assert!(data.has_room(u32::MAX));
    assert_eq!(data.new_address(u32::MAX), issue(u32::MAX));
    assert_eq!(data.new_address(u32::MAX - 5), issue(u32::MAX));
}

#[test]
fn loading_keeps_the_later_row_of_an_index() {
    let mut second = address(1);
    second.address = "later".to_owned();
    let data = data_with(vec![address(1), second.clone()]);
    assert_eq!(data.addresses.len(), 1);
    assert_eq!(data.addresses.get(&1), Some(&second));
}
