use af_transaction_api::coin::{scan_coins, Coin, CoinScan};
use af_transaction_api::ids::ObjectId;
use af_transaction_api::response::StructTag;

fn coin(id: u128, balance: u64) -> Coin {
    Coin {
        coin_type: String::from("0x2::sui::SUI"),
        coin_object_id: ObjectId::new(0, id),
        balance,
    }
}

fn tag(address: u128, module: &str, name: &str, type_params: &[&str]) -> StructTag {
    StructTag {
        address: ObjectId::new(0, address),
        module: String::from(module),
        name: String::from(name),
        type_params: type_params.iter().map(|p| String::from(*p)).collect(),
    }
}

#[test]
fn scan_stops_at_first_exact_match() {
    let coins = vec![coin(1, 70), coin(2, 50), coin(3, 90), coin(4, 50)];
    assert_eq!(scan_coins(&coins, 50), CoinScan { equal: Some(1), greater: Some(0) });
}

#[test]
fn scan_keeps_last_greater() {
    let coins = vec![coin(1, 70), coin(2, 10), coin(3, 90), coin(4, 20)];
    assert_eq!(scan_coins(&coins, 50), CoinScan { equal: None, greater: Some(2) });
}

#[test]
fn scan_ignores_greater_coins_after_the_exact_match() {
    let coins = vec![coin(1, 10), coin(2, 50), coin(3, 90)];
    assert_eq!(scan_coins(&coins, 50), CoinScan { equal: Some(1), greater: None });
}

#[test]
fn scan_of_empty_list_finds_nothing() {
    let coins: Vec<Coin> = Vec::new();
    assert_eq!(scan_coins(&coins, 50), CoinScan { equal: None, greater: None });
}

#[test]
fn scan_with_only_smaller_coins_finds_nothing() {
    let coins = vec![coin(1, 49), coin(2, 0), coin(3, 1)];
    assert_eq!(scan_coins(&coins, 50), CoinScan { equal: None, greater: None });
}

#[test]
fn scan_at_the_largest_amount() {
    let coins = vec![coin(1, u64::MAX - 1), coin(2, u64::MAX)];
    assert_eq!(scan_coins(&coins, u64::MAX), CoinScan { equal: Some(1), greater: None });
}

#[test]
fn scan_for_zero_matches_an_empty_coin() {
    let coins = vec![coin(1, 5), coin(2, 0)];
    assert_eq!(scan_coins(&coins, 0), CoinScan { equal: Some(1), greater: Some(0) });
}

#[test]
fn coin_type_is_recognised() {
    assert!(Coin::is_coin(&tag(2, "coin", "Coin", &["0x2::sui::SUI"])));
    assert!(Coin::is_coin(&tag(2, "coin", "Coin", &[])));
}

#[test]
fn other_types_are_no_coin() {
    assert!(!Coin::is_coin(&tag(3, "coin", "Coin", &["0x2::sui::SUI"])));
    assert!(!Coin::is_coin(&tag(2, "coins", "Coin", &["0x2::sui::SUI"])));
    assert!(!Coin::is_coin(&tag(2, "coin", "coin", &["0x2::sui::SUI"])));
    assert!(!Coin::is_coin(&tag(2, "coin", "CoinMetadata", &["0x2::sui::SUI"])));
    let mut high = tag(2, "coin", "Coin", &["0x2::sui::SUI"]);
    high.address = ObjectId::new(1, 2);
    assert!(!Coin::is_coin(&high));
}

#[test]
fn coin_of_a_token_needs_the_token_as_first_type_argument() {
    let sui = String::from("0x2::sui::SUI");
    assert!(Coin::is_coin_of(&tag(2, "coin", "Coin", &["0x2::sui::SUI"]), &sui));
    assert!(!Coin::is_coin_of(&tag(2, "coin", "Coin", &["0xabc::usdc::USDC"]), &sui));
    assert!(!Coin::is_coin_of(&tag(2, "coin", "Coin", &[]), &sui));
    assert!(!Coin::is_coin_of(&tag(2, "bag", "Bag", &["0x2::sui::SUI"]), &sui));
    assert!(!Coin::is_coin_of(
        &tag(2, "coin", "Coin", &["0xabc::usdc::USDC", "0x2::sui::SUI"]),
        &sui
    ));
}
