use amm::account::AccountId;
use amm::naming::decimal_text;
use amm::naming::wallet_account_id;

#[test]
fn valid_account_ids_are_taken() {
    for id in [
        "aa",
        "a-a",
        "100",
        "near",
        "b-o_w_e-n",
        "b.owen",
        "illia.cheapaccounts.near",
        "over.9000",
        "0123456789012345678901234567890123456789012345678901234567890123",
    ] {
        let parsed = AccountId::try_from(id.to_string());
        assert!(parsed.is_some(), "{}", id);
        assert_eq!(parsed.unwrap().as_str(), id);
    }
}

#[test]
fn invalid_account_ids_are_refused() {
    for id in [
        "",
        "a",
        "A",
        "Abc",
        "-near",
        "near-",
        "-near-",
        "near.",
        ".near",
        "near@",
        "@near",
        "a..near",
        "a_-b",
        "nEar",
        "_bowen",
        "hello world",
        "abcdefghijklmnopqrstuvwxyz.abcdefghijklmnopqrstuvwxyz.abcdefghijklmnopqrstuvwxyz",
        "01234567890123456789012345678901234567890123456789012345678901234",
        "\u{e9}t\u{e9}",
    ] {
        assert!(AccountId::try_from(id.to_string()).is_none(), "{}", id);
    }
}

#[test]
fn unchecked_account_ids_keep_their_text() {
    let id = AccountId::new_unchecked("Not Valid".to_string());
    assert_eq!(id.as_str(), "Not Valid");
    assert!(id == AccountId::new_unchecked("Not Valid".to_string()));
    assert!(id != AccountId::new_unchecked("not valid".to_string()));
    assert!(id.clone() == id);
}

#[test]
fn decimal_text_of_numbers() {
    assert_eq!(decimal_text(0), "0");
    assert_eq!(decimal_text(7), "7");
    assert_eq!(decimal_text(10), "10");
    assert_eq!(decimal_text(9999), "9999");
    assert_eq!(decimal_text(1234567890), "1234567890");
    assert_eq!(decimal_text(u64::MAX), "18446744073709551615");
}

#[test]
fn wallet_account_is_derived_from_salt_and_front() {
    let front = AccountId::new_unchecked("amm.near".to_string());
    assert_eq!(wallet_account_id(0, &front).as_str(), "wallet_0.amm.near");
    assert_eq!(wallet_account_id(4711, &front).as_str(), "wallet_4711.amm.near");
}
