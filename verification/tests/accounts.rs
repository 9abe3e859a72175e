use cosmwasm_std::testing::MockApi;
use wyndex_test_helpers::accounts::TestAccounts;

fn made(label: &str) -> String {
    MockApi::default().addr_make(label).to_string()
}

#[test]
fn roles_are_made_from_their_names() {
    let a = TestAccounts::new(&MockApi::default());
    assert_eq!(a.owner, made("owner"));
    assert_eq!(a.user, made("user"));
    assert_eq!(a.whale, made("whale"));
    assert_eq!(a.trader, made("trader"));
    assert_eq!(a.beneficiary, made("beneficiary"));
    assert_eq!(a.fee_receiver, made("fee_receiver"));
    assert_ne!(a.owner, "owner");
    assert!(a.owner.starts_with("cosmwasm1"));
}

#[test]
fn roles_occupy_the_first_positions() {
    let a = TestAccounts::new(&MockApi::default());
    assert_eq!(a.len(), 6);
    assert!(!a.is_empty());
    assert_eq!(a[0], a.owner);
    assert_eq!(a[1], a.user);
    assert_eq!(a[2], a.whale);
    assert_eq!(a[3], a.trader);
    assert_eq!(a[4], a.beneficiary);
    assert_eq!(a[5], a.fee_receiver);
    assert_eq!(a["owner"], a.owner);
    assert_eq!(a["fee_receiver"], a.fee_receiver);
}

#[test]
fn addr_registers_a_new_label_once() {
    let mut a = TestAccounts::new(&MockApi::default());
    let pair = a.addr("pair0000");
    assert_eq!(pair, made("pair0000"));
    assert_eq!(a.len(), 7);
    let again = a.addr("pair0000");
    assert_eq!(again, pair);
    assert_eq!(a.len(), 7);
    assert_eq!(a[6], pair);
    assert_eq!(a["pair0000"], pair);
    let stake = a.addr("stake0000");
    assert_eq!(stake, made("stake0000"));
    assert_eq!(a.len(), 8);
    assert_eq!(a[6], pair);
    assert_eq!(a[7], stake);
}

#[test]
fn addr_of_a_role_adds_nothing() {
    let mut a = TestAccounts::new(&MockApi::default());
    let owner = a.addr("owner");
    assert_eq!(owner, a.owner);
    assert_eq!(a.len(), 6);
}

#[test]
fn default_uses_the_default_api() {
    let a = TestAccounts::default();
    let b = TestAccounts::new(&MockApi::default());
    assert_eq!(a.owner, b.owner);
    assert_eq!(a.fee_receiver, b.fee_receiver);
    assert_eq!(a.len(), 6);
}

#[test]
fn prefix_of_the_api_is_used() {
    let api = MockApi::default().with_prefix("juno");
    let mut a = TestAccounts::new(&api);
    assert_eq!(a.owner, api.addr_make("owner").to_string());
    assert!(a.owner.starts_with("juno1"));
    assert_eq!(a.addr("x"), api.addr_make("x").to_string());
}

#[test]
fn clone_keeps_the_accounts() {
    let mut a = TestAccounts::new(&MockApi::default());
    a.addr("extra");
    let b = a.clone();
    assert_eq!(b.len(), 7);
    assert_eq!(b[6], made("extra"));
}

#[test]
fn getters_give_the_named_fields() {
    let a = TestAccounts::default();
    assert_eq!(a.owner(), &a.owner);
    assert_eq!(a.user(), &a.user);
    assert_eq!(a.whale(), &a.whale);
    assert_eq!(a.trader(), &a.trader);
    assert_eq!(a.beneficiary(), &a.beneficiary);
    assert_eq!(a.fee_receiver(), &a.fee_receiver);
    assert_eq!(a.owner(), &made("owner"));
    assert_eq!(a.fee_receiver(), &made("fee_receiver"));
}

#[test]
fn len_counts_each_new_label_once() {
    let mut a = TestAccounts::default();
    for label in ["pair0000", "owner", "pair0001", "pair0000", "whale", "pair0001", "lp"] {
        a.addr(label);
    }
    assert_eq!(a.len(), 9);
    assert_eq!(a[6], made("pair0000"));
    assert_eq!(a[7], made("pair0001"));
    assert_eq!(a[8], made("lp"));
    assert_eq!(a["lp"], made("lp"));
    assert_eq!(a.owner, made("owner"));
}

#[test]
fn accounts_from_equal_apis_agree() {
    let mut a = TestAccounts::new(&MockApi::default());
    let mut b = TestAccounts::default();
    assert_eq!(a.addr("x"), b.addr("x"));
    assert_eq!(a.len(), b.len());
    for i in 0..a.len() {
        assert_eq!(a[i], b[i]);
    }
    assert_eq!(a.owner, b.owner);
    assert_eq!(a.fee_receiver, b.fee_receiver);
}

#[test]
fn checked_new_refuses_an_unusable_prefix() {
    let a = TestAccounts::checked_new(&MockApi::default()).expect("default prefix encodes");
    assert_eq!(a.owner, made("owner"));
    assert_eq!(a.len(), 6);
    assert!(TestAccounts::checked_new(&MockApi::default().with_prefix("")).is_none());
    assert!(TestAccounts::checked_new(&MockApi::default().with_prefix("has space")).is_none());
    let juno = TestAccounts::checked_new(&MockApi::default().with_prefix("juno")).expect("juno encodes");
    assert!(juno.owner.starts_with("juno1"));
}
