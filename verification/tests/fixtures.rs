use cosmwasm_std::testing::{MockApi, MOCK_CONTRACT_ADDR};
use cosmwasm_std::Uint256;
use wyndex_test_helpers::fixtures::{
    default_accounts, default_addrs, factory_stake_config, pair_stake_config,
};

#[test]
fn default_addrs_are_made_and_mocked() {
    let api = MockApi::default();
    let addrs = default_addrs();
    assert_eq!(
        addrs,
        vec![
            api.addr_make("owner").to_string(),
            api.addr_make("factory").to_string(),
            api.addr_make("addr0000").to_string(),
            api.addr_make("addr0001").to_string(),
            MOCK_CONTRACT_ADDR.to_string(),
        ]
    );
}

#[test]
fn default_accounts_is_owner0000() {
    let accounts = default_accounts();
    assert_eq!(
        accounts[0],
        MockApi::default().addr_make("owner0000").to_string()
    );
}

#[test]
fn stake_configs() {
    let pair = pair_stake_config();
    assert_eq!(pair.staking_code_id, 11);
    assert_eq!(pair.tokens_per_power, Uint256::from(1000u128));
    assert_eq!(pair.min_bond, Uint256::from(1000u128));
    assert_eq!(pair.unbonding_periods, vec![604800]);
    assert_eq!(pair.max_distributions, 6);
    let factory = factory_stake_config();
    assert_eq!(factory.staking_code_id, 1234);
    assert_eq!(factory.tokens_per_power, Uint256::from(1000u128));
    assert_eq!(factory.min_bond, Uint256::from(1000u128));
    assert_eq!(factory.unbonding_periods, vec![1]);
    assert_eq!(factory.max_distributions, 6);
}

#[test]
fn default_addresses_have_the_bech32_form() {
    const CHARSET: &str = "qpzry9x8gf2tvdw0s3jn54khce6mua7l";
    for addr in default_addrs() {
        assert_eq!(addr.len(), 67);
        assert!(addr.starts_with("cosmwasm1"));
        assert!(addr[9..].chars().all(|c| CHARSET.contains(c)));
    }
}
