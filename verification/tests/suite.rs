use cosmwasm_std::Uint256;
use wyndex_test_helpers::asset::{AssetInfoValidated, AssetValidated};
use wyndex_test_helpers::suite::{
    cw20_funding_token, distribution_steps, fund_distribution, fund_distribution_curve, juno,
    juno_power, mass_delegations, native_token, nonzero_powers, suite_admin, token_instantiation,
    unbonding_period_or_default, Cw20Coin, DistributionStep, FundingInfo, NativeCoin,
    SuiteBuilder, JUNO_DENOM, SEVEN_DAYS,
};

#[test]
fn default_unbonding_period_is_seven_days() {
    assert_eq!(SEVEN_DAYS, 604800);
    assert_eq!(unbonding_period_or_default(None), SEVEN_DAYS);
    assert_eq!(unbonding_period_or_default(Some(100)), 100);
}

#[test]
fn juno_helpers() {
    assert_eq!(JUNO_DENOM, "juno");
    assert_eq!(
        juno_power(5),
        vec![(AssetInfoValidated::Native("juno".to_string()), 5)]
    );
    assert_eq!(
        juno(7),
        AssetValidated {
            info: AssetInfoValidated::Native("juno".to_string()),
            amount: Uint256::from(7u128)
        }
    );
    assert_eq!(
        native_token("uusd".to_string(), 9),
        AssetValidated {
            info: AssetInfoValidated::Native("uusd".to_string()),
            amount: Uint256::from(9u128)
        }
    );
    assert_eq!(
        AssetInfoValidated::Token("token".to_string()).with_balance(Uint256::from(3u128)),
        AssetValidated {
            info: AssetInfoValidated::Token("token".to_string()),
            amount: Uint256::from(3u128)
        }
    );
}

#[test]
fn builder_defaults() {
    let b = SuiteBuilder::new();
    assert_eq!(b.cw20_contract, "");
    assert_eq!(b.tokens_per_power, Uint256::from(1000u128));
    assert_eq!(b.min_bond, Uint256::from(5000u128));
    assert_eq!(b.unbonding_periods, vec![SEVEN_DAYS]);
    assert_eq!(b.admin, None);
    assert_eq!(b.unbonder, None);
    assert!(b.initial_balances.is_empty());
    assert!(b.native_balances.is_empty());
}

#[test]
fn builder_setters() {
    let admin = "admin".to_string();
    let unbonder = "unbonder".to_string();
    let b = SuiteBuilder::new()
        .with_min_bond(10)
        .with_tokens_per_power(20)
        .with_admin(&admin)
        .with_unbonder(&unbonder)
        .with_unbonding_periods(vec![1, 2, 3]);
    assert_eq!(b.min_bond, Uint256::from(10u128));
    assert_eq!(b.tokens_per_power, Uint256::from(20u128));
    assert_eq!(b.admin, Some(admin));
    assert_eq!(b.unbonder, Some(unbonder));
    assert_eq!(b.unbonding_periods, vec![1, 2, 3]);
}

#[test]
fn initial_balances_are_replaced() {
    let alice = "alice".to_string();
    let bob = "bob".to_string();
    let b = SuiteBuilder::new()
        .with_initial_balances(vec![(&alice, 1)])
        .with_initial_balances(vec![(&bob, 2), (&alice, 3)]);
    assert_eq!(
        b.initial_balances,
        vec![
            Cw20Coin {
                address: bob.clone(),
                amount: 2
            },
            Cw20Coin {
                address: alice.clone(),
                amount: 3
            }
        ]
    );
}

#[test]
fn native_balances_accumulate_and_group() {
    let alice = "alice".to_string();
    let bob = "bob".to_string();
    let b = SuiteBuilder::new()
        .with_native_balances("juno", vec![(&alice, 100), (&bob, 200)])
        .with_native_balances("uusd", vec![(&alice, 5)]);
    assert_eq!(b.native_balances.len(), 3);
    assert_eq!(
        b.native_balances[2],
        (
            alice.clone(),
            NativeCoin {
                denom: "uusd".to_string(),
                amount: Uint256::from(5u128)
            }
        )
    );
    let groups = b.native_balances_by_address();
    assert_eq!(groups.len(), 2);
    assert_eq!(
        groups[0],
        (
            alice.clone(),
            vec![
                NativeCoin {
                    denom: "juno".to_string(),
                    amount: Uint256::from(100u128)
                },
                NativeCoin {
                    denom: "uusd".to_string(),
                    amount: Uint256::from(5u128)
                }
            ]
        )
    );
    assert_eq!(
        groups[1],
        (
            bob.clone(),
            vec![NativeCoin {
                denom: "juno".to_string(),
                amount: Uint256::from(200u128)
            }]
        )
    );
}

#[test]
fn no_native_balances_no_groups() {
    assert!(SuiteBuilder::new().native_balances_by_address().is_empty());
}

#[test]
fn distribution_transfers_first_from_sender_or_executor() {
    let executor = "executor".to_string();
    let sender = "sender".to_string();
    let funds = AssetValidated { info: AssetInfoValidated::Native("juno".to_string()), amount: Uint256::from(100u128) };
    assert_eq!(
        distribution_steps(&executor, Some(&sender), Some(funds.clone())),
        vec![
            DistributionStep::Transfer { from: sender.clone(), funds: funds.clone() },
            DistributionStep::Distribute { executor: executor.clone(), sender: Some(sender.clone()) },
        ]
    );
    assert_eq!(
        distribution_steps(&executor, None, Some(funds.clone())),
        vec![
            DistributionStep::Transfer { from: executor.clone(), funds },
            DistributionStep::Distribute { executor: executor.clone(), sender: None },
        ]
    );
    assert_eq!(
        distribution_steps(&executor, Some(&sender), None),
        vec![DistributionStep::Distribute { executor: executor.clone(), sender: Some(sender) }]
    );
    assert_eq!(
        distribution_steps(&executor, None, None),
        vec![DistributionStep::Distribute { executor, sender: None }]
    );
}

#[test]
fn cw20_funding_needs_a_token() {
    let token = AssetValidated { info: AssetInfoValidated::Token("token0000".to_string()), amount: Uint256::from(5u128) };
    assert_eq!(cw20_funding_token(&token), Ok("token0000".to_string()));
    let native = AssetValidated { info: AssetInfoValidated::Native("juno".to_string()), amount: Uint256::from(5u128) };
    assert_eq!(
        cw20_funding_token(&native),
        Err("Only tokens are supported for cw20 distribution".to_string())
    );
}

fn made(label: &str) -> String {
    cosmwasm_std::testing::MockApi::default().addr_make(label).to_string()
}

#[test]
fn amounts_beyond_u128_are_carried_whole() {
    let huge = Uint256::MAX;
    let funds = AssetValidated { info: AssetInfoValidated::Token("token0000".to_string()), amount: huge };
    let executor = "executor".to_string();
    assert_eq!(
        distribution_steps(&executor, None, Some(funds.clone()))[0],
        DistributionStep::Transfer { from: executor.clone(), funds: funds.clone() }
    );
    let (funding, coin) = fund_distribution(42, &funds);
    assert_eq!(funding, FundingInfo { start_time: 42, distribution_duration: 100, amount: huge });
    assert_eq!(coin, NativeCoin { denom: "token0000".to_string(), amount: huge });
}

#[test]
fn fund_distribution_curve_converts_the_amount() {
    let (funding, coin) = fund_distribution_curve(7, "juno".to_string(), u128::MAX, 300);
    let amount = Uint256::from(u128::MAX);
    assert_eq!(funding, FundingInfo { start_time: 7, distribution_duration: 300, amount });
    assert_eq!(coin, NativeCoin { denom: "juno".to_string(), amount });
}

#[test]
fn mass_delegations_keep_order() {
    let a = "a".to_string();
    let b = "b".to_string();
    assert_eq!(
        mass_delegations(&[(&a, 1), (&b, 2)]),
        vec![(a.clone(), Uint256::from(1u128)), (b.clone(), Uint256::from(2u128))]
    );
    assert!(mass_delegations(&[]).is_empty());
}

#[test]
fn instantiate_token_defaults_to_six_decimals() {
    let owner = "owner".to_string();
    let alice = "alice".to_string();
    let token = token_instantiation(&owner, "wynd", None, &[(&alice, 10)]);
    assert_eq!(token.name, "wynd");
    assert_eq!(token.symbol, "wynd");
    assert_eq!(token.label, "wynd");
    assert_eq!(token.decimals, 6);
    assert_eq!(token.initial_balances, vec![Cw20Coin { address: alice.clone(), amount: 10 }]);
    assert_eq!(token.minter, owner);
    assert_eq!(token.admin, Some(owner.clone()));
    assert_eq!(token_instantiation(&owner, "wynd", Some(18), &[]).decimals, 18);
}

#[test]
fn builder_instantiates_vesting_token_and_stake() {
    let alice = "alice".to_string();
    let admin = "admin".to_string();
    let b = SuiteBuilder::new()
        .with_initial_balances(vec![(&alice, 3)])
        .with_admin(&admin)
        .with_unbonding_periods(vec![1, 2]);
    let token = b.vesting_token();
    assert_eq!(token.name, "vesting");
    assert_eq!(token.symbol, "VEST");
    assert_eq!(token.label, "vesting");
    assert_eq!(token.decimals, 9);
    assert_eq!(token.initial_balances, b.initial_balances);
    assert_eq!(token.minter, made("minter"));
    assert_eq!(token.admin, None);
    let stake = b.stake_instantiation("token".to_string());
    assert_eq!(stake.cw20_contract, "token");
    assert_eq!(stake.tokens_per_power, Uint256::from(1000u128));
    assert_eq!(stake.min_bond, Uint256::from(5000u128));
    assert_eq!(stake.unbonding_periods, vec![1, 2]);
    assert_eq!(stake.admin, Some(admin));
    assert_eq!(stake.unbonder, None);
    assert_eq!(stake.max_distributions, 6);
    assert_eq!(suite_admin(), made("admin"));
}

#[test]
fn powers_are_narrowed_and_zeros_dropped() {
    let juno = AssetInfoValidated::Native("juno".to_string());
    let wynd = AssetInfoValidated::Token("wynd".to_string());
    assert_eq!(
        nonzero_powers(&[
            (juno.clone(), Uint256::from(5u128)),
            (wynd.clone(), Uint256::zero()),
            (wynd.clone(), Uint256::from(u128::MAX)),
        ]),
        Some(vec![(juno.clone(), 5), (wynd.clone(), u128::MAX)])
    );
    assert_eq!(nonzero_powers(&[]), Some(vec![]));
    assert_eq!(nonzero_powers(&[(juno, Uint256::from(u128::MAX) + Uint256::one())]), None);
}
