//! Fixed addresses that the factory and pair tests start from.
use crate::accounts::{default_api, default_made_address, is_default_address, make_address};
use crate::cw_types::{uint256_from_u128, uint256_of};
use cosmwasm_std::testing::MOCK_CONTRACT_ADDR;
use cosmwasm_std::Uint256;
use vstd::prelude::*;

verus! {

/// Reads `cosmwasm_std::testing::MOCK_CONTRACT_ADDR`, the address of the
/// contract under test in mocked environments.  Trusted: its value is the
/// literal below, as the crate's source defines it.
#[verifier::external_body]
fn mock_contract_addr() -> (addr: String)
    ensures
        addr@ == "cosmwasm1jpev2csrppg792t22rn8z8uew8h3sjcpglcd0qv9g8gj8ky922tscp8avs"@,
{
    MOCK_CONTRACT_ADDR.to_string()
}

/// The address of the mocked contract under test.
pub open spec fn spec_mock_contract_addr() -> Seq<char> {
    "cosmwasm1jpev2csrppg792t22rn8z8uew8h3sjcpglcd0qv9g8gj8ky922tscp8avs"@
}

/// The owner, factory and two user addresses made with the default mock api,
/// followed by the mocked contract's address.
pub fn default_addrs() -> (addrs: Vec<String>)
    ensures
        addrs@.len() == 5,
        addrs@[0]@ == default_made_address("owner"@),
        addrs@[1]@ == default_made_address("factory"@),
        addrs@[2]@ == default_made_address("addr0000"@),
        addrs@[3]@ == default_made_address("addr0001"@),
        addrs@[4]@ == spec_mock_contract_addr(),
        forall|i: int| 0 <= i < 4 ==> is_default_address(#[trigger] addrs@[i]@),
{
    let api = default_api();
    let mut addrs: Vec<String> = Vec::new();
    addrs.push(make_address(&api, "owner"));
    addrs.push(make_address(&api, "factory"));
    addrs.push(make_address(&api, "addr0000"));
    addrs.push(make_address(&api, "addr0001"));
    addrs.push(mock_contract_addr());
    addrs
}

/// The factory tests' single account: the address made from "owner0000"
/// with the default mock api.
pub fn default_accounts() -> (accounts: [String; 1])
    ensures
        accounts[0]@ == default_made_address("owner0000"@),
        is_default_address(accounts[0]@),
{
    let api = default_api();
    [make_address(&api, "owner0000")]
}

/// The staking configuration new pairs are created with, without a
/// converter.
#[derive(Clone, Debug, PartialEq, Eq)]
pub struct StakeConfig {
    pub staking_code_id: u64,
    pub tokens_per_power: Uint256,
    pub min_bond: Uint256,
    pub unbonding_periods: Vec<u64>,
    pub max_distributions: u32,
}

/// The pair tests' staking configuration: code 11, 1000 tokens per power, a
/// minimum bond of 1000, one unbonding period of a week, 6 distributions.
pub fn pair_stake_config() -> (config: StakeConfig)
    ensures
        config.staking_code_id == 11,
        config.tokens_per_power == uint256_of(1000),
        config.min_bond == uint256_of(1000),
        config.unbonding_periods@ == seq![604800u64],
        config.max_distributions == 6,
{
    let mut unbonding_periods: Vec<u64> = Vec::new();
    unbonding_periods.push(60 * 60 * 24 * 7);
    let config = StakeConfig {
        staking_code_id: 11,
        tokens_per_power: uint256_from_u128(1000),
        min_bond: uint256_from_u128(1000),
        unbonding_periods,
        max_distributions: 6,
    };
    proof {
        assert(config.unbonding_periods@ =~= seq![604800u64]);
    }
    config
}

/// The factory tests' staking configuration: code 1234, 1000 tokens per
/// power, a minimum bond of 1000, one unbonding period of one second, 6
/// distributions.
pub fn factory_stake_config() -> (config: StakeConfig)
    ensures
        config.staking_code_id == 1234,
        config.tokens_per_power == uint256_of(1000),
        config.min_bond == uint256_of(1000),
        config.unbonding_periods@ == seq![1u64],
        config.max_distributions == 6,
{
    let mut unbonding_periods: Vec<u64> = Vec::new();
    unbonding_periods.push(1);
    let config = StakeConfig {
        staking_code_id: 1234,
        tokens_per_power: uint256_from_u128(1000),
        min_bond: uint256_from_u128(1000),
        unbonding_periods,
        max_distributions: 6,
    };
    proof {
        assert(config.unbonding_periods@ =~= seq![1u64]);
    }
    config
}

} // verus!
