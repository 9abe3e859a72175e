//! Test support for the Wyndex contracts: named test accounts with
//! deterministic addresses, a mock querier for token and factory queries,
//! the factory's and the staking contract's errors, pair types, and the
//! staking suite builder's configuration.
pub mod accounts;
pub mod assoc;
pub mod asset;
pub mod cw_types;
pub mod factory_error;
pub mod fixtures;
pub mod mock_querier;
pub mod pair_type;
pub mod stake_error;
pub mod suite;
pub mod text;
