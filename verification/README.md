# wyndex-test-helpers

Test support for the Wyndex contracts, written in Verus: the logic is in
`src/` with contracts proved by the verifier, and `app/` holds the CosmWasm
glue that Verus does not see.

## Layout

- `src/accounts.rs` — `TestAccounts`: six named role accounts plus any label
  registered on demand, each address made by `MockApi::addr_make`;
  `checked_new` builds them from any api, or refuses an api whose prefix
  cannot encode addresses.  The
  proof `lemma_len_after_requests` gives the number of accounts after any
  sequence of `addr` calls, and `lemma_accounts_are_deterministic` that
  apis making the same addresses give the same accounts.
- `src/mock_querier.rs` — the pair tests' mock querier: token balances per
  contract and holder, total supplies, the fixed factory answers, the
  decoding of cw20 query messages from their JSON bytes and the JSON
  encoding of the token answers (through `cosmwasm_std::from_json` and
  `to_json_binary`).
- `src/assoc.rs` — string-keyed maps kept as entry vectors, and their sums.
- `src/factory_error.rs`, `src/stake_error.rs` — the contracts' errors and
  their messages; two errors are equal when they are the same variant.
- `src/text.rs` — string building for the messages, integers in decimal,
  and the texts of the CosmWasm values that messages show.
- `src/cw_types.rs` — the CosmWasm types carried through unopened, and the
  conversions of amounts between `u128` and `Uint256`.
- `src/suite.rs`, `src/asset.rs` — the staking suite builder's configuration,
  the juno asset helpers, and the suite's decisions: how the vesting token,
  the staking contract and further tokens are instantiated, the steps and
  funding of a reward distribution, mass delegations, the token that funds a
  cw20 distribution, and the rewards powers as the suite reports them.
- `src/pair_type.rs`, `src/fixtures.rs` — pair types, fixed test addresses
  and the tests' default staking configurations.
- `app/` — the `Querier` impl, the factory's query and reply shapes (serde
  copies), and the errors as `std::error::Error`s displayed with the
  library's messages.

## What is not here

The staking multi-test `Suite` itself drives a `cw-multi-test` `App` holding
the stake contract, a cw20 base token and the Wyndex message types.  Neither
the stake contract nor the Wyndex package is part of this crate's sources,
so the suite's message-sending methods have nothing to send to; what they
decide on their own (the default unbonding period, the order and payer of a
reward distribution, the token a cw20 distribution is sent through, the
grouping of native balances) is in `src/suite.rs`.
