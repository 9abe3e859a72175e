//! CosmWasm types that the library carries through unchanged, and the one
//! conversion into them that it makes.
use cosmwasm_std::{Coin, ConversionOverflowError, Decimal256, OverflowError, StdError, Uint256};
use cw_controllers::{AdminError, HookError};
use vstd::prelude::*;

verus! {

/// `StdError`, carried through unopened.
#[verifier::external_type_specification]
#[verifier::external_body]
pub struct ExStdError(StdError);

/// `OverflowError`, carried through unopened.
#[verifier::external_type_specification]
#[verifier::external_body]
pub struct ExOverflowError(OverflowError);

/// `ConversionOverflowError`, carried through unopened.
#[verifier::external_type_specification]
#[verifier::external_body]
pub struct ExConversionOverflowError(ConversionOverflowError);

/// `Decimal256`, carried through unopened.
#[verifier::external_type_specification]
#[verifier::external_body]
pub struct ExDecimal256(Decimal256);

/// `Uint256`, carried through unopened: amounts that may exceed `u128`.
#[verifier::external_type_specification]
#[verifier::external_body]
pub struct ExUint256(Uint256);

/// `Coin`, carried through unopened.
#[verifier::external_type_specification]
#[verifier::external_body]
pub struct ExCoin(Coin);

/// `AdminError`, carried through unopened.
#[verifier::external_type_specification]
#[verifier::external_body]
pub struct ExAdminError(AdminError);

/// `HookError`, carried through unopened.
#[verifier::external_type_specification]
#[verifier::external_body]
pub struct ExHookError(HookError);

/// `Uint256` is `Copy`: its derived `clone` hands back an identical amount.
pub assume_specification[ <Uint256 as Clone>::clone ](amount: &Uint256) -> (copy: Uint256)
    ensures
        copy == *amount,
;

/// The `Uint256` that `Uint256::from` makes of `value`: the same number,
/// held in 256 bits.
pub uninterp spec fn uint256_of(value: u128) -> Uint256;

/// Calls `Uint256::from(value)`.  Trusted: the result is `uint256_of(value)`,
/// the same number, so no other `u128` converts to it.
#[verifier::external_body]
pub(crate) fn uint256_from_u128(value: u128) -> (amount: Uint256)
    ensures
        amount == uint256_of(value),
        forall|other: u128| #[trigger] uint256_of(other) == amount ==> other == value,
{
    Uint256::from(value)
}

/// Whether `amount` fits in 128 bits: it is `uint256_of` of some `u128`.
pub open spec fn fits_u128(amount: Uint256) -> bool {
    exists|v: u128| #[trigger] uint256_of(v) == amount
}

/// Calls `Uint128::try_from(*amount)` and takes the `u128` out.  Trusted: it
/// succeeds exactly when the amount fits in 128 bits, that is when it is
/// `uint256_of` of some `u128`, and then gives that `u128`.
#[verifier::external_body]
pub(crate) fn uint256_to_u128(amount: &Uint256) -> (value: Option<u128>)
    ensures
        value matches Some(v) ==> *amount == uint256_of(v),
        value matches Some(v) ==> forall|other: u128| #[trigger] uint256_of(other) == *amount ==> other == v,
        value is None ==> forall|v: u128| #[trigger] uint256_of(v) != *amount,
{
    match cosmwasm_std::Uint128::try_from(*amount) {
        Ok(narrow) => Some(narrow.u128()),
        Err(_) => None,
    }
}

} // verus!
