//! Building error messages: appending to strings, integers in decimal, and
//! the messages of the CosmWasm values that errors carry.
use cosmwasm_std::{Coin, ConversionOverflowError, Decimal256, OverflowError, StdError, Uint256};
use cw_controllers::{AdminError, HookError};
use vstd::prelude::*;

verus! {

/// `String::push_str` appends `string` to the end of `s`.
pub assume_specification[ String::push_str ](s: &mut String, string: &str)
    ensures
        final(s)@ == old(s)@ + string@,
;

/// The decimal digit for `d`, below ten.
pub open spec fn digit(d: nat) -> char {
    "0123456789"@[d as int]
}

/// `n` written in decimal, without leading zeros.
pub open spec fn decimal(n: nat) -> Seq<char>
    decreases n,
{
    if n < 10 {
        seq![digit(n)]
    } else {
        decimal(n / 10).push(digit(n % 10))
    }
}

/// Calls `u64::to_string`.  Trusted: an integer displays in decimal, without
/// leading zeros.
#[verifier::external_body]
pub(crate) fn decimal_text(n: u64) -> (text: String)
    ensures
        text@ == decimal(n as nat),
{
    n.to_string()
}

/// `s` followed by `tail`.
pub(crate) fn concat(s: &str, tail: &str) -> (joined: String)
    ensures
        joined@ == s@ + tail@,
{
    let mut joined = s.to_owned();
    joined.push_str(tail);
    joined
}

/// The text `StdError` displays: its kind and its source error's text (the
/// backtrace it records is not shown).
pub uninterp spec fn std_error_display(error: StdError) -> Seq<char>;

/// The text `ConversionOverflowError` displays: "Error converting", the
/// source type, "to" and the target type.
pub uninterp spec fn conversion_error_display(error: ConversionOverflowError) -> Seq<char>;

/// The text `OverflowError` displays: "Cannot", the operation and "with
/// given operands".
pub uninterp spec fn overflow_error_display(error: OverflowError) -> Seq<char>;

/// The text cw-controllers' `AdminError` displays.
pub uninterp spec fn admin_error_display(error: AdminError) -> Seq<char>;

/// The text cw-controllers' `HookError` displays.
pub uninterp spec fn hook_error_display(error: HookError) -> Seq<char>;

/// The text `Uint256` displays: the amount in decimal.
pub uninterp spec fn uint256_display(amount: Uint256) -> Seq<char>;

/// The text `Decimal256` displays: the value in decimal, with a fractional
/// part only when it is not whole.
pub uninterp spec fn decimal256_display(value: Decimal256) -> Seq<char>;

/// The text `Coin` displays: its amount followed by its denomination.
pub uninterp spec fn coin_display(coin: Coin) -> Seq<char>;

/// Calls `StdError`'s `to_string`.  Trusted: the text is
/// `std_error_display(*error)`.
#[verifier::external_body]
pub(crate) fn std_error_text(error: &StdError) -> (text: String)
    ensures
        text@ == std_error_display(*error),
{
    error.to_string()
}

/// Calls `ConversionOverflowError`'s `to_string`.  Trusted: the text is
/// `conversion_error_display(*error)`.
#[verifier::external_body]
pub(crate) fn conversion_error_text(error: &ConversionOverflowError) -> (text: String)
    ensures
        text@ == conversion_error_display(*error),
{
    error.to_string()
}

/// Calls `AdminError`'s `to_string`.  Trusted: the text is
/// `admin_error_display(*error)`.
#[verifier::external_body]
pub(crate) fn admin_error_text(error: &AdminError) -> (text: String)
    ensures
        text@ == admin_error_display(*error),
{
    error.to_string()
}

/// Calls `HookError`'s `to_string`.  Trusted: the text is
/// `hook_error_display(*error)`.
#[verifier::external_body]
pub(crate) fn hook_error_text(error: &HookError) -> (text: String)
    ensures
        text@ == hook_error_display(*error),
{
    error.to_string()
}

/// Calls `Uint256`'s `to_string`.  Trusted: the text is
/// `uint256_display(*amount)`.
#[verifier::external_body]
pub(crate) fn uint256_text(amount: &Uint256) -> (text: String)
    ensures
        text@ == uint256_display(*amount),
{
    amount.to_string()
}

/// Calls `Decimal256`'s `to_string`.  Trusted: the text is
/// `decimal256_display(*value)`.
#[verifier::external_body]
pub(crate) fn decimal256_text(value: &Decimal256) -> (text: String)
    ensures
        text@ == decimal256_display(*value),
{
    value.to_string()
}

/// Calls `Coin`'s `to_string`.  Trusted: the text is `coin_display(*coin)`.
#[verifier::external_body]
pub(crate) fn coin_text(coin: &Coin) -> (text: String)
    ensures
        text@ == coin_display(*coin),
{
    coin.to_string()
}

} // verus!
