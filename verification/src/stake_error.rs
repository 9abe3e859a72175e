//! Errors of the staking contract.
use crate::asset::{asset_name, AssetInfoValidated};
use crate::text::{
    admin_error_display, admin_error_text, coin_display, coin_text, concat, decimal, decimal_text,
    hook_error_display, hook_error_text, overflow_error_display, std_error_display, std_error_text,
    uint256_display, uint256_text, conversion_error_display,
};
use cosmwasm_std::{Coin, ConversionOverflowError, OverflowError, StdError, Uint256};
use cw_controllers::{AdminError, HookError};
use vstd::prelude::*;
use vstd::std_specs::cmp::{PartialEqSpec, PartialEqSpecImpl};
use vstd::std_specs::convert::FromSpecImpl;

verus! {

/// A reward curve that failed validation, described by its message.
#[derive(Clone, Debug, PartialEq, Eq)]
pub struct CurveError {
    pub message: String,
}

/// The staking contract's errors.  Two errors are equal when they are the
/// same variant, whatever their payloads.
#[derive(Debug)]
pub enum ContractError {
    Std(StdError),
    Admin(AdminError),
    Hook(HookError),
    Curve(CurveError),
    Unauthorized {},
    SameUnbondingRebond {},
    NoRebondAmount {},
    NothingToClaim {},
    Cw20AddressesNotMatch { got: String, expected: String },
    MassDelegateTooMuch { total: Uint256, amount_sent: Uint256 },
    NoFunds {},
    NoData {},
    NoUnbondingPeriodFound(u64),
    NoMembersToDistributeTo {},
    DistributionAlreadyExists(AssetInfoValidated),
    InvalidAsset {},
    NoDistributionFlow(Coin),
    TooManyDistributions(u32),
    ExistingStakes {},
    InvalidRewards {},
    ZeroRewardDuration {},
    NoConverter {},
    PastStartingTime {},
    FlagAlreadySet {},
    CannotDelegateIfUnbondAll {},
    CannotDistributeIfUnbondAll { what: String },
    CannotRebondIfUnbondAll {},
}

impl ContractError {
    /// The position of the error's variant in the declaration.
    pub open spec fn variant(&self) -> nat {
        match self {
            ContractError::Std(..) => 0,
            ContractError::Admin(..) => 1,
            ContractError::Hook(..) => 2,
            ContractError::Curve(..) => 3,
            ContractError::Unauthorized {} => 4,
            ContractError::SameUnbondingRebond {} => 5,
            ContractError::NoRebondAmount {} => 6,
            ContractError::NothingToClaim {} => 7,
            ContractError::Cw20AddressesNotMatch { .. } => 8,
            ContractError::MassDelegateTooMuch { .. } => 9,
            ContractError::NoFunds {} => 10,
            ContractError::NoData {} => 11,
            ContractError::NoUnbondingPeriodFound(..) => 12,
            ContractError::NoMembersToDistributeTo {} => 13,
            ContractError::DistributionAlreadyExists(..) => 14,
            ContractError::InvalidAsset {} => 15,
            ContractError::NoDistributionFlow(..) => 16,
            ContractError::TooManyDistributions(..) => 17,
            ContractError::ExistingStakes {} => 18,
            ContractError::InvalidRewards {} => 19,
            ContractError::ZeroRewardDuration {} => 20,
            ContractError::NoConverter {} => 21,
            ContractError::PastStartingTime {} => 22,
            ContractError::FlagAlreadySet {} => 23,
            ContractError::CannotDelegateIfUnbondAll {} => 24,
            ContractError::CannotDistributeIfUnbondAll { .. } => 25,
            ContractError::CannotRebondIfUnbondAll {} => 26,
        }
    }

    fn variant_index(&self) -> (index: u8)
        ensures
            index == self.variant(),
    {
        match self {
            ContractError::Std(..) => 0,
            ContractError::Admin(..) => 1,
            ContractError::Hook(..) => 2,
            ContractError::Curve(..) => 3,
            ContractError::Unauthorized {} => 4,
            ContractError::SameUnbondingRebond {} => 5,
            ContractError::NoRebondAmount {} => 6,
            ContractError::NothingToClaim {} => 7,
            ContractError::Cw20AddressesNotMatch { .. } => 8,
            ContractError::MassDelegateTooMuch { .. } => 9,
            ContractError::NoFunds {} => 10,
            ContractError::NoData {} => 11,
            ContractError::NoUnbondingPeriodFound(..) => 12,
            ContractError::NoMembersToDistributeTo {} => 13,
            ContractError::DistributionAlreadyExists(..) => 14,
            ContractError::InvalidAsset {} => 15,
            ContractError::NoDistributionFlow(..) => 16,
            ContractError::TooManyDistributions(..) => 17,
            ContractError::ExistingStakes {} => 18,
            ContractError::InvalidRewards {} => 19,
            ContractError::ZeroRewardDuration {} => 20,
            ContractError::NoConverter {} => 21,
            ContractError::PastStartingTime {} => 22,
            ContractError::FlagAlreadySet {} => 23,
            ContractError::CannotDelegateIfUnbondAll {} => 24,
            ContractError::CannotDistributeIfUnbondAll { .. } => 25,
            ContractError::CannotRebondIfUnbondAll {} => 26,
        }
    }
}

impl ContractError {
    /// The error's message, as the contract reports it.
    pub open spec fn message_text(&self) -> Seq<char> {
        match self {
            ContractError::Std(error) => std_error_display(*error),
            ContractError::Admin(error) => admin_error_display(*error),
            ContractError::Hook(error) => hook_error_display(*error),
            ContractError::Curve(error) => error.message@,
            ContractError::Unauthorized {} => "Unauthorized"@,
            ContractError::SameUnbondingRebond {} => "Cannot rebond to the same unbonding period"@,
            ContractError::NoRebondAmount {} => "Rebond amount is invalid"@,
            ContractError::NothingToClaim {} => "No claims that can be released currently"@,
            ContractError::Cw20AddressesNotMatch { got, expected } => "Sender's CW20 token contract address "@ + got@ + " does not match one from config "@
                    + expected@,
            ContractError::NoFunds {} => "No funds sent"@,
            ContractError::NoData {} => "No data in ReceiveMsg"@,
            ContractError::NoUnbondingPeriodFound(period) => "No unbonding period found: "@ + decimal(*period as nat),
            ContractError::NoMembersToDistributeTo {} => "No members to distribute tokens to"@,
            ContractError::DistributionAlreadyExists(info) => "There already is a distribution for "@ + asset_name(*info),
            ContractError::InvalidAsset {} => "Cannot distribute the staked token"@,
            ContractError::TooManyDistributions(limit) => "Cannot add more than "@ + decimal(*limit as nat) + " distributions"@,
            ContractError::ExistingStakes {} => "Cannot create new distribution after someone staked"@,
            ContractError::InvalidRewards {} => "Invalid distribution rewards"@,
            ContractError::ZeroRewardDuration {} => "No reward duration provided for rewards distribution"@,
            ContractError::NoConverter {} => "Cannot migrate stake without a converter contract"@,
            ContractError::PastStartingTime {} => "Fund distribution cannot start in the past."@,
            ContractError::FlagAlreadySet {} => "Unbond all flag is already set to true"@,
            ContractError::CannotDelegateIfUnbondAll {} => "Cannot delegate when unbond all flag is set to true"@,
            ContractError::CannotDistributeIfUnbondAll { what } => "Cannot distribute "@ + what@ + " when unbond all flag is set to true"@,
            ContractError::CannotRebondIfUnbondAll {} => "Cannot rebond when unbond all flag is set to true, unbond instead"@,
            ContractError::MassDelegateTooMuch { total, amount_sent } => "Trying to mass delegate "@
                + uint256_display(*total) + " tokens, but only sent "@ + uint256_display(*amount_sent)
                + "."@,
            ContractError::NoDistributionFlow(coin) => "No distribution flow for this token: "@
                + coin_display(*coin),
        }
    }

    /// The error's message, as the contract reports it.
    pub fn message(&self) -> (message: String)
        ensures
            message@ == self.message_text(),
    {
        match self {
            ContractError::Std(error) => std_error_text(error),
            ContractError::Admin(error) => admin_error_text(error),
            ContractError::Hook(error) => hook_error_text(error),
            ContractError::Curve(error) => error.message.clone(),
            ContractError::Unauthorized {} => "Unauthorized".to_owned(),
            ContractError::SameUnbondingRebond {} => "Cannot rebond to the same unbonding period".to_owned(),
            ContractError::NoRebondAmount {} => "Rebond amount is invalid".to_owned(),
            ContractError::NothingToClaim {} => "No claims that can be released currently".to_owned(),
            ContractError::Cw20AddressesNotMatch { got, expected } => {
                let head = concat("Sender's CW20 token contract address ", got.as_str());
                let middle = concat(head.as_str(), " does not match one from config ");
                concat(middle.as_str(), expected.as_str())
            },
            ContractError::MassDelegateTooMuch { total, amount_sent } => {
                let total_text = uint256_text(total);
                let sent_text = uint256_text(amount_sent);
                let head = concat("Trying to mass delegate ", total_text.as_str());
                let middle = concat(head.as_str(), " tokens, but only sent ");
                let tail = concat(middle.as_str(), sent_text.as_str());
                concat(tail.as_str(), ".")
            },
            ContractError::NoFunds {} => "No funds sent".to_owned(),
            ContractError::NoData {} => "No data in ReceiveMsg".to_owned(),
            ContractError::NoUnbondingPeriodFound(period) => {
                let period_text = decimal_text(*period);
                concat("No unbonding period found: ", period_text.as_str())
            },
            ContractError::NoMembersToDistributeTo {} => "No members to distribute tokens to".to_owned(),
            ContractError::DistributionAlreadyExists(info) => concat(
                "There already is a distribution for ",
                info.name().as_str(),
            ),
            ContractError::InvalidAsset {} => "Cannot distribute the staked token".to_owned(),
            ContractError::NoDistributionFlow(coin) => {
                let coin_text = coin_text(coin);
                concat("No distribution flow for this token: ", coin_text.as_str())
            },
            ContractError::TooManyDistributions(limit) => {
                let limit_text = decimal_text(*limit as u64);
                let head = concat("Cannot add more than ", limit_text.as_str());
                concat(head.as_str(), " distributions")
            },
            ContractError::ExistingStakes {} => "Cannot create new distribution after someone staked".to_owned(),
            ContractError::InvalidRewards {} => "Invalid distribution rewards".to_owned(),
            ContractError::ZeroRewardDuration {} => "No reward duration provided for rewards distribution".to_owned(),
            ContractError::NoConverter {} => "Cannot migrate stake without a converter contract".to_owned(),
            ContractError::PastStartingTime {} => "Fund distribution cannot start in the past.".to_owned(),
            ContractError::FlagAlreadySet {} => "Unbond all flag is already set to true".to_owned(),
            ContractError::CannotDelegateIfUnbondAll {} => "Cannot delegate when unbond all flag is set to true".to_owned(),
            ContractError::CannotDistributeIfUnbondAll { what } => {
                let head = concat("Cannot distribute ", what.as_str());
                concat(head.as_str(), " when unbond all flag is set to true")
            },
            ContractError::CannotRebondIfUnbondAll {} => "Cannot rebond when unbond all flag is set to true, unbond instead".to_owned(),
        }
    }
}

impl PartialEq for ContractError {
    fn eq(&self, other: &Self) -> (equal: bool) {
        self.variant_index() == other.variant_index()
    }
}

impl PartialEqSpecImpl for ContractError {
    open spec fn obeys_eq_spec() -> bool {
        true
    }

    open spec fn eq_spec(&self, other: &Self) -> bool {
        self.variant() == other.variant()
    }
}

impl From<StdError> for ContractError {
    fn from(source: StdError) -> (error: Self) {
        ContractError::Std(source)
    }
}

impl FromSpecImpl<StdError> for ContractError {
    open spec fn obeys_from_spec() -> bool {
        true
    }

    open spec fn from_spec(source: StdError) -> Self {
        ContractError::Std(source)
    }
}

impl From<AdminError> for ContractError {
    fn from(source: AdminError) -> (error: Self) {
        ContractError::Admin(source)
    }
}

impl FromSpecImpl<AdminError> for ContractError {
    open spec fn obeys_from_spec() -> bool {
        true
    }

    open spec fn from_spec(source: AdminError) -> Self {
        ContractError::Admin(source)
    }
}

impl From<HookError> for ContractError {
    fn from(source: HookError) -> (error: Self) {
        ContractError::Hook(source)
    }
}

impl FromSpecImpl<HookError> for ContractError {
    open spec fn obeys_from_spec() -> bool {
        true
    }

    open spec fn from_spec(source: HookError) -> Self {
        ContractError::Hook(source)
    }
}

impl From<CurveError> for ContractError {
    fn from(source: CurveError) -> (error: Self) {
        ContractError::Curve(source)
    }
}

impl FromSpecImpl<CurveError> for ContractError {
    open spec fn obeys_from_spec() -> bool {
        true
    }

    open spec fn from_spec(source: CurveError) -> Self {
        ContractError::Curve(source)
    }
}

/// Calls `StdError::from` on an arithmetic overflow.  Trusted: the standard
/// error is of kind `Overflow`, so its text is "kind: Overflow, error: "
/// followed by the overflow's text.  The backtrace it records is not stated.
#[verifier::external_body]
fn std_error_from_overflow(source: OverflowError) -> (error: StdError)
    ensures
        std_error_display(error) == "kind: Overflow, error: "@ + overflow_error_display(source),
{
    StdError::from(source)
}

/// Calls `StdError::from` on a failed integer conversion.  Trusted: the
/// standard error is of kind `Overflow`, so its text is "kind: Overflow,
/// error: " followed by the conversion error's text.  The backtrace it
/// records is not stated.
#[verifier::external_body]
fn std_error_from_conversion(source: ConversionOverflowError) -> (error: StdError)
    ensures
        std_error_display(error) == "kind: Overflow, error: "@ + conversion_error_display(source),
{
    StdError::from(source)
}

impl From<OverflowError> for ContractError {
    /// An overflow becomes a standard error of kind `Overflow`.
    fn from(source: OverflowError) -> (error: Self)
        ensures
            error is Std,
            error.message_text() == "kind: Overflow, error: "@ + overflow_error_display(source),
    {
        ContractError::Std(std_error_from_overflow(source))
    }
}

impl FromSpecImpl<OverflowError> for ContractError {
    /// The wrapped standard error is not a function of the overflow alone.
    open spec fn obeys_from_spec() -> bool {
        false
    }

    open spec fn from_spec(source: OverflowError) -> Self {
        ContractError::Std(arbitrary())
    }
}

impl From<ConversionOverflowError> for ContractError {
    /// A failed conversion becomes a standard error of kind `Overflow`.
    fn from(source: ConversionOverflowError) -> (error: Self)
        ensures
            error is Std,
            error.message_text() == "kind: Overflow, error: "@ + conversion_error_display(source),
    {
        ContractError::Std(std_error_from_conversion(source))
    }
}

impl FromSpecImpl<ConversionOverflowError> for ContractError {
    /// The wrapped standard error is not a function of the conversion error alone.
    open spec fn obeys_from_spec() -> bool {
        false
    }

    open spec fn from_spec(source: ConversionOverflowError) -> Self {
        ContractError::Std(arbitrary())
    }
}

/// Equality of staking errors is an equivalence that compares variants only:
/// it is reflexive, symmetric and transitive, and two errors of the same
/// variant are equal whatever they carry.
pub proof fn lemma_stake_error_eq_is_variant_equality(a: ContractError, b: ContractError, c: ContractError)
    ensures
        PartialEqSpec::eq_spec(&a, &a),
        PartialEqSpec::eq_spec(&a, &b) == PartialEqSpec::eq_spec(&b, &a),
        PartialEqSpec::eq_spec(&a, &b) && PartialEqSpec::eq_spec(&b, &c) ==> PartialEqSpec::eq_spec(&a, &c),
        PartialEqSpec::eq_spec(&a, &b) <==> a.variant() == b.variant(),
        (a is Std && b is Std) ==> PartialEqSpec::eq_spec(&a, &b),
        (a is Cw20AddressesNotMatch && b is Cw20AddressesNotMatch) ==> PartialEqSpec::eq_spec(&a, &b),
        (a is NoUnbondingPeriodFound && b is NoUnbondingPeriodFound) ==> PartialEqSpec::eq_spec(&a, &b),
        (a is NoConverter && b is NothingToClaim) ==> !PartialEqSpec::eq_spec(&a, &b),
{
}

/// Whether two staking errors are the same variant of the enum, whatever they
/// carry.
pub open spec fn same_variant(a: ContractError, b: ContractError) -> bool {
    ||| a is Std && b is Std
    ||| a is Admin && b is Admin
    ||| a is Hook && b is Hook
    ||| a is Curve && b is Curve
    ||| a is Unauthorized && b is Unauthorized
    ||| a is SameUnbondingRebond && b is SameUnbondingRebond
    ||| a is NoRebondAmount && b is NoRebondAmount
    ||| a is NothingToClaim && b is NothingToClaim
    ||| a is Cw20AddressesNotMatch && b is Cw20AddressesNotMatch
    ||| a is MassDelegateTooMuch && b is MassDelegateTooMuch
    ||| a is NoFunds && b is NoFunds
    ||| a is NoData && b is NoData
    ||| a is NoUnbondingPeriodFound && b is NoUnbondingPeriodFound
    ||| a is NoMembersToDistributeTo && b is NoMembersToDistributeTo
    ||| a is DistributionAlreadyExists && b is DistributionAlreadyExists
    ||| a is InvalidAsset && b is InvalidAsset
    ||| a is NoDistributionFlow && b is NoDistributionFlow
    ||| a is TooManyDistributions && b is TooManyDistributions
    ||| a is ExistingStakes && b is ExistingStakes
    ||| a is InvalidRewards && b is InvalidRewards
    ||| a is ZeroRewardDuration && b is ZeroRewardDuration
    ||| a is NoConverter && b is NoConverter
    ||| a is PastStartingTime && b is PastStartingTime
    ||| a is FlagAlreadySet && b is FlagAlreadySet
    ||| a is CannotDelegateIfUnbondAll && b is CannotDelegateIfUnbondAll
    ||| a is CannotDistributeIfUnbondAll && b is CannotDistributeIfUnbondAll
    ||| a is CannotRebondIfUnbondAll && b is CannotRebondIfUnbondAll
}

/// Two staking errors compare equal exactly when they are the same variant of
/// the enum: errors of different variants never compare equal, whatever they
/// carry, and errors of one variant always do.
pub proof fn lemma_stake_errors_equal_iff_same_variant(a: ContractError, b: ContractError)
    ensures
        PartialEqSpec::eq_spec(&a, &b) <==> same_variant(a, b),
        a.variant() == b.variant() <==> same_variant(a, b),
{
}

} // verus!
