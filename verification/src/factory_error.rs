//! Errors of the pair factory contract.
use cosmwasm_std::{ConversionOverflowError, Decimal256, StdError, Uint256};
use crate::text::{
    concat, conversion_error_display, conversion_error_text, decimal256_display, decimal256_text,
    std_error_display, std_error_text, uint256_display, uint256_text,
};
use vstd::prelude::*;
use vstd::std_specs::cmp::{PartialEqSpec, PartialEqSpecImpl};
use vstd::std_specs::convert::FromSpecImpl;

verus! {

/// The factory contract's errors.  Two errors are equal when they are the
/// same variant, whatever their payloads.
#[derive(Debug)]
pub enum ContractError {
    Std(StdError),
    ConversionOverflowError(ConversionOverflowError),
    InvalidTradingStart {},
    Unauthorized {},
    PairWasCreated {},
    PairWasRegistered {},
    PairConfigDuplicate {},
    PairConfigInvalidFeeBps {},
    PairConfigNotFound {},
    PairConfigDisabled {},
    DoublingAssets {},
    InvalidReferralCommission(Decimal256),
    NotPlaceholder,
    DepositNotSet {},
    DepositRequired(Uint256, String),
    PermissionlessRequiresDeposit {},
}

impl ContractError {
    /// The position of the error's variant in the declaration.
    pub open spec fn variant(&self) -> nat {
        match self {
            ContractError::Std(..) => 0,
            ContractError::ConversionOverflowError(..) => 1,
            ContractError::InvalidTradingStart {} => 2,
            ContractError::Unauthorized {} => 3,
            ContractError::PairWasCreated {} => 4,
            ContractError::PairWasRegistered {} => 5,
            ContractError::PairConfigDuplicate {} => 6,
            ContractError::PairConfigInvalidFeeBps {} => 7,
            ContractError::PairConfigNotFound {} => 8,
            ContractError::PairConfigDisabled {} => 9,
            ContractError::DoublingAssets {} => 10,
            ContractError::InvalidReferralCommission(..) => 11,
            ContractError::NotPlaceholder => 12,
            ContractError::DepositNotSet {} => 13,
            ContractError::DepositRequired(..) => 14,
            ContractError::PermissionlessRequiresDeposit {} => 15,
        }
    }

    fn variant_index(&self) -> (index: u8)
        ensures
            index == self.variant(),
    {
        match self {
            ContractError::Std(..) => 0,
            ContractError::ConversionOverflowError(..) => 1,
            ContractError::InvalidTradingStart {} => 2,
            ContractError::Unauthorized {} => 3,
            ContractError::PairWasCreated {} => 4,
            ContractError::PairWasRegistered {} => 5,
            ContractError::PairConfigDuplicate {} => 6,
            ContractError::PairConfigInvalidFeeBps {} => 7,
            ContractError::PairConfigNotFound {} => 8,
            ContractError::PairConfigDisabled {} => 9,
            ContractError::DoublingAssets {} => 10,
            ContractError::InvalidReferralCommission(..) => 11,
            ContractError::NotPlaceholder => 12,
            ContractError::DepositNotSet {} => 13,
            ContractError::DepositRequired(..) => 14,
            ContractError::PermissionlessRequiresDeposit {} => 15,
        }
    }
}

impl ContractError {
    /// The error's message, as the contract reports it.
    pub open spec fn message_text(&self) -> Seq<char> {
        match self {
            ContractError::Std(error) => std_error_display(*error),
            ContractError::ConversionOverflowError(error) => conversion_error_display(*error),
            ContractError::InvalidTradingStart {} => "Invalid value for trading start"@,
            ContractError::Unauthorized {} => "Unauthorized"@,
            ContractError::PairWasCreated {} => "Pair was already created"@,
            ContractError::PairWasRegistered {} => "Pair was already registered"@,
            ContractError::PairConfigDuplicate {} => "Duplicate of pair configs"@,
            ContractError::PairConfigInvalidFeeBps {} => "Fee bps in pair config must be smaller than or equal to 10,000"@,
            ContractError::PairConfigNotFound {} => "Pair config not found"@,
            ContractError::PairConfigDisabled {} => "Pair config disabled"@,
            ContractError::DoublingAssets {} => "Doubling assets in asset infos"@,
            ContractError::NotPlaceholder => "Can only init upgrade from cw-placeholder"@,
            ContractError::DepositNotSet {} => "Permissionless dex requires deposit to be set"@,
            ContractError::PermissionlessRequiresDeposit {} => "Factory is in permissionless mode: deposit must be sent to create new pair"@,
            ContractError::InvalidReferralCommission(commission) => "Invalid referral commision: "@
                + decimal256_display(*commission),
            ContractError::DepositRequired(amount, denom) =>
                "Incorrect deposit: permissionless factory requires deposit as: "@ + uint256_display(
                *amount,
            ) + denom@,
        }
    }

    /// The error's message, as the contract reports it.
    pub fn message(&self) -> (message: String)
        ensures
            message@ == self.message_text(),
    {
        match self {
            ContractError::Std(error) => std_error_text(error),
            ContractError::ConversionOverflowError(error) => conversion_error_text(error),
            ContractError::InvalidTradingStart {} => "Invalid value for trading start".to_owned(),
            ContractError::Unauthorized {} => "Unauthorized".to_owned(),
            ContractError::PairWasCreated {} => "Pair was already created".to_owned(),
            ContractError::PairWasRegistered {} => "Pair was already registered".to_owned(),
            ContractError::PairConfigDuplicate {} => "Duplicate of pair configs".to_owned(),
            ContractError::PairConfigInvalidFeeBps {} => "Fee bps in pair config must be smaller than or equal to 10,000".to_owned(),
            ContractError::PairConfigNotFound {} => "Pair config not found".to_owned(),
            ContractError::PairConfigDisabled {} => "Pair config disabled".to_owned(),
            ContractError::DoublingAssets {} => "Doubling assets in asset infos".to_owned(),
            ContractError::InvalidReferralCommission(commission) => {
                let commission_text = decimal256_text(commission);
                concat("Invalid referral commision: ", commission_text.as_str())
            },
            ContractError::NotPlaceholder => "Can only init upgrade from cw-placeholder".to_owned(),
            ContractError::DepositNotSet {} => "Permissionless dex requires deposit to be set".to_owned(),
            ContractError::DepositRequired(amount, denom) => {
                let amount_text = uint256_text(amount);
                let head = concat("Incorrect deposit: permissionless factory requires deposit as: ", amount_text.as_str());
                concat(head.as_str(), denom.as_str())
            },
            ContractError::PermissionlessRequiresDeposit {} => "Factory is in permissionless mode: deposit must be sent to create new pair".to_owned(),
        }
    }
}

impl PartialEq for ContractError {
    fn eq(&self, other: &Self) -> (equal: bool) {
        self.variant_index() == other.variant_index()
    }
}

impl PartialEqSpecImpl for ContractError {
    open spec fn obeys_eq_spec() -> bool {
        true
    }

    open spec fn eq_spec(&self, other: &Self) -> bool {
        self.variant() == other.variant()
    }
}

impl From<StdError> for ContractError {
    fn from(source: StdError) -> (error: Self) {
        ContractError::Std(source)
    }
}

impl FromSpecImpl<StdError> for ContractError {
    open spec fn obeys_from_spec() -> bool {
        true
    }

    open spec fn from_spec(source: StdError) -> Self {
        ContractError::Std(source)
    }
}

impl From<ConversionOverflowError> for ContractError {
    fn from(source: ConversionOverflowError) -> (error: Self) {
        ContractError::ConversionOverflowError(source)
    }
}

impl FromSpecImpl<ConversionOverflowError> for ContractError {
    open spec fn obeys_from_spec() -> bool {
        true
    }

    open spec fn from_spec(source: ConversionOverflowError) -> Self {
        ContractError::ConversionOverflowError(source)
    }
}

/// Equality of factory errors is an equivalence that compares variants only:
/// it is reflexive, symmetric and transitive, and two errors of the same
/// variant are equal whatever they carry.
pub proof fn lemma_factory_error_eq_is_variant_equality(a: ContractError, b: ContractError, c: ContractError)
    ensures
        PartialEqSpec::eq_spec(&a, &a),
        PartialEqSpec::eq_spec(&a, &b) == PartialEqSpec::eq_spec(&b, &a),
        PartialEqSpec::eq_spec(&a, &b) && PartialEqSpec::eq_spec(&b, &c) ==> PartialEqSpec::eq_spec(&a, &c),
        PartialEqSpec::eq_spec(&a, &b) <==> a.variant() == b.variant(),
        (a is Std && b is Std) ==> PartialEqSpec::eq_spec(&a, &b),
        (a is DepositRequired && b is DepositRequired) ==> PartialEqSpec::eq_spec(&a, &b),
        (a is InvalidReferralCommission && b is InvalidReferralCommission) ==> PartialEqSpec::eq_spec(&a, &b),
        (a is Unauthorized && b is PairConfigDuplicate) ==> !PartialEqSpec::eq_spec(&a, &b),
{
}

/// Whether two factory errors are the same variant of the enum, whatever they
/// carry.
pub open spec fn same_variant(a: ContractError, b: ContractError) -> bool {
    ||| a is Std && b is Std
    ||| a is ConversionOverflowError && b is ConversionOverflowError
    ||| a is InvalidTradingStart && b is InvalidTradingStart
    ||| a is Unauthorized && b is Unauthorized
    ||| a is PairWasCreated && b is PairWasCreated
    ||| a is PairWasRegistered && b is PairWasRegistered
    ||| a is PairConfigDuplicate && b is PairConfigDuplicate
    ||| a is PairConfigInvalidFeeBps && b is PairConfigInvalidFeeBps
    ||| a is PairConfigNotFound && b is PairConfigNotFound
    ||| a is PairConfigDisabled && b is PairConfigDisabled
    ||| a is DoublingAssets && b is DoublingAssets
    ||| a is InvalidReferralCommission && b is InvalidReferralCommission
    ||| a is NotPlaceholder && b is NotPlaceholder
    ||| a is DepositNotSet && b is DepositNotSet
    ||| a is DepositRequired && b is DepositRequired
    ||| a is PermissionlessRequiresDeposit && b is PermissionlessRequiresDeposit
}

/// Two factory errors compare equal exactly when they are the same variant of
/// the enum: errors of different variants never compare equal, whatever they
/// carry, and errors of one variant always do.
pub proof fn lemma_factory_errors_equal_iff_same_variant(a: ContractError, b: ContractError)
    ensures
        PartialEqSpec::eq_spec(&a, &b) <==> same_variant(a, b),
        a.variant() == b.variant() <==> same_variant(a, b),
{
}

} // verus!
