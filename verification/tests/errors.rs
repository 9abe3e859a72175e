use cosmwasm_std::{
    ConversionOverflowError, Decimal256, OverflowError, OverflowOperation, StdError, Uint256,
};
use wyndex_test_helpers::asset::AssetInfoValidated;
use wyndex_test_helpers::factory_error::ContractError as FactoryError;
use wyndex_test_helpers::stake_error::{ContractError as StakeError, CurveError};

#[test]
fn factory_errors_compare_by_variant() {
    assert_eq!(
        FactoryError::Std(StdError::msg("a")),
        FactoryError::Std(StdError::msg("b"))
    );
    assert_eq!(
        FactoryError::DepositRequired(Uint256::from(1u128), "x".to_string()),
        FactoryError::DepositRequired(Uint256::from(2u128), "y".to_string())
    );
    assert_eq!(
        FactoryError::InvalidReferralCommission(Decimal256::one()),
        FactoryError::InvalidReferralCommission(Decimal256::zero())
    );
    assert_eq!(FactoryError::Unauthorized {}, FactoryError::Unauthorized {});
    assert_ne!(FactoryError::Unauthorized {}, FactoryError::PairConfigDuplicate {});
    assert_ne!(FactoryError::NotPlaceholder, FactoryError::DepositNotSet {});
}

#[test]
fn factory_error_conversions() {
    let e: FactoryError = StdError::msg("boom").into();
    assert!(matches!(e, FactoryError::Std(_)));
    let e: FactoryError = ConversionOverflowError::new("Uint256", "Uint128").into();
    assert!(matches!(e, FactoryError::ConversionOverflowError(_)));
}

#[test]
fn stake_errors_compare_by_variant() {
    assert_eq!(
        StakeError::Cw20AddressesNotMatch {
            got: "a".to_string(),
            expected: "b".to_string()
        },
        StakeError::Cw20AddressesNotMatch {
            got: "c".to_string(),
            expected: "d".to_string()
        }
    );
    assert_eq!(
        StakeError::NoUnbondingPeriodFound(1),
        StakeError::NoUnbondingPeriodFound(2)
    );
    assert_eq!(
        StakeError::DistributionAlreadyExists(AssetInfoValidated::Native("juno".to_string())),
        StakeError::DistributionAlreadyExists(AssetInfoValidated::Token("t".to_string()))
    );
    assert_ne!(StakeError::NoConverter {}, StakeError::NothingToClaim {});
    assert_ne!(StakeError::NoFunds {}, StakeError::NoData {});
}

#[test]
fn stake_error_conversions() {
    let e: StakeError = OverflowError::new(OverflowOperation::Add).into();
    assert!(matches!(e, StakeError::Std(_)));
    let e: StakeError = ConversionOverflowError::new("Uint256", "Uint128").into();
    assert!(matches!(e, StakeError::Std(_)));
    let e: StakeError = CurveError {
        message: "not monotonic".to_string(),
    }
    .into();
    assert!(matches!(e, StakeError::Curve(_)));
    let e: StakeError = StdError::msg("x").into();
    assert_eq!(e, StakeError::Std(StdError::msg("y")));
}

#[test]
fn factory_error_messages() {
    assert_eq!(FactoryError::Unauthorized {}.message(), "Unauthorized");
    assert_eq!(
        FactoryError::PairConfigInvalidFeeBps {}.message(),
        "Fee bps in pair config must be smaller than or equal to 10,000"
    );
    assert_eq!(
        FactoryError::NotPlaceholder.message(),
        "Can only init upgrade from cw-placeholder"
    );
    assert_eq!(
        FactoryError::DepositRequired(Uint256::from(100u128), "ujuno".to_string()).message(),
        "Incorrect deposit: permissionless factory requires deposit as: 100ujuno"
    );
    assert_eq!(
        FactoryError::InvalidReferralCommission(Decimal256::percent(5)).message(),
        "Invalid referral commision: 0.05"
    );
    assert_eq!(
        FactoryError::Std(StdError::msg("boom")).message(),
        StdError::msg("boom").to_string()
    );
}

#[test]
fn stake_error_messages() {
    assert_eq!(StakeError::NoFunds {}.message(), "No funds sent");
    assert_eq!(
        StakeError::Cw20AddressesNotMatch { got: "a".to_string(), expected: "b".to_string() }.message(),
        "Sender's CW20 token contract address a does not match one from config b"
    );
    assert_eq!(
        StakeError::NoUnbondingPeriodFound(604800).message(),
        "No unbonding period found: 604800"
    );
    assert_eq!(StakeError::NoUnbondingPeriodFound(0).message(), "No unbonding period found: 0");
    assert_eq!(
        StakeError::TooManyDistributions(6).message(),
        "Cannot add more than 6 distributions"
    );
    assert_eq!(
        StakeError::DistributionAlreadyExists(AssetInfoValidated::Native("juno".to_string())).message(),
        "There already is a distribution for juno"
    );
    assert_eq!(
        StakeError::MassDelegateTooMuch { total: Uint256::from(10u128), amount_sent: Uint256::from(7u128) }.message(),
        "Trying to mass delegate 10 tokens, but only sent 7."
    );
    assert_eq!(
        StakeError::NoDistributionFlow(cosmwasm_std::coin(5, "juno")).message(),
        "No distribution flow for this token: 5juno"
    );
    assert_eq!(
        StakeError::CannotDistributeIfUnbondAll { what: "rewards".to_string() }.message(),
        "Cannot distribute rewards when unbond all flag is set to true"
    );
    assert_eq!(
        StakeError::Curve(CurveError { message: "not monotonic".to_string() }).message(),
        "not monotonic"
    );
    assert_eq!(
        StakeError::CannotRebondIfUnbondAll {}.message(),
        "Cannot rebond when unbond all flag is set to true, unbond instead"
    );
}

#[test]
fn overflows_become_standard_errors_of_kind_overflow() {
    let e: StakeError = OverflowError::new(OverflowOperation::Sub).into();
    assert_eq!(e.message(), "kind: Overflow, error: Cannot Sub with given operands");
    assert_eq!(
        e.message(),
        StdError::from(OverflowError::new(OverflowOperation::Sub)).to_string()
    );
    let e: StakeError = ConversionOverflowError::new("Uint256", "Uint128").into();
    assert_eq!(e.message(), "kind: Overflow, error: Error converting Uint256 to Uint128");
    let e: FactoryError = ConversionOverflowError::new("Uint256", "Uint128").into();
    assert_eq!(e.message(), "Error converting Uint256 to Uint128");
    assert_ne!(StakeError::from(OverflowError::new(OverflowOperation::Add)), StakeError::Unauthorized {});
}
