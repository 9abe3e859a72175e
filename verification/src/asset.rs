//! Validated asset descriptions: a native denomination or a cw20 token
//! contract, optionally paired with an amount.
use cosmwasm_std::Uint256;
use vstd::prelude::*;

verus! {

/// A validated asset: either a native coin by its denomination, or a cw20
/// token by its contract address.
#[derive(Debug, PartialEq, Eq)]
pub enum AssetInfoValidated {
    Token(String),
    Native(String),
}

/// An amount of a validated asset.
#[derive(Clone, Debug, PartialEq, Eq)]
pub struct AssetValidated {
    pub info: AssetInfoValidated,
    pub amount: Uint256,
}

impl Clone for AssetInfoValidated {
    /// The same asset.
    fn clone(&self) -> (copy: Self)
        ensures
            copy == *self,
    {
        match self {
            AssetInfoValidated::Token(contract) => AssetInfoValidated::Token(contract.clone()),
            AssetInfoValidated::Native(denom) => AssetInfoValidated::Native(denom.clone()),
        }
    }
}

/// The name the asset goes by, as it is displayed: its denomination, or its
/// token contract's address.
pub open spec fn asset_name(info: AssetInfoValidated) -> Seq<char> {
    match info {
        AssetInfoValidated::Token(contract) => contract@,
        AssetInfoValidated::Native(denom) => denom@,
    }
}

impl AssetInfoValidated {
    /// The name the asset goes by: its denomination, or its token contract's
    /// address.
    pub fn name(&self) -> (name: &String)
        ensures
            name@ == asset_name(*self),
    {
        match self {
            AssetInfoValidated::Token(contract) => contract,
            AssetInfoValidated::Native(denom) => denom,
        }
    }

    /// Pairs this asset with `balance`.
    pub fn with_balance(self, balance: Uint256) -> (asset: AssetValidated)
        ensures
            asset.info == self,
            asset.amount == balance,
    {
        AssetValidated { info: self, amount: balance }
    }
}

} // verus!
