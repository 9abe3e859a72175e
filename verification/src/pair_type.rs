//! The kinds of liquidity pool a pair can be.
use vstd::prelude::*;

verus! {

/// The kind of a liquidity pool.
#[derive(Clone, Copy, Debug, PartialEq, Eq, Structural)]
pub enum PairType {
    /// Constant-product pool.
    Xyk {},
    /// Stableswap pool.
    Stable {},
    /// Pool for liquid-staking derivatives.
    Lsd {},
}

impl PairType {
    /// The name of the pair type as it is shown to users.
    pub open spec fn name(self) -> Seq<char> {
        match self {
            PairType::Xyk {} => "xyk"@,
            PairType::Stable {} => "stable"@,
            PairType::Lsd {} => "lsd"@,
        }
    }

    /// The pair type's name: "xyk", "stable" or "lsd".
    pub fn to_string(&self) -> (name: String)
        ensures
            name@ == self.name(),
    {
        match self {
            PairType::Xyk {} => "xyk".to_owned(),
            PairType::Stable {} => "stable".to_owned(),
            PairType::Lsd {} => "lsd".to_owned(),
        }
    }
}

/// Different pair types have different names, so a name identifies its type.
pub proof fn lemma_pair_type_names_distinct(a: PairType, b: PairType)
    ensures
        a.name() == b.name() <==> a == b,
{
    reveal_strlit("xyk");
    reveal_strlit("stable");
    reveal_strlit("lsd");
    if a != b {
        assert(a.name()[0] != b.name()[0] || a.name().len() != b.name().len());
    }
}

} // verus!
