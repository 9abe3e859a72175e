//! Building blocks of the staking multi-test suite: the default unbonding
//! period, juno asset helpers, and the suite builder's configuration.
use crate::asset::{asset_name, AssetInfoValidated, AssetValidated};
use crate::accounts::{default_api, default_made_address, make_address};
use crate::cw_types::{fits_u128, uint256_from_u128, uint256_of, uint256_to_u128};
use cosmwasm_std::Uint256;
use vstd::prelude::*;

verus! {

/// The default unbonding period: seven days, in seconds.
pub const SEVEN_DAYS: u64 = 604800;

/// The denomination of the native staking coin.
pub const JUNO_DENOM: &'static str = "juno";

/// The unbonding period to use: the one given, or `SEVEN_DAYS` when none is.
pub fn unbonding_period_or_default(unbonding_period: Option<u64>) -> (period: u64)
    ensures
        period == match unbonding_period {
            Some(up) => up,
            None => SEVEN_DAYS,
        },
{
    if let Some(up) = unbonding_period {
        up
    } else {
        SEVEN_DAYS
    }
}

/// Whether `info` is the native juno coin.
pub open spec fn is_juno(info: AssetInfoValidated) -> bool {
    info matches AssetInfoValidated::Native(denom) && denom@ == JUNO_DENOM@
}

/// Rewards power held in juno: a single entry pairing juno with `amount`.
pub fn juno_power(amount: u128) -> (power: Vec<(AssetInfoValidated, u128)>)
    ensures
        power@.len() == 1,
        is_juno(power@[0].0),
        power@[0].1 == amount,
{
    let mut power: Vec<(AssetInfoValidated, u128)> = Vec::new();
    power.push((AssetInfoValidated::Native(JUNO_DENOM.to_owned()), amount));
    power
}

/// `amount` of the native juno coin.
pub fn juno(amount: u128) -> (asset: AssetValidated)
    ensures
        is_juno(asset.info),
        asset.amount == uint256_of(amount),
{
    AssetInfoValidated::Native(JUNO_DENOM.to_owned()).with_balance(uint256_from_u128(amount))
}

/// `amount` of the native coin `denom`.
pub fn native_token(denom: String, amount: u128) -> (asset: AssetValidated)
    ensures
        asset.info == AssetInfoValidated::Native(denom),
        asset.amount == uint256_of(amount),
{
    AssetInfoValidated::Native(denom).with_balance(uint256_from_u128(amount))
}

/// An initial cw20 balance: `amount` tokens held by `address`.
#[derive(Clone, Debug, PartialEq, Eq)]
pub struct Cw20Coin {
    pub address: String,
    pub amount: u128,
}

/// An amount of a native coin.
#[derive(Clone, Debug, PartialEq, Eq)]
pub struct NativeCoin {
    pub denom: String,
    pub amount: Uint256,
}

/// The configuration the staking suite is built from.
#[derive(Debug)]
pub struct SuiteBuilder {
    pub cw20_contract: String,
    pub tokens_per_power: Uint256,
    pub min_bond: Uint256,
    pub unbonding_periods: Vec<u64>,
    pub admin: Option<String>,
    pub unbonder: Option<String>,
    pub initial_balances: Vec<Cw20Coin>,
    pub native_balances: Vec<(String, NativeCoin)>,
}

/// The coins that `balances` gives to `addr`, in the order they are listed.
pub open spec fn coins_of(balances: Seq<(String, NativeCoin)>, addr: Seq<char>) -> Seq<NativeCoin>
    decreases balances.len(),
{
    if balances.len() == 0 {
        Seq::empty()
    } else {
        let earlier = coins_of(balances.drop_last(), addr);
        if balances.last().0@ == addr {
            earlier.push(balances.last().1)
        } else {
            earlier
        }
    }
}

/// Whether `addr` receives anything in `balances`.
pub open spec fn has_balance(balances: Seq<(String, NativeCoin)>, addr: Seq<char>) -> bool {
    exists|i: int| 0 <= i < balances.len() && #[trigger] balances[i].0@ == addr
}

/// `balances` grouped by address: each address that receives coins appears
/// once, with all of its coins in the order they were listed.
pub open spec fn is_grouping(balances: Seq<(String, NativeCoin)>, groups: Seq<(String, Vec<NativeCoin>)>) -> bool {
    &&& forall|i: int, j: int|
        0 <= i < groups.len() && 0 <= j < groups.len() && i != j ==> #[trigger] groups[i].0@
            != #[trigger] groups[j].0@
    &&& forall|i: int|
        0 <= i < groups.len() ==> has_balance(balances, #[trigger] groups[i].0@) && groups[i].1@
            == coins_of(balances, groups[i].0@)
    &&& forall|a: Seq<char>|
        has_balance(balances, a) ==> exists|i: int| 0 <= i < groups.len() && #[trigger] groups[i].0@ == a
}

proof fn lemma_coins_of_push(balances: Seq<(String, NativeCoin)>, entry: (String, NativeCoin), addr: Seq<char>)
    ensures
        coins_of(balances.push(entry), addr) == if entry.0@ == addr {
            coins_of(balances, addr).push(entry.1)
        } else {
            coins_of(balances, addr)
        },
{
    assert(balances.push(entry).drop_last() =~= balances);
}

impl SuiteBuilder {
    /// The default configuration: 1000 tokens per power, a minimum bond of
    /// 5000, one unbonding period of seven days, no admin, no unbonder and no
    /// initial balances.
    pub fn new() -> (builder: Self)
        ensures
            builder.cw20_contract@ == Seq::<char>::empty(),
            builder.tokens_per_power == uint256_of(1000),
            builder.min_bond == uint256_of(5000),
            builder.unbonding_periods@ == seq![SEVEN_DAYS],
            builder.admin is None,
            builder.unbonder is None,
            builder.initial_balances@.len() == 0,
            builder.native_balances@.len() == 0,
    {
        let mut unbonding_periods: Vec<u64> = Vec::new();
        unbonding_periods.push(SEVEN_DAYS);
        let builder = SuiteBuilder {
            cw20_contract: String::new(),
            tokens_per_power: uint256_from_u128(1000),
            min_bond: uint256_from_u128(5000),
            unbonding_periods,
            admin: None,
            unbonder: None,
            initial_balances: Vec::new(),
            native_balances: Vec::new(),
        };
        proof {
            assert(builder.unbonding_periods@ =~= seq![SEVEN_DAYS]);
        }
        builder
    }

    /// Adds a native balance of `denom` for each `(address, amount)`, after
    /// those already configured.
    pub fn with_native_balances(self, denom: &str, balances: Vec<(&String, u128)>) -> (builder: Self)
        ensures
            builder.native_balances@.len() == self.native_balances@.len() + balances@.len(),
            builder.native_balances@.take(self.native_balances@.len() as int)
                == self.native_balances@,
            forall|i: int|
                0 <= i < balances@.len() ==> {
                    let entry = #[trigger] builder.native_balances@[self.native_balances@.len() + i];
                    &&& entry.0 == *balances@[i].0
                    &&& entry.1.denom@ == denom@
                    &&& entry.1.amount == uint256_of(balances@[i].1)
                },
            builder.cw20_contract == self.cw20_contract,
            builder.tokens_per_power == self.tokens_per_power,
            builder.min_bond == self.min_bond,
            builder.unbonding_periods == self.unbonding_periods,
            builder.admin == self.admin,
            builder.unbonder == self.unbonder,
            builder.initial_balances == self.initial_balances,
    {
        let mut this = self;
        let ghost before = this.native_balances@;
        let n = balances.len();
        let mut i: usize = 0;
        while i < n
            invariant
                n == balances@.len(),
                i <= n,
                this.native_balances@.len() == before.len() + i,
                this.native_balances@.take(before.len() as int) == before,
                this.cw20_contract == self.cw20_contract,
                this.tokens_per_power == self.tokens_per_power,
                this.min_bond == self.min_bond,
                this.unbonding_periods == self.unbonding_periods,
                this.admin == self.admin,
                this.unbonder == self.unbonder,
                this.initial_balances == self.initial_balances,
                forall|k: int|
                    0 <= k < i ==> {
                        let entry = #[trigger] this.native_balances@[before.len() + k];
                        &&& entry.0 == *balances@[k].0
                        &&& entry.1.denom@ == denom@
                        &&& entry.1.amount == uint256_of(balances@[k].1)
                    },
            decreases n - i,
        {
            let (addr, amount) = balances[i];
            let ghost prev = this.native_balances@;
            this.native_balances.push((addr.clone(), NativeCoin { denom: denom.to_owned(), amount: uint256_from_u128(amount) }));
            proof {
                assert(this.native_balances@.take(before.len() as int) =~= prev.take(
                    before.len() as int,
                ));
                assert forall|k: int| 0 <= k < i + 1 implies {
                    let entry = #[trigger] this.native_balances@[before.len() + k];
                    &&& entry.0 == *balances@[k].0
                    &&& entry.1.denom@ == denom@
                    &&& entry.1.amount == uint256_of(balances@[k].1)
                } by {
                    if k < i {
                        assert(this.native_balances@[before.len() + k] == prev[before.len() + k]);
                    }
                }
            }
            i = i + 1;
        }
        this
    }

    /// Replaces the initial cw20 balances by one for each `(address, amount)`.
    pub fn with_initial_balances(self, balances: Vec<(&String, u128)>) -> (builder: Self)
        ensures
            builder.initial_balances@.len() == balances@.len(),
            forall|i: int|
                0 <= i < balances@.len() ==> (#[trigger] builder.initial_balances@[i]).address
                    == *balances@[i].0 && builder.initial_balances@[i].amount == balances@[i].1,
            builder.cw20_contract == self.cw20_contract,
            builder.tokens_per_power == self.tokens_per_power,
            builder.min_bond == self.min_bond,
            builder.unbonding_periods == self.unbonding_periods,
            builder.admin == self.admin,
            builder.unbonder == self.unbonder,
            builder.native_balances == self.native_balances,
    {
        let mut this = self;
        let mut initial_balances: Vec<Cw20Coin> = Vec::new();
        let n = balances.len();
        let mut i: usize = 0;
        while i < n
            invariant
                n == balances@.len(),
                i <= n,
                initial_balances@.len() == i,
                forall|k: int|
                    0 <= k < i ==> (#[trigger] initial_balances@[k]).address == *balances@[k].0
                        && initial_balances@[k].amount == balances@[k].1,
            decreases n - i,
        {
            let (address, amount) = balances[i];
            initial_balances.push(Cw20Coin { address: address.clone(), amount });
            i = i + 1;
        }
        this.initial_balances = initial_balances;
        this
    }

    /// Sets the minimum bond.
    pub fn with_min_bond(self, min_bond: u128) -> (builder: Self)
        ensures
            builder == (SuiteBuilder { min_bond: uint256_of(min_bond), ..self }),
    {
        let mut this = self;
        this.min_bond = uint256_from_u128(min_bond);
        this
    }

    /// Sets the number of tokens per unit of rewards power.
    pub fn with_tokens_per_power(self, tokens_per_power: u128) -> (builder: Self)
        ensures
            builder == (SuiteBuilder { tokens_per_power: uint256_of(tokens_per_power), ..self }),
    {
        let mut this = self;
        this.tokens_per_power = uint256_from_u128(tokens_per_power);
        this
    }

    /// Sets the admin of the staking contract.
    pub fn with_admin(self, admin: &String) -> (builder: Self)
        ensures
            builder == (SuiteBuilder { admin: Some(*admin), ..self }),
    {
        let mut this = self;
        this.admin = Some(admin.clone());
        this
    }

    /// Sets the account allowed to unbond everybody at once.
    pub fn with_unbonder(self, unbonder: &String) -> (builder: Self)
        ensures
            builder == (SuiteBuilder { unbonder: Some(*unbonder), ..self }),
    {
        let mut this = self;
        this.unbonder = Some(unbonder.clone());
        this
    }

    /// Replaces the unbonding periods.
    pub fn with_unbonding_periods(self, unbonding_periods: Vec<u64>) -> (builder: Self)
        ensures
            builder == (SuiteBuilder { unbonding_periods, ..self }),
    {
        let mut this = self;
        this.unbonding_periods = unbonding_periods;
        this
    }

    /// The native balances grouped by address, as the bank is seeded with
    /// them when the suite is built: one entry per address, holding all of
    /// that address's coins in the order they were added.
    pub fn native_balances_by_address(&self) -> (groups: Vec<(String, Vec<NativeCoin>)>)
        ensures
            is_grouping(self.native_balances@, groups@),
    {
        let balances = &self.native_balances;
        let n = balances.len();
        // The addresses that receive coins, each once, in order of first appearance.
        let mut addrs: Vec<String> = Vec::new();
        let mut i: usize = 0;
        while i < n
            invariant
                n == balances@.len(),
                i <= n,
                forall|p: int, q: int|
                    0 <= p < addrs@.len() && 0 <= q < addrs@.len() && p != q ==> #[trigger] addrs@[p]@
                        != #[trigger] addrs@[q]@,
                forall|p: int| 0 <= p < addrs@.len() ==> has_balance(balances@, #[trigger] addrs@[p]@),
                forall|k: int|
                    0 <= k < i ==> exists|p: int| 0 <= p < addrs@.len() && #[trigger] addrs@[p]@
                        == (#[trigger] balances@[k]).0@,
            decreases n - i,
        {
            let addr = &balances[i].0;
            let mut seen = false;
            let mut p: usize = 0;
            while p < addrs.len()
                invariant
                    p <= addrs@.len(),
                    seen ==> exists|q: int| 0 <= q < addrs@.len() && #[trigger] addrs@[q]@ == addr@,
                    !seen ==> forall|q: int| 0 <= q < p ==> #[trigger] addrs@[q]@ != addr@,
                decreases addrs@.len() - p,
            {
                if addrs[p] == *addr {
                    seen = true;
                }
                p = p + 1;
            }
            let ghost prev = addrs@;
            if !seen {
                addrs.push(addr.clone());
                proof {
                    assert(addrs@[prev.len() as int]@ == addr@);
                    assert forall|p: int, q: int|
                        0 <= p < addrs@.len() && 0 <= q < addrs@.len() && p != q implies #[trigger] addrs@[p]@
                            != #[trigger] addrs@[q]@ by {
                        if p < prev.len() && q < prev.len() {
                            assert(addrs@[p] == prev[p] && addrs@[q] == prev[q]);
                        } else if p == prev.len() {
                            assert(addrs@[q] == prev[q]);
                        } else {
                            assert(addrs@[p] == prev[p]);
                        }
                    }
                    assert forall|p: int| 0 <= p < addrs@.len() implies has_balance(
                        balances@,
                        #[trigger] addrs@[p]@,
                    ) by {
                        if p < prev.len() {
                            assert(addrs@[p] == prev[p]);
                        } else {
                            assert(balances@[i as int].0@ == addrs@[p]@);
                        }
                    }
                    assert forall|k: int| 0 <= k < i + 1 implies exists|p: int|
                        0 <= p < addrs@.len() && #[trigger] addrs@[p]@ == (#[trigger] balances@[k]).0@ by {
                        if k < i {
                            let p = choose|p: int| 0 <= p < prev.len() && #[trigger] prev[p]@ == balances@[k].0@;
                            assert(addrs@[p] == prev[p]);
                        } else {
                            assert(addrs@[prev.len() as int]@ == balances@[k].0@);
                        }
                    }
                }
            }
            i = i + 1;
        }
        // Each address with all of its coins.
        let mut groups: Vec<(String, Vec<NativeCoin>)> = Vec::new();
        let m = addrs.len();
        let mut a: usize = 0;
        while a < m
            invariant
                m == addrs@.len(),
                n == balances@.len(),
                a <= m,
                groups@.len() == a,
                forall|p: int, q: int|
                    0 <= p < addrs@.len() && 0 <= q < addrs@.len() && p != q ==> #[trigger] addrs@[p]@
                        != #[trigger] addrs@[q]@,
                forall|p: int| 0 <= p < addrs@.len() ==> has_balance(balances@, #[trigger] addrs@[p]@),
                forall|p: int|
                    0 <= p < a ==> (#[trigger] groups@[p]).0 == addrs@[p] && groups@[p].1@
                        == coins_of(balances@, addrs@[p]@),
            decreases m - a,
        {
            let addr = &addrs[a];
            let mut coins: Vec<NativeCoin> = Vec::new();
            let mut k: usize = 0;
            while k < n
                invariant
                    n == balances@.len(),
                    k <= n,
                    coins@ == coins_of(balances@.take(k as int), addr@),
                decreases n - k,
            {
                proof {
                    lemma_coins_of_push(balances@.take(k as int), balances@[k as int], addr@);
                    assert(balances@.take(k as int).push(balances@[k as int]) =~= balances@.take(
                        k + 1,
                    ));
                }
                if balances[k].0 == *addr {
                    let coin = &balances[k].1;
                    coins.push(NativeCoin { denom: coin.denom.clone(), amount: coin.amount });
                }
                k = k + 1;
            }
            proof {
                assert(balances@.take(n as int) =~= balances@);
            }
            groups.push((addr.clone(), coins));
            a = a + 1;
        }
        proof {
            assert forall|a: Seq<char>| has_balance(balances@, a) implies exists|i: int|
                0 <= i < groups@.len() && #[trigger] groups@[i].0@ == a by {
                let k = choose|k: int| 0 <= k < balances@.len() && #[trigger] balances@[k].0@ == a;
                let p = choose|p: int| 0 <= p < addrs@.len() && #[trigger] addrs@[p]@ == balances@[k].0@;
                assert(groups@[p].0@ == a);
            }
        }
        groups
    }
}

/// One step of handing rewards to the staking contract.
#[derive(Clone, Debug, PartialEq, Eq)]
pub enum DistributionStep {
    /// `from` sends `funds` to the staking contract.
    Transfer { from: String, funds: AssetValidated },
    /// `executor` asks the staking contract to distribute what it holds,
    /// naming `sender` as the one who funded it, if any.
    Distribute { executor: String, sender: Option<String> },
}

/// The steps of a reward distribution: when `funds` are given they are first
/// sent to the staking contract by `sender`, or by `executor` when there is no
/// sender; then `executor` triggers the distribution on `sender`'s behalf.
pub fn distribution_steps(executor: &String, sender: Option<&String>, funds: Option<AssetValidated>) -> (steps: Vec<DistributionStep>)
    ensures
        steps@.len() == if funds is Some { 2int } else { 1int },
        funds matches Some(f) ==> steps@[0] == (DistributionStep::Transfer {
            from: match sender {
                Some(s) => *s,
                None => *executor,
            },
            funds: f,
        }),
        steps@.last() == (DistributionStep::Distribute {
            executor: *executor,
            sender: match sender {
                Some(s) => Some(*s),
                None => None,
            },
        }),
{
    let mut steps: Vec<DistributionStep> = Vec::new();
    if let Some(f) = funds {
        let from = match sender {
            Some(s) => s.clone(),
            None => executor.clone(),
        };
        steps.push(DistributionStep::Transfer { from, funds: f });
    }
    let named = match sender {
        Some(s) => Some(s.clone()),
        None => None,
    };
    steps.push(DistributionStep::Distribute { executor: executor.clone(), sender: named });
    steps
}

/// The cw20 token contract that funds a distribution sent through the token
/// itself; only a token asset can be sent that way.
pub fn cw20_funding_token(funds: &AssetValidated) -> (token: Result<String, String>)
    ensures
        token is Ok <==> funds.info is Token,
        token matches Ok(addr) ==> funds.info == AssetInfoValidated::Token(addr),
        token matches Err(msg) ==> msg@ == "Only tokens are supported for cw20 distribution"@,
{
    match &funds.info {
        AssetInfoValidated::Token(addr) => Ok(addr.clone()),
        AssetInfoValidated::Native(_) => Err("Only tokens are supported for cw20 distribution".to_owned()),
    }
}

/// How a cw20 base token contract is instantiated: its instantiation message
/// (name, symbol, decimals, initial balances, minter without a cap, no
/// marketing), the label it is stored under and its admin, if any.
#[derive(Clone, Debug, PartialEq, Eq)]
pub struct TokenInstantiation {
    pub name: String,
    pub symbol: String,
    pub decimals: u8,
    pub initial_balances: Vec<Cw20Coin>,
    pub minter: String,
    pub label: String,
    pub admin: Option<String>,
}

/// How the staking contract is instantiated by the suite.
#[derive(Clone, Debug, PartialEq, Eq)]
pub struct StakeInstantiation {
    pub cw20_contract: String,
    pub tokens_per_power: Uint256,
    pub min_bond: Uint256,
    pub unbonding_periods: Vec<u64>,
    pub admin: Option<String>,
    pub unbonder: Option<String>,
    pub max_distributions: u32,
}

/// One initial balance per `(address, amount)`, in order.
pub open spec fn cw20_coins_of(balances: Seq<(&String, u128)>, coins: Seq<Cw20Coin>) -> bool {
    &&& coins.len() == balances.len()
    &&& forall|i: int|
        0 <= i < balances.len() ==> (#[trigger] coins[i]).address == *balances[i].0
            && coins[i].amount == balances[i].1
}

fn cw20_coins(balances: &[(&String, u128)]) -> (coins: Vec<Cw20Coin>)
    ensures
        cw20_coins_of(balances@, coins@),
{
    let mut coins: Vec<Cw20Coin> = Vec::new();
    let n = balances.len();
    let mut i: usize = 0;
    while i < n
        invariant
            n == balances@.len(),
            i <= n,
            cw20_coins_of(balances@.take(i as int), coins@),
        decreases n - i,
    {
        let (address, amount) = balances[i];
        coins.push(Cw20Coin { address: address.clone(), amount });
        proof {
            assert(balances@.take(i + 1)[i as int] == balances@[i as int]);
        }
        i = i + 1;
    }
    proof {
        assert(balances@.take(n as int) =~= balances@);
    }
    coins
}

/// The token that the suite's `instantiate_token` creates for `owner`: named,
/// labelled and symbolised `token_name`, with `decimals` decimals (6 when none
/// are given), one initial balance per `(address, amount)`, and `owner` as its
/// minter and its admin.
pub fn token_instantiation(owner: &String, token_name: &str, decimals: Option<u8>, balances: &[(&String, u128)]) -> (token: TokenInstantiation)
    ensures
        token.name@ == token_name@,
        token.symbol@ == token_name@,
        token.label@ == token_name@,
        token.decimals == match decimals {
            Some(d) => d,
            None => 6u8,
        },
        cw20_coins_of(balances@, token.initial_balances@),
        token.minter == *owner,
        token.admin == Some(*owner),
{
    let decimals = match decimals {
        Some(d) => d,
        None => 6,
    };
    TokenInstantiation {
        name: token_name.to_owned(),
        symbol: token_name.to_owned(),
        decimals,
        initial_balances: cw20_coins(balances),
        minter: owner.clone(),
        label: token_name.to_owned(),
        admin: Some(owner.clone()),
    }
}

impl SuiteBuilder {
    /// The vesting token the suite is built with: "vesting" ("VEST", 9
    /// decimals, labelled "vesting"), holding the configured initial
    /// balances, minted by the default mock api's `minter` account, with no
    /// admin.
    pub fn vesting_token(&self) -> (token: TokenInstantiation)
        ensures
            token.name@ == "vesting"@,
            token.symbol@ == "VEST"@,
            token.label@ == "vesting"@,
            token.decimals == 9,
            token.initial_balances@ == self.initial_balances@,
            token.minter@ == default_made_address("minter"@),
            token.admin is None,
    {
        let mut initial_balances: Vec<Cw20Coin> = Vec::new();
        let n = self.initial_balances.len();
        let mut i: usize = 0;
        while i < n
            invariant
                n == self.initial_balances@.len(),
                i <= n,
                initial_balances@ == self.initial_balances@.take(i as int),
            decreases n - i,
        {
            let coin = &self.initial_balances[i];
            initial_balances.push(Cw20Coin { address: coin.address.clone(), amount: coin.amount });
            proof {
                assert(self.initial_balances@.take(i + 1) =~= self.initial_balances@.take(
                    i as int,
                ).push(self.initial_balances@[i as int]));
            }
            i = i + 1;
        }
        proof {
            assert(self.initial_balances@.take(n as int) =~= self.initial_balances@);
        }
        let api = default_api();
        TokenInstantiation {
            name: "vesting".to_owned(),
            symbol: "VEST".to_owned(),
            decimals: 9,
            initial_balances,
            minter: make_address(&api, "minter"),
            label: "vesting".to_owned(),
            admin: None,
        }
    }

    /// The staking contract the suite is built with, over the token contract
    /// `token_contract`: the configured tokens per power, minimum bond,
    /// unbonding periods, admin and unbonder, and at most 6 distributions.
    pub fn stake_instantiation(&self, token_contract: String) -> (stake: StakeInstantiation)
        ensures
            stake.cw20_contract == token_contract,
            stake.tokens_per_power == self.tokens_per_power,
            stake.min_bond == self.min_bond,
            stake.unbonding_periods@ == self.unbonding_periods@,
            stake.admin == self.admin,
            stake.unbonder == self.unbonder,
            stake.max_distributions == 6,
    {
        let mut unbonding_periods: Vec<u64> = Vec::new();
        let n = self.unbonding_periods.len();
        let mut i: usize = 0;
        while i < n
            invariant
                n == self.unbonding_periods@.len(),
                i <= n,
                unbonding_periods@ == self.unbonding_periods@.take(i as int),
            decreases n - i,
        {
            unbonding_periods.push(self.unbonding_periods[i]);
            proof {
                assert(self.unbonding_periods@.take(i + 1) =~= self.unbonding_periods@.take(
                    i as int,
                ).push(self.unbonding_periods@[i as int]));
            }
            i = i + 1;
        }
        proof {
            assert(self.unbonding_periods@.take(n as int) =~= self.unbonding_periods@);
        }
        let admin = match &self.admin {
            Some(a) => Some(a.clone()),
            None => None,
        };
        let unbonder = match &self.unbonder {
            Some(u) => Some(u.clone()),
            None => None,
        };
        StakeInstantiation {
            cw20_contract: token_contract,
            tokens_per_power: self.tokens_per_power,
            min_bond: self.min_bond,
            unbonding_periods,
            admin,
            unbonder,
            max_distributions: 6,
        }
    }
}

/// The account the suite instantiates its contracts from: `admin`, made
/// with the default mock api.
pub fn suite_admin() -> (admin: String)
    ensures
        admin@ == default_made_address("admin"@),
{
    let api = default_api();
    make_address(&api, "admin")
}

/// A reward distribution's funding: when it starts, how long it lasts and
/// how much is distributed.
#[derive(Clone, Debug, PartialEq, Eq)]
pub struct FundingInfo {
    pub start_time: u64,
    pub distribution_duration: u64,
    pub amount: Uint256,
}

/// The funding and the coins sent with it when `funds` are distributed from
/// `start_time` on: over 100 seconds, the whole amount, sent as a coin of
/// the asset's name.
pub fn fund_distribution(start_time: u64, funds: &AssetValidated) -> (funding: (FundingInfo, NativeCoin))
    ensures
        funding.0 == (FundingInfo { start_time, distribution_duration: 100, amount: funds.amount }),
        funding.1.denom@ == asset_name(funds.info),
        funding.1.amount == funds.amount,
{
    let denom = funds.info.name().clone();
    (
        FundingInfo { start_time, distribution_duration: 100, amount: funds.amount },
        NativeCoin { denom, amount: funds.amount },
    )
}

/// The funding and the coin sent with it when `amount` of `denom` is
/// distributed from `start_time` on, over `distribution_duration` seconds.
pub fn fund_distribution_curve(start_time: u64, denom: String, amount: u128, distribution_duration: u64) -> (funding: (FundingInfo, NativeCoin))
    ensures
        funding.0 == (FundingInfo { start_time, distribution_duration, amount: uint256_of(amount) }),
        funding.1 == (NativeCoin { denom, amount: uint256_of(amount) }),
{
    let total = uint256_from_u128(amount);
    (FundingInfo { start_time, distribution_duration, amount: total }, NativeCoin { denom, amount: total })
}

/// The delegations of a mass delegation: each `(address, amount)` in order,
/// the amount held in 256 bits.
pub fn mass_delegations(delegate_to: &[(&String, u128)]) -> (delegations: Vec<(String, Uint256)>)
    ensures
        delegations@.len() == delegate_to@.len(),
        forall|i: int|
            0 <= i < delegate_to@.len() ==> (#[trigger] delegations@[i]).0 == *delegate_to@[i].0
                && delegations@[i].1 == uint256_of(delegate_to@[i].1),
{
    let mut delegations: Vec<(String, Uint256)> = Vec::new();
    let n = delegate_to.len();
    let mut i: usize = 0;
    while i < n
        invariant
            n == delegate_to@.len(),
            i <= n,
            delegations@.len() == i,
            forall|k: int|
                0 <= k < i ==> (#[trigger] delegations@[k]).0 == *delegate_to@[k].0
                    && delegations@[k].1 == uint256_of(delegate_to@[k].1),
        decreases n - i,
    {
        let (address, amount) = delegate_to[i];
        delegations.push((address.clone(), uint256_from_u128(amount)));
        i = i + 1;
    }
    delegations
}

/// The entries of `powers` whose power is not zero, in order.
pub open spec fn nonzero(powers: Seq<(AssetInfoValidated, u128)>) -> Seq<(AssetInfoValidated, u128)>
    decreases powers.len(),
{
    if powers.len() == 0 {
        Seq::empty()
    } else {
        let rest = nonzero(powers.drop_last());
        if powers.last().1 > 0 {
            rest.push(powers.last())
        } else {
            rest
        }
    }
}

/// The entries of `powers` with a positive power, in order.
pub open spec fn positive_powers(powers: Seq<(AssetInfoValidated, u128)>) -> Seq<(AssetInfoValidated, u128)> {
    powers.filter(|entry: (AssetInfoValidated, u128)| entry.1 > 0)
}

/// Reporting powers leaves out exactly the entries whose power is zero:
/// what is reported is `powers` filtered by a positive power, so an entry is
/// reported if and only if it is in `powers` with a positive power, and the
/// reported entries keep their order.
pub proof fn lemma_nonzero_drops_only_zero_powers(powers: Seq<(AssetInfoValidated, u128)>)
    ensures
        nonzero(powers) == positive_powers(powers),
        forall|entry: (AssetInfoValidated, u128)|
            #[trigger] nonzero(powers).contains(entry) <==> powers.contains(entry) && entry.1 > 0,
        nonzero(powers).len() <= powers.len(),
    decreases powers.len(),
{
    reveal(Seq::filter);
    if powers.len() > 0 {
        let before = powers.drop_last();
        let last = powers.last();
        lemma_nonzero_drops_only_zero_powers(before);
        assert(powers =~= before.push(last));
        assert forall|entry: (AssetInfoValidated, u128)|
            #[trigger] nonzero(powers).contains(entry) <==> powers.contains(entry) && entry.1 > 0 by {
            if powers.contains(entry) && entry.1 > 0 {
                let i = choose|i: int| 0 <= i < powers.len() && powers[i] == entry;
                if i < before.len() {
                    assert(before[i] == entry);
                    assert(nonzero(before).contains(entry));
                    if last.1 > 0 {
                        let j = choose|j: int| 0 <= j < nonzero(before).len() && nonzero(before)[j] == entry;
                        assert(nonzero(powers)[j] == entry);
                    }
                } else {
                    assert(nonzero(powers)[nonzero(powers).len() - 1] == entry);
                }
            }
            if nonzero(powers).contains(entry) {
                let j = choose|j: int| 0 <= j < nonzero(powers).len() && nonzero(powers)[j] == entry;
                if j < nonzero(before).len() {
                    assert(nonzero(before)[j] == entry);
                    assert(nonzero(before).contains(entry));
                    let i = choose|i: int| 0 <= i < before.len() && before[i] == entry;
                    assert(powers[i] == entry);
                } else {
                    assert(powers[powers.len() - 1] == entry);
                }
            }
        }
    }
}

/// `narrow` holds the assets of `powers` in order, each with its power in
/// 128 bits.
pub open spec fn narrowed(powers: Seq<(AssetInfoValidated, Uint256)>, narrow: Seq<(AssetInfoValidated, u128)>) -> bool {
    &&& narrow.len() == powers.len()
    &&& forall|i: int|
        0 <= i < powers.len() ==> (#[trigger] narrow[i]).0 == powers[i].0 && powers[i].1 == uint256_of(
            narrow[i].1,
        )
}

/// Rewards powers as the suite reports them: each power in 128 bits, and the
/// assets without power left out.  `None` when a power does not fit in 128
/// bits, where the suite's power queries panic.
pub fn nonzero_powers(powers: &[(AssetInfoValidated, Uint256)]) -> (reported: Option<Vec<(AssetInfoValidated, u128)>>)
    ensures
        reported is None <==> exists|i: int| 0 <= i < powers@.len() && !fits_u128(#[trigger] powers@[i].1),
        reported is Some ==> exists|narrow: Seq<(AssetInfoValidated, u128)>| #[trigger] narrowed(powers@, narrow),
        reported matches Some(out) ==> forall|narrow: Seq<(AssetInfoValidated, u128)>|
            #[trigger] narrowed(powers@, narrow) ==> out@ == nonzero(narrow),
        reported matches Some(out) ==> forall|narrow: Seq<(AssetInfoValidated, u128)>|
            #[trigger] narrowed(powers@, narrow) ==> out@ == positive_powers(narrow),
{
    let mut out: Vec<(AssetInfoValidated, u128)> = Vec::new();
    let ghost mut narrow: Seq<(AssetInfoValidated, u128)> = Seq::empty();
    let n = powers.len();
    let mut i: usize = 0;
    while i < n
        invariant
            n == powers@.len(),
            i <= n,
            narrowed(powers@.take(i as int), narrow),
            forall|k: int, other: u128|
                #![trigger uint256_of(other), powers@[k]]
                0 <= k < i && uint256_of(other) == powers@[k].1 ==> other == narrow[k].1,
            out@ == nonzero(narrow),
        decreases n - i,
    {
        let asset = &powers[i].0;
        let power = &powers[i].1;
        match uint256_to_u128(power) {
            Some(value) => {
                let ghost before = narrow;
                proof {
                    narrow = narrow.push((*asset, value));
                    assert(narrow.drop_last() =~= before);
                }
                if value > 0 {
                    out.push((asset.clone(), value));
                }
                proof {
                    assert forall|k: int| 0 <= k < i + 1 implies (#[trigger] narrow[k]).0
                        == powers@.take(i + 1)[k].0 && powers@.take(i + 1)[k].1 == uint256_of(
                        narrow[k].1,
                    ) by {
                        if k < i {
                            assert(narrow[k] == before[k]);
                            assert(powers@.take(i as int)[k] == powers@[k]);
                        }
                    }
                    assert forall|k: int, other: u128|
                        #![trigger uint256_of(other), powers@[k]]
                        0 <= k < i + 1 && uint256_of(other) == powers@[k].1 implies other
                        == narrow[k].1 by {
                        if k < i {
                            assert(narrow[k] == before[k]);
                        }
                    }
                }
            },
            None => {
                proof {
                    assert(!fits_u128(powers@[i as int].1));
                }
                return None;
            },
        }
        i = i + 1;
    }
    proof {
        assert(powers@.take(n as int) =~= powers@);
        assert forall|other_narrow: Seq<(AssetInfoValidated, u128)>|
            #[trigger] narrowed(powers@, other_narrow) implies out@ == nonzero(other_narrow) && out@ == positive_powers(other_narrow) by {
            assert forall|k: int| 0 <= k < n implies other_narrow[k] == narrow[k] by {
                assert(uint256_of(other_narrow[k].1) == powers@[k].1);
                assert(powers@.take(n as int)[k] == powers@[k]);
            }
            assert(other_narrow =~= narrow);
            lemma_nonzero_drops_only_zero_powers(other_narrow);
        }
        assert forall|j: int| 0 <= j < powers@.len() implies fits_u128(#[trigger] powers@[j].1) by {
            assert(powers@.take(n as int)[j] == powers@[j]);
            assert(uint256_of(narrow[j].1) == powers@[j].1);
        }
    }
    Some(out)
}

} // verus!
