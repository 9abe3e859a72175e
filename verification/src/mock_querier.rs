//! A mock querier for pair-contract tests: it answers cw20 token queries
//! from configured balances and factory queries with a fixed configuration,
//! and leaves every other query to the standard mock querier.
use crate::accounts::{default_made_address, is_default_address, TestAccounts};
use crate::assoc::{
    assoc, distinct_keys, find_key, lemma_assoc_dom, lemma_assoc_push, lemma_assoc_update,
    lemma_total_is_map_sum, lemma_total_prefix, map_sum, total,
};
use vstd::prelude::*;

verus! {

/// The balances of each holder, keyed by holder address.
pub open spec fn holders_map(holders: Seq<(String, u128)>) -> Map<Seq<char>, u128> {
    assoc(holders)
}

/// The balances that a list of `(token contract, holder balances)` entries
/// configures: entries are applied in order, so for a token or a holder
/// listed twice the later entry wins, and a token's later entry replaces its
/// earlier holders entirely.
pub open spec fn balances_map(entries: Seq<(String, Vec<(String, u128)>)>) -> Map<
    Seq<char>,
    Map<Seq<char>, u128>,
> {
    assoc(entries).map_values(|holders: Vec<(String, u128)>| holders_map(holders@))
}

/// No token and, within a token, no holder is listed twice.
pub open spec fn balances_wf(entries: Seq<(String, Vec<(String, u128)>)>) -> bool {
    &&& distinct_keys(entries)
    &&& forall|i: int| 0 <= i < entries.len() ==> distinct_keys(#[trigger] entries[i].1@)
}

proof fn lemma_balances_map_push(
    entries: Seq<(String, Vec<(String, u128)>)>,
    entry: (String, Vec<(String, u128)>),
)
    ensures
        balances_map(entries.push(entry)) == balances_map(entries).insert(
            entry.0@,
            holders_map(entry.1@),
        ),
{
    lemma_assoc_push(entries, entry);
    assert(balances_map(entries.push(entry)) =~= balances_map(entries).insert(
        entry.0@,
        holders_map(entry.1@),
    ));
}

/// The holders of one token: balances listed later override earlier ones.
fn holders_to_map(holders: &Vec<(String, u128)>) -> (map: Vec<(String, u128)>)
    ensures
        distinct_keys(map@),
        holders_map(map@) == holders_map(holders@),
{
    let mut map: Vec<(String, u128)> = Vec::new();
    let n = holders.len();
    let mut i: usize = 0;
    while i < n
        invariant
            n == holders@.len(),
            i <= n,
            distinct_keys(map@),
            assoc(map@) == assoc(holders@.take(i as int)),
        decreases n - i,
    {
        let holder = &holders[i].0;
        let balance = holders[i].1;
        proof {
            assert(holders@.take(i as int).push(holders@[i as int]) =~= holders@.take(i + 1));
            lemma_assoc_push(holders@.take(i as int), holders@[i as int]);
        }
        match find_key(&map, holder) {
            Some(pos) => {
                proof {
                    lemma_assoc_update(map@, pos as int, (*holder, balance));
                }
                map.set(pos, (holder.clone(), balance));
            },
            None => {
                let ghost old_map = map@;
                map.push((holder.clone(), balance));
                proof {
                    lemma_assoc_push(old_map, (*holder, balance));
                    assert forall|a: int, b: int|
                        0 <= a < map@.len() && 0 <= b < map@.len() && a != b implies #[trigger] map@[a].0@
                            != #[trigger] map@[b].0@ by {
                        if a < old_map.len() && b < old_map.len() {
                            assert(map@[a] == old_map[a] && map@[b] == old_map[b]);
                        } else if a < old_map.len() {
                            assert(map@[a] == old_map[a]);
                        } else {
                            assert(map@[b] == old_map[b]);
                        }
                    }
                }
            },
        }
        i = i + 1;
    }
    proof {
        assert(holders@.take(n as int) =~= holders@);
    }
    map
}

/// Turns `(token contract, holder balances)` entries into the balances table,
/// with later entries overriding earlier ones.
pub fn balances_to_map(balances: &[(String, Vec<(String, u128)>)]) -> (map: Vec<(String, Vec<(String, u128)>)>)
    ensures
        balances_wf(map@),
        balances_map(map@) == balances_map(balances@),
{
    let mut map: Vec<(String, Vec<(String, u128)>)> = Vec::new();
    let n = balances.len();
    let mut i: usize = 0;
    while i < n
        invariant
            n == balances@.len(),
            i <= n,
            balances_wf(map@),
            balances_map(map@) == balances_map(balances@.take(i as int)),
        decreases n - i,
    {
        let contract = &balances[i].0;
        let holders = holders_to_map(&balances[i].1);
        proof {
            assert(balances@.take(i as int).push(balances@[i as int]) =~= balances@.take(i + 1));
            lemma_balances_map_push(balances@.take(i as int), balances@[i as int]);
        }
        let ghost old_map = map@;
        let ghost entry = (*contract, holders);
        match find_key(&map, contract) {
            Some(pos) => {
                map.set(pos, (contract.clone(), holders));
                proof {
                    lemma_assoc_update(old_map, pos as int, entry);
                    assert(balances_map(map@) =~= balances_map(old_map).insert(
                        contract@,
                        holders_map(entry.1@),
                    ));
                    assert forall|k: int| 0 <= k < map@.len() implies distinct_keys(
                        #[trigger] map@[k].1@,
                    ) by {
                        if k != pos {
                            assert(map@[k] == old_map[k]);
                        }
                    }
                }
            },
            None => {
                map.push((contract.clone(), holders));
                proof {
                    lemma_balances_map_push(old_map, entry);
                    assert forall|a: int, b: int|
                        0 <= a < map@.len() && 0 <= b < map@.len() && a != b implies #[trigger] map@[a].0@
                            != #[trigger] map@[b].0@ by {
                        if a < old_map.len() && b < old_map.len() {
                            assert(map@[a] == old_map[a] && map@[b] == old_map[b]);
                        } else if a < old_map.len() {
                            assert(map@[a] == old_map[a]);
                        } else {
                            assert(map@[b] == old_map[b]);
                        }
                    }
                    assert forall|k: int| 0 <= k < map@.len() implies distinct_keys(
                        #[trigger] map@[k].1@,
                    ) by {
                        if k < old_map.len() {
                            assert(map@[k] == old_map[k]);
                        }
                    }
                }
            },
        }
        i = i + 1;
    }
    proof {
        assert(balances@.take(n as int) =~= balances@);
    }
    map
}

/// The sum of the balances, or `None` when it does not fit in a `u128`.
fn checked_total(holders: &Vec<(String, u128)>) -> (sum: Option<u128>)
    ensures
        sum matches Some(s) ==> s == total(holders@),
        sum is None <==> total(holders@) > u128::MAX,
{
    let n = holders.len();
    let mut acc: u128 = 0;
    let mut i: usize = 0;
    while i < n
        invariant
            n == holders@.len(),
            i <= n,
            acc == total(holders@.take(i as int)),
        decreases n - i,
    {
        proof {
            assert(holders@.take(i + 1).drop_last() =~= holders@.take(i as int));
            lemma_total_prefix(holders@, i + 1);
        }
        match acc.checked_add(holders[i].1) {
            Some(next) => {
                acc = next;
            },
            None => {
                return None;
            },
        }
        i = i + 1;
    }
    proof {
        assert(holders@.take(n as int) =~= holders@);
    }
    Some(acc)
}

/// Token balances by token contract, then by holder.
pub struct TokenQuerier {
    /// One entry per token contract, each with one entry per holder.
    balances: Vec<(String, Vec<(String, u128)>)>,
}

impl TokenQuerier {
    /// The configured balances: per token contract, per holder.
    pub closed spec fn balances(&self) -> Map<Seq<char>, Map<Seq<char>, u128>> {
        balances_map(self.balances@)
    }

    /// No token and, within a token, no holder is listed twice.
    #[verifier::type_invariant]
    spec fn inv(&self) -> bool {
        balances_wf(self.balances@)
    }

    /// A token querier holding the given balances, later entries overriding
    /// earlier ones.
    pub fn new(balances: &[(String, Vec<(String, u128)>)]) -> (querier: Self)
        ensures
            querier.balances() == balances_map(balances@),
    {
        TokenQuerier { balances: balances_to_map(balances) }
    }
}

impl Default for TokenQuerier {
    /// A token querier that knows no token.
    fn default() -> (querier: Self)
        ensures
            querier.balances() == Map::<Seq<char>, Map<Seq<char>, u128>>::empty(),
    {
        let querier = TokenQuerier { balances: Vec::new() };
        proof {
            assert(querier.balances() =~= Map::<Seq<char>, Map<Seq<char>, u128>>::empty());
        }
        querier
    }
}

/// A smart query, as decoded from its JSON message.
#[derive(Clone, Debug, PartialEq, Eq)]
pub enum SmartQuery {
    /// The factory's fee information for a pair type.
    FeeInfo,
    /// The factory's configuration.
    Config,
    /// A cw20 token's name, symbol, decimals and total supply.
    TokenInfo,
    /// A cw20 token's balance of `address`.
    Balance { address: String },
    /// Any other message.
    Unsupported,
}

/// A query as the mock querier tells queries apart.
#[derive(Clone, Debug, PartialEq, Eq)]
pub enum MockRequest {
    /// A smart query to the contract at `contract_addr`.
    Smart { contract_addr: String, query: SmartQuery },
    /// A raw storage read of the contract at `contract_addr`.
    Raw { contract_addr: String },
    /// Any other query (bank, staking, ...).
    Other,
}

/// The answer to a query.
#[derive(Clone, Debug, PartialEq, Eq)]
pub enum MockReply {
    /// The factory's fee information.
    FeeInfo { fee_address: String, total_fee_bps: u16, protocol_fee_bps: u16 },
    /// The factory's configuration, with no pair configurations; the maximal
    /// referral commission is given in units of 10^-18.
    Config {
        owner: String,
        fee_address: String,
        token_code_id: u64,
        max_referral_commission_atomics: u128,
        only_owner_can_create_pairs: bool,
        trading_starts: Option<u64>,
    },
    /// A token's information.
    TokenInfo { name: String, symbol: String, decimals: u8, total_supply: u128 },
    /// A holder's token balance.
    Balance { balance: u128 },
    /// The factory's (empty) list of addresses read from its raw storage.
    NoPairs,
    /// The system error `Unknown`: the token or the holder is not configured.
    Unknown,
    /// The query is left to the standard mock querier.
    Fallback,
}

/// The total fee in basis points that the mock factory reports.
pub const TOTAL_FEE_BPS: u16 = 30;

/// The protocol's share of the fee, in basis points, that the mock factory reports.
pub const PROTOCOL_FEE_BPS: u16 = 1660;

/// One, in the fixed-point units (10^-18) of a decimal.
pub const DECIMAL_ONE_ATOMICS: u128 = 1_000_000_000_000_000_000;

/// Answers token queries from configured balances and factory queries with a
/// fixed configuration.  The factory is the `beneficiary` test account, the
/// fee receiver the `fee_receiver` account, the owner the `owner` account.
pub struct WasmMockQuerier {
    token_querier: TokenQuerier,
    factory: String,
    fee_receiver: String,
    owner: String,
}

impl WasmMockQuerier {
    /// The configured token balances.
    pub closed spec fn token_balances(&self) -> Map<Seq<char>, Map<Seq<char>, u128>> {
        self.token_querier.balances()
    }

    /// The factory's address.
    pub closed spec fn factory_addr(&self) -> Seq<char> {
        self.factory@
    }

    /// The fee receiver's address.
    pub closed spec fn fee_address(&self) -> Seq<char> {
        self.fee_receiver@
    }

    /// The factory owner's address.
    pub closed spec fn owner(&self) -> Seq<char> {
        self.owner@
    }

    /// Whether the querier has an answer for `request`; on any other request
    /// the caller panics.  A factory query must ask for fee information or the
    /// configuration, a token query for token information (whose total supply
    /// must fit in a `u128`) or a balance, and a raw read must be of the factory.
    pub open spec fn answerable(&self, request: MockRequest) -> bool {
        match request {
            MockRequest::Smart { contract_addr, query } => if contract_addr@ == self.factory_addr() {
                query is FeeInfo || query is Config
            } else {
                match query {
                    SmartQuery::TokenInfo => self.token_balances().dom().contains(contract_addr@)
                        ==> map_sum(self.token_balances()[contract_addr@]) <= u128::MAX,
                    SmartQuery::Balance { .. } => true,
                    _ => false,
                }
            },
            MockRequest::Raw { contract_addr } => contract_addr@ == self.factory_addr(),
            MockRequest::Other => true,
        }
    }

    /// `reply` is the answer to `request`.
    pub open spec fn answers(&self, request: MockRequest, reply: MockReply) -> bool {
        match request {
            MockRequest::Smart { contract_addr, query } => if contract_addr@ == self.factory_addr() {
                match query {
                    SmartQuery::FeeInfo => reply matches MockReply::FeeInfo {
                        fee_address,
                        total_fee_bps,
                        protocol_fee_bps,
                    } && fee_address@ == self.fee_address() && total_fee_bps == TOTAL_FEE_BPS
                        && protocol_fee_bps == PROTOCOL_FEE_BPS,
                    SmartQuery::Config => reply matches MockReply::Config {
                        owner,
                        fee_address,
                        token_code_id,
                        max_referral_commission_atomics,
                        only_owner_can_create_pairs,
                        trading_starts,
                    } && owner@ == self.owner() && fee_address@ == self.fee_address()
                        && token_code_id == 0 && max_referral_commission_atomics
                        == DECIMAL_ONE_ATOMICS && only_owner_can_create_pairs && trading_starts is None,
                    _ => false,
                }
            } else {
                let token = contract_addr@;
                match query {
                    SmartQuery::TokenInfo => if self.token_balances().dom().contains(token) {
                        reply matches MockReply::TokenInfo { name, symbol, decimals, total_supply }
                            && name@ == "mAPPL"@ && symbol@ == "mAPPL"@ && decimals == 6
                            && total_supply == map_sum(self.token_balances()[token])
                    } else {
                        reply is Unknown
                    },
                    SmartQuery::Balance { address } => if self.token_balances().dom().contains(token)
                        && self.token_balances()[token].dom().contains(address@) {
                        reply == (MockReply::Balance {
                            balance: self.token_balances()[token][address@],
                        })
                    } else {
                        reply is Unknown
                    },
                    _ => false,
                }
            },
            MockRequest::Raw { contract_addr } => contract_addr@ == self.factory_addr()
                && reply is NoPairs,
            MockRequest::Other => reply is Fallback,
        }
    }

    /// What a token contract's answer must be, whatever else holds: a balance
    /// is reported only for a configured holder of a configured token, and is
    /// that holder's configured balance; any other balance query, and a token
    /// information query to a token without configured balances, fails with
    /// the `Unknown` system error; a configured token's information is
    /// "mAPPL" with 6 decimals and the sum of its configured balances as total
    /// supply.
    pub open spec fn token_reply_law(&self, request: MockRequest, reply: MockReply) -> bool {
        request matches MockRequest::Smart { contract_addr, query } ==> (contract_addr@
            != self.factory_addr() ==> {
            let token = contract_addr@;
            let configured = self.token_balances().dom().contains(token);
            &&& query matches SmartQuery::Balance { address } ==> {
                let held = configured && self.token_balances()[token].dom().contains(address@);
                &&& (reply is Balance <==> held)
                &&& (!held ==> reply is Unknown)
                &&& (reply matches MockReply::Balance { balance } ==> balance
                    == self.token_balances()[token][address@])
            }
            &&& (query is TokenInfo && !configured ==> reply is Unknown)
            &&& (query is TokenInfo && configured ==> (reply matches MockReply::TokenInfo {
                name,
                symbol,
                decimals,
                total_supply,
            } && name@ == "mAPPL"@ && symbol@ == "mAPPL"@ && decimals == 6 && total_supply
                == map_sum(self.token_balances()[token])))
        })
    }

    /// What the factory's answer must be: its fee information names the
    /// querier's fee receiver with a total fee of 30 and a protocol fee of
    /// 1660 basis points, and its configuration names the querier's owner as
    /// owner and its fee receiver as fee address, with token code 0, a maximum
    /// referral commission of one, pair creation for the owner only and no
    /// trading start.
    pub open spec fn factory_reply_law(&self, request: MockRequest, reply: MockReply) -> bool {
        request matches MockRequest::Smart { contract_addr, query } ==> (contract_addr@
            == self.factory_addr() ==> {
            &&& (query is FeeInfo ==> (reply matches MockReply::FeeInfo {
                fee_address,
                total_fee_bps,
                protocol_fee_bps,
            } && fee_address@ == self.fee_address() && total_fee_bps == 30 && protocol_fee_bps
                == 1660))
            &&& (query is Config ==> (reply matches MockReply::Config {
                owner,
                fee_address,
                token_code_id,
                max_referral_commission_atomics,
                only_owner_can_create_pairs,
                trading_starts,
            } && owner@ == self.owner() && fee_address@ == self.fee_address() && token_code_id == 0
                && max_referral_commission_atomics == 1_000_000_000_000_000_000
                && only_owner_can_create_pairs && trading_starts is None))
        })
    }

    /// A querier with no token balances, whose factory, fee receiver and
    /// owner are the test accounts made with the default mock api.
    pub fn new() -> (querier: Self)
        ensures
            querier.token_balances() == Map::<Seq<char>, Map<Seq<char>, u128>>::empty(),
            querier.owner() == default_made_address("owner"@),
            querier.factory_addr() == default_made_address("beneficiary"@),
            querier.fee_address() == default_made_address("fee_receiver"@),
            is_default_address(querier.owner()),
            is_default_address(querier.factory_addr()),
            is_default_address(querier.fee_address()),
    {
        let accounts = TestAccounts::default();
        let owner = accounts[0].clone();
        let factory = accounts[4].clone();
        let fee_receiver = accounts[5].clone();
        WasmMockQuerier { token_querier: TokenQuerier::default(), factory, fee_receiver, owner }
    }

    /// Replaces the token balances by the given ones, later entries
    /// overriding earlier ones.
    pub fn with_token_balances(&mut self, balances: &[(String, Vec<(String, u128)>)])
        ensures
            final(self).token_balances() == balances_map(balances@),
            final(self).factory_addr() == old(self).factory_addr(),
            final(self).fee_address() == old(self).fee_address(),
            final(self).owner() == old(self).owner(),
    {
        self.token_querier = TokenQuerier::new(balances);
    }

    /// Whether `request` is one the querier answers; the caller checks this
    /// before `handle_query`, whose `requires` shuts out every other request.
    pub fn can_answer(&self, request: &MockRequest) -> (answerable: bool)
        ensures
            answerable == self.answerable(*request),
    {
        proof {
            use_type_invariant(&self.token_querier);
        }
        match request {
            MockRequest::Smart { contract_addr, query } => {
                if *contract_addr == self.factory {
                    match query {
                        SmartQuery::FeeInfo => true,
                        SmartQuery::Config => true,
                        _ => false,
                    }
                } else {
                    match query {
                        SmartQuery::TokenInfo => match find_key(
                            &self.token_querier.balances,
                            contract_addr,
                        ) {
                            Some(pos) => {
                                let holders = &self.token_querier.balances[pos].1;
                                proof {
                                    self.lemma_token_entry(pos as int);
                                }
                                checked_total(holders).is_some()
                            },
                            None => {
                                proof {
                                    lemma_assoc_dom(self.token_querier.balances@);
                                }
                                true
                            },
                        },
                        SmartQuery::Balance { .. } => true,
                        _ => false,
                    }
                }
            },
            MockRequest::Raw { contract_addr } => *contract_addr == self.factory,
            MockRequest::Other => true,
        }
    }

    proof fn lemma_token_entry(&self, pos: int)
        requires
            balances_wf(self.token_querier.balances@),
            0 <= pos < self.token_querier.balances@.len(),
        ensures
            self.token_balances().dom().contains(self.token_querier.balances@[pos].0@),
            self.token_balances()[self.token_querier.balances@[pos].0@] == holders_map(
                self.token_querier.balances@[pos].1@,
            ),
            map_sum(holders_map(self.token_querier.balances@[pos].1@)) == total(
                self.token_querier.balances@[pos].1@,
            ),
    {
        let entries = self.token_querier.balances@;
        crate::assoc::lemma_assoc_at(entries, pos);
        lemma_total_is_map_sum(entries[pos].1@);
    }

    /// Answers `request`: fee information and configuration for the factory,
    /// token information and balances for any other contract, the empty list
    /// for a raw read of the factory, and the standard mock for the rest.
    pub fn handle_query(&self, request: &MockRequest) -> (reply: MockReply)
        requires
            self.answerable(*request),
        ensures
            self.answers(*request, reply),
            self.token_reply_law(*request, reply),
            self.factory_reply_law(*request, reply),
    {
        proof {
            use_type_invariant(&self.token_querier);
        }
        match request {
            MockRequest::Smart { contract_addr, query } => {
                if *contract_addr == self.factory {
                    match query {
                        SmartQuery::FeeInfo => MockReply::FeeInfo {
                            fee_address: self.fee_receiver.clone(),
                            total_fee_bps: TOTAL_FEE_BPS,
                            protocol_fee_bps: PROTOCOL_FEE_BPS,
                        },
                        _ => MockReply::Config {
                            owner: self.owner.clone(),
                            fee_address: self.fee_receiver.clone(),
                            token_code_id: 0,
                            max_referral_commission_atomics: DECIMAL_ONE_ATOMICS,
                            only_owner_can_create_pairs: true,
                            trading_starts: None,
                        },
                    }
                } else {
                    let entries = &self.token_querier.balances;
                    match find_key(entries, contract_addr) {
                        None => {
                            proof {
                                lemma_assoc_dom(entries@);
                            }
                            MockReply::Unknown
                        },
                        Some(pos) => {
                            let holders = &entries[pos].1;
                            proof {
                                self.lemma_token_entry(pos as int);
                            }
                            match query {
                                SmartQuery::Balance { address } => match find_key(holders, address) {
                                    Some(h) => {
                                        proof {
                                            crate::assoc::lemma_assoc_at(holders@, h as int);
                                        }
                                        MockReply::Balance { balance: holders[h].1 }
                                    },
                                    None => {
                                        proof {
                                            lemma_assoc_dom(holders@);
                                        }
                                        MockReply::Unknown
                                    },
                                },
                                _ => {
                                    let total_supply = match checked_total(holders) {
                                        Some(t) => t,
                                        None => 0,
                                    };
                                    MockReply::TokenInfo {
                                        name: "mAPPL".to_owned(),
                                        symbol: "mAPPL".to_owned(),
                                        decimals: 6,
                                        total_supply,
                                    }
                                },
                            }
                        },
                    }
                }
            },
            MockRequest::Raw { .. } => MockReply::NoPairs,
            MockRequest::Other => MockReply::Fallback,
        }
    }
}

/// Configuring balances applies the entries in order: the last entry for a
/// token decides that token's holders, and within it the last entry for a
/// holder decides that holder's balance.
pub proof fn lemma_later_entries_win(
    entries: Seq<(String, Vec<(String, u128)>)>,
    entry: (String, Vec<(String, u128)>),
    holders: Seq<(String, u128)>,
    holder: (String, u128),
)
    ensures
        balances_map(entries.push(entry)).dom().contains(entry.0@),
        balances_map(entries.push(entry))[entry.0@] == holders_map(entry.1@),
        holders_map(holders.push(holder)).dom().contains(holder.0@),
        holders_map(holders.push(holder))[holder.0@] == holder.1,
{
    lemma_balances_map_push(entries, entry);
    lemma_assoc_push(holders, holder);
}

/// After `with_token_balances`, a balance query for a configured holder of a
/// configured token (other than the factory) is answered with the configured
/// balance, and a token information query with the sum of the token's
/// configured balances.
pub proof fn lemma_configured_balances_are_answered(
    querier: WasmMockQuerier,
    balances: Seq<(String, Vec<(String, u128)>)>,
    token: String,
    holder: String,
    balance_reply: MockReply,
    info_reply: MockReply,
)
    requires
        querier.token_balances() == balances_map(balances),
        token@ != querier.factory_addr(),
        balances_map(balances).dom().contains(token@),
        querier.answers(
            MockRequest::Smart { contract_addr: token, query: SmartQuery::Balance { address: holder } },
            balance_reply,
        ),
        querier.answers(
            MockRequest::Smart { contract_addr: token, query: SmartQuery::TokenInfo },
            info_reply,
        ),
    ensures
        balances_map(balances)[token@].dom().contains(holder@) ==> balance_reply == (
        MockReply::Balance { balance: balances_map(balances)[token@][holder@] }),
        !balances_map(balances)[token@].dom().contains(holder@) ==> balance_reply is Unknown,
        info_reply matches MockReply::TokenInfo { total_supply, .. } && total_supply == map_sum(
            balances_map(balances)[token@],
        ),
{
}

/// Every answer of the querier obeys its laws: a balance only for a
/// configured holder of a configured token, `Unknown` for any other token
/// query about a missing token or holder, and the factory's answers naming
/// the querier's owner and fee receiver.
pub proof fn lemma_answers_obey_the_laws(querier: WasmMockQuerier, request: MockRequest, reply: MockReply)
    requires
        querier.answers(request, reply),
    ensures
        querier.token_reply_law(request, reply),
        querier.factory_reply_law(request, reply),
{
}

/// Encoding hands the factory's answers on unchanged, keeps the `Unknown`
/// error and the fallback as they are, and turns balances, token
/// information and the empty pair list into the JSON of exactly those
/// values.
pub proof fn lemma_encoding_keeps_factory_replies(reply: MockReply, encoded: EncodedReply)
    requires
        encodes(reply, encoded),
    ensures
        (reply is FeeInfo || reply is Config) ==> encoded == EncodedReply::Factory(reply),
        reply is Unknown ==> encoded is Unknown,
        reply is Fallback ==> encoded is Fallback,
        reply matches MockReply::Balance { balance } ==> (encoded matches EncodedReply::Json(json)
            && json_view(json) == balance_json(balance)),
        reply matches MockReply::TokenInfo { name, symbol, decimals, total_supply } ==> (
        encoded matches EncodedReply::Json(json) && json_view(json) == token_info_json(
            name@,
            symbol@,
            decimals,
            total_supply,
        )),
        reply is NoPairs ==> (encoded matches EncodedReply::Json(json) && json_view(json)
            == addr_list_json(Seq::empty())),
{
}

/// The cw20 query that `msg` decodes to as JSON, told apart by kind: token
/// information, a balance, or another cw20 query; `None` when `msg` is not
/// a cw20 query.
pub uninterp spec fn cw20_query_of(msg: Seq<u8>) -> Option<SmartQuery>;

/// The JSON encoding of cw20's `TokenInfoResponse` with these fields, or the
/// message of the error that encoding gives.
pub uninterp spec fn token_info_json(name: Seq<char>, symbol: Seq<char>, decimals: u8, total_supply: u128) -> Result<Seq<u8>, Seq<char>>;

/// The JSON encoding of cw20's `BalanceResponse` for `balance`, or the
/// message of the error that encoding gives.
pub uninterp spec fn balance_json(balance: u128) -> Result<Seq<u8>, Seq<char>>;

/// The JSON encoding of the list of addresses `addrs`, or the message of the
/// error that encoding gives.
pub uninterp spec fn addr_list_json(addrs: Seq<Seq<char>>) -> Result<Seq<u8>, Seq<char>>;

/// The bytes, or the error message, of an encoding result.
pub open spec fn json_view(json: Result<Vec<u8>, String>) -> Result<Seq<u8>, Seq<char>> {
    match json {
        Ok(bytes) => Ok(bytes@),
        Err(message) => Err(message@),
    }
}

/// Calls `cosmwasm_std::from_json::<cw20::Cw20QueryMsg>(msg)` and tells the
/// decoded query apart by kind.  Trusted: the result is `cw20_query_of(msg)`,
/// and it is never a factory query.
#[verifier::external_body]
fn decode_cw20_query(msg: &[u8]) -> (query: Option<SmartQuery>)
    ensures
        query == cw20_query_of(msg@),
        query matches Some(q) ==> !(q is FeeInfo) && !(q is Config),
{
    match cosmwasm_std::from_json::<cw20::Cw20QueryMsg>(msg) {
        Ok(cw20::Cw20QueryMsg::Balance { address }) => Some(SmartQuery::Balance { address }),
        Ok(cw20::Cw20QueryMsg::TokenInfo {}) => Some(SmartQuery::TokenInfo),
        Ok(cw20::Cw20QueryMsg::Allowance { .. }) => Some(SmartQuery::Unsupported),
        Ok(cw20::Cw20QueryMsg::Minter {}) => Some(SmartQuery::Unsupported),
        Ok(cw20::Cw20QueryMsg::MarketingInfo {}) => Some(SmartQuery::Unsupported),
        Ok(cw20::Cw20QueryMsg::DownloadLogo {}) => Some(SmartQuery::Unsupported),
        Ok(cw20::Cw20QueryMsg::AllAllowances { .. }) => Some(SmartQuery::Unsupported),
        Ok(cw20::Cw20QueryMsg::AllAccounts { .. }) => Some(SmartQuery::Unsupported),
        Err(_) => None,
    }
}

/// Calls `cosmwasm_std::to_json_binary` on cw20's `TokenInfoResponse`.
/// Trusted: the result is `token_info_json` of the fields.
#[verifier::external_body]
fn encode_token_info(name: &String, symbol: &String, decimals: u8, total_supply: u128) -> (json: Result<Vec<u8>, String>)
    ensures
        json_view(json) == token_info_json(name@, symbol@, decimals, total_supply),
{
    let response = cw20::TokenInfoResponse {
        name: name.clone(),
        symbol: symbol.clone(),
        decimals,
        total_supply: total_supply.into(),
    };
    match cosmwasm_std::to_json_binary(&response) {
        Ok(binary) => Ok(binary.to_vec()),
        Err(error) => Err(error.to_string()),
    }
}

/// Calls `cosmwasm_std::to_json_binary` on cw20's `BalanceResponse`.
/// Trusted: the result is `balance_json(balance)`.
#[verifier::external_body]
fn encode_balance(balance: u128) -> (json: Result<Vec<u8>, String>)
    ensures
        json_view(json) == balance_json(balance),
{
    match cosmwasm_std::to_json_binary(&cw20::BalanceResponse { balance: balance.into() }) {
        Ok(binary) => Ok(binary.to_vec()),
        Err(error) => Err(error.to_string()),
    }
}

/// Calls `cosmwasm_std::to_json_binary` on the addresses as a list of `Addr`.
/// Trusted: the result is `addr_list_json` of the addresses.
#[verifier::external_body]
fn encode_addr_list(addrs: &Vec<String>) -> (json: Result<Vec<u8>, String>)
    ensures
        json_view(json) == addr_list_json(addrs@.map_values(|a: String| a@)),
{
    let list: Vec<cosmwasm_std::Addr> = addrs.iter().map(|a| cosmwasm_std::Addr::unchecked(a.clone())).collect();
    match cosmwasm_std::to_json_binary(&list) {
        Ok(binary) => Ok(binary.to_vec()),
        Err(error) => Err(error.to_string()),
    }
}

/// A reply as the querier hands it back.
#[derive(Debug, PartialEq, Eq)]
pub enum EncodedReply {
    /// A contract's answer: its JSON bytes, or the message of the error that
    /// encoding gave.
    Json(Result<Vec<u8>, String>),
    /// The system error `Unknown`.
    Unknown,
    /// A factory answer, which the caller encodes in the factory's message shapes.
    Factory(MockReply),
    /// The query is left to the standard mock querier.
    Fallback,
}

/// `encoded` is how `reply` is handed back: token information, balances and
/// the empty address list as JSON, `Unknown` as the system error, factory
/// answers and fallbacks as they are.
pub open spec fn encodes(reply: MockReply, encoded: EncodedReply) -> bool {
    match reply {
        MockReply::TokenInfo { name, symbol, decimals, total_supply } => encoded matches EncodedReply::Json(
            json,
        ) && json_view(json) == token_info_json(name@, symbol@, decimals, total_supply),
        MockReply::Balance { balance } => encoded matches EncodedReply::Json(json) && json_view(json)
            == balance_json(balance),
        MockReply::NoPairs => encoded matches EncodedReply::Json(json) && json_view(json)
            == addr_list_json(Seq::empty()),
        MockReply::Unknown => encoded is Unknown,
        MockReply::Fallback => encoded is Fallback,
        _ => encoded == EncodedReply::Factory(reply),
    }
}

/// Encodes a reply: token information, balances and the empty address list
/// as JSON; the factory's answers are handed on for their own encoding.
pub fn encode_reply(reply: MockReply) -> (encoded: EncodedReply)
    ensures
        encodes(reply, encoded),
        (reply is FeeInfo || reply is Config) ==> encoded == EncodedReply::Factory(reply),
        reply is Unknown ==> encoded is Unknown,
        reply is Fallback ==> encoded is Fallback,
        reply matches MockReply::Balance { balance } ==> (encoded matches EncodedReply::Json(json)
            && json_view(json) == balance_json(balance)),
        reply matches MockReply::TokenInfo { name, symbol, decimals, total_supply } ==> (
        encoded matches EncodedReply::Json(json) && json_view(json) == token_info_json(
            name@,
            symbol@,
            decimals,
            total_supply,
        )),
        reply is NoPairs ==> (encoded matches EncodedReply::Json(json) && json_view(json)
            == addr_list_json(Seq::empty())),
{
    match reply {
        MockReply::TokenInfo { name, symbol, decimals, total_supply } => EncodedReply::Json(
            encode_token_info(&name, &symbol, decimals, total_supply),
        ),
        MockReply::Balance { balance } => EncodedReply::Json(encode_balance(balance)),
        MockReply::NoPairs => {
            let none: Vec<String> = Vec::new();
            let json = encode_addr_list(&none);
            proof {
                assert(none@.map_values(|a: String| a@) =~= Seq::<Seq<char>>::empty());
            }
            EncodedReply::Json(json)
        },
        MockReply::Unknown => EncodedReply::Unknown,
        MockReply::Fallback => EncodedReply::Fallback,
        MockReply::FeeInfo { fee_address, total_fee_bps, protocol_fee_bps } => EncodedReply::Factory(
            MockReply::FeeInfo { fee_address, total_fee_bps, protocol_fee_bps },
        ),
        MockReply::Config {
            owner,
            fee_address,
            token_code_id,
            max_referral_commission_atomics,
            only_owner_can_create_pairs,
            trading_starts,
        } => EncodedReply::Factory(
            MockReply::Config {
                owner,
                fee_address,
                token_code_id,
                max_referral_commission_atomics,
                only_owner_can_create_pairs,
                trading_starts,
            },
        ),
    }
}

impl WasmMockQuerier {
    /// What a smart query to `contract_addr` asks: for the factory, the query
    /// decoded from `msg` in the factory's message shapes (`factory_query`);
    /// for any other contract, the cw20 query that `msg` decodes to, or an
    /// unsupported query when it decodes to none.
    pub open spec fn smart_query_of(&self, contract_addr: Seq<char>, msg: Seq<u8>, factory_query: SmartQuery) -> SmartQuery {
        if contract_addr == self.factory_addr() {
            factory_query
        } else {
            match cw20_query_of(msg) {
                Some(query) => query,
                None => SmartQuery::Unsupported,
            }
        }
    }

    /// Decodes a smart query's message by the contract it goes to: the
    /// factory's query as the caller decoded it, else a cw20 query.
    pub fn decode_smart_query(&self, contract_addr: &String, msg: &[u8], factory_query: SmartQuery) -> (query: SmartQuery)
        ensures
            query == self.smart_query_of(contract_addr@, msg@, factory_query),
    {
        if *contract_addr == self.factory {
            factory_query
        } else {
            match decode_cw20_query(msg) {
                Some(query) => query,
                None => SmartQuery::Unsupported,
            }
        }
    }

    /// Answers a smart query to `contract_addr` with message `msg`: decodes it
    /// (the factory's query as the caller decoded it, else the cw20 query the
    /// bytes decode to), answers it and encodes the answer.  `None` when the
    /// decoded query is not one the querier answers.
    pub fn answer_smart(&self, contract_addr: &String, msg: &[u8], factory_query: SmartQuery) -> (answer: Option<EncodedReply>)
        ensures
            ({
                let request = MockRequest::Smart {
                    contract_addr: *contract_addr,
                    query: self.smart_query_of(contract_addr@, msg@, factory_query),
                };
                &&& answer is None <==> !self.answerable(request)
                &&& answer matches Some(encoded) ==> exists|reply: MockReply|
                    self.answers(request, reply) && encodes(reply, encoded)
            }),
            contract_addr@ == self.factory_addr() && factory_query is Config ==> (answer matches Some(
                EncodedReply::Factory(MockReply::Config { owner, fee_address, .. }),
            ) && owner@ == self.owner() && fee_address@ == self.fee_address()),
            contract_addr@ == self.factory_addr() && factory_query is FeeInfo ==> (answer matches Some(
                EncodedReply::Factory(MockReply::FeeInfo { fee_address, .. }),
            ) && fee_address@ == self.fee_address()),
            contract_addr@ != self.factory_addr() ==> (cw20_query_of(msg@) matches Some(
                SmartQuery::Balance { address },
            ) ==> (!(self.token_balances().dom().contains(contract_addr@)
                && self.token_balances()[contract_addr@].dom().contains(address@)) ==> answer
                == Some(EncodedReply::Unknown))),
    {
        let query = self.decode_smart_query(contract_addr, msg, factory_query);
        let request = MockRequest::Smart { contract_addr: contract_addr.clone(), query };
        if self.can_answer(&request) {
            Some(self.respond(&request))
        } else {
            None
        }
    }

    /// Answers `request` and encodes the answer as `encode_reply` does.
    pub fn respond(&self, request: &MockRequest) -> (encoded: EncodedReply)
        requires
            self.answerable(*request),
        ensures
            exists|reply: MockReply| self.answers(*request, reply) && encodes(reply, encoded),
            exists|reply: MockReply|
                #![trigger self.answers(*request, reply)]
                self.token_reply_law(*request, reply) && self.factory_reply_law(*request, reply)
                    && ((reply is FeeInfo || reply is Config) ==> encoded == EncodedReply::Factory(reply))
                    && (reply is Unknown ==> encoded is Unknown),
    {
        let reply = self.handle_query(request);
        let ghost answered = reply;
        let encoded = encode_reply(reply);
        proof {
            assert(self.answers(*request, answered) && encodes(answered, encoded));
            assert(self.token_reply_law(*request, answered) && self.factory_reply_law(*request, answered));
        }
        encoded
    }
}

} // verus!
