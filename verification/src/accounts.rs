//! Named test accounts with deterministic bech32 addresses.
//!
//! Every address is derived by `MockApi::addr_make` from a human-readable
//! label.  Six well-known roles are created up front; any other label is
//! registered lazily the first time it is asked for.
use cosmwasm_std::testing::MockApi;
use cosmwasm_std::{Api, CanonicalAddr};
use vstd::prelude::*;

verus! {

/// `cosmwasm_std::testing::MockApi`, carried through unopened.
#[verifier::external_type_specification]
#[verifier::external_body]
pub struct ExMockApi(MockApi);

/// `MockApi` is `Copy`: its derived `clone` hands back an identical api.
pub assume_specification[ <MockApi as Clone>::clone ](api: &MockApi) -> (copy: MockApi)
    ensures
        copy == *api,
;

/// The address `MockApi::addr_make` derives from `label` under `api`: the
/// SHA-256 digest of the label, bech32-encoded with the api's prefix.  It
/// depends on nothing but the api's prefix and the label.
pub uninterp spec fn made_address(api: MockApi, label: Seq<char>) -> Seq<char>;

/// Whether `MockApi::addr_make` can encode under this api's prefix: the prefix
/// is a valid bech32 human-readable part, and short enough that the address
/// of a 32-byte digest stays within bech32's code length of 1023 characters;
/// `addr_make` panics otherwise.
pub uninterp spec fn encodes_addresses(api: MockApi) -> bool;

/// Calls `MockApi::addr_make(label)` and hands back the address as a string.
/// Trusted: the address is `made_address(api, label)`.
#[verifier::external_body]
pub(crate) fn make_address(api: &MockApi, label: &str) -> (addr: String)
    requires
        encodes_addresses(*api),
    ensures
        addr@ == made_address(*api, label@),
{
    api.addr_make(label).into_string()
}

/// Calls `MockApi::addr_humanize` on 32 zero bytes and reports whether it
/// succeeded.  Trusted: it succeeds exactly when `addr_make` can encode under
/// the api's prefix, since both parse the prefix as a bech32 human-readable
/// part and bech32-encode 32 bytes, which fails only on the prefix and the
/// encoded length, never on the bytes.
#[verifier::external_body]
fn can_make_addresses(api: &MockApi) -> (able: bool)
    ensures
        able == encodes_addresses(*api),
{
    api.addr_humanize(&CanonicalAddr::from(vec![0u8; 32])).is_ok()
}

/// The address that `MockApi::default().addr_make(label)` gives: `label`'s
/// SHA-256 digest bech32-encoded under the default prefix "cosmwasm".
pub uninterp spec fn default_made_address(label: Seq<char>) -> Seq<char>;

/// The characters of bech32's data part, in the order of their values.
pub open spec fn bech32_charset() -> Seq<char> {
    "qpzry9x8gf2tvdw0s3jn54khce6mua7l"@
}

/// The shape of an address the default mock api makes: the prefix
/// "cosmwasm", the separator "1", then 58 bech32 characters (52 for the
/// 32-byte digest and 6 for the checksum), 67 characters in all.
pub open spec fn is_default_address(addr: Seq<char>) -> bool {
    &&& addr.len() == 67
    &&& addr.take(9) == "cosmwasm1"@
    &&& forall|i: int| 9 <= i < 67 ==> bech32_charset().contains(#[trigger] addr[i])
}

/// Calls `MockApi::default()`.  Trusted: its prefix, "cosmwasm", is a valid
/// bech32 human-readable part short enough for any digest, so `addr_make`
/// does not panic under it; every address it makes is the default one for
/// its label, which is "cosmwasm1" followed by the lower-case bech32
/// encoding of the label's SHA-256 digest and its checksum.
#[verifier::external_body]
pub(crate) fn default_api() -> (api: MockApi)
    ensures
        encodes_addresses(api),
        forall|label: Seq<char>|
            #[trigger] made_address(api, label) == default_made_address(label)
                && is_default_address(made_address(api, label)),
{
    MockApi::default()
}

/// The labels of the six well-known roles, in the order of their positions.
pub open spec fn role_labels() -> Seq<Seq<char>> {
    seq!["owner"@, "user"@, "whale"@, "trader"@, "beneficiary"@, "fee_receiver"@]
}

/// The addresses of the six roles under `api`, in position order.
pub open spec fn role_addresses(api: MockApi) -> Seq<Seq<char>> {
    role_labels().map_values(|label: Seq<char>| made_address(api, label))
}

/// The labels after `label` has been asked for: unchanged when it is already
/// registered, otherwise extended by it at the end.
pub open spec fn with_label(labels: Seq<Seq<char>>, label: Seq<char>) -> Seq<Seq<char>> {
    if labels.contains(label) {
        labels
    } else {
        labels.push(label)
    }
}

/// The labels after each label of `asked` has been asked for in turn,
/// starting from `labels`.
pub open spec fn with_labels(labels: Seq<Seq<char>>, asked: Seq<Seq<char>>) -> Seq<Seq<char>>
    decreases asked.len(),
{
    if asked.len() == 0 {
        labels
    } else {
        with_label(with_labels(labels, asked.drop_last()), asked.last())
    }
}

/// The number of well-known roles.
pub open spec fn num_roles() -> nat {
    6
}

/// Standard named test accounts with bech32 addresses made by `MockApi::addr_make`.
///
/// Position `n` holds the account registered `n`-th; positions 0 to 5 are the
/// six roles `owner`, `user`, `whale`, `trader`, `beneficiary`, `fee_receiver`,
/// which are also kept in the named fields.
pub struct TestAccounts {
    pub owner: String,
    pub user: String,
    pub whale: String,
    pub trader: String,
    pub beneficiary: String,
    pub fee_receiver: String,
    /// Addresses in registration order.
    list: Vec<String>,
    /// `labels[i]` is the label `list[i]` was made from; no label occurs twice.
    labels: Vec<String>,
    /// Kept so that new labels can be turned into addresses later.
    api: MockApi,
}

impl TestAccounts {
    /// The api every address is made with.
    pub closed spec fn api(&self) -> MockApi {
        self.api
    }

    /// The registered labels, in registration order.
    pub closed spec fn labels(&self) -> Seq<Seq<char>> {
        self.labels@.map_values(|s: String| s@)
    }

    /// The registered addresses, in registration order.
    pub closed spec fn addrs(&self) -> Seq<Seq<char>> {
        self.list@.map_values(|s: String| s@)
    }

    /// The registry is consistent: one label per address, no label twice, the
    /// roles first, and every address made from its own label.
    pub closed spec fn registry_wf(&self) -> bool {
        &&& self.labels@.len() == self.list@.len()
        &&& encodes_addresses(self.api)
        &&& self.labels().len() >= num_roles()
        &&& self.labels().take(num_roles() as int) == role_labels()
        &&& self.labels().no_duplicates()
        &&& forall|i: int|
            0 <= i < self.addrs().len() ==> #[trigger] self.addrs()[i] == made_address(
                self.api,
                self.labels()[i],
            )
    }

    /// The addresses held in the named role fields, in the order `owner`,
    /// `user`, `whale`, `trader`, `beneficiary`, `fee_receiver`.
    pub closed spec fn role_addrs(&self) -> Seq<Seq<char>> {
        seq![
            self.owner@,
            self.user@,
            self.whale@,
            self.trader@,
            self.beneficiary@,
            self.fee_receiver@,
        ]
    }

    /// The named role fields agree with positions 0 to 5.
    pub open spec fn roles_match(&self) -> bool {
        self.addrs().len() >= num_roles() && self.role_addrs() == self.addrs().take(num_roles() as int)
    }

    /// Well-formed accounts, as `new` and `addr` leave them.
    pub open spec fn wf(&self) -> bool {
        self.registry_wf() && self.roles_match()
    }

    proof fn lemma_role_labels_distinct()
        ensures
            role_labels().no_duplicates(),
    {
        reveal_strlit("owner");
        reveal_strlit("user");
        reveal_strlit("whale");
        reveal_strlit("trader");
        reveal_strlit("beneficiary");
        reveal_strlit("fee_receiver");
        assert(role_labels()[0][0] != role_labels()[1][0]);
        assert(role_labels()[0][0] != role_labels()[2][0]);
        assert(role_labels()[0][0] != role_labels()[3][0]);
        assert(role_labels()[0][0] != role_labels()[4][0]);
        assert(role_labels()[0][0] != role_labels()[5][0]);
        assert(role_labels()[1][0] != role_labels()[2][0]);
        assert(role_labels()[1][0] != role_labels()[3][0]);
        assert(role_labels()[1][0] != role_labels()[4][0]);
        assert(role_labels()[1][0] != role_labels()[5][0]);
        assert(role_labels()[2][0] != role_labels()[3][0]);
        assert(role_labels()[2][0] != role_labels()[4][0]);
        assert(role_labels()[2][0] != role_labels()[5][0]);
        assert(role_labels()[3][0] != role_labels()[4][0]);
        assert(role_labels()[3][0] != role_labels()[5][0]);
        assert(role_labels()[4][0] != role_labels()[5][0]);
    }

    /// Builds the six role accounts from `api`.
    ///
    /// Pass `app.api()` in multi-test suites so that all addresses agree with
    /// the contracts instantiated in the same `App`.
    pub fn new(api: &MockApi) -> (accounts: Self)
        requires
            encodes_addresses(*api),
        ensures
            accounts.wf(),
            accounts.api() == *api,
            accounts.labels() == role_labels(),
            accounts.addrs() == role_addresses(*api),
            accounts.role_addrs() == role_addresses(*api),
    {
        let mut list: Vec<String> = Vec::new();
        let mut labels: Vec<String> = Vec::new();
        list.push(make_address(api, "owner"));
        labels.push("owner".to_owned());
        list.push(make_address(api, "user"));
        labels.push("user".to_owned());
        list.push(make_address(api, "whale"));
        labels.push("whale".to_owned());
        list.push(make_address(api, "trader"));
        labels.push("trader".to_owned());
        list.push(make_address(api, "beneficiary"));
        labels.push("beneficiary".to_owned());
        list.push(make_address(api, "fee_receiver"));
        labels.push("fee_receiver".to_owned());
        let accounts = TestAccounts {
            owner: list[0].clone(),
            user: list[1].clone(),
            whale: list[2].clone(),
            trader: list[3].clone(),
            beneficiary: list[4].clone(),
            fee_receiver: list[5].clone(),
            list,
            labels,
            api: *api,
        };
        proof {
            Self::lemma_role_labels_distinct();
            assert(accounts.labels() =~= role_labels());
            assert(accounts.labels().take(num_roles() as int) =~= role_labels());
            assert(accounts.addrs() =~= role_addresses(*api));
            assert(accounts.role_addrs() =~= accounts.addrs().take(num_roles() as int));
        }
        accounts
    }

    /// Builds the six role accounts from `api` when it can make addresses,
    /// as `new` does; `None` when its prefix cannot encode an address, where
    /// `new` would panic.
    pub fn checked_new(api: &MockApi) -> (accounts: Option<Self>)
        ensures
            accounts is Some <==> encodes_addresses(*api),
            accounts matches Some(a) ==> {
                &&& a.wf()
                &&& a.api() == *api
                &&& a.labels() == role_labels()
                &&& a.addrs() == role_addresses(*api)
                &&& a.role_addrs() == role_addresses(*api)
            },
    {
        if can_make_addresses(api) {
            Some(TestAccounts::new(api))
        } else {
            None
        }
    }

    /// Position of `label` among the registered labels, if it is there.
    fn position(&self, label: &String) -> (pos: Option<usize>)
        requires
            self.registry_wf(),
        ensures
            pos is None <==> !self.labels().contains(label@),
            pos matches Some(i) ==> i < self.labels().len() && self.labels()[i as int] == label@,
    {
        let n = self.labels.len();
        let mut i: usize = 0;
        while i < n
            invariant
                n == self.labels@.len(),
                self.labels@.len() == self.labels().len(),
                i <= n,
                forall|j: int| 0 <= j < i ==> self.labels()[j] != label@,
            decreases n - i,
        {
            if self.labels[i] == *label {
                proof {
                    assert(self.labels()[i as int] == label@);
                }
                return Some(i);
            }
            i = i + 1;
        }
        proof {
            assert forall|j: int| 0 <= j < self.labels().len() implies self.labels()[j] != label@ by {}
        }
        None
    }

    /// Returns the address for `label`, registering it first if it has not
    /// been seen before.  The same label always gives the same address.
    pub fn addr(&mut self, label: &str) -> (addr: String)
        requires
            old(self).registry_wf(),
        ensures
            final(self).registry_wf(),
            addr@ == made_address(old(self).api(), label@),
            final(self).api() == old(self).api(),
            final(self).labels() == with_label(old(self).labels(), label@),
            final(self).labels().contains(label@),
            old(self).labels().contains(label@) ==> final(self).addrs() == old(self).addrs(),
            !old(self).labels().contains(label@) ==> final(self).addrs() == old(
                self,
            ).addrs().push(addr@),
            final(self).role_addrs() == old(self).role_addrs(),
            old(self).roles_match() ==> final(self).roles_match(),
    {
        let owned = label.to_owned();
        match self.position(&owned) {
            Some(idx) => {
                let found = self.list[idx].clone();
                proof {
                    assert(self.addrs()[idx as int] == found@);
                }
                found
            },
            None => {
                let addr = make_address(&self.api, label);
                let ghost old_labels = self.labels();
                let ghost old_addrs = self.addrs();
                self.list.push(addr.clone());
                self.labels.push(owned);
                proof {
                    assert(self.labels() =~= old_labels.push(label@));
                    assert(self.labels()[old_labels.len() as int] == label@);
                    assert(self.addrs() =~= old_addrs.push(addr@));
                    assert(self.addrs().take(num_roles() as int) =~= old_addrs.take(
                        num_roles() as int,
                    ));
                    assert(self.labels().take(num_roles() as int) =~= old_labels.take(
                        num_roles() as int,
                    ));
                    let ghost n = old_labels.len();
                    assert forall|i: int, j: int|
                        0 <= i < self.labels().len() && 0 <= j < self.labels().len() && i
                            != j implies self.labels()[i] != self.labels()[j] by {
                        if i < n && j < n {
                            assert(self.labels()[i] == old_labels[i]);
                            assert(self.labels()[j] == old_labels[j]);
                        } else if i == n {
                            assert(self.labels()[j] == old_labels[j]);
                            if self.labels()[i] == self.labels()[j] {
                                assert(old_labels.contains(label@));
                            }
                        } else {
                            assert(self.labels()[i] == old_labels[i]);
                            if self.labels()[i] == self.labels()[j] {
                                assert(old_labels.contains(label@));
                            }
                        }
                    }
                    assert forall|i: int| 0 <= i < self.addrs().len() implies #[trigger] self.addrs()[i]
                        == made_address(self.api, self.labels()[i]) by {
                        if i < old_addrs.len() {
                            assert(self.addrs()[i] == old_addrs[i]);
                        }
                    }
                }
                addr
            },
        }
    }

    /// The `owner` account's address, kept in the field of that name.
    pub fn owner(&self) -> (addr: &String)
        ensures
            addr@ == self.role_addrs()[0],
    {
        &self.owner
    }

    /// The `user` account's address, kept in the field of that name.
    pub fn user(&self) -> (addr: &String)
        ensures
            addr@ == self.role_addrs()[1],
    {
        &self.user
    }

    /// The `whale` account's address, kept in the field of that name.
    pub fn whale(&self) -> (addr: &String)
        ensures
            addr@ == self.role_addrs()[2],
    {
        &self.whale
    }

    /// The `trader` account's address, kept in the field of that name.
    pub fn trader(&self) -> (addr: &String)
        ensures
            addr@ == self.role_addrs()[3],
    {
        &self.trader
    }

    /// The `beneficiary` account's address, kept in the field of that name.
    pub fn beneficiary(&self) -> (addr: &String)
        ensures
            addr@ == self.role_addrs()[4],
    {
        &self.beneficiary
    }

    /// The `fee_receiver` account's address, kept in the field of that name.
    pub fn fee_receiver(&self) -> (addr: &String)
        ensures
            addr@ == self.role_addrs()[5],
    {
        &self.fee_receiver
    }

    /// Total number of accounts: the six roles plus every label added by `addr`.
    pub fn len(&self) -> (n: usize)
        requires
            self.registry_wf(),
        ensures
            n == self.addrs().len(),
            n >= num_roles(),
    {
        self.list.len()
    }

    /// Whether there are no accounts; never true, as the six roles are always there.
    pub fn is_empty(&self) -> (empty: bool)
        ensures
            empty == (self.addrs().len() == 0),
            self.registry_wf() ==> !empty,
    {
        self.list.len() == 0
    }

    /// The address registered for `label`, found by a scan of the labels.
    fn address_of(&self, label: &str) -> (addr: &String)
        requires
            self.registry_wf(),
            self.labels().contains(label@),
        ensures
            addr@ == made_address(self.api(), label@),
    {
        let owned = label.to_owned();
        match self.position(&owned) {
            Some(idx) => {
                proof {
                    assert(self.addrs()[idx as int] == made_address(self.api, self.labels()[idx as int]));
                }
                &self.list[idx]
            },
            None => {
                proof {
                    assert(false);
                }
                &self.list[0]
            },
        }
    }
}

/// Index by position: `accounts[0]` is the owner.
impl std::ops::Index<usize> for TestAccounts {
    type Output = String;

    fn index(&self, idx: usize) -> (addr: &String)
        ensures
            addr@ == self.addrs()[idx as int],
            addr@ == made_address(self.api(), self.labels()[idx as int]),
    {
        proof {
            assert(self.addrs()[idx as int] == self.list@[idx as int]@);
        }
        &self.list[idx]
    }
}

impl vstd::std_specs::core::IndexSpecImpl<usize> for TestAccounts {
    /// The position must be taken: below `len()`.
    open spec fn index_req(&self, idx: &usize) -> bool {
        self.registry_wf() && *idx < self.addrs().len()
    }
}

/// Index by label: `accounts["owner"]` is the owner.  The label must have
/// been registered, by `new` or by `addr`.
impl<'a> std::ops::Index<&'a str> for TestAccounts {
    type Output = String;

    fn index(&self, label: &'a str) -> (addr: &String)
        ensures
            addr@ == made_address(self.api(), label@),
    {
        self.address_of(label)
    }
}

impl<'a> vstd::std_specs::core::IndexSpecImpl<&'a str> for TestAccounts {
    /// The label must be registered.
    open spec fn index_req(&self, label: &&'a str) -> bool {
        self.registry_wf() && self.labels().contains((*label)@)
    }
}

impl Clone for TestAccounts {
    /// A copy with the same roles, accounts and api.
    fn clone(&self) -> (copy: Self)
        ensures
            copy.api() == self.api(),
            copy.labels() == self.labels(),
            copy.addrs() == self.addrs(),
            copy.role_addrs() == self.role_addrs(),
            copy.registry_wf() == self.registry_wf(),
    {
        let list = self.list.clone();
        let labels = self.labels.clone();
        proof {
            assert(list@ =~= self.list@);
            assert(labels@ =~= self.labels@);
        }
        TestAccounts {
            owner: self.owner.clone(),
            user: self.user.clone(),
            whale: self.whale.clone(),
            trader: self.trader.clone(),
            beneficiary: self.beneficiary.clone(),
            fee_receiver: self.fee_receiver.clone(),
            list,
            labels,
            api: self.api,
        }
    }
}

impl Default for TestAccounts {
    /// Builds the accounts from `MockApi::default()`, for unit tests without an `App`.
    fn default() -> (accounts: Self)
        ensures
            accounts.wf(),
            accounts.labels() == role_labels(),
            accounts.addrs() == role_addresses(accounts.api()),
            accounts.role_addrs() == role_addresses(accounts.api()),
            forall|label: Seq<char>|
                #[trigger] made_address(accounts.api(), label) == default_made_address(label)
                    && is_default_address(default_made_address(label)),
    {
        let api = default_api();
        TestAccounts::new(&api)
    }
}

/// Asking for a label registers it, and asking for it again changes nothing:
/// the labels after two requests for the same label are those after one.
pub proof fn lemma_with_label_idempotent(labels: Seq<Seq<char>>, label: Seq<char>)
    ensures
        with_label(labels, label).contains(label),
        with_label(with_label(labels, label), label) == with_label(labels, label),
        labels.is_prefix_of(with_label(labels, label)),
{
    if !labels.contains(label) {
        assert(labels.push(label)[labels.len() as int] == label);
    }
    assert(labels.is_prefix_of(with_label(labels, label))) by {
        assert(with_label(labels, label).take(labels.len() as int) =~= labels);
    }
}

/// Every registered address was made from its own label by the accounts'
/// api; there is one label per address, no label twice, and the six roles
/// come first.
pub proof fn lemma_registry_consistent(accounts: TestAccounts)
    requires
        accounts.registry_wf(),
    ensures
        accounts.addrs().len() == accounts.labels().len(),
        accounts.labels().len() >= num_roles(),
        accounts.labels().take(num_roles() as int) == role_labels(),
        accounts.labels().no_duplicates(),
        forall|i: int|
            0 <= i < accounts.addrs().len() ==> #[trigger] accounts.addrs()[i] == made_address(
                accounts.api(),
                accounts.labels()[i],
            ),
{
}

/// In well-formed accounts every position holds the address made from its
/// label, the six roles come first, and each named field holds the address
/// made from its role's label, so `accounts[n]` for `n < 6` and
/// `accounts[role]` both give the named field.
pub proof fn lemma_roles_are_first(accounts: TestAccounts)
    requires
        accounts.wf(),
    ensures
        accounts.role_addrs() == role_addresses(accounts.api()),
        forall|i: int|
            0 <= i < num_roles() ==> #[trigger] accounts.addrs()[i] == accounts.role_addrs()[i]
                && accounts.labels()[i] == role_labels()[i],
{
    assert forall|i: int| 0 <= i < num_roles() implies #[trigger] accounts.addrs()[i]
        == accounts.role_addrs()[i] && accounts.labels()[i] == role_labels()[i] by {
        assert(accounts.labels().take(num_roles() as int)[i] == accounts.labels()[i]);
        assert(accounts.addrs().take(num_roles() as int)[i] == accounts.addrs()[i]);
    }
    assert forall|i: int| 0 <= i < num_roles() implies accounts.role_addrs()[i] == role_addresses(
        accounts.api(),
    )[i] by {
        assert(accounts.addrs()[i] == made_address(accounts.api(), accounts.labels()[i]));
    }
    assert(accounts.role_addrs() =~= role_addresses(accounts.api()));
}

/// Accounts depend on nothing but the addresses their api makes and the
/// labels asked for: two consistent registries whose apis make the same
/// address for every label, and which were asked for the same labels, hold
/// the same addresses in the same positions, and, when well-formed, the same
/// named role accounts.  Two default mock apis are such apis.
pub proof fn lemma_accounts_are_deterministic(a: TestAccounts, b: TestAccounts)
    requires
        a.registry_wf(),
        b.registry_wf(),
        forall|label: Seq<char>| #[trigger] made_address(a.api(), label) == made_address(b.api(), label),
        a.labels() == b.labels(),
    ensures
        a.addrs() == b.addrs(),
        a.wf() && b.wf() ==> a.role_addrs() == b.role_addrs(),
{
    assert forall|i: int| 0 <= i < a.addrs().len() implies a.addrs()[i] == b.addrs()[i] by {
        assert(a.addrs()[i] == made_address(a.api(), a.labels()[i]));
        assert(b.addrs()[i] == made_address(b.api(), b.labels()[i]));
    }
    assert(a.addrs() =~= b.addrs());
}

/// Asking for one more label keeps the labels free of repeats, adds the
/// label to their set, and grows them by one exactly when the label is new.
proof fn lemma_with_label_step(labels: Seq<Seq<char>>, label: Seq<char>)
    requires
        labels.no_duplicates(),
    ensures
        with_label(labels, label).no_duplicates(),
        with_label(labels, label).to_set() == labels.to_set().insert(label),
        with_label(labels, label).len() == labels.len() + if labels.contains(label) { 0int } else { 1int },
{
    if labels.contains(label) {
        assert(labels.to_set().insert(label) =~= labels.to_set());
    } else {
        let grown = labels.push(label);
        labels.lemma_push_to_set_commute(label);
        assert forall|i: int, j: int| 0 <= i < grown.len() && 0 <= j < grown.len() && i != j
            implies grown[i] != grown[j] by {
            if i < labels.len() && j < labels.len() {
                assert(grown[i] == labels[i] && grown[j] == labels[j]);
            } else if i < labels.len() {
                assert(grown[i] == labels[i]);
            } else {
                assert(grown[j] == labels[j]);
            }
        }
    }
}

/// Asking for the labels of `asked` in turn, starting from labels without
/// repeats, leaves labels without repeats that hold exactly the old labels
/// and the asked ones, one more for each distinct asked label that was new.
proof fn lemma_with_labels_grow(labels: Seq<Seq<char>>, asked: Seq<Seq<char>>)
    requires
        labels.no_duplicates(),
    ensures
        with_labels(labels, asked).no_duplicates(),
        with_labels(labels, asked).to_set() == labels.to_set() + asked.to_set(),
        with_labels(labels, asked).len() == labels.len() + asked.to_set().difference(
            labels.to_set(),
        ).len(),
    decreases asked.len(),
{
    let known = labels.to_set();
    if asked.len() == 0 {
        assert(asked.to_set() =~= Set::empty());
        assert(asked.to_set().difference(known) =~= Set::empty());
        assert(known + asked.to_set() =~= known);
    } else {
        let before = asked.drop_last();
        let label = asked.last();
        lemma_with_labels_grow(labels, before);
        let prev = with_labels(labels, before);
        lemma_with_label_step(prev, label);
        assert(asked =~= before.push(label));
        before.lemma_push_to_set_commute(label);
        vstd::seq_lib::seq_to_set_is_finite(before);
        assert(known + asked.to_set() =~= (known + before.to_set()).insert(label));
        if prev.contains(label) {
            assert(prev.to_set().contains(label));
            assert(asked.to_set().difference(known) =~= before.to_set().difference(known));
        } else {
            assert(!prev.to_set().contains(label));
            assert(asked.to_set().difference(known) =~= before.to_set().difference(known).insert(
                label,
            ));
        }
    }
}

/// After `new`, asking `addr` for the labels of `asked` one after another
/// leaves six accounts for the roles and one more for each distinct label of
/// `asked` that is not a role's: `len()` is 6 plus the number of those labels.
pub proof fn lemma_len_after_requests(accounts: TestAccounts, asked: Seq<Seq<char>>)
    requires
        accounts.registry_wf(),
        accounts.labels() == with_labels(role_labels(), asked),
    ensures
        accounts.addrs().len() == num_roles() + asked.to_set().difference(
            role_labels().to_set(),
        ).len(),
{
    TestAccounts::lemma_role_labels_distinct();
    lemma_with_labels_grow(role_labels(), asked);
}

} // verus!
