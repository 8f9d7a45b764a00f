//! The ledger of a non-fungible asset: who owns each token, how many
//! tokens each account owns, and who may move them.

use crate::address::{zero_address, Address};
use crate::guard::{acknowledged, acknowledges, guard, Guard, Shape};
use crate::hash::{selector, selector_of};
use crate::primitives::{decimal_text, pow2_128, u256_max, U256};
use crate::table::{sum_at, vanishes, Table};
use vstd::prelude::*;
use vstd::string::StringExecFns;
use vstd::string::StringSliceAdditionalSpecFns;

verus! {

/// What a deployment fixes about its asset.
pub trait ERC721Params {
    spec fn name_text(&self) -> Seq<char>;

    spec fn symbol_text(&self) -> Seq<char>;

    /// Where the description of a token is found.
    spec fn token_uri_text(&self, id: U256) -> Seq<char>;

    fn name(&self) -> (r: String)
        ensures
            r@ == self.name_text(),
    ;

    fn symbol(&self) -> (r: String)
        ensures
            r@ == self.symbol_text(),
    ;

    fn token_uri(&self, id: U256) -> (r: String)
        ensures
            r@ == self.token_uri_text(id),
    ;
}

/// Parameters given as plain values: the description of a token is found
/// at `base_uri` followed by the id in decimal digits.
#[derive(Clone, Debug)]
pub struct ERC721Settings {
    pub name: String,
    pub symbol: String,
    pub base_uri: String,
}

impl ERC721Params for ERC721Settings {
    open spec fn name_text(&self) -> Seq<char> {
        self.name@
    }

    open spec fn symbol_text(&self) -> Seq<char> {
        self.symbol@
    }

    open spec fn token_uri_text(&self, id: U256) -> Seq<char> {
        self.base_uri@ + decimal_text(id@)
    }

    fn name(&self) -> (r: String) {
        self.name.clone()
    }

    fn symbol(&self) -> (r: String) {
        self.symbol.clone()
    }

    fn token_uri(&self, id: U256) -> (r: String) {
        let mut uri = self.base_uri.clone();
        uri.append(id.to_decimal().as_str());
        uri
    }
}

/// A record of something the ledger did, for the host to publish.
#[derive(Clone, Copy, Debug, PartialEq, Eq)]
pub enum ERC721Event {
    /// Token `id` went from `from` to `to`; the zero address stands for
    /// creation or destruction.
    Transfer { from: Address, to: Address, id: U256 },
    /// `spender` may move token `id` of `owner`.
    Approval { owner: Address, spender: Address, id: U256 },
    /// `operator` may, or may no longer, move every token of `owner`.
    ApprovalForAll { owner: Address, operator: Address, approved: bool },
}

/// The ways an operation on the ledger may fail.
#[derive(Clone, Copy, Debug, PartialEq, Eq)]
pub enum ERC721Error {
    NotMinted,
    ZeroAddress,
    NotAuthorized,
    WrongFrom,
    InvalidRecipient,
    UnsafeRecipient,
    AlreadyMinted,
}

impl ERC721Error {
    /// The text whose selector identifies the error to callers.
    pub open spec fn signature(&self) -> Seq<u8> {
        match self {
            ERC721Error::NotMinted => "NotMinted()".spec_bytes(),
            ERC721Error::ZeroAddress => "ZeroAddress()".spec_bytes(),
            ERC721Error::NotAuthorized => "NotAuthorized()".spec_bytes(),
            ERC721Error::WrongFrom => "WrongFrom()".spec_bytes(),
            ERC721Error::InvalidRecipient => "InvalidRecipient()".spec_bytes(),
            ERC721Error::UnsafeRecipient => "UnsafeRecipient()".spec_bytes(),
            ERC721Error::AlreadyMinted => "AlreadyMinted()".spec_bytes(),
        }
    }

    /// The error as callers see it: the selector of its signature.
    pub fn encode(&self) -> (r: Vec<u8>)
        ensures
            r@ == selector_of(self.signature()),
    {
        let s = match self {
            ERC721Error::NotMinted => selector("NotMinted()"),
            ERC721Error::ZeroAddress => selector("ZeroAddress()"),
            ERC721Error::NotAuthorized => selector("NotAuthorized()"),
            ERC721Error::WrongFrom => selector("WrongFrom()"),
            ERC721Error::InvalidRecipient => selector("InvalidRecipient()"),
            ERC721Error::UnsafeRecipient => selector("UnsafeRecipient()"),
            ERC721Error::AlreadyMinted => selector("AlreadyMinted()"),
        };
        let r = vec![s[0], s[1], s[2], s[3]];
        assert(r@ =~= s@);
        r
    }
}

/// The question that the host has to put to a recipient that hosts code.
#[derive(Clone, Debug)]
pub struct ReceiverRequest {
    /// The recipient that is asked.
    pub to: Address,
    /// Who started the transfer.
    pub operator: Address,
    /// Who held the token before; the zero address for a new token.
    pub from: Address,
    pub id: U256,
    /// Bytes that the caller sends along.
    pub data: Vec<u8>,
}

/// The ledger as a mathematical value.
pub struct ERC721State {
    /// The owner of each token; the zero address where there is none.
    pub owners: Map<U256, Address>,
    pub balances: Map<Address, nat>,
    /// The account approved for each single token, or the zero address.
    pub approvals: Map<U256, Address>,
    pub operators: Map<(Address, Address), bool>,
    pub log: Seq<ERC721Event>,
}

impl ERC721State {
    /// One more record in the log.
    pub open spec fn record(self, event: ERC721Event) -> ERC721State {
        ERC721State { log: self.log.push(event), ..self }
    }

    /// Whether `caller` may move token `id` of `from`: as `from` itself, as
    /// an operator of `from`, or as the account approved for `id`.
    pub open spec fn may_move(self, caller: Address, from: Address, id: U256) -> bool {
        caller == from || self.operators[(from, caller)] || caller == self.approvals[id]
    }

    /// The state after token `id` was created for `to`.
    pub open spec fn minted(self, to: Address, id: U256) -> ERC721State {
        ERC721State {
            owners: self.owners.insert(id, to),
            balances: self.balances.insert(to, self.balances[to] + 1),
            ..self
        }.record(ERC721Event::Transfer { from: zero_address(), to, id })
    }

    /// The state after token `id` was destroyed: its owner holds one token
    /// less, and nobody owns or is approved for `id`.
    pub open spec fn burned(self, id: U256) -> ERC721State {
        let owner = self.owners[id];
        ERC721State {
            owners: self.owners.insert(id, zero_address()),
            balances: self.balances.insert(owner, (self.balances[owner] - 1) as nat),
            approvals: self.approvals.insert(id, zero_address()),
            ..self
        }.record(ERC721Event::Transfer { from: owner, to: zero_address(), id })
    }

    /// The state after token `id` went from `from` to `to`: nobody is
    /// approved for `id` any more.
    pub open spec fn transferred(self, from: Address, to: Address, id: U256) -> ERC721State {
        let lowered = self.balances.insert(from, (self.balances[from] - 1) as nat);
        ERC721State {
            owners: self.owners.insert(id, to),
            balances: lowered.insert(to, lowered[to] + 1),
            approvals: self.approvals.insert(id, zero_address()),
            ..self
        }.record(ERC721Event::Transfer { from, to, id })
    }

    /// What `mint` does.
    pub open spec fn mint_result(self, to: Address, id: U256) -> Result<ERC721State, ERC721Error> {
        if to == zero_address() {
            Err(ERC721Error::InvalidRecipient)
        } else if self.owners[id] != zero_address() {
            Err(ERC721Error::AlreadyMinted)
        } else {
            Ok(self.minted(to, id))
        }
    }

    /// What `burn` does.
    pub open spec fn burn_result(self, id: U256) -> Result<ERC721State, ERC721Error> {
        if self.owners[id] == zero_address() {
            Err(ERC721Error::NotMinted)
        } else {
            Ok(self.burned(id))
        }
    }

    /// What `approve` does.
    pub open spec fn approve_result(self, caller: Address, spender: Address, id: U256) -> Result<
        ERC721State,
        ERC721Error,
    > {
        let owner = self.owners[id];
        if caller != owner && !self.operators[(owner, caller)] {
            Err(ERC721Error::NotAuthorized)
        } else {
            Ok(
                ERC721State { approvals: self.approvals.insert(id, spender), ..self }.record(
                    ERC721Event::Approval { owner, spender, id },
                ),
            )
        }
    }

    /// What `set_approval_for_all` does.
    pub open spec fn operator_set(self, caller: Address, operator: Address, approved: bool) -> ERC721State {
        ERC721State { operators: self.operators.insert((caller, operator), approved), ..self }.record(
            ERC721Event::ApprovalForAll { owner: caller, operator, approved },
        )
    }

    /// What `transfer_from` does.
    pub open spec fn transfer_from_result(
        self,
        caller: Address,
        from: Address,
        to: Address,
        id: U256,
    ) -> Result<ERC721State, ERC721Error> {
        if from != self.owners[id] || from == zero_address() {
            Err(ERC721Error::WrongFrom)
        } else if to == zero_address() {
            Err(ERC721Error::InvalidRecipient)
        } else if !self.may_move(caller, from, id) {
            Err(ERC721Error::NotAuthorized)
        } else {
            Ok(self.transferred(from, to, id))
        }
    }
}

/// The share of one token in the number of tokens that `account` owns.
pub open spec fn owned_by(account: Address) -> spec_fn(U256, Address) -> nat {
    |id: U256, owner: Address|
        if owner == account {
            1nat
        } else {
            0nat
        }
}

/// The ledger that four tables and a log stand for.
pub open spec fn ledger_state(
    owners: Map<U256, Address>,
    balances: Map<Address, U256>,
    approvals: Map<U256, Address>,
    operators: Map<(Address, Address), bool>,
    log: Seq<ERC721Event>,
) -> ERC721State {
    ERC721State {
        owners,
        balances: Map::total(|a: Address| balances[a]@),
        approvals,
        operators,
        log,
    }
}

/// Whether four tables make a consistent ledger: every account other than
/// the zero address has as its balance the number of tokens it owns.
pub open spec fn consistent(
    owner_of: Table<U256, Address>,
    balance_of: Table<Address, U256>,
    get_approved: Table<U256, Address>,
    is_approved_for_all: Table<(Address, Address), bool>,
) -> bool {
    &&& owner_of.wf()
    &&& balance_of.wf()
    &&& get_approved.wf()
    &&& is_approved_for_all.wf()
    &&& owner_of.blank() == zero_address()
    &&& balance_of.blank() == U256 { hi: 0, lo: 0 }
    &&& get_approved.blank() == zero_address()
    &&& is_approved_for_all.blank() == false
    &&& forall|a: Address|
        a != zero_address() ==> #[trigger] owner_of.tally(owned_by(a)) == balance_of@[a]@
}

/// The ledger as it was before a safe transfer or a safe mint, kept so
/// that the operation can be undone where the recipient refuses.
#[derive(Clone, Debug)]
pub struct Undo {
    owner_of: Table<U256, Address>,
    balance_of: Table<Address, U256>,
    get_approved: Table<U256, Address>,
    is_approved_for_all: Table<(Address, Address), bool>,
    events: Vec<ERC721Event>,
}

impl Undo {
    /// What is kept is a consistent ledger.
    pub closed spec fn wf(&self) -> bool {
        consistent(self.owner_of, self.balance_of, self.get_approved, self.is_approved_for_all)
    }

    /// The ledger as it was.
    pub closed spec fn before(&self) -> ERC721State {
        ledger_state(
            self.owner_of@,
            self.balance_of@,
            self.get_approved@,
            self.is_approved_for_all@,
            self.events@,
        )
    }
}

/// A safe transfer or safe mint that waits for the reply of the recipient:
/// the question to put to it, and what undoes the operation.
#[derive(Clone, Debug)]
pub struct Pending {
    pub request: ReceiverRequest,
    pub undo: Undo,
}

/// A copy of a list of records.
fn copy_events(events: &Vec<ERC721Event>) -> (r: Vec<ERC721Event>)
    ensures
        r@ == events@,
{
    let mut r: Vec<ERC721Event> = Vec::new();
    let mut i: usize = 0;
    while i < events.len()
        invariant
            i <= events@.len(),
            r@ == events@.subrange(0, i as int),
        decreases events@.len() - i,
    {
        r.push(events[i]);
        assert(events@.subrange(0, i + 1) =~= events@.subrange(0, i as int).push(
            events@[i as int],
        ));
        i = i + 1;
    }
    assert(events@.subrange(0, events@.len() as int) =~= events@);
    r
}

/// The ledger of a non-fungible asset.
#[derive(Clone, Debug)]
pub struct ERC721<T: ERC721Params> {
    params: T,
    owner_of: Table<U256, Address>,
    balance_of: Table<Address, U256>,
    get_approved: Table<U256, Address>,
    is_approved_for_all: Table<(Address, Address), bool>,
    events: Vec<ERC721Event>,
}

impl<T: ERC721Params> View for ERC721<T> {
    type V = ERC721State;

    closed spec fn view(&self) -> ERC721State {
        ledger_state(
            self.owner_of@,
            self.balance_of@,
            self.get_approved@,
            self.is_approved_for_all@,
            self.events@,
        )
    }
}

impl<T: ERC721Params> ERC721<T> {
    /// The number of tokens whose owner is `account`.
    pub closed spec fn owned_count(&self, account: Address) -> nat {
        self.owner_of.tally(owned_by(account))
    }

    /// The ledger is consistent: every account other than the zero address
    /// has as its balance the number of tokens it owns.
    pub closed spec fn wf(&self) -> bool {
        consistent(self.owner_of, self.balance_of, self.get_approved, self.is_approved_for_all)
    }

    /// What the deployment fixed about the asset.
    pub closed spec fn params(&self) -> T {
        self.params
    }

    /// In a consistent ledger the balance of an account is the number of
    /// tokens it owns, and the owner of a token holds at least one.
    pub proof fn lemma_consistent(&self, account: Address)
        requires
            self.wf(),
            account != zero_address(),
        ensures
            self@.balances[account] == self.owned_count(account),
            forall|id: U256| #[trigger] self@.owners[id] == account ==> self@.balances[account] >= 1,
            self@.balances[account] < u256_max(),
    {
        assert(vanishes(owned_by(account), self.owner_of.blank()));
        assert forall|id: U256| #[trigger] self@.owners[id] == account implies self@.balances[account]
            >= 1 by {
            self.owner_of.lemma_tally_covers(owned_by(account), id);
        }
        self.owner_of.lemma_tally_at_most_size(owned_by(account));
        self.owner_of.lemma_size_bounded();
        assert(pow2_128() * pow2_128() >= pow2_128()) by (nonlinear_arith);
    }

    /// The tokens that ever had an owner, each once.
    pub closed spec fn tokens(&self) -> Seq<U256> {
        self.owner_of.keys()
    }

    /// One for every token that `account` owns, and nothing for the others.
    pub open spec fn marks_of(&self, account: Address) -> Map<U256, nat> {
        Map::total(
            |id: U256|
                if self@.owners[id] == account {
                    1nat
                } else {
                    0nat
                },
        )
    }

    /// The balance of an account is the number of tokens it owns. The
    /// tokens that ever had an owner are finitely many, no other token has
    /// one, and counting one for each of them that `account` owns gives
    /// the balance of `account`.
    pub proof fn lemma_balance_counts_tokens(&self, account: Address)
        requires
            self.wf(),
            account != zero_address(),
        ensures
            self.tokens().no_duplicates(),
            forall|id: U256| !self.tokens().contains(id) ==> #[trigger] self@.owners[id] == zero_address(),
            sum_at(self.tokens(), self.marks_of(account)) == self@.balances[account],
    {
        self.owner_of.lemma_tally_by_keys(owned_by(account), self.marks_of(account));
    }

    /// A token has at most one owner: two accounts that both own `id` are
    /// the same account.
    pub proof fn lemma_single_owner(&self, id: U256, a: Address, b: Address)
        requires
            self@.owners[id] == a,
            self@.owners[id] == b,
        ensures
            a == b,
    {
    }

    /// An empty ledger: no token exists, nothing is approved or logged.
    pub fn new(params: T) -> (r: Self)
        ensures
            r.wf(),
            r.params() == params,
            r@ == (ERC721State {
                owners: Map::total(|id: U256| zero_address()),
                balances: Map::total(|a: Address| 0nat),
                approvals: Map::total(|id: U256| zero_address()),
                operators: Map::total(|p: (Address, Address)| false),
                log: Seq::empty(),
            }),
    {
        let r = ERC721 {
            params,
            owner_of: Table::new(Address::zero()),
            balance_of: Table::new(U256::zero()),
            get_approved: Table::new(Address::zero()),
            is_approved_for_all: Table::new(false),
            events: Vec::new(),
        };
        proof {
            assert(0 * pow2_128() == 0) by (nonlinear_arith);
            assert(r@.balances =~= Map::total(|a: Address| 0nat));
            assert(r@.log =~= Seq::empty());
        }
        r
    }

    /// Hands the logged records to the host and empties the log.
    pub fn take_events(&mut self) -> (r: Vec<ERC721Event>)
        requires
            old(self).wf(),
        ensures
            final(self).wf(),
            r@ == old(self)@.log,
            final(self)@ == (ERC721State { log: Seq::empty(), ..old(self)@ }),
            final(self).params() == old(self).params(),
    {
        let mut out: Vec<ERC721Event> = Vec::new();
        std::mem::swap(&mut self.events, &mut out);
        out
    }

    /// Creates token `id` for `to`. Fails, and changes nothing, where `to`
    /// is the zero address (`InvalidRecipient`) or `id` has an owner
    /// (`AlreadyMinted`).
    pub fn mint(&mut self, to: Address, id: U256) -> (r: Result<(), ERC721Error>)
        requires
            old(self).wf(),
        ensures
            final(self).wf(),
            final(self).params() == old(self).params(),
            match old(self)@.mint_result(to, id) {
                Ok(state) => r == Ok::<(), ERC721Error>(()) && final(self)@ == state,
                Err(e) => r == Err::<(), ERC721Error>(e) && *final(self) == *old(self),
            },
    {
        if to.is_zero() {
            return Err(ERC721Error::InvalidRecipient);
        }
        if !self.owner_of.get(&id).is_zero() {
            return Err(ERC721Error::AlreadyMinted);
        }
        proof {
            self.lemma_consistent(to);
        }
        let held = self.balance_of.get(&to);
        let raised = held.checked_add(&U256::from_u64(1)).unwrap();
        self.balance_of.set(to, raised);
        self.owner_of.set(id, to);
        self.events.push(ERC721Event::Transfer { from: Address::zero(), to, id });
        proof {
            let expected = old(self)@.minted(to, id);
            assert(self@.balances =~= expected.balances);
            assert(self@.log =~= expected.log);
            assert forall|a: Address| a != zero_address() implies #[trigger] self.owner_of.tally(
                owned_by(a),
            ) == self.balance_of@[a]@ by {
                assert(vanishes(owned_by(a), old(self).owner_of.blank()));
            }
        }
        Ok(())
    }

    /// Destroys token `id` and clears its approval. Fails with `NotMinted`,
    /// and changes nothing, where `id` has no owner.
    pub fn burn(&mut self, id: U256) -> (r: Result<(), ERC721Error>)
        requires
            old(self).wf(),
        ensures
            final(self).wf(),
            final(self).params() == old(self).params(),
            match old(self)@.burn_result(id) {
                Ok(state) => r == Ok::<(), ERC721Error>(()) && final(self)@ == state,
                Err(e) => r == Err::<(), ERC721Error>(e) && *final(self) == *old(self),
            },
    {
        let owner = self.owner_of.get(&id);
        if owner.is_zero() {
            return Err(ERC721Error::NotMinted);
        }
        proof {
            self.lemma_consistent(owner);
        }
        let held = self.balance_of.get(&owner);
        let lowered = held.checked_sub(&U256::from_u64(1)).unwrap();
        self.balance_of.set(owner, lowered);
        self.owner_of.set(id, Address::zero());
        self.get_approved.set(id, Address::zero());
        self.events.push(ERC721Event::Transfer { from: owner, to: Address::zero(), id });
        proof {
            let expected = old(self)@.burned(id);
            assert(self@.balances =~= expected.balances);
            assert(self@.log =~= expected.log);
            assert forall|a: Address| a != zero_address() implies #[trigger] self.owner_of.tally(
                owned_by(a),
            ) == self.balance_of@[a]@ by {
                assert(vanishes(owned_by(a), old(self).owner_of.blank()));
            }
        }
        Ok(())
    }

    pub fn name(&self) -> (r: Result<String, ERC721Error>)
        ensures
            r.is_ok(),
            r.unwrap()@ == self.params().name_text(),
    {
        Ok(self.params.name())
    }

    pub fn symbol(&self) -> (r: Result<String, ERC721Error>)
        ensures
            r.is_ok(),
            r.unwrap()@ == self.params().symbol_text(),
    {
        Ok(self.params.symbol())
    }

    /// The owner of token `id`, or `NotMinted` where it has none.
    pub fn owner_of(&self, id: U256) -> (r: Result<Address, ERC721Error>)
        requires
            self.wf(),
        ensures
            r == (if self@.owners[id] == zero_address() {
                Err::<Address, ERC721Error>(ERC721Error::NotMinted)
            } else {
                Ok::<Address, ERC721Error>(self@.owners[id])
            }),
    {
        let owner = self.owner_of.get(&id);
        if owner.is_zero() {
            return Err(ERC721Error::NotMinted);
        }
        Ok(owner)
    }

    /// The number of tokens that `owner` holds, or `ZeroAddress` where
    /// `owner` is the zero address.
    pub fn balance_of(&self, owner: Address) -> (r: Result<U256, ERC721Error>)
        requires
            self.wf(),
        ensures
            owner == zero_address() ==> r == Err::<U256, ERC721Error>(ERC721Error::ZeroAddress),
            owner != zero_address() ==> r.is_ok() && r.unwrap()@ == self@.balances[owner],
    {
        if owner.is_zero() {
            return Err(ERC721Error::ZeroAddress);
        }
        Ok(self.balance_of.get(&owner))
    }

    pub fn get_approved(&self, id: U256) -> (r: Result<Address, ERC721Error>)
        requires
            self.wf(),
        ensures
            r == Ok::<Address, ERC721Error>(self@.approvals[id]),
    {
        Ok(self.get_approved.get(&id))
    }

    pub fn is_approved_for_all(&self, owner: Address, operator: Address) -> (r: Result<
        bool,
        ERC721Error,
    >)
        requires
            self.wf(),
        ensures
            r == Ok::<bool, ERC721Error>(self@.operators[(owner, operator)]),
    {
        Ok(self.is_approved_for_all.get(&(owner, operator)))
    }

    /// Where the description of token `id` is found.
    pub fn token_uri(&self, id: U256) -> (r: Result<String, ERC721Error>)
        ensures
            r.is_ok(),
            r.unwrap()@ == self.params().token_uri_text(id),
    {
        Ok(self.params.token_uri(id))
    }

    /// Approves `spender` for token `id`, over whoever was approved before.
    /// Fails with `NotAuthorized`, and changes nothing, unless `caller` owns
    /// `id` or is an operator of its owner.
    pub fn approve(&mut self, caller: Address, spender: Address, id: U256) -> (r: Result<
        (),
        ERC721Error,
    >)
        requires
            old(self).wf(),
        ensures
            final(self).wf(),
            final(self).params() == old(self).params(),
            match old(self)@.approve_result(caller, spender, id) {
                Ok(state) => r == Ok::<(), ERC721Error>(()) && final(self)@ == state,
                Err(e) => r == Err::<(), ERC721Error>(e) && *final(self) == *old(self),
            },
    {
        let owner = self.owner_of.get(&id);
        if caller != owner && !self.is_approved_for_all.get(&(owner, caller)) {
            return Err(ERC721Error::NotAuthorized);
        }
        self.get_approved.set(id, spender);
        self.events.push(ERC721Event::Approval { owner, spender, id });
        proof {
            let expected = old(self)@.approve_result(caller, spender, id).unwrap();
            assert(self@.balances =~= expected.balances);
            assert(self@.log =~= expected.log);
        }
        Ok(())
    }

    /// Lets `operator` move every token of `caller`, or ends that.
    pub fn set_approval_for_all(&mut self, caller: Address, operator: Address, approved: bool) -> (r:
        Result<(), ERC721Error>)
        requires
            old(self).wf(),
        ensures
            final(self).wf(),
            final(self).params() == old(self).params(),
            r == Ok::<(), ERC721Error>(()),
            final(self)@ == old(self)@.operator_set(caller, operator, approved),
    {
        self.is_approved_for_all.set((caller, operator), approved);
        self.events.push(ERC721Event::ApprovalForAll { owner: caller, operator, approved });
        proof {
            let expected = old(self)@.operator_set(caller, operator, approved);
            assert(self@.balances =~= expected.balances);
            assert(self@.log =~= expected.log);
        }
        Ok(())
    }

    /// Moves token `id` from `from` to `to` on behalf of `caller` and clears
    /// the approval for `id`. Fails, and changes nothing: with `WrongFrom`
    /// unless `from` owns `id`; with `InvalidRecipient` where `to` is the
    /// zero address; with `NotAuthorized` unless `caller` is `from`, an
    /// operator of `from`, or the account approved for `id`.
    pub fn transfer_from(&mut self, caller: Address, from: Address, to: Address, id: U256) -> (r:
        Result<(), ERC721Error>)
        requires
            old(self).wf(),
        ensures
            final(self).wf(),
            final(self).params() == old(self).params(),
            match old(self)@.transfer_from_result(caller, from, to, id) {
                Ok(state) => r == Ok::<(), ERC721Error>(()) && final(self)@ == state,
                Err(e) => r == Err::<(), ERC721Error>(e) && *final(self) == *old(self),
            },
            r.is_ok() ==> final(self)@.approvals[id] == zero_address() && final(self)@.owners[id]
                == to,
    {
        let owner = self.owner_of.get(&id);
        if from != owner || from.is_zero() {
            return Err(ERC721Error::WrongFrom);
        }
        if to.is_zero() {
            return Err(ERC721Error::InvalidRecipient);
        }
        if caller != from && !self.is_approved_for_all.get(&(from, caller)) && caller
            != self.get_approved.get(&id) {
            return Err(ERC721Error::NotAuthorized);
        }
        proof {
            self.lemma_consistent(from);
            self.lemma_consistent(to);
        }
        let held = self.balance_of.get(&from);
        let lowered = held.checked_sub(&U256::from_u64(1)).unwrap();
        self.balance_of.set(from, lowered);
        let kept = self.balance_of.get(&to);
        let raised = kept.checked_add(&U256::from_u64(1)).unwrap();
        self.balance_of.set(to, raised);
        self.owner_of.set(id, to);
        self.get_approved.set(id, Address::zero());
        self.events.push(ERC721Event::Transfer { from, to, id });
        proof {
            let expected = old(self)@.transferred(from, to, id);
            assert(self@.balances =~= expected.balances);
            assert(self@.log =~= expected.log);
            assert forall|a: Address| a != zero_address() implies #[trigger] self.owner_of.tally(
                owned_by(a),
            ) == self.balance_of@[a]@ by {
                assert(vanishes(owned_by(a), old(self).owner_of.blank()));
            }
        }
        Ok(())
    }

    /// Whether `pending` is what a safe operation hands out after token
    /// `id` arrived at `to` from `from` at the request of `operator`, the
    /// ledger having been `before`: where `to` hosts code, a question with
    /// exactly these fields together with what restores `before`; and
    /// nothing where it hosts none.
    pub open spec fn is_pending_for(
        pending: Option<Pending>,
        before: ERC721State,
        to_has_code: bool,
        operator: Address,
        from: Address,
        to: Address,
        id: U256,
        data: Seq<u8>,
    ) -> bool {
        match pending {
            Some(p) => {
                &&& to_has_code
                &&& p.request.to == to
                &&& p.request.operator == operator
                &&& p.request.from == from
                &&& p.request.id == id
                &&& p.request.data@ == data
                &&& p.undo.wf()
                &&& p.undo.before() == before
            },
            None => !to_has_code,
        }
    }

    /// Keeps the ledger as it is now.
    fn snapshot(&self) -> (undo: Undo)
        requires
            self.wf(),
        ensures
            undo.wf(),
            undo.before() == self@,
    {
        Undo {
            owner_of: self.owner_of.duplicate(),
            balance_of: self.balance_of.duplicate(),
            get_approved: self.get_approved.duplicate(),
            is_approved_for_all: self.is_approved_for_all.duplicate(),
            events: copy_events(&self.events),
        }
    }

    /// What is handed out for a recipient after the ledger has changed.
    fn pending_for(
        undo: Option<Undo>,
        operator: Address,
        from: Address,
        to: Address,
        id: U256,
        data: Vec<u8>,
    ) -> (r: Option<Pending>)
        ensures
            match undo {
                Some(u) => r.is_some() && r.unwrap().undo == u && r.unwrap().request.to == to
                    && r.unwrap().request.operator == operator && r.unwrap().request.from == from
                    && r.unwrap().request.id == id && r.unwrap().request.data@ == data@,
                None => r.is_none(),
            },
    {
        match undo {
            Some(u) => Some(
                Pending { request: ReceiverRequest { to, operator, from, id, data }, undo: u },
            ),
            None => None,
        }
    }

    /// Moves token `id` as `transfer_from` does, then says what the host has
    /// to ask of the recipient. The question is put only after the ledger
    /// has changed, so that a recipient that calls back into the ledger
    /// finds the token already moved. Where something is handed out, the
    /// transfer stands only once `check_acknowledgment` has accepted the
    /// reply of the recipient; where the reply is refused, that function
    /// puts the ledger back as it was before the transfer.
    pub fn safe_transfer(
        &mut self,
        caller: Address,
        id: U256,
        from: Address,
        to: Address,
        data: Vec<u8>,
        to_has_code: bool,
    ) -> (r: Result<Option<Pending>, ERC721Error>)
        requires
            old(self).wf(),
        ensures
            final(self).wf(),
            final(self).params() == old(self).params(),
            match old(self)@.transfer_from_result(caller, from, to, id) {
                Ok(state) => r.is_ok() && final(self)@ == state && Self::is_pending_for(
                    r.unwrap(),
                    old(self)@,
                    to_has_code,
                    caller,
                    from,
                    to,
                    id,
                    data@,
                ),
                Err(e) => r == Err::<Option<Pending>, ERC721Error>(e) && *final(self) == *old(
                    self,
                ),
            },
    {
        let undo = match guard(&to, to_has_code) {
            Guard::Ask => Some(self.snapshot()),
            _ => None,
        };
        match self.transfer_from(caller, from, to, id) {
            Ok(()) => {},
            Err(e) => {
                return Err(e);
            },
        }
        Ok(Self::pending_for(undo, caller, from, to, id, data))
    }

    /// `safe_transfer` with nothing sent along.
    pub fn safe_transfer_from(
        &mut self,
        caller: Address,
        from: Address,
        to: Address,
        id: U256,
        to_has_code: bool,
    ) -> (r: Result<Option<Pending>, ERC721Error>)
        requires
            old(self).wf(),
        ensures
            final(self).wf(),
            final(self).params() == old(self).params(),
            match old(self)@.transfer_from_result(caller, from, to, id) {
                Ok(state) => r.is_ok() && final(self)@ == state && Self::is_pending_for(
                    r.unwrap(),
                    old(self)@,
                    to_has_code,
                    caller,
                    from,
                    to,
                    id,
                    Seq::empty(),
                ),
                Err(e) => r == Err::<Option<Pending>, ERC721Error>(e) && *final(self) == *old(
                    self,
                ),
            },
    {
        self.safe_transfer_from_with_data(caller, from, to, id, Vec::new(), to_has_code)
    }

    /// `safe_transfer` with the arguments in the order of the call as
    /// callers know it.
    pub fn safe_transfer_from_with_data(
        &mut self,
        caller: Address,
        from: Address,
        to: Address,
        id: U256,
        data: Vec<u8>,
        to_has_code: bool,
    ) -> (r: Result<Option<Pending>, ERC721Error>)
        requires
            old(self).wf(),
        ensures
            final(self).wf(),
            final(self).params() == old(self).params(),
            match old(self)@.transfer_from_result(caller, from, to, id) {
                Ok(state) => r.is_ok() && final(self)@ == state && Self::is_pending_for(
                    r.unwrap(),
                    old(self)@,
                    to_has_code,
                    caller,
                    from,
                    to,
                    id,
                    data@,
                ),
                Err(e) => r == Err::<Option<Pending>, ERC721Error>(e) && *final(self) == *old(
                    self,
                ),
            },
    {
        self.safe_transfer(caller, id, from, to, data, to_has_code)
    }

    /// Creates token `id` for `to` as `mint` does, then says what the host
    /// has to ask of the recipient, with nothing sent along.
    pub fn safe_mint(&mut self, caller: Address, to: Address, id: U256, to_has_code: bool) -> (r:
        Result<Option<Pending>, ERC721Error>)
        requires
            old(self).wf(),
        ensures
            final(self).wf(),
            final(self).params() == old(self).params(),
            match old(self)@.mint_result(to, id) {
                Ok(state) => r.is_ok() && final(self)@ == state && Self::is_pending_for(
                    r.unwrap(),
                    old(self)@,
                    to_has_code,
                    caller,
                    zero_address(),
                    to,
                    id,
                    Seq::empty(),
                ),
                Err(e) => r == Err::<Option<Pending>, ERC721Error>(e) && *final(self) == *old(
                    self,
                ),
            },
    {
        self.safe_mint_with_data(caller, to, id, Vec::new(), to_has_code)
    }

    /// Creates token `id` for `to` as `mint` does, then says what the host
    /// has to ask of the recipient. Where something is handed out, the
    /// token exists only once `check_acknowledgment` has accepted the reply
    /// of the recipient.
    pub fn safe_mint_with_data(
        &mut self,
        caller: Address,
        to: Address,
        id: U256,
        data: Vec<u8>,
        to_has_code: bool,
    ) -> (r: Result<Option<Pending>, ERC721Error>)
        requires
            old(self).wf(),
        ensures
            final(self).wf(),
            final(self).params() == old(self).params(),
            match old(self)@.mint_result(to, id) {
                Ok(state) => r.is_ok() && final(self)@ == state && Self::is_pending_for(
                    r.unwrap(),
                    old(self)@,
                    to_has_code,
                    caller,
                    zero_address(),
                    to,
                    id,
                    data@,
                ),
                Err(e) => r == Err::<Option<Pending>, ERC721Error>(e) && *final(self) == *old(
                    self,
                ),
            },
    {
        let undo = match guard(&to, to_has_code) {
            Guard::Ask => Some(self.snapshot()),
            _ => None,
        };
        match self.mint(to, id) {
            Ok(()) => {},
            Err(e) => {
                return Err(e);
            },
        }
        Ok(Self::pending_for(undo, caller, Address::zero(), to, id, data))
    }

    /// Ends a safe transfer or safe mint with the reply of the recipient
    /// that was asked; `None` stands for a call that failed. Where the
    /// reply is the acknowledgment of a single token the operation stands
    /// and the ledger stays as it is. Any other reply is `UnsafeRecipient`,
    /// and the ledger is put back as it was before the operation: owners,
    /// balances, approvals, operators and log, whatever was done to the
    /// ledger in between.
    pub fn check_acknowledgment(&mut self, undo: Undo, reply: Option<[u8; 4]>) -> (r: Result<
        (),
        ERC721Error,
    >)
        requires
            old(self).wf(),
            undo.wf(),
        ensures
            final(self).wf(),
            final(self).params() == old(self).params(),
            acknowledges(Shape::Token, reply) ==> r == Ok::<(), ERC721Error>(()) && *final(self)
                == *old(self),
            !acknowledges(Shape::Token, reply) ==> r == Err::<(), ERC721Error>(
                ERC721Error::UnsafeRecipient,
            ) && final(self)@ == undo.before(),
    {
        if acknowledged(Shape::Token, reply) {
            Ok(())
        } else {
            self.owner_of = undo.owner_of;
            self.balance_of = undo.balance_of;
            self.get_approved = undo.get_approved;
            self.is_approved_for_all = undo.is_approved_for_all;
            self.events = undo.events;
            Err(ERC721Error::UnsafeRecipient)
        }
    }

    /// The interfaces that the ledger answers for.
    pub open spec fn supported(interface: Seq<u8>) -> bool {
        ||| interface == seq![0x01u8, 0xffu8, 0xc9u8, 0xa7u8]
        ||| interface == seq![0x80u8, 0xacu8, 0x58u8, 0xcdu8]
        ||| interface == seq![0x78u8, 0x0eu8, 0x9du8, 0x63u8]
    }

    pub fn supports_interface(interface: [u8; 4]) -> (r: Result<bool, ERC721Error>)
        ensures
            r == Ok::<bool, ERC721Error>(Self::supported(interface@)),
    {
        let a = interface[0] == 0x01 && interface[1] == 0xff && interface[2] == 0xc9 && interface[3]
            == 0xa7;
        let b = interface[0] == 0x80 && interface[1] == 0xac && interface[2] == 0x58 && interface[3]
            == 0xcd;
        let c = interface[0] == 0x78 && interface[1] == 0x0e && interface[2] == 0x9d && interface[3]
            == 0x63;
        proof {
            assert(a == (interface@ =~= seq![0x01u8, 0xffu8, 0xc9u8, 0xa7u8]));
            assert(b == (interface@ =~= seq![0x80u8, 0xacu8, 0x58u8, 0xcdu8]));
            assert(c == (interface@ =~= seq![0x78u8, 0x0eu8, 0x9du8, 0x63u8]));
        }
        Ok(a || b || c)
    }
}

} // verus!
