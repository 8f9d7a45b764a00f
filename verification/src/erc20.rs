//! The ledger of a fungible asset: balances, allowances, the total supply
//! and the nonces of signed approvals.

use crate::address::{zero_address, Address, B256};
use crate::hash::{selector, selector_of};
use crate::permit::{
    domain_separator, domain_separator_of, lemma_permit_fields_follow_nonce, permit_digest,
    permit_digest_of, permit_fields, Recovery,
};
use crate::primitives::{u256_max, U256};
use crate::table::{sum_at, vanishes, Table};
use vstd::prelude::*;
use vstd::string::StringSliceAdditionalSpecFns;

verus! {

/// What a deployment fixes about its asset.
pub trait ERC20Params {
    spec fn name_text(&self) -> Seq<char>;

    spec fn symbol_text(&self) -> Seq<char>;

    spec fn decimal_places(&self) -> u8;

    /// The chain on which the asset was deployed.
    spec fn first_chain_id(&self) -> u64;

    /// The domain separator computed at deployment, for `first_chain_id`.
    spec fn first_domain_separator(&self) -> B256;

    fn name(&self) -> (r: String)
        ensures
            r@ == self.name_text(),
    ;

    fn symbol(&self) -> (r: String)
        ensures
            r@ == self.symbol_text(),
    ;

    fn decimals(&self) -> (r: u8)
        ensures
            r == self.decimal_places(),
    ;

    fn initial_chain_id(&self) -> (r: u64)
        ensures
            r == self.first_chain_id(),
    ;

    fn initial_domain_separator(&self) -> (r: B256)
        ensures
            r == self.first_domain_separator(),
    ;
}

/// Parameters given as plain values.
#[derive(Clone, Debug)]
pub struct ERC20Settings {
    pub name: String,
    pub symbol: String,
    pub decimals: u8,
    pub initial_chain_id: u64,
    pub initial_domain_separator: B256,
}

impl ERC20Params for ERC20Settings {
    open spec fn name_text(&self) -> Seq<char> {
        self.name@
    }

    open spec fn symbol_text(&self) -> Seq<char> {
        self.symbol@
    }

    open spec fn decimal_places(&self) -> u8 {
        self.decimals
    }

    open spec fn first_chain_id(&self) -> u64 {
        self.initial_chain_id
    }

    open spec fn first_domain_separator(&self) -> B256 {
        self.initial_domain_separator
    }

    fn name(&self) -> (r: String) {
        self.name.clone()
    }

    fn symbol(&self) -> (r: String) {
        self.symbol.clone()
    }

    fn decimals(&self) -> (r: u8) {
        self.decimals
    }

    fn initial_chain_id(&self) -> (r: u64) {
        self.initial_chain_id
    }

    fn initial_domain_separator(&self) -> (r: B256) {
        self.initial_domain_separator
    }
}

/// A record of something the ledger did, for the host to publish.
#[derive(Clone, Copy, Debug, PartialEq, Eq)]
pub enum ERC20Event {
    /// `amount` moved from `from` to `to`; the zero address stands for
    /// creation or destruction.
    Transfer { from: Address, to: Address, amount: U256 },
    /// `owner` allowed `spender` to move up to `amount`.
    Approval { owner: Address, spender: Address, amount: U256 },
}

/// The ways an operation on the ledger may fail.
#[derive(Clone, Copy, Debug, PartialEq, Eq)]
pub enum ERC20Error {
    PermitDeadlineExpired,
    InvalidSigner,
    InvalidRecipient,
    InsufficientBalance,
    InsufficientAllowance,
    Overflow,
}

impl ERC20Error {
    /// The text whose selector identifies the error to callers.
    pub open spec fn signature(&self) -> Seq<u8> {
        match self {
            ERC20Error::PermitDeadlineExpired => "PermitDeadlineExpired()".spec_bytes(),
            ERC20Error::InvalidSigner => "InvalidSigner()".spec_bytes(),
            ERC20Error::InvalidRecipient => "InvalidRecipient()".spec_bytes(),
            ERC20Error::InsufficientBalance => "InsufficientBalance()".spec_bytes(),
            ERC20Error::InsufficientAllowance => "InsufficientAllowance()".spec_bytes(),
            ERC20Error::Overflow => "Overflow()".spec_bytes(),
        }
    }

    /// The error as callers see it: the selector of its signature.
    pub fn encode(&self) -> (r: Vec<u8>)
        ensures
            r@ == selector_of(self.signature()),
    {
        let s = match self {
            ERC20Error::PermitDeadlineExpired => selector("PermitDeadlineExpired()"),
            ERC20Error::InvalidSigner => selector("InvalidSigner()"),
            ERC20Error::InvalidRecipient => selector("InvalidRecipient()"),
            ERC20Error::InsufficientBalance => selector("InsufficientBalance()"),
            ERC20Error::InsufficientAllowance => selector("InsufficientAllowance()"),
            ERC20Error::Overflow => selector("Overflow()"),
        };
        let r = vec![s[0], s[1], s[2], s[3]];
        assert(r@ =~= s@);
        r
    }
}

/// The ledger as a mathematical value.
pub struct ERC20State {
    pub supply: nat,
    pub balances: Map<Address, nat>,
    pub allowances: Map<(Address, Address), nat>,
    pub nonces: Map<Address, nat>,
    pub log: Seq<ERC20Event>,
}

impl ERC20State {
    /// The ledger in which nothing was created, allowed or logged.
    pub open spec fn empty() -> ERC20State {
        ERC20State {
            supply: 0,
            balances: Map::total(|a: Address| 0nat),
            allowances: Map::total(|p: (Address, Address)| 0nat),
            nonces: Map::total(|a: Address| 0nat),
            log: Seq::empty(),
        }
    }

    /// `amount` more in the balance of `to`.
    pub open spec fn credit(self, to: Address, amount: nat) -> ERC20State {
        ERC20State { balances: self.balances.insert(to, self.balances[to] + amount), ..self }
    }

    /// `amount` less in the balance of `from`.
    pub open spec fn debit(self, from: Address, amount: nat) -> ERC20State {
        ERC20State {
            balances: self.balances.insert(from, (self.balances[from] - amount) as nat),
            ..self
        }
    }

    /// One more record in the log.
    pub open spec fn record(self, event: ERC20Event) -> ERC20State {
        ERC20State { log: self.log.push(event), ..self }
    }

    /// The state after `amount` was created for `to`.
    pub open spec fn minted(self, to: Address, amount: U256) -> ERC20State {
        ERC20State { supply: self.supply + amount@, ..self }.credit(to, amount@).record(
            ERC20Event::Transfer { from: zero_address(), to, amount },
        )
    }

    /// The state after `amount` of `from` was destroyed.
    pub open spec fn burned(self, from: Address, amount: U256) -> ERC20State {
        ERC20State { supply: (self.supply - amount@) as nat, ..self }.debit(from, amount@).record(
            ERC20Event::Transfer { from, to: zero_address(), amount },
        )
    }

    /// The state after `amount` moved from `from` to `to`.
    pub open spec fn moved(self, from: Address, to: Address, amount: U256) -> ERC20State {
        self.debit(from, amount@).credit(to, amount@).record(
            ERC20Event::Transfer { from, to, amount },
        )
    }

    /// The state after `owner` allowed `spender` exactly `amount`.
    pub open spec fn approved(self, owner: Address, spender: Address, amount: U256) -> ERC20State {
        ERC20State { allowances: self.allowances.insert((owner, spender), amount@), ..self }.record(
            ERC20Event::Approval { owner, spender, amount },
        )
    }

    /// The state after `spender` used `amount` of what `owner` allowed. An
    /// allowance of `u256_max()` is unlimited and stays as it is.
    pub open spec fn spent(self, owner: Address, spender: Address, amount: nat) -> ERC20State {
        if self.allowances[(owner, spender)] == u256_max() {
            self
        } else {
            ERC20State {
                allowances: self.allowances.insert(
                    (owner, spender),
                    (self.allowances[(owner, spender)] - amount) as nat,
                ),
                ..self
            }
        }
    }

    /// Whether `caller` may move `amount` of `from`: as `from` itself, or
    /// within what `from` allowed it.
    pub open spec fn may_spend(self, caller: Address, from: Address, amount: nat) -> bool {
        caller == from || self.allowances[(from, caller)] == u256_max() || amount
            <= self.allowances[(from, caller)]
    }

    /// What `spend_allowance` does.
    pub open spec fn spend_result(self, owner: Address, spender: Address, amount: U256) -> Result<
        ERC20State,
        ERC20Error,
    > {
        if self.allowances[(owner, spender)] != u256_max() && self.allowances[(owner, spender)]
            < amount@ {
            Err(ERC20Error::InsufficientAllowance)
        } else {
            Ok(self.spent(owner, spender, amount@))
        }
    }

    /// What `mint` does.
    pub open spec fn mint_result(self, to: Address, amount: U256) -> Result<ERC20State, ERC20Error> {
        if self.supply + amount@ > u256_max() {
            Err(ERC20Error::Overflow)
        } else {
            Ok(self.minted(to, amount))
        }
    }

    /// What `burn` does.
    pub open spec fn burn_result(self, from: Address, amount: U256) -> Result<
        ERC20State,
        ERC20Error,
    > {
        if self.balances[from] < amount@ {
            Err(ERC20Error::InsufficientBalance)
        } else {
            Ok(self.burned(from, amount))
        }
    }

    /// What `transfer` does.
    pub open spec fn transfer_result(self, from: Address, to: Address, amount: U256) -> Result<
        ERC20State,
        ERC20Error,
    > {
        if to == zero_address() {
            Err(ERC20Error::InvalidRecipient)
        } else if self.balances[from] < amount@ {
            Err(ERC20Error::InsufficientBalance)
        } else {
            Ok(self.moved(from, to, amount))
        }
    }

    /// What `transfer_from` does.
    pub open spec fn transfer_from_result(
        self,
        caller: Address,
        from: Address,
        to: Address,
        amount: U256,
    ) -> Result<ERC20State, ERC20Error> {
        if to == zero_address() {
            Err(ERC20Error::InvalidRecipient)
        } else if !self.may_spend(caller, from, amount@) {
            Err(ERC20Error::InsufficientAllowance)
        } else if self.balances[from] < amount@ {
            Err(ERC20Error::InsufficientBalance)
        } else if caller == from {
            Ok(self.moved(from, to, amount))
        } else {
            Ok(self.spent(from, caller, amount@).moved(from, to, amount))
        }
    }

    /// Whether what the recovery service reported shows that `owner`
    /// signed `digest`.
    pub open spec fn signed_by(recovery: Recovery, digest: Seq<u8>, owner: Address) -> bool {
        recovery.digest@ == digest && recovery.signer == Some(owner) && owner != zero_address()
    }

    /// What `permit` does, where `digest` is the digest of the permit under
    /// the owner's current nonce.
    pub open spec fn permit_result(
        self,
        owner: Address,
        spender: Address,
        value: U256,
        deadline: U256,
        now: u64,
        digest: Seq<u8>,
        recovery: Recovery,
    ) -> Result<ERC20State, ERC20Error> {
        if deadline@ < now {
            Err(ERC20Error::PermitDeadlineExpired)
        } else if !Self::signed_by(recovery, digest, owner) {
            Err(ERC20Error::InvalidSigner)
        } else if self.nonces[owner] + 1 > u256_max() {
            Err(ERC20Error::Overflow)
        } else {
            Ok(
                ERC20State {
                    nonces: self.nonces.insert(owner, self.nonces[owner] + 1),
                    ..self
                }.approved(owner, spender, value),
            )
        }
    }
}

impl ERC20State {
    /// A permit is good for one use. Once it has been accepted the owner's
    /// nonce is one higher, so the digest to be signed is another one; and
    /// what the recovery service reported for the old digest is rejected:
    /// with `PermitDeadlineExpired` where the deadline has passed by then,
    /// else with `InvalidSigner`. The law speaks of digests that differ:
    /// two digests that collide would be indistinguishable.
    pub proof fn lemma_permit_used_once(
        self,
        owner: Address,
        spender: Address,
        value: U256,
        deadline: U256,
        now: u64,
        later: u64,
        digest: Seq<u8>,
        next_digest: Seq<u8>,
        recovery: Recovery,
    )
        requires
            self.permit_result(owner, spender, value, deadline, now, digest, recovery) is Ok,
            next_digest != digest,
        ensures
            ({
                let after = self.permit_result(
                    owner,
                    spender,
                    value,
                    deadline,
                    now,
                    digest,
                    recovery,
                ).unwrap();
                &&& after.nonces[owner] == self.nonces[owner] + 1
                &&& after.allowances[(owner, spender)] == value@
                &&& after.permit_result(
                    owner,
                    spender,
                    value,
                    deadline,
                    later,
                    next_digest,
                    recovery,
                ) == Err::<ERC20State, ERC20Error>(
                    if deadline@ < later {
                        ERC20Error::PermitDeadlineExpired
                    } else {
                        ERC20Error::InvalidSigner
                    },
                )
            }),
    {
    }

    /// A permit whose deadline has passed is rejected whatever the
    /// recovery service reported.
    pub proof fn lemma_permit_expired(
        self,
        owner: Address,
        spender: Address,
        value: U256,
        deadline: U256,
        now: u64,
        digest: Seq<u8>,
        recovery: Recovery,
    )
        requires
            deadline@ < now,
        ensures
            self.permit_result(owner, spender, value, deadline, now, digest, recovery) == Err::<
                ERC20State,
                ERC20Error,
            >(ERC20Error::PermitDeadlineExpired),
    {
    }

    /// An unlimited allowance is never used up: a transfer on behalf of a
    /// spender whose allowance is the largest value leaves it there,
    /// whatever the amount.
    pub proof fn lemma_unlimited_allowance_stays(
        self,
        caller: Address,
        from: Address,
        to: Address,
        amount: U256,
    )
        requires
            self.allowances[(from, caller)] == u256_max(),
            self.transfer_from_result(caller, from, to, amount) is Ok,
        ensures
            self.transfer_from_result(caller, from, to, amount).unwrap().allowances[(from, caller)]
                == u256_max(),
    {
    }

    /// A transfer or a burn of more than the source holds fails.
    pub proof fn lemma_no_overdraft(self, caller: Address, from: Address, to: Address, amount: U256)
        requires
            self.balances[from] < amount@,
        ensures
            self.transfer_result(from, to, amount) is Err,
            self.transfer_from_result(caller, from, to, amount) is Err,
            self.burn_result(from, amount) is Err,
    {
    }
}

/// The share of one account in the sum of all balances.
pub open spec fn balance_weight() -> spec_fn(Address, U256) -> nat {
    |account: Address, balance: U256| balance@
}

/// The ledger of a fungible asset.
#[derive(Clone, Debug)]
pub struct ERC20<T: ERC20Params> {
    params: T,
    total_supply: U256,
    balance: Table<Address, U256>,
    allowance: Table<(Address, Address), U256>,
    nonces: Table<Address, U256>,
    events: Vec<ERC20Event>,
}

impl<T: ERC20Params> View for ERC20<T> {
    type V = ERC20State;

    closed spec fn view(&self) -> ERC20State {
        ERC20State {
            supply: self.total_supply@,
            balances: Map::total(|a: Address| self.balance@[a]@),
            allowances: Map::total(|p: (Address, Address)| self.allowance@[p]@),
            nonces: Map::total(|a: Address| self.nonces@[a]@),
            log: self.events@,
        }
    }
}

impl<T: ERC20Params> ERC20<T> {
    /// The sum of the balances of all accounts.
    pub closed spec fn sum_of_balances(&self) -> nat {
        self.balance.tally(balance_weight())
    }

    /// The ledger is consistent: the balances add up to the total supply.
    pub closed spec fn wf(&self) -> bool {
        &&& self.balance.wf()
        &&& self.allowance.wf()
        &&& self.nonces.wf()
        &&& self.balance.blank() == U256 { hi: 0, lo: 0 }
        &&& self.allowance.blank() == U256 { hi: 0, lo: 0 }
        &&& self.nonces.blank() == U256 { hi: 0, lo: 0 }
        &&& self.sum_of_balances() == self.total_supply@
    }

    /// What the deployment fixed about the asset.
    pub closed spec fn params(&self) -> T {
        self.params
    }

    /// In a consistent ledger the balances add up to the total supply, every
    /// quantity fits in 256 bits, and every key has a value.
    pub proof fn lemma_consistent(&self)
        requires
            self.wf(),
        ensures
            self.sum_of_balances() == self@.supply,
            self@.supply <= u256_max(),
            forall|a: Address| #[trigger] self@.balances[a] <= self@.supply,
            forall|p: (Address, Address)| #[trigger] self@.allowances[p] <= u256_max(),
            forall|a: Address| #[trigger] self@.nonces[a] <= u256_max(),
    {
        self.total_supply.lemma_bounded();
        assert(vanishes(balance_weight(), self.balance.blank())) by {
            assert(0 * crate::primitives::pow2_128() == 0) by (nonlinear_arith);
        }
        assert forall|a: Address| #[trigger] self@.balances[a] <= self@.supply by {
            self.balance.lemma_tally_covers(balance_weight(), a);
        }
        assert forall|p: (Address, Address)| #[trigger] self@.allowances[p] <= u256_max() by {
            self.allowance@[p].lemma_bounded();
        }
        assert forall|a: Address| #[trigger] self@.nonces[a] <= u256_max() by {
            self.nonces@[a].lemma_bounded();
        }
    }

    /// The accounts that ever held a balance, each once.
    pub closed spec fn holders(&self) -> Seq<Address> {
        self.balance.keys()
    }

    /// Conservation: the balances add up to the total supply. The accounts
    /// that ever held a balance are finitely many, every other account
    /// holds nothing, and the balances of those accounts, each counted
    /// once, sum to the total supply.
    pub proof fn lemma_conservation(&self)
        requires
            self.wf(),
        ensures
            self.holders().no_duplicates(),
            forall|a: Address| !self.holders().contains(a) ==> #[trigger] self@.balances[a] == 0,
            sum_at(self.holders(), self@.balances) == self@.supply,
    {
        assert(0 * crate::primitives::pow2_128() == 0) by (nonlinear_arith);
        self.balance.lemma_tally_by_keys(balance_weight(), self@.balances);
        assert forall|a: Address| !self.holders().contains(a) implies #[trigger]
            self@.balances[a] == 0 by {
            assert(self.balance@[a] == self.balance.blank());
        }
    }

    /// Two different accounts together hold no more than the total supply.
    pub proof fn lemma_two_accounts(&self, a: Address, b: Address)
        requires
            self.wf(),
            a != b,
        ensures
            self@.balances[a] + self@.balances[b] <= self@.supply,
    {
        assert(vanishes(balance_weight(), self.balance.blank())) by {
            assert(0 * crate::primitives::pow2_128() == 0) by (nonlinear_arith);
        }
        self.balance.lemma_tally_covers_two(balance_weight(), a, b);
    }

    /// An empty ledger: nothing was created, allowed or logged.
    pub fn new(params: T) -> (r: Self)
        ensures
            r.wf(),
            r.params() == params,
            r@ == ERC20State::empty(),
    {
        let r = ERC20 {
            params,
            total_supply: U256::zero(),
            balance: Table::new(U256::zero()),
            allowance: Table::new(U256::zero()),
            nonces: Table::new(U256::zero()),
            events: Vec::new(),
        };
        proof {
            assert(0 * crate::primitives::pow2_128() == 0) by (nonlinear_arith);
            assert(r@.balances =~= Map::total(|a: Address| 0nat));
            assert(r@.allowances =~= Map::total(|p: (Address, Address)| 0nat));
            assert(r@.nonces =~= Map::total(|a: Address| 0nat));
            assert(r@.log =~= Seq::empty());
        }
        r
    }

    /// Hands the logged records to the host and empties the log.
    pub fn take_events(&mut self) -> (r: Vec<ERC20Event>)
        requires
            old(self).wf(),
        ensures
            final(self).wf(),
            r@ == old(self)@.log,
            final(self)@ == (ERC20State { log: Seq::empty(), ..old(self)@ }),
            final(self).params() == old(self).params(),
    {
        let mut out: Vec<ERC20Event> = Vec::new();
        std::mem::swap(&mut self.events, &mut out);
        out
    }

    pub fn name(&self) -> (r: Result<String, ERC20Error>)
        ensures
            r.is_ok(),
            r.unwrap()@ == self.params().name_text(),
    {
        Ok(self.params.name())
    }

    pub fn symbol(&self) -> (r: Result<String, ERC20Error>)
        ensures
            r.is_ok(),
            r.unwrap()@ == self.params().symbol_text(),
    {
        Ok(self.params.symbol())
    }

    pub fn decimals(&self) -> (r: Result<u8, ERC20Error>)
        ensures
            r == Ok::<u8, ERC20Error>(self.params().decimal_places()),
    {
        Ok(self.params.decimals())
    }

    pub fn total_supply(&self) -> (r: Result<U256, ERC20Error>)
        ensures
            r.is_ok(),
            r.unwrap()@ == self@.supply,
    {
        Ok(self.total_supply)
    }

    pub fn balance_of(&self, owner: Address) -> (r: Result<U256, ERC20Error>)
        requires
            self.wf(),
        ensures
            r.is_ok(),
            r.unwrap()@ == self@.balances[owner],
    {
        Ok(self.balance.get(&owner))
    }

    pub fn allowance(&self, owner: Address, spender: Address) -> (r: Result<U256, ERC20Error>)
        requires
            self.wf(),
        ensures
            r.is_ok(),
            r.unwrap()@ == self@.allowances[(owner, spender)],
    {
        Ok(self.allowance.get(&(owner, spender)))
    }

    pub fn nonces(&self, owner: Address) -> (r: Result<U256, ERC20Error>)
        requires
            self.wf(),
        ensures
            r.is_ok(),
            r.unwrap()@ == self@.nonces[owner],
    {
        Ok(self.nonces.get(&owner))
    }

    /// Creates `amount` for `to`. Fails with `Overflow`, and changes
    /// nothing, where the total supply would no longer fit in 256 bits.
    pub fn mint(&mut self, to: Address, amount: U256) -> (r: Result<(), ERC20Error>)
        requires
            old(self).wf(),
        ensures
            final(self).wf(),
            final(self).params() == old(self).params(),
            match old(self)@.mint_result(to, amount) {
                Ok(state) => r == Ok::<(), ERC20Error>(()) && final(self)@ == state,
                Err(e) => r == Err::<(), ERC20Error>(e) && *final(self) == *old(self),
            },
    {
        proof {
            self.lemma_consistent();
        }
        let supply = match self.total_supply.checked_add(&amount) {
            Some(s) => s,
            None => {
                return Err(ERC20Error::Overflow);
            },
        };
        let balance = self.balance.get(&to);
        assert(self@.balances[to] <= self@.supply);
        let raised = balance.checked_add(&amount).unwrap();
        self.total_supply = supply;
        self.balance.set(to, raised);
        self.events.push(ERC20Event::Transfer { from: Address::zero(), to, amount });
        proof {
            let expected = old(self)@.minted(to, amount);
            assert(self@.balances =~= expected.balances);
            assert(self@.allowances =~= expected.allowances);
            assert(self@.nonces =~= expected.nonces);
            assert(self@.log =~= expected.log);
        }
        Ok(())
    }

    /// Destroys `amount` of `from`. Fails with `InsufficientBalance`, and
    /// changes nothing, where `from` holds less.
    pub fn burn(&mut self, from: Address, amount: U256) -> (r: Result<(), ERC20Error>)
        requires
            old(self).wf(),
        ensures
            final(self).wf(),
            final(self).params() == old(self).params(),
            match old(self)@.burn_result(from, amount) {
                Ok(state) => r == Ok::<(), ERC20Error>(()) && final(self)@ == state,
                Err(e) => r == Err::<(), ERC20Error>(e) && *final(self) == *old(self),
            },
            old(self)@.balances[from] < amount@ ==> r.is_err() && *final(self) == *old(self),
    {
        proof {
            self.lemma_consistent();
        }
        let balance = self.balance.get(&from);
        let lowered = match balance.checked_sub(&amount) {
            Some(b) => b,
            None => {
                return Err(ERC20Error::InsufficientBalance);
            },
        };
        assert(self@.balances[from] <= self@.supply);
        let supply = self.total_supply.checked_sub(&amount).unwrap();
        self.balance.set(from, lowered);
        self.total_supply = supply;
        self.events.push(ERC20Event::Transfer { from, to: Address::zero(), amount });
        proof {
            let expected = old(self)@.burned(from, amount);
            assert(self@.balances =~= expected.balances);
            assert(self@.allowances =~= expected.allowances);
            assert(self@.nonces =~= expected.nonces);
            assert(self@.log =~= expected.log);
        }
        Ok(())
    }

    /// Moves `amount` between two balances of a consistent ledger in which
    /// `from` holds at least `amount`.
    fn move_balance(&mut self, from: Address, to: Address, amount: U256)
        requires
            old(self).wf(),
            old(self)@.balances[from] >= amount@,
        ensures
            final(self).wf(),
            final(self).params() == old(self).params(),
            final(self)@ == old(self)@.moved(from, to, amount),
    {
        proof {
            self.lemma_consistent();
            if from != to {
                self.lemma_two_accounts(from, to);
            }
        }
        let held = self.balance.get(&from);
        let lowered = held.checked_sub(&amount).unwrap();
        self.balance.set(from, lowered);
        let kept = self.balance.get(&to);
        let raised = kept.checked_add(&amount).unwrap();
        self.balance.set(to, raised);
        self.events.push(ERC20Event::Transfer { from, to, amount });
        proof {
            let expected = old(self)@.moved(from, to, amount);
            assert(self@.balances =~= expected.balances);
            assert(self@.allowances =~= expected.allowances);
            assert(self@.nonces =~= expected.nonces);
            assert(self@.log =~= expected.log);
        }
    }

    /// Sets what `caller` allows `spender` to exactly `amount`, whatever it
    /// was before.
    pub fn approve(&mut self, caller: Address, spender: Address, amount: U256) -> (r: Result<
        bool,
        ERC20Error,
    >)
        requires
            old(self).wf(),
        ensures
            final(self).wf(),
            final(self).params() == old(self).params(),
            r == Ok::<bool, ERC20Error>(true),
            final(self)@ == old(self)@.approved(caller, spender, amount),
    {
        self.allowance.set((caller, spender), amount);
        self.events.push(ERC20Event::Approval { owner: caller, spender, amount });
        proof {
            let expected = old(self)@.approved(caller, spender, amount);
            assert(self@.balances =~= expected.balances);
            assert(self@.allowances =~= expected.allowances);
            assert(self@.nonces =~= expected.nonces);
            assert(self@.log =~= expected.log);
        }
        Ok(true)
    }

    /// Uses up `amount` of what `owner` allows `spender`. An allowance of
    /// the largest value is unlimited and stays as it is. Fails with
    /// `InsufficientAllowance`, and changes nothing, where a limited
    /// allowance is smaller than `amount`.
    pub fn spend_allowance(&mut self, owner: Address, spender: Address, amount: U256) -> (r: Result<
        (),
        ERC20Error,
    >)
        requires
            old(self).wf(),
        ensures
            final(self).wf(),
            final(self).params() == old(self).params(),
            match old(self)@.spend_result(owner, spender, amount) {
                Ok(state) => r == Ok::<(), ERC20Error>(()) && final(self)@ == state,
                Err(e) => r == Err::<(), ERC20Error>(e) && *final(self) == *old(self),
            },
            old(self)@.allowances[(owner, spender)] == u256_max() ==> *final(self) == *old(self),
    {
        let allowed = self.allowance.get(&(owner, spender));
        if allowed.is_max() {
            return Ok(());
        }
        let rest = match allowed.checked_sub(&amount) {
            Some(a) => a,
            None => {
                return Err(ERC20Error::InsufficientAllowance);
            },
        };
        self.allowance.set((owner, spender), rest);
        proof {
            let expected = old(self)@.spent(owner, spender, amount@);
            assert(self@.balances =~= expected.balances);
            assert(self@.allowances =~= expected.allowances);
            assert(self@.nonces =~= expected.nonces);
            assert(self@.log =~= expected.log);
        }
        Ok(())
    }

    /// Moves `amount` from `caller` to `to`. Fails, and changes nothing,
    /// where `to` is the zero address (`InvalidRecipient`) or `caller` holds
    /// less than `amount` (`InsufficientBalance`).
    pub fn transfer(&mut self, caller: Address, to: Address, amount: U256) -> (r: Result<
        bool,
        ERC20Error,
    >)
        requires
            old(self).wf(),
        ensures
            final(self).wf(),
            final(self).params() == old(self).params(),
            match old(self)@.transfer_result(caller, to, amount) {
                Ok(state) => r == Ok::<bool, ERC20Error>(true) && final(self)@ == state,
                Err(e) => r == Err::<bool, ERC20Error>(e) && *final(self) == *old(self),
            },
            old(self)@.balances[caller] < amount@ ==> r.is_err() && *final(self) == *old(self),
    {
        if to.is_zero() {
            return Err(ERC20Error::InvalidRecipient);
        }
        let held = self.balance.get(&caller);
        if held.lt(&amount) {
            return Err(ERC20Error::InsufficientBalance);
        }
        self.move_balance(caller, to, amount);
        Ok(true)
    }

    /// Moves `amount` from `from` to `to` on behalf of `caller`, who must be
    /// `from` or hold an allowance of `from` that covers `amount`. The
    /// allowance goes down by `amount` unless it is the largest value, which
    /// stands for "unlimited". Fails, and changes nothing, where `to` is the
    /// zero address, the allowance is too small or the balance is too small.
    pub fn transfer_from(&mut self, caller: Address, from: Address, to: Address, amount: U256) -> (r:
        Result<bool, ERC20Error>)
        requires
            old(self).wf(),
        ensures
            final(self).wf(),
            final(self).params() == old(self).params(),
            match old(self)@.transfer_from_result(caller, from, to, amount) {
                Ok(state) => r == Ok::<bool, ERC20Error>(true) && final(self)@ == state,
                Err(e) => r == Err::<bool, ERC20Error>(e) && *final(self) == *old(self),
            },
            old(self)@.balances[from] < amount@ ==> r.is_err() && *final(self) == *old(self),
            old(self)@.allowances[(from, caller)] == u256_max() ==> final(self)@.allowances[(
                from,
                caller,
            )] == u256_max(),
    {
        if to.is_zero() {
            return Err(ERC20Error::InvalidRecipient);
        }
        let direct = caller == from;
        let allowed = self.allowance.get(&(from, caller));
        if !direct && !allowed.is_max() && allowed.lt(&amount) {
            return Err(ERC20Error::InsufficientAllowance);
        }
        let held = self.balance.get(&from);
        if held.lt(&amount) {
            return Err(ERC20Error::InsufficientBalance);
        }
        if !direct {
            self.spend_allowance(from, caller, amount).unwrap();
        }
        self.move_balance(from, to, amount);
        Ok(true)
    }

    /// The domain separator computed afresh for `chain_id` and the contract
    /// at `this`.
    pub fn compute_domain_separator(&self, chain_id: u64, this: Address) -> (r: Result<
        B256,
        ERC20Error,
    >)
        ensures
            r.is_ok(),
            r.unwrap()@ == domain_separator_of(
                vstd::utf8::encode_utf8(self.params().name_text()),
                chain_id,
                this,
            ),
    {
        let name = self.params.name();
        Ok(domain_separator(name.as_str(), chain_id, &this))
    }

    /// The domain separator under which permits are signed on `chain_id`.
    pub open spec fn domain_separator_on(&self, chain_id: u64, this: Address) -> Seq<u8> {
        if chain_id == self.params().first_chain_id() {
            self.params().first_domain_separator()@
        } else {
            domain_separator_of(
                vstd::utf8::encode_utf8(self.params().name_text()),
                chain_id,
                this,
            )
        }
    }

    /// The domain separator for the current chain: the one fixed at
    /// deployment while the chain is the one known then, and one computed
    /// for this call on any other chain.
    pub fn domain_separator(&self, chain_id: u64, this: Address) -> (r: Result<B256, ERC20Error>)
        ensures
            r.is_ok(),
            r.unwrap()@ == self.domain_separator_on(chain_id, this),
    {
        if chain_id == self.params.initial_chain_id() {
            Ok(self.params.initial_domain_separator())
        } else {
            self.compute_domain_separator(chain_id, this)
        }
    }

    /// The digest that `owner` has to sign now for a permit with these
    /// fields: it covers the owner's current nonce.
    pub open spec fn permit_digest_now(
        &self,
        owner: Address,
        spender: Address,
        value: U256,
        deadline: U256,
        chain_id: u64,
        this: Address,
    ) -> Seq<u8> {
        permit_digest_of(
            self.domain_separator_on(chain_id, this),
            owner,
            spender,
            value,
            U256::of_nat(self@.nonces[owner]),
            deadline,
        )
    }

    /// A permit cannot be used twice. Where the ledger accepted a permit and
    /// became `after`, the owner's nonce is one higher, what is hashed for
    /// the same permit is no longer the same bytes, and what the recovery
    /// service reported for the accepted permit is rejected by `after`:
    /// with `PermitDeadlineExpired` where the deadline has passed by then,
    /// else with `InvalidSigner`. The law speaks of a hash that sends the
    /// two messages, which differ, to different digests.
    pub proof fn lemma_replay_rejected(
        &self,
        after: &ERC20<T>,
        owner: Address,
        spender: Address,
        value: U256,
        deadline: U256,
        now: u64,
        later: u64,
        chain_id: u64,
        this: Address,
        recovery: Recovery,
    )
        requires
            self.wf(),
            after.params() == self.params(),
            self@.permit_result(
                owner,
                spender,
                value,
                deadline,
                now,
                self.permit_digest_now(owner, spender, value, deadline, chain_id, this),
                recovery,
            ) == Ok::<ERC20State, ERC20Error>(after@),
            after.permit_digest_now(owner, spender, value, deadline, chain_id, this)
                != self.permit_digest_now(owner, spender, value, deadline, chain_id, this),
        ensures
            after@.nonces[owner] == self@.nonces[owner] + 1,
            permit_fields(owner, spender, value, U256::of_nat(after@.nonces[owner]), deadline)
                != permit_fields(
                owner,
                spender,
                value,
                U256::of_nat(self@.nonces[owner]),
                deadline,
            ),
            after@.permit_result(
                owner,
                spender,
                value,
                deadline,
                later,
                after.permit_digest_now(owner, spender, value, deadline, chain_id, this),
                recovery,
            ) == Err::<ERC20State, ERC20Error>(
                if deadline@ < later {
                    ERC20Error::PermitDeadlineExpired
                } else {
                    ERC20Error::InvalidSigner
                },
            ),
    {
        let n = self@.nonces[owner];
        self.lemma_consistent();
        if U256::of_nat(n + 1) == U256::of_nat(n) {
            U256::lemma_of_nat_injective(n + 1, n);
        }
        lemma_permit_fields_follow_nonce(
            owner,
            spender,
            value,
            U256::of_nat(n + 1),
            U256::of_nat(n),
            deadline,
        );
    }

    /// Computes the digest that `owner` has to sign now for a permit.
    pub fn permit_digest(
        &self,
        owner: Address,
        spender: Address,
        value: U256,
        deadline: U256,
        chain_id: u64,
        this: Address,
    ) -> (r: B256)
        requires
            self.wf(),
        ensures
            r@ == self.permit_digest_now(owner, spender, value, deadline, chain_id, this),
    {
        let separator = self.domain_separator(chain_id, this).unwrap();
        let nonce = self.nonces.get(&owner);
        proof {
            U256::lemma_of_nat(nonce);
        }
        permit_digest(&separator, &owner, &spender, &value, &nonce, &deadline)
    }

    /// Sets what `owner` allows `spender` to `value`, on the strength of a
    /// signature instead of a call by `owner`. `recovery` is what the
    /// recovery service reported for the signature that came with the
    /// request. Fails, and changes nothing: with `PermitDeadlineExpired`
    /// where `deadline` is before `now`, whatever the signature; with
    /// `InvalidSigner` unless the service was asked about the digest of this
    /// permit under the owner's current nonce and found `owner`, who is not
    /// the zero address. On success the owner's nonce goes up by one.
    pub fn permit(
        &mut self,
        owner: Address,
        spender: Address,
        value: U256,
        deadline: U256,
        now: u64,
        chain_id: u64,
        this: Address,
        recovery: Recovery,
    ) -> (r: Result<(), ERC20Error>)
        requires
            old(self).wf(),
        ensures
            final(self).wf(),
            final(self).params() == old(self).params(),
            match old(self)@.permit_result(
                owner,
                spender,
                value,
                deadline,
                now,
                old(self).permit_digest_now(owner, spender, value, deadline, chain_id, this),
                recovery,
            ) {
                Ok(state) => r == Ok::<(), ERC20Error>(()) && final(self)@ == state,
                Err(e) => r == Err::<(), ERC20Error>(e) && *final(self) == *old(self),
            },
            deadline@ < now ==> r == Err::<(), ERC20Error>(ERC20Error::PermitDeadlineExpired),
    {
        if deadline.lt(&U256::from_u64(now)) {
            return Err(ERC20Error::PermitDeadlineExpired);
        }
        let digest = self.permit_digest(owner, spender, value, deadline, chain_id, this);
        let signer = match recovery.signer {
            Some(a) => a,
            None => {
                return Err(ERC20Error::InvalidSigner);
            },
        };
        if recovery.digest != digest || signer.is_zero() || signer != owner {
            assert(recovery.digest@ == digest@ ==> recovery.digest.bytes =~= digest.bytes);
            return Err(ERC20Error::InvalidSigner);
        }
        let nonce = self.nonces.get(&owner);
        let next = match nonce.checked_add(&U256::from_u64(1)) {
            Some(n) => n,
            None => {
                return Err(ERC20Error::Overflow);
            },
        };
        self.nonces.set(owner, next);
        self.allowance.set((signer, spender), value);
        self.events.push(ERC20Event::Approval { owner, spender, amount: value });
        proof {
            let expected = (ERC20State {
                nonces: old(self)@.nonces.insert(owner, old(self)@.nonces[owner] + 1),
                ..old(self)@
            }).approved(owner, spender, value);
            assert(self@.balances =~= expected.balances);
            assert(self@.allowances =~= expected.allowances);
            assert(self@.nonces =~= expected.nonces);
            assert(self@.log =~= expected.log);
        }
        Ok(())
    }
}

} // verus!
