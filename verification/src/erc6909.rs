//! The ledger of a multi-token with allowances: for every id a supply, for
//! every owner and id a balance, and for every owner, spender and id what
//! the spender may move.

use crate::address::{zero_address, Address};
use crate::hash::{selector, selector_of};
use crate::primitives::{pow2_128, u256_max, U256};
use crate::table::{sum_at, vanishes, Table};
use vstd::prelude::*;
use vstd::string::StringSliceAdditionalSpecFns;

verus! {

/// A record of something the ledger did, for the host to publish.
#[derive(Clone, Copy, Debug, PartialEq, Eq)]
pub enum ERC6909Event {
    /// `operator` may, or may no longer, move everything `owner` holds.
    OperatorSet { owner: Address, operator: Address, approved: bool },
    /// `owner` allowed `spender` to move up to `amount` of `id`.
    Approval { owner: Address, spender: Address, id: U256, amount: U256 },
    /// At the request of `caller`, `amount` of `id` moved from `from` to
    /// `to`; the zero address stands for creation or destruction.
    Transfer { caller: Address, from: Address, to: Address, id: U256, amount: U256 },
}

/// The ways an operation on the ledger may fail.
#[derive(Clone, Copy, Debug, PartialEq, Eq)]
pub enum ERC6909Error {
    InvalidRecipient,
    InsufficientBalance,
    InsufficientAllowance,
    Overflow,
}

impl ERC6909Error {
    /// The text whose selector identifies the error to callers.
    pub open spec fn signature(&self) -> Seq<u8> {
        match self {
            ERC6909Error::InvalidRecipient => "InvalidRecipient()".spec_bytes(),
            ERC6909Error::InsufficientBalance => "InsufficientBalance()".spec_bytes(),
            ERC6909Error::InsufficientAllowance => "InsufficientAllowance()".spec_bytes(),
            ERC6909Error::Overflow => "Overflow()".spec_bytes(),
        }
    }

    /// The error as callers see it: the selector of its signature.
    pub fn encode(&self) -> (r: Vec<u8>)
        ensures
            r@ == selector_of(self.signature()),
    {
        let s = match self {
            ERC6909Error::InvalidRecipient => selector("InvalidRecipient()"),
            ERC6909Error::InsufficientBalance => selector("InsufficientBalance()"),
            ERC6909Error::InsufficientAllowance => selector("InsufficientAllowance()"),
            ERC6909Error::Overflow => selector("Overflow()"),
        };
        let r = vec![s[0], s[1], s[2], s[3]];
        assert(r@ =~= s@);
        r
    }
}

/// The ledger as a mathematical value.
pub struct ERC6909State {
    pub supplies: Map<U256, nat>,
    pub operators: Map<(Address, Address), bool>,
    pub balances: Map<(Address, U256), nat>,
    pub allowances: Map<(Address, Address, U256), nat>,
    pub log: Seq<ERC6909Event>,
}

impl ERC6909State {
    /// One more record in the log.
    pub open spec fn record(self, event: ERC6909Event) -> ERC6909State {
        ERC6909State { log: self.log.push(event), ..self }
    }

    /// `amount` more of `id` in the balance of `to`.
    pub open spec fn credit(self, to: Address, id: U256, amount: nat) -> ERC6909State {
        ERC6909State {
            balances: self.balances.insert((to, id), self.balances[(to, id)] + amount),
            ..self
        }
    }

    /// `amount` less of `id` in the balance of `from`.
    pub open spec fn debit(self, from: Address, id: U256, amount: nat) -> ERC6909State {
        ERC6909State {
            balances: self.balances.insert((from, id), (self.balances[(from, id)] - amount) as nat),
            ..self
        }
    }

    /// The state after `amount` of `id` moved from `from` to `to` at the
    /// request of `caller`.
    pub open spec fn moved(self, caller: Address, from: Address, to: Address, id: U256, amount: U256) -> ERC6909State {
        self.debit(from, id, amount@).credit(to, id, amount@).record(
            ERC6909Event::Transfer { caller, from, to, id, amount },
        )
    }

    /// Whether `caller` moves what `from` holds without an allowance: as
    /// `from` itself or as an operator of `from`.
    pub open spec fn moves_freely(self, caller: Address, from: Address) -> bool {
        caller == from || self.operators[(from, caller)]
    }

    /// Whether `caller` may move `amount` of `id` held by `from`.
    pub open spec fn may_spend(self, caller: Address, from: Address, id: U256, amount: nat) -> bool {
        self.moves_freely(caller, from) || self.allowances[(from, caller, id)] == u256_max()
            || amount <= self.allowances[(from, caller, id)]
    }

    /// The state after `spender` used `amount` of what `owner` allowed it of
    /// `id`. An allowance of `u256_max()` is unlimited and stays as it is.
    pub open spec fn spent(self, owner: Address, spender: Address, id: U256, amount: nat) -> ERC6909State {
        if self.allowances[(owner, spender, id)] == u256_max() {
            self
        } else {
            ERC6909State {
                allowances: self.allowances.insert(
                    (owner, spender, id),
                    (self.allowances[(owner, spender, id)] - amount) as nat,
                ),
                ..self
            }
        }
    }

    /// What `mint` does.
    pub open spec fn mint_result(self, caller: Address, to: Address, id: U256, amount: U256) -> Result<
        ERC6909State,
        ERC6909Error,
    > {
        if self.supplies[id] + amount@ > u256_max() {
            Err(ERC6909Error::Overflow)
        } else {
            Ok(
                ERC6909State {
                    supplies: self.supplies.insert(id, self.supplies[id] + amount@),
                    ..self
                }.credit(to, id, amount@).record(
                    ERC6909Event::Transfer { caller, from: zero_address(), to, id, amount },
                ),
            )
        }
    }

    /// What `burn` does.
    pub open spec fn burn_result(self, caller: Address, from: Address, id: U256, amount: U256) -> Result<
        ERC6909State,
        ERC6909Error,
    > {
        if self.balances[(from, id)] < amount@ {
            Err(ERC6909Error::InsufficientBalance)
        } else {
            Ok(
                ERC6909State {
                    supplies: self.supplies.insert(id, (self.supplies[id] - amount@) as nat),
                    ..self
                }.debit(from, id, amount@).record(
                    ERC6909Event::Transfer { caller, from, to: zero_address(), id, amount },
                ),
            )
        }
    }

    /// What `transfer` does.
    pub open spec fn transfer_result(self, caller: Address, to: Address, id: U256, amount: U256) -> Result<
        ERC6909State,
        ERC6909Error,
    > {
        if to == zero_address() {
            Err(ERC6909Error::InvalidRecipient)
        } else if self.balances[(caller, id)] < amount@ {
            Err(ERC6909Error::InsufficientBalance)
        } else {
            Ok(self.moved(caller, caller, to, id, amount))
        }
    }

    /// What `transfer_from` does.
    pub open spec fn transfer_from_result(
        self,
        caller: Address,
        from: Address,
        to: Address,
        id: U256,
        amount: U256,
    ) -> Result<ERC6909State, ERC6909Error> {
        if to == zero_address() {
            Err(ERC6909Error::InvalidRecipient)
        } else if !self.may_spend(caller, from, id, amount@) {
            Err(ERC6909Error::InsufficientAllowance)
        } else if self.balances[(from, id)] < amount@ {
            Err(ERC6909Error::InsufficientBalance)
        } else if self.moves_freely(caller, from) {
            Ok(self.moved(caller, from, to, id, amount))
        } else {
            Ok(self.spent(from, caller, id, amount@).moved(caller, from, to, id, amount))
        }
    }

    /// What `approve` does.
    pub open spec fn approved(self, caller: Address, spender: Address, id: U256, amount: U256) -> ERC6909State {
        ERC6909State {
            allowances: self.allowances.insert((caller, spender, id), amount@),
            ..self
        }.record(ERC6909Event::Approval { owner: caller, spender, id, amount })
    }

    /// What `set_operator` does.
    pub open spec fn operator_set(self, caller: Address, operator: Address, approved: bool) -> ERC6909State {
        ERC6909State { operators: self.operators.insert((caller, operator), approved), ..self }.record(
            ERC6909Event::OperatorSet { owner: caller, operator, approved },
        )
    }
}

/// The share of one balance in the sum of all balances of `id`.
pub open spec fn id_weight(id: U256) -> spec_fn((Address, U256), U256) -> nat {
    |key: (Address, U256), balance: U256|
        if key.1 == id {
            balance@
        } else {
            0nat
        }
}

/// The ledger of a multi-token with allowances.
#[derive(Clone, Debug)]
pub struct ERC6909 {
    total_supply: Table<U256, U256>,
    is_operator: Table<(Address, Address), bool>,
    balance_of: Table<(Address, U256), U256>,
    allowance: Table<(Address, Address, U256), U256>,
    events: Vec<ERC6909Event>,
}

impl View for ERC6909 {
    type V = ERC6909State;

    closed spec fn view(&self) -> ERC6909State {
        ERC6909State {
            supplies: Map::total(|id: U256| self.total_supply@[id]@),
            operators: self.is_operator@,
            balances: Map::total(|p: (Address, U256)| self.balance_of@[p]@),
            allowances: Map::total(|p: (Address, Address, U256)| self.allowance@[p]@),
            log: self.events@,
        }
    }
}

impl ERC6909 {
    /// The sum of the balances that all accounts hold of `id`.
    pub closed spec fn sum_of_balances(&self, id: U256) -> nat {
        self.balance_of.tally(id_weight(id))
    }

    /// The ledger is consistent: for every id the balances add up to the
    /// supply of that id.
    pub closed spec fn wf(&self) -> bool {
        &&& self.total_supply.wf()
        &&& self.is_operator.wf()
        &&& self.balance_of.wf()
        &&& self.allowance.wf()
        &&& self.total_supply.blank() == U256 { hi: 0, lo: 0 }
        &&& self.is_operator.blank() == false
        &&& self.balance_of.blank() == U256 { hi: 0, lo: 0 }
        &&& self.allowance.blank() == U256 { hi: 0, lo: 0 }
        &&& forall|id: U256| #[trigger]
            self.balance_of.tally(id_weight(id)) == self.total_supply@[id]@
    }

    proof fn lemma_weights(&self)
        requires
            self.balance_of.blank() == (U256 { hi: 0, lo: 0 }),
        ensures
            forall|id: U256| #[trigger] vanishes(id_weight(id), self.balance_of.blank()),
    {
        assert(0 * pow2_128() == 0) by (nonlinear_arith);
        assert forall|id: U256| #[trigger] vanishes(id_weight(id), self.balance_of.blank()) by {
            assert forall|k: (Address, U256)| #[trigger]
                id_weight(id)(k, self.balance_of.blank()) == 0 by {}
        }
    }

    /// In a consistent ledger the balances of an id add up to its supply,
    /// and no account holds more of an id than its supply.
    pub proof fn lemma_consistent(&self, id: U256)
        requires
            self.wf(),
        ensures
            self.sum_of_balances(id) == self@.supplies[id],
            self@.supplies[id] <= u256_max(),
            forall|a: Address| #[trigger] self@.balances[(a, id)] <= self@.supplies[id],
    {
        self.lemma_weights();
        self.total_supply@[id].lemma_bounded();
        assert(vanishes(id_weight(id), self.balance_of.blank()));
        assert forall|a: Address| #[trigger] self@.balances[(a, id)] <= self@.supplies[id] by {
            self.balance_of.lemma_tally_covers(id_weight(id), (a, id));
        }
    }

    /// The pairs of an account and an id under which a balance was ever held,
    /// each once.
    pub closed spec fn holdings(&self) -> Seq<(Address, U256)> {
        self.balance_of.keys()
    }

    /// The balances of `id`, and nothing for every other id.
    pub open spec fn balances_of_id(&self, id: U256) -> Map<(Address, U256), nat> {
        Map::total(
            |p: (Address, U256)|
                if p.1 == id {
                    self@.balances[p]
                } else {
                    0nat
                },
        )
    }

    /// Conservation for each id: the balances of `id` add up to its supply.
    /// The pairs under which a balance was ever held are finitely many,
    /// under every other pair nothing is held, and the balances of `id`
    /// under those pairs, each counted once, sum to the supply of `id`.
    pub proof fn lemma_conservation(&self, id: U256)
        requires
            self.wf(),
        ensures
            self.holdings().no_duplicates(),
            forall|p: (Address, U256)| !self.holdings().contains(p) ==> #[trigger] self@.balances[p] == 0,
            sum_at(self.holdings(), self.balances_of_id(id)) == self@.supplies[id],
    {
        assert(0 * pow2_128() == 0) by (nonlinear_arith);
        self.balance_of.lemma_tally_by_keys(id_weight(id), self.balances_of_id(id));
        assert forall|p: (Address, U256)| !self.holdings().contains(p) implies #[trigger]
            self@.balances[p] == 0 by {
            assert(self.balance_of@[p] == self.balance_of.blank());
        }
    }

    /// Two different accounts together hold no more of an id than its supply.
    pub proof fn lemma_two_accounts(&self, id: U256, a: Address, b: Address)
        requires
            self.wf(),
            a != b,
        ensures
            self@.balances[(a, id)] + self@.balances[(b, id)] <= self@.supplies[id],
    {
        self.lemma_weights();
        assert(vanishes(id_weight(id), self.balance_of.blank()));
        self.balance_of.lemma_tally_covers_two(id_weight(id), (a, id), (b, id));
    }

    /// An empty ledger: nothing exists, is allowed or is logged.
    pub fn new() -> (r: Self)
        ensures
            r.wf(),
            r@ == (ERC6909State {
                supplies: Map::total(|id: U256| 0nat),
                operators: Map::total(|p: (Address, Address)| false),
                balances: Map::total(|p: (Address, U256)| 0nat),
                allowances: Map::total(|p: (Address, Address, U256)| 0nat),
                log: Seq::empty(),
            }),
    {
        let r = ERC6909 {
            total_supply: Table::new(U256::zero()),
            is_operator: Table::new(false),
            balance_of: Table::new(U256::zero()),
            allowance: Table::new(U256::zero()),
            events: Vec::new(),
        };
        proof {
            assert(0 * pow2_128() == 0) by (nonlinear_arith);
            assert forall|id: U256| #[trigger]
                r.balance_of.tally(id_weight(id)) == r.total_supply@[id]@ by {
                assert(r.total_supply@[id] == U256 { hi: 0, lo: 0 });
            }
            assert(r@.supplies =~= Map::total(|id: U256| 0nat));
            assert(r@.balances =~= Map::total(|p: (Address, U256)| 0nat));
            assert(r@.allowances =~= Map::total(|p: (Address, Address, U256)| 0nat));
            assert(r@.log =~= Seq::empty());
        }
        r
    }

    /// Hands the logged records to the host and empties the log.
    pub fn take_events(&mut self) -> (r: Vec<ERC6909Event>)
        requires
            old(self).wf(),
        ensures
            final(self).wf(),
            r@ == old(self)@.log,
            final(self)@ == (ERC6909State { log: Seq::empty(), ..old(self)@ }),
    {
        let mut out: Vec<ERC6909Event> = Vec::new();
        std::mem::swap(&mut self.events, &mut out);
        out
    }

    pub fn total_supply(&self, id: U256) -> (r: U256)
        requires
            self.wf(),
        ensures
            r@ == self@.supplies[id],
    {
        self.total_supply.get(&id)
    }

    pub fn balance_of(&self, owner: Address, id: U256) -> (r: U256)
        requires
            self.wf(),
        ensures
            r@ == self@.balances[(owner, id)],
    {
        self.balance_of.get(&(owner, id))
    }

    pub fn allowance(&self, owner: Address, spender: Address, id: U256) -> (r: U256)
        requires
            self.wf(),
        ensures
            r@ == self@.allowances[(owner, spender, id)],
    {
        self.allowance.get(&(owner, spender, id))
    }

    pub fn is_operator(&self, owner: Address, operator: Address) -> (r: bool)
        requires
            self.wf(),
        ensures
            r == self@.operators[(owner, operator)],
    {
        self.is_operator.get(&(owner, operator))
    }

    /// Creates `amount` of `id` for `receiver`. Fails with `Overflow`, and
    /// changes nothing, where the supply of `id` would no longer fit in 256
    /// bits.
    pub fn mint(&mut self, caller: Address, receiver: Address, id: U256, amount: U256) -> (r: Result<
        (),
        ERC6909Error,
    >)
        requires
            old(self).wf(),
        ensures
            final(self).wf(),
            match old(self)@.mint_result(caller, receiver, id, amount) {
                Ok(state) => r == Ok::<(), ERC6909Error>(()) && final(self)@ == state,
                Err(e) => r == Err::<(), ERC6909Error>(e) && *final(self) == *old(self),
            },
    {
        proof {
            self.lemma_consistent(id);
            self.lemma_weights();
        }
        let supply = match self.total_supply.get(&id).checked_add(&amount) {
            Some(s) => s,
            None => {
                return Err(ERC6909Error::Overflow);
            },
        };
        let held = self.balance_of.get(&(receiver, id));
        assert(self@.balances[(receiver, id)] <= self@.supplies[id]);
        let raised = held.checked_add(&amount).unwrap();
        self.total_supply.set(id, supply);
        self.balance_of.set((receiver, id), raised);
        self.events.push(
            ERC6909Event::Transfer { caller, from: Address::zero(), to: receiver, id, amount },
        );
        proof {
            let expected = old(self)@.mint_result(caller, receiver, id, amount).unwrap();
            assert(self@.supplies =~= expected.supplies);
            assert(self@.balances =~= expected.balances);
            assert(self@.allowances =~= expected.allowances);
            assert(self@.log =~= expected.log);
            assert forall|i: U256| #[trigger]
                self.balance_of.tally(id_weight(i)) == self.total_supply@[i]@ by {
                assert(vanishes(id_weight(i), old(self).balance_of.blank()));
            }
        }
        Ok(())
    }

    /// Destroys `amount` of `id` held by `sender`. Fails with
    /// `InsufficientBalance`, and changes nothing, where `sender` holds less.
    pub fn burn(&mut self, caller: Address, sender: Address, id: U256, amount: U256) -> (r: Result<
        (),
        ERC6909Error,
    >)
        requires
            old(self).wf(),
        ensures
            final(self).wf(),
            match old(self)@.burn_result(caller, sender, id, amount) {
                Ok(state) => r == Ok::<(), ERC6909Error>(()) && final(self)@ == state,
                Err(e) => r == Err::<(), ERC6909Error>(e) && *final(self) == *old(self),
            },
            old(self)@.balances[(sender, id)] < amount@ ==> r.is_err() && *final(self) == *old(self),
    {
        proof {
            self.lemma_consistent(id);
            self.lemma_weights();
        }
        let held = self.balance_of.get(&(sender, id));
        let lowered = match held.checked_sub(&amount) {
            Some(b) => b,
            None => {
                return Err(ERC6909Error::InsufficientBalance);
            },
        };
        assert(self@.balances[(sender, id)] <= self@.supplies[id]);
        let supply = self.total_supply.get(&id).checked_sub(&amount).unwrap();
        self.balance_of.set((sender, id), lowered);
        self.total_supply.set(id, supply);
        self.events.push(
            ERC6909Event::Transfer { caller, from: sender, to: Address::zero(), id, amount },
        );
        proof {
            let expected = old(self)@.burn_result(caller, sender, id, amount).unwrap();
            assert(self@.supplies =~= expected.supplies);
            assert(self@.balances =~= expected.balances);
            assert(self@.allowances =~= expected.allowances);
            assert(self@.log =~= expected.log);
            assert forall|i: U256| #[trigger]
                self.balance_of.tally(id_weight(i)) == self.total_supply@[i]@ by {
                assert(vanishes(id_weight(i), old(self).balance_of.blank()));
            }
        }
        Ok(())
    }

    /// Moves `amount` of `id` between two balances of a consistent ledger
    /// in which `from` holds at least `amount`.
    fn move_balance(&mut self, caller: Address, from: Address, to: Address, id: U256, amount: U256)
        requires
            old(self).wf(),
            old(self)@.balances[(from, id)] >= amount@,
        ensures
            final(self).wf(),
            final(self)@ == old(self)@.moved(caller, from, to, id, amount),
    {
        proof {
            self.lemma_consistent(id);
            self.lemma_weights();
            if from != to {
                self.lemma_two_accounts(id, from, to);
            }
        }
        let held = self.balance_of.get(&(from, id));
        let lowered = held.checked_sub(&amount).unwrap();
        self.balance_of.set((from, id), lowered);
        let kept = self.balance_of.get(&(to, id));
        let raised = kept.checked_add(&amount).unwrap();
        self.balance_of.set((to, id), raised);
        self.events.push(ERC6909Event::Transfer { caller, from, to, id, amount });
        proof {
            let expected = old(self)@.moved(caller, from, to, id, amount);
            assert(self@.supplies =~= expected.supplies);
            assert(self@.balances =~= expected.balances);
            assert(self@.allowances =~= expected.allowances);
            assert(self@.log =~= expected.log);
            assert forall|i: U256| #[trigger]
                self.balance_of.tally(id_weight(i)) == self.total_supply@[i]@ by {
                assert(vanishes(id_weight(i), old(self).balance_of.blank()));
            }
        }
    }

    /// Moves `amount` of `id` from `caller` to `receiver`. Fails, and
    /// changes nothing, where `receiver` is the zero address
    /// (`InvalidRecipient`) or `caller` holds less than `amount`
    /// (`InsufficientBalance`).
    pub fn transfer(&mut self, caller: Address, receiver: Address, id: U256, amount: U256) -> (r:
        Result<bool, ERC6909Error>)
        requires
            old(self).wf(),
        ensures
            final(self).wf(),
            match old(self)@.transfer_result(caller, receiver, id, amount) {
                Ok(state) => r == Ok::<bool, ERC6909Error>(true) && final(self)@ == state,
                Err(e) => r == Err::<bool, ERC6909Error>(e) && *final(self) == *old(self),
            },
            old(self)@.balances[(caller, id)] < amount@ ==> r.is_err() && *final(self) == *old(self),
    {
        if receiver.is_zero() {
            return Err(ERC6909Error::InvalidRecipient);
        }
        if self.balance_of.get(&(caller, id)).lt(&amount) {
            return Err(ERC6909Error::InsufficientBalance);
        }
        self.move_balance(caller, caller, receiver, id, amount);
        Ok(true)
    }

    /// Moves `amount` of `id` from `sender` to `receiver` on behalf of
    /// `caller`, who must be `sender`, an operator of `sender`, or hold an
    /// allowance of `sender` for `id` that covers `amount`. Only in the
    /// last case the allowance goes down by `amount`, unless it is the
    /// largest value, which stands for "unlimited". Fails, and changes
    /// nothing, where `receiver` is the zero address, the allowance is too
    /// small or the balance is too small.
    pub fn transfer_from(
        &mut self,
        caller: Address,
        sender: Address,
        receiver: Address,
        id: U256,
        amount: U256,
    ) -> (r: Result<bool, ERC6909Error>)
        requires
            old(self).wf(),
        ensures
            final(self).wf(),
            match old(self)@.transfer_from_result(caller, sender, receiver, id, amount) {
                Ok(state) => r == Ok::<bool, ERC6909Error>(true) && final(self)@ == state,
                Err(e) => r == Err::<bool, ERC6909Error>(e) && *final(self) == *old(self),
            },
            old(self)@.balances[(sender, id)] < amount@ ==> r.is_err() && *final(self) == *old(self),
            old(self)@.allowances[(sender, caller, id)] == u256_max() ==> final(self)@.allowances[(
                sender,
                caller,
                id,
            )] == u256_max(),
    {
        if receiver.is_zero() {
            return Err(ERC6909Error::InvalidRecipient);
        }
        let free = caller == sender || self.is_operator.get(&(sender, caller));
        let allowed = self.allowance.get(&(sender, caller, id));
        let unlimited = allowed.is_max();
        if !free && !unlimited && allowed.lt(&amount) {
            return Err(ERC6909Error::InsufficientAllowance);
        }
        if self.balance_of.get(&(sender, id)).lt(&amount) {
            return Err(ERC6909Error::InsufficientBalance);
        }
        if !free && !unlimited {
            let rest = allowed.checked_sub(&amount).unwrap();
            self.allowance.set((sender, caller, id), rest);
        }
        proof {
            let expected = if free {
                old(self)@
            } else {
                old(self)@.spent(sender, caller, id, amount@)
            };
            assert(self@.supplies =~= expected.supplies);
            assert(self@.balances =~= expected.balances);
            assert(self@.allowances =~= expected.allowances);
            assert(self@.log =~= expected.log);
            assert(self@ == expected);
        }
        self.move_balance(caller, sender, receiver, id, amount);
        Ok(true)
    }

    /// Sets what `caller` allows `spender` of `id` to exactly `amount`,
    /// whatever it was before.
    pub fn approve(&mut self, caller: Address, spender: Address, id: U256, amount: U256) -> (r:
        Result<bool, ERC6909Error>)
        requires
            old(self).wf(),
        ensures
            final(self).wf(),
            r == Ok::<bool, ERC6909Error>(true),
            final(self)@ == old(self)@.approved(caller, spender, id, amount),
    {
        self.allowance.set((caller, spender, id), amount);
        self.events.push(ERC6909Event::Approval { owner: caller, spender, id, amount });
        proof {
            let expected = old(self)@.approved(caller, spender, id, amount);
            assert(self@.supplies =~= expected.supplies);
            assert(self@.balances =~= expected.balances);
            assert(self@.allowances =~= expected.allowances);
            assert(self@.log =~= expected.log);
        }
        Ok(true)
    }

    /// Lets `operator` move everything `caller` holds, or ends that.
    pub fn set_operator(&mut self, caller: Address, operator: Address, approved: bool) -> (r: Result<
        bool,
        ERC6909Error,
    >)
        requires
            old(self).wf(),
        ensures
            final(self).wf(),
            r == Ok::<bool, ERC6909Error>(true),
            final(self)@ == old(self)@.operator_set(caller, operator, approved),
    {
        self.is_operator.set((caller, operator), approved);
        self.events.push(ERC6909Event::OperatorSet { owner: caller, operator, approved });
        proof {
            let expected = old(self)@.operator_set(caller, operator, approved);
            assert(self@.supplies =~= expected.supplies);
            assert(self@.balances =~= expected.balances);
            assert(self@.allowances =~= expected.allowances);
            assert(self@.log =~= expected.log);
        }
        Ok(true)
    }

    /// The interfaces that the ledger answers for.
    pub open spec fn supported(interface: Seq<u8>) -> bool {
        ||| interface == seq![0x01u8, 0xffu8, 0xc9u8, 0xa7u8]
        ||| interface == seq![0xb2u8, 0xe6u8, 0x9fu8, 0x8au8]
    }

    pub fn supports_interface(interface: [u8; 4]) -> (r: Result<bool, ERC6909Error>)
        ensures
            r == Ok::<bool, ERC6909Error>(Self::supported(interface@)),
    {
        let a = interface[0] == 0x01 && interface[1] == 0xff && interface[2] == 0xc9 && interface[3]
            == 0xa7;
        let b = interface[0] == 0xb2 && interface[1] == 0xe6 && interface[2] == 0x9f && interface[3]
            == 0x8a;
        proof {
            assert(a == (interface@ =~= seq![0x01u8, 0xffu8, 0xc9u8, 0xa7u8]));
            assert(b == (interface@ =~= seq![0xb2u8, 0xe6u8, 0x9fu8, 0x8au8]));
        }
        Ok(a || b)
    }
}

} // verus!
