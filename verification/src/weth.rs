//! Wrapped ether: a fungible asset that is created against ether paid in
//! and destroyed against ether paid out.

use crate::address::{zero_word, Address, B256};
use crate::erc20::{ERC20Error, ERC20Params, ERC20State, ERC20};
use crate::primitives::U256;
use vstd::prelude::*;

verus! {

/// What is fixed about wrapped ether.
#[derive(Clone, Copy, Debug)]
pub struct WETHParams;

impl ERC20Params for WETHParams {
    open spec fn name_text(&self) -> Seq<char> {
        "Wrapped Ether"@
    }

    open spec fn symbol_text(&self) -> Seq<char> {
        "WETH"@
    }

    open spec fn decimal_places(&self) -> u8 {
        18
    }

    open spec fn first_chain_id(&self) -> u64 {
        1
    }

    open spec fn first_domain_separator(&self) -> B256 {
        zero_word()
    }

    fn name(&self) -> (r: String) {
        "Wrapped Ether".to_owned()
    }

    fn symbol(&self) -> (r: String) {
        "WETH".to_owned()
    }

    fn decimals(&self) -> (r: u8) {
        18
    }

    fn initial_chain_id(&self) -> (r: u64) {
        1
    }

    fn initial_domain_separator(&self) -> (r: B256) {
        B256::zero()
    }
}

/// A record of something the contract did, for the host to publish.
#[derive(Clone, Copy, Debug, PartialEq, Eq)]
pub enum WETHEvent {
    /// `from` paid in `amount`.
    Deposit { from: Address, amount: U256 },
    /// `to` is paid out `amount`.
    Withdrawal { to: Address, amount: U256 },
}

/// Ether that the host has to send.
#[derive(Clone, Copy, Debug, PartialEq, Eq)]
pub struct Payment {
    pub to: Address,
    pub amount: U256,
}

/// The contract as a mathematical value.
pub struct WETHState {
    /// The ledger of wrapped ether.
    pub token: ERC20State,
    pub log: Seq<WETHEvent>,
}

impl WETHState {
    /// What `deposit` does.
    pub open spec fn deposit_result(self, caller: Address, value: U256) -> Result<
        WETHState,
        ERC20Error,
    > {
        match self.token.mint_result(caller, value) {
            Err(e) => Err(e),
            Ok(token) => Ok(
                WETHState { token, log: self.log.push(WETHEvent::Deposit { from: caller, amount: value }) },
            ),
        }
    }

    /// What `withdraw` does.
    pub open spec fn withdraw_result(self, caller: Address, amount: U256) -> Result<
        WETHState,
        ERC20Error,
    > {
        match self.token.burn_result(caller, amount) {
            Err(e) => Err(e),
            Ok(token) => Ok(
                WETHState {
                    token,
                    log: self.log.push(WETHEvent::Withdrawal { to: caller, amount }),
                },
            ),
        }
    }
}

/// Wrapped ether.
#[derive(Clone, Debug)]
pub struct WETH {
    /// The ledger of wrapped ether.
    pub erc20: ERC20<WETHParams>,
    events: Vec<WETHEvent>,
}

impl View for WETH {
    type V = WETHState;

    closed spec fn view(&self) -> WETHState {
        WETHState { token: self.erc20@, log: self.events@ }
    }
}

impl WETH {
    /// The ledger of wrapped ether.
    pub closed spec fn ledger(&self) -> ERC20<WETHParams> {
        self.erc20
    }

    /// The ledger of wrapped ether is consistent.
    pub open spec fn wf(&self) -> bool {
        self.ledger().wf()
    }

    /// The view holds the ledger of wrapped ether as it is.
    pub proof fn lemma_view(&self)
        ensures
            self@.token == self.ledger()@,
    {
    }

    /// A contract that holds no ether.
    pub fn new() -> (r: Self)
        ensures
            r.wf(),
            r@ == (WETHState { token: ERC20State::empty(), log: Seq::empty() }),
    {
        WETH { erc20: ERC20::new(WETHParams), events: Vec::new() }
    }

    /// Hands the logged records of the contract to the host and empties
    /// its log.
    pub fn take_events(&mut self) -> (r: Vec<WETHEvent>)
        ensures
            r@ == old(self)@.log,
            final(self)@ == (WETHState { log: Seq::empty(), ..old(self)@ }),
            final(self).ledger() == old(self).ledger(),
    {
        let mut out: Vec<WETHEvent> = Vec::new();
        std::mem::swap(&mut self.events, &mut out);
        out
    }

    /// Creates wrapped ether for `caller` against the `value` it paid in.
    /// Fails, and changes nothing, where the ledger refuses.
    pub fn deposit(&mut self, caller: Address, value: U256) -> (r: Result<(), ERC20Error>)
        requires
            old(self).wf(),
        ensures
            final(self).wf(),
            match old(self)@.deposit_result(caller, value) {
                Ok(state) => r == Ok::<(), ERC20Error>(()) && final(self)@ == state,
                Err(e) => r == Err::<(), ERC20Error>(e) && *final(self) == *old(self),
            },
    {
        match self.erc20.mint(caller, value) {
            Ok(()) => {},
            Err(e) => {
                return Err(e);
            },
        }
        self.events.push(WETHEvent::Deposit { from: caller, amount: value });
        Ok(())
    }

    /// Destroys `amount` of the wrapped ether of `caller` and says what the
    /// host has to pay out for it. Fails, and changes nothing, where
    /// `caller` holds less.
    pub fn withdraw(&mut self, caller: Address, amount: U256) -> (r: Result<Payment, ERC20Error>)
        requires
            old(self).wf(),
        ensures
            final(self).wf(),
            match old(self)@.withdraw_result(caller, amount) {
                Ok(state) => r == Ok::<Payment, ERC20Error>(Payment { to: caller, amount })
                    && final(self)@ == state,
                Err(e) => r == Err::<Payment, ERC20Error>(e) && *final(self) == *old(self),
            },
    {
        match self.erc20.burn(caller, amount) {
            Ok(()) => {},
            Err(e) => {
                return Err(e);
            },
        }
        self.events.push(WETHEvent::Withdrawal { to: caller, amount });
        Ok(Payment { to: caller, amount })
    }

    /// Ether that arrives without a call is a deposit.
    pub fn receive(&mut self, caller: Address, value: U256) -> (r: Result<(), ERC20Error>)
        requires
            old(self).wf(),
        ensures
            final(self).wf(),
            match old(self)@.deposit_result(caller, value) {
                Ok(state) => r == Ok::<(), ERC20Error>(()) && final(self)@ == state,
                Err(e) => r == Err::<(), ERC20Error>(e) && *final(self) == *old(self),
            },
    {
        self.deposit(caller, value)
    }
}

} // verus!
