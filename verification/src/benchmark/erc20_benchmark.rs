//! A fungible token that anyone may create for themselves.

use crate::address::{zero_word, Address, B256};
use crate::erc20::{ERC20Error, ERC20Params, ERC20State, ERC20};
use crate::primitives::U256;
use vstd::prelude::*;

verus! {

/// What is fixed about the token.
#[derive(Clone, Copy, Debug)]
pub struct SampleParams;

impl ERC20Params for SampleParams {
    open spec fn name_text(&self) -> Seq<char> {
        "MyToken"@
    }

    open spec fn symbol_text(&self) -> Seq<char> {
        "MTK"@
    }

    open spec fn decimal_places(&self) -> u8 {
        18
    }

    open spec fn first_chain_id(&self) -> u64 {
        1
    }

    open spec fn first_domain_separator(&self) -> B256 {
        zero_word()
    }

    fn name(&self) -> (r: String) {
        "MyToken".to_owned()
    }

    fn symbol(&self) -> (r: String) {
        "MTK".to_owned()
    }

    fn decimals(&self) -> (r: u8) {
        18
    }

    fn initial_chain_id(&self) -> (r: u64) {
        1
    }

    fn initial_domain_separator(&self) -> (r: B256) {
        B256::zero()
    }
}

/// The token.
#[derive(Clone, Debug)]
pub struct MyToken {
    /// The ledger of the token.
    pub erc20: ERC20<SampleParams>,
}

impl MyToken {
    /// The ledger of the token.
    pub closed spec fn ledger(&self) -> ERC20<SampleParams> {
        self.erc20
    }

    /// A token of which nothing exists yet.
    pub fn new() -> (r: Self)
        ensures
            r.ledger().wf(),
            r.ledger()@ == ERC20State::empty(),
    {
        MyToken { erc20: ERC20::new(SampleParams) }
    }

    /// Creates `amount` for `caller`. Fails, and changes nothing, where the
    /// ledger refuses.
    pub fn mint(&mut self, caller: Address, amount: U256) -> (r: Result<(), ERC20Error>)
        requires
            old(self).ledger().wf(),
        ensures
            final(self).ledger().wf(),
            match old(self).ledger()@.mint_result(caller, amount) {
                Ok(state) => r == Ok::<(), ERC20Error>(()) && final(self).ledger()@ == state,
                Err(e) => r == Err::<(), ERC20Error>(e) && *final(self) == *old(self),
            },
    {
        self.erc20.mint(caller, amount)
    }
}

} // verus!
