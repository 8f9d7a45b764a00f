//! A vault: shares in a pool of an underlying asset, kept in a ledger of
//! their own.

use crate::address::{zero_address, zero_word, Address, B256};
use crate::erc20::{ERC20Error, ERC20Params, ERC20State, ERC20};
use crate::hash::{selector, selector_of};
use crate::primitives::{u256_max, U256};
use vstd::prelude::*;
use vstd::string::StringSliceAdditionalSpecFns;

verus! {

/// What is fixed about the shares of a vault.
#[derive(Clone, Copy, Debug)]
pub struct ERC4626Params;

impl ERC20Params for ERC4626Params {
    open spec fn name_text(&self) -> Seq<char> {
        "Vault"@
    }

    open spec fn symbol_text(&self) -> Seq<char> {
        "VLT"@
    }

    open spec fn decimal_places(&self) -> u8 {
        18
    }

    open spec fn first_chain_id(&self) -> u64 {
        1
    }

    open spec fn first_domain_separator(&self) -> B256 {
        zero_word()
    }

    fn name(&self) -> (r: String) {
        "Vault".to_owned()
    }

    fn symbol(&self) -> (r: String) {
        "VLT".to_owned()
    }

    fn decimals(&self) -> (r: u8) {
        18
    }

    fn initial_chain_id(&self) -> (r: u64) {
        1
    }

    fn initial_domain_separator(&self) -> (r: B256) {
        B256::zero()
    }
}

/// A record of something the vault did, for the host to publish.
#[derive(Clone, Copy, Debug, PartialEq, Eq)]
pub enum ERC4626Event {
    /// `caller` paid in `assets`, and `owner` got `shares` for them.
    Deposit { caller: Address, owner: Address, assets: U256, shares: U256 },
    /// `caller` gave up `shares` of `owner`, and `receiver` is owed `assets`.
    Withdraw { caller: Address, receiver: Address, owner: Address, assets: U256, shares: U256 },
}

/// The ways an operation on the vault may fail.
#[derive(Clone, Copy, Debug, PartialEq, Eq)]
pub enum ERC4626Error {
    Unauthorized,
    AlreadyInitialized,
    InvalidInitialize,
    ZeroShares,
    /// The ledger of shares refused.
    Ledger(ERC20Error),
}

impl ERC4626Error {
    /// The text whose selector identifies the error to callers.
    pub open spec fn signature(&self) -> Seq<u8> {
        match self {
            ERC4626Error::Unauthorized => "Unauthorized()".spec_bytes(),
            ERC4626Error::AlreadyInitialized => "AlreadyInitialized()".spec_bytes(),
            ERC4626Error::InvalidInitialize => "InvalidInitialize()".spec_bytes(),
            ERC4626Error::ZeroShares => "ZeroShares()".spec_bytes(),
            ERC4626Error::Ledger(e) => e.signature(),
        }
    }

    /// The error as callers see it: the selector of its signature.
    pub fn encode(&self) -> (r: Vec<u8>)
        ensures
            r@ == selector_of(self.signature()),
    {
        let s = match self {
            ERC4626Error::Unauthorized => selector("Unauthorized()"),
            ERC4626Error::AlreadyInitialized => selector("AlreadyInitialized()"),
            ERC4626Error::InvalidInitialize => selector("InvalidInitialize()"),
            ERC4626Error::ZeroShares => selector("ZeroShares()"),
            ERC4626Error::Ledger(e) => {
                return e.encode();
            },
        };
        let r = vec![s[0], s[1], s[2], s[3]];
        assert(r@ =~= s@);
        r
    }
}

/// The vault as a mathematical value.
pub struct ERC4626State {
    /// The ledger of shares.
    pub token: ERC20State,
    /// The contract of the underlying asset.
    pub asset: Address,
    pub initialized: bool,
    pub log: Seq<ERC4626Event>,
}

impl ERC4626State {
    /// The assets that the vault manages: none.
    pub open spec fn total_assets() -> U256 {
        U256 { hi: 0, lo: 0 }
    }

    /// What a quantity of assets is worth in shares, and what a quantity of
    /// shares is worth in assets: the quantity itself while no share
    /// exists, and after that the assets that the vault manages.
    pub open spec fn converted(self, quantity: U256) -> U256 {
        if self.token.supply == 0 {
            quantity
        } else {
            Self::total_assets()
        }
    }

    /// The ledger of shares after `caller` used `shares` of what `owner`
    /// allows it, where the two differ.
    pub open spec fn allowance_used(self, caller: Address, owner: Address, shares: U256) -> Result<
        ERC20State,
        ERC20Error,
    > {
        if caller != owner {
            self.token.spend_result(owner, caller, shares)
        } else {
            Ok(self.token)
        }
    }

    /// What `initialize` does.
    pub open spec fn initialize_result(self, asset: Address) -> Result<ERC4626State, ERC4626Error> {
        if self.initialized {
            Err(ERC4626Error::AlreadyInitialized)
        } else if asset == zero_address() {
            Err(ERC4626Error::InvalidInitialize)
        } else {
            Ok(ERC4626State { asset, initialized: true, ..self })
        }
    }

    /// The vault after `shares` were created for `receiver` against `assets`.
    pub open spec fn issued(self, caller: Address, receiver: Address, assets: U256, shares: U256) -> Result<
        (ERC4626State, U256),
        ERC4626Error,
    > {
        match self.token.mint_result(receiver, shares) {
            Err(e) => Err(ERC4626Error::Ledger(e)),
            Ok(token) => Ok(
                (
                    ERC4626State {
                        token,
                        log: self.log.push(
                            ERC4626Event::Deposit { caller, owner: receiver, assets, shares },
                        ),
                        ..self
                    },
                    shares,
                ),
            ),
        }
    }

    /// What `deposit` does, and what it returns.
    pub open spec fn deposit_result(self, caller: Address, assets: U256, receiver: Address) -> Result<
        (ERC4626State, U256),
        ERC4626Error,
    > {
        let shares = self.converted(assets);
        if shares@ == 0 {
            Err(ERC4626Error::ZeroShares)
        } else {
            self.issued(caller, receiver, assets, shares)
        }
    }

    /// What `mint` does, and what it returns.
    pub open spec fn mint_result(self, caller: Address, shares: U256, receiver: Address) -> Result<
        (ERC4626State, U256),
        ERC4626Error,
    > {
        self.issued(caller, receiver, self.converted(shares), shares)
    }

    /// The vault after `shares` of `owner` were destroyed against `assets`,
    /// the allowance already used.
    pub open spec fn released(
        self,
        token: ERC20State,
        caller: Address,
        receiver: Address,
        owner: Address,
        assets: U256,
        shares: U256,
    ) -> Result<ERC4626State, ERC4626Error> {
        match token.burn_result(owner, shares) {
            Err(e) => Err(ERC4626Error::Ledger(e)),
            Ok(burned) => Ok(
                ERC4626State {
                    token: burned,
                    log: self.log.push(
                        ERC4626Event::Withdraw { caller, receiver, owner, assets, shares },
                    ),
                    ..self
                },
            ),
        }
    }

    /// What `withdraw` does, and what it returns.
    pub open spec fn withdraw_result(
        self,
        caller: Address,
        assets: U256,
        receiver: Address,
        owner: Address,
    ) -> Result<(ERC4626State, U256), ERC4626Error> {
        let shares = self.converted(assets);
        match self.allowance_used(caller, owner, shares) {
            Err(e) => Err(ERC4626Error::Ledger(e)),
            Ok(token) => match self.released(token, caller, receiver, owner, assets, shares) {
                Err(e) => Err(e),
                Ok(state) => Ok((state, shares)),
            },
        }
    }

    /// What `redeem` does, and what it returns.
    pub open spec fn redeem_result(
        self,
        caller: Address,
        shares: U256,
        receiver: Address,
        owner: Address,
    ) -> Result<(ERC4626State, U256), ERC4626Error> {
        let assets = self.converted(shares);
        match self.allowance_used(caller, owner, shares) {
            Err(e) => Err(ERC4626Error::Ledger(e)),
            Ok(token) => if assets@ == 0 {
                Err(ERC4626Error::ZeroShares)
            } else {
                match self.released(token, caller, receiver, owner, assets, shares) {
                    Err(e) => Err(e),
                    Ok(state) => Ok((state, assets)),
                }
            },
        }
    }
}

/// A vault.
#[derive(Clone, Debug)]
pub struct ERC4626 {
    /// The ledger of shares.
    pub erc20: ERC20<ERC4626Params>,
    asset: Address,
    initialized: bool,
    events: Vec<ERC4626Event>,
}

impl View for ERC4626 {
    type V = ERC4626State;

    closed spec fn view(&self) -> ERC4626State {
        ERC4626State {
            token: self.erc20@,
            asset: self.asset,
            initialized: self.initialized,
            log: self.events@,
        }
    }
}

impl ERC4626 {
    /// The ledger of shares.
    pub closed spec fn ledger(&self) -> ERC20<ERC4626Params> {
        self.erc20
    }

    /// The ledger of shares is consistent.
    pub open spec fn wf(&self) -> bool {
        self.ledger().wf()
    }

    /// The view holds the ledger of shares as it is.
    pub proof fn lemma_view(&self)
        ensures
            self@.token == self.ledger()@,
    {
    }

    /// A vault that is not yet initialized and has issued no share.
    pub fn new() -> (r: Self)
        ensures
            r.wf(),
            r@.token == ERC20State::empty(),
            r@.asset == zero_address(),
            !r@.initialized,
            r@.log == Seq::<ERC4626Event>::empty(),
    {
        ERC4626 {
            erc20: ERC20::new(ERC4626Params),
            asset: Address::zero(),
            initialized: false,
            events: Vec::new(),
        }
    }

    /// Hands the logged records of the vault to the host and empties its log.
    pub fn take_events(&mut self) -> (r: Vec<ERC4626Event>)
        ensures
            r@ == old(self)@.log,
            final(self)@ == (ERC4626State { log: Seq::empty(), ..old(self)@ }),
            final(self).ledger() == old(self).ledger(),
    {
        let mut out: Vec<ERC4626Event> = Vec::new();
        std::mem::swap(&mut self.events, &mut out);
        out
    }

    /// The contract of the underlying asset.
    pub fn asset(&self) -> (r: Address)
        ensures
            r == self@.asset,
    {
        self.asset
    }

    /// Called before shares are destroyed. Does nothing.
    pub fn before_withdraw(&mut self, assets: U256, shares: U256)
        ensures
            *final(self) == *old(self),
    {
    }

    /// Called after shares were created. Does nothing.
    pub fn after_deposit(&mut self, assets: U256, shares: U256)
        ensures
            *final(self) == *old(self),
    {
    }

    /// Names the underlying asset, once. Fails, and changes nothing, where
    /// the vault was initialized before (`AlreadyInitialized`) or `asset`
    /// is the zero address (`InvalidInitialize`).
    pub fn initialize(&mut self, asset: Address) -> (r: Result<(), ERC4626Error>)
        ensures
            match old(self)@.initialize_result(asset) {
                Ok(state) => r == Ok::<(), ERC4626Error>(()) && final(self)@ == state,
                Err(e) => r == Err::<(), ERC4626Error>(e) && *final(self) == *old(self),
            },
            final(self).ledger() == old(self).ledger(),
    {
        if self.initialized {
            return Err(ERC4626Error::AlreadyInitialized);
        }
        if asset.is_zero() {
            return Err(ERC4626Error::InvalidInitialize);
        }
        self.asset = asset;
        self.initialized = true;
        Ok(())
    }

    /// The assets that the vault manages.
    pub fn total_assets() -> (r: Result<U256, ERC4626Error>)
        ensures
            r == Ok::<U256, ERC4626Error>(ERC4626State::total_assets()),
    {
        Ok(U256::zero())
    }

    fn convert(&self, quantity: U256) -> (r: U256)
        requires
            self.wf(),
        ensures
            r == self@.converted(quantity),
    {
        let supply = self.erc20.total_supply().unwrap();
        if supply.is_zero() {
            quantity
        } else {
            U256::zero()
        }
    }

    pub fn convert_to_shares(&self, assets: U256) -> (r: Result<U256, ERC4626Error>)
        requires
            self.wf(),
        ensures
            r == Ok::<U256, ERC4626Error>(self@.converted(assets)),
    {
        Ok(self.convert(assets))
    }

    pub fn convert_to_assets(&self, shares: U256) -> (r: Result<U256, ERC4626Error>)
        requires
            self.wf(),
        ensures
            r == Ok::<U256, ERC4626Error>(self@.converted(shares)),
    {
        Ok(self.convert(shares))
    }

    pub fn preview_deposit(&self, assets: U256) -> (r: Result<U256, ERC4626Error>)
        requires
            self.wf(),
        ensures
            r == Ok::<U256, ERC4626Error>(self@.converted(assets)),
    {
        self.convert_to_shares(assets)
    }

    pub fn preview_mint(&self, shares: U256) -> (r: Result<U256, ERC4626Error>)
        requires
            self.wf(),
        ensures
            r == Ok::<U256, ERC4626Error>(self@.converted(shares)),
    {
        Ok(self.convert(shares))
    }

    pub fn preview_withdraw(&self, assets: U256) -> (r: Result<U256, ERC4626Error>)
        requires
            self.wf(),
        ensures
            r == Ok::<U256, ERC4626Error>(self@.converted(assets)),
    {
        Ok(self.convert(assets))
    }

    pub fn preview_redeem(&self, shares: U256) -> (r: Result<U256, ERC4626Error>)
        requires
            self.wf(),
        ensures
            r == Ok::<U256, ERC4626Error>(self@.converted(shares)),
    {
        self.convert_to_assets(shares)
    }

    pub fn max_deposit(&self, user: Address) -> (r: Result<U256, ERC4626Error>)
        ensures
            r.is_ok(),
            r.unwrap()@ == u256_max(),
    {
        Ok(U256::max())
    }

    pub fn max_mint(&self, user: Address) -> (r: Result<U256, ERC4626Error>)
        ensures
            r.is_ok(),
            r.unwrap()@ == u256_max(),
    {
        Ok(U256::max())
    }

    /// The shares that `owner` holds.
    pub fn max_redeem(&self, owner: Address) -> (r: Result<U256, ERC4626Error>)
        requires
            self.wf(),
        ensures
            r.is_ok(),
            r.unwrap()@ == self@.token.balances[owner],
    {
        match self.erc20.balance_of(owner) {
            Ok(b) => Ok(b),
            Err(e) => Err(ERC4626Error::Ledger(e)),
        }
    }

    /// What the shares of `owner` are worth in assets.
    pub fn max_withdraw(&self, owner: Address) -> (r: Result<U256, ERC4626Error>)
        requires
            self.wf(),
        ensures
            r.is_ok(),
            r.unwrap() == self@.converted(U256::of_nat(self@.token.balances[owner])),
    {
        match self.erc20.balance_of(owner) {
            Ok(b) => {
                proof {
                    U256::lemma_of_nat(b);
                }
                Ok(self.convert(b))
            },
            Err(e) => Err(ERC4626Error::Ledger(e)),
        }
    }

    fn issue(&mut self, caller: Address, receiver: Address, assets: U256, shares: U256) -> (r: Result<
        U256,
        ERC4626Error,
    >)
        requires
            old(self).wf(),
        ensures
            final(self).wf(),
            match old(self)@.issued(caller, receiver, assets, shares) {
                Ok((state, value)) => r == Ok::<U256, ERC4626Error>(value) && final(self)@ == state,
                Err(e) => r == Err::<U256, ERC4626Error>(e) && *final(self) == *old(self),
            },
    {
        match self.erc20.mint(receiver, shares) {
            Ok(()) => {},
            Err(e) => {
                return Err(ERC4626Error::Ledger(e));
            },
        }
        self.events.push(ERC4626Event::Deposit { caller, owner: receiver, assets, shares });
        self.after_deposit(assets, shares);
        Ok(shares)
    }

    /// Creates for `receiver` the shares that `assets` are worth, and
    /// returns their number. Fails, and changes nothing, where they are
    /// worth no share (`ZeroShares`) or the ledger of shares refuses.
    pub fn deposit(&mut self, caller: Address, assets: U256, receiver: Address) -> (r: Result<
        U256,
        ERC4626Error,
    >)
        requires
            old(self).wf(),
        ensures
            final(self).wf(),
            match old(self)@.deposit_result(caller, assets, receiver) {
                Ok((state, value)) => r == Ok::<U256, ERC4626Error>(value) && final(self)@ == state,
                Err(e) => r == Err::<U256, ERC4626Error>(e) && *final(self) == *old(self),
            },
    {
        let shares = self.convert(assets);
        if shares.is_zero() {
            return Err(ERC4626Error::ZeroShares);
        }
        self.issue(caller, receiver, assets, shares)
    }

    /// Creates `shares` for `receiver` and returns their number. Fails,
    /// and changes nothing, where the ledger of shares refuses.
    pub fn mint(&mut self, caller: Address, shares: U256, receiver: Address) -> (r: Result<
        U256,
        ERC4626Error,
    >)
        requires
            old(self).wf(),
        ensures
            final(self).wf(),
            match old(self)@.mint_result(caller, shares, receiver) {
                Ok((state, value)) => r == Ok::<U256, ERC4626Error>(value) && final(self)@ == state,
                Err(e) => r == Err::<U256, ERC4626Error>(e) && *final(self) == *old(self),
            },
    {
        let assets = self.convert(shares);
        self.issue(caller, receiver, assets, shares)
    }

    /// Uses the allowance of `caller`, where it is not `owner`, and
    /// destroys `shares` of `owner`; or changes nothing and says which of
    /// the two the ledger of shares refuses.
    fn release(
        &mut self,
        caller: Address,
        receiver: Address,
        owner: Address,
        assets: U256,
        shares: U256,
    ) -> (r: Result<(), ERC4626Error>)
        requires
            old(self).wf(),
        ensures
            final(self).wf(),
            match old(self)@.allowance_used(caller, owner, shares) {
                Err(e) => r == Err::<(), ERC4626Error>(ERC4626Error::Ledger(e)) && *final(self)
                    == *old(self),
                Ok(token) => match old(self)@.released(
                    token,
                    caller,
                    receiver,
                    owner,
                    assets,
                    shares,
                ) {
                    Err(e) => r == Err::<(), ERC4626Error>(e) && *final(self) == *old(self),
                    Ok(state) => r == Ok::<(), ERC4626Error>(()) && final(self)@ == state,
                },
            },
    {
        if caller != owner {
            let allowed = match self.erc20.allowance(owner, caller) {
                Ok(a) => a,
                Err(e) => {
                    return Err(ERC4626Error::Ledger(e));
                },
            };
            if !allowed.is_max() && allowed.lt(&shares) {
                return Err(ERC4626Error::Ledger(ERC20Error::InsufficientAllowance));
            }
        }
        let held = match self.erc20.balance_of(owner) {
            Ok(b) => b,
            Err(e) => {
                return Err(ERC4626Error::Ledger(e));
            },
        };
        if held.lt(&shares) {
            return Err(ERC4626Error::Ledger(ERC20Error::InsufficientBalance));
        }
        if caller != owner {
            self.erc20.spend_allowance(owner, caller, shares).unwrap();
        }
        self.before_withdraw(assets, shares);
        self.erc20.burn(owner, shares).unwrap();
        self.events.push(ERC4626Event::Withdraw { caller, receiver, owner, assets, shares });
        Ok(())
    }

    /// Destroys the shares of `owner` that `assets` are worth, and returns
    /// their number; `receiver` is owed the assets. Where `caller` is not
    /// `owner` the shares come out of what `owner` allows `caller`. Fails,
    /// and changes nothing, where the ledger of shares refuses.
    pub fn withdraw(&mut self, caller: Address, assets: U256, receiver: Address, owner: Address) -> (r:
        Result<U256, ERC4626Error>)
        requires
            old(self).wf(),
        ensures
            final(self).wf(),
            match old(self)@.withdraw_result(caller, assets, receiver, owner) {
                Ok((state, value)) => r == Ok::<U256, ERC4626Error>(value) && final(self)@ == state,
                Err(e) => r == Err::<U256, ERC4626Error>(e) && *final(self) == *old(self),
            },
    {
        let shares = self.convert(assets);
        match self.release(caller, receiver, owner, assets, shares) {
            Ok(()) => Ok(shares),
            Err(e) => Err(e),
        }
    }

    /// Destroys `shares` of `owner` and returns the assets they are worth;
    /// `receiver` is owed them. Where `caller` is not `owner` the shares
    /// come out of what `owner` allows `caller`. Fails, and changes
    /// nothing, where the allowance is too small, the shares are worth
    /// nothing (`ZeroShares`), or `owner` holds too few.
    pub fn redeem(&mut self, caller: Address, shares: U256, receiver: Address, owner: Address) -> (r:
        Result<U256, ERC4626Error>)
        requires
            old(self).wf(),
        ensures
            final(self).wf(),
            match old(self)@.redeem_result(caller, shares, receiver, owner) {
                Ok((state, value)) => r == Ok::<U256, ERC4626Error>(value) && final(self)@ == state,
                Err(e) => r == Err::<U256, ERC4626Error>(e) && *final(self) == *old(self),
            },
    {
        let assets = self.convert(shares);
        if caller != owner {
            let allowed = match self.erc20.allowance(owner, caller) {
                Ok(a) => a,
                Err(e) => {
                    return Err(ERC4626Error::Ledger(e));
                },
            };
            if !allowed.is_max() && allowed.lt(&shares) {
                return Err(ERC4626Error::Ledger(ERC20Error::InsufficientAllowance));
            }
        }
        if assets.is_zero() {
            return Err(ERC4626Error::ZeroShares);
        }
        match self.release(caller, receiver, owner, assets, shares) {
            Ok(()) => Ok(assets),
            Err(e) => Err(e),
        }
    }
}

} // verus!
