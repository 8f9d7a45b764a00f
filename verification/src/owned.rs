//! A contract with one owner, who alone may hand the ownership on.

use crate::address::{zero_address, Address};
use crate::hash::{selector, selector_of};
use vstd::prelude::*;
use vstd::string::StringSliceAdditionalSpecFns;

verus! {

/// A record of something the contract did, for the host to publish.
#[derive(Clone, Copy, Debug, PartialEq, Eq)]
pub enum OwnedEvent {
    /// `user` made `new_owner` the owner.
    OwnershipTransferred { user: Address, new_owner: Address },
}

/// The ways an operation may fail.
#[derive(Clone, Copy, Debug, PartialEq, Eq)]
pub enum OwnedError {
    Unauthorized,
    AlreadyInitialized,
    InvalidInitialize,
}

impl OwnedError {
    /// The text whose selector identifies the error to callers.
    pub open spec fn signature(&self) -> Seq<u8> {
        match self {
            OwnedError::Unauthorized => "Unauthorized()".spec_bytes(),
            OwnedError::AlreadyInitialized => "AlreadyInitialized()".spec_bytes(),
            OwnedError::InvalidInitialize => "InvalidInitialize()".spec_bytes(),
        }
    }

    /// The error as callers see it: the selector of its signature.
    pub fn encode(&self) -> (r: Vec<u8>)
        ensures
            r@ == selector_of(self.signature()),
    {
        let s = match self {
            OwnedError::Unauthorized => selector("Unauthorized()"),
            OwnedError::AlreadyInitialized => selector("AlreadyInitialized()"),
            OwnedError::InvalidInitialize => selector("InvalidInitialize()"),
        };
        let r = vec![s[0], s[1], s[2], s[3]];
        assert(r@ =~= s@);
        r
    }
}

/// The contract as a mathematical value.
pub struct OwnedState {
    pub owner: Address,
    pub initialized: bool,
    pub log: Seq<OwnedEvent>,
}

impl OwnedState {
    /// What `only_owner` says.
    pub open spec fn only_owner_result(self, caller: Address) -> Result<(), OwnedError> {
        if caller != self.owner {
            Err(OwnedError::Unauthorized)
        } else {
            Ok(())
        }
    }

    /// What `transfer_ownership` does.
    pub open spec fn transfer_result(self, caller: Address, new_owner: Address) -> Result<
        OwnedState,
        OwnedError,
    > {
        if caller != self.owner {
            Err(OwnedError::Unauthorized)
        } else {
            Ok(
                OwnedState {
                    owner: new_owner,
                    log: self.log.push(
                        OwnedEvent::OwnershipTransferred { user: caller, new_owner },
                    ),
                    ..self
                },
            )
        }
    }

    /// What `initialize` does.
    pub open spec fn initialize_result(self, owner: Address) -> Result<OwnedState, OwnedError> {
        if self.initialized {
            Err(OwnedError::AlreadyInitialized)
        } else if owner == zero_address() {
            Err(OwnedError::InvalidInitialize)
        } else {
            Ok(OwnedState { owner, initialized: true, ..self })
        }
    }
}

/// A contract with one owner.
#[derive(Clone, Debug)]
pub struct Owned {
    owner: Address,
    initialized: bool,
    events: Vec<OwnedEvent>,
}

impl View for Owned {
    type V = OwnedState;

    closed spec fn view(&self) -> OwnedState {
        OwnedState { owner: self.owner, initialized: self.initialized, log: self.events@ }
    }
}

impl Owned {
    /// A contract that is not yet initialized: nobody owns it.
    pub fn new() -> (r: Self)
        ensures
            r@ == (OwnedState { owner: zero_address(), initialized: false, log: Seq::empty() }),
    {
        Owned { owner: Address::zero(), initialized: false, events: Vec::new() }
    }

    /// Hands the logged records to the host and empties the log.
    pub fn take_events(&mut self) -> (r: Vec<OwnedEvent>)
        ensures
            r@ == old(self)@.log,
            final(self)@ == (OwnedState { log: Seq::empty(), ..old(self)@ }),
    {
        let mut out: Vec<OwnedEvent> = Vec::new();
        std::mem::swap(&mut self.events, &mut out);
        out
    }

    pub fn owner(&self) -> (r: Address)
        ensures
            r == self@.owner,
    {
        self.owner
    }

    /// `Unauthorized` unless `caller` is the owner.
    pub fn only_owner(&self, caller: Address) -> (r: Result<(), OwnedError>)
        ensures
            r == self@.only_owner_result(caller),
    {
        if caller != self.owner {
            return Err(OwnedError::Unauthorized);
        }
        Ok(())
    }

    /// Makes `new_owner` the owner. Fails with `Unauthorized`, and changes
    /// nothing, unless `caller` is the owner.
    pub fn transfer_ownership(&mut self, caller: Address, new_owner: Address) -> (r: Result<
        (),
        OwnedError,
    >)
        ensures
            match old(self)@.transfer_result(caller, new_owner) {
                Ok(state) => r == Ok::<(), OwnedError>(()) && final(self)@ == state,
                Err(e) => r == Err::<(), OwnedError>(e) && *final(self) == *old(self),
            },
    {
        match self.only_owner(caller) {
            Ok(()) => {},
            Err(e) => {
                return Err(e);
            },
        }
        self.owner = new_owner;
        self.events.push(OwnedEvent::OwnershipTransferred { user: caller, new_owner });
        Ok(())
    }

    /// Names the first owner, once. Fails, and changes nothing, where the
    /// contract was initialized before (`AlreadyInitialized`) or `owner`
    /// is the zero address (`InvalidInitialize`).
    pub fn initialize(&mut self, owner: Address) -> (r: Result<(), OwnedError>)
        ensures
            match old(self)@.initialize_result(owner) {
                Ok(state) => r == Ok::<(), OwnedError>(()) && final(self)@ == state,
                Err(e) => r == Err::<(), OwnedError>(e) && *final(self) == *old(self),
            },
    {
        if self.initialized {
            return Err(OwnedError::AlreadyInitialized);
        }
        if owner.is_zero() {
            return Err(OwnedError::InvalidInitialize);
        }
        self.owner = owner;
        self.initialized = true;
        Ok(())
    }
}

} // verus!
