//! A contract with one owner, who alone may hand the ownership on.

use crate::address::{zero_address, Address};
use crate::hash::{selector, selector_of};
use vstd::prelude::*;
use vstd::string::StringSliceAdditionalSpecFns;

verus! {

/// A record of something the contract did, for the host to publish.
#[derive(Clone, Copy, Debug, PartialEq, Eq)]
pub enum OwnerEvent {
    /// `user` made `new_owner` the owner.
    OwnershipTransferred { user: Address, new_owner: Address },
}

/// The ways an operation may fail.
#[derive(Clone, Copy, Debug, PartialEq, Eq)]
pub enum OwnerError {
    Unauthorized,
    AlreadyInitialized,
    InvalidInitialize,
}

impl OwnerError {
    /// The text whose selector identifies the error to callers.
    pub open spec fn signature(&self) -> Seq<u8> {
        match self {
            OwnerError::Unauthorized => "Unauthorized()".spec_bytes(),
            OwnerError::AlreadyInitialized => "AlreadyInitialized()".spec_bytes(),
            OwnerError::InvalidInitialize => "InvalidInitialize()".spec_bytes(),
        }
    }

    /// The error as callers see it: the selector of its signature.
    pub fn encode(&self) -> (r: Vec<u8>)
        ensures
            r@ == selector_of(self.signature()),
    {
        let s = match self {
            OwnerError::Unauthorized => selector("Unauthorized()"),
            OwnerError::AlreadyInitialized => selector("AlreadyInitialized()"),
            OwnerError::InvalidInitialize => selector("InvalidInitialize()"),
        };
        let r = vec![s[0], s[1], s[2], s[3]];
        assert(r@ =~= s@);
        r
    }
}

/// The contract as a mathematical value.
pub struct OwnerState {
    pub owner: Address,
    pub initialized: bool,
    pub log: Seq<OwnerEvent>,
}

impl OwnerState {
    /// What `only_owner` says.
    pub open spec fn only_owner_result(self, caller: Address) -> Result<(), OwnerError> {
        if caller != self.owner {
            Err(OwnerError::Unauthorized)
        } else {
            Ok(())
        }
    }

    /// What `transfer_ownership` does.
    pub open spec fn transfer_result(self, caller: Address, new_owner: Address) -> Result<
        OwnerState,
        OwnerError,
    > {
        if caller != self.owner {
            Err(OwnerError::Unauthorized)
        } else {
            Ok(
                OwnerState {
                    owner: new_owner,
                    log: self.log.push(
                        OwnerEvent::OwnershipTransferred { user: caller, new_owner },
                    ),
                    ..self
                },
            )
        }
    }

    /// What `initialize` does.
    pub open spec fn initialize_result(self, owner: Address) -> Result<OwnerState, OwnerError> {
        if self.initialized {
            Err(OwnerError::AlreadyInitialized)
        } else if owner == zero_address() {
            Err(OwnerError::InvalidInitialize)
        } else {
            Ok(OwnerState { owner, initialized: true, ..self })
        }
    }
}

/// A contract with one owner.
#[derive(Clone, Debug)]
pub struct Owner {
    owner: Address,
    initialized: bool,
    events: Vec<OwnerEvent>,
}

impl View for Owner {
    type V = OwnerState;

    closed spec fn view(&self) -> OwnerState {
        OwnerState { owner: self.owner, initialized: self.initialized, log: self.events@ }
    }
}

impl Owner {
    /// A contract that is not yet initialized: nobody owns it.
    pub fn new() -> (r: Self)
        ensures
            r@ == (OwnerState { owner: zero_address(), initialized: false, log: Seq::empty() }),
    {
        Owner { owner: Address::zero(), initialized: false, events: Vec::new() }
    }

    /// Hands the logged records to the host and empties the log.
    pub fn take_events(&mut self) -> (r: Vec<OwnerEvent>)
        ensures
            r@ == old(self)@.log,
            final(self)@ == (OwnerState { log: Seq::empty(), ..old(self)@ }),
    {
        let mut out: Vec<OwnerEvent> = Vec::new();
        std::mem::swap(&mut self.events, &mut out);
        out
    }

    pub fn owner(&self) -> (r: Address)
        ensures
            r == self@.owner,
    {
        self.owner
    }

    /// `Unauthorized` unless `caller` is the owner.
    pub fn only_owner(&self, caller: Address) -> (r: Result<(), OwnerError>)
        ensures
            r == self@.only_owner_result(caller),
    {
        if caller != self.owner {
            return Err(OwnerError::Unauthorized);
        }
        Ok(())
    }

    /// Makes `new_owner` the owner. Fails with `Unauthorized`, and changes
    /// nothing, unless `caller` is the owner.
    pub fn transfer_ownership(&mut self, caller: Address, new_owner: Address) -> (r: Result<
        (),
        OwnerError,
    >)
        ensures
            match old(self)@.transfer_result(caller, new_owner) {
                Ok(state) => r == Ok::<(), OwnerError>(()) && final(self)@ == state,
                Err(e) => r == Err::<(), OwnerError>(e) && *final(self) == *old(self),
            },
    {
        match self.only_owner(caller) {
            Ok(()) => {},
            Err(e) => {
                return Err(e);
            },
        }
        self.owner = new_owner;
        self.events.push(OwnerEvent::OwnershipTransferred { user: caller, new_owner });
        Ok(())
    }

    /// Names the first owner, once. Fails, and changes nothing, where the
    /// contract was initialized before (`AlreadyInitialized`) or `owner`
    /// is the zero address (`InvalidInitialize`).
    pub fn initialize(&mut self, owner: Address) -> (r: Result<(), OwnerError>)
        ensures
            match old(self)@.initialize_result(owner) {
                Ok(state) => r == Ok::<(), OwnerError>(()) && final(self)@ == state,
                Err(e) => r == Err::<(), OwnerError>(e) && *final(self) == *old(self),
            },
    {
        if self.initialized {
            return Err(OwnerError::AlreadyInitialized);
        }
        if owner.is_zero() {
            return Err(OwnerError::InvalidInitialize);
        }
        self.owner = owner;
        self.initialized = true;
        Ok(())
    }
}

} // verus!
