//! A contract with an owner and an authority: another contract that says
//! which callers may call which functions.

use crate::address::{zero_address, Address};
use crate::hash::{selector, selector_of};
use vstd::prelude::*;
use vstd::string::StringSliceAdditionalSpecFns;

verus! {

/// A record of something the contract did, for the host to publish.
#[derive(Clone, Copy, Debug, PartialEq, Eq)]
pub enum AuthEvent {
    /// `user` made `new_owner` the owner.
    OwnershipTransferred { user: Address, new_owner: Address },
    /// `user` made `new_authority` the authority.
    AuthorityUpdated { user: Address, new_authority: Address },
}

/// Why a call to another contract failed.
#[derive(Clone, Debug, PartialEq, Eq)]
pub enum CallError {
    /// The other contract gave up and returned these bytes.
    Revert(Vec<u8>),
    /// What the other contract returned could not be read.
    AbiDecodingFailed,
}

/// The ways an operation may fail.
#[derive(Clone, Debug, PartialEq, Eq)]
pub enum AuthError {
    Unauthorized,
    /// The call to the authority failed.
    CallFailed(CallError),
    AlreadyInitialized,
    InvalidInitialize,
}

/// What is reported for a call that failed without bytes of its own: the
/// selector of `Panic(uint256)` and the code zero as a 32-byte word.
pub open spec fn generic_panic() -> Seq<u8> {
    seq![0x4eu8, 0x48u8, 0x7bu8, 0x71u8] + Seq::new(32, |i: int| 0u8)
}

impl AuthError {
    /// The error as callers see it.
    pub open spec fn encoding(&self) -> Seq<u8> {
        match self {
            AuthError::Unauthorized => selector_of("Unauthorized()".spec_bytes()),
            AuthError::AlreadyInitialized => selector_of("AlreadyInitialized()".spec_bytes()),
            AuthError::InvalidInitialize => selector_of("InvalidInitialize()".spec_bytes()),
            AuthError::CallFailed(CallError::Revert(data)) => data@,
            AuthError::CallFailed(CallError::AbiDecodingFailed) => generic_panic(),
        }
    }

    /// The error as callers see it: the selector of its signature; for a
    /// failed call the bytes that the authority returned, or a generic
    /// panic where there are none.
    pub fn encode(self) -> (r: Vec<u8>)
        ensures
            r@ == self.encoding(),
    {
        let s = match self {
            AuthError::Unauthorized => selector("Unauthorized()"),
            AuthError::AlreadyInitialized => selector("AlreadyInitialized()"),
            AuthError::InvalidInitialize => selector("InvalidInitialize()"),
            AuthError::CallFailed(CallError::Revert(data)) => {
                return data;
            },
            AuthError::CallFailed(CallError::AbiDecodingFailed) => {
                let mut r = vec![0x4eu8, 0x48u8, 0x7bu8, 0x71u8];
                let mut i: usize = 0;
                while i < 32
                    invariant
                        i <= 32,
                        r@ == seq![0x4eu8, 0x48u8, 0x7bu8, 0x71u8] + Seq::new(i as nat, |j: int| 0u8),
                    decreases 32 - i,
                {
                    r.push(0u8);
                    assert(r@ =~= seq![0x4eu8, 0x48u8, 0x7bu8, 0x71u8] + Seq::new(
                        (i + 1) as nat,
                        |j: int| 0u8,
                    ));
                    i = i + 1;
                }
                return r;
            },
        };
        let r = vec![s[0], s[1], s[2], s[3]];
        assert(r@ =~= s@);
        r
    }
}

/// The question put to an authority: may `user` call the function `sig`
/// of the contract at `target`?
#[derive(Clone, Copy, Debug)]
pub struct AuthorityQuery {
    pub authority: Address,
    pub user: Address,
    pub target: Address,
    pub sig: [u8; 4],
}

/// What the host reports of the question to the authority.
#[derive(Clone, Debug, PartialEq, Eq)]
pub enum AuthorityAnswer {
    /// The authority was not asked.
    NotAsked,
    /// The authority said yes or no.
    Said(bool),
    /// The call to the authority failed.
    Failed(CallError),
}

/// The contract as a mathematical value.
pub struct AuthState {
    pub owner: Address,
    pub authority: Address,
    pub initialized: bool,
    pub log: Seq<AuthEvent>,
}

/// What an answer of the authority amounts to: its yes or no, no where it
/// was not asked, and the failure where the call failed.
pub open spec fn can_call_result(answer: AuthorityAnswer) -> Result<bool, AuthError> {
    match answer {
        AuthorityAnswer::NotAsked => Ok(false),
        AuthorityAnswer::Said(allowed) => Ok(allowed),
        AuthorityAnswer::Failed(e) => Err(AuthError::CallFailed(e)),
    }
}

impl AuthState {
    /// Whether the authority has to be asked before `is_authorized` and
    /// `transfer_ownership`: there is one.
    pub open spec fn asks_authority(self) -> bool {
        self.authority != zero_address()
    }

    /// What `is_authorized` says of `user`: yes where there is an authority
    /// and it says yes, and else yes for the owner alone.
    pub open spec fn is_authorized_result(self, user: Address, answer: AuthorityAnswer) -> Result<
        bool,
        AuthError,
    > {
        if self.asks_authority() {
            match can_call_result(answer) {
                Err(e) => Err(e),
                Ok(allowed) => Ok(allowed || user == self.owner),
            }
        } else {
            Ok(user == self.owner)
        }
    }

    /// What `set_authority` does: the caller has to be the owner, and the
    /// authority in office has to agree.
    pub open spec fn set_authority_result(
        self,
        caller: Address,
        new_authority: Address,
        answer: AuthorityAnswer,
    ) -> Result<AuthState, AuthError> {
        if caller != self.owner {
            Err(AuthError::Unauthorized)
        } else {
            match can_call_result(answer) {
                Err(e) => Err(e),
                Ok(false) => Err(AuthError::Unauthorized),
                Ok(true) => Ok(
                    AuthState {
                        authority: new_authority,
                        log: self.log.push(
                            AuthEvent::AuthorityUpdated { user: caller, new_authority },
                        ),
                        ..self
                    },
                ),
            }
        }
    }

    /// What `transfer_ownership` does.
    pub open spec fn transfer_result(
        self,
        caller: Address,
        new_owner: Address,
        answer: AuthorityAnswer,
    ) -> Result<AuthState, AuthError> {
        match self.is_authorized_result(caller, answer) {
            Err(e) => Err(e),
            Ok(false) => Err(AuthError::Unauthorized),
            Ok(true) => Ok(
                AuthState {
                    owner: new_owner,
                    log: self.log.push(AuthEvent::OwnershipTransferred { user: caller, new_owner }),
                    ..self
                },
            ),
        }
    }

    /// What `initialize` does.
    pub open spec fn initialize_result(self, owner: Address, authority: Address) -> Result<
        AuthState,
        AuthError,
    > {
        if self.initialized {
            Err(AuthError::AlreadyInitialized)
        } else if owner == zero_address() || authority == zero_address() {
            Err(AuthError::InvalidInitialize)
        } else {
            Ok(AuthState { owner, authority, initialized: true, ..self })
        }
    }
}

/// A contract with an owner and an authority.
#[derive(Clone, Debug)]
pub struct Auth {
    owner: Address,
    authority: Address,
    initialized: bool,
    events: Vec<AuthEvent>,
}

impl View for Auth {
    type V = AuthState;

    closed spec fn view(&self) -> AuthState {
        AuthState {
            owner: self.owner,
            authority: self.authority,
            initialized: self.initialized,
            log: self.events@,
        }
    }
}

impl Auth {
    /// A contract that is not yet initialized: it has no owner and no
    /// authority.
    pub fn new() -> (r: Self)
        ensures
            r@ == (AuthState {
                owner: zero_address(),
                authority: zero_address(),
                initialized: false,
                log: Seq::empty(),
            }),
    {
        Auth {
            owner: Address::zero(),
            authority: Address::zero(),
            initialized: false,
            events: Vec::new(),
        }
    }

    /// Hands the logged records to the host and empties the log.
    pub fn take_events(&mut self) -> (r: Vec<AuthEvent>)
        ensures
            r@ == old(self)@.log,
            final(self)@ == (AuthState { log: Seq::empty(), ..old(self)@ }),
    {
        let mut out: Vec<AuthEvent> = Vec::new();
        std::mem::swap(&mut self.events, &mut out);
        out
    }

    pub fn owner(&self) -> (r: Result<Address, AuthError>)
        ensures
            r == Ok::<Address, AuthError>(self@.owner),
    {
        Ok(self.owner)
    }

    pub fn authority(&self) -> (r: Result<Address, AuthError>)
        ensures
            r == Ok::<Address, AuthError>(self@.authority),
    {
        Ok(self.authority)
    }

    /// The question that the host has to put to the authority in office
    /// about `user` calling the function `sig` of the contract at `this`.
    pub fn authority_query(&self, user: Address, this: Address, sig: [u8; 4]) -> (r: AuthorityQuery)
        ensures
            r == (AuthorityQuery { authority: self@.authority, user, target: this, sig }),
    {
        AuthorityQuery { authority: self.authority, user, target: this, sig }
    }

    /// What an answer of the authority amounts to.
    pub fn can_call(answer: AuthorityAnswer) -> (r: Result<bool, AuthError>)
        ensures
            r == can_call_result(answer),
    {
        match answer {
            AuthorityAnswer::NotAsked => Ok(false),
            AuthorityAnswer::Said(allowed) => Ok(allowed),
            AuthorityAnswer::Failed(e) => Err(AuthError::CallFailed(e)),
        }
    }

    /// Whether the authority has to be asked before `is_authorized` and
    /// `transfer_ownership`.
    pub fn asks_authority(&self) -> (r: bool)
        ensures
            r == self@.asks_authority(),
    {
        !self.authority.is_zero()
    }

    /// Whether `user` may call: the authority, where there is one, said
    /// yes, or `user` is the owner. A failed call to the authority is
    /// `CallFailed`, also for the owner.
    pub fn is_authorized(&self, user: Address, answer: AuthorityAnswer) -> (r: Result<
        bool,
        AuthError,
    >)
        ensures
            r == self@.is_authorized_result(user, answer),
    {
        if !self.authority.is_zero() {
            match Self::can_call(answer) {
                Err(e) => Err(e),
                Ok(allowed) => Ok(allowed || user == self.owner),
            }
        } else {
            Ok(user == self.owner)
        }
    }

    /// Puts `new_authority` in office. Fails, and changes nothing: with
    /// `Unauthorized` unless `caller` is the owner and the authority in
    /// office said yes; with `CallFailed` where `caller` is the owner and
    /// the call to the authority failed. The authority is asked only where
    /// `caller` is the owner.
    pub fn set_authority(&mut self, caller: Address, new_authority: Address, answer: AuthorityAnswer) -> (r:
        Result<(), AuthError>)
        ensures
            match old(self)@.set_authority_result(caller, new_authority, answer) {
                Ok(state) => r == Ok::<(), AuthError>(()) && final(self)@ == state,
                Err(e) => r == Err::<(), AuthError>(e) && *final(self) == *old(self),
            },
    {
        if caller != self.owner {
            return Err(AuthError::Unauthorized);
        }
        match Self::can_call(answer) {
            Err(e) => {
                return Err(e);
            },
            Ok(false) => {
                return Err(AuthError::Unauthorized);
            },
            Ok(true) => {},
        }
        self.authority = new_authority;
        self.events.push(AuthEvent::AuthorityUpdated { user: caller, new_authority });
        Ok(())
    }

    /// Makes `new_owner` the owner. Fails, and changes nothing: with
    /// `Unauthorized` unless `caller` is authorized; with `CallFailed`
    /// where the call to the authority failed.
    pub fn transfer_ownership(&mut self, caller: Address, new_owner: Address, answer: AuthorityAnswer) -> (r:
        Result<(), AuthError>)
        ensures
            match old(self)@.transfer_result(caller, new_owner, answer) {
                Ok(state) => r == Ok::<(), AuthError>(()) && final(self)@ == state,
                Err(e) => r == Err::<(), AuthError>(e) && *final(self) == *old(self),
            },
    {
        match self.is_authorized(caller, answer) {
            Err(e) => {
                return Err(e);
            },
            Ok(false) => {
                return Err(AuthError::Unauthorized);
            },
            Ok(true) => {},
        }
        self.owner = new_owner;
        self.events.push(AuthEvent::OwnershipTransferred { user: caller, new_owner });
        Ok(())
    }

    /// Names the first owner and the first authority, once. Fails, and
    /// changes nothing, where the contract was initialized before
    /// (`AlreadyInitialized`) or one of the two is the zero address
    /// (`InvalidInitialize`).
    pub fn initialize(&mut self, owner: Address, authority: Address) -> (r: Result<(), AuthError>)
        ensures
            match old(self)@.initialize_result(owner, authority) {
                Ok(state) => r == Ok::<(), AuthError>(()) && final(self)@ == state,
                Err(e) => r == Err::<(), AuthError>(e) && *final(self) == *old(self),
            },
    {
        if self.initialized {
            return Err(AuthError::AlreadyInitialized);
        }
        if owner.is_zero() || authority.is_zero() {
            return Err(AuthError::InvalidInitialize);
        }
        self.owner = owner;
        self.authority = authority;
        self.initialized = true;
        Ok(())
    }
}

} // verus!
