//! Deployment at an address that depends on the deployer and a salt alone:
//! a fixed proxy is created at a salted address, and the proxy creates the
//! contract.

use crate::address::{word_address, Address, B256};
use crate::hash::{append, keccak, keccak256_digest, selector, selector_of};
use crate::primitives::U256;
use vstd::prelude::*;
use vstd::string::StringSliceAdditionalSpecFns;

verus! {

/// The ways a deployment may fail.
#[derive(Clone, Copy, Debug, PartialEq, Eq, Structural)]
pub enum CREATE3Error {
    /// The proxy could not be created.
    DeploymentFailed,
    /// The proxy could not create the contract.
    InitilizationFailed,
}

impl CREATE3Error {
    /// The text whose selector identifies the error to callers.
    pub open spec fn signature(&self) -> Seq<u8> {
        match self {
            CREATE3Error::DeploymentFailed => "DeploymentFailed()".spec_bytes(),
            CREATE3Error::InitilizationFailed => "InitilizationFailed()".spec_bytes(),
        }
    }

    /// The error as callers see it: the selector of its signature.
    pub fn encode(&self) -> (r: Vec<u8>)
        ensures
            r@ == selector_of(self.signature()),
    {
        let s = match self {
            CREATE3Error::DeploymentFailed => selector("DeploymentFailed()"),
            CREATE3Error::InitilizationFailed => selector("InitilizationFailed()"),
        };
        let r = vec![s[0], s[1], s[2], s[3]];
        assert(r@ =~= s@);
        r
    }
}

/// The code of the proxy: it creates a contract from the data it is called
/// with.
pub open spec fn proxy_bytecode_bytes() -> Seq<u8> {
    seq![
        0x67u8, 0x36u8, 0x3du8, 0x3du8, 0x37u8, 0x36u8, 0x3du8, 0x34u8,
        0xf0u8, 0x3du8, 0x52u8, 0x60u8, 0x08u8, 0x60u8, 0x18u8, 0xf3u8,
    ]
}

/// The Keccak-256 digest of the proxy's code.
pub open spec fn proxy_bytecode_hash() -> Seq<u8> {
    seq![
        33u8, 195u8, 93u8, 190u8, 27u8, 52u8, 74u8, 36u8,
        136u8, 207u8, 51u8, 33u8, 214u8, 206u8, 84u8, 47u8,
        142u8, 159u8, 48u8, 85u8, 68u8, 255u8, 9u8, 228u8,
        153u8, 58u8, 98u8, 49u8, 154u8, 73u8, 124u8, 31u8,
    ]
}

/// The address at which `creator` creates the proxy under `salt`.
pub open spec fn proxy_address_of(salt: B256, creator: Address) -> Seq<u8> {
    word_address(keccak256_digest(seq![0xffu8] + creator@ + salt@ + proxy_bytecode_hash()))
}

/// The address of the first contract that an account at `proxy` creates.
pub open spec fn first_child_of(proxy: Seq<u8>) -> Seq<u8> {
    word_address(keccak256_digest(seq![0xd6u8, 0x94u8] + proxy + seq![0x01u8]))
}

/// The address at which a contract deployed by `creator` under `salt`
/// lives, whatever its code.
pub open spec fn deployed_address_of(salt: B256, creator: Address) -> Seq<u8> {
    first_child_of(proxy_address_of(salt, creator))
}

/// What the host reports of a deployment in progress.
#[derive(Clone, Copy, Debug)]
pub enum DeployStage {
    /// Nothing was done yet.
    Requested,
    /// The creation of the proxy failed.
    ProxyFailed,
    /// The creation of the proxy returned this address, which hosts code
    /// or hosts none.
    ProxyCreated { proxy: Address, has_code: bool },
    /// The proxy was called with the creation code, and the call succeeded
    /// or failed.
    ProxyCalled(bool),
}

/// What the host has to do next in a deployment.
#[derive(Clone, Copy, Debug)]
pub enum DeployStep {
    /// Create a contract with the proxy's code under this salt.
    CreateProxy { salt: B256 },
    /// Call the proxy with the creation code, sending this value along.
    CallProxy { proxy: Address, value: U256 },
    /// The deployment is over.
    Done(Result<Address, CREATE3Error>),
}

/// Whether `step` is what follows `stage` in a deployment by `creator`
/// under `salt`.
pub open spec fn is_next_step(
    step: DeployStep,
    salt: B256,
    creator: Address,
    value: U256,
    stage: DeployStage,
) -> bool {
    match stage {
        DeployStage::Requested => step == (DeployStep::CreateProxy { salt }),
        DeployStage::ProxyFailed => step == DeployStep::Done(Err(CREATE3Error::DeploymentFailed)),
        DeployStage::ProxyCreated { proxy, has_code } => if has_code {
            step == (DeployStep::CallProxy { proxy, value })
        } else {
            step == DeployStep::Done(Err(CREATE3Error::DeploymentFailed))
        },
        DeployStage::ProxyCalled(false) => step == DeployStep::Done(
            Err(CREATE3Error::InitilizationFailed),
        ),
        DeployStage::ProxyCalled(true) => match step {
            DeployStep::Done(Ok(deployed)) => deployed@ == deployed_address_of(salt, creator),
            _ => false,
        },
    }
}

/// The deployer.
pub struct CREATE3;

impl CREATE3 {
    /// The code of the proxy.
    pub fn proxy_bytecode() -> (r: Vec<u8>)
        ensures
            r@ == proxy_bytecode_bytes(),
    {
        let r = vec![
            0x67u8, 0x36u8, 0x3du8, 0x3du8, 0x37u8, 0x36u8, 0x3du8, 0x34u8,
            0xf0u8, 0x3du8, 0x52u8, 0x60u8, 0x08u8, 0x60u8, 0x18u8, 0xf3u8,
        ];
        assert(r@ =~= proxy_bytecode_bytes());
        r
    }

    /// The address at which a contract deployed by `creator` under `salt`
    /// lives. It is computed from the two alone: nothing is read, and neither
    /// the code nor the value of a deployment matters.
    pub fn get_deployed_with_creator(salt: B256, creator: Address) -> (r: Result<Address, CREATE3Error>)
        ensures
            r.is_ok(),
            r.unwrap()@ == deployed_address_of(salt, creator),
    {
        let hash: [u8; 32] = [
            33u8, 195u8, 93u8, 190u8, 27u8, 52u8, 74u8, 36u8,
            136u8, 207u8, 51u8, 33u8, 214u8, 206u8, 84u8, 47u8,
            142u8, 159u8, 48u8, 85u8, 68u8, 255u8, 9u8, 228u8,
            153u8, 58u8, 98u8, 49u8, 154u8, 73u8, 124u8, 31u8,
        ];
        assert(hash@ =~= proxy_bytecode_hash());
        let mut proxy_packed: Vec<u8> = Vec::new();
        proxy_packed.push(0xffu8);
        append(&mut proxy_packed, creator.bytes.as_slice());
        append(&mut proxy_packed, salt.bytes.as_slice());
        append(&mut proxy_packed, hash.as_slice());
        assert(proxy_packed@ =~= seq![0xffu8] + creator@ + salt@ + proxy_bytecode_hash());
        let proxy = Address::from_word(&keccak(proxy_packed.as_slice()));
        let mut packed: Vec<u8> = Vec::new();
        packed.push(0xd6u8);
        packed.push(0x94u8);
        append(&mut packed, proxy.bytes.as_slice());
        packed.push(0x01u8);
        assert(packed@ =~= seq![0xd6u8, 0x94u8] + proxy@ + seq![0x01u8]);
        Ok(Address::from_word(&keccak(packed.as_slice())))
    }

    /// The address at which a contract deployed by the contract at `this`
    /// under `salt` lives.
    pub fn get_deployed(salt: B256, this: Address) -> (r: Result<Address, CREATE3Error>)
        ensures
            r.is_ok(),
            r.unwrap()@ == deployed_address_of(salt, this),
    {
        Self::get_deployed_with_creator(salt, this)
    }

    /// Says what the host has to do next to deploy a contract from the
    /// contract at `this` under `salt`, given what it reports of the
    /// deployment so far. First the proxy is created; where that fails, or
    /// the address that comes back hosts no code, the deployment ends with
    /// `DeploymentFailed`. Then the proxy is called with the creation code
    /// and `value`; where that fails the deployment ends with
    /// `InitilizationFailed`. Else it ends with the address of the contract,
    /// which is the one `get_deployed` gives.
    pub fn deploy(salt: B256, this: Address, value: U256, stage: DeployStage) -> (step: DeployStep)
        ensures
            is_next_step(step, salt, this, value, stage),
    {
        match stage {
            DeployStage::Requested => DeployStep::CreateProxy { salt },
            DeployStage::ProxyFailed => DeployStep::Done(Err(CREATE3Error::DeploymentFailed)),
            DeployStage::ProxyCreated { proxy, has_code } => if has_code {
                DeployStep::CallProxy { proxy, value }
            } else {
                DeployStep::Done(Err(CREATE3Error::DeploymentFailed))
            },
            DeployStage::ProxyCalled(false) => DeployStep::Done(
                Err(CREATE3Error::InitilizationFailed),
            ),
            DeployStage::ProxyCalled(true) => DeployStep::Done(Self::get_deployed(salt, this)),
        }
    }
}

/// The address of a finished deployment is the address predicted for it:
/// it depends on the deployer and the salt, and on nothing else.
pub proof fn lemma_deployed_where_predicted(
    step: DeployStep,
    salt: B256,
    creator: Address,
    value: U256,
    stage: DeployStage,
    predicted: Address,
)
    requires
        is_next_step(step, salt, creator, value, stage),
        predicted@ == deployed_address_of(salt, creator),
        step matches DeployStep::Done(Ok(_)),
    ensures
        step == DeployStep::Done(Ok(predicted)),
{
    match step {
        DeployStep::Done(Ok(deployed)) => {
            assert(deployed.bytes =~= predicted.bytes);
        },
        _ => {},
    }
}

} // verus!
