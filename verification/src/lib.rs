//! Accounting and authorization for fungible and non-fungible assets.
//!
//! The ledgers keep their state in memory and know nothing of the host
//! they run on. Whatever a host would supply (who calls, what time it is,
//! which chain this is, whether an address hosts code, what another
//! contract answered) comes in as an argument, and whatever a host would
//! have to do (publish a record, ask a recipient, pay out ether, create a
//! contract) goes out as a value. Every operation either succeeds or
//! leaves the ledger exactly as it was. A safe transfer to a recipient that
//! hosts code changes the ledger first and asks afterwards; it hands out
//! what undoes it, and the function that takes the recipient's reply puts
//! the ledger back where the reply is refused.
//!
//! - [`erc20`], [`erc721`], [`erc1155`], [`erc6909`]: the ledgers.
//! - [`guard`]: the check that a recipient can receive an asset.
//! - [`permit`]: digests of approvals that are signed away from the ledger.
//! - [`create3`]: deployment at an address that depends on the deployer and
//!   a salt alone.
//! - [`erc4626`], [`weth`], [`benchmark`]: contracts built on the ledgers.
//! - [`auth`], [`owned`], [`owner`]: ownership and authority.
//! - [`primitives`], [`address`], [`hash`], [`table`], [`bytes32addresslib`]:
//!   the values and the storage that the rest is made of.

pub mod address;
pub mod auth;
pub mod benchmark;
pub mod bytes32addresslib;
pub mod create3;
pub mod erc1155;
pub mod erc20;
pub mod erc4626;
pub mod erc6909;
pub mod erc721;
pub mod guard;
pub mod hash;
pub mod owned;
pub mod owner;
pub mod permit;
pub mod primitives;
pub mod table;
pub mod weth;
