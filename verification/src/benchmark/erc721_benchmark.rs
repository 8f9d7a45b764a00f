//! A non-fungible token whose descriptions are found under one prefix.

use crate::erc721::ERC721Params;
use crate::primitives::{decimal_text, U256};
use vstd::prelude::*;
use vstd::string::StringExecFns;

verus! {

/// What is fixed about the token.
#[derive(Clone, Copy, Debug)]
pub struct SampleParams;

impl ERC721Params for SampleParams {
    open spec fn name_text(&self) -> Seq<char> {
        "MyNFT"@
    }

    open spec fn symbol_text(&self) -> Seq<char> {
        "NFT"@
    }

    /// The prefix `ipfs://hash/` and the id in decimal digits.
    open spec fn token_uri_text(&self, id: U256) -> Seq<char> {
        "ipfs://hash/"@ + decimal_text(id@)
    }

    fn name(&self) -> (r: String) {
        "MyNFT".to_owned()
    }

    fn symbol(&self) -> (r: String) {
        "NFT".to_owned()
    }

    fn token_uri(&self, id: U256) -> (r: String) {
        let mut uri = "ipfs://hash/".to_owned();
        uri.append(id.to_decimal().as_str());
        uri
    }
}

} // verus!
