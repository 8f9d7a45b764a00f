//! A multi-token whose descriptions are found under one prefix.

use crate::erc1155::ERC1155Params;
use crate::primitives::{decimal_text, U256};
use vstd::prelude::*;
use vstd::string::StringExecFns;

verus! {

/// What is fixed about the token.
#[derive(Clone, Copy, Debug)]
pub struct SampleParams;

impl ERC1155Params for SampleParams {
    /// The prefix `ipfs://hash/` and the id in decimal digits.
    open spec fn uri_text(&self, id: U256) -> Seq<char> {
        "ipfs://hash/"@ + decimal_text(id@)
    }

    fn uri(&self, id: U256) -> (r: String) {
        let mut uri = "ipfs://hash/".to_owned();
        uri.append(id.to_decimal().as_str());
        uri
    }
}

} // verus!
