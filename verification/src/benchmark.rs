//! Small contracts that put the ledgers to use with fixed parameters.

pub mod erc1155_benchmark;
pub mod erc20_benchmark;
pub mod erc721_benchmark;
