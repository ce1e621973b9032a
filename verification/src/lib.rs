//! Verified core of the Endcoin temperature-weighted AMM: fees, liquidity,
//! swap guards, oracle freshness and the state transitions of each instruction.

pub mod constants;
pub mod error;
pub mod fee;
pub mod guards;
pub mod instructions;
pub mod laws;
pub mod liquidity;
pub mod oracle;
pub mod outside;
pub mod state;
pub mod swap;
pub mod utils;
