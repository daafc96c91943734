//! Slippage-protected token swaps against a constant-product liquidity pool:
//! quoting, token-account preparation, instruction assembly and the
//! decisions around submission.

pub mod address;
pub mod instruction;
pub mod sdk;
pub mod quote;
pub mod accounts;
pub mod assemble;
pub mod raydium;
