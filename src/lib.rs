//! Slippage-protected trades on an automated-market-maker token sale contract:
//! slippage bounds, the contract calls that carry them, and the lifecycle of one
//! trade from quote to confirmation. The transport runs each action that a
//! `TradeSession` asks for and reports the result back to it.

pub mod address;
pub mod error;
pub mod session;
pub mod slippage;
pub mod types;
