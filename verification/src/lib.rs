//! A verified model of a multi-phase token-launch orchestrator: launch
//! registration, tokenomics validation, sale scheduling and post-sale
//! settlement, with exact fixed-point financial arithmetic.
pub mod addr;
pub mod arith;
pub mod contract;
pub mod error;
pub mod host;
pub mod launch;
pub mod laws;
pub mod msg;
pub mod settle;
pub mod state;
pub mod validate;
