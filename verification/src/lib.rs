//! Verified core of a multi-signature wallet backend: batch transfers,
//! EVM transaction assembly, account identifiers and balance reporting.

pub mod text;
pub mod hexcodec;
pub mod crypto;
pub mod evm;
pub mod json;
pub mod balances;
pub mod ledger;
pub mod batch;
