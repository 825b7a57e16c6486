//! Minting a fungible token: resolving the mint's decimal precision, turning
//! a decimal amount into base units, assembling the signed mint instruction
//! and deciding whether it is submitted.

pub mod command;
pub mod decimal;
pub mod error;
pub mod instruction;
pub mod keys;
pub mod mint;
pub mod request;
