//! What the operation is asked to do, and what it answers.

use crate::decimal::Decimal;
use crate::keys::{Pubkey, Signature};
use vstd::prelude::*;

verus! {

/// A request to mint `amount` tokens of the mint at `mint_account` to
/// `recipient`.
#[derive(Clone, Copy, Debug, PartialEq, Eq)]
pub struct Input {
    /// The identity that pays for the transaction, and signs it.
    pub fee_payer: Pubkey,
    /// The identity that may create new units of the token, and signs too.
    pub mint_authority: Pubkey,
    /// The account that describes the token.
    pub mint_account: Pubkey,
    /// The token account that receives the new units.
    pub recipient: Pubkey,
    /// How many tokens to mint, as a decimal quantity.
    pub amount: Decimal,
    /// The mint's precision, where the caller knows it. Where absent, it is
    /// read from the mint account on the ledger.
    pub decimals: Option<u8>,
    /// Whether the instruction is handed to the engine, or only prepared.
    pub submit: bool,
}

/// The answer to a request that did not fail.
#[derive(Clone, Copy, Debug, PartialEq, Eq)]
pub struct Output {
    /// The transaction that carried the instruction; absent where nothing
    /// was submitted.
    pub signature: Option<Signature>,
}

} // verus!
