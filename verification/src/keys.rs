//! Addresses and transaction identifiers, held as their raw bytes.

use vstd::prelude::*;

verus! {

/// The address of an account or of a signing identity on the ledger.
#[derive(Clone, Copy, Debug, PartialEq, Eq, Hash)]
pub struct Pubkey {
    pub bytes: [u8; 32],
}

/// The identifier of a transaction that the ledger accepted.
#[derive(Clone, Copy, Debug, PartialEq, Eq, Hash)]
pub struct Signature {
    pub bytes: [u8; 64],
}

} // verus!
