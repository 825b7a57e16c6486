//! The mint account's record and the precision it holds.

use crate::error::Error;
use crate::keys::Pubkey;
use solana_program::program_error::ProgramError;
use solana_program::program_pack::Pack;
use vstd::prelude::*;

verus! {

/// The length in bytes of a packed mint record.
pub const MINT_LEN: usize = 82;

/// Where in the record the precision stands.
pub const DECIMALS_OFFSET: usize = 44;

/// Where in the record the initialisation flag stands.
pub const INITIALIZED_OFFSET: usize = 45;

/// Where in the record the optional mint authority begins.
pub const MINT_AUTHORITY_OFFSET: usize = 0;

/// Where in the record the optional freeze authority begins.
pub const FREEZE_AUTHORITY_OFFSET: usize = 46;

/// The four bytes from `at` on are the tag of an optional address: a
/// little-endian 0 (absent) or 1 (present).
pub open spec fn is_option_tag(data: Seq<u8>, at: int) -> bool {
    &&& data[at] == 0 || data[at] == 1
    &&& data[at + 1] == 0
    &&& data[at + 2] == 0
    &&& data[at + 3] == 0
}

/// `data` is the packed record of an initialised mint: the optional mint
/// authority (36 bytes), the supply (8), the precision (1), the
/// initialisation flag (1) and the optional freeze authority (36).
pub open spec fn is_mint_record(data: Seq<u8>) -> bool {
    &&& data.len() == MINT_LEN
    &&& is_option_tag(data, MINT_AUTHORITY_OFFSET as int)
    &&& data[INITIALIZED_OFFSET as int] == 1
    &&& is_option_tag(data, FREEZE_AUTHORITY_OFFSET as int)
}

/// The precision that a mint record holds, if `data` is one.
pub open spec fn mint_decimals(data: Seq<u8>) -> Option<u8> {
    if is_mint_record(data) {
        Some(data[DECIMALS_OFFSET as int])
    } else {
        None
    }
}

/// Calls `spl_token::state::Mint::unpack` and hands out the precision of the
/// mint it decoded. Trusted: the decoder accepts exactly the 82-byte records
/// whose two option tags are 0 or 1 and whose initialisation flag is 1, and
/// the precision is the byte at offset 44.
#[verifier::external_body]
fn unpack_mint_decimals(data: &[u8]) -> (res: Result<u8, ProgramError>)
    ensures
        res is Ok <==> is_mint_record(data@),
        res matches Ok(decimals) ==> Some(decimals) == mint_decimals(data@),
{
    spl_token::state::Mint::unpack(data).map(|mint| mint.decimals)
}

/// What the ledger answered when asked for an account.
#[derive(Debug, PartialEq, Eq)]
pub enum AccountResponse {
    /// The query itself failed.
    Failed,
    /// The ledger holds no account at the address.
    Missing,
    /// The account's data.
    Found(Vec<u8>),
}

/// The precision of the mint at `mint_account`, read from the ledger's
/// answer to the query for that account.
pub fn get_decimals(mint_account: Pubkey, response: AccountResponse) -> (res: Result<u8, Error>)
    ensures
        response is Failed || response is Missing ==> res == Err::<u8, Error>(
            Error::AccountNotFound(mint_account),
        ),
        response matches AccountResponse::Found(data) ==> match mint_decimals(data@) {
            Some(decimals) => res == Ok::<u8, Error>(decimals),
            None => res matches Err(Error::Decode(_)),
        },
{
    match response {
        AccountResponse::Failed => Err(Error::AccountNotFound(mint_account)),
        AccountResponse::Missing => Err(Error::AccountNotFound(mint_account)),
        AccountResponse::Found(data) => match unpack_mint_decimals(data.as_slice()) {
            Ok(decimals) => Ok(decimals),
            Err(e) => Err(Error::Decode(e)),
        },
    }
}

} // verus!
