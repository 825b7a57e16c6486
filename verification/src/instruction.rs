//! The mint instruction and the accounts it names.

use crate::error::Error;
use crate::keys::Pubkey;
use crate::request::Input;
use solana_program::program_error::ProgramError;
use vstd::bytes::{
    lemma_auto_spec_u64_to_from_le_bytes,
    spec_u64_from_le_bytes,
    spec_u64_to_le_bytes,
};
use vstd::prelude::*;

verus! {

/// The address of the token program, which executes the mint instruction.
pub const TOKEN_PROGRAM_ID: [u8; 32] = [
    6, 221, 246, 225, 215, 101, 161, 147, 217, 203, 225, 70, 206, 235, 121, 172,
    28, 180, 133, 237, 95, 91, 55, 145, 58, 140, 245, 133, 126, 255, 0, 169,
];

/// The tag that marks an instruction's data as a checked mint.
pub const MINT_TO_CHECKED_TAG: u8 = 14;

/// One account that an instruction names, and how it uses it.
#[derive(Clone, Copy, Debug, PartialEq, Eq)]
pub struct AccountMeta {
    pub pubkey: Pubkey,
    /// The transaction must carry this account's signature.
    pub is_signer: bool,
    /// The instruction may change the account.
    pub is_writable: bool,
}

/// An instruction for a program on the ledger.
#[derive(Debug, PartialEq, Eq)]
pub struct Instruction {
    /// The program that executes the instruction.
    pub program_id: Pubkey,
    /// The accounts that the instruction names, in the program's order.
    pub accounts: Vec<AccountMeta>,
    /// What the program is to do, in its own encoding.
    pub data: Vec<u8>,
}

/// An instruction as a mathematical value.
pub struct InstructionView {
    pub program_id: Pubkey,
    pub accounts: Seq<AccountMeta>,
    pub data: Seq<u8>,
}

impl View for Instruction {
    type V = InstructionView;

    open spec fn view(&self) -> InstructionView {
        InstructionView { program_id: self.program_id, accounts: self.accounts@, data: self.data@ }
    }
}

impl InstructionView {
    /// The accounts whose signature the instruction asks for, in order.
    pub open spec fn signers(self) -> Seq<Pubkey> {
        self.accounts.filter(|meta: AccountMeta| meta.is_signer).map_values(
            |meta: AccountMeta| meta.pubkey,
        )
    }
}

/// An account that the instruction may change and that need not sign.
pub open spec fn writable(pubkey: Pubkey) -> AccountMeta {
    AccountMeta { pubkey, is_signer: false, is_writable: true }
}

/// An account that the instruction only reads.
pub open spec fn readonly(pubkey: Pubkey, is_signer: bool) -> AccountMeta {
    AccountMeta { pubkey, is_signer, is_writable: false }
}

/// The accounts of a checked mint: the mint, the receiving account, the
/// owner (who signs alone where no other signer is given), then each signer.
pub open spec fn mint_to_checked_accounts(
    mint: Pubkey,
    account: Pubkey,
    owner: Pubkey,
    signers: Seq<Pubkey>,
) -> Seq<AccountMeta> {
    seq![writable(mint), writable(account), readonly(owner, signers.len() == 0)]
        + signers.map_values(|signer: Pubkey| readonly(signer, true))
}

/// The data of a checked mint: the tag, the amount in base units as eight
/// little-endian bytes, and the precision that the amount was scaled by.
pub open spec fn mint_to_checked_data(amount: u64, decimals: u8) -> Seq<u8> {
    seq![MINT_TO_CHECKED_TAG] + spec_u64_to_le_bytes(amount) + seq![decimals]
}

/// Calls `spl_token::id`. Trusted: the token program's address is the 32
/// bytes of `TOKEN_PROGRAM_ID`.
#[verifier::external_body]
fn token_program_id() -> (id: Pubkey)
    ensures
        id.bytes == TOKEN_PROGRAM_ID,
{
    Pubkey { bytes: spl_token::id().to_bytes() }
}

/// Calls `spl_token::instruction::mint_to_checked`. Trusted: for the token
/// program's own address the encoder answers with the instruction that
/// names the accounts of `mint_to_checked_accounts` and carries the data of
/// `mint_to_checked_data`; for any other address it fails.
#[verifier::external_body]
fn mint_to_checked(
    program_id: &Pubkey,
    mint: &Pubkey,
    account: &Pubkey,
    owner: &Pubkey,
    signers: &Vec<Pubkey>,
    amount: u64,
    decimals: u8,
) -> (res: Result<Instruction, ProgramError>)
    ensures
        res is Ok <==> program_id.bytes == TOKEN_PROGRAM_ID,
        res matches Ok(ix) ==> ix@.program_id == *program_id,
        res matches Ok(ix) ==> ix@.accounts == mint_to_checked_accounts(
            *mint,
            *account,
            *owner,
            signers@,
        ),
        res matches Ok(ix) ==> ix@.data == mint_to_checked_data(amount, decimals),
{
    let key = |k: &Pubkey| solana_program::pubkey::Pubkey::new_from_array(k.bytes);
    let keys: Vec<_> = signers.iter().map(key).collect();
    let ix = spl_token::instruction::mint_to_checked(
        &key(program_id), &key(mint), &key(account), &key(owner),
        &keys.iter().collect::<Vec<_>>(), amount, decimals,
    )?;
    let meta = |a: &solana_program::instruction::AccountMeta| AccountMeta {
        pubkey: Pubkey { bytes: a.pubkey.to_bytes() },
        is_signer: a.is_signer,
        is_writable: a.is_writable,
    };
    let accounts = ix.accounts.iter().map(meta).collect();
    Ok(Instruction { program_id: Pubkey { bytes: ix.program_id.to_bytes() }, accounts, data: ix.data })
}

/// The mint instruction of a request, as a value: the token program is to
/// mint `amount` base units of the request's mint to its recipient, at
/// precision `decimals`, signed by the fee payer and the mint authority.
pub open spec fn mint_instruction(input: Input, amount: u64, decimals: u8) -> InstructionView {
    InstructionView {
        program_id: Pubkey { bytes: TOKEN_PROGRAM_ID },
        accounts: seq![
            writable(input.mint_account),
            writable(input.recipient),
            readonly(input.mint_authority, false),
            readonly(input.fee_payer, true),
            readonly(input.mint_authority, true),
        ],
        data: mint_to_checked_data(amount, decimals),
    }
}

/// Assembles the instruction that mints `amount` base units at precision
/// `decimals` as `input` asks. The fee payer and the mint authority both
/// sign, and the precision travels in the data so that the token program
/// can hold it against the mint's own.
pub fn build(input: &Input, amount: u64, decimals: u8) -> (res: Result<Instruction, Error>)
    ensures
        res matches Ok(ix) && ix@ == mint_instruction(*input, amount, decimals),
{
    let mut signers: Vec<Pubkey> = Vec::new();
    signers.push(input.fee_payer);
    signers.push(input.mint_authority);
    let program_id = token_program_id();
    match mint_to_checked(
        &program_id,
        &input.mint_account,
        &input.recipient,
        &input.mint_authority,
        &signers,
        amount,
        decimals,
    ) {
        Ok(ix) => {
            assert(ix@.accounts =~= mint_instruction(*input, amount, decimals).accounts);
            Ok(ix)
        },
        Err(e) => Err(Error::InstructionBuild(e)),
    }
}

/// The data of a checked mint is ten bytes: the tag, then the amount, which
/// can be read back from its eight bytes, then the precision.
pub proof fn lemma_mint_to_checked_data_layout(amount: u64, decimals: u8)
    ensures
        mint_to_checked_data(amount, decimals).len() == 10,
        mint_to_checked_data(amount, decimals)[0] == MINT_TO_CHECKED_TAG,
        spec_u64_from_le_bytes(mint_to_checked_data(amount, decimals).subrange(1, 9)) == amount,
        mint_to_checked_data(amount, decimals)[9] == decimals,
{
    lemma_auto_spec_u64_to_from_le_bytes();
    assert(mint_to_checked_data(amount, decimals).subrange(1, 9) =~= spec_u64_to_le_bytes(amount));
}

/// The mint instruction asks for two signatures: the fee payer's and the
/// mint authority's, in this order.
pub proof fn lemma_mint_instruction_signers(input: Input, amount: u64, decimals: u8)
    ensures
        mint_instruction(input, amount, decimals).signers() == seq![
            input.fee_payer,
            input.mint_authority,
        ],
{
    let accounts = mint_instruction(input, amount, decimals).accounts;
    let is_signer = |meta: AccountMeta| meta.is_signer;
    reveal_with_fuel(Seq::filter, 6);
    assert(accounts.filter(is_signer) =~= seq![
        readonly(input.fee_payer, true),
        readonly(input.mint_authority, true),
    ]);
}

} // verus!
