use mint_token::error::Error;
use mint_token::keys::Pubkey;
use mint_token::mint::{get_decimals, AccountResponse, DECIMALS_OFFSET, INITIALIZED_OFFSET, MINT_LEN};
use solana_program::program_error::ProgramError;
use solana_program::program_option::COption;
use solana_program::program_pack::Pack;
use spl_token::state::Mint;

fn mint_account() -> Pubkey {
    Pubkey { bytes: [9; 32] }
}

fn record(decimals: u8) -> Vec<u8> {
    let mut data = vec![0u8; MINT_LEN];
    data[0] = 1;
    for byte in &mut data[4..36] {
        *byte = 7;
    }
    data[36..44].copy_from_slice(&1_000u64.to_le_bytes());
    data[DECIMALS_OFFSET] = decimals;
    data[INITIALIZED_OFFSET] = 1;
    data
}

#[test]
fn missing_account_is_not_found() {
    assert_eq!(
        get_decimals(mint_account(), AccountResponse::Missing),
        Err(Error::AccountNotFound(mint_account()))
    );
}

#[test]
fn failed_query_is_not_found() {
    assert_eq!(
        get_decimals(mint_account(), AccountResponse::Failed),
        Err(Error::AccountNotFound(mint_account()))
    );
}

#[test]
fn decimals_of_a_hand_made_record() {
    assert_eq!(get_decimals(mint_account(), AccountResponse::Found(record(6))), Ok(6));
    assert_eq!(get_decimals(mint_account(), AccountResponse::Found(record(0))), Ok(0));
    assert_eq!(get_decimals(mint_account(), AccountResponse::Found(record(255))), Ok(255));
}

#[test]
fn decimals_of_a_record_packed_by_the_token_program() {
    let mint = Mint {
        mint_authority: COption::Some(solana_program::pubkey::Pubkey::new_from_array([3; 32])),
        supply: 123_456_789,
        decimals: 9,
        is_initialized: true,
        freeze_authority: COption::None,
    };
    let mut data = vec![0u8; Mint::LEN];
    Mint::pack(mint, &mut data).unwrap();
    assert_eq!(data.len(), MINT_LEN);
    assert_eq!(data[DECIMALS_OFFSET], 9);
    assert_eq!(data[INITIALIZED_OFFSET], 1);
    assert_eq!(get_decimals(mint_account(), AccountResponse::Found(data)), Ok(9));
}

#[test]
fn record_of_the_wrong_length_fails_to_decode() {
    for data in [vec![], vec![1, 2, 3], record(6)[..81].to_vec(), [record(6), vec![0]].concat()] {
        assert_eq!(
            get_decimals(mint_account(), AccountResponse::Found(data)),
            Err(Error::Decode(ProgramError::InvalidAccountData))
        );
    }
}

#[test]
fn uninitialised_record_fails_to_decode() {
    let mut data = record(6);
    data[INITIALIZED_OFFSET] = 0;
    assert_eq!(
        get_decimals(mint_account(), AccountResponse::Found(data)),
        Err(Error::Decode(ProgramError::UninitializedAccount))
    );
    assert_eq!(
        get_decimals(mint_account(), AccountResponse::Found(vec![0u8; MINT_LEN])),
        Err(Error::Decode(ProgramError::UninitializedAccount))
    );
}

#[test]
fn record_with_a_bad_flag_or_tag_fails_to_decode() {
    let mut bad_flag = record(6);
    bad_flag[INITIALIZED_OFFSET] = 2;
    let mut bad_authority_tag = record(6);
    bad_authority_tag[0] = 2;
    let mut bad_authority_tag_tail = record(6);
    bad_authority_tag_tail[3] = 1;
    let mut bad_freeze_tag = record(6);
    bad_freeze_tag[46] = 5;
    let mut bad_freeze_tag_tail = record(6);
    bad_freeze_tag_tail[48] = 1;
    for data in [bad_flag, bad_authority_tag, bad_authority_tag_tail, bad_freeze_tag, bad_freeze_tag_tail] {
        assert_eq!(
            get_decimals(mint_account(), AccountResponse::Found(data)),
            Err(Error::Decode(ProgramError::InvalidAccountData))
        );
    }
}

#[test]
fn record_with_a_freeze_authority() {
    let mut data = record(4);
    data[46] = 1;
    for byte in &mut data[50..82] {
        *byte = 8;
    }
    assert_eq!(get_decimals(mint_account(), AccountResponse::Found(data)), Ok(4));
}
