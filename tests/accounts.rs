use escrow_accounts::account::{AccountError, AccountState};
use escrow_accounts::associated::{AssociatedTokenAccount, InitStep};
use escrow_accounts::authority::TOKEN_2022_PROGRAM_ID;
use escrow_accounts::interface::{MintInterface, SignerAccount, TokenInterface};
use escrow_accounts::program_account::ProgramAccount;

const LEGACY_TOKEN_ID: [u8; 32] = [
    0x06, 0xdd, 0xf6, 0xe1, 0xd7, 0x65, 0xa1, 0x93, 0xd9, 0xcb, 0xe1, 0x46, 0xce, 0xeb, 0x79, 0xac,
    0x1c, 0xb4, 0x85, 0xed, 0x5f, 0x5b, 0x37, 0x91, 0x3a, 0x8c, 0xf5, 0x85, 0x7e, 0xff, 0x00, 0xa9,
];

const ESCROW_PROGRAM_ID: [u8; 32] = [
    0x0f, 0x1e, 0x6b, 0x14, 0x21, 0xc0, 0x4a, 0x07, 0x04, 0x31, 0x26, 0x5c, 0x19, 0xc5, 0xbb, 0xee,
    0x19, 0x92, 0xba, 0xe8, 0xaf, 0xd1, 0xcd, 0x07, 0x8e, 0xf8, 0xaf, 0x70, 0x47, 0xdc, 0x11, 0xf7,
];

const ESCROW_LEN: usize = 112;

fn account(key: u8, owner: [u8; 32], data: Vec<u8>, lamports: u64) -> AccountState {
    AccountState { key: [key; 32], owner, is_signer: false, lamports, data }
}

fn typed(len: usize, disc: u8) -> Vec<u8> {
    let mut data = vec![0u8; len];
    data[165] = disc;
    data
}

#[test]
fn signer_flag_decides() {
    let mut a = account(1, [0; 32], vec![], 0);
    assert_eq!(SignerAccount::check(&a), Err(AccountError::NotSigner));
    a.is_signer = true;
    assert_eq!(SignerAccount::check(&a), Ok(()));
}

#[test]
fn legacy_mint_needs_exact_length() {
    assert_eq!(MintInterface::check(&account(1, LEGACY_TOKEN_ID, vec![0; 82], 0)), Ok(()));
    for len in [0usize, 81, 83, 165, 170] {
        let a = account(1, LEGACY_TOKEN_ID, typed(len.max(166), 1)[..len].to_vec(), 0);
        assert_eq!(MintInterface::check(&a), Err(AccountError::BadLayout));
    }
}

#[test]
fn legacy_token_account_needs_exact_length() {
    assert_eq!(TokenInterface::check(&account(1, LEGACY_TOKEN_ID, vec![0; 165], 0)), Ok(()));
    assert_eq!(
        TokenInterface::check(&account(1, LEGACY_TOKEN_ID, vec![0; 82], 0)),
        Err(AccountError::BadLayout)
    );
    assert_eq!(
        TokenInterface::check(&account(1, LEGACY_TOKEN_ID, typed(170, 2), 0)),
        Err(AccountError::BadLayout)
    );
}

#[test]
fn unknown_owner_is_rejected() {
    let other = [7u8; 32];
    assert_eq!(MintInterface::check(&account(1, other, vec![0; 82], 0)), Err(AccountError::BadOwner));
    assert_eq!(TokenInterface::check(&account(1, other, vec![0; 165], 0)), Err(AccountError::BadOwner));
}

#[test]
fn extensible_discriminator_selects_type() {
    let mint = account(1, TOKEN_2022_PROGRAM_ID, typed(170, 1), 0);
    let token = account(1, TOKEN_2022_PROGRAM_ID, typed(170, 2), 0);
    let other = account(1, TOKEN_2022_PROGRAM_ID, typed(166, 3), 0);
    assert_eq!(MintInterface::check(&mint), Ok(()));
    assert_eq!(TokenInterface::check(&mint), Err(AccountError::BadLayout));
    assert_eq!(TokenInterface::check(&token), Ok(()));
    assert_eq!(MintInterface::check(&token), Err(AccountError::BadLayout));
    assert_eq!(MintInterface::check(&other), Err(AccountError::BadLayout));
    assert_eq!(TokenInterface::check(&other), Err(AccountError::BadLayout));
}

#[test]
fn extensible_accepts_legacy_mint_length() {
    let a = account(1, TOKEN_2022_PROGRAM_ID, vec![0; 82], 0);
    assert_eq!(MintInterface::check(&a), Ok(()));
    assert_eq!(TokenInterface::check(&a), Ok(()));
}

#[test]
fn extensible_buffer_at_offset_is_bad_layout() {
    let a = account(1, TOKEN_2022_PROGRAM_ID, vec![1; 165], 0);
    assert_eq!(MintInterface::check(&a), Err(AccountError::BadLayout));
    assert_eq!(TokenInterface::check(&a), Err(AccountError::BadLayout));
    let short = account(1, TOKEN_2022_PROGRAM_ID, vec![], 0);
    assert_eq!(MintInterface::check(&short), Err(AccountError::BadLayout));
}

#[test]
fn derived_address_must_match_key() {
    let a = account(9, LEGACY_TOKEN_ID, vec![0; 165], 0);
    assert_eq!(AssociatedTokenAccount::check_derived(&a, Some([9; 32])), Ok(()));
    assert_eq!(
        AssociatedTokenAccount::check_derived(&a, Some([8; 32])),
        Err(AccountError::InvalidSeeds)
    );
    assert_eq!(AssociatedTokenAccount::check_derived(&a, None), Err(AccountError::InvalidSeeds));
    let bad = account(9, [3; 32], vec![0; 165], 0);
    assert_eq!(AssociatedTokenAccount::check_derived(&bad, Some([9; 32])), Err(AccountError::BadOwner));
}

#[test]
fn derive_address_is_deterministic() {
    let first = AssociatedTokenAccount::derive_address(&[1; 32], &[2; 32], &LEGACY_TOKEN_ID);
    let second = AssociatedTokenAccount::derive_address(&[1; 32], &[2; 32], &LEGACY_TOKEN_ID);
    assert_eq!(first, second);
}

#[test]
fn check_rejects_foreign_address() {
    let owner = account(1, [0; 32], vec![], 0);
    let mint = account(2, LEGACY_TOKEN_ID, vec![0; 82], 0);
    let program = account(3, [0; 32], vec![], 0);
    let a = account(4, LEGACY_TOKEN_ID, vec![0; 165], 0);
    assert!(AssociatedTokenAccount::check(&a, &owner, &mint, &program).is_err());
    let bad = account(4, LEGACY_TOKEN_ID, vec![0; 10], 0);
    assert_eq!(
        AssociatedTokenAccount::check(&bad, &owner, &mint, &program),
        Err(AccountError::BadLayout)
    );
}

#[test]
fn init_step_creates_once() {
    let before = account(5, [0; 32], vec![], 0);
    let derived = Some([5; 32]);
    assert_eq!(AssociatedTokenAccount::init_step(&before, derived), InitStep::Create);
    let after = account(5, LEGACY_TOKEN_ID, vec![0; 165], 2_039_280);
    assert_eq!(AssociatedTokenAccount::init_step(&after, derived), InitStep::Ready);
    assert_eq!(AssociatedTokenAccount::init_step(&after, Some([6; 32])), InitStep::Create);
}

#[test]
fn init_if_needed_creates_missing_account() {
    let owner = account(1, [0; 32], vec![], 0);
    let mint = account(2, LEGACY_TOKEN_ID, vec![0; 82], 0);
    let program = account(3, [0; 32], vec![], 0);
    let missing = account(4, [0; 32], vec![], 0);
    assert_eq!(
        AssociatedTokenAccount::init_if_needed(&missing, &mint, &owner, &program),
        InitStep::Create
    );
}

#[test]
fn program_state_check() {
    let a = account(1, ESCROW_PROGRAM_ID, vec![0; ESCROW_LEN], 10);
    assert_eq!(ProgramAccount::check(&a, &ESCROW_PROGRAM_ID, ESCROW_LEN), Ok(()));
    assert_eq!(ProgramAccount::check(&a, &[2; 32], ESCROW_LEN), Err(AccountError::BadOwner));
    assert_eq!(ProgramAccount::check(&a, &ESCROW_PROGRAM_ID, ESCROW_LEN + 1), Err(AccountError::BadLayout));
}

#[test]
fn close_tombstones_and_sweeps() {
    let mut a = account(1, ESCROW_PROGRAM_ID, vec![7; ESCROW_LEN], 1_670_400);
    let mut dest = account(2, [0; 32], vec![1, 2], 1_000);
    assert_eq!(ProgramAccount::close(&mut a, &mut dest), Ok(()));
    assert_eq!(a.data, vec![0xff]);
    assert_eq!(a.lamports, 0);
    assert_eq!(dest.lamports, 1_671_400);
    assert_eq!(dest.data, vec![1, 2]);
    assert_eq!(
        ProgramAccount::check(&a, &ESCROW_PROGRAM_ID, ESCROW_LEN),
        Err(AccountError::BadLayout)
    );
}

#[test]
fn close_of_empty_buffer_fails() {
    let mut a = account(1, ESCROW_PROGRAM_ID, vec![], 50);
    let mut dest = account(2, [0; 32], vec![], 1);
    assert_eq!(ProgramAccount::close(&mut a, &mut dest), Err(AccountError::BadLayout));
    assert_eq!(a.lamports, 50);
    assert_eq!(dest.lamports, 1);
}

#[test]
fn close_overflow_fails_unchanged() {
    let mut a = account(1, ESCROW_PROGRAM_ID, vec![3; 4], 2);
    let mut dest = account(2, [0; 32], vec![], u64::MAX - 1);
    assert_eq!(ProgramAccount::close(&mut a, &mut dest), Err(AccountError::BalanceOverflow));
    assert_eq!(a.data, vec![3; 4]);
    assert_eq!(a.lamports, 2);
    assert_eq!(dest.lamports, u64::MAX - 1);
}

#[test]
fn settlement_closes_vault_state() {
    let mut escrow = account(1, ESCROW_PROGRAM_ID, vec![0; ESCROW_LEN], 1_670_400);
    let mut maker = account(2, [0; 32], vec![], 3_000_000_000);
    assert_eq!(ProgramAccount::check(&escrow, &ESCROW_PROGRAM_ID, ESCROW_LEN), Ok(()));
    assert_eq!(ProgramAccount::close(&mut escrow, &mut maker), Ok(()));
    assert_eq!(maker.lamports, 3_001_670_400);
    assert!(ProgramAccount::check(&escrow, &ESCROW_PROGRAM_ID, ESCROW_LEN).is_err());
}
