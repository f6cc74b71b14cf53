use vstd::prelude::*;

verus! {

/// The authority that owns accounts of the extensible token encoding.
pub const TOKEN_2022_PROGRAM_ID: [u8; 32] = [
    0x06, 0xdd, 0xf6, 0xe1, 0xee, 0x75, 0x8f, 0xde, 0x18, 0x42, 0x5d, 0xbc, 0xe4, 0x6c, 0xcd, 0xda,
    0xb6, 0x1a, 0xfc, 0x4d, 0x83, 0xb9, 0x0d, 0x27, 0xfe, 0xbd, 0xf9, 0x28, 0xd8, 0xa1, 0x8b, 0xfc,
];

/// Offset of the account-type byte in an extensible-encoding buffer.
pub const TOKEN_2022_ACCOUNT_DISCRIMINATOR_OFFSET: usize = 165;

/// Account-type byte of an extensible-encoding mint.
pub const TOKEN_2022_MINT_DISCRIMINATOR: u8 = 0x01;

/// Account-type byte of an extensible-encoding token account.
pub const TOKEN_2022_TOKEN_ACCOUNT_DISCRIMINATOR: u8 = 0x02;

/// Address of the legacy token program.
pub open spec fn legacy_token_id() -> Seq<u8> {
    seq![
        0x06u8, 0xdd, 0xf6, 0xe1, 0xd7, 0x65, 0xa1, 0x93, 0xd9, 0xcb, 0xe1, 0x46, 0xce, 0xeb, 0x79,
        0xac, 0x1c, 0xb4, 0x85, 0xed, 0x5f, 0x5b, 0x37, 0x91, 0x3a, 0x8c, 0xf5, 0x85, 0x7e, 0xff,
        0x00, 0xa9,
    ]
}

/// Address of the associated token account program.
pub open spec fn associated_token_id() -> Seq<u8> {
    seq![
        0x8cu8, 0x97, 0x25, 0x8f, 0x4e, 0x24, 0x89, 0xf1, 0xbb, 0x3d, 0x10, 0x29, 0x14, 0x8e, 0x0d,
        0x83, 0x0b, 0x5a, 0x13, 0x99, 0xda, 0xff, 0x10, 0x84, 0x04, 0x8e, 0x7b, 0xd8, 0xdb, 0xe9,
        0xf8, 0x59,
    ]
}

/// Byte length of a legacy-encoding mint.
pub open spec fn mint_len() -> nat {
    82
}

/// Byte length of a legacy-encoding token account.
pub open spec fn token_account_len() -> nat {
    165
}

/// The address that the runtime derives from `seeds` under `program`,
/// when it finds a valid bump seed.
pub uninterp spec fn program_address_of(seeds: Seq<Seq<u8>>, program: Seq<u8>) -> Seq<u8>;

/// Relies on pinocchio_token::ID: the legacy token program's address.
#[verifier::external_body]
pub(crate) fn legacy_token_program_id() -> (r: [u8; 32])
    ensures
        r@ == legacy_token_id(),
{
    pinocchio_token::ID
}

/// Relies on pinocchio_associated_token_account::ID: the associated token
/// account program's address.
#[verifier::external_body]
pub(crate) fn associated_token_program_id() -> (r: [u8; 32])
    ensures
        r@ == associated_token_id(),
{
    pinocchio_associated_token_account::ID
}

/// Relies on pinocchio_token::state::Mint::LEN: the size of a legacy mint.
#[verifier::external_body]
pub(crate) fn legacy_mint_len() -> (r: usize)
    ensures
        r == mint_len(),
{
    pinocchio_token::state::Mint::LEN
}

/// Relies on pinocchio_token::state::TokenAccount::LEN: the size of a legacy
/// token account.
#[verifier::external_body]
pub(crate) fn legacy_token_account_len() -> (r: usize)
    ensures
        r == token_account_len(),
{
    pinocchio_token::state::TokenAccount::LEN
}

/// Relies on pinocchio::pubkey::try_find_program_address: when it finds a
/// bump seed, the address it returns is derived from the seeds and the
/// program alone; it may find none (and always finds none off-chain).
#[verifier::external_body]
pub(crate) fn try_find_address(
    s0: &[u8; 32],
    s1: &[u8; 32],
    s2: &[u8; 32],
    program: &[u8; 32],
) -> (r: Option<[u8; 32]>)
    ensures
        r matches Some(a) ==> a@ == program_address_of(seq![s0@, s1@, s2@], program@),
{
    pinocchio::pubkey::try_find_program_address(&[&s0[..], &s1[..], &s2[..]], program).map(|f| f.0)
}

} // verus!
