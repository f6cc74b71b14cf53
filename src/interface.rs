use vstd::prelude::*;
use crate::account::{AccountError, AccountState, keys_equal};
use crate::authority::{
    TOKEN_2022_ACCOUNT_DISCRIMINATOR_OFFSET, TOKEN_2022_MINT_DISCRIMINATOR, TOKEN_2022_PROGRAM_ID,
    TOKEN_2022_TOKEN_ACCOUNT_DISCRIMINATOR, legacy_mint_len, legacy_token_account_len,
    legacy_token_id, legacy_token_program_id, mint_len, token_account_len,
};

verus! {

/// Result of the signer check.
pub open spec fn signer_check(a: AccountState) -> Result<(), AccountError> {
    if a.is_signer {
        Ok(())
    } else {
        Err(AccountError::NotSigner)
    }
}

/// Result of checking an account against a token entity shape: the legacy
/// authority asks for exactly `legacy_len` bytes; the extensible authority
/// accepts a buffer of the legacy mint length, or one long enough to hold
/// the account-type byte when that byte is `disc`.
pub open spec fn shape_check(a: AccountState, legacy_len: nat, disc: u8) -> Result<(), AccountError> {
    let off = TOKEN_2022_ACCOUNT_DISCRIMINATOR_OFFSET as int;
    if a.owner@ == TOKEN_2022_PROGRAM_ID@ {
        if a.data@.len() == mint_len() {
            Ok(())
        } else if a.data@.len() <= off {
            Err(AccountError::BadLayout)
        } else if a.data@[off] == disc {
            Ok(())
        } else {
            Err(AccountError::BadLayout)
        }
    } else if a.owner@ == legacy_token_id() {
        if a.data@.len() == legacy_len {
            Ok(())
        } else {
            Err(AccountError::BadLayout)
        }
    } else {
        Err(AccountError::BadOwner)
    }
}

/// Result of the mint check.
pub open spec fn mint_check(a: AccountState) -> Result<(), AccountError> {
    shape_check(a, mint_len(), TOKEN_2022_MINT_DISCRIMINATOR)
}

/// Result of the token account check.
pub open spec fn token_check(a: AccountState) -> Result<(), AccountError> {
    shape_check(a, token_account_len(), TOKEN_2022_TOKEN_ACCOUNT_DISCRIMINATOR)
}

fn check_shape(account: &AccountState, legacy_len: usize, disc: u8) -> (r: Result<(), AccountError>)
    ensures
        r == shape_check(*account, legacy_len as nat, disc),
{
    if keys_equal(&account.owner, &TOKEN_2022_PROGRAM_ID) {
        let len = account.data.len();
        if len == legacy_mint_len() {
            return Ok(());
        }
        if len <= TOKEN_2022_ACCOUNT_DISCRIMINATOR_OFFSET {
            return Err(AccountError::BadLayout);
        }
        if account.data[TOKEN_2022_ACCOUNT_DISCRIMINATOR_OFFSET] != disc {
            return Err(AccountError::BadLayout);
        }
    } else {
        let legacy = legacy_token_program_id();
        if !keys_equal(&account.owner, &legacy) {
            return Err(AccountError::BadOwner);
        }
        if account.data.len() != legacy_len {
            return Err(AccountError::BadLayout);
        }
    }
    Ok(())
}

/// An account that must have signed the transaction.
pub struct SignerAccount;

impl SignerAccount {
    /// Accepts the account iff its signer flag is set.
    pub fn check(account: &AccountState) -> (r: Result<(), AccountError>)
        ensures
            r == signer_check(*account),
    {
        if !account.is_signer {
            return Err(AccountError::NotSigner);
        }
        Ok(())
    }
}

/// A mint of either token encoding.
pub struct MintInterface;

impl MintInterface {
    /// Accepts a legacy mint of the exact legacy length, or an extensible
    /// mint (legacy length, or mint account-type byte past the offset).
    pub fn check(account: &AccountState) -> (r: Result<(), AccountError>)
        ensures
            r == mint_check(*account),
    {
        check_shape(account, legacy_mint_len(), TOKEN_2022_MINT_DISCRIMINATOR)
    }
}

/// A token account of either token encoding.
pub struct TokenInterface;

impl TokenInterface {
    /// Accepts a legacy token account of the exact legacy length, or an
    /// extensible one (legacy mint length, or token-account type byte past
    /// the offset).
    pub fn check(account: &AccountState) -> (r: Result<(), AccountError>)
        ensures
            r == token_check(*account),
    {
        check_shape(account, legacy_token_account_len(), TOKEN_2022_TOKEN_ACCOUNT_DISCRIMINATOR)
    }
}

/// An account owned by the legacy authority is a mint iff its buffer has
/// exactly the legacy mint length; any other length is a layout error.
pub proof fn lemma_legacy_mint_exact_length(a: AccountState)
    requires
        a.owner@ == legacy_token_id(),
    ensures
        (mint_check(a) is Ok) <==> a.data@.len() == mint_len(),
        a.data@.len() != mint_len() ==> mint_check(a) == Err::<(), AccountError>(AccountError::BadLayout),
{
    assert(TOKEN_2022_PROGRAM_ID@[4] != legacy_token_id()[4]);
}

/// With the extensible authority and a buffer longer than the
/// account-type offset, the mint check passes iff that byte is the mint
/// type, the token account check iff it is the token account type, and
/// never both.
pub proof fn lemma_extensible_discriminator(a: AccountState)
    requires
        a.owner@ == TOKEN_2022_PROGRAM_ID@,
        a.data@.len() > TOKEN_2022_ACCOUNT_DISCRIMINATOR_OFFSET,
    ensures
        (mint_check(a) is Ok) <==> a.data@[TOKEN_2022_ACCOUNT_DISCRIMINATOR_OFFSET as int]
            == TOKEN_2022_MINT_DISCRIMINATOR,
        (token_check(a) is Ok) <==> a.data@[TOKEN_2022_ACCOUNT_DISCRIMINATOR_OFFSET as int]
            == TOKEN_2022_TOKEN_ACCOUNT_DISCRIMINATOR,
        !(mint_check(a) is Ok && token_check(a) is Ok),
{
}

/// With the extensible authority, a buffer of exactly the account-type
/// offset's length is a layout error for both checks: the type byte lies
/// past its end.
pub proof fn lemma_extensible_boundary(a: AccountState)
    requires
        a.owner@ == TOKEN_2022_PROGRAM_ID@,
        a.data@.len() == TOKEN_2022_ACCOUNT_DISCRIMINATOR_OFFSET,
    ensures
        mint_check(a) == Err::<(), AccountError>(AccountError::BadLayout),
        token_check(a) == Err::<(), AccountError>(AccountError::BadLayout),
{
}

} // verus!
