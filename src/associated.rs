use vstd::prelude::*;
use crate::account::{AccountError, AccountState, keys_equal};
use crate::authority::{associated_token_id, associated_token_program_id, program_address_of, try_find_address};
use crate::authority::{TOKEN_2022_PROGRAM_ID, legacy_token_id};
use crate::interface::{TokenInterface, token_check};

verus! {

/// Canonical address of the associated token account of `owner` for `mint`
/// under `token_program`: seeds `[owner, token_program, mint]` under the
/// associated token account program.
pub open spec fn ata_address(owner: Seq<u8>, mint: Seq<u8>, token_program: Seq<u8>) -> Seq<u8> {
    program_address_of(seq![owner, token_program, mint], associated_token_id())
}

/// Whether `derived` is a found address equal to `key`.
pub open spec fn derived_is(derived: Option<[u8; 32]>, key: Seq<u8>) -> bool {
    derived matches Some(d) && d@ == key
}

/// Result of checking `a` as an associated token account, given the
/// derived address (`None` when none was found).
pub open spec fn ata_check(a: AccountState, derived: Option<[u8; 32]>) -> Result<(), AccountError> {
    match token_check(a) {
        Err(e) => Err(e),
        Ok(_) => if derived_is(derived, a.key@) {
            Ok(())
        } else {
            Err(AccountError::InvalidSeeds)
        },
    }
}

/// What to do about an associated token account before using it.
#[derive(Clone, Copy, Debug, PartialEq, Eq, Structural)]
pub enum InitStep {
    /// The account is already valid; nothing to create.
    Ready,
    /// The account must be created by the associated token account program.
    Create,
}

/// The step decided for `a` given the derived address.
pub open spec fn init_step_of(a: AccountState, derived: Option<[u8; 32]>) -> InitStep {
    if ata_check(a, derived) is Ok {
        InitStep::Ready
    } else {
        InitStep::Create
    }
}

/// The canonical token account of an owner for a mint.
pub struct AssociatedTokenAccount;

impl AssociatedTokenAccount {
    /// Derives the canonical address of `owner`'s account for `mint` under
    /// `token_program`; `None` when the runtime finds no bump seed.
    pub fn derive_address(owner: &[u8; 32], mint: &[u8; 32], token_program: &[u8; 32]) -> (r: Option<[u8; 32]>)
        ensures
            r matches Some(a) ==> a@ == ata_address(owner@, mint@, token_program@),
    {
        let program = associated_token_program_id();
        try_find_address(owner, token_program, mint, &program)
    }

    /// Checks `account` as a token account whose address is `derived`.
    pub fn check_derived(account: &AccountState, derived: Option<[u8; 32]>) -> (r: Result<(), AccountError>)
        ensures
            r == ata_check(*account, derived),
    {
        TokenInterface::check(account)?;
        match derived {
            Some(d) => {
                if keys_equal(&d, &account.key) {
                    Ok(())
                } else {
                    Err(AccountError::InvalidSeeds)
                }
            },
            None => Err(AccountError::InvalidSeeds),
        }
    }

    /// Accepts `account` iff it is a valid token account at the canonical
    /// address of `authority` for `mint` under `token_program`.
    pub fn check(
        account: &AccountState,
        authority: &AccountState,
        mint: &AccountState,
        token_program: &AccountState,
    ) -> (r: Result<(), AccountError>)
        ensures
            token_check(*account) is Err ==> r == token_check(*account),
            r is Ok ==> token_check(*account) is Ok && account.key@ == ata_address(
                authority.key@,
                mint.key@,
                token_program.key@,
            ),
            token_check(*account) is Ok && r is Err ==> r == Err::<(), AccountError>(AccountError::InvalidSeeds),
    {
        let derived = Self::derive_address(&authority.key, &mint.key, &token_program.key);
        Self::check_derived(account, derived)
    }

    /// Decides the step for `account` given the derived address: create it
    /// iff it fails the associated token account check.
    pub fn init_step(account: &AccountState, derived: Option<[u8; 32]>) -> (r: InitStep)
        ensures
            r == init_step_of(*account, derived),
    {
        match Self::check_derived(account, derived) {
            Ok(_) => InitStep::Ready,
            Err(_) => InitStep::Create,
        }
    }

    /// Decides whether the associated token account of `owner` for `mint`
    /// must be created: it is ready only when it passes the check against
    /// its canonical address; any failure asks for creation.
    pub fn init_if_needed(
        account: &AccountState,
        mint: &AccountState,
        owner: &AccountState,
        token_program: &AccountState,
    ) -> (r: InitStep)
        ensures
            r == InitStep::Ready ==> token_check(*account) is Ok && account.key@ == ata_address(
                owner.key@,
                mint.key@,
                token_program.key@,
            ),
            token_check(*account) is Err ==> r == InitStep::Create,
            account.key@ != ata_address(owner.key@, mint.key@, token_program.key@) ==> r
                == InitStep::Create,
    {
        let derived = Self::derive_address(&owner.key, &mint.key, &token_program.key);
        Self::init_step(account, derived)
    }
}

/// Two derivations from the same owner, mint and token program give the
/// same address.
pub proof fn lemma_derived_address_deterministic(
    owner: Seq<u8>,
    mint: Seq<u8>,
    token_program: Seq<u8>,
    first: Seq<u8>,
    second: Seq<u8>,
)
    requires
        first == ata_address(owner, mint, token_program),
        second == ata_address(owner, mint, token_program),
    ensures
        first == second,
{
}

/// An account whose address is not the derived one fails the associated
/// token account check, with `InvalidSeeds` when its layout is valid.
pub proof fn lemma_check_rejects_other_address(
    a: AccountState,
    owner: Seq<u8>,
    mint: Seq<u8>,
    token_program: Seq<u8>,
    derived: Option<[u8; 32]>,
)
    requires
        derived matches Some(d) ==> d@ == ata_address(owner, mint, token_program),
        a.key@ != ata_address(owner, mint, token_program),
    ensures
        ata_check(a, derived) is Err,
        token_check(a) is Ok ==> ata_check(a, derived) == Err::<(), AccountError>(AccountError::InvalidSeeds),
{
}

/// Deciding twice on an account that did not exist asks for exactly one
/// creation: the first decision creates, and once the creation has left a
/// valid token account at the derived address the second finds it ready.
pub proof fn lemma_init_if_needed_creates_once(
    before: AccountState,
    after: AccountState,
    derived: Option<[u8; 32]>,
)
    requires
        before.data@.len() == 0,
        token_check(after) is Ok,
        derived_is(derived, after.key@),
    ensures
        init_step_of(before, derived) == InitStep::Create,
        init_step_of(after, derived) == InitStep::Ready,
{
    assert(TOKEN_2022_PROGRAM_ID@[4] != legacy_token_id()[4]);
}

} // verus!
