use vstd::prelude::*;
use crate::account::{AccountError, AccountState, keys_equal};

verus! {

/// Byte written at offset zero of a closed account.
pub const CLOSED_ACCOUNT_SENTINEL: u8 = 0xff;

/// Result of checking `a` as program state of `program_id` whose records
/// are `state_len` bytes long.
pub open spec fn program_check(a: AccountState, program_id: Seq<u8>, state_len: nat) -> Result<(), AccountError> {
    if a.owner@ != program_id {
        Err(AccountError::BadOwner)
    } else if a.data@.len() != state_len {
        Err(AccountError::BadLayout)
    } else {
        Ok(())
    }
}

/// Result of closing `a` into `dest`: an empty buffer cannot take the
/// sentinel, and the destination's balance must not overflow.
pub open spec fn close_check(a: AccountState, dest: AccountState) -> Result<(), AccountError> {
    if a.data@.len() == 0 {
        Err(AccountError::BadLayout)
    } else if a.lamports + dest.lamports > u64::MAX {
        Err(AccountError::BalanceOverflow)
    } else {
        Ok(())
    }
}

/// `after` is `before` tombstoned: a one-byte buffer holding the sentinel,
/// no balance, address, owner and signer flag kept.
pub open spec fn is_tombstone_of(after: AccountState, before: AccountState) -> bool {
    &&& after.data@ == seq![CLOSED_ACCOUNT_SENTINEL]
    &&& after.lamports == 0
    &&& after.key == before.key
    &&& after.owner == before.owner
    &&& after.is_signer == before.is_signer
}

/// `after` is `before` credited with `amount`, all else kept.
pub open spec fn is_credited(after: AccountState, before: AccountState, amount: nat) -> bool {
    &&& after.lamports == before.lamports + amount
    &&& after.data@ == before.data@
    &&& after.key == before.key
    &&& after.owner == before.owner
    &&& after.is_signer == before.is_signer
}

/// State owned by this program.
pub struct ProgramAccount;

impl ProgramAccount {
    /// Accepts `account` iff `program_id` owns it and its buffer is exactly
    /// `state_len` bytes.
    pub fn check(account: &AccountState, program_id: &[u8; 32], state_len: usize) -> (r: Result<(), AccountError>)
        ensures
            r == program_check(*account, program_id@, state_len as nat),
    {
        if !keys_equal(&account.owner, program_id) {
            return Err(AccountError::BadOwner);
        }
        if account.data.len() != state_len {
            return Err(AccountError::BadLayout);
        }
        Ok(())
    }

    /// Closes `account` into `destination`: writes the sentinel at offset
    /// zero, moves the whole balance to `destination`, and shrinks the
    /// buffer to one byte. On failure nothing changes.
    pub fn close(account: &mut AccountState, destination: &mut AccountState) -> (r: Result<(), AccountError>)
        ensures
            r == close_check(*old(account), *old(destination)),
            r is Ok ==> is_tombstone_of(*final(account), *old(account)),
            r is Ok ==> is_credited(*final(destination), *old(destination), old(account).lamports as nat),
            r is Err ==> *final(account) == *old(account) && *final(destination) == *old(destination),
    {
        if account.data.len() == 0 {
            return Err(AccountError::BadLayout);
        }
        let amount = account.lamports;
        let credited = match destination.lamports.checked_add(amount) {
            Some(v) => v,
            None => return Err(AccountError::BalanceOverflow),
        };
        account.data.set(0, CLOSED_ACCOUNT_SENTINEL);
        destination.lamports = credited;
        account.lamports = 0;
        account.data.truncate(1);
        assert(account.data@ =~= seq![CLOSED_ACCOUNT_SENTINEL]);
        Ok(())
    }
}

/// Closing is total on valid program state: it succeeds whenever the
/// destination can take the balance.
pub proof fn lemma_close_total(a: AccountState, dest: AccountState, program_id: Seq<u8>, state_len: nat)
    requires
        program_check(a, program_id, state_len) is Ok,
        state_len > 0,
        a.lamports + dest.lamports <= u64::MAX,
    ensures
        close_check(a, dest) is Ok,
{
}

/// A closed account never passes the program state check again: its
/// one-byte buffer is a layout error for any record length but one.
pub proof fn lemma_closed_account_rejected(
    before: AccountState,
    after: AccountState,
    program_id: Seq<u8>,
    state_len: nat,
)
    requires
        program_check(before, program_id, state_len) is Ok,
        is_tombstone_of(after, before),
        state_len != 1,
    ensures
        program_check(after, program_id, state_len) == Err::<(), AccountError>(AccountError::BadLayout),
{
}

} // verus!
