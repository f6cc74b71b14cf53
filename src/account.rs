use vstd::prelude::*;

verus! {

/// An account as this layer reads it: address, owning authority, signer
/// flag, balance and data buffer.
pub struct AccountState {
    pub key: [u8; 32],
    pub owner: [u8; 32],
    pub is_signer: bool,
    pub lamports: u64,
    pub data: Vec<u8>,
}

/// Why an account was rejected or an operation could not complete.
#[derive(Clone, Copy, Debug, PartialEq, Eq, Structural)]
pub enum AccountError {
    /// The signer flag was expected but is absent.
    NotSigner,
    /// The owner matches no authority accepted for the entity type.
    BadOwner,
    /// The buffer length or discriminator byte does not match the shape.
    BadLayout,
    /// The derived address differs from the account's address.
    InvalidSeeds,
    /// Exclusive access to the buffer or the balance could not be granted.
    BorrowConflict,
    /// Moving a balance would overflow the receiving account.
    BalanceOverflow,
}

/// Compares two 32-byte identifiers.
pub fn keys_equal(a: &[u8; 32], b: &[u8; 32]) -> (r: bool)
    ensures
        r == (a@ == b@),
{
    let mut i: usize = 0;
    while i < 32
        invariant
            0 <= i <= 32,
            a@.len() == 32,
            b@.len() == 32,
            forall|j: int| 0 <= j < i ==> a@[j] == b@[j],
        decreases 32 - i,
    {
        if a[i] != b[i] {
            return false;
        }
        i = i + 1;
    }
    assert(a@ =~= b@);
    true
}

} // verus!
