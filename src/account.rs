use vstd::prelude::*;

verus! {

/// A 32-byte account identity.
pub type Pubkey = [u8; 32];

/// Number of bytes in an account identity.
pub const PUBKEY_BYTES: usize = 32;

/// The failures that abort an instruction.
#[derive(Debug, Clone, Copy, PartialEq, Eq, Structural)]
pub enum ProgramError {
    /// Fewer (or other than the expected number of) accounts were supplied.
    NotEnoughAccountKeys,
    /// A required signer did not sign.
    MissingRequiredSignature,
    /// Empty payload, unknown discriminator or payload of the wrong size.
    InvalidInstructionData,
    /// A derived address does not match the supplied account.
    InvalidSeeds,
    /// An account is not owned by the expected program or identity.
    IllegalOwner,
    /// An account's stored bytes do not have the expected layout.
    InvalidAccountData,
    /// An account that is to be created already has storage.
    AccountAlreadyInitialized,
}

/// What the program sees of one account of an instruction.
#[derive(Debug, Clone)]
pub struct Account {
    /// The account's address.
    pub key: Pubkey,
    /// The program that owns the account's storage.
    pub owner: Pubkey,
    /// Whether the account's key signed the transaction.
    pub is_signer: bool,
    /// Whether the instruction may write the account.
    pub is_writable: bool,
    /// The account's native balance.
    pub lamports: u64,
    /// The account's storage bytes.
    pub data: Vec<u8>,
}

/// A request to an external program, performed by the runtime on the
/// program's behalf after the handler has decided on it.
#[derive(Debug, Clone, Copy, PartialEq, Eq)]
pub enum Invocation {
    /// Allocate `space` bytes for `to`, funded by `from` with `lamports`,
    /// and assign it to the program `owner`.
    CreateAccount { from: Pubkey, to: Pubkey, lamports: u64, space: u64, owner: Pubkey },
    /// Move `amount` tokens between two token accounts, authorized by `authority`.
    Transfer { from: Pubkey, to: Pubkey, authority: Pubkey, amount: u64 },
}

/// Compares two identities byte by byte.
pub fn keys_equal(a: &Pubkey, b: &Pubkey) -> (r: bool)
    ensures
        r == (a@ == b@),
{
    let mut i: usize = 0;
    while i < PUBKEY_BYTES
        invariant
            0 <= i <= 32,
            a@.len() == 32,
            b@.len() == 32,
            forall|j: int| 0 <= j < i ==> a@[j] == b@[j],
        decreases 32 - i,
    {
        if a[i] != b[i] {
            return false;
        }
        i = i + 1;
    }
    assert(a@ =~= b@);
    true
}

/// Copies 32 bytes of `data`, from `start` on, into an identity.
pub fn read_key(data: &[u8], start: usize) -> (r: Pubkey)
    requires
        start + 32 <= data@.len(),
    ensures
        r@ == data@.subrange(start as int, start + 32),
{
    let n: usize = data.len();
    let mut k: Pubkey = [0u8; 32];
    let mut i: usize = 0;
    while i < PUBKEY_BYTES
        invariant
            0 <= i <= 32,
            start + 32 <= data@.len(),
            n == data@.len(),
            k@.len() == 32,
            forall|j: int| 0 <= j < i ==> k@[j] == data@[start + j],
        decreases 32 - i,
    {
        k[i] = data[start + i];
        i = i + 1;
    }
    assert(k@ =~= data@.subrange(start as int, start + 32));
    k
}

} // verus!
