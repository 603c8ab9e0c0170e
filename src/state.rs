use vstd::prelude::*;

verus! {

/// The global hard ceiling on a single token transfer, in base units.
pub const MAX_TRANSFER_LIMIT: u64 = 100_000_000_000;

/// A 32-byte account or user identity of the host ledger.
#[derive(Clone, Copy, Debug, PartialEq, Eq)]
pub struct Identity {
    pub bytes: [u8; 32],
}

impl View for Identity {
    type V = Seq<u8>;

    open spec fn view(&self) -> Seq<u8> {
        self.bytes@
    }
}

impl Identity {
    /// The identity's bytes, in order.
    pub fn to_bytes_vec(&self) -> (r: Vec<u8>)
        ensures
            r@ == self@,
    {
        let mut r: Vec<u8> = Vec::new();
        let mut i: usize = 0;
        while i < 32
            invariant
                0 <= i <= 32,
                r@ == self@.subrange(0, i as int),
            decreases 32 - i,
        {
            r.push(self.bytes[i]);
            i = i + 1;
        }
        proof {
            assert(r@ =~= self@);
        }
        r
    }

    /// Byte-wise comparison of two identities.
    pub fn same_as(&self, other: &Identity) -> (r: bool)
        ensures
            r == (*self == *other),
    {
        let mut i: usize = 0;
        while i < 32
            invariant
                0 <= i <= 32,
                forall|j: int| 0 <= j < i ==> self.bytes[j] == other.bytes[j],
            decreases 32 - i,
        {
            if self.bytes[i] != other.bytes[i] {
                return false;
            }
            i = i + 1;
        }
        proof {
            assert(self.bytes =~= other.bytes);
        }
        true
    }
}

/// The asset a record is kept for: the ledger's native coin, or the token
/// of a given mint.
#[derive(Clone, Copy, Debug, PartialEq, Eq)]
pub enum Asset {
    Native,
    Token(Identity),
}

/// Failures of the vault's operations. A failed operation changes nothing.
#[derive(Clone, Copy, Debug, PartialEq, Eq, Structural)]
pub enum ErrorCode {
    /// The record to be created already exists.
    AlreadyInitialized,
    /// No record is stored at the slot the operation addresses.
    AccountNotInitialized,
    /// The caller is not the owner of the record.
    NotOwner,
    /// The token account handed in is not the one the record delegates.
    TokenAccountMismatch,
    /// The delegation is no longer active.
    DelegationRevoked,
    /// The amount exceeds the record's delegated ceiling.
    TransferLimitExceeded,
    /// The amount exceeds the global hard ceiling.
    AmountExceedsHardLimit,
    /// The amount exceeds the record's tracked native balance.
    InsufficientFunds,
    /// A balance counter would leave the range of `u64`.
    ArithmeticOverflow,
}

/// Process-wide settings, fixed when the vault is set up.
#[derive(Clone, Copy, Debug, PartialEq, Eq, Structural)]
pub struct Config {
    /// Ceiling on a single token transfer, and the allowance granted to
    /// the program authority when a delegation is created.
    pub max_transfer_limit: u64,
}

impl Config {
    /// The settings the program is deployed with.
    pub fn standard() -> (r: Config)
        ensures
            r.max_transfer_limit == MAX_TRANSFER_LIMIT,
    {
        Config { max_transfer_limit: MAX_TRANSFER_LIMIT }
    }
}

/// The per-user record: who owns it, which token account is delegated,
/// the delegated ceiling, the native balance parked through it, and
/// whether the delegation is active.
#[derive(Clone, Copy, Debug, PartialEq, Eq)]
pub struct DelegationState {
    pub user: Identity,
    pub user_token_account: Identity,
    pub asset_mint: Asset,
    pub amount_delegated: u64,
    pub vault_sol_balance: u64,
    pub is_active: bool,
}

} // verus!
