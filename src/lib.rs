//! A delegated-custody vault: a user grants a program authority a capped
//! right to move a token balance, and may park native coin in a per-user
//! record that tracks what can be reclaimed.
//!
//! Every operation is a pure transition on the record that lives at the
//! operation's derived storage slot (`Option<DelegationState>`, `None` when
//! no record is stored there). Work for the host ledger, such as token
//! program calls and native coin moves, is returned as values for the caller
//! to carry out.

pub mod address;
pub mod custody;
pub mod delegation;
pub mod state;
pub mod transfer;

pub use address::{derive_key, record_seeds_of, StorageKey};
pub use custody::{commit_native, native_record, reclaim_native, settle_payout, NativeMove};
pub use delegation::{
    close_delegation, initialize_delegation, CloseDelegation, InitializeDelegation, TokenInstruction,
};
pub use state::{Asset, Config, DelegationState, ErrorCode, Identity, MAX_TRANSFER_LIMIT};
pub use transfer::{execute_strategy, sync_liquidity, ExecuteStrategy};
