use vstd::prelude::*;

use crate::custody::{with_balance, NativeMove};
use crate::delegation::{
    initialize_outcome, outstanding_allowance, InitializeDelegation, TokenInstruction,
};
use crate::state::{Config, DelegationState, ErrorCode, Identity};

verus! {

/// The accounts of a delegated transfer: the signing operator, the
/// delegated token account, the destination token account, and the program
/// authority that signs the transfer.
#[derive(Clone, Copy, Debug, PartialEq, Eq)]
pub struct ExecuteStrategy {
    pub admin: Identity,
    pub user_token_account: Identity,
    pub destination: Identity,
    pub program_authority: Identity,
}

/// Result of a delegated transfer, checked in this order: a record must
/// exist, the token account must be the delegated one, the delegation must
/// be active, and `amount` may exceed neither the global ceiling nor,
/// after that, the record's own. On success the program authority moves `amount` from the
/// delegated account to the destination. The ceiling is a fixed cap, not a
/// running allowance: the record is not changed.
pub open spec fn execute_outcome(
    config: Config,
    slot: Option<DelegationState>,
    ctx: ExecuteStrategy,
    amount: u64,
) -> Result<TokenInstruction, ErrorCode> {
    match slot {
        None => Err(ErrorCode::AccountNotInitialized),
        Some(rec) => if rec.user_token_account != ctx.user_token_account {
            Err(ErrorCode::TokenAccountMismatch)
        } else if !rec.is_active {
            Err(ErrorCode::DelegationRevoked)
        } else if amount > config.max_transfer_limit {
            Err(ErrorCode::AmountExceedsHardLimit)
        } else if amount > rec.amount_delegated {
            Err(ErrorCode::TransferLimitExceeded)
        } else {
            Ok(
                TokenInstruction::Transfer {
                    from: rec.user_token_account,
                    to: ctx.destination,
                    authority: ctx.program_authority,
                    amount: amount,
                },
            )
        },
    }
}

/// Slot contents and result of a sweep: refused where no record exists or
/// where `amount` exceeds the tracked balance; else the balance drops by
/// `amount`, which moves to `destination`. Any signing operator may sweep:
/// unlike a reclaim, the signer is not matched against the owner.
pub open spec fn sweep_outcome(
    slot: Option<DelegationState>,
    operator: Identity,
    destination: Identity,
    amount: u64,
) -> (Option<DelegationState>, Result<NativeMove, ErrorCode>) {
    match slot {
        None => (slot, Err(ErrorCode::AccountNotInitialized)),
        Some(rec) => if amount > rec.vault_sol_balance {
            (slot, Err(ErrorCode::InsufficientFunds))
        } else {
            (
                Some(with_balance(rec, rec.vault_sol_balance - amount)),
                Ok(NativeMove::Withdraw { to: destination, signer: operator, amount: amount }),
            )
        },
    }
}

/// The ceiling is a fixed cap, not a running allowance: right after a
/// set-up, a transfer of the whole ceiling out of the delegated account is
/// accepted and leaves the record as it was, so the library accepts it
/// again every time. The token program's allowance, which the set-up
/// approved at the ceiling, is used up by that first transfer.
pub proof fn lemma_ceiling_transfer_repeats(
    config: Config,
    setup: InitializeDelegation,
    ctx: ExecuteStrategy,
    earlier: Seq<TokenInstruction>,
)
    requires
        ctx.user_token_account == setup.user_token_account,
    ensures
        ({
            let (slot, approve) = initialize_outcome(config, None, setup);
            let transfer = execute_outcome(config, slot, ctx, config.max_transfer_limit);
            let calls = earlier.push(approve->Ok_0);
            &&& transfer is Ok
            &&& outstanding_allowance(calls, setup.user_token_account)
                == config.max_transfer_limit
            &&& outstanding_allowance(calls.push(transfer->Ok_0), setup.user_token_account) == 0
        }),
{
    let (slot, approve) = initialize_outcome(config, None, setup);
    let transfer = execute_outcome(config, slot, ctx, config.max_transfer_limit);
    let calls = earlier.push(approve->Ok_0);
    assert(calls.drop_last() == earlier);
    assert(calls.push(transfer->Ok_0).drop_last() == calls);
}

/// Moves `amount` out of the delegated token account under the program
/// authority's signature, within the record's and the global ceiling.
pub fn execute_strategy(
    config: &Config,
    slot: &Option<DelegationState>,
    ctx: &ExecuteStrategy,
    amount: u64,
) -> (r: Result<TokenInstruction, ErrorCode>)
    ensures
        r == execute_outcome(*config, *slot, *ctx, amount),
        amount > config.max_transfer_limit ==> r is Err,
        match *slot {
            Some(rec) => {
                &&& rec.user_token_account == ctx.user_token_account && rec.is_active
                    && amount > config.max_transfer_limit ==> r == Err::<
                    TokenInstruction,
                    ErrorCode,
                >(ErrorCode::AmountExceedsHardLimit)
                &&& amount > rec.amount_delegated ==> r is Err
                &&& !rec.is_active ==> r is Err
            },
            None => r is Err,
        },
{
    let delegation = match slot {
        None => {
            return Err(ErrorCode::AccountNotInitialized);
        },
        Some(rec) => rec,
    };
    if !delegation.user_token_account.same_as(&ctx.user_token_account) {
        return Err(ErrorCode::TokenAccountMismatch);
    }
    if !delegation.is_active {
        return Err(ErrorCode::DelegationRevoked);
    }
    if amount > config.max_transfer_limit {
        return Err(ErrorCode::AmountExceedsHardLimit);
    }
    if amount > delegation.amount_delegated {
        return Err(ErrorCode::TransferLimitExceeded);
    }
    Ok(
        TokenInstruction::Transfer {
            from: delegation.user_token_account,
            to: ctx.destination,
            authority: ctx.program_authority,
            amount,
        },
    )
}

/// Sweeps `amount` of a record's tracked native balance to `destination`
/// on the word of any signing operator.
pub fn sync_liquidity(
    slot: &mut Option<DelegationState>,
    operator: &Identity,
    destination: &Identity,
    amount: u64,
) -> (r: Result<NativeMove, ErrorCode>)
    ensures
        (*final(slot), r) == sweep_outcome(*old(slot), *operator, *destination, amount),
{
    let mut rec = match slot {
        None => {
            return Err(ErrorCode::AccountNotInitialized);
        },
        Some(rec) => *rec,
    };
    if amount > rec.vault_sol_balance {
        return Err(ErrorCode::InsufficientFunds);
    }
    rec.vault_sol_balance = rec.vault_sol_balance - amount;
    *slot = Some(rec);
    Ok(NativeMove::Withdraw { to: *destination, signer: *operator, amount })
}

} // verus!
