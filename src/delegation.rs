use vstd::prelude::*;

use crate::state::{Asset, Config, DelegationState, ErrorCode, Identity};

verus! {

/// A call into the token program that an operation asks the host to make.
#[derive(Clone, Copy, Debug, PartialEq, Eq)]
pub enum TokenInstruction {
    /// Let `delegate` move up to `amount` out of `source`, signed by `authority`.
    Approve { source: Identity, delegate: Identity, authority: Identity, amount: u64 },
    /// Move `amount` from `from` to `to`, signed by `authority`.
    Transfer { from: Identity, to: Identity, authority: Identity, amount: u64 },
    /// Withdraw any delegate's right over `source`, signed by `authority`.
    Revoke { source: Identity, authority: Identity },
}

/// The accounts of a delegation set-up: the signing user, the token account
/// to delegate and its mint, and the program authority that receives the
/// allowance.
#[derive(Clone, Copy, Debug, PartialEq, Eq)]
pub struct InitializeDelegation {
    pub user: Identity,
    pub user_token_account: Identity,
    pub mint: Identity,
    pub program_authority: Identity,
}

/// The accounts of a delegation close: the signing user and the delegated
/// token account.
#[derive(Clone, Copy, Debug, PartialEq, Eq)]
pub struct CloseDelegation {
    pub user: Identity,
    pub user_token_account: Identity,
}

/// The record a set-up creates: owned by the user, delegating the given
/// token account up to the global ceiling, active, with no native balance.
pub open spec fn new_delegation(config: Config, ctx: InitializeDelegation) -> DelegationState {
    DelegationState {
        user: ctx.user,
        user_token_account: ctx.user_token_account,
        asset_mint: Asset::Token(ctx.mint),
        amount_delegated: config.max_transfer_limit,
        vault_sol_balance: 0,
        is_active: true,
    }
}

/// Slot contents and result of a set-up: refused where a record exists,
/// else the new record and an approval of the global ceiling to the
/// program authority, signed by the user.
pub open spec fn initialize_outcome(
    config: Config,
    slot: Option<DelegationState>,
    ctx: InitializeDelegation,
) -> (Option<DelegationState>, Result<TokenInstruction, ErrorCode>) {
    match slot {
        Some(_) => (slot, Err(ErrorCode::AlreadyInitialized)),
        None => (
            Some(new_delegation(config, ctx)),
            Ok(
                TokenInstruction::Approve {
                    source: ctx.user_token_account,
                    delegate: ctx.program_authority,
                    authority: ctx.user,
                    amount: config.max_transfer_limit,
                },
            ),
        ),
    }
}

/// Slot contents and result of a close: refused where no record exists,
/// where the signer is not the owner, or where the token account is not the
/// delegated one; else the record is gone and the delegate's right over
/// the delegated account is revoked, signed by the owner.
pub open spec fn close_outcome(slot: Option<DelegationState>, ctx: CloseDelegation) -> (
    Option<DelegationState>,
    Result<TokenInstruction, ErrorCode>,
) {
    match slot {
        None => (slot, Err(ErrorCode::AccountNotInitialized)),
        Some(rec) => if rec.user != ctx.user {
            (slot, Err(ErrorCode::NotOwner))
        } else if rec.user_token_account != ctx.user_token_account {
            (slot, Err(ErrorCode::TokenAccountMismatch))
        } else {
            (
                None,
                Ok(
                    TokenInstruction::Revoke {
                        source: rec.user_token_account,
                        authority: ctx.user,
                    },
                ),
            )
        },
    }
}

/// The allowance that a delegate holds over `account` once the token
/// program has carried out `calls` in order, starting from none. An
/// approval sets it, a revoke clears it, and a transfer out of the account,
/// taken to be signed by the delegate, uses up its amount.
pub open spec fn outstanding_allowance(calls: Seq<TokenInstruction>, account: Identity) -> nat
    decreases calls.len(),
{
    if calls.len() == 0 {
        0
    } else {
        let before = outstanding_allowance(calls.drop_last(), account);
        match calls.last() {
            TokenInstruction::Approve { source, amount, .. } => if source == account {
                amount as nat
            } else {
                before
            },
            TokenInstruction::Revoke { source, .. } => if source == account {
                0
            } else {
                before
            },
            TokenInstruction::Transfer { from, amount, .. } => if from == account && amount
                <= before {
                (before - amount) as nat
            } else {
                before
            },
        }
    }
}

/// Closing cannot be repeated: once a close of a slot has succeeded, a
/// second close of it fails as finding no record, so nothing is revoked or
/// refunded twice.
pub proof fn lemma_close_twice_fails(
    slot: Option<DelegationState>,
    first: CloseDelegation,
    second: CloseDelegation,
)
    requires
        close_outcome(slot, first).1 is Ok,
    ensures
        close_outcome(close_outcome(slot, first).0, second) == (
            None::<DelegationState>,
            Err::<TokenInstruction, ErrorCode>(ErrorCode::AccountNotInitialized),
        ),
{
}

/// Setting a delegation up in an empty slot and closing it straight away,
/// by the same user on the same token account, succeeds both times, empties
/// the slot, and leaves the delegate no allowance over the account,
/// whatever the token program had done before.
pub proof fn lemma_setup_then_close_clears_allowance(
    config: Config,
    setup: InitializeDelegation,
    close: CloseDelegation,
    earlier: Seq<TokenInstruction>,
)
    requires
        close.user == setup.user,
        close.user_token_account == setup.user_token_account,
    ensures
        ({
            let (after_setup, approve) = initialize_outcome(config, None, setup);
            let (after_close, revoke) = close_outcome(after_setup, close);
            &&& approve is Ok
            &&& revoke is Ok
            &&& after_close is None
            &&& outstanding_allowance(
                earlier.push(approve->Ok_0).push(revoke->Ok_0),
                setup.user_token_account,
            ) == 0
        }),
{
    let (after_setup, approve) = initialize_outcome(config, None, setup);
    let (after_close, revoke) = close_outcome(after_setup, close);
    let calls = earlier.push(approve->Ok_0).push(revoke->Ok_0);
    assert(calls.drop_last() == earlier.push(approve->Ok_0));
}

/// Creates the delegation record in an empty slot and asks the token
/// program to approve the global ceiling to the program authority.
pub fn initialize_delegation(
    config: &Config,
    slot: &mut Option<DelegationState>,
    ctx: &InitializeDelegation,
) -> (r: Result<TokenInstruction, ErrorCode>)
    ensures
        (*final(slot), r) == initialize_outcome(*config, *old(slot), *ctx),
{
    if slot.is_some() {
        return Err(ErrorCode::AlreadyInitialized);
    }
    let approved_amount = config.max_transfer_limit;
    *slot = Some(
        DelegationState {
            user: ctx.user,
            user_token_account: ctx.user_token_account,
            asset_mint: Asset::Token(ctx.mint),
            amount_delegated: approved_amount,
            vault_sol_balance: 0,
            is_active: true,
        },
    );
    Ok(
        TokenInstruction::Approve {
            source: ctx.user_token_account,
            delegate: ctx.program_authority,
            authority: ctx.user,
            amount: approved_amount,
        },
    )
}

/// Deactivates and removes the owner's record and asks the token program to
/// revoke the program authority's allowance.
pub fn close_delegation(slot: &mut Option<DelegationState>, ctx: &CloseDelegation) -> (r: Result<
    TokenInstruction,
    ErrorCode,
>)
    ensures
        (*final(slot), r) == close_outcome(*old(slot), *ctx),
{
    let mut delegation = match slot {
        None => {
            return Err(ErrorCode::AccountNotInitialized);
        },
        Some(rec) => *rec,
    };
    if !delegation.user.same_as(&ctx.user) {
        return Err(ErrorCode::NotOwner);
    }
    if !delegation.user_token_account.same_as(&ctx.user_token_account) {
        return Err(ErrorCode::TokenAccountMismatch);
    }
    delegation.is_active = false;
    *slot = None;
    Ok(TokenInstruction::Revoke { source: delegation.user_token_account, authority: ctx.user })
}

} // verus!
