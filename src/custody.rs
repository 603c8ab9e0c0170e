use vstd::prelude::*;

use crate::state::{Asset, DelegationState, ErrorCode, Identity};

verus! {

/// A native coin movement that an operation asks the host to make, seen
/// from the record's own backing balance.
#[derive(Clone, Copy, Debug, PartialEq, Eq)]
pub enum NativeMove {
    /// Debit `from` by `amount` and credit the record, signed by `from`.
    Deposit { from: Identity, amount: u64 },
    /// Debit the record by `amount` and credit `to`; `signer` is the
    /// identity whose signature the operation accepted.
    Withdraw { to: Identity, signer: Identity, amount: u64 },
}

/// A fresh native-coin profile of `user`: owned by the user, active, with
/// nothing delegated and nothing parked yet.
pub open spec fn native_profile(user: Identity) -> DelegationState {
    DelegationState {
        user: user,
        user_token_account: user,
        asset_mint: Asset::Native,
        amount_delegated: 0,
        vault_sol_balance: 0,
        is_active: true,
    }
}

/// The record stored in the slot, or a fresh native profile of `user` where
/// the slot is empty.
pub open spec fn stored_or_fresh(slot: Option<DelegationState>, user: Identity) -> DelegationState {
    match slot {
        Some(rec) => rec,
        None => native_profile(user),
    }
}

/// The record with its tracked native balance replaced.
pub open spec fn with_balance(rec: DelegationState, balance: int) -> DelegationState {
    DelegationState { vault_sol_balance: balance as u64, ..rec }
}

/// Slot contents and result of a commit: refused where the stored record
/// belongs to someone else, or where the balance would pass `u64::MAX`;
/// else the (possibly fresh) record holds `amount` more and `amount` moves
/// from the user to the record.
pub open spec fn commit_outcome(slot: Option<DelegationState>, user: Identity, amount: u64) -> (
    Option<DelegationState>,
    Result<NativeMove, ErrorCode>,
) {
    let rec = stored_or_fresh(slot, user);
    if rec.user != user {
        (slot, Err(ErrorCode::NotOwner))
    } else if rec.vault_sol_balance + amount > u64::MAX {
        (slot, Err(ErrorCode::ArithmeticOverflow))
    } else {
        (
            Some(with_balance(rec, rec.vault_sol_balance + amount)),
            Ok(NativeMove::Deposit { from: user, amount: amount }),
        )
    }
}

/// Slot contents and result of a reclaim: refused where no record exists,
/// where the caller is not the owner, or where `amount` exceeds the tracked
/// balance; else the balance drops by `amount`, which moves to the owner.
pub open spec fn reclaim_outcome(slot: Option<DelegationState>, user: Identity, amount: u64) -> (
    Option<DelegationState>,
    Result<NativeMove, ErrorCode>,
) {
    match slot {
        None => (slot, Err(ErrorCode::AccountNotInitialized)),
        Some(rec) => if rec.user != user {
            (slot, Err(ErrorCode::NotOwner))
        } else if amount > rec.vault_sol_balance {
            (slot, Err(ErrorCode::InsufficientFunds))
        } else {
            (
                Some(with_balance(rec, rec.vault_sol_balance - amount)),
                Ok(NativeMove::Withdraw { to: user, signer: user, amount: amount }),
            )
        },
    }
}

/// The slot after `user` commits each of `amounts` in turn.
pub open spec fn commit_all(slot: Option<DelegationState>, user: Identity, amounts: Seq<u64>) -> Option<
    DelegationState,
>
    decreases amounts.len(),
{
    if amounts.len() == 0 {
        slot
    } else {
        commit_outcome(commit_all(slot, user, amounts.drop_last()), user, amounts.last()).0
    }
}

/// The sum of those of `amounts` whose commit was accepted, when `user`
/// commits each of them in turn.
pub open spec fn accepted_total(slot: Option<DelegationState>, user: Identity, amounts: Seq<u64>) -> nat
    decreases amounts.len(),
{
    if amounts.len() == 0 {
        0
    } else {
        let before = commit_all(slot, user, amounts.drop_last());
        let step = if commit_outcome(before, user, amounts.last()).1 is Ok {
            amounts.last() as nat
        } else {
            0
        };
        accepted_total(slot, user, amounts.drop_last()) + step
    }
}

/// The sum of `amounts`.
pub open spec fn total(amounts: Seq<u64>) -> nat
    decreases amounts.len(),
{
    if amounts.len() == 0 {
        0
    } else {
        total(amounts.drop_last()) + amounts.last() as nat
    }
}

/// Over any run of commits by one user, starting from an empty slot, the
/// record belongs to that user and its tracked balance is exactly the sum
/// of the accepted amounts. A commit that would carry the balance past
/// `u64::MAX` is refused rather than wrapped, so while the sum of all the
/// amounts fits in a `u64`, every commit is accepted and the balance is
/// that sum.
pub proof fn lemma_commit_run_balance(user: Identity, amounts: Seq<u64>)
    ensures
        amounts.len() > 0 ==> match commit_all(None, user, amounts) {
            Some(rec) => rec.user == user && rec.vault_sol_balance == accepted_total(
                None,
                user,
                amounts,
            ),
            None => false,
        },
        total(amounts) <= u64::MAX ==> accepted_total(None, user, amounts) == total(amounts),
    decreases amounts.len(),
{
    if amounts.len() > 0 {
        let prefix = amounts.drop_last();
        lemma_commit_run_balance(user, prefix);
        if total(amounts) <= u64::MAX {
            assert(total(prefix) <= total(amounts));
        }
    }
}

/// The record a commit by `user` works on: the stored one, or a fresh
/// native profile where the slot is empty. Nothing is stored by this call.
pub fn native_record(slot: &Option<DelegationState>, user: &Identity) -> (r: DelegationState)
    ensures
        r == stored_or_fresh(*slot, *user),
{
    match slot {
        Some(rec) => *rec,
        None => DelegationState {
            user: *user,
            user_token_account: *user,
            asset_mint: Asset::Native,
            amount_delegated: 0,
            vault_sol_balance: 0,
            is_active: true,
        },
    }
}

/// Parks `amount` of the user's native coin in their record, creating the
/// record on first use.
pub fn commit_native(slot: &mut Option<DelegationState>, user: &Identity, amount: u64) -> (r:
    Result<NativeMove, ErrorCode>)
    ensures
        (*final(slot), r) == commit_outcome(*old(slot), *user, amount),
{
    let mut rec = native_record(slot, user);
    if !rec.user.same_as(user) {
        return Err(ErrorCode::NotOwner);
    }
    match rec.vault_sol_balance.checked_add(amount) {
        None => {
            return Err(ErrorCode::ArithmeticOverflow);
        },
        Some(balance) => {
            rec.vault_sol_balance = balance;
        },
    }
    *slot = Some(rec);
    Ok(NativeMove::Deposit { from: *user, amount })
}

/// Returns `amount` of the owner's parked native coin to them.
pub fn reclaim_native(slot: &mut Option<DelegationState>, user: &Identity, amount: u64) -> (r:
    Result<NativeMove, ErrorCode>)
    ensures
        (*final(slot), r) == reclaim_outcome(*old(slot), *user, amount),
        match *old(slot) {
            Some(rec) => rec.user == *user ==> if amount <= rec.vault_sol_balance {
                &&& r is Ok
                &&& *final(slot) == Some(with_balance(rec, rec.vault_sol_balance - amount))
            } else {
                &&& r == Err::<NativeMove, ErrorCode>(ErrorCode::InsufficientFunds)
                &&& *final(slot) == *old(slot)
            },
            None => r == Err::<NativeMove, ErrorCode>(ErrorCode::AccountNotInitialized),
        },
{
    let mut rec = match slot {
        None => {
            return Err(ErrorCode::AccountNotInitialized);
        },
        Some(rec) => *rec,
    };
    if !rec.user.same_as(user) {
        return Err(ErrorCode::NotOwner);
    }
    if amount > rec.vault_sol_balance {
        return Err(ErrorCode::InsufficientFunds);
    }
    rec.vault_sol_balance = rec.vault_sol_balance - amount;
    *slot = Some(rec);
    Ok(NativeMove::Withdraw { to: *user, signer: *user, amount })
}

/// New lamport balances of a record's account and of the receiving account
/// when `amount` leaves the record: refused where it would dig into the
/// record's rent reserve, that is exceed the disposable funds above it, or
/// where the receiver's balance would pass `u64::MAX`.
pub open spec fn payout_outcome(
    record_lamports: u64,
    rent_reserve: u64,
    recipient_lamports: u64,
    amount: u64,
) -> Result<(u64, u64), ErrorCode> {
    if record_lamports < rent_reserve || amount > record_lamports - rent_reserve {
        Err(ErrorCode::InsufficientFunds)
    } else if recipient_lamports + amount > u64::MAX {
        Err(ErrorCode::ArithmeticOverflow)
    } else {
        Ok(((record_lamports - amount) as u64, (recipient_lamports + amount) as u64))
    }
}

/// Settles a withdrawal from a record's account against its real balance,
/// failing closed rather than touching the rent reserve.
pub fn settle_payout(record_lamports: u64, rent_reserve: u64, recipient_lamports: u64, amount: u64) -> (r:
    Result<(u64, u64), ErrorCode>)
    ensures
        r == payout_outcome(record_lamports, rent_reserve, recipient_lamports, amount),
{
    if record_lamports < rent_reserve || amount > record_lamports - rent_reserve {
        return Err(ErrorCode::InsufficientFunds);
    }
    match recipient_lamports.checked_add(amount) {
        None => Err(ErrorCode::ArithmeticOverflow),
        Some(credited) => Ok((record_lamports - amount, credited)),
    }
}

} // verus!
