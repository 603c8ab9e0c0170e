use hybrid_token::{
    close_delegation, commit_native, execute_strategy, initialize_delegation, native_record,
    reclaim_native, settle_payout, sync_liquidity, Asset, CloseDelegation, Config, DelegationState, ErrorCode,
    ExecuteStrategy, Identity, InitializeDelegation, NativeMove, TokenInstruction,
    MAX_TRANSFER_LIMIT,
};

fn id(b: u8) -> Identity {
    Identity { bytes: [b; 32] }
}

fn setup_ctx() -> InitializeDelegation {
    InitializeDelegation {
        user: id(1),
        user_token_account: id(2),
        mint: id(3),
        program_authority: id(4),
    }
}

fn transfer_ctx() -> ExecuteStrategy {
    ExecuteStrategy {
        admin: id(9),
        user_token_account: id(2),
        destination: id(5),
        program_authority: id(4),
    }
}

fn close_ctx() -> CloseDelegation {
    CloseDelegation { user: id(1), user_token_account: id(2) }
}

fn delegated_slot() -> Option<DelegationState> {
    let mut slot = None;
    initialize_delegation(&Config::standard(), &mut slot, &setup_ctx()).unwrap();
    slot
}

fn balance(slot: &Option<DelegationState>) -> u64 {
    slot.unwrap().vault_sol_balance
}

#[test]
fn identities_compare_by_every_byte() {
    let a = id(7);
    let mut b = id(7);
    assert!(a.same_as(&b));
    b.bytes[31] = 8;
    assert!(!a.same_as(&b));
    b.bytes[31] = 7;
    b.bytes[0] = 0;
    assert!(!a.same_as(&b));
}

#[test]
fn standard_config_has_the_global_ceiling() {
    assert_eq!(Config::standard().max_transfer_limit, 100 * 1_000_000_000);
    assert_eq!(MAX_TRANSFER_LIMIT, 100_000_000_000);
}

#[test]
fn setup_creates_record_and_approves_ceiling() {
    let mut slot = None;
    let r = initialize_delegation(&Config::standard(), &mut slot, &setup_ctx());
    assert_eq!(
        r,
        Ok(TokenInstruction::Approve {
            source: id(2),
            delegate: id(4),
            authority: id(1),
            amount: MAX_TRANSFER_LIMIT,
        })
    );
    assert_eq!(
        slot,
        Some(DelegationState {
            user: id(1),
            user_token_account: id(2),
            asset_mint: Asset::Token(id(3)),
            amount_delegated: MAX_TRANSFER_LIMIT,
            vault_sol_balance: 0,
            is_active: true,
        })
    );
}

#[test]
fn setup_uses_the_configured_ceiling() {
    let mut slot = None;
    let config = Config { max_transfer_limit: 77 };
    let r = initialize_delegation(&config, &mut slot, &setup_ctx());
    assert!(matches!(r, Ok(TokenInstruction::Approve { amount: 77, .. })));
    assert_eq!(slot.unwrap().amount_delegated, 77);
}

#[test]
fn setup_twice_is_refused() {
    let mut slot = delegated_slot();
    let before = slot;
    let r = initialize_delegation(&Config::standard(), &mut slot, &setup_ctx());
    assert_eq!(r, Err(ErrorCode::AlreadyInitialized));
    assert_eq!(slot, before);
}

#[test]
fn transfer_within_ceiling_is_signed_by_program_authority() {
    let slot = delegated_slot();
    let r = execute_strategy(&Config::standard(), &slot, &transfer_ctx(), 1_000);
    assert_eq!(
        r,
        Ok(TokenInstruction::Transfer { from: id(2), to: id(5), authority: id(4), amount: 1_000 })
    );
}

#[test]
fn transfer_at_ceiling_repeats_since_ceiling_is_not_decremented() {
    let slot = delegated_slot();
    let before = slot;
    for _ in 0..3 {
        let r = execute_strategy(&Config::standard(), &slot, &transfer_ctx(), 100 * 1_000_000_000);
        assert!(matches!(r, Ok(TokenInstruction::Transfer { amount: 100_000_000_000, .. })));
    }
    assert_eq!(slot, before);
    assert_eq!(slot.unwrap().amount_delegated, MAX_TRANSFER_LIMIT);
}

#[test]
fn transfer_above_global_ceiling_is_refused() {
    let slot = delegated_slot();
    let r = execute_strategy(&Config::standard(), &slot, &transfer_ctx(), 100 * 1_000_000_000 + 1);
    assert_eq!(r, Err(ErrorCode::AmountExceedsHardLimit));
    let r = execute_strategy(&Config::standard(), &slot, &transfer_ctx(), u64::MAX);
    assert_eq!(r, Err(ErrorCode::AmountExceedsHardLimit));
    let r = execute_strategy(&Config::standard(), &slot, &transfer_ctx(), 100 * 1_000_000_000);
    assert!(r.is_ok());
}

#[test]
fn global_ceiling_is_checked_before_record_ceiling() {
    let mut slot = None;
    initialize_delegation(&Config { max_transfer_limit: 50 }, &mut slot, &setup_ctx()).unwrap();
    let r = execute_strategy(&Config { max_transfer_limit: 40 }, &slot, &transfer_ctx(), 60);
    assert_eq!(r, Err(ErrorCode::AmountExceedsHardLimit));
}

#[test]
fn transfer_above_record_ceiling_is_refused() {
    let mut slot = None;
    initialize_delegation(&Config { max_transfer_limit: 50 }, &mut slot, &setup_ctx()).unwrap();
    let r = execute_strategy(&Config::standard(), &slot, &transfer_ctx(), 51);
    assert_eq!(r, Err(ErrorCode::TransferLimitExceeded));
    let r = execute_strategy(&Config::standard(), &slot, &transfer_ctx(), 50);
    assert!(r.is_ok());
}

#[test]
fn transfer_on_inactive_record_is_refused() {
    let mut slot = delegated_slot();
    if let Some(rec) = slot.as_mut() {
        rec.is_active = false;
    }
    let r = execute_strategy(&Config::standard(), &slot, &transfer_ctx(), 0);
    assert_eq!(r, Err(ErrorCode::DelegationRevoked));
}

#[test]
fn transfer_without_record_is_refused() {
    let r = execute_strategy(&Config::standard(), &None, &transfer_ctx(), 1);
    assert_eq!(r, Err(ErrorCode::AccountNotInitialized));
}

#[test]
fn transfer_from_other_token_account_is_refused() {
    let slot = delegated_slot();
    let mut ctx = transfer_ctx();
    ctx.user_token_account = id(6);
    let r = execute_strategy(&Config::standard(), &slot, &ctx, 1);
    assert_eq!(r, Err(ErrorCode::TokenAccountMismatch));
}

#[test]
fn setup_then_close_revokes_and_empties_slot() {
    let mut slot = None;
    let approve = initialize_delegation(&Config::standard(), &mut slot, &setup_ctx());
    assert!(matches!(approve, Ok(TokenInstruction::Approve { source, .. }) if source == id(2)));
    let revoke = close_delegation(&mut slot, &close_ctx());
    assert_eq!(revoke, Ok(TokenInstruction::Revoke { source: id(2), authority: id(1) }));
    assert_eq!(slot, None);
}

#[test]
fn close_twice_fails_the_second_time() {
    let mut slot = delegated_slot();
    assert!(close_delegation(&mut slot, &close_ctx()).is_ok());
    assert_eq!(close_delegation(&mut slot, &close_ctx()), Err(ErrorCode::AccountNotInitialized));
    assert_eq!(slot, None);
}

#[test]
fn close_by_other_user_is_refused() {
    let mut slot = delegated_slot();
    let before = slot;
    let ctx = CloseDelegation { user: id(8), user_token_account: id(2) };
    assert_eq!(close_delegation(&mut slot, &ctx), Err(ErrorCode::NotOwner));
    assert_eq!(slot, before);
}

#[test]
fn close_with_other_token_account_is_refused() {
    let mut slot = delegated_slot();
    let before = slot;
    let ctx = CloseDelegation { user: id(1), user_token_account: id(6) };
    assert_eq!(close_delegation(&mut slot, &ctx), Err(ErrorCode::TokenAccountMismatch));
    assert_eq!(slot, before);
}

#[test]
fn first_commit_creates_native_profile() {
    let mut slot = None;
    let r = commit_native(&mut slot, &id(1), 500);
    assert_eq!(r, Ok(NativeMove::Deposit { from: id(1), amount: 500 }));
    assert_eq!(
        slot,
        Some(DelegationState {
            user: id(1),
            user_token_account: id(1),
            asset_mint: Asset::Native,
            amount_delegated: 0,
            vault_sol_balance: 500,
            is_active: true,
        })
    );
}

#[test]
fn native_record_does_not_store_anything() {
    let slot = None;
    let rec = native_record(&slot, &id(1));
    assert_eq!(rec.user, id(1));
    assert_eq!(rec.asset_mint, Asset::Native);
    assert_eq!(rec.vault_sol_balance, 0);
    assert_eq!(slot, None);
    let stored = delegated_slot();
    assert_eq!(native_record(&stored, &id(1)), stored.unwrap());
}

#[test]
fn commits_add_up() {
    let mut slot = None;
    for amount in [10u64, 0, 250, 7] {
        assert!(commit_native(&mut slot, &id(1), amount).is_ok());
    }
    assert_eq!(balance(&slot), 267);
}

#[test]
fn commit_past_u64_max_is_refused_not_wrapped() {
    let mut slot = None;
    assert!(commit_native(&mut slot, &id(1), u64::MAX - 1).is_ok());
    assert_eq!(commit_native(&mut slot, &id(1), 2), Err(ErrorCode::ArithmeticOverflow));
    assert_eq!(balance(&slot), u64::MAX - 1);
    assert!(commit_native(&mut slot, &id(1), 1).is_ok());
    assert_eq!(balance(&slot), u64::MAX);
}

#[test]
fn overflowing_first_commit_is_impossible_but_max_fits() {
    let mut slot = None;
    assert!(commit_native(&mut slot, &id(1), u64::MAX).is_ok());
    assert_eq!(balance(&slot), u64::MAX);
}

#[test]
fn commit_into_other_users_record_is_refused() {
    let mut slot = None;
    commit_native(&mut slot, &id(1), 5).unwrap();
    assert_eq!(commit_native(&mut slot, &id(2), 5), Err(ErrorCode::NotOwner));
    assert_eq!(balance(&slot), 5);
}

#[test]
fn commit_then_reclaim_scenario() {
    let mut slot = None;
    commit_native(&mut slot, &id(1), 500).unwrap();
    let r = reclaim_native(&mut slot, &id(1), 200);
    assert_eq!(r, Ok(NativeMove::Withdraw { to: id(1), signer: id(1), amount: 200 }));
    assert_eq!(balance(&slot), 300);
    assert_eq!(reclaim_native(&mut slot, &id(1), 400), Err(ErrorCode::InsufficientFunds));
    assert_eq!(balance(&slot), 300);
}

#[test]
fn reclaim_of_whole_balance_leaves_zero() {
    let mut slot = None;
    commit_native(&mut slot, &id(1), 42).unwrap();
    assert!(reclaim_native(&mut slot, &id(1), 42).is_ok());
    assert_eq!(balance(&slot), 0);
    assert_eq!(reclaim_native(&mut slot, &id(1), 1), Err(ErrorCode::InsufficientFunds));
}

#[test]
fn reclaim_by_other_user_is_refused() {
    let mut slot = None;
    commit_native(&mut slot, &id(1), 42).unwrap();
    assert_eq!(reclaim_native(&mut slot, &id(2), 1), Err(ErrorCode::NotOwner));
    assert_eq!(balance(&slot), 42);
}

#[test]
fn reclaim_without_record_is_refused() {
    let mut slot = None;
    assert_eq!(reclaim_native(&mut slot, &id(1), 0), Err(ErrorCode::AccountNotInitialized));
}

#[test]
fn any_operator_may_sweep() {
    let mut slot = None;
    commit_native(&mut slot, &id(1), 100).unwrap();
    let r = sync_liquidity(&mut slot, &id(9), &id(5), 60);
    assert_eq!(r, Ok(NativeMove::Withdraw { to: id(5), signer: id(9), amount: 60 }));
    assert_eq!(balance(&slot), 40);
}

#[test]
fn sweep_beyond_balance_is_refused() {
    let mut slot = None;
    commit_native(&mut slot, &id(1), 100).unwrap();
    assert_eq!(sync_liquidity(&mut slot, &id(9), &id(5), 101), Err(ErrorCode::InsufficientFunds));
    assert_eq!(balance(&slot), 100);
    assert_eq!(sync_liquidity(&mut None, &id(9), &id(5), 0), Err(ErrorCode::AccountNotInitialized));
}

#[test]
fn payout_keeps_rent_reserve() {
    assert_eq!(settle_payout(1_300, 1_000, 5, 300), Ok((1_000, 305)));
    assert_eq!(settle_payout(1_300, 1_000, 5, 301), Err(ErrorCode::InsufficientFunds));
    assert_eq!(settle_payout(900, 1_000, 5, 0), Err(ErrorCode::InsufficientFunds));
    assert_eq!(settle_payout(1_300, 1_000, u64::MAX, 1), Err(ErrorCode::ArithmeticOverflow));
    assert_eq!(settle_payout(1_000, 1_000, 0, 0), Ok((1_000, 0)));
}
