use porg::bridge::{bridge_tokens, create_wormhole_transfer_instruction, BridgeTokens};
use porg::fees::calculate_fee;
use porg::liquidate::{
    batch_liquidate, get_token_value_usd, jupiter_program_id, select_candidates,
    settle_liquidation, BatchLiquidate, TokenAccount,
};
use porg::state::{initialize, update_fee, Initialize, PorgError, Pubkey, UpdateFee};

fn pk(x: u64) -> Pubkey {
    Pubkey { w0: x, w1: 0, w2: 0, w3: 0 }
}

fn token_account(key: u64, owner: u64, mint: u64, amount: u64) -> TokenAccount {
    TokenAccount {
        key: pk(key),
        owner: pk(owner),
        mint: pk(mint),
        amount,
        is_signer: false,
        is_writable: true,
    }
}

fn liquidation_ctx(user: u64, target: TokenAccount) -> BatchLiquidate {
    BatchLiquidate {
        porg_state: initialize(&Initialize { authority: pk(90), fee_account: pk(91) }),
        user: pk(user),
        target_token_account: target,
        fee_account: token_account(92, 91, 4, 0),
    }
}

#[test]
fn initialize_sets_defaults() {
    let state = initialize(&Initialize { authority: pk(1), fee_account: pk(2) });
    assert_eq!(state.authority, pk(1));
    assert_eq!(state.fee_basis_points, 100);
    assert_eq!(state.fee_account, pk(2));
}

#[test]
fn update_fee_scenario() {
    // Initialize, refuse 600, accept 250 from the authority, refuse 250 from
    // anyone else.
    let authority = pk(1);
    let mut state = initialize(&Initialize { authority, fee_account: pk(2) });

    let r = update_fee(&mut state, &UpdateFee { authority }, 600);
    assert_eq!(r, Err(PorgError::FeeTooHigh));
    assert_eq!(state.fee_basis_points, 100);

    let r = update_fee(&mut state, &UpdateFee { authority }, 250);
    assert_eq!(r, Ok(()));
    assert_eq!(state.fee_basis_points, 250);

    let r = update_fee(&mut state, &UpdateFee { authority: pk(3) }, 250);
    assert_eq!(r, Err(PorgError::Unauthorized));
    assert_eq!(state.fee_basis_points, 250);
    assert_eq!(state.authority, authority);
    assert_eq!(state.fee_account, pk(2));
}

#[test]
fn update_fee_boundaries() {
    let authority = pk(1);
    let mut state = initialize(&Initialize { authority, fee_account: pk(2) });

    // The cap itself is accepted, one over it is not, whoever asks.
    assert_eq!(update_fee(&mut state, &UpdateFee { authority }, 500), Ok(()));
    assert_eq!(state.fee_basis_points, 500);
    assert_eq!(update_fee(&mut state, &UpdateFee { authority }, 0), Ok(()));
    assert_eq!(state.fee_basis_points, 0);
    assert_eq!(
        update_fee(&mut state, &UpdateFee { authority }, 501),
        Err(PorgError::FeeTooHigh)
    );
    assert_eq!(
        update_fee(&mut state, &UpdateFee { authority: pk(3) }, 501),
        Err(PorgError::FeeTooHigh)
    );
    assert_eq!(state.fee_basis_points, 0);
}

#[test]
fn calculate_fee_values() {
    assert_eq!(calculate_fee(10000, 100), Ok(100));
    assert_eq!(calculate_fee(9999, 100), Ok(99));
    assert_eq!(calculate_fee(50, 100), Ok(0));
    assert_eq!(calculate_fee(0, 500), Ok(0));
    assert_eq!(calculate_fee(u64::MAX, 0), Ok(0));
    assert_eq!(calculate_fee(1_000_000, 250), Ok(25_000));
}

#[test]
fn calculate_fee_monotonic_samples() {
    let f1 = calculate_fee(1_000, 100).unwrap();
    let f2 = calculate_fee(2_000, 100).unwrap();
    let f3 = calculate_fee(2_000, 300).unwrap();
    assert!(f1 <= f2);
    assert!(f2 <= f3);
}

#[test]
fn calculate_fee_overflow() {
    assert_eq!(calculate_fee(u64::MAX, 2), Err(PorgError::ArithmeticOverflow));
    assert_eq!(calculate_fee(u64::MAX / 2, 2), Ok(u64::MAX / 2 / 5000));
}

#[test]
fn valuation_stub_is_constant() {
    assert_eq!(get_token_value_usd(&token_account(1, 2, 3, 77)), Ok(100));
}

#[test]
fn batch_liquidate_empty_candidates() {
    // No candidates: zero swaps, and settlement computes the fee on the
    // unchanged target balance.
    let target = token_account(3, 1, 4, 1000);
    let ctx = liquidation_ctx(1, target);
    let swaps = batch_liquidate(&ctx, pk(4), false, 100, &vec![], &vec![], &vec![]).unwrap();
    assert_eq!(swaps.len(), 0);

    // Fee is 1% of 1000 = 10: succeeds iff balance covers minimum + fee.
    let settlement = settle_liquidation(&ctx, 1000, 900).unwrap();
    assert_eq!(settlement.fee_amount, 10);
    let transfer = settlement.fee_transfer.unwrap();
    assert_eq!(transfer.from, target.key);
    assert_eq!(transfer.to, ctx.fee_account.key);
    assert_eq!(transfer.authority, ctx.user);
    assert_eq!(transfer.amount, 10);
    assert_eq!(
        settle_liquidation(&ctx, 1000, 991).unwrap_err(),
        PorgError::InsufficientOutput
    );

    // With a zero fee rate, success is exactly balance >= minimum.
    let mut ctx_zero_fee = ctx;
    ctx_zero_fee.porg_state.fee_basis_points = 0;
    let settlement = settle_liquidation(&ctx_zero_fee, 1000, 1000).unwrap();
    assert_eq!(settlement.fee_amount, 0);
    assert!(settlement.fee_transfer.is_none());
    assert_eq!(
        settle_liquidation(&ctx_zero_fee, 1000, 1001).unwrap_err(),
        PorgError::InsufficientOutput
    );
}

#[test]
fn batch_liquidate_excludes_target_account() {
    // The target account is skipped even when supplied as a candidate, so no
    // route is needed for it.
    let target = token_account(3, 1, 4, 1000);
    let ctx = liquidation_ctx(1, target);
    let candidates = vec![target, target];
    let swaps = batch_liquidate(&ctx, pk(4), true, 0, &vec![], &vec![], &candidates).unwrap();
    assert_eq!(swaps.len(), 0);
}

#[test]
fn batch_liquidate_excludes_foreign_accounts() {
    // A candidate owned by someone else is skipped.
    let target = token_account(3, 1, 4, 1000);
    let ctx = liquidation_ctx(1, target);
    let candidates = vec![token_account(7, 2, 5, 50)];
    let swaps = batch_liquidate(&ctx, pk(4), true, 0, &vec![], &vec![], &candidates).unwrap();
    assert_eq!(swaps.len(), 0);
}

#[test]
fn batch_liquidate_excludes_dust() {
    // Every holding is valued at 100 cents: below a 200-cent threshold it is
    // dust, and with include_dust=false no swap position is allocated for it.
    let target = token_account(3, 1, 4, 1000);
    let ctx = liquidation_ctx(1, target);
    let candidates = vec![token_account(7, 1, 5, 50)];
    let swaps = batch_liquidate(&ctx, pk(4), false, 200, &vec![], &vec![], &candidates).unwrap();
    assert_eq!(swaps.len(), 0);

    // The same candidate is kept when dust is asked for, and then needs a
    // route.
    let r = batch_liquidate(&ctx, pk(4), true, 200, &vec![], &vec![], &candidates);
    assert_eq!(r.unwrap_err(), PorgError::InvalidJupiterRoute);
}

#[test]
fn select_candidates_filtering() {
    let target = token_account(3, 1, 4, 1000);
    let dust = token_account(7, 1, 5, 50);
    let foreign = token_account(8, 2, 5, 50);
    let kept = token_account(9, 1, 6, 50);
    let selected = select_candidates(
        &vec![target, dust, foreign, kept],
        target.key,
        pk(1),
        false,
        200,
    );
    assert_eq!(selected, vec![]);
    let selected = select_candidates(
        &vec![target, dust, foreign, kept],
        target.key,
        pk(1),
        false,
        100,
    );
    assert_eq!(selected, vec![dust, kept]);
}

#[test]
fn batch_liquidate_builds_swap_plan() {
    let target = token_account(3, 1, 4, 1000);
    let ctx = liquidation_ctx(1, target);
    let mut pool = token_account(20, 9, 9, 0);
    pool.is_signer = false;
    pool.is_writable = false;
    let mut vault = token_account(21, 9, 9, 0);
    vault.is_signer = true;
    vault.is_writable = true;
    let first = token_account(7, 1, 5, 50);
    let second = token_account(8, 1, 6, 60);
    let candidates = vec![first, pool, second, vault];
    let route_payloads = vec![vec![1u8, 2, 3], vec![4u8]];
    let route_accounts = vec![vec![pk(20), pk(21)], vec![pk(21)]];
    let swaps = batch_liquidate(
        &ctx,
        pk(4),
        true,
        0,
        &route_payloads,
        &route_accounts,
        &candidates,
    )
    .unwrap();

    // `pool` and `vault` are owned by someone else, so only `first` and
    // `second` are liquidated, in candidate order.
    assert_eq!(swaps.len(), 2);
    for swap in &swaps {
        assert_eq!(swap.program_id, jupiter_program_id());
    }
    assert_eq!(swaps[0].data, vec![1u8, 2, 3]);
    assert_eq!(swaps[1].data, vec![4u8]);
    assert_eq!(swaps[0].accounts.len(), 2);
    assert_eq!(swaps[0].accounts[0].pubkey, pk(20));
    assert!(!swaps[0].accounts[0].is_signer);
    assert!(!swaps[0].accounts[0].is_writable);
    assert_eq!(swaps[0].accounts[1].pubkey, pk(21));
    assert!(swaps[0].accounts[1].is_signer);
    assert!(swaps[0].accounts[1].is_writable);
    assert_eq!(swaps[1].accounts.len(), 1);
    assert_eq!(swaps[1].accounts[0].pubkey, pk(21));
}

#[test]
fn batch_liquidate_rejects_bad_target() {
    let target = token_account(3, 2, 4, 1000);
    let ctx = liquidation_ctx(1, target);
    let r = batch_liquidate(&ctx, pk(4), false, 100, &vec![], &vec![], &vec![]);
    assert_eq!(r.unwrap_err(), PorgError::InvalidTargetAccount);

    let target = token_account(3, 1, 5, 1000);
    let ctx = liquidation_ctx(1, target);
    let r = batch_liquidate(&ctx, pk(4), false, 100, &vec![], &vec![], &vec![]);
    assert_eq!(r.unwrap_err(), PorgError::InvalidTargetMint);
}

#[test]
fn batch_liquidate_missing_route() {
    // Two survivors but only one route: the second position stops the
    // request.
    let target = token_account(3, 1, 4, 1000);
    let ctx = liquidation_ctx(1, target);
    let candidates = vec![token_account(7, 1, 5, 50), token_account(8, 1, 6, 60)];
    let r = batch_liquidate(
        &ctx,
        pk(4),
        true,
        0,
        &vec![vec![1u8]],
        &vec![vec![]],
        &candidates,
    );
    assert_eq!(r.unwrap_err(), PorgError::InvalidJupiterRoute);
}

#[test]
fn batch_liquidate_unknown_route_account() {
    let target = token_account(3, 1, 4, 1000);
    let ctx = liquidation_ctx(1, target);
    let candidates = vec![token_account(7, 1, 5, 50)];
    let r = batch_liquidate(
        &ctx,
        pk(4),
        true,
        0,
        &vec![vec![1u8]],
        &vec![vec![pk(99)]],
        &candidates,
    );
    assert_eq!(r.unwrap_err(), PorgError::AccountNotFound);
}

#[test]
fn settle_liquidation_overflow() {
    let target = token_account(3, 1, 4, u64::MAX);
    let ctx = liquidation_ctx(1, target);
    let r = settle_liquidation(&ctx, u64::MAX, 0);
    assert_eq!(r.unwrap_err(), PorgError::ArithmeticOverflow);
}

#[test]
fn wormhole_stub_instruction() {
    let ins = create_wormhole_transfer_instruction(pk(1), 5, 2, [0u8; 32], 7).unwrap();
    assert_eq!(ins.program_id, pk(0));
    assert!(ins.accounts.is_empty());
    assert!(ins.data.is_empty());
}

#[test]
fn bridge_tokens_plan() {
    let ctx = BridgeTokens {
        user: pk(1),
        source_token_account: token_account(2, 1, 3, 500),
        bridge_token_account: pk(10),
        wormhole_config: pk(11),
        wormhole_message: pk(12),
        wormhole_emitter: pk(13),
        wormhole_sequence: pk(14),
        wormhole_fee_collector: pk(15),
        token_program: pk(16),
        system_program: pk(17),
        clock: pk(18),
        rent: pk(19),
    };
    let plan = bridge_tokens(&ctx, 250, 2, [7u8; 32], 99).unwrap();
    assert_eq!(plan.transfer.from, pk(2));
    assert_eq!(plan.transfer.to, pk(10));
    assert_eq!(plan.transfer.authority, pk(1));
    assert_eq!(plan.transfer.amount, 250);
    assert_eq!(plan.message.program_id, pk(0));
    assert!(plan.message.accounts.is_empty());
    assert!(plan.message.data.is_empty());
    assert_eq!(
        plan.message_accounts,
        vec![
            pk(10),
            pk(11),
            pk(12),
            pk(13),
            pk(14),
            pk(15),
            pk(18),
            pk(19),
            pk(17)
        ]
    );
}

#[test]
fn jupiter_program_id_words() {
    let id = jupiter_program_id();
    assert_eq!(id.w0, 0xf1659f7a1b72834b);
    assert_eq!(id.w1, 0x7f1c8e495caa956e);
    assert_eq!(id.w2, 0x3c8f2c5c12487301);
    assert_eq!(id.w3, 0x6a3d5f651110f635);
}
