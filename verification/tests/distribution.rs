use trumpworm::authority::find_authority;
use trumpworm::{
    deposit, distribute_rewards, distribute_signed, initialize, payouts, transfer_authority,
    Deposit, DistributeRewards, GameState, Identity, Initialize, Payout, TokenAccount,
    TransferAuthority, TrumpwormError,
};

fn id(n: u8) -> Identity {
    Identity::new([n; 32])
}

fn program() -> Identity {
    id(7)
}

fn mint() -> Identity {
    id(42)
}

fn wallet(owner: Identity, amount: u64) -> TokenAccount {
    TokenAccount { key: owner, mint: mint(), owner, amount }
}

/// A pool created by `authority` with the right nonce, its treasury holding `funds`.
fn funded_pool(authority: Identity, funds: u64) -> (GameState, TokenAccount) {
    let (_, bump) = find_authority(&program(), &mint()).expect("a nonce exists");
    let mut ctx = Initialize {
        program_id: program(),
        game_state: None,
        treasury: None,
        token_mint: mint(),
        authority,
    };
    assert_eq!(initialize(&mut ctx, bump), Ok(()));
    let pool = ctx.game_state.expect("pool created");
    let mut treasury = ctx.treasury.expect("treasury created");
    if funds > 0 {
        let funder = id(200);
        let mut dep = Deposit { treasury, source: wallet(funder, funds), depositor: funder };
        assert_eq!(deposit(&mut dep, funds), Ok(()));
        treasury = dep.treasury;
    }
    (pool, treasury)
}

fn held(ctx: &DistributeRewards, i: usize) -> u64 {
    ctx.remaining_accounts[i].expect("an account").amount
}

fn batch(authority: Identity, caller: Identity, funds: u64, recipients: usize) -> DistributeRewards {
    let (game_state, treasury) = funded_pool(authority, funds);
    let mut remaining_accounts = Vec::new();
    for i in 0..recipients {
        remaining_accounts.push(Some(wallet(id(100 + i as u8), 0)));
    }
    DistributeRewards { program_id: program(), game_state, treasury, authority: caller, remaining_accounts }
}

#[test]
fn distribution_pays_in_order_and_skips_zero() {
    let a = id(1);
    let mut ctx = batch(a, a, 1_000, 3);
    assert_eq!(distribute_rewards(&mut ctx, vec![100, 0, 50], 1_700_000_000), Ok(()));
    assert_eq!(held(&ctx, 0), 100);
    assert_eq!(held(&ctx, 1), 0);
    assert_eq!(held(&ctx, 2), 50);
    assert_eq!(ctx.game_state.total_distributed, 150);
    assert_eq!(ctx.game_state.distribution_count, 1);
    assert_eq!(ctx.game_state.last_distribution, 1_700_000_000);
    assert_eq!(ctx.treasury.amount, 850);
}

#[test]
fn stranger_cannot_distribute() {
    let a = id(1);
    let b = id(2);
    let mut ctx = batch(a, b, 1_000, 3);
    let before = ctx.clone();
    assert_eq!(
        distribute_rewards(&mut ctx, vec![100, 0, 50], 9),
        Err(TrumpwormError::Unauthorized)
    );
    assert_eq!(ctx, before);
    assert_eq!(ctx.treasury.amount, 1_000);
    assert_eq!(ctx.game_state.total_distributed, 0);
    assert_eq!(ctx.game_state.distribution_count, 0);
}

#[test]
fn authority_handover_takes_effect_at_once() {
    let a = id(1);
    let c = id(3);
    let ctx = batch(a, a, 1_000, 2);
    let mut handover = TransferAuthority { game_state: ctx.game_state, authority: a };
    assert_eq!(transfer_authority(&mut handover, c), Ok(()));
    assert_eq!(handover.game_state.authority, c);

    let mut by_old = DistributeRewards { game_state: handover.game_state, authority: a, ..ctx.clone() };
    assert_eq!(
        distribute_rewards(&mut by_old, vec![1, 2], 5),
        Err(TrumpwormError::Unauthorized)
    );
    assert_eq!(by_old.treasury.amount, 1_000);

    let mut by_new = DistributeRewards { game_state: handover.game_state, authority: c, ..ctx };
    assert_eq!(distribute_rewards(&mut by_new, vec![1, 2], 5), Ok(()));
    assert_eq!(by_new.game_state.total_distributed, 3);
    assert_eq!(by_new.game_state.distribution_count, 1);
    assert_eq!(by_new.treasury.amount, 997);
}

#[test]
fn counters_accumulate_over_calls() {
    let a = id(1);
    let mut ctx = batch(a, a, 500, 2);
    assert_eq!(distribute_rewards(&mut ctx, vec![10, 20], 1), Ok(()));
    assert_eq!(distribute_rewards(&mut ctx, vec![0, 0], 2), Ok(()));
    assert_eq!(distribute_rewards(&mut ctx, vec![5, 0], 3), Ok(()));
    assert_eq!(ctx.game_state.total_distributed, 35);
    assert_eq!(ctx.game_state.distribution_count, 3);
    assert_eq!(ctx.game_state.last_distribution, 3);
    assert_eq!(ctx.treasury.amount, 465);
    assert_eq!(held(&ctx, 0), 15);
    assert_eq!(held(&ctx, 1), 20);
}

#[test]
fn ten_amounts_are_accepted() {
    let a = id(1);
    let mut ctx = batch(a, a, 1_000, 10);
    assert_eq!(distribute_rewards(&mut ctx, vec![1, 2, 3, 4, 5, 6, 7, 8, 9, 10], 4), Ok(()));
    assert_eq!(ctx.game_state.total_distributed, 55);
    assert_eq!(ctx.game_state.distribution_count, 1);
    assert_eq!(ctx.treasury.amount, 945);
    for i in 0..10 {
        assert_eq!(held(&ctx, i), i as u64 + 1);
    }
}

#[test]
fn empty_batch_counts_as_a_distribution() {
    let a = id(1);
    let mut ctx = batch(a, a, 10, 0);
    assert_eq!(distribute_rewards(&mut ctx, vec![], 77), Ok(()));
    assert_eq!(ctx.game_state.total_distributed, 0);
    assert_eq!(ctx.game_state.distribution_count, 1);
    assert_eq!(ctx.game_state.last_distribution, 77);
    assert_eq!(ctx.treasury.amount, 10);
}

#[test]
fn eleven_amounts_are_too_many() {
    let a = id(1);
    let mut ctx = batch(a, a, 1_000, 11);
    let before = ctx.clone();
    assert_eq!(
        distribute_rewards(&mut ctx, vec![1; 11], 4),
        Err(TrumpwormError::TooManyRecipients)
    );
    assert_eq!(ctx, before);
}

#[test]
fn amounts_and_recipients_must_pair_up() {
    let a = id(1);
    let mut ctx = batch(a, a, 1_000, 3);
    let before = ctx.clone();
    assert_eq!(
        distribute_rewards(&mut ctx, vec![1, 2], 4),
        Err(TrumpwormError::MismatchedRecipients)
    );
    assert_eq!(ctx, before);
    assert_eq!(
        distribute_rewards(&mut ctx, vec![1, 2, 3, 4], 4),
        Err(TrumpwormError::MismatchedRecipients)
    );
    assert_eq!(ctx, before);
}

#[test]
fn checks_come_in_order() {
    let a = id(1);
    let b = id(2);
    // unauthorized wins over too many and over mismatched
    let mut ctx = batch(a, b, 1_000, 3);
    assert_eq!(
        distribute_rewards(&mut ctx, vec![1; 12], 4),
        Err(TrumpwormError::Unauthorized)
    );
    // too many wins over mismatched
    let mut ctx = batch(a, a, 1_000, 3);
    assert_eq!(
        distribute_rewards(&mut ctx, vec![1; 12], 4),
        Err(TrumpwormError::TooManyRecipients)
    );
    // a refused transfer wins over an overflowing total
    let mut ctx = batch(a, a, 5, 1);
    ctx.game_state.total_distributed = u64::MAX;
    assert_eq!(
        distribute_rewards(&mut ctx, vec![6], 4),
        Err(TrumpwormError::TransferFailed)
    );
}

#[test]
fn total_overflow_fails_and_changes_nothing() {
    let a = id(1);
    let mut ctx = batch(a, a, 1_000, 2);
    ctx.game_state.total_distributed = u64::MAX - 10;
    ctx.game_state.distribution_count = 4;
    let before = ctx.clone();
    assert_eq!(distribute_rewards(&mut ctx, vec![5, 6], 4), Err(TrumpwormError::Overflow));
    assert_eq!(ctx, before);
    // exactly up to the maximum still fits
    assert_eq!(distribute_rewards(&mut ctx, vec![5, 5], 4), Ok(()));
    assert_eq!(ctx.game_state.total_distributed, u64::MAX);
    assert_eq!(ctx.game_state.distribution_count, 5);
}

#[test]
fn count_overflow_fails_and_changes_nothing() {
    let a = id(1);
    let mut ctx = batch(a, a, 1_000, 1);
    ctx.game_state.distribution_count = u64::MAX;
    let before = ctx.clone();
    assert_eq!(distribute_rewards(&mut ctx, vec![5], 4), Err(TrumpwormError::Overflow));
    assert_eq!(ctx, before);
}

#[test]
fn short_treasury_fails_the_whole_batch() {
    let a = id(1);
    let mut ctx = batch(a, a, 120, 3);
    let before = ctx.clone();
    // the first transfer alone could be made, the batch as a whole cannot
    assert_eq!(
        distribute_rewards(&mut ctx, vec![100, 0, 50], 4),
        Err(TrumpwormError::TransferFailed)
    );
    assert_eq!(ctx, before);
    assert_eq!(held(&ctx, 0), 0);
    // the whole balance can be paid out
    assert_eq!(distribute_rewards(&mut ctx, vec![100, 0, 20], 4), Ok(()));
    assert_eq!(ctx.treasury.amount, 0);
}

#[test]
fn recipient_of_another_token_fails_the_batch() {
    let a = id(1);
    let mut ctx = batch(a, a, 1_000, 2);
    ctx.remaining_accounts[1].as_mut().expect("an account").mint = id(43);
    let before = ctx.clone();
    assert_eq!(
        distribute_rewards(&mut ctx, vec![1, 1], 4),
        Err(TrumpwormError::TransferFailed)
    );
    assert_eq!(ctx, before);
    // a recipient that is paid nothing is not looked at
    assert_eq!(distribute_rewards(&mut ctx, vec![1, 0], 4), Ok(()));
    assert_eq!(held(&ctx, 0), 1);
}

#[test]
fn recipient_that_cannot_hold_more_fails_the_batch() {
    let a = id(1);
    let mut ctx = batch(a, a, 1_000, 1);
    ctx.remaining_accounts[0].as_mut().expect("an account").amount = u64::MAX - 1;
    let before = ctx.clone();
    assert_eq!(distribute_rewards(&mut ctx, vec![2], 4), Err(TrumpwormError::TransferFailed));
    assert_eq!(ctx, before);
    assert_eq!(distribute_rewards(&mut ctx, vec![1], 4), Ok(()));
    assert_eq!(held(&ctx, 0), u64::MAX);
}

#[test]
fn wrong_nonce_fails_closed() {
    let a = id(1);
    let mut ctx = batch(a, a, 1_000, 2);
    let right = ctx.game_state.bump;
    ctx.game_state.bump = right.wrapping_sub(1);
    let before = ctx.clone();
    assert_eq!(
        distribute_rewards(&mut ctx, vec![1, 0], 4),
        Err(TrumpwormError::TransferFailed)
    );
    assert_eq!(ctx, before);
    // a batch that moves nothing asks for no signature
    assert_eq!(distribute_rewards(&mut ctx, vec![0, 0], 4), Ok(()));
    assert_eq!(ctx.game_state.distribution_count, 1);
    assert_eq!(ctx.treasury.amount, 1_000);
    // with the nonce of the creation the same batch is paid
    ctx.game_state.bump = right;
    assert_eq!(distribute_rewards(&mut ctx, vec![1, 0], 4), Ok(()));
    assert_eq!(ctx.treasury.amount, 999);
}

#[test]
fn signer_given_by_hand_decides() {
    let a = id(1);
    let mut ctx = batch(a, a, 1_000, 1);
    let owner = ctx.treasury.owner;
    assert_eq!(
        distribute_signed(&mut ctx, &vec![3], 4, &None),
        Err(TrumpwormError::TransferFailed)
    );
    assert_eq!(
        distribute_signed(&mut ctx, &vec![3], 4, &Some(id(9))),
        Err(TrumpwormError::TransferFailed)
    );
    assert_eq!(ctx.treasury.amount, 1_000);
    assert_eq!(distribute_signed(&mut ctx, &vec![3], 4, &Some(owner)), Ok(()));
    assert_eq!(ctx.treasury.amount, 997);
    assert_eq!(held(&ctx, 0), 3);
    assert_eq!(ctx.game_state.total_distributed, 3);
}

#[test]
fn payouts_list_the_transfers_in_order() {
    assert_eq!(
        payouts(&vec![100, 0, 50]),
        vec![Payout { recipient: 0, amount: 100 }, Payout { recipient: 2, amount: 50 }]
    );
    assert_eq!(payouts(&vec![0, 0]), vec![]);
    assert_eq!(payouts(&vec![]), vec![]);
    assert_eq!(
        payouts(&vec![0, 7, 7, 0, 1]),
        vec![
            Payout { recipient: 1, amount: 7 },
            Payout { recipient: 2, amount: 7 },
            Payout { recipient: 4, amount: 1 }
        ]
    );
}

#[test]
fn account_without_value_can_only_be_paid_nothing() {
    let a = id(1);
    let mut ctx = batch(a, a, 1_000, 3);
    ctx.remaining_accounts[1] = None;
    let before = ctx.clone();
    assert_eq!(
        distribute_rewards(&mut ctx, vec![100, 1, 50], 4),
        Err(TrumpwormError::TransferFailed)
    );
    assert_eq!(ctx, before);
    assert_eq!(distribute_rewards(&mut ctx, vec![100, 0, 50], 4), Ok(()));
    assert_eq!(held(&ctx, 0), 100);
    assert_eq!(ctx.remaining_accounts[1], None);
    assert_eq!(held(&ctx, 2), 50);
    assert_eq!(ctx.treasury.amount, 850);
    assert_eq!(ctx.game_state.total_distributed, 150);
}

#[test]
fn caller_and_shape_are_checked_before_any_account() {
    let a = id(1);
    let b = id(2);
    let mut ctx = batch(a, b, 1_000, 2);
    ctx.remaining_accounts[0] = None;
    ctx.remaining_accounts[1] = None;
    assert_eq!(
        distribute_rewards(&mut ctx, vec![1, 1], 4),
        Err(TrumpwormError::Unauthorized)
    );
    let mut ctx = batch(a, a, 1_000, 0);
    ctx.remaining_accounts = vec![None; 11];
    assert_eq!(
        distribute_rewards(&mut ctx, vec![1; 11], 4),
        Err(TrumpwormError::TooManyRecipients)
    );
    ctx.remaining_accounts = vec![None; 2];
    assert_eq!(
        distribute_rewards(&mut ctx, vec![1; 3], 4),
        Err(TrumpwormError::MismatchedRecipients)
    );
    assert_eq!(ctx.treasury.amount, 1_000);
}
