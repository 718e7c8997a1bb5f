//! What holds of every call, stated over the outcomes and the records that
//! the operations' contracts speak of.

use vstd::prelude::*;

use crate::authority::{derived_authority, identity_view};
use crate::distribution::{
    batch_total, holding_of, holdings_total, payouts_of, payouts_total, DistributeRewards,
    Payout, MAX_RECIPIENTS,
};
use crate::error::TrumpwormError;
use crate::identity::Identity;
use crate::pool::{Deposit, Initialize, TransferAuthority, Withdraw};
use crate::token::TokenAccount;

verus! {

/// A successful distribution raises the pool's count by exactly one and its
/// total by exactly the sum of the batch, zeros included; and it succeeds
/// only for a batch of at most ten amounts, one for each recipient.
pub proof fn law_distribution_advances_counters(
    pre: DistributeRewards,
    post: DistributeRewards,
    amounts: Seq<u64>,
    now: i64,
    signed: bool,
)
    requires
        pre.outcome(amounts, signed) is Ok,
        pre.leaves(&post, amounts, now, signed),
    ensures
        amounts.len() <= MAX_RECIPIENTS,
        amounts.len() == pre.remaining_accounts@.len(),
        post.game_state.distribution_count == pre.game_state.distribution_count + 1,
        post.game_state.total_distributed == pre.game_state.total_distributed + batch_total(
            amounts,
        ),
        post.game_state.last_distribution == now,
        post.treasury.amount == pre.treasury.amount - batch_total(amounts),
{
    crate::distribution::lemma_batch_total_nonnegative(amounts);
}

/// A batch of more than ten amounts from the authority fails as too many
/// recipients, and nothing changes.
pub proof fn law_oversized_batch_refused(
    pre: DistributeRewards,
    post: DistributeRewards,
    amounts: Seq<u64>,
    now: i64,
    signed: bool,
)
    requires
        pre.authority == pre.game_state.authority,
        amounts.len() > MAX_RECIPIENTS,
        pre.leaves(&post, amounts, now, signed),
    ensures
        pre.outcome(amounts, signed) == Err::<(), TrumpwormError>(
            TrumpwormError::TooManyRecipients,
        ),
        post == pre,
{
}

/// A batch of at most ten amounts from the authority that does not hold one
/// amount for each recipient fails as mismatched, and nothing changes.
pub proof fn law_mismatched_batch_refused(
    pre: DistributeRewards,
    post: DistributeRewards,
    amounts: Seq<u64>,
    now: i64,
    signed: bool,
)
    requires
        pre.authority == pre.game_state.authority,
        amounts.len() <= MAX_RECIPIENTS,
        amounts.len() != pre.remaining_accounts@.len(),
        pre.leaves(&post, amounts, now, signed),
    ensures
        pre.outcome(amounts, signed) == Err::<(), TrumpwormError>(
            TrumpwormError::MismatchedRecipients,
        ),
        post == pre,
{
}

/// A caller other than the pool's authority is refused as unauthorized by
/// distribution, withdrawal and the handing over of authority alike, whatever
/// the other arguments, and nothing changes.
pub proof fn law_stranger_refused(
    distribution: DistributeRewards,
    after_distribution: DistributeRewards,
    amounts: Seq<u64>,
    now: i64,
    withdrawal: Withdraw,
    amount: u64,
    handover: TransferAuthority,
    new_authority: Identity,
    signed: bool,
)
    requires
        distribution.authority != distribution.game_state.authority,
        distribution.leaves(&after_distribution, amounts, now, signed),
        withdrawal.authority != withdrawal.game_state.authority,
        handover.authority != handover.game_state.authority,
    ensures
        distribution.outcome(amounts, signed) == Err::<(), TrumpwormError>(
            TrumpwormError::Unauthorized,
        ),
        after_distribution == distribution,
        withdrawal.outcome(amount, signed) == Err::<(), TrumpwormError>(
            TrumpwormError::Unauthorized,
        ),
        withdrawal.after(amount, signed) == withdrawal,
        handover.outcome() == Err::<(), TrumpwormError>(TrumpwormError::Unauthorized),
        handover.after(new_authority) == handover,
{
}

/// A deposit of nothing fails as zero amount and leaves the treasury's
/// balance, and everything else, as it was.
pub proof fn law_empty_deposit_refused(pre: Deposit)
    ensures
        pre.outcome(0) == Err::<(), TrumpwormError>(TrumpwormError::ZeroAmount),
        pre.after(0) == pre,
        pre.after(0).treasury.amount == pre.treasury.amount,
{
}

/// Once a pool has been created, creating it again fails as already existing
/// and leaves the pool and the treasury of the first creation untouched,
/// whatever nonce the second call brings and whatever its search finds.
pub proof fn law_pool_created_once(
    pre: Initialize,
    bump: u8,
    found: Option<(Identity, u8)>,
    second_bump: u8,
    second_found: Option<(Identity, u8)>,
)
    requires
        pre.outcome(found) is Ok,
    ensures
        pre.after(bump, found).outcome(second_found) == Err::<(), TrumpwormError>(
            TrumpwormError::AlreadyExists,
        ),
        pre.after(bump, found).after(second_bump, second_found) == pre.after(bump, found),
{
}

/// Where every transfer of a well-formed batch from the authority can be
/// made, but the pool's total cannot hold the batch's sum on top of what it
/// holds, the distribution fails as overflow and nothing changes.
pub proof fn law_total_overflow_refused(
    pre: DistributeRewards,
    post: DistributeRewards,
    amounts: Seq<u64>,
    now: i64,
    signed: bool,
)
    requires
        pre.authority == pre.game_state.authority,
        amounts.len() <= MAX_RECIPIENTS,
        amounts.len() == pre.remaining_accounts@.len(),
        pre.payable(amounts, signed),
        pre.game_state.total_distributed + batch_total(amounts) > u64::MAX,
        pre.leaves(&post, amounts, now, signed),
    ensures
        pre.outcome(amounts, signed) == Err::<(), TrumpwormError>(TrumpwormError::Overflow),
        post == pre,
{
}

/// Crediting each account of a list with its amount raises the sum of the
/// balances by the sum of the amounts.
proof fn lemma_credits_add_up(
    before: Seq<Option<TokenAccount>>,
    after: Seq<Option<TokenAccount>>,
    amounts: Seq<u64>,
)
    requires
        before.len() == amounts.len(),
        after.len() == amounts.len(),
        forall|i: int|
            0 <= i < amounts.len() ==> holding_of(#[trigger] after[i]) == holding_of(before[i])
                + amounts[i],
    ensures
        holdings_total(after) == holdings_total(before) + batch_total(amounts),
    decreases amounts.len(),
{
    if amounts.len() > 0 {
        let last = amounts.len() - 1;
        assert(holding_of(after[last]) == holding_of(before[last]) + amounts[last]);
        assert forall|i: int| 0 <= i < amounts.drop_last().len() implies holding_of(
            #[trigger] after.drop_last()[i],
        ) == holding_of(before.drop_last()[i]) + amounts.drop_last()[i] by {
            assert(holding_of(after[i]) == holding_of(before[i]) + amounts[i]);
        }
        lemma_credits_add_up(before.drop_last(), after.drop_last(), amounts.drop_last());
    }
}

/// A distribution creates and destroys no value: what leaves the treasury is
/// what the recipients receive, and a failed distribution moves nothing.
pub proof fn law_distribution_conserves_value(
    pre: DistributeRewards,
    post: DistributeRewards,
    amounts: Seq<u64>,
    now: i64,
    signed: bool,
)
    requires
        pre.leaves(&post, amounts, now, signed),
    ensures
        holdings_total(post.remaining_accounts@) + post.treasury.amount == holdings_total(
            pre.remaining_accounts@,
        ) + pre.treasury.amount,
        pre.outcome(amounts, signed) is Ok ==> holdings_total(post.remaining_accounts@)
            == holdings_total(pre.remaining_accounts@) + batch_total(amounts),
{
    if pre.outcome(amounts, signed) is Ok {
        crate::distribution::lemma_batch_total_nonnegative(amounts);
        assert forall|i: int| 0 <= i < amounts.len() implies holding_of(
            #[trigger] post.remaining_accounts@[i],
        ) == holding_of(pre.remaining_accounts@[i]) + amounts[i] by {
            assert(pre.accepted(amounts, signed, i));
        }
        lemma_credits_add_up(pre.remaining_accounts@, post.remaining_accounts@, amounts);
    }
}

/// A withdrawal and a deposit create and destroy no value: the two accounts
/// of the call hold together what they held before. A deposit never lowers
/// the treasury's balance.
pub proof fn law_transfers_conserve_value(
    withdrawal: Withdraw,
    deposit: Deposit,
    amount: u64,
    signed: bool,
)
    ensures
        withdrawal.after(amount, signed).treasury.amount + withdrawal.after(
            amount,
            signed,
        ).destination.amount == withdrawal.treasury.amount + withdrawal.destination.amount,
        deposit.after(amount).treasury.amount + deposit.after(amount).source.amount
            == deposit.treasury.amount + deposit.source.amount,
        deposit.after(amount).treasury.amount >= deposit.treasury.amount,
        deposit.outcome(amount) is Ok ==> deposit.after(amount).treasury.amount
            == deposit.treasury.amount + amount,
{
}

/// A deposit of nothing leaves no trace: the treasury holds what it held, and
/// a withdrawal made after it ends as it would have ended without it. Where
/// the authority withdraws under the treasury's signature into an account of
/// the treasury's token that can hold the amount, the withdrawal succeeds for
/// every amount up to the balance from before the deposit and takes exactly
/// that amount, the pool staying as it was; for more it fails as a refused
/// transfer and changes nothing.
pub proof fn law_withdrawal_after_refused_deposit(
    deposit: Deposit,
    withdrawal: Withdraw,
    amount: u64,
    signed: bool,
)
    requires
        withdrawal.treasury == deposit.after(0).treasury,
    ensures
        deposit.outcome(0) == Err::<(), TrumpwormError>(TrumpwormError::ZeroAmount),
        deposit.after(0).source == deposit.source,
        withdrawal.treasury == deposit.treasury,
        withdrawal.authority == withdrawal.game_state.authority && signed
            && withdrawal.destination.mint == withdrawal.treasury.mint
            && withdrawal.destination.amount + amount <= u64::MAX ==> {
            &&& amount <= deposit.treasury.amount ==> {
                &&& withdrawal.outcome(amount, signed) is Ok
                &&& withdrawal.after(amount, signed).treasury.amount == deposit.treasury.amount
                    - amount
                &&& withdrawal.after(amount, signed).game_state == withdrawal.game_state
            }
            &&& amount > deposit.treasury.amount ==> {
                &&& withdrawal.outcome(amount, signed) == Err::<(), TrumpwormError>(
                    TrumpwormError::TransferFailed,
                )
                &&& withdrawal.after(amount, signed) == withdrawal
            }
        },
{
}

/// A pool created with the nonce that derives its treasury's identity can
/// sign for its treasury: the nonce kept in the pool derives the identity
/// that controls the treasury, so a withdrawal or a distribution on the
/// records of the creation carries the treasury's signature.
pub proof fn law_creation_nonce_signs(
    pre: Initialize,
    address: Identity,
    nonce: u8,
    withdrawal: Withdraw,
    distribution: DistributeRewards,
)
    requires
        pre.outcome(Some((address, nonce))) is Ok,
        derived_authority(pre.program_id@, pre.token_mint@, nonce) == Some(address@),
        withdrawal.program_id == pre.program_id,
        Some(withdrawal.game_state) == pre.after(nonce, Some((address, nonce))).game_state,
        Some(withdrawal.treasury) == pre.after(nonce, Some((address, nonce))).treasury,
        distribution.program_id == pre.program_id,
        Some(distribution.game_state) == pre.after(nonce, Some((address, nonce))).game_state,
        Some(distribution.treasury) == pre.after(nonce, Some((address, nonce))).treasury,
    ensures
        withdrawal.game_state.authority == pre.authority,
        withdrawal.game_state.bump == nonce,
        withdrawal.game_state.treasury == withdrawal.treasury.key,
        withdrawal.treasury.owner == address,
        withdrawal.treasury_signs(),
        distribution.treasury_signs(),
{
}

/// The pool's counters never go down, and they move only in a successful
/// distribution: a failed distribution, a withdrawal and a handing over of
/// authority leave them as they were. The token identity and the nonce of a
/// pool never change.
pub proof fn law_counters_only_move_forward(
    distribution: DistributeRewards,
    after_distribution: DistributeRewards,
    amounts: Seq<u64>,
    now: i64,
    withdrawal: Withdraw,
    amount: u64,
    handover: TransferAuthority,
    new_authority: Identity,
    signed: bool,
)
    requires
        distribution.leaves(&after_distribution, amounts, now, signed),
    ensures
        after_distribution.game_state.total_distributed
            >= distribution.game_state.total_distributed,
        after_distribution.game_state.distribution_count
            >= distribution.game_state.distribution_count,
        distribution.outcome(amounts, signed) is Err ==> after_distribution.game_state
            == distribution.game_state,
        after_distribution.game_state.token_mint == distribution.game_state.token_mint,
        after_distribution.game_state.bump == distribution.game_state.bump,
        after_distribution.game_state.authority == distribution.game_state.authority,
        withdrawal.after(amount, signed).game_state == withdrawal.game_state,
        handover.after(new_authority).game_state.total_distributed
            == handover.game_state.total_distributed,
        handover.after(new_authority).game_state.distribution_count
            == handover.game_state.distribution_count,
        handover.after(new_authority).game_state.token_mint == handover.game_state.token_mint,
        handover.after(new_authority).game_state.bump == handover.game_state.bump,
{
    crate::distribution::lemma_batch_total_nonnegative(amounts);
}

/// After a handing over of authority the old authority is a stranger: unless
/// it is also the new one, its distributions are refused, and those of the
/// new authority are no longer refused as unauthorized.
pub proof fn law_handover_is_immediate(
    handover: TransferAuthority,
    new_authority: Identity,
    by_old: DistributeRewards,
    by_new: DistributeRewards,
    amounts: Seq<u64>,
    signed: bool,
)
    requires
        handover.outcome() is Ok,
        new_authority != handover.authority,
        by_old.game_state == handover.after(new_authority).game_state,
        by_old.authority == handover.authority,
        by_new.game_state == handover.after(new_authority).game_state,
        by_new.authority == new_authority,
    ensures
        by_old.outcome(amounts, signed) == Err::<(), TrumpwormError>(
            TrumpwormError::Unauthorized,
        ),
        by_new.outcome(amounts, signed) != Err::<(), TrumpwormError>(
            TrumpwormError::Unauthorized,
        ),
{
}

/// The derived authority depends on nothing but the program, the token
/// identity and the nonce: two derivations from the same three give the same
/// identity, or both give none.
pub proof fn law_derivation_repeats(
    first: Option<Identity>,
    second: Option<Identity>,
    program_id: Identity,
    token_mint: Identity,
    bump: u8,
)
    requires
        identity_view(first) == derived_authority(program_id@, token_mint@, bump),
        identity_view(second) == derived_authority(program_id@, token_mint@, bump),
    ensures
        first == second,
{
    if let Some(a) = first {
        if let Some(b) = second {
            Identity::lemma_same_bytes_same_identity(a, b);
        }
    }
}

/// Where the nonce kept in the pool does not derive the identity that
/// controls the treasury, no value leaves the treasury: a withdrawal by the
/// authority fails as a refused transfer, and so does every distribution by
/// the authority of a well-formed batch that pays anything.
pub proof fn law_wrong_nonce_fails_closed(
    distribution: DistributeRewards,
    amounts: Seq<u64>,
    paid: int,
    withdrawal: Withdraw,
    amount: u64,
)
    requires
        distribution.authority == distribution.game_state.authority,
        amounts.len() <= MAX_RECIPIENTS,
        amounts.len() == distribution.remaining_accounts@.len(),
        0 <= paid < amounts.len(),
        amounts[paid] != 0,
        !distribution.treasury_signs(),
        withdrawal.authority == withdrawal.game_state.authority,
        !withdrawal.treasury_signs(),
    ensures
        distribution.outcome(amounts, distribution.treasury_signs()) == Err::<
            (),
            TrumpwormError,
        >(TrumpwormError::TransferFailed),
        withdrawal.outcome(amount, withdrawal.treasury_signs()) == Err::<(), TrumpwormError>(
            TrumpwormError::TransferFailed,
        ),
{
    assert(!distribution.accepted(amounts, false, paid));
}

/// The transfers a batch asks for are its amounts that are not zero, each
/// for the recipient at its own position, in the order of the batch; and
/// they sum to the sum of the batch.
pub proof fn law_payouts_follow_batch(amounts: Seq<u64>)
    requires
        amounts.len() <= usize::MAX,
    ensures
        payouts_total(payouts_of(amounts)) == batch_total(amounts),
        payouts_of(amounts).len() <= amounts.len(),
        forall|k: int|
            0 <= k < payouts_of(amounts).len() ==> {
                let p: Payout = #[trigger] payouts_of(amounts)[k];
                &&& 0 <= p.recipient < amounts.len()
                &&& p.amount != 0
                &&& p.amount == amounts[p.recipient as int]
            },
        forall|j: int, k: int|
            0 <= j < k < payouts_of(amounts).len() ==> (#[trigger] payouts_of(
                amounts,
            )[j]).recipient < (#[trigger] payouts_of(amounts)[k]).recipient,
        forall|i: int|
            0 <= i < amounts.len() && amounts[i] != 0 ==> exists|k: int|
                0 <= k < payouts_of(amounts).len() && (#[trigger] payouts_of(
                    amounts,
                )[k]).recipient == i,
    decreases amounts.len(),
{
    if amounts.len() > 0 {
        let rest = amounts.drop_last();
        law_payouts_follow_batch(rest);
        let last = (amounts.len() - 1) as int;
        if amounts.last() != 0 {
            let added = Payout { recipient: last as usize, amount: amounts.last() };
            assert(payouts_of(amounts) == payouts_of(rest).push(added));
            assert(payouts_of(amounts).drop_last() =~= payouts_of(rest));
            assert forall|i: int| 0 <= i < amounts.len() && amounts[i] != 0 implies exists|k: int|
                0 <= k < payouts_of(amounts).len() && (#[trigger] payouts_of(
                    amounts,
                )[k]).recipient == i by {
                if i == last {
                    assert(payouts_of(amounts)[payouts_of(rest).len() as int].recipient == i);
                } else {
                    assert(rest[i] != 0);
                    let k = choose|k: int|
                        0 <= k < payouts_of(rest).len() && (#[trigger] payouts_of(
                            rest,
                        )[k]).recipient == i;
                    assert(payouts_of(amounts)[k].recipient == i);
                }
            }
        } else {
            assert forall|i: int| 0 <= i < amounts.len() && amounts[i] != 0 implies exists|k: int|
                0 <= k < payouts_of(amounts).len() && (#[trigger] payouts_of(
                    amounts,
                )[k]).recipient == i by {
                assert(rest[i] != 0);
                let k = choose|k: int|
                    0 <= k < payouts_of(rest).len() && (#[trigger] payouts_of(
                        rest,
                    )[k]).recipient == i;
                assert(payouts_of(amounts)[k].recipient == i);
            }
        }
    }
}

} // verus!
