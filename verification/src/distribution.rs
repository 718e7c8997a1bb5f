//! The distribution engine: pays a bounded batch of amounts out of a pool's
//! treasury and advances the pool's counters, all or nothing.

use vstd::prelude::*;

use crate::authority::{derive_authority, derived_authority, identity_view};
use crate::error::TrumpwormError;
use crate::identity::Identity;
use crate::state::GameState;
use crate::token::{transfer, TokenAccount};

verus! {

/// The largest number of amounts one distribution may carry.
pub const MAX_RECIPIENTS: usize = 10;

/// The records one distribution works on.
#[derive(Clone, Debug, PartialEq, Eq)]
pub struct DistributeRewards {
    /// The program the pool belongs to.
    pub program_id: Identity,
    /// The pool.
    pub game_state: GameState,
    /// The pool's treasury.
    pub treasury: TokenAccount,
    /// The caller.
    pub authority: Identity,
    /// The accounts handed in as recipients, paired by position with the
    /// amounts. `None` stands for an account that holds no value of any
    /// token: it can be paid nothing.
    pub remaining_accounts: Vec<Option<TokenAccount>>,
}

/// One transfer that a batch asks for.
#[derive(Clone, Copy, Debug, PartialEq, Eq)]
pub struct Payout {
    /// Position of the recipient in the list of recipient accounts.
    pub recipient: usize,
    /// The amount to move, never zero.
    pub amount: u64,
}

/// The sum of a batch's amounts.
pub open spec fn batch_total(amounts: Seq<u64>) -> int
    decreases amounts.len(),
{
    if amounts.len() == 0 {
        0
    } else {
        batch_total(amounts.drop_last()) + amounts.last()
    }
}

/// The transfers a batch asks for, in the order in which they are made: one
/// for each amount that is not zero, in the order of the batch.
pub open spec fn payouts_of(amounts: Seq<u64>) -> Seq<Payout>
    decreases amounts.len(),
{
    if amounts.len() == 0 {
        Seq::empty()
    } else if amounts.last() == 0 {
        payouts_of(amounts.drop_last())
    } else {
        payouts_of(amounts.drop_last()).push(
            Payout { recipient: (amounts.len() - 1) as usize, amount: amounts.last() },
        )
    }
}

/// The sum of the amounts of a list of transfers.
pub open spec fn payouts_total(payouts: Seq<Payout>) -> int
    decreases payouts.len(),
{
    if payouts.len() == 0 {
        0
    } else {
        payouts_total(payouts.drop_last()) + payouts.last().amount
    }
}

/// The balance of an account handed in as a recipient: nothing where it
/// holds no value.
pub open spec fn holding_of(slot: Option<TokenAccount>) -> int {
    match slot {
        Some(account) => account.amount as int,
        None => 0,
    }
}

/// An account handed in as a recipient, after `amount` has been added to its
/// balance. An account that holds no value stays as it is.
pub open spec fn credited_slot(slot: Option<TokenAccount>, amount: u64) -> Option<TokenAccount> {
    match slot {
        Some(account) => Some(account.credited(amount)),
        None => None,
    }
}

/// The sum of the balances of a list of accounts handed in as recipients.
pub open spec fn holdings_total(accounts: Seq<Option<TokenAccount>>) -> int
    decreases accounts.len(),
{
    if accounts.len() == 0 {
        0
    } else {
        holdings_total(accounts.drop_last()) + holding_of(accounts.last())
    }
}

/// Adding one amount to a prefix of a batch adds it to the prefix's sum.
pub proof fn lemma_batch_total_step(amounts: Seq<u64>, i: int)
    requires
        0 <= i < amounts.len(),
    ensures
        batch_total(amounts.take(i + 1)) == batch_total(amounts.take(i)) + amounts[i],
{
    assert(amounts.take(i + 1).drop_last() =~= amounts.take(i));
}

/// No prefix of a batch sums to more than the batch, and no sum is negative.
pub proof fn lemma_batch_total_prefix(amounts: Seq<u64>, k: int)
    requires
        0 <= k <= amounts.len(),
    ensures
        0 <= batch_total(amounts.take(k)) <= batch_total(amounts),
    decreases amounts.len() - k,
{
    if k == amounts.len() {
        assert(amounts.take(k) =~= amounts);
        lemma_batch_total_nonnegative(amounts);
    } else {
        lemma_batch_total_prefix(amounts, k + 1);
        lemma_batch_total_step(amounts, k);
        lemma_batch_total_nonnegative(amounts.take(k));
    }
}

/// The sum of a batch is never negative.
pub proof fn lemma_batch_total_nonnegative(amounts: Seq<u64>)
    ensures
        0 <= batch_total(amounts),
    decreases amounts.len(),
{
    if amounts.len() > 0 {
        lemma_batch_total_nonnegative(amounts.drop_last());
    }
}

impl DistributeRewards {
    /// Whether the ledger makes every transfer the batch asks for: the
    /// treasury holds the whole sum, and for each amount that is not zero the
    /// treasury's controlling identity has signed, the recipient is an
    /// account that holds the treasury's token unit, and it can hold the
    /// amount on top of its balance.
    pub open spec fn payable(&self, amounts: Seq<u64>, signed: bool) -> bool {
        &&& batch_total(amounts) <= self.treasury.amount
        &&& forall|i: int| 0 <= i < amounts.len() ==> #[trigger] self.accepted(amounts, signed, i)
    }

    /// Whether the ledger accepts the transfer at position `i` of the batch,
    /// the treasury's balance aside. An amount of zero asks for no transfer,
    /// and the account at its position is not looked at.
    pub open spec fn accepted(&self, amounts: Seq<u64>, signed: bool, i: int) -> bool {
        amounts[i] != 0 ==> {
            &&& signed
            &&& self.remaining_accounts@[i] matches Some(recipient)
            &&& recipient.mint == self.treasury.mint
            &&& recipient.amount + amounts[i] <= u64::MAX
        }
    }

    /// How a distribution of `amounts` ends. `signed` says whether the
    /// treasury's controlling identity signs the transfers. The checks come in
    /// this order, and the first that fails decides.
    pub open spec fn outcome(&self, amounts: Seq<u64>, signed: bool) -> Result<
        (),
        TrumpwormError,
    > {
        if self.authority != self.game_state.authority {
            Err(TrumpwormError::Unauthorized)
        } else if amounts.len() > MAX_RECIPIENTS {
            Err(TrumpwormError::TooManyRecipients)
        } else if amounts.len() != self.remaining_accounts@.len() {
            Err(TrumpwormError::MismatchedRecipients)
        } else if !self.payable(amounts, signed) {
            Err(TrumpwormError::TransferFailed)
        } else if self.game_state.total_distributed + batch_total(amounts) > u64::MAX
            || self.game_state.distribution_count + 1 > u64::MAX {
            Err(TrumpwormError::Overflow)
        } else {
            Ok(())
        }
    }

    /// Whether `post` is what a successful distribution of `amounts` at time
    /// `now` leaves: each recipient credited with its amount (zero included),
    /// the treasury debited by the sum, the pool's total raised by the sum,
    /// its count by one, its time set to `now`, and nothing else changed.
    pub open spec fn distributed(
        &self,
        post: &DistributeRewards,
        amounts: Seq<u64>,
        now: i64,
    ) -> bool {
        &&& post.program_id == self.program_id
        &&& post.authority == self.authority
        &&& post.game_state == self.game_state.after_distribution(batch_total(amounts), now)
        &&& post.treasury == self.treasury.debited(batch_total(amounts) as u64)
        &&& post.remaining_accounts@.len() == self.remaining_accounts@.len()
        &&& forall|i: int|
            0 <= i < amounts.len() ==> #[trigger] post.remaining_accounts@[i] == credited_slot(
                self.remaining_accounts@[i],
                amounts[i],
            )
    }

    /// Whether `post` is what a distribution of `amounts` at time `now`
    /// leaves: what a successful one leaves, or the records as they were.
    pub open spec fn leaves(
        &self,
        post: &DistributeRewards,
        amounts: Seq<u64>,
        now: i64,
        signed: bool,
    ) -> bool {
        if self.outcome(amounts, signed) is Ok {
            self.distributed(post, amounts, now)
        } else {
            *post == *self
        }
    }

    /// Whether the nonce kept in the pool derives the identity that controls
    /// the treasury.
    pub open spec fn treasury_signs(&self) -> bool {
        derived_authority(self.program_id@, self.game_state.token_mint@, self.game_state.bump)
            == Some(self.treasury.owner@)
    }
}

/// The transfers that `amounts` asks for, in the order in which they are to
/// be made.
pub fn payouts(amounts: &Vec<u64>) -> (list: Vec<Payout>)
    ensures
        list@ == payouts_of(amounts@),
{
    let mut list: Vec<Payout> = Vec::new();
    let mut i: usize = 0;
    while i < amounts.len()
        invariant
            i <= amounts.len(),
            list@ == payouts_of(amounts@.take(i as int)),
        decreases amounts.len() - i,
    {
        let amount = amounts[i];
        proof {
            assert(amounts@.take(i + 1).drop_last() =~= amounts@.take(i as int));
        }
        if amount != 0 {
            list.push(Payout { recipient: i, amount });
        }
        i += 1;
    }
    assert(amounts@.take(i as int) =~= amounts@);
    list
}

/// Distributes `amounts` to the recipient accounts of `ctx`, with `signer` as
/// the identity that signs the transfers out of the treasury.
///
/// Nothing is kept of a call that fails: the transfers are made on copies,
/// and the records are replaced only when every transfer and every counter
/// update has succeeded.
pub fn distribute_signed(
    ctx: &mut DistributeRewards,
    amounts: &Vec<u64>,
    now: i64,
    signer: &Option<Identity>,
) -> (res: Result<(), TrumpwormError>)
    ensures
        res == old(ctx).outcome(amounts@, *signer == Some(old(ctx).treasury.owner)),
        old(ctx).leaves(final(ctx), amounts@, now, *signer == Some(old(ctx).treasury.owner)),
{
    if ctx.authority != ctx.game_state.authority {
        return Err(TrumpwormError::Unauthorized);
    }
    if amounts.len() > MAX_RECIPIENTS {
        return Err(TrumpwormError::TooManyRecipients);
    }
    if amounts.len() != ctx.remaining_accounts.len() {
        return Err(TrumpwormError::MismatchedRecipients);
    }
    let ghost signed = *signer == Some(ctx.treasury.owner);
    let mut treasury = ctx.treasury;
    let mut staged: Vec<Option<TokenAccount>> = Vec::new();
    let mut total: u64 = 0;
    let mut i: usize = 0;
    while i < amounts.len()
        invariant
            *ctx == *old(ctx),
            ctx.authority == ctx.game_state.authority,
            i <= amounts.len() <= MAX_RECIPIENTS,
            amounts.len() == ctx.remaining_accounts.len(),
            signed == (*signer == Some(ctx.treasury.owner)),
            staged@.len() == i,
            total == batch_total(amounts@.take(i as int)),
            total <= ctx.treasury.amount,
            treasury == ctx.treasury.debited(total),
            forall|j: int|
                0 <= j < i ==> #[trigger] staged@[j] == credited_slot(
                    ctx.remaining_accounts@[j],
                    amounts@[j],
                ),
            forall|j: int| 0 <= j < i ==> #[trigger] ctx.accepted(amounts@, signed, j),
        decreases amounts.len() - i,
    {
        let amount = amounts[i];
        let slot = ctx.remaining_accounts[i];
        proof {
            lemma_batch_total_step(amounts@, i as int);
            lemma_batch_total_prefix(amounts@, i + 1);
        }
        if amount == 0 {
            staged.push(slot);
        } else {
            let paid = match slot {
                Some(account) => {
                    let mut recipient = account;
                    match transfer(&mut treasury, &mut recipient, signer, amount) {
                        Ok(()) => Some(recipient),
                        Err(_) => None,
                    }
                },
                None => None,
            };
            match paid {
                Some(recipient) => {
                    total = total + amount;
                    staged.push(Some(recipient));
                },
                None => {
                    assert(!ctx.payable(amounts@, signed)) by {
                        if ctx.payable(amounts@, signed) {
                            assert(ctx.accepted(amounts@, signed, i as int));
                        }
                    }
                    return Err(TrumpwormError::TransferFailed);
                },
            }
        }
        i += 1;
    }
    proof {
        assert(amounts@.take(i as int) =~= amounts@);
        assert(ctx.payable(amounts@, signed));
    }
    let new_total = match ctx.game_state.total_distributed.checked_add(total) {
        Some(sum) => sum,
        None => {
            return Err(TrumpwormError::Overflow);
        },
    };
    let new_count = match ctx.game_state.distribution_count.checked_add(1) {
        Some(count) => count,
        None => {
            return Err(TrumpwormError::Overflow);
        },
    };
    ctx.game_state.total_distributed = new_total;
    ctx.game_state.distribution_count = new_count;
    ctx.game_state.last_distribution = now;
    ctx.treasury = treasury;
    ctx.remaining_accounts = staged;
    Ok(())
}

/// Distributes `amounts` to the recipient accounts of `ctx` at time `now`.
///
/// The caller must be the pool's authority, the batch may hold at most ten
/// amounts, and there must be one amount for each recipient account. The
/// identity that signs the transfers is derived anew from the pool's token
/// identity and the nonce kept in the pool; where it is not the one that
/// controls the treasury, every transfer is refused.
pub fn distribute_rewards(ctx: &mut DistributeRewards, amounts: Vec<u64>, now: i64) -> (res:
    Result<(), TrumpwormError>)
    ensures
        res == old(ctx).outcome(amounts@, old(ctx).treasury_signs()),
        old(ctx).leaves(final(ctx), amounts@, now, old(ctx).treasury_signs()),
{
    let signer = derive_authority(&ctx.program_id, &ctx.game_state.token_mint, ctx.game_state.bump);
    proof {
        if let Some(id) = signer {
            Identity::lemma_same_bytes_same_identity(id, ctx.treasury.owner);
        }
    }
    distribute_signed(ctx, &amounts, now, &signer)
}

} // verus!
