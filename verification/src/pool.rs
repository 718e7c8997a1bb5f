//! The pool's life outside distribution: creation, deposit, withdrawal and
//! the handing over of authority.

use vstd::prelude::*;

use crate::authority::{
    derive_authority, derived_authority, find_authority, is_creation_bump, no_creation_bump,
};
use crate::error::TrumpwormError;
use crate::identity::Identity;
use crate::state::GameState;
use crate::token::{transfer, transfer_permitted, TokenAccount};

verus! {

/// The records the creation of a pool works on. The two slots stand for the
/// places where the pool and the treasury of `token_mint` are kept: empty
/// until they are created, and never emptied again.
#[derive(Clone, Copy, Debug, PartialEq, Eq)]
pub struct Initialize {
    /// The program the pool belongs to.
    pub program_id: Identity,
    /// The pool of `token_mint`, once created.
    pub game_state: Option<GameState>,
    /// The treasury of `token_mint`, once created.
    pub treasury: Option<TokenAccount>,
    /// The token unit the pool is for.
    pub token_mint: Identity,
    /// The caller, who becomes the pool's authority.
    pub authority: Identity,
}

/// The records a withdrawal works on.
#[derive(Clone, Copy, Debug, PartialEq, Eq)]
pub struct Withdraw {
    /// The program the pool belongs to.
    pub program_id: Identity,
    /// The pool.
    pub game_state: GameState,
    /// The pool's treasury.
    pub treasury: TokenAccount,
    /// The account that receives the amount.
    pub destination: TokenAccount,
    /// The caller.
    pub authority: Identity,
}

/// The records a deposit works on.
#[derive(Clone, Copy, Debug, PartialEq, Eq)]
pub struct Deposit {
    /// The treasury that receives the amount.
    pub treasury: TokenAccount,
    /// The caller's own account, which gives the amount.
    pub source: TokenAccount,
    /// The caller, who signs the transfer.
    pub depositor: Identity,
}

/// The records a handing over of authority works on.
#[derive(Clone, Copy, Debug, PartialEq, Eq)]
pub struct TransferAuthority {
    /// The pool.
    pub game_state: GameState,
    /// The caller.
    pub authority: Identity,
}

impl Initialize {
    /// How the creation ends, when the search for the treasury's signing
    /// identity has given `found`.
    pub open spec fn outcome(&self, found: Option<(Identity, u8)>) -> Result<(), TrumpwormError> {
        if self.game_state is Some || self.treasury is Some {
            Err(TrumpwormError::AlreadyExists)
        } else if found is None {
            Err(TrumpwormError::NoDerivedAuthority)
        } else {
            Ok(())
        }
    }

    /// How the creation ends: it fails where the pool or the treasury is
    /// already there, then where no nonzero nonce derives a signing identity
    /// for the token, and succeeds in every other case, whoever calls and
    /// whatever nonce the call brings.
    pub open spec fn creation_outcome(&self) -> Result<(), TrumpwormError> {
        if self.game_state is Some || self.treasury is Some {
            Err(TrumpwormError::AlreadyExists)
        } else if no_creation_bump(self.program_id@, self.token_mint@) {
            Err(TrumpwormError::NoDerivedAuthority)
        } else {
            Ok(())
        }
    }

    /// The records after a successful creation: a pool with the caller as
    /// authority, counters at zero and `bump` as its nonce, and an empty
    /// treasury at `address`, controlled by `address` itself.
    pub open spec fn created(&self, bump: u8, address: Identity) -> Initialize {
        Initialize {
            game_state: Some(GameState::fresh(self.authority, address, self.token_mint, bump)),
            treasury: Some(
                TokenAccount { key: address, mint: self.token_mint, owner: address, amount: 0 },
            ),
            ..*self
        }
    }

    /// The records a call leaves: those of a successful creation, or the
    /// records as they were.
    pub open spec fn after(&self, bump: u8, found: Option<(Identity, u8)>) -> Initialize {
        match found {
            Some((address, _)) if self.outcome(found) is Ok => self.created(bump, address),
            _ => *self,
        }
    }
}

impl Withdraw {
    /// Whether the nonce kept in the pool derives the identity that controls
    /// the treasury.
    pub open spec fn treasury_signs(&self) -> bool {
        derived_authority(self.program_id@, self.game_state.token_mint@, self.game_state.bump)
            == Some(self.treasury.owner@)
    }

    /// How a withdrawal of `amount` ends. `signed` says whether the
    /// treasury's controlling identity signs the transfer.
    pub open spec fn outcome(&self, amount: u64, signed: bool) -> Result<(), TrumpwormError> {
        if self.authority != self.game_state.authority {
            Err(TrumpwormError::Unauthorized)
        } else if !transfer_permitted(self.treasury, self.destination, signed, amount) {
            Err(TrumpwormError::TransferFailed)
        } else {
            Ok(())
        }
    }

    /// The records a call leaves: on success the treasury debited and the
    /// destination credited, the pool as it was; else everything as it was.
    pub open spec fn after(&self, amount: u64, signed: bool) -> Withdraw {
        if self.outcome(amount, signed) is Ok {
            Withdraw {
                treasury: self.treasury.debited(amount),
                destination: self.destination.credited(amount),
                ..*self
            }
        } else {
            *self
        }
    }
}

impl Deposit {
    /// How a deposit of `amount` ends.
    pub open spec fn outcome(&self, amount: u64) -> Result<(), TrumpwormError> {
        if amount == 0 {
            Err(TrumpwormError::ZeroAmount)
        } else if !transfer_permitted(
            self.source,
            self.treasury,
            self.depositor == self.source.owner,
            amount,
        ) {
            Err(TrumpwormError::TransferFailed)
        } else {
            Ok(())
        }
    }

    /// The records a call leaves: on success the source debited and the
    /// treasury credited; else everything as it was.
    pub open spec fn after(&self, amount: u64) -> Deposit {
        if self.outcome(amount) is Ok {
            Deposit {
                treasury: self.treasury.credited(amount),
                source: self.source.debited(amount),
                ..*self
            }
        } else {
            *self
        }
    }
}

impl TransferAuthority {
    /// How a handing over of authority ends.
    pub open spec fn outcome(&self) -> Result<(), TrumpwormError> {
        if self.authority != self.game_state.authority {
            Err(TrumpwormError::Unauthorized)
        } else {
            Ok(())
        }
    }

    /// The records a call leaves: on success the pool with `new_authority`
    /// in place of the old one and nothing else changed; else everything as
    /// it was.
    pub open spec fn after(&self, new_authority: Identity) -> TransferAuthority {
        if self.outcome() is Ok {
            TransferAuthority {
                game_state: GameState { authority: new_authority, ..self.game_state },
                ..*self
            }
        } else {
            *self
        }
    }
}

/// Creates the pool and the treasury of `ctx.token_mint`, when the search for
/// the treasury's signing identity has given `found`: the identity and the
/// nonce that derives it.
pub fn initialize_at(ctx: &mut Initialize, bump: u8, found: Option<(Identity, u8)>) -> (res:
    Result<(), TrumpwormError>)
    ensures
        res == old(ctx).outcome(found),
        *final(ctx) == old(ctx).after(bump, found),
{
    if ctx.game_state.is_some() || ctx.treasury.is_some() {
        return Err(TrumpwormError::AlreadyExists);
    }
    match found {
        None => Err(TrumpwormError::NoDerivedAuthority),
        Some((address, _)) => {
            ctx.game_state = Some(
                GameState {
                    authority: ctx.authority,
                    treasury: address,
                    token_mint: ctx.token_mint,
                    total_distributed: 0,
                    distribution_count: 0,
                    last_distribution: 0,
                    bump,
                },
            );
            ctx.treasury = Some(
                TokenAccount { key: address, mint: ctx.token_mint, owner: address, amount: 0 },
            );
            Ok(())
        },
    }
}

/// Creates the pool of `ctx.token_mint` together with its treasury. The
/// caller becomes the authority, both counters start at zero, and `bump` is
/// kept as the nonce from which later calls derive the signing identity.
///
/// The treasury is placed under the identity derived from the largest nonzero
/// nonce that derives one. A `bump` other than that nonce is kept all the
/// same: the pool is created, and every later transfer out of its treasury is
/// refused.
///
/// A second creation for the same token fails and leaves the first untouched.
/// Where `bump` is the nonce of the creation, the nonce kept in the pool
/// derives the identity that controls the treasury.
pub fn initialize(ctx: &mut Initialize, bump: u8) -> (res: Result<(), TrumpwormError>)
    ensures
        res == old(ctx).creation_outcome(),
        res is Err ==> *final(ctx) == *old(ctx),
        res is Ok ==> final(ctx).treasury is Some && *final(ctx) == old(ctx).created(
            bump,
            final(ctx).treasury->0.key,
        ) && exists|nonce: u8|
            is_creation_bump(old(ctx).program_id@, old(ctx).token_mint@, nonce)
                && #[trigger] derived_authority(old(ctx).program_id@, old(ctx).token_mint@, nonce)
                == Some(final(ctx).treasury->0.key@),
        res is Ok && is_creation_bump(old(ctx).program_id@, old(ctx).token_mint@, bump)
            ==> derived_authority(
            final(ctx).program_id@,
            final(ctx).game_state->0.token_mint@,
            final(ctx).game_state->0.bump,
        ) == Some(final(ctx).treasury->0.owner@),
{
    if ctx.game_state.is_some() || ctx.treasury.is_some() {
        return Err(TrumpwormError::AlreadyExists);
    }
    let found = find_authority(&ctx.program_id, &ctx.token_mint);
    proof {
        if let Some((_, nonce)) = found {
            assert(derived_authority(ctx.program_id@, ctx.token_mint@, nonce) is Some);
            assert(!no_creation_bump(ctx.program_id@, ctx.token_mint@));
            if is_creation_bump(ctx.program_id@, ctx.token_mint@, bump) {
                assert(derived_authority(ctx.program_id@, ctx.token_mint@, bump) is Some);
                assert(bump == nonce);
            }
        }
    }
    initialize_at(ctx, bump, found)
}

/// Moves `amount` from the treasury to the destination, with `signer` as the
/// identity that signs the transfer. No counter of the pool moves.
pub fn withdraw_signed(ctx: &mut Withdraw, amount: u64, signer: &Option<Identity>) -> (res: Result<
    (),
    TrumpwormError,
>)
    ensures
        res == old(ctx).outcome(amount, *signer == Some(old(ctx).treasury.owner)),
        *final(ctx) == old(ctx).after(amount, *signer == Some(old(ctx).treasury.owner)),
{
    if ctx.authority != ctx.game_state.authority {
        return Err(TrumpwormError::Unauthorized);
    }
    let mut treasury = ctx.treasury;
    let mut destination = ctx.destination;
    match transfer(&mut treasury, &mut destination, signer, amount) {
        Err(e) => Err(e),
        Ok(()) => {
            ctx.treasury = treasury;
            ctx.destination = destination;
            Ok(())
        },
    }
}

/// Moves `amount` from the treasury to the destination. The caller must be
/// the pool's authority. The identity that signs the transfer is derived anew
/// from the pool's token identity and the nonce kept in the pool. No counter
/// of the pool moves.
pub fn withdraw(ctx: &mut Withdraw, amount: u64) -> (res: Result<(), TrumpwormError>)
    ensures
        res == old(ctx).outcome(amount, old(ctx).treasury_signs()),
        *final(ctx) == old(ctx).after(amount, old(ctx).treasury_signs()),
{
    let signer = derive_authority(&ctx.program_id, &ctx.game_state.token_mint, ctx.game_state.bump);
    proof {
        if let Some(id) = signer {
            Identity::lemma_same_bytes_same_identity(id, ctx.treasury.owner);
        }
    }
    withdraw_signed(ctx, amount, &signer)
}

/// Moves `amount` from the caller's own account into the treasury, signed by
/// the caller. Anyone may deposit; nothing may be deposited of nothing. No
/// counter of any pool moves.
pub fn deposit(ctx: &mut Deposit, amount: u64) -> (res: Result<(), TrumpwormError>)
    ensures
        res == old(ctx).outcome(amount),
        *final(ctx) == old(ctx).after(amount),
{
    if amount == 0 {
        return Err(TrumpwormError::ZeroAmount);
    }
    let mut source = ctx.source;
    let mut treasury = ctx.treasury;
    let signer = Some(ctx.depositor);
    match transfer(&mut source, &mut treasury, &signer, amount) {
        Err(e) => Err(e),
        Ok(()) => {
            ctx.source = source;
            ctx.treasury = treasury;
            Ok(())
        },
    }
}

/// Makes `new_authority` the pool's authority, at once and without
/// conditions. The caller must be the authority being replaced.
pub fn transfer_authority(ctx: &mut TransferAuthority, new_authority: Identity) -> (res: Result<
    (),
    TrumpwormError,
>)
    ensures
        res == old(ctx).outcome(),
        *final(ctx) == old(ctx).after(new_authority),
{
    if ctx.authority != ctx.game_state.authority {
        return Err(TrumpwormError::Unauthorized);
    }
    ctx.game_state.authority = new_authority;
    Ok(())
}

} // verus!
