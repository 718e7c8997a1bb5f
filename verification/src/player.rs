//! Player records: registration and the authority-gated update of statistics.

use vstd::prelude::*;
use vstd::string::StrSliceExecFns;

use crate::error::TrumpwormError;
use crate::identity::Identity;
use crate::state::{GameState, PlayerAccount, MAX_USERNAME_LEN};

verus! {

/// The records a registration works on. The slot stands for the place where
/// the record of `player` is kept: empty until the player registers.
#[derive(Clone, Debug, PartialEq, Eq)]
pub struct RegisterPlayer {
    /// The record of `player`, once created.
    pub player_account: Option<PlayerAccount>,
    /// The caller.
    pub player: Identity,
}

/// The records an update of statistics works on.
#[derive(Clone, Debug, PartialEq, Eq)]
pub struct UpdateStats {
    /// The pool whose authority reports the session.
    pub game_state: GameState,
    /// The record of the player who took part.
    pub player_account: PlayerAccount,
    /// The caller.
    pub authority: Identity,
}

impl RegisterPlayer {
    /// How a registration under `username` ends.
    pub open spec fn outcome(&self, username: Seq<char>) -> Result<(), TrumpwormError> {
        if self.player_account is Some {
            Err(TrumpwormError::AlreadyExists)
        } else if username.len() > MAX_USERNAME_LEN {
            Err(TrumpwormError::UsernameTooLong)
        } else {
            Ok(())
        }
    }

    /// The records a call leaves: on success a record for the caller under
    /// `username`, all counters at zero, registered at `now`; else
    /// everything as it was.
    pub open spec fn after(&self, username: String, now: i64) -> RegisterPlayer {
        if self.outcome(username@) is Ok {
            RegisterPlayer {
                player_account: Some(
                    PlayerAccount {
                        wallet: self.player,
                        username,
                        total_score: 0,
                        total_kills: 0,
                        games_played: 0,
                        rewards_earned: 0,
                        registered_at: now,
                    },
                ),
                player: self.player,
            }
        } else {
            *self
        }
    }
}

impl UpdateStats {
    /// How the report of a session with `score` and `kills` ends.
    pub open spec fn outcome(&self, score: u64, kills: u32) -> Result<(), TrumpwormError> {
        if self.authority != self.game_state.authority {
            Err(TrumpwormError::Unauthorized)
        } else if self.player_account.total_score + score > u64::MAX
            || self.player_account.total_kills + kills > u32::MAX
            || self.player_account.games_played + 1 > u32::MAX {
            Err(TrumpwormError::Overflow)
        } else {
            Ok(())
        }
    }

    /// The records a call leaves: on success the player's score and kills
    /// raised by what was reported and the sessions by one; else everything
    /// as it was.
    pub open spec fn after(&self, score: u64, kills: u32) -> UpdateStats {
        if self.outcome(score, kills) is Ok {
            UpdateStats {
                player_account: PlayerAccount {
                    total_score: (self.player_account.total_score + score) as u64,
                    total_kills: (self.player_account.total_kills + kills) as u32,
                    games_played: (self.player_account.games_played + 1) as u32,
                    ..self.player_account
                },
                ..*self
            }
        } else {
            *self
        }
    }
}

/// Creates the caller's record under `username` at time `now`. A player
/// registers once, and a name has at most fifteen characters.
pub fn register_player(ctx: &mut RegisterPlayer, username: String, now: i64) -> (res: Result<
    (),
    TrumpwormError,
>)
    ensures
        res == old(ctx).outcome(username@),
        *final(ctx) == old(ctx).after(username, now),
        res is Ok ==> final(ctx).player_account->0.wf(),
{
    if ctx.player_account.is_some() {
        return Err(TrumpwormError::AlreadyExists);
    }
    if username.as_str().unicode_len() > MAX_USERNAME_LEN {
        return Err(TrumpwormError::UsernameTooLong);
    }
    ctx.player_account = Some(
        PlayerAccount {
            wallet: ctx.player,
            username,
            total_score: 0,
            total_kills: 0,
            games_played: 0,
            rewards_earned: 0,
            registered_at: now,
        },
    );
    Ok(())
}

/// Adds one session's `score` and `kills` to a player's record. The caller
/// must be the pool's authority. A counter that cannot hold the sum fails the
/// call and changes nothing.
pub fn update_stats(ctx: &mut UpdateStats, score: u64, kills: u32) -> (res: Result<
    (),
    TrumpwormError,
>)
    ensures
        res == old(ctx).outcome(score, kills),
        *final(ctx) == old(ctx).after(score, kills),
        old(ctx).player_account.wf() ==> final(ctx).player_account.wf(),
{
    if ctx.authority != ctx.game_state.authority {
        return Err(TrumpwormError::Unauthorized);
    }
    let total_score = match ctx.player_account.total_score.checked_add(score) {
        Some(sum) => sum,
        None => {
            return Err(TrumpwormError::Overflow);
        },
    };
    let total_kills = match ctx.player_account.total_kills.checked_add(kills) {
        Some(sum) => sum,
        None => {
            return Err(TrumpwormError::Overflow);
        },
    };
    let games_played = match ctx.player_account.games_played.checked_add(1) {
        Some(sum) => sum,
        None => {
            return Err(TrumpwormError::Overflow);
        },
    };
    ctx.player_account.total_score = total_score;
    ctx.player_account.total_kills = total_kills;
    ctx.player_account.games_played = games_played;
    Ok(())
}

} // verus!
