//! The records the ledger keeps: one pool per token unit, one record per
//! player.

use vstd::prelude::*;

use crate::identity::Identity;

verus! {

/// A pool: the metadata and running counters of one token unit's reward fund.
#[derive(Clone, Copy, Debug, PartialEq, Eq)]
pub struct GameState {
    /// The one identity that may distribute, withdraw and hand over authority.
    pub authority: Identity,
    /// The address of the pool's treasury account.
    pub treasury: Identity,
    /// The token unit the pool holds. Never changes.
    pub token_mint: Identity,
    /// Sum of all amounts paid out by successful distributions.
    pub total_distributed: u64,
    /// Number of successful distributions.
    pub distribution_count: u64,
    /// Time of the latest successful distribution.
    pub last_distribution: i64,
    /// The nonce from which the treasury's signing identity is derived again
    /// on every privileged call. Never changes.
    pub bump: u8,
}

/// A player's record.
#[derive(Clone, Debug, PartialEq, Eq)]
pub struct PlayerAccount {
    /// The identity the record belongs to.
    pub wallet: Identity,
    /// Display name, at most fifteen characters.
    pub username: String,
    /// Sum of all scores reported.
    pub total_score: u64,
    /// Sum of all kills reported.
    pub total_kills: u32,
    /// Number of sessions reported.
    pub games_played: u32,
    /// Tokens earned over the player's lifetime.
    pub rewards_earned: u64,
    /// Time the record was created.
    pub registered_at: i64,
}

/// The longest display name, in characters.
pub const MAX_USERNAME_LEN: usize = 15;

impl GameState {
    /// A pool as it stands right after creation: counters at zero.
    pub open spec fn fresh(
        authority: Identity,
        treasury: Identity,
        token_mint: Identity,
        bump: u8,
    ) -> GameState {
        GameState {
            authority,
            treasury,
            token_mint,
            total_distributed: 0,
            distribution_count: 0,
            last_distribution: 0,
            bump,
        }
    }

    /// This pool after a distribution of `total` at time `now`.
    pub open spec fn after_distribution(self, total: int, now: i64) -> GameState {
        GameState {
            total_distributed: (self.total_distributed + total) as u64,
            distribution_count: (self.distribution_count + 1) as u64,
            last_distribution: now,
            ..self
        }
    }
}

impl PlayerAccount {
    /// Whether the record keeps its invariant: a name of at most fifteen
    /// characters.
    pub open spec fn wf(&self) -> bool {
        self.username@.len() <= MAX_USERNAME_LEN
    }
}

} // verus!
