//! Treasury accounting and authority-gated reward distribution.
//!
//! A pool holds the metadata and running counters of one token unit's reward
//! fund; its treasury holds the fund itself, under the control of an identity
//! that is derived from the pool and that no one holds a key for. Value
//! leaves a treasury only through a distribution or a withdrawal, both open
//! to the pool's authority alone, and each call either happens as a whole or
//! leaves every record as it was.
//!
//! - [`identity`]: the 32-byte keys that name callers, tokens and accounts.
//! - [`authority`]: the derived identity that signs for a treasury.
//! - [`token`]: value-holding accounts and the transfer between two of them.
//! - [`state`]: the pool and the player record.
//! - [`pool`]: creation, deposit, withdrawal, handing over of authority.
//! - [`distribution`]: the payout of a bounded batch.
//! - [`player`]: registration and statistics of players.
//! - [`error`]: the named failures.
//! - [`laws`]: what holds of every call, proved.

pub mod authority;
pub mod distribution;
pub mod error;
pub mod identity;
pub mod laws;
pub mod player;
pub mod pool;
pub mod state;
pub mod token;

pub use distribution::{distribute_rewards, distribute_signed, payouts, DistributeRewards, Payout};
pub use error::{ErrorKind, TrumpwormError};
pub use identity::Identity;
pub use player::{register_player, update_stats, RegisterPlayer, UpdateStats};
pub use pool::{
    deposit, initialize, initialize_at, transfer_authority, withdraw, withdraw_signed, Deposit,
    Initialize, TransferAuthority, Withdraw,
};
pub use state::{GameState, PlayerAccount};
pub use token::TokenAccount;
