//! Economic and lifecycle core of a wagered, grid-based multiplayer racing game
//! run on a replicated ledger: configuration bounds, game sessions with escrowed
//! pots, fee settlement, player profiles and the global leaderboards.
//!
//! Every handler works on the records it is handed and either applies all of its
//! changes or returns an error with every record left as it was. Value movements
//! are returned as plain `Movement`s for the host to carry out.
pub mod address;
pub mod config;
pub mod types;
pub mod settlement;
pub mod game;
pub mod leaderboard;
pub mod session;
pub mod payout;
pub mod profile;
pub mod transfer;
