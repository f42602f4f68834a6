use vstd::prelude::*;
use crate::address::Address;

verus! {

/// Global operating bounds, set by the admin.
#[derive(Clone, Copy, Debug)]
pub struct Params {
    /// The only address that may change these values or pause the program.
    pub admin: Address,
    /// While set, no new game can be created.
    pub paused: bool,
    /// Receives the fee taken from every settled pot.
    pub fee_collector: Address,
    /// Fee in basis points, at most 10000.
    pub fee: u16,
    /// Id handed to the next game; wraps to 0 after `u32::MAX`.
    pub next_game_id: u32,
    pub min_pot: u64,
    pub max_pot: u64,
    pub min_grid: u16,
    pub max_grid: u16,
    pub min_speed: u8,
    pub max_speed: u8,
    pub min_trail: u16,
    pub max_trail: u16,
    pub min_trail_cooldown: u8,
    pub max_trail_cooldown: u8,
    /// A player disconnecting more often than this is eliminated.
    pub max_disconnects: u32,
    /// A player disconnected for longer than this many seconds is eliminated.
    pub disconnect_max_sec: u32,
}

/// One ranked player on a leaderboard, with the figures it was ranked by.
#[derive(Clone, Copy, Debug)]
pub struct RankEntry {
    pub address: Address,
    pub earnings: i128,
    pub wins: u32,
    pub games: u64,
}

/// Global figures, recomputed whenever a game finishes.
#[derive(Clone, Debug)]
pub struct Metrics {
    /// Sum of the pots of all finished games.
    pub total_pot: u64,
    /// Sum of the pots of all games that started and have not finished.
    pub open_pot: u64,
    /// Up to ten eligible players, by earnings, highest first.
    pub earnings_leaderboard: Vec<RankEntry>,
    /// Up to ten eligible players, by share of games won, highest first.
    pub winrate_leaderboard: Vec<RankEntry>,
    /// Sum of all shares paid out to winners.
    pub earnings: u64,
}

/// Cross-game profile of one participant address.
#[derive(Clone, Debug)]
pub struct Player {
    pub wins: u32,
    pub losses: u32,
    /// Net native value won minus tickets paid.
    pub earnings: i128,
    pub name: String,
    /// Can only be changed when the number of completed games is a multiple of 42.
    pub title: String,
    pub picture: String,
    /// Game the player last joined; it binds only while that game is active.
    pub game_id: Option<u32>,
    /// Grid position, used by server-authoritative games only.
    pub position: u64,
    /// Game the player created; it binds only while that game is pending.
    pub creator_of: Option<u32>,
}

/// Lifecycle of a game: `Pending -> Cancelled` or `Pending -> Ongoing -> Finished`.
#[derive(Clone, Copy, Debug, PartialEq, Eq, Structural)]
pub enum GStatus {
    Pending,
    Cancelled,
    Ongoing,
    Finished,
}

/// Parameters of one game, fixed when it is created.
#[derive(Clone, Copy, Debug)]
pub struct GParams {
    pub max_players: u8,
    pub min_players: u8,
    /// Largest number of winners the pot may be split between.
    pub split_between: u8,
    pub speed: u8,
    pub base_trail_length: u8,
    pub trail_cooldown: u8,
    pub grid_size: u16,
    pub ticket_price: u64,
}

/// The state of one roster entry of a game.
#[derive(Clone, Copy, Debug)]
pub struct GPlayer {
    pub address: Address,
    pub trail_length: u16,
    pub alive: bool,
    pub disconnects: u32,
    /// When the current disconnection began, if the player is disconnected.
    pub disconnected_at: Option<u64>,
    /// Share of the pot owed to this player once the game has finished.
    pub payout: u64,
}

/// One game session.
#[derive(Clone, Debug)]
pub struct Game {
    pub id: u32,
    pub creator: Address,
    pub params: GParams,
    pub players: Vec<GPlayer>,
    pub pot: u64,
    pub status: GStatus,
}

/// A movement of value between a player's account and the program's custody,
/// to be carried out by the host's transfer instruction.
#[derive(Clone, Copy, Debug)]
pub enum Movement {
    /// Into custody, from the given account.
    Escrow { from: Address, amount: u64 },
    /// Out of custody, to the given account.
    Release { to: Address, amount: u64 },
}

/// Every way an operation can be refused. A refused operation changes nothing.
#[derive(Clone, Copy, Debug, PartialEq, Eq, Structural)]
pub enum GameError {
    /// The caller is not the admin.
    Unauthorized,
    /// A bound pair is inverted or the fee exceeds 10000 basis points.
    InvalidConfig,
    /// New games are paused.
    Paused,
    /// The creator already has a pending game.
    PendingGameExists,
    /// A game parameter lies outside the configured bounds.
    InvalidParams,
    /// `ticket_price * max_players` lies outside `[min_pot, max_pot]`.
    PotOutOfBounds,
    /// A record that the operation needs was not supplied, or is not the one linked.
    MissingAccount,
    NotPending,
    GameFull,
    /// The player is already in an active game.
    AlreadyInGame,
    /// Only the creator may cancel a game.
    NotCreator,
    NotEnoughPlayers,
    NotOngoing,
    /// The address is not on the game's roster.
    NotInGame,
    /// The player has already been eliminated.
    PlayerEliminated,
    /// The player is not disconnected.
    NotDisconnected,
    /// The winners are empty, too many, out of range or not in increasing order.
    InvalidWinners,
    /// A counter or sum would leave its integer type.
    ArithmeticOverflow,
    NotFinished,
    /// The payout was claimed already, or none is owed.
    AlreadyPaid,
    /// A title may be set only after a multiple of 42 completed games.
    TitleLocked,
    /// A profile text is longer than its bound.
    TooLong,
    /// Fewer accounts than the transfer instruction needs.
    NotEnoughAccounts,
    /// The fourth account is not the token program.
    InvalidTokenProgram,
}

} // verus!
