use vstd::prelude::*;
use crate::address::Address;
use crate::types::{GParams, GPlayer, GStatus, Game, GameError, Metrics, Movement, Params, Player};

verus! {

/// `ticket_price * max_players`: the pot of a full game.
pub open spec fn full_pot(p: GParams) -> int {
    (p.ticket_price as int) * (p.max_players as int)
}

/// The game parameters are well formed and lie within the configured bounds.
pub open spec fn params_in_bounds(c: Params, p: GParams) -> bool {
    &&& 1 <= p.min_players <= p.max_players
    &&& 1 <= p.split_between <= p.max_players
    &&& c.min_grid <= p.grid_size <= c.max_grid
    &&& c.min_speed <= p.speed <= c.max_speed
    &&& c.min_trail <= p.base_trail_length as u16 <= c.max_trail
    &&& c.min_trail_cooldown <= p.trail_cooldown <= c.max_trail_cooldown
}

/// The pot of a full game lies within `[min_pot, max_pot]`.
pub open spec fn pot_in_bounds(c: Params, p: GParams) -> bool {
    c.min_pot <= full_pot(p) <= c.max_pot
}

/// A pending or ongoing game holds one ticket per roster entry, and its roster
/// never outgrows `max_players`.
pub open spec fn game_wf(g: Game) -> bool {
    &&& full_pot(g.params) <= u64::MAX
    &&& g.players.len() <= g.params.max_players
    &&& (g.status == GStatus::Pending || g.status == GStatus::Ongoing) ==> g.pot == (
    g.params.ticket_price as int) * g.players.len()
}

/// The game is Pending or Ongoing.
pub open spec fn is_active(s: GStatus) -> bool {
    s == GStatus::Pending || s == GStatus::Ongoing
}

/// Next value of the game counter: one more, and 0 after `u32::MAX`.
pub open spec fn next_id(id: u32) -> u32 {
    if id == u32::MAX {
        0
    } else {
        (id + 1) as u32
    }
}

/// The error that `create_game` returns, if any.
pub open spec fn create_error(
    c: Params,
    creator: Player,
    previous: Option<&Game>,
    p: GParams,
) -> Option<GameError> {
    if c.paused {
        Some(GameError::Paused)
    } else if creator.creator_of is Some && (previous is None || previous.unwrap().id
        != creator.creator_of.unwrap()) {
        Some(GameError::MissingAccount)
    } else if creator.creator_of is Some && previous.unwrap().status == GStatus::Pending {
        Some(GameError::PendingGameExists)
    } else if !params_in_bounds(c, p) {
        Some(GameError::InvalidParams)
    } else if !pot_in_bounds(c, p) {
        Some(GameError::PotOutOfBounds)
    } else {
        None
    }
}

/// Checks the parameters of a new game against the configured bounds.
pub fn check_params(c: &Params, p: &GParams) -> (r: Result<(), GameError>)
    ensures
        !params_in_bounds(*c, *p) <==> r == Err::<(), GameError>(GameError::InvalidParams),
        params_in_bounds(*c, *p) && !pot_in_bounds(*c, *p) <==> r == Err::<(), GameError>(
            GameError::PotOutOfBounds,
        ),
        r is Ok <==> params_in_bounds(*c, *p) && pot_in_bounds(*c, *p),
{
    if !(1 <= p.min_players && p.min_players <= p.max_players && 1 <= p.split_between
        && p.split_between <= p.max_players && c.min_grid <= p.grid_size && p.grid_size
        <= c.max_grid && c.min_speed <= p.speed && p.speed <= c.max_speed && c.min_trail
        <= p.base_trail_length as u16 && p.base_trail_length as u16 <= c.max_trail
        && c.min_trail_cooldown <= p.trail_cooldown && p.trail_cooldown
        <= c.max_trail_cooldown) {
        return Err(GameError::InvalidParams);
    }
    proof {
        let t = p.ticket_price as int;
        let m = p.max_players as int;
        assert(t * m <= u64::MAX * 255) by (nonlinear_arith)
            requires
                0 <= t <= u64::MAX,
                0 <= m <= 255,
        ;
    }
    let full = (p.ticket_price as u128) * (p.max_players as u128);
    if full < c.min_pot as u128 || full > c.max_pot as u128 {
        return Err(GameError::PotOutOfBounds);
    }
    Ok(())
}

/// Creates a pending game with an empty roster and the next id, and links it to
/// its creator. `previous` is the game that `creator.creator_of` names, if any:
/// while that game is pending no new one can be created.
///
/// The id counter wraps to 0 after `u32::MAX`. After a full wrap a new game can
/// be given the id of an old game that is still open; whoever stores games by
/// id must not let the new record replace the open one.
pub fn create_game(
    config: &mut Params,
    creator_addr: Address,
    creator: &mut Player,
    previous: Option<&Game>,
    params: GParams,
) -> (r: Result<Game, GameError>)
    ensures
        create_error(*old(config), *old(creator), previous, params) is Some <==> r is Err,
        r is Err ==> r == Err::<Game, GameError>(
            create_error(*old(config), *old(creator), previous, params).unwrap(),
        ) && *final(config) == *old(config) && *final(creator) == *old(creator),
        r is Ok ==> {
            let g = r.unwrap();
            &&& g.id == old(config).next_game_id
            &&& g.creator == creator_addr
            &&& g.params == params
            &&& g.players@.len() == 0
            &&& g.pot == 0
            &&& g.status == GStatus::Pending
            &&& game_wf(g)
            &&& *final(config) == (Params { next_game_id: next_id(old(config).next_game_id), ..*old(config) })
            &&& *final(creator) == (Player { creator_of: Some(g.id), ..*old(creator) })
        },
{
    if config.paused {
        return Err(GameError::Paused);
    }
    if let Some(pending_id) = creator.creator_of {
        match previous {
            None => {
                return Err(GameError::MissingAccount);
            },
            Some(g) => {
                if g.id != pending_id {
                    return Err(GameError::MissingAccount);
                }
                if g.status == GStatus::Pending {
                    return Err(GameError::PendingGameExists);
                }
            },
        }
    }
    check_params(config, &params)?;
    let id = config.next_game_id;
    config.next_game_id = if id == u32::MAX {
        0
    } else {
        id + 1
    };
    creator.creator_of = Some(id);
    let g = Game { id, creator: creator_addr, params, players: Vec::new(), pot: 0, status: GStatus::Pending };
    assert(g.players@.len() == 0);
    assert(game_wf(g));
    Ok(g)
}

/// A fresh roster entry for a player who has just joined.
pub open spec fn joined(a: Address) -> GPlayer {
    GPlayer { address: a, trail_length: 0, alive: true, disconnects: 0, disconnected_at: None, payout: 0 }
}

/// The error that `join_game` returns, if any.
pub open spec fn join_error(g: Game, player: Player, current: Option<&Game>) -> Option<GameError> {
    if g.status != GStatus::Pending {
        Some(GameError::NotPending)
    } else if g.players.len() >= g.params.max_players {
        Some(GameError::GameFull)
    } else if player.game_id == Some(g.id) {
        Some(GameError::AlreadyInGame)
    } else if player.game_id is Some && (current is None || current.unwrap().id
        != player.game_id.unwrap()) {
        Some(GameError::MissingAccount)
    } else if player.game_id is Some && is_active(current.unwrap().status) {
        Some(GameError::AlreadyInGame)
    } else {
        None
    }
}

/// Adds a player to a pending game that has room, escrowing one ticket.
/// `current` is the game that `player.game_id` names, if any: while that game is
/// active the player cannot join another.
pub fn join_game(
    game: &mut Game,
    player_addr: Address,
    player: &mut Player,
    current: Option<&Game>,
) -> (r: Result<Movement, GameError>)
    requires
        game_wf(*old(game)),
    ensures
        join_error(*old(game), *old(player), current) is Some <==> r is Err,
        r is Err ==> r == Err::<Movement, GameError>(
            join_error(*old(game), *old(player), current).unwrap(),
        ) && *final(game) == *old(game) && *final(player) == *old(player),
        r is Ok ==> {
            &&& r == Ok::<Movement, GameError>(
                Movement::Escrow { from: player_addr, amount: old(game).params.ticket_price },
            )
            &&& final(game).players@ == old(game).players@.push(joined(player_addr))
            &&& final(game).pot == old(game).pot + old(game).params.ticket_price
            &&& final(game).id == old(game).id && final(game).creator == old(game).creator
            &&& final(game).params == old(game).params && final(game).status == old(game).status
            &&& *final(player) == (Player { game_id: Some(old(game).id), ..*old(player) })
        },
        game_wf(*final(game)),
{
    if game.status != GStatus::Pending {
        return Err(GameError::NotPending);
    }
    if game.players.len() >= game.params.max_players as usize {
        return Err(GameError::GameFull);
    }
    if let Some(id) = player.game_id {
        if id == game.id {
            return Err(GameError::AlreadyInGame);
        }
        match current {
            None => {
                return Err(GameError::MissingAccount);
            },
            Some(g) => {
                if g.id != id {
                    return Err(GameError::MissingAccount);
                }
                if g.status == GStatus::Pending || g.status == GStatus::Ongoing {
                    return Err(GameError::AlreadyInGame);
                }
            },
        }
    }
    let ticket = game.params.ticket_price;
    proof {
        let n = game.players.len() as int;
        let t = ticket as int;
        let m = game.params.max_players as int;
        assert(t * (n + 1) <= t * m) by (nonlinear_arith)
            requires
                n + 1 <= m,
                t >= 0,
        ;
        assert(t * (n + 1) == t * n + t) by (nonlinear_arith);
    }
    game.players.push(
        GPlayer {
            address: player_addr,
            trail_length: 0,
            alive: true,
            disconnects: 0,
            disconnected_at: None,
            payout: 0,
        },
    );
    game.pot = game.pot + ticket;
    player.game_id = Some(game.id);
    Ok(Movement::Escrow { from: player_addr, amount: ticket })
}

/// The refund of one roster entry's ticket.
pub open spec fn refund(e: GPlayer, ticket: u64) -> Movement {
    Movement::Release { to: e.address, amount: ticket }
}

/// Cancels a pending game on its creator's request: every ticket goes back to
/// its player, the pot is emptied and the creator's link is cleared.
pub fn cancel_game(game: &mut Game, caller: &Address, creator: &mut Player) -> (r: Result<
    Vec<Movement>,
    GameError,
>)
    requires
        game_wf(*old(game)),
    ensures
        old(game).status != GStatus::Pending ==> r == Err::<Vec<Movement>, GameError>(
            GameError::NotPending,
        ),
        old(game).status == GStatus::Pending && old(game).creator@ != caller@ ==> r == Err::<
            Vec<Movement>,
            GameError,
        >(GameError::NotCreator),
        old(game).status == GStatus::Pending && old(game).creator@ == caller@ ==> r is Ok,
        r is Err ==> *final(game) == *old(game) && *final(creator) == *old(creator),
        r is Ok ==> {
            let refunds = r.unwrap()@;
            &&& refunds.len() == old(game).players@.len()
            &&& forall|i: int|
                0 <= i < refunds.len() ==> refunds[i] == refund(
                    old(game).players@[i],
                    old(game).params.ticket_price,
                )
            &&& *final(game) == (Game { pot: 0, status: GStatus::Cancelled, ..*old(game) })
            &&& final(creator).creator_of == (if old(creator).creator_of == Some(old(game).id) {
                None
            } else {
                old(creator).creator_of
            })
            &&& *final(creator) == (Player { creator_of: final(creator).creator_of, ..*old(creator) })
        },
        game_wf(*final(game)),
{
    if game.status != GStatus::Pending {
        return Err(GameError::NotPending);
    }
    if !game.creator.same_as(caller) {
        return Err(GameError::NotCreator);
    }
    let ticket = game.params.ticket_price;
    let mut refunds: Vec<Movement> = Vec::new();
    let mut i: usize = 0;
    while i < game.players.len()
        invariant
            0 <= i <= game.players@.len(),
            refunds@.len() == i,
            forall|j: int| 0 <= j < i ==> refunds@[j] == refund(game.players@[j], ticket),
        decreases game.players@.len() - i,
    {
        refunds.push(Movement::Release { to: game.players[i].address, amount: ticket });
        i = i + 1;
    }
    game.pot = 0;
    game.status = GStatus::Cancelled;
    if creator.creator_of == Some(game.id) {
        creator.creator_of = None;
    }
    Ok(refunds)
}

/// A roster entry as the game starts: alive, connected, with the base trail.
pub open spec fn started(e: GPlayer, trail: u8) -> GPlayer {
    GPlayer {
        address: e.address,
        trail_length: trail as u16,
        alive: true,
        disconnects: 0,
        disconnected_at: None,
        payout: 0,
    }
}

/// Starts a pending game once it has `min_players` players: every roster entry
/// gets its initial state, and the pot is counted as open.
pub fn start_game(game: &mut Game, metrics: &mut Metrics) -> (r: Result<(), GameError>)
    requires
        game_wf(*old(game)),
    ensures
        old(game).status != GStatus::Pending ==> r == Err::<(), GameError>(GameError::NotPending),
        old(game).status == GStatus::Pending && old(game).players@.len()
            < old(game).params.min_players ==> r == Err::<(), GameError>(
            GameError::NotEnoughPlayers,
        ),
        old(game).status == GStatus::Pending && old(game).players@.len()
            >= old(game).params.min_players && old(metrics).open_pot + old(game).pot
            > u64::MAX ==> r == Err::<(), GameError>(GameError::ArithmeticOverflow),
        old(game).status == GStatus::Pending && old(game).players@.len()
            >= old(game).params.min_players && old(metrics).open_pot + old(game).pot
            <= u64::MAX ==> r is Ok,
        r is Err ==> *final(game) == *old(game) && *final(metrics) == *old(metrics),
        r is Ok ==> {
            &&& final(game).players@.len() == old(game).players@.len()
            &&& forall|i: int|
                0 <= i < old(game).players@.len() ==> final(game).players@[i] == started(
                    old(game).players@[i],
                    old(game).params.base_trail_length,
                )
            &&& *final(game) == (Game {
                players: final(game).players,
                status: GStatus::Ongoing,
                ..*old(game)
            })
            &&& *final(metrics) == (Metrics {
                open_pot: (old(metrics).open_pot + old(game).pot) as u64,
                ..*old(metrics)
            })
        },
        game_wf(*final(game)),
{
    if game.status != GStatus::Pending {
        return Err(GameError::NotPending);
    }
    if game.players.len() < game.params.min_players as usize {
        return Err(GameError::NotEnoughPlayers);
    }
    let open = match metrics.open_pot.checked_add(game.pot) {
        Some(v) => v,
        None => {
            return Err(GameError::ArithmeticOverflow);
        },
    };
    let trail = game.params.base_trail_length as u16;
    let mut fresh: Vec<GPlayer> = Vec::new();
    let mut i: usize = 0;
    while i < game.players.len()
        invariant
            0 <= i <= game.players@.len(),
            fresh@.len() == i,
            trail == game.params.base_trail_length as u16,
            forall|j: int|
                0 <= j < i ==> fresh@[j] == started(game.players@[j], game.params.base_trail_length),
        decreases game.players@.len() - i,
    {
        let address = game.players[i].address;
        fresh.push(
            GPlayer {
                address,
                trail_length: trail,
                alive: true,
                disconnects: 0,
                disconnected_at: None,
                payout: 0,
            },
        );
        i = i + 1;
    }
    game.players = fresh;
    game.status = GStatus::Ongoing;
    metrics.open_pot = open;
    Ok(())
}

/// Whatever the configured bounds, a game whose full pot
/// (`ticket_price * max_players`) lies outside `[min_pot, max_pot]` is refused,
/// and `create_game` then returns no game and changes no record.
pub proof fn lemma_pot_outside_bounds_refused(
    c: Params,
    creator: Player,
    previous: Option<&Game>,
    p: GParams,
)
    requires
        !pot_in_bounds(c, p),
    ensures
        create_error(c, creator, previous, p) is Some,
{
}

/// While the game a player created is pending, that player cannot create
/// another; once it is cancelled or finished, the link no longer stands in the
/// way and only the other conditions decide.
pub proof fn lemma_one_pending_game_per_creator(
    c: Params,
    creator: Player,
    g: &Game,
    p: GParams,
)
    requires
        creator.creator_of == Some(g.id),
    ensures
        g.status == GStatus::Pending ==> create_error(c, creator, Some(g), p) is Some,
        g.status == GStatus::Pending && !c.paused ==> create_error(c, creator, Some(g), p) == Some(
            GameError::PendingGameExists,
        ),
        g.status == GStatus::Cancelled || g.status == GStatus::Finished ==> create_error(
            c,
            creator,
            Some(g),
            p,
        ) == create_error(c, Player { creator_of: None, ..creator }, None, p),
{
}

/// A pending game takes joiners while its roster is below `max_players` and
/// refuses the next one with `GameFull`; since each join adds one entry and one
/// ticket, exactly `max_players` joins succeed and a refused join leaves the
/// pot as it was.
pub proof fn lemma_join_capacity(g: Game, player: Player, current: Option<&Game>)
    requires
        game_wf(g),
        g.status == GStatus::Pending,
        player.game_id is None,
    ensures
        join_error(g, player, current) is None <==> g.players.len() < g.params.max_players,
        g.players.len() >= g.params.max_players ==> join_error(g, player, current) == Some(
            GameError::GameFull,
        ),
{
}

} // verus!

