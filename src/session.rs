use vstd::prelude::*;
use crate::address::Address;
use crate::game::game_wf;
use crate::types::{GPlayer, GStatus, Game, GameError, Params};

verus! {

/// Index of the first roster entry of `a`, if any.
pub fn position_of(players: &Vec<GPlayer>, a: &Address) -> (r: Option<usize>)
    ensures
        r is Some ==> r.unwrap() < players@.len() && players@[r.unwrap() as int].address@ == a@
            && forall|j: int| 0 <= j < r.unwrap() ==> players@[j].address@ != a@,
        r is None ==> forall|j: int| 0 <= j < players@.len() ==> players@[j].address@ != a@,
{
    let mut i: usize = 0;
    while i < players.len()
        invariant
            0 <= i <= players@.len(),
            forall|j: int| 0 <= j < i ==> players@[j].address@ != a@,
        decreases players@.len() - i,
    {
        if players[i].address.same_as(a) {
            return Some(i);
        }
        i = i + 1;
    }
    None
}

/// The roster entry after a disconnection: one more disconnect, its start time
/// recorded, and eliminated once the count exceeds `max_disconnects`.
pub open spec fn disconnected(e: GPlayer, max_disconnects: u32, now: u64) -> GPlayer {
    GPlayer {
        disconnects: if e.disconnects == u32::MAX {
            u32::MAX
        } else {
            (e.disconnects + 1) as u32
        },
        disconnected_at: Some(now),
        alive: e.disconnects + 1 <= max_disconnects,
        ..e
    }
}

/// Seconds from `start` to `now`, or 0 if `now` is earlier.
pub open spec fn elapsed(start: u64, now: u64) -> int {
    if now >= start {
        now - start
    } else {
        0
    }
}

/// The roster entry after a reconnection: the start time is cleared, the count
/// is kept, and the player is eliminated if away longer than `disconnect_max_sec`.
pub open spec fn reconnected(e: GPlayer, disconnect_max_sec: u32, now: u64) -> GPlayer {
    GPlayer {
        disconnected_at: None,
        alive: elapsed(e.disconnected_at.unwrap(), now) <= disconnect_max_sec,
        ..e
    }
}

/// The error shared by both connection events, if any: the game must be
/// ongoing and the player on its roster and still alive.
pub open spec fn connection_error(g: Game, a: Address) -> Option<GameError> {
    if g.status != GStatus::Ongoing {
        Some(GameError::NotOngoing)
    } else if forall|j: int| 0 <= j < g.players.len() ==> g.players@[j].address@ != a@ {
        Some(GameError::NotInGame)
    } else if !g.players@[first_index(g.players@, a)].alive {
        Some(GameError::PlayerEliminated)
    } else {
        None
    }
}

/// Index of the first roster entry of `a`.
#[verifier::opaque]
pub open spec fn first_index(s: Seq<GPlayer>, a: Address) -> int {
    choose|i: int|
        0 <= i < s.len() && s[i].address@ == a@ && forall|j: int|
            0 <= j < i ==> s[j].address@ != a@
}

/// `first_index` is the index of the first entry with the given address.
pub proof fn lemma_first_index(s: Seq<GPlayer>, a: Address, i: int)
    requires
        0 <= i < s.len(),
        s[i].address@ == a@,
        forall|j: int| 0 <= j < i ==> s[j].address@ != a@,
    ensures
        first_index(s, a) == i,
{
    reveal(first_index);
    let k = first_index(s, a);
    assert(0 <= k < s.len() && s[k].address@ == a@ && forall|j: int|
        0 <= j < k ==> s[j].address@ != a@);
}

/// Records that a player of an ongoing game disconnected at `now`. Returns
/// whether the player was eliminated by it; escrowed funds stay where they are.
pub fn record_disconnect(game: &mut Game, config: &Params, player: &Address, now: u64) -> (r: Result<
    bool,
    GameError,
>)
    requires
        game_wf(*old(game)),
    ensures
        connection_error(*old(game), *player) is Some <==> r is Err,
        r is Err ==> r == Err::<bool, GameError>(connection_error(*old(game), *player).unwrap())
            && *final(game) == *old(game),
        r is Ok ==> {
            let i = first_index(old(game).players@, *player);
            let e = disconnected(old(game).players@[i], config.max_disconnects, now);
            &&& final(game).players@ == old(game).players@.update(i, e)
            &&& *final(game) == (Game { players: final(game).players, ..*old(game) })
            &&& r == Ok::<bool, GameError>(!e.alive)
        },
        game_wf(*final(game)),
{
    if game.status != GStatus::Ongoing {
        return Err(GameError::NotOngoing);
    }
    let i = match position_of(&game.players, player) {
        Some(i) => i,
        None => {
            return Err(GameError::NotInGame);
        },
    };
    proof {
        lemma_first_index(game.players@, *player, i as int);
    }
    let e = game.players[i];
    if !e.alive {
        return Err(GameError::PlayerEliminated);
    }
    let alive = e.disconnects < config.max_disconnects;
    let updated = GPlayer {
        disconnects: e.disconnects.saturating_add(1),
        disconnected_at: Some(now),
        alive,
        ..e
    };
    let ghost before = *game;
    game.players.set(i, updated);
    assert(game.players@ == before.players@.update(i as int, updated));
    Ok(!alive)
}

/// Records that a disconnected player of an ongoing game is back at `now`.
/// Returns whether the player was eliminated for staying away too long.
pub fn record_reconnect(game: &mut Game, config: &Params, player: &Address, now: u64) -> (r: Result<
    bool,
    GameError,
>)
    requires
        game_wf(*old(game)),
    ensures
        connection_error(*old(game), *player) is None && old(game).players@[first_index(
            old(game).players@,
            *player,
        )].disconnected_at is None ==> r == Err::<bool, GameError>(GameError::NotDisconnected),
        connection_error(*old(game), *player) is Some ==> r == Err::<bool, GameError>(
            connection_error(*old(game), *player).unwrap(),
        ),
        connection_error(*old(game), *player) is None && old(game).players@[first_index(
            old(game).players@,
            *player,
        )].disconnected_at is Some ==> r is Ok,
        r is Err ==> *final(game) == *old(game),
        r is Ok ==> {
            let i = first_index(old(game).players@, *player);
            let e = reconnected(old(game).players@[i], config.disconnect_max_sec, now);
            &&& connection_error(*old(game), *player) is None
            &&& old(game).players@[i].disconnected_at is Some
            &&& final(game).players@ == old(game).players@.update(i, e)
            &&& *final(game) == (Game { players: final(game).players, ..*old(game) })
            &&& r == Ok::<bool, GameError>(!e.alive)
        },
        game_wf(*final(game)),
{
    if game.status != GStatus::Ongoing {
        return Err(GameError::NotOngoing);
    }
    let i = match position_of(&game.players, player) {
        Some(i) => i,
        None => {
            return Err(GameError::NotInGame);
        },
    };
    proof {
        lemma_first_index(game.players@, *player, i as int);
    }
    let e = game.players[i];
    if !e.alive {
        return Err(GameError::PlayerEliminated);
    }
    let start = match e.disconnected_at {
        Some(t) => t,
        None => {
            return Err(GameError::NotDisconnected);
        },
    };
    let away = now.saturating_sub(start);
    let alive = away <= config.disconnect_max_sec as u64;
    let updated = GPlayer { disconnected_at: None, alive, ..e };
    let ghost before = *game;
    game.players.set(i, updated);
    assert(game.players@ == before.players@.update(i as int, updated));
    Ok(!alive)
}

} // verus!
