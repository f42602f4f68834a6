use vstd::prelude::*;
use crate::address::Address;
use crate::config::config_valid;
use crate::game::game_wf;
use crate::leaderboard::{board_wf, rank_player};
use crate::profile::{games_played, title_unlocked};
use crate::session::{first_index, lemma_first_index, position_of};
use crate::settlement::{split_pot, Split};
use crate::types::{GPlayer, GStatus, Game, GameError, Metrics, Movement, Params, Player, RankEntry};

verus! {

/// Winners are given as roster positions: at least one, at most
/// `split_between`, each on the roster, in strictly increasing order.
pub open spec fn winners_valid(ws: Seq<usize>, roster_len: int, split_between: int) -> bool {
    &&& 1 <= ws.len() <= split_between
    &&& forall|k: int| 0 <= k < ws.len() ==> ws[k] < roster_len
    &&& forall|k: int, l: int| 0 <= k < l < ws.len() ==> ws[k] < ws[l]
}

/// The share of the pot owed to roster position `i`.
pub open spec fn payout_for(i: int, ws: Seq<usize>, s: Split) -> u64 {
    if ws[0] == i {
        s.first_share
    } else if ws.contains(i as usize) {
        s.share
    } else {
        0
    }
}

/// The profile of a participant once the game is settled.
pub open spec fn settled(p: Player, won: bool, payout: u64, ticket: u64) -> Player {
    Player {
        wins: if won {
            (p.wins + 1) as u32
        } else {
            p.wins
        },
        losses: if won {
            p.losses
        } else {
            (p.losses + 1) as u32
        },
        earnings: (p.earnings + payout - ticket) as i128,
        game_id: None,
        ..p
    }
}

/// The settled profile fits its integer fields.
pub open spec fn settle_fits(p: Player, won: bool, payout: u64, ticket: u64) -> bool {
    &&& (won ==> p.wins + 1 <= u32::MAX)
    &&& (!won ==> p.losses + 1 <= u32::MAX)
    &&& i128::MIN <= p.earnings + payout - ticket <= i128::MAX
}

/// The figures a profile is ranked by.
pub open spec fn rank_entry(a: Address, p: Player) -> RankEntry {
    RankEntry { address: a, earnings: p.earnings, wins: p.wins, games: (p.wins + p.losses) as u64 }
}

/// Both leaderboards are well formed.
pub open spec fn metrics_wf(m: Metrics) -> bool {
    board_wf(m.earnings_leaderboard@, false) && board_wf(m.winrate_leaderboard@, true)
}

/// The error that `finish_game` returns before any arithmetic, if any.
pub open spec fn finish_error(g: Game, ws: Seq<usize>, n_records: int) -> Option<GameError> {
    if g.status != GStatus::Ongoing {
        Some(GameError::NotOngoing)
    } else if n_records != g.players.len() {
        Some(GameError::MissingAccount)
    } else if !winners_valid(ws, g.players.len() as int, g.params.split_between as int) {
        Some(GameError::InvalidWinners)
    } else {
        None
    }
}

/// The split that settles `g` between `n` winners under fee `fee_bps`.
pub open spec fn split_of(g: Game, fee_bps: u16, n: int) -> Split {
    let fee = (g.pot * fee_bps / 10000) as u64;
    let rest = g.pot - fee;
    Split {
        fee,
        first_share: (rest / n + rest % n) as u64,
        share: (rest / n) as u64,
    }
}

proof fn lemma_winner_scan(ws: Seq<usize>, w: int, i: int)
    requires
        0 <= w <= ws.len(),
        0 <= i <= usize::MAX,
        forall|k: int, l: int| 0 <= k < l < ws.len() ==> ws[k] < ws[l],
        forall|k: int| 0 <= k < w ==> ws[k] < i,
        forall|k: int| w <= k < ws.len() ==> ws[k] >= i,
    ensures
        ws.contains(i as usize) <==> (w < ws.len() && ws[w] == i),
        (w < ws.len() && ws[w] == i) ==> forall|k: int| w + 1 <= k < ws.len() ==> ws[k] >= i + 1,
        !(w < ws.len() && ws[w] == i) ==> forall|k: int| w <= k < ws.len() ==> ws[k] >= i + 1,
        (w < ws.len() && ws[w] == i) ==> (ws[0] == i <==> w == 0),
{
    if w < ws.len() && ws[w] == i {
        assert(ws[w] == i as usize);
        if w > 0 {
            assert(ws[0] < ws[w]);
        }
    } else {
        assert forall|k: int| w <= k < ws.len() implies ws[k] >= i + 1 by {
            if k > w {
                assert(ws[w] < ws[k]);
            }
        }
        if ws.contains(i as usize) {
            let k = choose|k: int| 0 <= k < ws.len() && ws[k] == i as usize;
            assert(ws[k] == i);
        }
    }
}

/// Checks that `ws` lists valid winners for a roster of `n` entries.
pub fn check_winners(ws: &Vec<usize>, n: usize, split_between: u8) -> (r: bool)
    ensures
        r == winners_valid(ws@, n as int, split_between as int),
{
    let nw = ws.len();
    if nw < 1 || nw > split_between as usize {
        return false;
    }
    let mut k: usize = 0;
    while k < nw
        invariant
            0 <= k <= nw,
            nw == ws@.len(),
            forall|j: int| 0 <= j < k ==> ws@[j] < n,
            forall|p: int, q: int| 0 <= p < q < k ==> ws@[p] < ws@[q],
        decreases nw - k,
    {
        if ws[k] >= n {
            return false;
        }
        if k > 0 && ws[k - 1] >= ws[k] {
            assert(!(ws@[k - 1] < ws@[k as int]));
            return false;
        }
        k = k + 1;
    }
    true
}

/// The settled roster and profiles of a finished game, or an overflow error if
/// some profile would leave its integer fields.
fn settle_all(
    roster: &Vec<GPlayer>,
    records: &Vec<Player>,
    ws: &Vec<usize>,
    split: Split,
    ticket: u64,
    split_between: u8,
) -> (r: Result<(Vec<GPlayer>, Vec<Player>), GameError>)
    requires
        roster@.len() == records@.len(),
        winners_valid(ws@, roster@.len() as int, split_between as int),
    ensures
        r is Err ==> r == Err::<(Vec<GPlayer>, Vec<Player>), GameError>(GameError::ArithmeticOverflow),
        r is Err <==> exists|j: int|
            0 <= j < roster@.len() && !settle_fits(
                #[trigger] records@[j],
                ws@.contains(j as usize),
                payout_for(j, ws@, split),
                ticket,
            ),
        r is Ok ==> {
            let (nr, np) = r.unwrap();
            &&& nr@.len() == roster@.len()
            &&& np@.len() == roster@.len()
            &&& forall|j: int|
                0 <= j < roster@.len() ==> {
                    &&& nr@[j] == (GPlayer { payout: payout_for(j, ws@, split), ..roster@[j] })
                    &&& np@[j] == settled(
                        records@[j],
                        ws@.contains(j as usize),
                        payout_for(j, ws@, split),
                        ticket,
                    )
                }
        },
{
    let n = roster.len();
    let nw = ws.len();
    let mut new_roster: Vec<GPlayer> = Vec::new();
    let mut new_records: Vec<Player> = Vec::new();
    let mut w: usize = 0;
    let mut i: usize = 0;
    while i < n
        invariant
            0 <= i <= n,
            n == roster@.len(),
            n == records@.len(),
            nw == ws@.len(),
            winners_valid(ws@, n as int, split_between as int),
            0 <= w <= nw,
            forall|k: int| 0 <= k < w ==> ws@[k] < i,
            forall|k: int| w <= k < nw ==> ws@[k] >= i,
            new_roster@.len() == i,
            new_records@.len() == i,
            forall|j: int|
                0 <= j < i ==> settle_fits(
                    #[trigger] records@[j],
                    ws@.contains(j as usize),
                    payout_for(j, ws@, split),
                    ticket,
                ),
            forall|j: int|
                0 <= j < i ==> {
                    &&& new_roster@[j] == (GPlayer { payout: payout_for(j, ws@, split), ..roster@[j] })
                    &&& new_records@[j] == settled(
                        records@[j],
                        ws@.contains(j as usize),
                        payout_for(j, ws@, split),
                        ticket,
                    )
                },
        decreases n - i,
    {
        proof {
            lemma_winner_scan(ws@, w as int, i as int);
        }
        let won = w < nw && ws[w] == i;
        let payout = if won && w == 0 {
            split.first_share
        } else if won {
            split.share
        } else {
            0
        };
        let p = &records[i];
        let wins = if won {
            match p.wins.checked_add(1) {
                Some(v) => v,
                None => {
                    return Err(GameError::ArithmeticOverflow);
                },
            }
        } else {
            p.wins
        };
        let losses = if won {
            p.losses
        } else {
            match p.losses.checked_add(1) {
                Some(v) => v,
                None => {
                    return Err(GameError::ArithmeticOverflow);
                },
            }
        };
        let earnings = match p.earnings.checked_add(payout as i128 - ticket as i128) {
            Some(v) => v,
            None => {
                return Err(GameError::ArithmeticOverflow);
            },
        };
        let e = roster[i];
        new_roster.push(GPlayer { payout, ..e });
        new_records.push(
            Player {
                wins,
                losses,
                earnings,
                name: p.name.clone(),
                title: p.title.clone(),
                picture: p.picture.clone(),
                game_id: None,
                position: p.position,
                creator_of: p.creator_of,
            },
        );
        if won {
            w = w + 1;
        }
        i = i + 1;
    }
    Ok((new_roster, new_records))
}

/// Settles an ongoing game: the fee goes to the fee collector, the rest is
/// owed to the winners in equal shares (the remainder to the first), every
/// participant's record and both leaderboards are updated, and the game is
/// finished. `records[i]` is the profile of roster position `i`; `winners` are
/// roster positions in increasing order. Returns the fee transfer; each winner
/// takes its share with `claim_payout`.
pub fn finish_game(
    game: &mut Game,
    config: &Params,
    metrics: &mut Metrics,
    winners: &Vec<usize>,
    records: &mut Vec<Player>,
) -> (r: Result<Movement, GameError>)
    requires
        game_wf(*old(game)),
        config_valid(*config),
        metrics_wf(*old(metrics)),
    ensures
        finish_error(*old(game), winners@, old(records)@.len() as int) is Some ==> r == Err::<
            Movement,
            GameError,
        >(finish_error(*old(game), winners@, old(records)@.len() as int).unwrap()),
        r is Err ==> *final(game) == *old(game) && *final(metrics) == *old(metrics) && *final(records)
            == *old(records),
        metrics_wf(*final(metrics)),
        r is Err && finish_error(*old(game), winners@, old(records)@.len() as int) is None ==> r
            == Err::<Movement, GameError>(GameError::ArithmeticOverflow),
        ({
            let g = *old(game);
            let s = split_of(g, config.fee, winners@.len() as int);
            finish_error(g, winners@, old(records)@.len() as int) is None && old(metrics).total_pot
                + g.pot <= u64::MAX && old(metrics).earnings + g.pot - s.fee <= u64::MAX && forall|
                i: int,
            |
                0 <= i < g.players@.len() ==> settle_fits(
                    #[trigger] old(records)@[i],
                    winners@.contains(i as usize),
                    payout_for(i, winners@, s),
                    g.params.ticket_price,
                )
        }) ==> r is Ok,
        r is Ok ==> {
            let g = *old(game);
            let s = split_of(g, config.fee, winners@.len() as int);
            &&& finish_error(g, winners@, old(records)@.len() as int) is None
            &&& r == Ok::<Movement, GameError>(
                Movement::Release { to: config.fee_collector, amount: s.fee },
            )
            &&& s.fee + s.first_share + s.share * (winners@.len() - 1) == g.pot
            &&& final(game).status == GStatus::Finished
            &&& final(game).pot == g.pot - s.fee
            &&& final(game).id == g.id && final(game).creator == g.creator && final(game).params
                == g.params
            &&& final(game).players@.len() == g.players@.len()
            &&& final(records)@.len() == g.players@.len()
            &&& forall|i: int|
                0 <= i < g.players@.len() ==> {
                    &&& final(game).players@[i] == (GPlayer {
                        payout: payout_for(i, winners@, s),
                        ..g.players@[i]
                    })
                    &&& final(records)@[i] == settled(
                        old(records)@[i],
                        winners@.contains(i as usize),
                        payout_for(i, winners@, s),
                        g.params.ticket_price,
                    )
                }
            &&& final(metrics).total_pot == old(metrics).total_pot + g.pot
            &&& final(metrics).open_pot == (if old(metrics).open_pot >= g.pot {
                old(metrics).open_pot - g.pot
            } else {
                0
            })
            &&& final(metrics).earnings == old(metrics).earnings + g.pot - s.fee
        },
{
    if game.status != GStatus::Ongoing {
        return Err(GameError::NotOngoing);
    }
    let n = game.players.len();
    if records.len() != n {
        return Err(GameError::MissingAccount);
    }
    let nw = winners.len();
    if !check_winners(winners, n, game.params.split_between) {
        return Err(GameError::InvalidWinners);
    }
    let pot = game.pot;
    let ticket = game.params.ticket_price;
    let split = split_pot(pot, config.fee, nw as u64);
    let total_pot = match metrics.total_pot.checked_add(pot) {
        Some(v) => v,
        None => {
            return Err(GameError::ArithmeticOverflow);
        },
    };
    let paid_out = match metrics.earnings.checked_add(pot - split.fee) {
        Some(v) => v,
        None => {
            return Err(GameError::ArithmeticOverflow);
        },
    };
    let (new_roster, new_records) = match settle_all(
        &game.players,
        records,
        winners,
        split,
        ticket,
        game.params.split_between,
    ) {
        Ok(v) => v,
        Err(e) => {
            return Err(e);
        },
    };
    *records = new_records;
    game.players = new_roster;
    game.pot = pot - split.fee;
    game.status = GStatus::Finished;
    metrics.total_pot = total_pot;
    metrics.open_pot = metrics.open_pot.saturating_sub(pot);
    metrics.earnings = paid_out;
    let ghost g1 = *game;
    let ghost r1 = *records;
    let mut j: usize = 0;
    while j < n
        invariant
            0 <= j <= n,
            *game == g1,
            *records == r1,
            metrics.total_pot == total_pot,
            metrics.earnings == paid_out,
            metrics.open_pot == (if old(metrics).open_pot >= pot {
                old(metrics).open_pot - pot
            } else {
                0
            }),
            n == game.players@.len(),
            n == records@.len(),
            metrics_wf(*metrics),
        decreases n - j,
    {
        let rec = &records[j];
        let entry = RankEntry {
            address: game.players[j].address,
            earnings: rec.earnings,
            wins: rec.wins,
            games: rec.wins as u64 + rec.losses as u64,
        };
        metrics.earnings_leaderboard = rank_player(&metrics.earnings_leaderboard, entry, false);
        metrics.winrate_leaderboard = rank_player(&metrics.winrate_leaderboard, entry, true);
        j = j + 1;
    }
    Ok(Movement::Release { to: config.fee_collector, amount: split.fee })
}

/// Pays a winner of a finished game the share owed to it, once.
pub fn claim_payout(game: &mut Game, player: &Address) -> (r: Result<Movement, GameError>)
    ensures
        old(game).status != GStatus::Finished ==> r == Err::<Movement, GameError>(
            GameError::NotFinished,
        ),
        old(game).status == GStatus::Finished && (forall|j: int|
            0 <= j < old(game).players@.len() ==> old(game).players@[j].address@ != player@) ==> r
            == Err::<Movement, GameError>(GameError::NotInGame),
        old(game).status == GStatus::Finished && (exists|j: int|
            0 <= j < old(game).players@.len() && old(game).players@[j].address@ == player@)
            ==> {
            let e = old(game).players@[first_index(old(game).players@, *player)];
            &&& e.payout == 0 ==> r == Err::<Movement, GameError>(GameError::AlreadyPaid)
            &&& e.payout > old(game).pot ==> r == Err::<Movement, GameError>(
                GameError::ArithmeticOverflow,
            )
            &&& 0 < e.payout <= old(game).pot ==> r is Ok
        },
        r is Err ==> *final(game) == *old(game),
        r is Ok ==> exists|i: int|
            0 <= i < old(game).players@.len() && old(game).players@[i].address@ == player@
                && old(game).players@[i].payout > 0 && r == Ok::<Movement, GameError>(
                Movement::Release { to: old(game).players@[i].address, amount: old(game).players@[i].payout },
            ) && final(game).players@ == old(game).players@.update(
                i,
                GPlayer { payout: 0, ..old(game).players@[i] },
            ) && final(game).pot == old(game).pot - old(game).players@[i].payout
                && *final(game) == (Game { players: final(game).players, pot: final(game).pot, ..*old(game) }),
{
    if game.status != GStatus::Finished {
        return Err(GameError::NotFinished);
    }
    let i = match position_of(&game.players, player) {
        Some(i) => i,
        None => {
            return Err(GameError::NotInGame);
        },
    };
    proof {
        lemma_first_index(game.players@, *player, i as int);
    }
    let e = game.players[i];
    if e.payout == 0 {
        return Err(GameError::AlreadyPaid);
    }
    if game.pot < e.payout {
        return Err(GameError::ArithmeticOverflow);
    }
    game.pot = game.pot - e.payout;
    game.players.set(i, GPlayer { payout: 0, ..e });
    Ok(Movement::Release { to: e.address, amount: e.payout })
}

/// Every finished game counts exactly once in each participant's record, so
/// the title unlocks after 42 completed games and at none of the 41 before.
pub proof fn lemma_title_cadence(p: Player, won: bool, payout: u64, ticket: u64)
    requires
        settle_fits(p, won, payout, ticket),
    ensures
        games_played(settled(p, won, payout, ticket)) == games_played(p) + 1,
        games_played(p) == 41 ==> title_unlocked(settled(p, won, payout, ticket)),
        1 <= games_played(p) <= 41 ==> !title_unlocked(p),
        games_played(p) == 42 ==> title_unlocked(p),
{
}

} // verus!

