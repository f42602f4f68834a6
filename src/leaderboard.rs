use vstd::prelude::*;
use crate::address::{addr_lt, lemma_addr_lt_total, lemma_addr_lt_transitive};
use crate::types::RankEntry;

verus! {

/// Most entries a leaderboard holds.
pub const LEADERBOARD_SIZE: usize = 10;

/// Fewest completed games for a player to be ranked.
pub const MIN_RANKED_GAMES: u64 = 42;

/// A player with at least 42 completed games may be ranked.
pub open spec fn eligible(e: RankEntry) -> bool {
    e.games >= 42 && e.wins <= e.games
}

/// `a` has the strictly higher ranking key: earnings, or share of games won
/// (`a.wins / a.games > b.wins / b.games`, compared by cross-multiplying).
pub open spec fn key_gt(a: RankEntry, b: RankEntry, by_winrate: bool) -> bool {
    if by_winrate {
        (a.wins as int) * (b.games as int) > (b.wins as int) * (a.games as int)
    } else {
        a.earnings > b.earnings
    }
}

/// `a` and `b` have the same ranking key.
pub open spec fn key_eq(a: RankEntry, b: RankEntry, by_winrate: bool) -> bool {
    if by_winrate {
        (a.wins as int) * (b.games as int) == (b.wins as int) * (a.games as int)
    } else {
        a.earnings == b.earnings
    }
}

/// `a` is listed above `b`: a higher key, or the same key and a lower address.
pub open spec fn ranks_before(a: RankEntry, b: RankEntry, by_winrate: bool) -> bool {
    key_gt(a, b, by_winrate) || (key_eq(a, b, by_winrate) && addr_lt(a.address@, b.address@))
}

/// At most ten entries, all eligible, each listed strictly above the next, and
/// no address listed twice.
pub open spec fn board_wf(b: Seq<RankEntry>, by_winrate: bool) -> bool {
    &&& b.len() <= 10
    &&& forall|i: int, j: int| 0 <= i < j < b.len() ==> b[i].address@ != b[j].address@
    &&& forall|i: int| 0 <= i < b.len() ==> eligible(#[trigger] b[i])
    &&& forall|i: int, j: int| 0 <= i < j < b.len() ==> ranks_before(b[i], b[j], by_winrate)
}

proof fn lemma_ranks_before_transitive(a: RankEntry, b: RankEntry, c: RankEntry, w: bool)
    requires
        eligible(a),
        eligible(b),
        eligible(c),
        ranks_before(a, b, w),
        ranks_before(b, c, w),
    ensures
        ranks_before(a, c, w),
{
    if w {
        let (aw, ag, bw, bg, cw, cg) = (
            a.wins as int,
            a.games as int,
            b.wins as int,
            b.games as int,
            c.wins as int,
            c.games as int,
        );
        assert(aw * bg >= bw * ag && bw * cg >= cw * bg ==> aw * cg * bg >= cw * ag * bg)
            by (nonlinear_arith)
            requires
                ag > 0,
                bg > 0,
                cg > 0,
        ;
        assert(aw * cg * bg >= cw * ag * bg ==> aw * cg >= cw * ag) by (nonlinear_arith)
            requires
                bg > 0,
        ;
        assert((aw * bg > bw * ag && bw * cg >= cw * bg) || (aw * bg >= bw * ag && bw * cg > cw
            * bg) ==> aw * cg * bg > cw * ag * bg) by (nonlinear_arith)
            requires
                ag > 0,
                bg > 0,
                cg > 0,
        ;
        assert(aw * cg * bg > cw * ag * bg ==> aw * cg > cw * ag) by (nonlinear_arith)
            requires
                bg > 0,
        ;
    }
    if key_eq(a, b, w) && key_eq(b, c, w) {
        lemma_addr_lt_transitive(a.address@, b.address@, c.address@);
    }
}

proof fn lemma_ranks_before_total(a: RankEntry, b: RankEntry, w: bool)
    requires
        a.address@ != b.address@,
        !ranks_before(a, b, w),
    ensures
        ranks_before(b, a, w),
{
    assert(a.address@.len() == 32 && b.address@.len() == 32);
    lemma_addr_lt_total(a.address@, b.address@);
}

/// Executable form of `ranks_before`.
pub fn precedes_in_board(a: &RankEntry, b: &RankEntry, by_winrate: bool) -> (r: bool)
    ensures
        r == ranks_before(*a, *b, by_winrate),
{
    if by_winrate {
        proof {
            assert((a.wins as int) * (b.games as int) <= u32::MAX * u64::MAX) by (nonlinear_arith);
            assert((b.wins as int) * (a.games as int) <= u32::MAX * u64::MAX) by (nonlinear_arith);
        }
        let x = (a.wins as u128) * (b.games as u128);
        let y = (b.wins as u128) * (a.games as u128);
        if x != y {
            x > y
        } else {
            a.address.precedes(&b.address)
        }
    } else if a.earnings != b.earnings {
        a.earnings > b.earnings
    } else {
        a.address.precedes(&b.address)
    }
}

/// Re-ranks `board` with the latest figures of one player: any entry of that
/// player is dropped, the new one is placed by rank if the player is eligible, and
/// the board is cut to ten entries. The board stays eligible-only and strictly
/// ordered, with ties going to the lower address.
pub fn rank_player(board: &Vec<RankEntry>, cand: RankEntry, by_winrate: bool) -> (r: Vec<
    RankEntry,
>)
    requires
        board_wf(board@, by_winrate),
    ensures
        board_wf(r@, by_winrate),
        forall|i: int|
            0 <= i < r@.len() ==> r@[i] == cand || (board@.contains(#[trigger] r@[i])
                && r@[i].address@ != cand.address@),
        eligible(cand) ==> r@.contains(cand) || r@.len() == 10,
{
    let mut out: Vec<RankEntry> = Vec::new();
    let mut placed = !(cand.games >= MIN_RANKED_GAMES && cand.wins as u64 <= cand.games);
    let ghost mut cand_at: int = 0;
    let mut i: usize = 0;
    while i < board.len()
        invariant
            0 <= i <= board@.len(),
            board_wf(board@, by_winrate),
            placed == false ==> eligible(cand),
            out@.len() <= 10,
            forall|p: int| 0 <= p < out@.len() ==> eligible(#[trigger] out@[p]),
            forall|p: int, q: int|
                0 <= p < q < out@.len() ==> ranks_before(out@[p], out@[q], by_winrate),
            forall|p: int, j: int|
                0 <= p < out@.len() && i <= j < board@.len() && board@[j].address@
                    != cand.address@ ==> ranks_before(out@[p], board@[j], by_winrate),
            !placed ==> forall|p: int| 0 <= p < out@.len() ==> ranks_before(out@[p], cand, by_winrate),
            !placed ==> forall|p: int| 0 <= p < out@.len() ==> out@[p].address@ != cand.address@,
            forall|p: int, q: int| 0 <= p < q < out@.len() ==> out@[p].address@ != out@[q].address@,
            forall|p: int, j: int|
                0 <= p < out@.len() && i <= j < board@.len() && board@[j].address@
                    != cand.address@ ==> out@[p].address@ != board@[j].address@,
            forall|p: int|
                0 <= p < out@.len() ==> out@[p] == cand || (board@.contains(#[trigger] out@[p])
                    && out@[p].address@ != cand.address@),
            placed && eligible(cand) ==> (0 <= cand_at < out@.len() && out@[cand_at] == cand)
                || out@.len() == 10,
        decreases board@.len() - i,
    {
        let x = board[i];
        if !x.address.same_as(&cand.address) {
            if !placed && precedes_in_board(&cand, &x, by_winrate) {
                if out.len() < LEADERBOARD_SIZE {
                    proof {
                        assert forall|j: int|
                            i <= j < board@.len() && board@[j].address@ != cand.address@ implies ranks_before(
                            cand,
                            board@[j],
                            by_winrate,
                        ) by {
                            if j > i {
                                lemma_ranks_before_transitive(cand, x, board@[j], by_winrate);
                            }
                        }
                        cand_at = out@.len() as int;
                    }
                    out.push(cand);
                }
                placed = true;
            }
            if out.len() < LEADERBOARD_SIZE {
                proof {
                    assert(board@.contains(x)) by {
                        assert(board@[i as int] == x);
                    }
                    if !placed {
                        lemma_ranks_before_total(cand, x, by_winrate);
                    }
                    assert forall|j: int|
                        i < j < board@.len() implies ranks_before(x, board@[j], by_winrate) by {}
                }
                out.push(x);
            }
        }
        i = i + 1;
    }
    if !placed && out.len() < LEADERBOARD_SIZE {
        proof {
            cand_at = out@.len() as int;
        }
        out.push(cand);
    }
    proof {
        if eligible(cand) && out@.len() != 10 {
            assert(out@[cand_at] == cand);
        }
    }
    out
}

/// A well-formed earnings board lists at most ten eligible players in
/// descending order of earnings, no player twice, and of two players with equal
/// earnings the one with the lower address comes first.
pub proof fn lemma_earnings_board_order(b: Seq<RankEntry>, i: int, j: int)
    requires
        board_wf(b, false),
        0 <= i < j < b.len(),
    ensures
        b.len() <= 10,
        b[i].games >= 42 && b[j].games >= 42,
        b[i].earnings >= b[j].earnings,
        b[i].earnings == b[j].earnings ==> addr_lt(b[i].address@, b[j].address@),
        b[i].address@ != b[j].address@,
{
    assert(ranks_before(b[i], b[j], false));
    assert(eligible(b[i]) && eligible(b[j]));
}

} // verus!

