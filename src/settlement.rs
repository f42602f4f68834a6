use vstd::prelude::*;

verus! {

/// The fee taken from a pot: `pot * fee_bps / 10000`, rounded down.
pub open spec fn fee_of(pot: int, fee_bps: int) -> int {
    pot * fee_bps / 10000
}

/// How a settled pot divides: the fee, the share of the first winner, and the
/// share of every other winner.
#[derive(Clone, Copy, Debug)]
pub struct Split {
    pub fee: u64,
    pub first_share: u64,
    pub share: u64,
}

/// Splits `pot` between the fee and `winners` equal shares. What integer
/// division leaves over, of the fee and of the shares, goes to the first winner,
/// so that the parts always add up to the pot.
pub fn split_pot(pot: u64, fee_bps: u16, winners: u64) -> (r: Split)
    requires
        fee_bps <= 10000,
        winners >= 1,
    ensures
        r.fee == fee_of(pot as int, fee_bps as int),
        r.share == (pot - r.fee) / (winners as int),
        r.first_share == r.share + (pot - r.fee) % (winners as int),
        r.fee + r.first_share + r.share * (winners - 1) == pot,
{
    proof {
        assert((pot as int) * (fee_bps as int) <= (pot as int) * 10000) by (nonlinear_arith)
            requires
                fee_bps <= 10000,
                pot >= 0,
        ;
    }
    let fee = ((pot as u128) * (fee_bps as u128) / 10000) as u64;
    let rest = pot - fee;
    let share = rest / winners;
    let rem = rest % winners;
    proof {
        assert(rest == share * winners + rem) by (nonlinear_arith)
            requires
                share == rest / winners,
                rem == rest % winners,
                winners >= 1,
        ;
        assert(share * winners <= rest) by (nonlinear_arith)
            requires
                rest == share * winners + rem,
                rem >= 0,
        ;
        assert(share * (winners - 1) + share == share * winners) by (nonlinear_arith);
    }
    Split { fee, first_share: share + rem, share }
}

} // verus!
