//! What holds of the ranking of bids, for all bids.

use vstd::prelude::*;
use crate::models::v1::bid::{withdrawn, Bid};
use crate::models::v1::timestamp::Timestamp;

verus! {

/// Of two bids exactly one holds: the first loses, the two tie, or the first
/// wins.
pub proof fn lemma_ranking_partitions(a: Bid, b: Bid)
    ensures
        a@.ranks_below(b@) || a@.ranks_equal(b@) || a@.ranks_above(b@),
        !(a@.ranks_below(b@) && a@.ranks_equal(b@)),
        !(a@.ranks_below(b@) && a@.ranks_above(b@)),
        !(a@.ranks_equal(b@) && a@.ranks_above(b@)),
{
}

/// A bid that loses against another is not lost against by it: the other
/// one wins.
pub proof fn lemma_losing_is_one_sided(a: Bid, b: Bid)
    requires
        a@.ranks_below(b@),
    ensures
        !b@.ranks_below(a@),
        b@.ranks_above(a@),
{
}

/// To win is the mirror image of to lose: the first bid wins against the
/// second exactly where the second loses against the first.
pub proof fn lemma_winning_mirrors_losing(a: Bid, b: Bid)
    ensures
        a@.ranks_above(b@) <==> b@.ranks_below(a@),
{
}

/// An active bid wins against every removed bid, whatever the amounts and the
/// times, and the two never tie.
pub proof fn lemma_active_beats_removed(a: Bid, b: Bid)
    requires
        a@.is_active(),
        !b@.is_active(),
    ensures
        a@.ranks_above(b@),
        !a@.ranks_equal(b@),
        b@.ranks_below(a@),
{
}

/// At equal amounts, and with both bids active or both removed, the bid that
/// was made earlier wins.
pub proof fn lemma_earlier_bid_wins_tie(a: Bid, b: Bid)
    requires
        a@.is_active() == b@.is_active(),
        a@.amount == b@.amount,
        a@.made_at.is_before(b@.made_at),
    ensures
        a@.ranks_above(b@),
        b@.ranks_below(a@),
{
}

/// Bids that were not made at the very same instant never tie, however small
/// the difference and whatever else they share.
pub proof fn lemma_tie_needs_same_instant(a: Bid, b: Bid)
    requires
        a@.made_at != b@.made_at,
    ensures
        !a@.ranks_equal(b@),
        !b@.ranks_equal(a@),
{
}

/// No bid loses against itself, and every bid ties with itself.
pub proof fn lemma_bid_ties_with_itself(a: Bid)
    ensures
        !a@.ranks_below(a@),
        a@.ranks_equal(a@),
        !a@.ranks_above(a@),
{
}

/// Losing carries over: a bid that loses against a second one loses against
/// every bid that the second one loses against.
pub proof fn lemma_losing_is_transitive(a: Bid, b: Bid, c: Bid)
    requires
        a@.ranks_below(b@),
        b@.ranks_below(c@),
    ensures
        a@.ranks_below(c@),
{
}

/// To tie is an equivalence: it holds both ways round, and it carries over.
pub proof fn lemma_tie_is_an_equivalence(a: Bid, b: Bid, c: Bid)
    ensures
        a@.ranks_equal(b@) ==> b@.ranks_equal(a@),
        a@.ranks_equal(b@) && b@.ranks_equal(c@) ==> a@.ranks_equal(c@),
{
}

/// Bids that tie cannot be told apart by the ranking: whatever one of them
/// loses or wins against, the other does too.
pub proof fn lemma_tied_bids_rank_alike(a: Bid, b: Bid, c: Bid)
    requires
        a@.ranks_equal(b@),
    ensures
        a@.ranks_below(c@) == b@.ranks_below(c@),
        c@.ranks_below(a@) == c@.ranks_below(b@),
        a@.ranks_equal(c@) == b@.ranks_equal(c@),
{
}

/// The ranking reads the amount, the time at which a bid was made and whether
/// it is active, and nothing else: who made a bid, in which auction, under
/// which number, and when it was removed play no part.
pub proof fn lemma_ranking_ignores_identity(a: Bid, b: Bid, c: Bid, d: Bid)
    requires
        a@.amount == c@.amount,
        a@.made_at == c@.made_at,
        a@.is_active() == c@.is_active(),
        b@.amount == d@.amount,
        b@.made_at == d@.made_at,
        b@.is_active() == d@.is_active(),
    ensures
        a@.ranks_below(b@) == c@.ranks_below(d@),
        a@.ranks_equal(b@) == c@.ranks_equal(d@),
        a@.ranks_above(b@) == c@.ranks_above(d@),
{
}

/// Removed bids rank among themselves as they did while both were active,
/// whenever each of them was removed.
pub proof fn lemma_removal_keeps_ranking(
    a: Bid,
    b: Bid,
    removed_a: Timestamp,
    removed_b: Timestamp,
)
    requires
        a@.is_active(),
        b@.is_active(),
    ensures
        withdrawn(a@, removed_a@).ranks_below(withdrawn(b@, removed_b@)) == a@.ranks_below(b@),
        withdrawn(a@, removed_a@).ranks_equal(withdrawn(b@, removed_b@)) == a@.ranks_equal(b@),
        withdrawn(a@, removed_a@).ranks_above(withdrawn(b@, removed_b@)) == a@.ranks_above(b@),
{
}

/// Once removed, a bid is never active again: removing it a second time
/// leaves it removed, with the later time of removal.
pub proof fn lemma_removed_stays_removed(a: Bid, first: Timestamp, second: Timestamp)
    ensures
        !withdrawn(a@, first@).is_active(),
        !withdrawn(withdrawn(a@, first@), second@).is_active(),
        withdrawn(withdrawn(a@, first@), second@) == withdrawn(a@, second@),
{
}

} // verus!
