//! A bid, its life cycle, and the three predicates that rank two bids.

use vstd::prelude::*;
use crate::models::v1::clock::now;
use crate::models::v1::timestamp::{Instant, Timestamp};

verus! {

/// The mathematical model of a bid.
pub struct BidView {
    pub auction_id: Seq<char>,
    pub bidder_id: Seq<char>,
    pub id: int,
    pub amount: int,
    pub made_at: Instant,
    pub removed_at: Option<Instant>,
}

impl BidView {
    /// A bid is active as long as it has no time of removal.
    pub open spec fn is_active(self) -> bool {
        self.removed_at is None
    }

    /// `self` loses against `other`.
    ///
    /// A removed bid loses against every active one. Two bids of the same
    /// standing are ranked by amount, and at equal amounts the bid that was
    /// made later loses.
    pub open spec fn ranks_below(self, other: BidView) -> bool {
        if self.is_active() == other.is_active() {
            ||| self.amount < other.amount
            ||| (self.amount == other.amount && other.made_at.is_before(self.made_at))
        } else {
            other.is_active()
        }
    }

    /// Neither bid wins: both are of the same standing, offer the same amount
    /// and were made at the same instant. Who made them, and in which auction,
    /// plays no part.
    pub open spec fn ranks_equal(self, other: BidView) -> bool {
        &&& self.is_active() == other.is_active()
        &&& self.amount == other.amount
        &&& self.made_at == other.made_at
    }

    /// `self` wins against `other`: it neither loses nor ties.
    pub open spec fn ranks_above(self, other: BidView) -> bool {
        !self.ranks_below(other) && !self.ranks_equal(other)
    }
}

/// The bid `bid` after its removal at `removed_at`: the time of removal is
/// `removed_at`, whether the bid had one or not, and every other field is as
/// it was.
pub open spec fn withdrawn(bid: BidView, removed_at: Instant) -> BidView {
    BidView { removed_at: Some(removed_at), ..bid }
}

/// One offer made by a bidder in an auction.
#[derive(Debug, PartialEq, PartialOrd)]
pub struct Bid {
    pub auction_id: String,
    pub bidder_id: String,
    pub id: i32,
    pub amount: i32,
    pub made_at: Timestamp,
    pub removed_at: Option<Timestamp>,
}

impl View for Bid {
    type V = BidView;

    open spec fn view(&self) -> BidView {
        BidView {
            auction_id: self.auction_id@,
            bidder_id: self.bidder_id@,
            id: self.id as int,
            amount: self.amount as int,
            made_at: self.made_at@,
            removed_at: match self.removed_at {
                Some(at) => Some(at@),
                None => None,
            },
        }
    }
}

impl Bid {
    /// A new, active bid, stamped with the current time.
    ///
    /// The amount is taken as it is. Every field but the time is fixed by the
    /// arguments; the time is whatever the clock reads, see [`Bid::new_at`].
    pub fn new(auction_id: String, bidder_id: String, id: i32, amount: i32) -> (bid: Bid)
        ensures
            bid@ == (BidView {
                auction_id: auction_id@,
                bidder_id: bidder_id@,
                id: id as int,
                amount: amount as int,
                made_at: bid@.made_at,
                removed_at: None,
            }),
            bid@.made_at.nanos < 1_000_000_000,
    {
        let made_at = now();
        Bid::new_at(auction_id, bidder_id, id, amount, made_at)
    }

    /// A new, active bid that was made at `made_at`.
    pub fn new_at(
        auction_id: String,
        bidder_id: String,
        id: i32,
        amount: i32,
        made_at: Timestamp,
    ) -> (bid: Bid)
        ensures
            bid@ == (BidView {
                auction_id: auction_id@,
                bidder_id: bidder_id@,
                id: id as int,
                amount: amount as int,
                made_at: made_at@,
                removed_at: None,
            }),
    {
        Bid { auction_id, bidder_id, id, amount, made_at, removed_at: None }
    }

    /// Whether the bid still stands.
    pub fn is_active(&self) -> (active: bool)
        ensures
            active == self@.is_active(),
    {
        self.removed_at.is_none()
    }

    /// Withdraws the bid, stamped with the current time.
    ///
    /// The bid is removed afterwards whatever it was before, and nothing but
    /// the time of removal changes. On a bid that was removed already, the
    /// earlier time of removal is overwritten. See [`Bid::remove_at`].
    pub fn remove(&mut self)
        ensures
            final(self)@.removed_at is Some,
            final(self)@ == withdrawn(old(self)@, final(self)@.removed_at->0),
            final(self)@.removed_at->0.nanos < 1_000_000_000,
    {
        let removed_at = now();
        self.remove_at(removed_at);
    }

    /// Withdraws the bid as of `removed_at`: the time of removal becomes
    /// `removed_at`, also where the bid had one, and no other field changes.
    pub fn remove_at(&mut self, removed_at: Timestamp)
        ensures
            final(self)@ == withdrawn(old(self)@, removed_at@),
    {
        self.removed_at = Some(removed_at);
    }

    /// Whether this bid loses against `other`.
    pub fn is_lower_bid_than(&self, other: &Self) -> (lower: bool)
        ensures
            lower == self@.ranks_below(other@),
    {
        let both_bids_active = self.is_active() && other.is_active();
        let neither_bid_active = !(self.is_active() || other.is_active());
        let is_lower_amount = self.amount < other.amount;
        let is_equal_amount = self.amount == other.amount;
        let is_later_bid = other.made_at.is_before(&self.made_at);

        if both_bids_active || neither_bid_active {
            is_lower_amount || (is_equal_amount && is_later_bid)
        } else {
            !self.is_active()
        }
    }

    /// Whether this bid and `other` tie.
    pub fn is_equivalent_bid_to(&self, other: &Self) -> (equivalent: bool)
        ensures
            equivalent == self@.ranks_equal(other@),
    {
        let both_bids_active = self.is_active() && other.is_active();
        let neither_bid_active = !(self.is_active() || other.is_active());
        let is_equal_amount = self.amount == other.amount;
        let is_simultaneous_bid = other.made_at == self.made_at;

        if both_bids_active || neither_bid_active {
            is_equal_amount && is_simultaneous_bid
        } else {
            false
        }
    }

    /// Whether this bid wins against `other`: it neither loses nor ties.
    pub fn is_higher_bid_than(&self, other: &Self) -> (higher: bool)
        ensures
            higher == self@.ranks_above(other@),
            higher == other@.ranks_below(self@),
    {
        !self.is_lower_bid_than(other) && !self.is_equivalent_bid_to(other)
    }
}

} // verus!
