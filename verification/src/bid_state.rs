//! The bid ledger: the active bids of an auction, ordered by amount and
//! bounded in number.

use crate::errors::AuctionError;
use crate::pubkey::Pubkey;
use vstd::multiset::Multiset;
use vstd::prelude::*;

verus! {

/// A bid: the address of the bidder's pot, and the amount locked in it.
#[derive(Clone, Copy, Debug, PartialEq, Eq)]
pub struct Bid(pub Pubkey, pub u64);

/// Ascending by amount.
pub open spec fn sorted(bids: Seq<Bid>) -> bool {
    forall|i: int, j: int| 0 <= i <= j < bids.len() ==> bids[i].1 <= bids[j].1
}

/// The number of leading bids that a bid of `amount` outranks. In a sorted
/// ledger these are all the bids of a smaller amount, so a new bid ranks
/// below the earlier bids of its own amount.
pub open spec fn rank(bids: Seq<Bid>, amount: u64) -> nat
    decreases bids.len(),
{
    if bids.len() == 0 || amount <= bids[0].1 {
        0
    } else {
        1 + rank(bids.drop_first(), amount)
    }
}

/// `bids` with `bid` entered at its rank.
pub open spec fn inserted(bids: Seq<Bid>, bid: Bid) -> Seq<Bid> {
    bids.insert(rank(bids, bid.1) as int, bid)
}

/// The ledger after `bid` is placed in a ledger of at most `max` bids: below
/// capacity the bid enters; at capacity it displaces the lowest bid if it
/// exceeds it, and is refused (`None`) otherwise.
pub open spec fn placed(bids: Seq<Bid>, max: nat, bid: Bid) -> Option<Seq<Bid>> {
    if bids.len() < max {
        Some(inserted(bids, bid))
    } else if bids.len() > 0 && bid.1 > bids[0].1 {
        Some(inserted(bids.drop_first(), bid))
    } else {
        None
    }
}

/// What `rank` counts: the bids before it are smaller than `amount`, and the
/// bid at it, if any, is not.
pub proof fn lemma_rank(bids: Seq<Bid>, amount: u64)
    ensures
        rank(bids, amount) <= bids.len(),
        forall|i: int| 0 <= i < rank(bids, amount) ==> bids[i].1 < amount,
        rank(bids, amount) < bids.len() ==> amount <= bids[rank(bids, amount) as int].1,
    decreases bids.len(),
{
    if bids.len() == 0 || amount <= bids[0].1 {
    } else {
        let rest = bids.drop_first();
        lemma_rank(rest, amount);
        assert forall|i: int| 0 <= i < rank(bids, amount) implies bids[i].1 < amount by {
            if i > 0 {
                assert(bids[i] == rest[i - 1]);
            }
        }
        if rank(bids, amount) < bids.len() {
            assert(bids[rank(bids, amount) as int] == rest[rank(rest, amount) as int]);
        }
    }
}

/// The rank is the only index that parts a sorted ledger into the bids below
/// `amount` and the bids not below it.
pub proof fn lemma_rank_unique(bids: Seq<Bid>, amount: u64, at: int)
    requires
        0 <= at <= bids.len(),
        forall|i: int| 0 <= i < at ==> bids[i].1 < amount,
        at < bids.len() ==> amount <= bids[at].1,
    ensures
        rank(bids, amount) == at,
    decreases bids.len(),
{
    if bids.len() == 0 || amount <= bids[0].1 {
    } else {
        let rest = bids.drop_first();
        assert(at > 0);
        assert forall|i: int| 0 <= i < at - 1 implies rest[i].1 < amount by {
            assert(rest[i] == bids[i + 1]);
        }
        if at - 1 < rest.len() {
            assert(rest[at - 1] == bids[at]);
        }
        lemma_rank_unique(rest, amount, at - 1);
    }
}

/// Entering a bid at its rank keeps a sorted ledger sorted.
pub proof fn lemma_inserted_sorted(bids: Seq<Bid>, bid: Bid)
    requires
        sorted(bids),
    ensures
        sorted(inserted(bids, bid)),
        inserted(bids, bid).len() == bids.len() + 1,
{
    lemma_rank(bids, bid.1);
    let at = rank(bids, bid.1) as int;
    let after = inserted(bids, bid);
    assert forall|i: int, j: int| 0 <= i <= j < after.len() implies after[i].1 <= after[j].1 by {
        if i < at && j > at {
            assert(after[i] == bids[i]);
            assert(after[j] == bids[j - 1]);
        } else if i == at && j > at {
            assert(after[j] == bids[j - 1]);
            assert(bids[at].1 <= bids[j - 1].1);
        }
    }
}

/// The ledger after each of `submitted` has been placed in turn, a refused
/// bid leaving it as it was.
pub open spec fn placed_all(bids: Seq<Bid>, max: nat, submitted: Seq<Bid>) -> Seq<Bid>
    decreases submitted.len(),
{
    if submitted.len() == 0 {
        bids
    } else {
        let next = match placed(bids, max, submitted[0]) {
            Some(after) => after,
            None => bids,
        };
        placed_all(next, max, submitted.drop_first())
    }
}

/// Each bid is of a higher amount than the one before it.
pub open spec fn strictly_increasing(bids: Seq<Bid>) -> bool {
    forall|i: int, j: int| 0 <= i < j < bids.len() ==> bids[i].1 < bids[j].1
}

/// The last `n` of `bids`.
pub open spec fn tail(bids: Seq<Bid>, n: nat) -> Seq<Bid>
    recommends
        n <= bids.len(),
{
    bids.subrange(bids.len() - n, bids.len() as int)
}

proof fn lemma_increasing_from(bids: Seq<Bid>, max: nat, submitted: Seq<Bid>)
    requires
        strictly_increasing(bids + submitted),
        bids.len() <= max,
    ensures
        placed_all(bids, max, submitted) == tail(
            bids + submitted,
            if (bids + submitted).len() <= max {
                (bids + submitted).len()
            } else {
                max
            },
        ),
    decreases submitted.len(),
{
    let all = bids + submitted;
    if submitted.len() == 0 {
        assert(all =~= bids);
        assert(tail(all, all.len()) =~= bids);
    } else {
        let bid = submitted[0];
        let rest = submitted.drop_first();
        assert(all[bids.len() as int] == bid);
        if bids.len() < max {
            assert forall|i: int| 0 <= i < bids.len() implies bids[i].1 < bid.1 by {
                assert(all[i] == bids[i]);
            }
            lemma_rank_unique(bids, bid.1, bids.len() as int);
            let next = inserted(bids, bid);
            assert(next =~= bids.push(bid));
            assert(next + rest =~= all);
            lemma_increasing_from(next, max, rest);
        } else if max == 0 {
            assert(bids.len() == 0);
            assert(rest =~= all.drop_first());
            assert forall|i: int, j: int| 0 <= i < j < rest.len() implies rest[i].1 < rest[j].1 by {
                assert(rest[i] == all[i + 1]);
                assert(rest[j] == all[j + 1]);
            }
            assert(bids + rest =~= rest);
            lemma_increasing_from(bids, max, rest);
            assert(tail(rest, 0) =~= tail(all, 0));
        } else {
            let kept = bids.drop_first();
            assert(all[0] == bids[0]);
            assert(bids[0].1 < bid.1);
            assert forall|i: int| 0 <= i < kept.len() implies kept[i].1 < bid.1 by {
                assert(all[i + 1] == kept[i]);
            }
            lemma_rank_unique(kept, bid.1, kept.len() as int);
            let next = inserted(kept, bid);
            assert(next =~= kept.push(bid));
            assert(next + rest =~= all.drop_first());
            assert forall|i: int, j: int| 0 <= i < j < (next + rest).len() implies (next + rest)[i].1
                < (next + rest)[j].1 by {
                assert((next + rest)[i] == all[i + 1]);
                assert((next + rest)[j] == all[j + 1]);
            }
            lemma_increasing_from(next, max, rest);
            assert(tail(all.drop_first(), max) =~= tail(all, max));
        }
    }
}

/// Boundedness. When more than `max` bids of strictly increasing amounts are
/// placed in an empty ledger, the ledger ends with exactly `max` bids: the
/// last `max` that were submitted, every one of them of a higher amount than
/// every bid that is no longer there.
pub proof fn lemma_increasing_bids_leave_the_highest(max: nat, submitted: Seq<Bid>)
    requires
        strictly_increasing(submitted),
        submitted.len() > max,
    ensures
        placed_all(Seq::empty(), max, submitted) == tail(submitted, max),
        placed_all(Seq::empty(), max, submitted).len() == max,
        forall|i: int, j: int|
            0 <= i < submitted.len() - max && 0 <= j < max ==> submitted[i].1 < placed_all(
                Seq::empty(),
                max,
                submitted,
            )[j].1,
{
    assert(Seq::<Bid>::empty() + submitted =~= submitted);
    lemma_increasing_from(Seq::empty(), max, submitted);
}

/// Eviction. A bid that does not exceed the lowest bid of a full ledger is
/// refused, and a refused bid leaves the ledger as it was.
pub proof fn lemma_low_bid_is_refused(bids: Seq<Bid>, max: nat, bid: Bid)
    requires
        bids.len() == max,
        max > 0 ==> bid.1 <= bids[0].1,
    ensures
        placed(bids, max, bid) is None,
        placed_all(bids, max, seq![bid]) == bids,
{
    assert(seq![bid].drop_first() =~= Seq::<Bid>::empty());
    reveal_with_fuel(placed_all, 2);
}

/// Placing a bid keeps the ledger ascending and within its capacity.
pub proof fn lemma_placed_well_formed(bids: Seq<Bid>, max: nat, bid: Bid)
    requires
        sorted(bids),
        bids.len() <= max,
    ensures
        placed(bids, max, bid) matches Some(after) ==> sorted(after) && after.len() <= max
            && after.len() >= bids.len(),
{
    if bids.len() < max {
        lemma_inserted_sorted(bids, bid);
    } else if bids.len() > 0 {
        assert(sorted(bids.drop_first())) by {
            assert forall|i: int, j: int| 0 <= i <= j < bids.drop_first().len() implies bids.drop_first()[i].1
                <= bids.drop_first()[j].1 by {
                assert(bids.drop_first()[i] == bids[i + 1]);
                assert(bids.drop_first()[j] == bids[j + 1]);
            }
        }
        lemma_inserted_sorted(bids.drop_first(), bid);
    }
}

/// What a ledger owes to the bids that were submitted to it. It holds no
/// bid that was not submitted; while it is below capacity it holds them all;
/// and no bid that it lacks is of a higher amount than the lowest it holds.
pub open spec fn keeps_highest(ledger: Seq<Bid>, max: nat, submitted: Multiset<Bid>) -> bool {
    &&& ledger.to_multiset().subset_of(submitted)
    &&& ledger.len() < max ==> ledger.to_multiset() == submitted
    &&& forall|bid: Bid|
        submitted.count(bid) > ledger.to_multiset().count(bid) && ledger.len() > 0 ==> bid.1
            <= ledger[0].1
}

proof fn lemma_inserted_multiset(bids: Seq<Bid>, bid: Bid)
    ensures
        inserted(bids, bid).to_multiset() == bids.to_multiset().insert(bid),
{
    lemma_rank(bids, bid.1);
    let at = rank(bids, bid.1) as int;
    let after = inserted(bids, bid);
    assert(after[at] == bid);
    assert(after.remove(at) =~= bids);
    after.to_multiset_ensures();
    assert(after.contains(bid));
    assert(after.to_multiset() =~= bids.to_multiset().insert(bid));
}

/// One placement keeps the ledger to the highest of what was submitted.
pub proof fn lemma_placed_keeps_highest(
    bids: Seq<Bid>,
    max: nat,
    submitted: Multiset<Bid>,
    bid: Bid,
)
    requires
        sorted(bids),
        bids.len() <= max,
        keeps_highest(bids, max, submitted),
    ensures
        keeps_highest(
            match placed(bids, max, bid) {
                Some(after) => after,
                None => bids,
            },
            max,
            submitted.insert(bid),
        ),
{
    if bids.len() < max {
        lemma_inserted_multiset(bids, bid);
    } else if bids.len() > 0 && bid.1 > bids[0].1 {
        let kept = bids.drop_first();
        let after = inserted(kept, bid);
        assert(kept =~= bids.remove(0));
        bids.to_multiset_ensures();
        assert(kept.to_multiset() == bids.to_multiset().remove(bids[0]));
        lemma_inserted_multiset(kept, bid);
        lemma_rank(kept, bid.1);
        assert(bids[0].1 <= after[0].1) by {
            if rank(kept, bid.1) > 0 {
                assert(after[0] == kept[0]);
                assert(kept[0] == bids[1]);
            }
        }
        assert(after.to_multiset().subset_of(submitted.insert(bid)));
    } else {
    }
}

proof fn lemma_placed_all_keeps_highest(
    bids: Seq<Bid>,
    max: nat,
    before: Multiset<Bid>,
    submitted: Seq<Bid>,
)
    requires
        sorted(bids),
        bids.len() <= max,
        keeps_highest(bids, max, before),
    ensures
        keeps_highest(placed_all(bids, max, submitted), max, before.add(submitted.to_multiset())),
        sorted(placed_all(bids, max, submitted)),
        placed_all(bids, max, submitted).len() == if bids.len() + submitted.len() <= max {
            bids.len() + submitted.len()
        } else {
            max
        },
    decreases submitted.len(),
{
    submitted.to_multiset_ensures();
    if submitted.len() == 0 {
        assert(before.add(submitted.to_multiset()) =~= before);
    } else {
        let bid = submitted[0];
        let rest = submitted.drop_first();
        let next = match placed(bids, max, bid) {
            Some(after) => after,
            None => bids,
        };
        lemma_placed_keeps_highest(bids, max, before, bid);
        lemma_placed_well_formed(bids, max, bid);
        if placed(bids, max, bid) is Some {
            if bids.len() < max {
                lemma_inserted_sorted(bids, bid);
            } else {
                lemma_inserted_sorted(bids.drop_first(), bid);
            }
        }
        lemma_placed_all_keeps_highest(next, max, before.insert(bid), rest);
        assert(rest =~= submitted.remove(0));
        assert(submitted.contains(bid));
        assert(before.insert(bid).add(rest.to_multiset()) =~= before.add(
            submitted.to_multiset(),
        ));
    }
}

/// The ledger keeps the highest bids. Whatever bids are placed in an empty
/// ledger, in whatever order, the ledger ends ascending, with as many bids
/// as were submitted or as it has room for, all of them among those
/// submitted, and none of those it lacks higher than its lowest.
pub proof fn lemma_ledger_keeps_highest(max: nat, submitted: Seq<Bid>)
    ensures
        keeps_highest(placed_all(Seq::empty(), max, submitted), max, submitted.to_multiset()),
        sorted(placed_all(Seq::empty(), max, submitted)),
        placed_all(Seq::empty(), max, submitted).len() == if submitted.len() <= max {
            submitted.len()
        } else {
            max
        },
{
    let none = Seq::<Bid>::empty();
    none.to_multiset_ensures();
    assert(none.to_multiset() =~= Multiset::<Bid>::empty());
    lemma_placed_all_keeps_highest(none, max, Multiset::empty(), submitted);
    assert(Multiset::<Bid>::empty().add(submitted.to_multiset()) =~= submitted.to_multiset());
}

/// The active bids of an auction: at most `max` of them, ascending by amount.
#[derive(Debug, PartialEq, Eq)]
pub struct BidState {
    bids: Vec<Bid>,
    max: usize,
}

impl View for BidState {
    type V = Seq<Bid>;

    closed spec fn view(&self) -> Seq<Bid> {
        self.bids@
    }
}

impl Clone for BidState {
    fn clone(&self) -> (r: BidState)
        ensures
            r@ == self@,
            r.capacity() == self.capacity(),
    {
        proof {
            use_type_invariant(self);
        }
        let bids = self.bids.clone();
        assert(bids@ =~= self.bids@);
        BidState { bids, max: self.max }
    }
}

impl BidState {
    #[verifier::type_invariant]
    spec fn well_formed(self) -> bool {
        self.bids@.len() <= self.max && sorted(self.bids@)
    }

    /// The most bids that the ledger holds.
    pub closed spec fn capacity(self) -> nat {
        self.max as nat
    }

    /// An empty ledger of at most `max` bids.
    pub fn new(max: usize) -> (r: BidState)
        ensures
            r@ == Seq::<Bid>::empty(),
            r.capacity() == max,
    {
        BidState { bids: Vec::new(), max }
    }

    /// A ledger of the given bids, if they are ascending by amount and no
    /// more than `max`.
    pub fn from_bids(bids: Vec<Bid>, max: usize) -> (r: Option<BidState>)
        ensures
            r is Some <==> bids@.len() <= max && sorted(bids@),
            r matches Some(ledger) ==> ledger@ == bids@ && ledger.capacity() == max,
    {
        if bids.len() > max {
            return None;
        }
        let mut i: usize = 1;
        while i < bids.len()
            invariant
                1 <= i,
                forall|a: int, b: int| 0 <= a <= b < i && b < bids@.len() ==> bids@[a].1 <= bids@[b].1,
            decreases bids.len() - i,
        {
            if bids[i - 1].1 > bids[i].1 {
                return None;
            }
            i += 1;
        }
        Some(BidState { bids, max })
    }

    pub fn max(&self) -> (r: usize)
        ensures
            r == self.capacity(),
    {
        self.max
    }

    pub fn len(&self) -> (r: usize)
        ensures
            r == self@.len(),
            r <= self.capacity(),
    {
        proof {
            use_type_invariant(self);
        }
        self.bids.len()
    }

    pub fn is_empty(&self) -> (r: bool)
        ensures
            r == (self@.len() == 0),
    {
        self.bids.len() == 0
    }

    /// The bids, lowest first.
    pub fn bids(&self) -> (r: &Vec<Bid>)
        ensures
            r@ == self@,
            sorted(r@),
            r@.len() <= self.capacity(),
    {
        proof {
            use_type_invariant(self);
        }
        &self.bids
    }

    /// The lowest-ranked bid: the one that the next displacement removes.
    pub fn lowest(&self) -> (r: Option<Bid>)
        ensures
            self@.len() == 0 ==> r is None,
            self@.len() > 0 ==> r == Some(self@[0]),
            r matches Some(low) ==> forall|i: int| 0 <= i < self@.len() ==> low.1 <= self@[i].1,
    {
        proof {
            use_type_invariant(self);
        }
        if self.bids.len() == 0 {
            None
        } else {
            Some(self.bids[0])
        }
    }

    /// The highest-ranked bid: the winner, were the auction to end now.
    pub fn winner(&self) -> (r: Option<Bid>)
        ensures
            self@.len() == 0 ==> r is None,
            self@.len() > 0 ==> r == Some(self@.last()),
            r matches Some(top) ==> forall|i: int| 0 <= i < self@.len() ==> self@[i].1 <= top.1,
    {
        proof {
            use_type_invariant(self);
        }
        let n = self.bids.len();
        if n == 0 {
            None
        } else {
            Some(self.bids[n - 1])
        }
    }

    /// Places `bid`. Below capacity it enters at its rank. At capacity it
    /// displaces the lowest bid if its amount exceeds that bid's; otherwise
    /// it is refused with `BidRejected` and the ledger stays as it was.
    pub fn place_bid(&mut self, bid: Bid) -> (r: Result<(), AuctionError>)
        ensures
            final(self).capacity() == old(self).capacity(),
            match placed(old(self)@, old(self).capacity(), bid) {
                Some(bids) => r is Ok && final(self)@ == bids,
                None => r == Err::<(), AuctionError>(AuctionError::BidRejected) && *final(self)
                    == *old(self),
            },
            sorted(final(self)@),
            final(self)@.len() <= final(self).capacity(),
    {
        proof {
            use_type_invariant(&*self);
        }
        let full = self.bids.len() >= self.max;
        if full && (self.bids.len() == 0 || bid.1 <= self.bids[0].1) {
            return Err(AuctionError::BidRejected);
        }
        let mut bids: Vec<Bid> = Vec::new();
        std::mem::swap(&mut self.bids, &mut bids);
        if full {
            bids.remove(0);
        }
        let ghost base = bids@;
        assert(sorted(base));
        let mut at: usize = 0;
        while at < bids.len() && bids[at].1 < bid.1
            invariant
                at <= bids.len(),
                bids@ == base,
                forall|i: int| 0 <= i < at ==> base[i].1 < bid.1,
            decreases bids.len() - at,
        {
            at += 1;
        }
        proof {
            lemma_rank_unique(base, bid.1, at as int);
            lemma_inserted_sorted(base, bid);
        }
        bids.insert(at, bid);
        self.bids = bids;
        Ok(())
    }
}

} // verus!
