use vstd::prelude::*;

use crate::auction::{bid_error, order_after_bid, Order, StakeInfo};
use crate::config::State;
use crate::settlement::{
    credit_creator, credit_winner, creator_entry_after, credits_overflow, is_self_trade,
    settle_error, winner_entry_after, TraderStats,
};
use crate::types::{AuctionError, Pubkey};

verus! {

/// A bid at or above the buy-now price ends the auction on the same call:
/// at any later time no further bid is admitted, and settlement no longer
/// waits for the scheduled end.
pub proof fn lemma_buy_now_ends_auction(
    order: Order,
    state: State,
    bidder: Pubkey,
    stake_info: StakeInfo,
    bid_amount: u64,
    expected_price: u64,
    now: i64,
    later: i64,
    next_state: State,
    next_bidder: Pubkey,
    next_stake: StakeInfo,
    next_amount: u64,
    next_expected: u64,
    trader_stats: TraderStats,
    bidder_stats: TraderStats,
)
    requires
        bid_error(order, state, bidder, stake_info, bid_amount, expected_price, now) is None,
        order.buy_now_price is Some,
        bid_amount >= order.buy_now_price->Some_0,
        later >= now,
    ensures
        later >= order_after_bid(order, bidder, bid_amount, now).auction_end_time,
        bid_error(
            order_after_bid(order, bidder, bid_amount, now),
            next_state,
            next_bidder,
            next_stake,
            next_amount,
            next_expected,
            later,
        ) == Some(AuctionError::AuctionEnded),
        settle_error(
            order_after_bid(order, bidder, bid_amount, now),
            trader_stats,
            bidder_stats,
            later,
        ) != Some(AuctionError::AuctionNotEnded),
{
}

/// Settlement happens exactly once: an ended auction with a winner that was
/// never settled, settled no earlier than its start and with room left in the
/// reputation counters, is settled; a second attempt at the same or a later
/// time is then refused with `AlreadySettled`, whatever reputation entries it
/// is given, and so has no ledger effect.
pub proof fn lemma_settle_once(
    order: Order,
    trader_stats: TraderStats,
    bidder_stats: TraderStats,
    now: i64,
    later: i64,
    next_trader_stats: TraderStats,
    next_bidder_stats: TraderStats,
)
    requires
        now >= order.auction_end_time,
        order.winning_bidder is Some,
        !order.settled,
        now >= order.start_time,
        now - order.start_time <= i64::MAX,
        !credits_overflow(
            order,
            order.winning_bidder->Some_0,
            trader_stats,
            bidder_stats,
            now - order.start_time,
        ),
        later >= now,
    ensures
        settle_error(order, trader_stats, bidder_stats, now) is None,
        settle_error(
            Order { settled: true, ..order },
            next_trader_stats,
            next_bidder_stats,
            later,
        ) == Some(AuctionError::AlreadySettled),
{
}

/// A participant's reputation entry in `ledger`, or a fresh one if the
/// participant has none yet.
pub open spec fn entry_of(ledger: Map<Seq<u8>, TraderStats>, id: Pubkey) -> TraderStats {
    if ledger.contains_key(id@) {
        ledger[id@]
    } else {
        TraderStats { trader: id, total_volume: 0, win_count: 0, total_response_time: 0 }
    }
}

/// The ledger after a settlement of `order` taking `duration`: the creator's
/// entry is credited first, then the winner's entry as it stands after that,
/// which is the same entry when the creator won.
pub open spec fn record_settlement(
    ledger: Map<Seq<u8>, TraderStats>,
    order: Order,
    duration: int,
) -> Map<Seq<u8>, TraderStats> {
    let credited = ledger.insert(
        order.trader@,
        credit_creator(entry_of(ledger, order.trader), order, duration),
    );
    match order.winning_bidder {
        Some(w) => credited.insert(w@, credit_winner(entry_of(credited, w), w, order, duration)),
        None => credited,
    }
}

/// `settle_auction`, given the ledger's entries of the creator and of the
/// winner, writes back exactly the ledger `record_settlement` describes: the
/// creator's new entry, and the winner's unless the creator won.
pub proof fn lemma_settlement_is_recorded(
    ledger: Map<Seq<u8>, TraderStats>,
    order: Order,
    duration: int,
)
    requires
        order.winning_bidder is Some,
    ensures
        ({
            let w = order.winning_bidder->Some_0;
            let creator = creator_entry_after(entry_of(ledger, order.trader), order, w, duration);
            let winner = winner_entry_after(entry_of(ledger, w), order, w, duration);
            record_settlement(ledger, order, duration) == if is_self_trade(order, w) {
                ledger.insert(order.trader@, creator)
            } else {
                ledger.insert(order.trader@, creator).insert(w@, winner)
            }
        }),
{
    let w = order.winning_bidder->Some_0;
    let credited = ledger.insert(
        order.trader@,
        credit_creator(entry_of(ledger, order.trader), order, duration),
    );
    if is_self_trade(order, w) {
        assert(entry_of(credited, w) == credit_creator(entry_of(ledger, order.trader), order, duration));
        assert(record_settlement(ledger, order, duration) =~= ledger.insert(
            order.trader@,
            creator_entry_after(entry_of(ledger, order.trader), order, w, duration),
        ));
    } else {
        assert(entry_of(credited, w) == entry_of(ledger, w));
    }
}

/// The ledger built from an empty one by a history of settlements, each an
/// order with the duration it was settled after.
pub open spec fn replay(history: Seq<(Order, i64)>) -> Map<Seq<u8>, TraderStats>
    decreases history.len(),
{
    if history.len() == 0 {
        Map::empty()
    } else {
        let last = history.last();
        record_settlement(replay(history.drop_last()), last.0, last.1 as int)
    }
}

/// The amount that `id` traded in `order`: once as its creator and once as
/// its winner.
pub open spec fn traded_by(id: Seq<u8>, order: Order) -> int {
    (if order.trader@ == id {
        order.amount as int
    } else {
        0
    }) + (match order.winning_bidder {
        Some(w) => if w@ == id {
            order.amount as int
        } else {
            0
        },
        None => 0,
    })
}

/// Total amount that `id` traded over a history of settlements.
pub open spec fn settled_volume(id: Seq<u8>, history: Seq<(Order, i64)>) -> int
    decreases history.len(),
{
    if history.len() == 0 {
        0
    } else {
        settled_volume(id, history.drop_last()) + traded_by(id, history.last().0)
    }
}

/// A participant's reputation volume is the sum of the amounts of every
/// settled auction it created plus every one it won, for a history in which
/// every settlement was admitted (no volume overflowed along the way).
pub proof fn lemma_volume_is_settled_sum(history: Seq<(Order, i64)>, id: Pubkey)
    requires
        forall|i: int| 0 <= i <= history.len() ==> settled_volume(id@, #[trigger] history.take(i))
            <= u64::MAX,
    ensures
        entry_of(replay(history), id).total_volume == settled_volume(id@, history),
    decreases history.len(),
{
    if history.len() > 0 {
        let prefix = history.drop_last();
        assert(history.take(history.len() as int) =~= history);
        assert forall|i: int| 0 <= i <= prefix.len() implies settled_volume(
            id@,
            #[trigger] prefix.take(i),
        ) <= u64::MAX by {
            assert(prefix.take(i) =~= history.take(i));
        }
        lemma_volume_is_settled_sum(prefix, id);
        assert(history.take(prefix.len() as int) =~= prefix);
        assert(0 <= settled_volume(id@, prefix)) by {
            lemma_settled_volume_nonneg(id@, prefix);
        }
    }
}

proof fn lemma_settled_volume_nonneg(id: Seq<u8>, history: Seq<(Order, i64)>)
    ensures
        0 <= settled_volume(id, history),
    decreases history.len(),
{
    if history.len() > 0 {
        lemma_settled_volume_nonneg(id, history.drop_last());
    }
}

} // verus!
