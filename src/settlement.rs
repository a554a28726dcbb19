use vstd::prelude::*;

use crate::auction::Order;
use crate::config::State;
use crate::types::{AuctionError, Pubkey};

verus! {

/// Reward issued to the winner of every settled auction.
pub const SETTLEMENT_REWARD: u64 = 10_000_000;

/// Cumulative reputation statistics of one participant.
#[derive(Clone, Copy, Debug)]
pub struct TraderStats {
    pub trader: Pubkey,
    pub total_volume: u64,
    pub win_count: u64,
    pub total_response_time: i64,
}

/// The ledger effects that a settlement asks the host to carry out: move
/// `amount` of `base_asset` from `creator` to `winner`, then issue
/// `reward_amount` of `reward_mint` to `winner`.
#[derive(Clone, Copy, Debug)]
pub struct Settlement {
    pub creator: Pubkey,
    pub winner: Pubkey,
    pub base_asset: Pubkey,
    pub amount: u64,
    pub reward_mint: Pubkey,
    pub reward_amount: u64,
    /// Seconds from the auction's start to its settlement.
    pub auction_duration: i64,
}

/// The creator's entry after a settlement of `order` that took `duration`.
pub open spec fn credit_creator(stats: TraderStats, order: Order, duration: int) -> TraderStats {
    TraderStats {
        trader: order.trader,
        total_volume: (stats.total_volume + order.amount) as u64,
        total_response_time: (stats.total_response_time + duration) as i64,
        ..stats
    }
}

/// The winner's entry after a settlement of `order` won by `winner`.
pub open spec fn credit_winner(
    stats: TraderStats,
    winner: Pubkey,
    order: Order,
    duration: int,
) -> TraderStats {
    TraderStats {
        trader: winner,
        win_count: (stats.win_count + 1) as u64,
        total_volume: (stats.total_volume + order.amount) as u64,
        total_response_time: (stats.total_response_time + duration) as i64,
    }
}

/// The creator also won the auction; their one entry takes both credits.
pub open spec fn is_self_trade(order: Order, winner: Pubkey) -> bool {
    order.trader@ == winner@
}

/// The creator's entry after a settlement taking `duration`: on a self-trade
/// it is credited as creator and then as winner.
pub open spec fn creator_entry_after(
    stats: TraderStats,
    order: Order,
    winner: Pubkey,
    duration: int,
) -> TraderStats {
    if is_self_trade(order, winner) {
        credit_winner(credit_creator(stats, order, duration), winner, order, duration)
    } else {
        credit_creator(stats, order, duration)
    }
}

/// The winner's separate entry after a settlement taking `duration`: left as
/// it is on a self-trade, whose credits all go to the creator's entry.
pub open spec fn winner_entry_after(
    stats: TraderStats,
    order: Order,
    winner: Pubkey,
    duration: int,
) -> TraderStats {
    if is_self_trade(order, winner) {
        stats
    } else {
        credit_winner(stats, winner, order, duration)
    }
}

/// Some reputation counter would leave its type when `order`, won by
/// `winner`, is credited with `duration`.
pub open spec fn credits_overflow(
    order: Order,
    winner: Pubkey,
    trader_stats: TraderStats,
    bidder_stats: TraderStats,
    duration: int,
) -> bool {
    if is_self_trade(order, winner) {
        ||| trader_stats.total_volume + 2 * order.amount > u64::MAX
        ||| trader_stats.total_response_time + 2 * duration > i64::MAX
        ||| trader_stats.win_count + 1 > u64::MAX
    } else {
        ||| trader_stats.total_volume + order.amount > u64::MAX
        ||| trader_stats.total_response_time + duration > i64::MAX
        ||| bidder_stats.win_count + 1 > u64::MAX
        ||| bidder_stats.total_volume + order.amount > u64::MAX
        ||| bidder_stats.total_response_time + duration > i64::MAX
    }
}

/// The error, if any, with which settling `order` at time `now` is refused;
/// the checks run in this order and the first that fails decides.
pub open spec fn settle_error(
    order: Order,
    trader_stats: TraderStats,
    bidder_stats: TraderStats,
    now: i64,
) -> Option<AuctionError> {
    if now < order.auction_end_time {
        Some(AuctionError::AuctionNotEnded)
    } else if order.winning_bidder is None {
        Some(AuctionError::NoWinningBid)
    } else if order.settled {
        Some(AuctionError::AlreadySettled)
    } else if now < order.start_time {
        Some(AuctionError::InvalidTimestamp)
    } else if now - order.start_time > i64::MAX || credits_overflow(
        order,
        order.winning_bidder->Some_0,
        trader_stats,
        bidder_stats,
        now - order.start_time,
    ) {
        Some(AuctionError::ArithmeticOverflow)
    } else {
        None
    }
}

/// The effects of settling `order`, won by `winner`, at time `now`.
pub open spec fn settlement_of(order: Order, winner: Pubkey, state: State, now: i64) -> Settlement {
    Settlement {
        creator: order.trader,
        winner,
        base_asset: order.base_asset,
        amount: order.amount,
        reward_mint: state.reward_mint,
        reward_amount: SETTLEMENT_REWARD,
        auction_duration: (now - order.start_time) as i64,
    }
}

/// Settles an ended auction that has a winner: marks it settled, credits the
/// creator's and the winner's reputation entries, and returns the ledger
/// effects. `trader_stats` is the creator's entry and `bidder_stats` the
/// winner's; when the creator won, both credits go to `trader_stats`. Every
/// check, overflow checks included, runs before anything is written, so a
/// refused settlement changes nothing.
pub fn settle_auction(
    order: &mut Order,
    state: &State,
    trader_stats: &mut TraderStats,
    bidder_stats: &mut TraderStats,
    now: i64,
) -> (r: Result<Settlement, AuctionError>)
    ensures
        r == (match settle_error(*old(order), *old(trader_stats), *old(bidder_stats), now) {
            Some(e) => Err(e),
            None => Ok(settlement_of(*old(order), old(order).winning_bidder->Some_0, *state, now)),
        }),
        r is Ok ==> {
            &&& *final(order) == (Order { settled: true, ..*old(order) })
            &&& *final(trader_stats) == creator_entry_after(
                *old(trader_stats),
                *old(order),
                old(order).winning_bidder->Some_0,
                now - old(order).start_time,
            )
            &&& *final(bidder_stats) == winner_entry_after(
                *old(bidder_stats),
                *old(order),
                old(order).winning_bidder->Some_0,
                now - old(order).start_time,
            )
        },
        r is Err ==> {
            &&& *final(order) == *old(order)
            &&& *final(trader_stats) == *old(trader_stats)
            &&& *final(bidder_stats) == *old(bidder_stats)
        },
        old(order).winning_bidder is None ==> r is Err,
        old(order).settled ==> r is Err,
        old(order).wf() ==> final(order).wf(),
{
    if now < order.auction_end_time {
        return Err(AuctionError::AuctionNotEnded);
    }
    let winner: Pubkey = match order.winning_bidder {
        Some(w) => w,
        None => return Err(AuctionError::NoWinningBid),
    };
    if order.settled {
        return Err(AuctionError::AlreadySettled);
    }
    if now < order.start_time {
        return Err(AuctionError::InvalidTimestamp);
    }
    let elapsed: i128 = now as i128 - order.start_time as i128;
    if elapsed > i64::MAX as i128 {
        return Err(AuctionError::ArithmeticOverflow);
    }
    let auction_duration: i64 = elapsed as i64;
    if order.trader.same_as(&winner) {
        let volume: i128 = trader_stats.total_volume as i128 + 2 * (order.amount as i128);
        let response: i128 = trader_stats.total_response_time as i128 + 2 * elapsed;
        if volume > u64::MAX as i128 || response > i64::MAX as i128 || trader_stats.win_count
            == u64::MAX {
            return Err(AuctionError::ArithmeticOverflow);
        }
        order.settled = true;
        trader_stats.trader = winner;
        trader_stats.total_volume = volume as u64;
        trader_stats.total_response_time = response as i64;
        trader_stats.win_count = trader_stats.win_count + 1;
    } else {
        let trader_volume: u64 = match trader_stats.total_volume.checked_add(order.amount) {
            Some(v) => v,
            None => return Err(AuctionError::ArithmeticOverflow),
        };
        if trader_stats.total_response_time > i64::MAX - auction_duration {
            return Err(AuctionError::ArithmeticOverflow);
        }
        let bidder_wins: u64 = match bidder_stats.win_count.checked_add(1) {
            Some(v) => v,
            None => return Err(AuctionError::ArithmeticOverflow),
        };
        let bidder_volume: u64 = match bidder_stats.total_volume.checked_add(order.amount) {
            Some(v) => v,
            None => return Err(AuctionError::ArithmeticOverflow),
        };
        if bidder_stats.total_response_time > i64::MAX - auction_duration {
            return Err(AuctionError::ArithmeticOverflow);
        }
        order.settled = true;
        trader_stats.trader = order.trader;
        trader_stats.total_volume = trader_volume;
        trader_stats.total_response_time = trader_stats.total_response_time + auction_duration;
        bidder_stats.trader = winner;
        bidder_stats.win_count = bidder_wins;
        bidder_stats.total_volume = bidder_volume;
        bidder_stats.total_response_time = bidder_stats.total_response_time + auction_duration;
    }
    Ok(
        Settlement {
            creator: order.trader,
            winner,
            base_asset: order.base_asset,
            amount: order.amount,
            reward_mint: state.reward_mint,
            reward_amount: SETTLEMENT_REWARD,
            auction_duration,
        },
    )
}

} // verus!
