use vstd::prelude::*;

use crate::config::State;
use crate::types::{AuctionError, OrderType, Pubkey};

verus! {

/// Denominator of the slippage tolerance: one basis point is 1/10000.
pub const BPS_DENOMINATOR: u64 = 10000;

/// One auction: an order open to competitive bids.
#[derive(Clone, Copy, Debug)]
pub struct Order {
    pub id: u64,
    /// The order's creator.
    pub trader: Pubkey,
    pub order_type: OrderType,
    pub base_asset: Pubkey,
    pub quote_asset: Pubkey,
    pub amount: u64,
    pub min_price: u64,
    pub auction_end_time: i64,
    pub highest_bid: u64,
    pub winning_bidder: Option<Pubkey>,
    pub settled: bool,
    pub buy_now_price: Option<u64>,
    pub start_time: i64,
}

/// Collateral that a participant has staked.
#[derive(Clone, Copy, Debug)]
pub struct StakeInfo {
    pub owner: Pubkey,
    pub amount: u64,
}

impl Order {
    /// A winner is recorded exactly when a positive bid was accepted, and only
    /// an auction with a winner is ever settled.
    pub open spec fn wf(self) -> bool {
        &&& (self.winning_bidder is Some) == (self.highest_bid > 0)
        &&& self.settled ==> self.winning_bidder is Some
    }
}

/// The error, if any, with which an order placed with these inputs is refused.
pub open spec fn place_order_error(
    auction_count: u64,
    auction_duration: u64,
    now: i64,
) -> Option<AuctionError> {
    if auction_duration == 0 {
        Some(AuctionError::InvalidDuration)
    } else if now + auction_duration > i64::MAX {
        Some(AuctionError::ArithmeticOverflow)
    } else if auction_count == u64::MAX {
        Some(AuctionError::ArithmeticOverflow)
    } else {
        None
    }
}

/// The record created by a successful order placement.
pub open spec fn new_order(
    id: u64,
    trader: Pubkey,
    order_type: OrderType,
    base_asset: Pubkey,
    quote_asset: Pubkey,
    amount: u64,
    min_price: u64,
    auction_duration: u64,
    buy_now_price: Option<u64>,
    now: i64,
) -> Order {
    Order {
        id,
        trader,
        order_type,
        base_asset,
        quote_asset,
        amount,
        min_price,
        auction_end_time: (now + auction_duration) as i64,
        highest_bid: 0,
        winning_bidder: None,
        settled: false,
        buy_now_price,
        start_time: now,
    }
}

/// Creates an auction open from `now` for `auction_duration` seconds, and
/// gives it the next identifier of the configuration's counter.
pub fn place_order(
    state: &mut State,
    trader: Pubkey,
    order_type: OrderType,
    base_asset: Pubkey,
    quote_asset: Pubkey,
    amount: u64,
    min_price: u64,
    auction_duration: u64,
    buy_now_price: Option<u64>,
    now: i64,
) -> (r: Result<Order, AuctionError>)
    ensures
        r == (match place_order_error(old(state).auction_count, auction_duration, now) {
            Some(e) => Err(e),
            None => Ok(
                new_order(
                    (old(state).auction_count + 1) as u64,
                    trader,
                    order_type,
                    base_asset,
                    quote_asset,
                    amount,
                    min_price,
                    auction_duration,
                    buy_now_price,
                    now,
                ),
            ),
        }),
        r is Ok ==> *final(state) == (State {
            auction_count: (old(state).auction_count + 1) as u64,
            ..*old(state)
        }),
        r is Ok ==> r->Ok_0.wf() && r->Ok_0.start_time < r->Ok_0.auction_end_time,
        r is Err ==> *final(state) == *old(state),
{
    if auction_duration == 0 {
        return Err(AuctionError::InvalidDuration);
    }
    let end: i128 = now as i128 + auction_duration as i128;
    if end > i64::MAX as i128 {
        return Err(AuctionError::ArithmeticOverflow);
    }
    let auction_end_time: i64 = end as i64;
    if state.auction_count == u64::MAX {
        return Err(AuctionError::ArithmeticOverflow);
    }
    state.auction_count = state.auction_count + 1;
    Ok(Order {
        id: state.auction_count,
        trader,
        order_type,
        base_asset,
        quote_asset,
        amount,
        min_price,
        auction_end_time,
        highest_bid: 0,
        winning_bidder: None,
        settled: false,
        buy_now_price,
        start_time: now,
    })
}

/// Largest bid allowed for a bidder expecting `expected_price`: the expected
/// price plus the tolerance, rounded down.
pub open spec fn max_allowed_bid(expected_price: u64, slippage_tolerance: u64) -> int {
    expected_price + (expected_price * slippage_tolerance) / (BPS_DENOMINATOR as int)
}

/// The floor a bid has to reach: the order's minimum price for a first bid,
/// the current highest bid plus the increment afterwards.
pub open spec fn min_next_bid(order: Order, state: State) -> int {
    if order.highest_bid == 0 {
        order.min_price as int
    } else {
        order.highest_bid + state.min_bid_increment
    }
}

/// The stake that counts for `bidder`: only the bidder's own.
pub open spec fn stake_of(stake_info: StakeInfo, bidder: Pubkey) -> u64 {
    if stake_info.owner@ == bidder@ {
        stake_info.amount
    } else {
        0
    }
}

/// The error, if any, with which a bid is refused; the checks run in this
/// order and the first that fails decides. A settled record counts as ended,
/// and a bid of zero is always too low, so that a recorded winner always
/// comes with a positive highest bid.
pub open spec fn bid_error(
    order: Order,
    state: State,
    bidder: Pubkey,
    stake_info: StakeInfo,
    bid_amount: u64,
    expected_price: u64,
    now: i64,
) -> Option<AuctionError> {
    if order.settled || now >= order.auction_end_time {
        Some(AuctionError::AuctionEnded)
    } else if expected_price * state.slippage_tolerance > u64::MAX || max_allowed_bid(
        expected_price,
        state.slippage_tolerance,
    ) > u64::MAX {
        Some(AuctionError::ArithmeticOverflow)
    } else if bid_amount > max_allowed_bid(expected_price, state.slippage_tolerance) {
        Some(AuctionError::ExcessiveSlippage)
    } else if min_next_bid(order, state) > u64::MAX {
        Some(AuctionError::ArithmeticOverflow)
    } else if bid_amount < min_next_bid(order, state) || bid_amount == 0 {
        Some(AuctionError::BidTooLow)
    } else if bid_amount >= state.high_value_threshold && stake_of(stake_info, bidder)
        < state.min_stake {
        Some(AuctionError::InsufficientStake)
    } else {
        None
    }
}

/// The record after an accepted bid: the bid leads, and a bid at or above the
/// buy-now price ends the auction at once.
pub open spec fn order_after_bid(order: Order, bidder: Pubkey, bid_amount: u64, now: i64) -> Order {
    Order {
        highest_bid: bid_amount,
        winning_bidder: Some(bidder),
        auction_end_time: match order.buy_now_price {
            Some(p) => if bid_amount >= p {
                now
            } else {
                order.auction_end_time
            },
            None => order.auction_end_time,
        },
        ..order
    }
}

/// Admits or refuses a bid on `order` at time `now`. A refused bid leaves the
/// record as it was.
pub fn place_bid(
    order: &mut Order,
    state: &State,
    bidder: Pubkey,
    stake_info: &StakeInfo,
    bid_amount: u64,
    expected_price: u64,
    now: i64,
) -> (r: Result<(), AuctionError>)
    ensures
        r == (match bid_error(
            *old(order),
            *state,
            bidder,
            *stake_info,
            bid_amount,
            expected_price,
            now,
        ) {
            Some(e) => Err(e),
            None => Ok(()),
        }),
        r is Ok ==> *final(order) == order_after_bid(*old(order), bidder, bid_amount, now),
        r is Err ==> *final(order) == *old(order),
        old(order).wf() ==> final(order).wf(),
        final(order).highest_bid >= old(order).highest_bid,
        final(order).settled == old(order).settled,
        now >= old(order).auction_end_time ==> r == Err::<(), AuctionError>(
            AuctionError::AuctionEnded,
        ),
        r is Ok ==> bid_amount <= expected_price + (expected_price * state.slippage_tolerance)
            / 10000,
        r is Ok && old(order).highest_bid > 0 ==> bid_amount >= old(order).highest_bid
            + state.min_bid_increment,
        bid_amount >= state.high_value_threshold && stake_info.amount < state.min_stake
            ==> r is Err,
{
    if order.settled || now >= order.auction_end_time {
        return Err(AuctionError::AuctionEnded);
    }
    let max_allowed: u64 = match expected_price.checked_mul(state.slippage_tolerance) {
        Some(scaled) => match expected_price.checked_add(scaled / BPS_DENOMINATOR) {
            Some(m) => m,
            None => return Err(AuctionError::ArithmeticOverflow),
        },
        None => return Err(AuctionError::ArithmeticOverflow),
    };
    if bid_amount > max_allowed {
        return Err(AuctionError::ExcessiveSlippage);
    }
    let min_next: u64 = if order.highest_bid == 0 {
        order.min_price
    } else {
        match order.highest_bid.checked_add(state.min_bid_increment) {
            Some(m) => m,
            None => return Err(AuctionError::ArithmeticOverflow),
        }
    };
    if bid_amount < min_next || bid_amount == 0 {
        return Err(AuctionError::BidTooLow);
    }
    if bid_amount >= state.high_value_threshold {
        let staked: u64 = if stake_info.owner.same_as(&bidder) {
            stake_info.amount
        } else {
            0
        };
        if staked < state.min_stake {
            return Err(AuctionError::InsufficientStake);
        }
    }
    order.highest_bid = bid_amount;
    order.winning_bidder = Some(bidder);
    if let Some(buy_now) = order.buy_now_price {
        if bid_amount >= buy_now {
            order.auction_end_time = now;
        }
    }
    Ok(())
}

} // verus!
