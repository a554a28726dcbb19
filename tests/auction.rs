use smart_otc_auction::{
    initialize, place_bid, place_order, settle_auction, update_auction_parameters, AuctionError,
    Order, OrderType, Pubkey, StakeInfo, State, TraderStats, SETTLEMENT_REWARD,
};

fn key(b: u8) -> Pubkey {
    Pubkey::new_from_array([b; 32])
}

fn config() -> State {
    initialize(key(1), key(3), key(2), 10, 100, 10000, 500, 3600)
}

fn open_order(state: &mut State, min_price: u64, buy_now: Option<u64>, now: i64) -> Order {
    place_order(
        state,
        key(10),
        OrderType::Sell,
        key(20),
        key(21),
        1000,
        min_price,
        60,
        buy_now,
        now,
    )
    .unwrap()
}

fn stake(owner: u8, amount: u64) -> StakeInfo {
    StakeInfo { owner: key(owner), amount }
}

fn empty_stats(owner: u8) -> TraderStats {
    TraderStats { trader: key(owner), total_volume: 0, win_count: 0, total_response_time: 0 }
}

#[test]
fn initialize_sets_counter_and_params() {
    let s = config();
    assert_eq!(s.auction_count, 0);
    assert_eq!(s.min_bid_increment, 10);
    assert_eq!(s.slippage_tolerance, 100);
    assert_eq!(s.high_value_threshold, 10000);
    assert_eq!(s.min_stake, 500);
    assert_eq!(s.reward_vesting_period, 3600);
    assert!(s.admin == key(1));
    assert!(s.governance == key(2));
    assert!(s.reward_mint == key(3));
}

#[test]
fn place_order_assigns_sequential_ids() {
    let mut s = config();
    let a = open_order(&mut s, 100, None, 1000);
    let b = open_order(&mut s, 100, None, 1005);
    assert_eq!(a.id, 1);
    assert_eq!(b.id, 2);
    assert_eq!(s.auction_count, 2);
    assert_eq!(a.start_time, 1000);
    assert_eq!(a.auction_end_time, 1060);
    assert_eq!(a.highest_bid, 0);
    assert!(a.winning_bidder.is_none());
    assert!(!a.settled);
}

#[test]
fn place_order_rejects_zero_duration() {
    let mut s = config();
    let r = place_order(&mut s, key(10), OrderType::Buy, key(20), key(21), 5, 1, 0, None, 0);
    assert_eq!(r.unwrap_err(), AuctionError::InvalidDuration);
    assert_eq!(s.auction_count, 0);
}

#[test]
fn place_order_rejects_end_time_overflow() {
    let mut s = config();
    let r = place_order(&mut s, key(10), OrderType::Buy, key(20), key(21), 5, 1, 10, None, i64::MAX - 5);
    assert_eq!(r.unwrap_err(), AuctionError::ArithmeticOverflow);
    assert_eq!(s.auction_count, 0);
}

#[test]
fn place_order_rejects_counter_overflow() {
    let mut s = config();
    s.auction_count = u64::MAX;
    let r = place_order(&mut s, key(10), OrderType::Buy, key(20), key(21), 5, 1, 10, None, 0);
    assert_eq!(r.unwrap_err(), AuctionError::ArithmeticOverflow);
    assert_eq!(s.auction_count, u64::MAX);
}

#[test]
fn example_scenario() {
    let mut s = config();
    let mut o = open_order(&mut s, 100, None, 0);
    // first bid at the minimum price, max allowed is 101
    assert_eq!(place_bid(&mut o, &s, key(30), &stake(30, 0), 100, 100, 1), Ok(()));
    assert_eq!(o.highest_bid, 100);
    assert!(o.winning_bidder == Some(key(30)));
    // slippage is checked before the increment: 105 exceeds the max allowed of 101
    assert_eq!(
        place_bid(&mut o, &s, key(31), &stake(31, 0), 105, 100, 2),
        Err(AuctionError::ExcessiveSlippage)
    );
    // within slippage (max allowed 106), but the next bid needs at least 110
    assert_eq!(place_bid(&mut o, &s, key(31), &stake(31, 0), 105, 105, 2), Err(AuctionError::BidTooLow));
    // 110 exceeds the max allowed of 101
    assert_eq!(
        place_bid(&mut o, &s, key(31), &stake(31, 0), 110, 100, 3),
        Err(AuctionError::ExcessiveSlippage)
    );
    assert_eq!(place_bid(&mut o, &s, key(31), &stake(31, 0), 110, 109, 4), Ok(()));
    assert_eq!(o.highest_bid, 110);
    assert!(o.winning_bidder == Some(key(31)));

    let mut ts = empty_stats(10);
    let mut bs = empty_stats(31);
    assert_eq!(
        settle_auction(&mut o, &s, &mut ts, &mut bs, 59).unwrap_err(),
        AuctionError::AuctionNotEnded
    );
    let fx = settle_auction(&mut o, &s, &mut ts, &mut bs, 60).unwrap();
    assert!(o.settled);
    assert!(fx.creator == key(10));
    assert!(fx.winner == key(31));
    assert!(fx.base_asset == key(20));
    assert!(fx.reward_mint == key(3));
    assert_eq!(fx.amount, 1000);
    assert_eq!(fx.reward_amount, SETTLEMENT_REWARD);
    assert_eq!(fx.auction_duration, 60);
    assert_eq!(
        settle_auction(&mut o, &s, &mut ts, &mut bs, 61).unwrap_err(),
        AuctionError::AlreadySettled
    );
}

#[test]
fn bid_after_end_is_refused_and_changes_nothing() {
    let mut s = config();
    let mut o = open_order(&mut s, 100, None, 0);
    let before = o;
    assert_eq!(place_bid(&mut o, &s, key(30), &stake(30, 0), 100, 100, 60), Err(AuctionError::AuctionEnded));
    assert_eq!(o.highest_bid, before.highest_bid);
    assert!(o.winning_bidder.is_none());
    assert_eq!(o.auction_end_time, before.auction_end_time);
}

#[test]
fn slippage_bound_is_floored() {
    let mut s = config();
    let mut o = open_order(&mut s, 1, None, 0);
    // 199 * 100 / 10000 = 1.99, floored to 1: max allowed 200
    assert_eq!(
        place_bid(&mut o, &s, key(30), &stake(30, 0), 201, 199, 1),
        Err(AuctionError::ExcessiveSlippage)
    );
    assert_eq!(place_bid(&mut o, &s, key(30), &stake(30, 0), 200, 199, 1), Ok(()));
}

#[test]
fn slippage_overflow_is_reported() {
    let mut s = config();
    let mut o = open_order(&mut s, 1, None, 0);
    assert_eq!(
        place_bid(&mut o, &s, key(30), &stake(30, 0), 5, u64::MAX, 1),
        Err(AuctionError::ArithmeticOverflow)
    );
    assert!(o.winning_bidder.is_none());
}

#[test]
fn increment_overflow_is_reported() {
    let mut s = config();
    s.slippage_tolerance = 0;
    s.high_value_threshold = u64::MAX;
    let mut o = open_order(&mut s, 1, None, 0);
    assert_eq!(place_bid(&mut o, &s, key(30), &stake(30, 0), u64::MAX - 5, u64::MAX - 5, 1), Ok(()));
    assert_eq!(
        place_bid(&mut o, &s, key(31), &stake(31, 0), u64::MAX, u64::MAX, 2),
        Err(AuctionError::ArithmeticOverflow)
    );
    assert_eq!(o.highest_bid, u64::MAX - 5);
}

#[test]
fn next_bid_needs_increment() {
    let mut s = config();
    let mut o = open_order(&mut s, 100, None, 0);
    assert_eq!(place_bid(&mut o, &s, key(30), &stake(30, 0), 150, 150, 1), Ok(()));
    assert_eq!(place_bid(&mut o, &s, key(31), &stake(31, 0), 159, 159, 2), Err(AuctionError::BidTooLow));
    assert_eq!(place_bid(&mut o, &s, key(31), &stake(31, 0), 160, 160, 2), Ok(()));
}

#[test]
fn zero_bid_is_too_low() {
    let mut s = config();
    let mut o = open_order(&mut s, 0, None, 0);
    assert_eq!(place_bid(&mut o, &s, key(30), &stake(30, 0), 0, 0, 1), Err(AuctionError::BidTooLow));
    assert!(o.winning_bidder.is_none());
}

#[test]
fn high_value_bid_needs_stake() {
    let mut s = config();
    let mut o = open_order(&mut s, 100, None, 0);
    assert_eq!(
        place_bid(&mut o, &s, key(30), &stake(30, 499), 10000, 10000, 1),
        Err(AuctionError::InsufficientStake)
    );
    // a stake owned by someone else does not count
    assert_eq!(
        place_bid(&mut o, &s, key(30), &stake(31, 5000), 10000, 10000, 1),
        Err(AuctionError::InsufficientStake)
    );
    assert_eq!(place_bid(&mut o, &s, key(30), &stake(30, 500), 10000, 10000, 1), Ok(()));
}

#[test]
fn bid_under_threshold_needs_no_stake() {
    let mut s = config();
    let mut o = open_order(&mut s, 100, None, 0);
    assert_eq!(place_bid(&mut o, &s, key(30), &stake(30, 0), 9999, 9999, 1), Ok(()));
}

#[test]
fn buy_now_ends_auction_at_once() {
    let mut s = config();
    let mut o = open_order(&mut s, 100, Some(150), 0);
    assert_eq!(place_bid(&mut o, &s, key(30), &stake(30, 0), 120, 120, 5), Ok(()));
    assert_eq!(o.auction_end_time, 60);
    assert_eq!(place_bid(&mut o, &s, key(31), &stake(31, 0), 150, 150, 7), Ok(()));
    assert_eq!(o.auction_end_time, 7);
    assert_eq!(place_bid(&mut o, &s, key(32), &stake(32, 0), 160, 160, 7), Err(AuctionError::AuctionEnded));
    let mut ts = empty_stats(10);
    let mut bs = empty_stats(31);
    let fx = settle_auction(&mut o, &s, &mut ts, &mut bs, 7).unwrap();
    assert_eq!(fx.auction_duration, 7);
}

#[test]
fn settle_without_bids_is_refused() {
    let mut s = config();
    let mut o = open_order(&mut s, 100, None, 0);
    let mut ts = empty_stats(10);
    let mut bs = empty_stats(31);
    assert_eq!(settle_auction(&mut o, &s, &mut ts, &mut bs, 1000).unwrap_err(), AuctionError::NoWinningBid);
    assert!(!o.settled);
    assert_eq!(ts.total_volume, 0);
}

#[test]
fn settle_before_start_is_refused() {
    let mut s = config();
    let mut o = open_order(&mut s, 100, Some(100), 50);
    assert_eq!(place_bid(&mut o, &s, key(30), &stake(30, 0), 100, 100, 20), Ok(()));
    assert_eq!(o.auction_end_time, 20);
    let mut ts = empty_stats(10);
    let mut bs = empty_stats(30);
    assert_eq!(settle_auction(&mut o, &s, &mut ts, &mut bs, 30).unwrap_err(), AuctionError::InvalidTimestamp);
    assert!(!o.settled);
}

#[test]
fn settle_overflow_changes_nothing() {
    let mut s = config();
    let mut o = open_order(&mut s, 100, None, 0);
    assert_eq!(place_bid(&mut o, &s, key(30), &stake(30, 0), 100, 100, 1), Ok(()));
    let mut ts = empty_stats(10);
    let mut bs = empty_stats(30);
    bs.total_volume = u64::MAX - 1;
    assert_eq!(settle_auction(&mut o, &s, &mut ts, &mut bs, 60).unwrap_err(), AuctionError::ArithmeticOverflow);
    assert!(!o.settled);
    assert_eq!(ts.total_volume, 0);
    assert_eq!(bs.win_count, 0);
}

#[test]
fn settlement_updates_reputation() {
    let mut s = config();
    let mut o = open_order(&mut s, 100, None, 0);
    assert_eq!(place_bid(&mut o, &s, key(30), &stake(30, 0), 100, 100, 1), Ok(()));
    let mut ts = TraderStats { trader: key(10), total_volume: 7, win_count: 2, total_response_time: 3 };
    let mut bs = TraderStats { trader: key(30), total_volume: 40, win_count: 4, total_response_time: 5 };
    settle_auction(&mut o, &s, &mut ts, &mut bs, 75).unwrap();
    assert_eq!(ts.total_volume, 1007);
    assert_eq!(ts.win_count, 2);
    assert_eq!(ts.total_response_time, 78);
    assert_eq!(bs.total_volume, 1040);
    assert_eq!(bs.win_count, 5);
    assert_eq!(bs.total_response_time, 80);
    assert!(bs.trader == key(30));
}

#[test]
fn reputation_volume_sums_over_settlements() {
    let mut s = config();
    let mut ts = empty_stats(10);
    let mut bs = empty_stats(30);
    for round in 0..3i64 {
        let mut o = open_order(&mut s, 100, None, round * 100);
        assert_eq!(place_bid(&mut o, &s, key(30), &stake(30, 0), 100, 100, round * 100 + 1), Ok(()));
        settle_auction(&mut o, &s, &mut ts, &mut bs, round * 100 + 60).unwrap();
    }
    assert_eq!(ts.total_volume, 3000);
    assert_eq!(bs.total_volume, 3000);
    assert_eq!(bs.win_count, 3);
    assert_eq!(ts.total_response_time, 180);
}

#[test]
fn update_parameters_by_admin_and_governance() {
    let mut s = config();
    assert_eq!(update_auction_parameters(&mut s, key(1), 1, 2, 3, 4, 5), Ok(()));
    assert_eq!(s.min_bid_increment, 1);
    assert_eq!(s.slippage_tolerance, 2);
    assert_eq!(s.high_value_threshold, 3);
    assert_eq!(s.min_stake, 4);
    assert_eq!(s.reward_vesting_period, 5);
    assert_eq!(update_auction_parameters(&mut s, key(2), 6, 7, 8, 9, 10), Ok(()));
    assert_eq!(s.min_bid_increment, 6);
    assert_eq!(s.reward_vesting_period, 10);
}

#[test]
fn update_parameters_by_stranger_is_refused() {
    let mut s = config();
    assert_eq!(update_auction_parameters(&mut s, key(9), 1, 2, 3, 4, 5), Err(AuctionError::Unauthorized));
    assert_eq!(s.min_bid_increment, 10);
    assert_eq!(s.min_stake, 500);
}

#[test]
fn keys_compare_by_bytes() {
    let mut b = [7u8; 32];
    let a = Pubkey::new_from_array(b);
    b[31] = 8;
    let c = Pubkey::new_from_array(b);
    assert!(a == key(7));
    assert!(a != c);
    assert!(!a.same_as(&c));
    assert_eq!(c.to_bytes()[31], 8);
}

#[test]
fn self_trade_credits_one_entry_twice() {
    let mut s = config();
    let mut o = open_order(&mut s, 100, None, 0);
    assert_eq!(place_bid(&mut o, &s, key(10), &stake(10, 0), 100, 100, 1), Ok(()));
    let mut ts = TraderStats { trader: key(10), total_volume: 5, win_count: 1, total_response_time: 2 };
    let mut bs = ts;
    let fx = settle_auction(&mut o, &s, &mut ts, &mut bs, 60).unwrap();
    assert!(fx.creator == fx.winner);
    assert_eq!(ts.total_volume, 2005);
    assert_eq!(ts.win_count, 2);
    assert_eq!(ts.total_response_time, 122);
    assert_eq!(bs.total_volume, 5);
    assert_eq!(bs.win_count, 1);
    assert_eq!(bs.total_response_time, 2);
}

#[test]
fn self_trade_overflow_counts_both_credits() {
    let mut s = config();
    let mut o = open_order(&mut s, 100, None, 0);
    assert_eq!(place_bid(&mut o, &s, key(10), &stake(10, 0), 100, 100, 1), Ok(()));
    // one credit of 1000 would fit, two do not
    let mut ts = TraderStats { trader: key(10), total_volume: u64::MAX - 1500, win_count: 0, total_response_time: 0 };
    let mut bs = ts;
    assert_eq!(settle_auction(&mut o, &s, &mut ts, &mut bs, 60).unwrap_err(), AuctionError::ArithmeticOverflow);
    assert!(!o.settled);
    assert_eq!(ts.total_volume, u64::MAX - 1500);
}
