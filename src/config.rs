use vstd::prelude::*;

use crate::types::{AuctionError, Pubkey};

verus! {

/// Configuration shared by every auction.
#[derive(Clone, Copy, Debug)]
pub struct State {
    pub admin: Pubkey,
    pub governance: Pubkey,
    pub reward_mint: Pubkey,
    /// Number of orders placed so far; also the identifier of the latest one.
    pub auction_count: u64,
    pub min_bid_increment: u64,
    /// Slippage tolerance in basis points (100 is one percent).
    pub slippage_tolerance: u64,
    pub high_value_threshold: u64,
    pub min_stake: u64,
    /// Stored and updatable, but no vesting is applied to rewards.
    pub reward_vesting_period: i64,
}

impl State {
    /// The tunable parameters equal the given values; identities and the
    /// counter are not part of this predicate.
    pub open spec fn has_params(
        self,
        min_bid_increment: u64,
        slippage_tolerance: u64,
        high_value_threshold: u64,
        min_stake: u64,
        reward_vesting_period: i64,
    ) -> bool {
        &&& self.min_bid_increment == min_bid_increment
        &&& self.slippage_tolerance == slippage_tolerance
        &&& self.high_value_threshold == high_value_threshold
        &&& self.min_stake == min_stake
        &&& self.reward_vesting_period == reward_vesting_period
    }

    /// The caller may change the parameters.
    pub open spec fn may_update(self, caller: Pubkey) -> bool {
        caller@ == self.admin@ || caller@ == self.governance@
    }
}

/// Creates the configuration with the auction counter at zero.
pub fn initialize(
    admin: Pubkey,
    reward_mint: Pubkey,
    governance: Pubkey,
    min_bid_increment: u64,
    slippage_tolerance: u64,
    high_value_threshold: u64,
    min_stake: u64,
    reward_vesting_period: i64,
) -> (r: State)
    ensures
        r.admin == admin,
        r.governance == governance,
        r.reward_mint == reward_mint,
        r.auction_count == 0,
        r.has_params(
            min_bid_increment,
            slippage_tolerance,
            high_value_threshold,
            min_stake,
            reward_vesting_period,
        ),
{
    State {
        admin,
        governance,
        reward_mint,
        auction_count: 0,
        min_bid_increment,
        slippage_tolerance,
        high_value_threshold,
        min_stake,
        reward_vesting_period,
    }
}

/// Replaces all five tunable parameters at once, for the administrator or the
/// governance identity only.
pub fn update_auction_parameters(
    state: &mut State,
    updater: Pubkey,
    min_bid_increment: u64,
    slippage_tolerance: u64,
    high_value_threshold: u64,
    min_stake: u64,
    reward_vesting_period: i64,
) -> (r: Result<(), AuctionError>)
    ensures
        old(state).may_update(updater) ==> r is Ok,
        !old(state).may_update(updater) ==> r == Err::<(), AuctionError>(AuctionError::Unauthorized),
        r is Ok ==> {
            &&& final(state).has_params(
                min_bid_increment,
                slippage_tolerance,
                high_value_threshold,
                min_stake,
                reward_vesting_period,
            )
            &&& final(state).admin == old(state).admin
            &&& final(state).governance == old(state).governance
            &&& final(state).reward_mint == old(state).reward_mint
            &&& final(state).auction_count == old(state).auction_count
        },
        r is Err ==> *final(state) == *old(state),
{
    if !updater.same_as(&state.admin) && !updater.same_as(&state.governance) {
        return Err(AuctionError::Unauthorized);
    }
    state.min_bid_increment = min_bid_increment;
    state.slippage_tolerance = slippage_tolerance;
    state.high_value_threshold = high_value_threshold;
    state.min_stake = min_stake;
    state.reward_vesting_period = reward_vesting_period;
    Ok(())
}

} // verus!
