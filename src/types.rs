use vstd::prelude::*;

verus! {

/// Identity of a participant, an asset or a mint: 32 opaque bytes.
#[derive(Clone, Copy, Debug)]
pub struct Pubkey {
    pub bytes: [u8; 32],
}

impl View for Pubkey {
    type V = Seq<u8>;

    open spec fn view(&self) -> Seq<u8> {
        self.bytes@
    }
}

impl Pubkey {
    pub fn new_from_array(bytes: [u8; 32]) -> (r: Pubkey)
        ensures
            r.bytes == bytes,
    {
        Pubkey { bytes }
    }

    pub fn to_bytes(&self) -> (r: [u8; 32])
        ensures
            r == self.bytes,
    {
        self.bytes
    }

    /// Byte-wise comparison of two identities.
    pub fn same_as(&self, other: &Pubkey) -> (r: bool)
        ensures
            r == (self@ == other@),
    {
        let mut i: usize = 0;
        while i < 32
            invariant
                0 <= i <= 32,
                self@.len() == 32,
                other@.len() == 32,
                forall|j: int| 0 <= j < i ==> self@[j] == other@[j],
            decreases 32 - i,
        {
            if self.bytes[i] != other.bytes[i] {
                return false;
            }
            i = i + 1;
        }
        proof {
            assert(self@ =~= other@);
        }
        true
    }
}

impl PartialEq for Pubkey {
    fn eq(&self, other: &Pubkey) -> (r: bool) {
        self.same_as(other)
    }
}

impl vstd::std_specs::cmp::PartialEqSpecImpl for Pubkey {
    open spec fn obeys_eq_spec() -> bool {
        true
    }

    open spec fn eq_spec(&self, other: &Pubkey) -> bool {
        self@ == other@
    }
}

impl Eq for Pubkey {
}

/// Side of an OTC order.
#[derive(Clone, Copy, Debug, PartialEq, Eq, Structural)]
pub enum OrderType {
    Buy,
    Sell,
}

/// Reasons an operation is rejected. A rejected operation changes nothing.
#[derive(Clone, Copy, Debug, PartialEq, Eq, Structural)]
pub enum AuctionError {
    /// The auction no longer accepts bids.
    AuctionEnded,
    /// The bid is under the current floor.
    BidTooLow,
    /// The auction's end time has not been reached.
    AuctionNotEnded,
    /// Nobody has bid on the auction.
    NoWinningBid,
    /// The caller is neither the administrator nor the governance identity.
    Unauthorized,
    /// The bid exceeds the bidder's expected price plus the slippage tolerance.
    ExcessiveSlippage,
    /// A high-value bid from a bidder without the minimum stake.
    InsufficientStake,
    /// The auction has been settled already.
    AlreadySettled,
    /// A checked arithmetic step would overflow.
    ArithmeticOverflow,
    /// An order was placed with a zero duration.
    InvalidDuration,
    /// Settlement time lies before the auction's start time.
    InvalidTimestamp,
}

} // verus!
