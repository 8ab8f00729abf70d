use vstd::prelude::*;

verus! {

/// The direction of a vote. An account stores it in one byte.
#[derive(Clone, Copy, Debug, PartialEq, Eq)]
pub enum VoteType {
    /// Stored as 0.
    Down,
    /// Stored as 1.
    Up,
}

impl VoteType {
    /// The vote that a stored byte stands for, if any.
    pub open spec fn of_byte(byte: u8) -> Option<VoteType> {
        if byte == 0 {
            Some(VoteType::Down)
        } else if byte == 1 {
            Some(VoteType::Up)
        } else {
            None
        }
    }

    /// The byte under which the vote is stored.
    pub open spec fn byte(self) -> u8 {
        match self {
            VoteType::Down => 0,
            VoteType::Up => 1,
        }
    }

    /// Reads a vote from its byte: `Some` for 0 and 1 only.
    pub fn from_u8(byte: u8) -> (vote: Option<VoteType>)
        ensures
            vote == Self::of_byte(byte),
    {
        if byte == 0 {
            Some(VoteType::Down)
        } else if byte == 1 {
            Some(VoteType::Up)
        } else {
            None
        }
    }

    /// The byte under which the vote is stored: 0 for DOWN, 1 for UP.
    pub fn to_u8(self) -> (byte: u8)
        ensures
            byte == self.byte(),
    {
        match self {
            VoteType::Down => 0,
            VoteType::Up => 1,
        }
    }
}

/// `count + 1`, held at `u64::MAX`.
pub open spec fn one_more(count: u64) -> u64 {
    if count < u64::MAX {
        (count + 1) as u64
    } else {
        count
    }
}

/// `count - 1`, held at 0.
pub open spec fn one_less(count: u64) -> u64 {
    if count > 0 {
        (count - 1) as u64
    } else {
        count
    }
}

/// The counters `(upvotes, downvotes)` after a voter whose last vote on the coin
/// was `previous` casts `cast`.
///
/// A first vote adds one to its counter, a changed vote moves one from the
/// other counter to its own, and a repeated vote changes nothing.
pub open spec fn tally(previous: Option<VoteType>, cast: VoteType, upvotes: u64, downvotes: u64)
    -> (u64, u64) {
    match (previous, cast) {
        (None, VoteType::Up) => (one_more(upvotes), downvotes),
        (None, VoteType::Down) => (upvotes, one_more(downvotes)),
        (Some(VoteType::Down), VoteType::Up) => (one_more(upvotes), one_less(downvotes)),
        (Some(VoteType::Up), VoteType::Down) => (one_less(upvotes), one_more(downvotes)),
        (Some(VoteType::Down), VoteType::Down) => (upvotes, downvotes),
        (Some(VoteType::Up), VoteType::Up) => (upvotes, downvotes),
    }
}

/// `upvotes - downvotes` as an `i64`. Where the difference does not fit, it is
/// taken modulo 2^64 into the range of `i64`.
pub open spec fn net_score(upvotes: u64, downvotes: u64) -> i64 {
    let difference = upvotes - downvotes;
    if difference > i64::MAX {
        (difference - 0x1_0000_0000_0000_0000) as i64
    } else if difference < i64::MIN {
        (difference + 0x1_0000_0000_0000_0000) as i64
    } else {
        difference as i64
    }
}

/// Computes `net_score(upvotes, downvotes)`.
pub fn compute_net_score(upvotes: u64, downvotes: u64) -> (score: i64)
    ensures
        score == net_score(upvotes, downvotes),
        i64::MIN <= upvotes - downvotes <= i64::MAX ==> score == upvotes - downvotes,
{
    let half: u64 = 0x8000_0000_0000_0000;
    if upvotes >= downvotes {
        let difference: u64 = upvotes - downvotes;
        if difference < half {
            difference as i64
        } else {
            ((difference - half) as i64) + i64::MIN
        }
    } else {
        let difference: u64 = downvotes - upvotes;
        if difference <= half {
            -((difference - 1) as i64) - 1
        } else {
            ((u64::MAX - difference) as i64) + 1
        }
    }
}

} // verus!
