use vstd::prelude::*;
use crate::tally::{compute_net_score, net_score, tally, VoteType};

verus! {

/// The address of an account: 32 bytes.
pub type Pubkey = [u8; 32];

/// The address whose bytes are all 0.
pub open spec fn zero_pubkey() -> Pubkey {
    vstd::array::spec_array_fill_for_copy_type::<u8, 32>(0u8)
}

/// Every byte of the zero address is 0.
pub proof fn lemma_zero_pubkey()
    ensures
        zero_pubkey()@ == Seq::new(32, |i: int| 0u8),
{
    assert(zero_pubkey()@ =~= Seq::new(32, |i: int| 0u8));
}

/// A voter's last vote on one coin. There is one such account for each pair of
/// voter and coin, and each vote overwrites it.
#[derive(Clone, Copy, Debug, PartialEq, Eq)]
pub struct VoteAccount {
    /// Who voted.
    pub voter: Pubkey,
    /// The coin voted on.
    pub coin_mint: Pubkey,
    /// 0 for DOWN, 1 for UP.
    pub vote_type: u8,
    /// When the vote was cast, in seconds since the epoch.
    pub timestamp: i64,
}

/// The votes on one coin, counted.
#[derive(Clone, Copy, Debug, PartialEq, Eq)]
pub struct CoinVoteStats {
    /// The coin.
    pub coin_mint: Pubkey,
    /// How many voters' last vote is UP.
    pub upvotes: u64,
    /// How many voters' last vote is DOWN.
    pub downvotes: u64,
    /// `upvotes - downvotes`.
    pub net_score: i64,
    /// When the counters were last written, in seconds since the epoch.
    pub last_updated: i64,
}

impl VoteAccount {
    /// The stored size in bytes: two addresses, the vote type and the timestamp.
    pub const LEN: usize = 32 + 32 + 1 + 8;

    /// The vote that the account records. An account whose byte is neither 0
    /// nor 1 records none.
    pub open spec fn cast(self) -> Option<VoteType> {
        VoteType::of_byte(self.vote_type)
    }
}

impl CoinVoteStats {
    /// The stored size in bytes: the address, three counters and the timestamp.
    pub const LEN: usize = 32 + 8 + 8 + 8 + 8;

    /// The net score is the difference of the two counters.
    pub open spec fn consistent(self) -> bool {
        self.net_score == net_score(self.upvotes, self.downvotes)
    }

    /// The stats of `coin_mint` before any vote, written at `now`.
    pub open spec fn fresh(coin_mint: Pubkey, now: i64) -> CoinVoteStats {
        CoinVoteStats { coin_mint, upvotes: 0, downvotes: 0, net_score: 0, last_updated: now }
    }

    /// An account as the runtime allocates it: every byte 0.
    pub open spec fn zeroed() -> CoinVoteStats {
        Self::fresh(zero_pubkey(), 0)
    }

    /// The stats after a voter whose last vote on the coin was `previous` casts
    /// `cast` at `now`: the counters follow `tally`, the net score is their
    /// difference, and the coin stays.
    pub open spec fn recorded(self, previous: Option<VoteType>, cast: VoteType, now: i64)
        -> CoinVoteStats {
        let (upvotes, downvotes) = tally(previous, cast, self.upvotes, self.downvotes);
        CoinVoteStats {
            coin_mint: self.coin_mint,
            upvotes,
            downvotes,
            net_score: net_score(upvotes, downvotes),
            last_updated: now,
        }
    }

    /// Makes `Self::fresh(coin_mint, now)`.
    pub fn new(coin_mint: Pubkey, now: i64) -> (stats: CoinVoteStats)
        ensures
            stats == Self::fresh(coin_mint, now),
            stats.consistent(),
    {
        CoinVoteStats { coin_mint, upvotes: 0, downvotes: 0, net_score: 0, last_updated: now }
    }

    /// Counts one vote: `self` becomes `self.recorded(previous, cast, now)`.
    pub fn record(&mut self, previous: Option<VoteType>, cast: VoteType, now: i64)
        ensures
            *final(self) == old(self).recorded(previous, cast, now),
            final(self).consistent(),
    {
        match (previous, cast) {
            (None, VoteType::Up) => {
                self.upvotes = self.upvotes.saturating_add(1);
            },
            (None, VoteType::Down) => {
                self.downvotes = self.downvotes.saturating_add(1);
            },
            (Some(VoteType::Down), VoteType::Up) => {
                self.downvotes = self.downvotes.saturating_sub(1);
                self.upvotes = self.upvotes.saturating_add(1);
            },
            (Some(VoteType::Up), VoteType::Down) => {
                self.upvotes = self.upvotes.saturating_sub(1);
                self.downvotes = self.downvotes.saturating_add(1);
            },
            (Some(VoteType::Down), VoteType::Down) => {},
            (Some(VoteType::Up), VoteType::Up) => {},
        }
        self.net_score = compute_net_score(self.upvotes, self.downvotes);
        self.last_updated = now;
    }
}

} // verus!
