use vstd::prelude::*;
use crate::clock::unix_timestamp;
use crate::error::ErrorCode;
use crate::state::{CoinVoteStats, Pubkey, VoteAccount};
use crate::tally::VoteType;

verus! {

/// The accounts of one `vote` instruction: the voter's vote account for the
/// coin and the coin's stats account, each `None` until it is first written,
/// and the voter's own address.
#[derive(Clone, Copy, Debug, PartialEq, Eq)]
pub struct Vote {
    /// The voter's last vote on the coin; `None` where the voter has not voted
    /// on it yet.
    pub vote_account: Option<VoteAccount>,
    /// The coin's stats; `None` where neither a vote nor `initialize_stats`
    /// has written them yet.
    pub stats_account: Option<CoinVoteStats>,
    /// Who votes.
    pub voter: Pubkey,
}

/// The accounts of one `initialize_stats` instruction.
#[derive(Clone, Copy, Debug, PartialEq, Eq)]
pub struct InitializeStats {
    /// The coin's stats; `None` where they do not exist yet.
    pub stats_account: Option<CoinVoteStats>,
}

impl Vote {
    /// The voter's last vote on the coin, as the vote account records it.
    pub open spec fn previous(self) -> Option<VoteType> {
        match self.vote_account {
            Some(account) => account.cast(),
            None => None,
        }
    }

    /// The stats that the vote is counted on: those of the stats account, or
    /// an account of zeros where there is none yet.
    pub open spec fn stats(self) -> CoinVoteStats {
        match self.stats_account {
            Some(stats) => stats,
            None => CoinVoteStats::zeroed(),
        }
    }

    /// The accounts after the voter casts `cast` on `coin_mint` at `now`: the
    /// vote account holds this vote, whatever it held before, and the stats
    /// have counted it against the previous one.
    pub open spec fn voted(self, coin_mint: Pubkey, cast: VoteType, now: i64) -> Vote {
        Vote {
            vote_account: Some(
                VoteAccount {
                    voter: self.voter,
                    coin_mint,
                    vote_type: cast.byte(),
                    timestamp: now,
                },
            ),
            stats_account: Some(self.stats().recorded(self.previous(), cast, now)),
            voter: self.voter,
        }
    }

    /// The accounts after the voter casts the votes of `casts` on `coin_mint`
    /// one after the other, each given with its time.
    pub open spec fn voted_each(self, coin_mint: Pubkey, casts: Seq<(VoteType, i64)>) -> Vote
        decreases casts.len(),
    {
        if casts.len() == 0 {
            self
        } else {
            self.voted_each(coin_mint, casts.drop_last()).voted(
                coin_mint,
                casts.last().0,
                casts.last().1,
            )
        }
    }

    /// What `vote` leaves and returns when the runtime's clock reads `clock`
    /// (`None`: it hands out no clock).
    ///
    /// A `vote_type` other than 0 and 1 is refused whatever the clock, a vote
    /// without a clock is refused, and a refused vote leaves the accounts as
    /// they were: none is created. Any other vote is cast.
    pub open spec fn vote_outcome(self, coin_mint: Pubkey, vote_type: u8, clock: Option<i64>) -> (
        Vote,
        Result<(), ErrorCode>,
    ) {
        match (VoteType::of_byte(vote_type), clock) {
            (None, _) => (self, Err(ErrorCode::InvalidVoteType)),
            (Some(_), None) => (self, Err(ErrorCode::ClockUnavailable)),
            (Some(cast), Some(now)) => (self.voted(coin_mint, cast, now), Ok(())),
        }
    }
}

impl InitializeStats {
    /// The accounts after the stats of `coin_mint` are created at `now`.
    pub open spec fn initialized(self, coin_mint: Pubkey, now: i64) -> InitializeStats {
        InitializeStats { stats_account: Some(CoinVoteStats::fresh(coin_mint, now)) }
    }

    /// What `initialize_stats` leaves and returns when the runtime's clock
    /// reads `clock` (`None`: it hands out no clock).
    ///
    /// Stats that exist are never written again: the call is refused whatever
    /// the clock. A call without a clock is refused too, and a refused call
    /// leaves the accounts as they were. Any other call creates the stats.
    pub open spec fn initialize_outcome(self, coin_mint: Pubkey, clock: Option<i64>) -> (
        InitializeStats,
        Result<(), ErrorCode>,
    ) {
        match (self.stats_account, clock) {
            (Some(_), _) => (self, Err(ErrorCode::AlreadyInitialized)),
            (None, None) => (self, Err(ErrorCode::ClockUnavailable)),
            (None, Some(now)) => (self.initialized(coin_mint, now), Ok(())),
        }
    }
}

/// Casts a vote at the time `now`.
///
/// A `vote_type` other than 0 (DOWN) and 1 (UP) is refused with
/// `InvalidVoteType`, and nothing is written. Any other vote succeeds and
/// leaves `ctx.voted(..)`: both accounts exist afterwards. Stats that the vote
/// creates start from zeros and keep the zero address for their coin: only
/// `initialize_stats` writes the coin into stats.
pub fn vote_at(ctx: &mut Vote, coin_mint: Pubkey, vote_type: u8, now: i64) -> (result: Result<
    (),
    ErrorCode,
>)
    ensures
        (*final(ctx), result) == old(ctx).vote_outcome(coin_mint, vote_type, Some(now)),
{
    let cast = match VoteType::from_u8(vote_type) {
        Some(cast) => cast,
        None => {
            return Err(ErrorCode::InvalidVoteType);
        },
    };
    let previous = match &ctx.vote_account {
        Some(account) => VoteType::from_u8(account.vote_type),
        None => None,
    };
    let mut stats = match ctx.stats_account {
        Some(stats) => stats,
        None => CoinVoteStats::new([0u8; 32], 0),
    };
    stats.record(previous, cast, now);
    ctx.vote_account = Some(
        VoteAccount { voter: ctx.voter, coin_mint, vote_type: cast.to_u8(), timestamp: now },
    );
    ctx.stats_account = Some(stats);
    Ok(())
}

/// Casts a vote at the runtime's time.
///
/// A `vote_type` other than 0 (DOWN) and 1 (UP) is refused with
/// `InvalidVoteType` before the clock is read. Where the runtime hands out no
/// clock, the vote is refused with `ClockUnavailable`. A refused vote writes
/// nothing. Any other vote succeeds as `vote_at` does at the time read.
pub fn vote(ctx: &mut Vote, coin_mint: Pubkey, vote_type: u8) -> (result: Result<(), ErrorCode>)
    ensures
        exists|clock: Option<i64>|
            (*final(ctx), result) == #[trigger] old(ctx).vote_outcome(coin_mint, vote_type, clock),
{
    if VoteType::from_u8(vote_type).is_none() {
        let result = Err(ErrorCode::InvalidVoteType);
        assert((*ctx, result) == old(ctx).vote_outcome(coin_mint, vote_type, None));
        return result;
    }
    let clock = unix_timestamp();
    let result = match clock {
        Some(now) => vote_at(ctx, coin_mint, vote_type, now),
        None => Err(ErrorCode::ClockUnavailable),
    };
    assert((*ctx, result) == old(ctx).vote_outcome(coin_mint, vote_type, clock));
    result
}

/// Creates the stats of `coin_mint` at the runtime's time.
///
/// Where the stats account exists already, the call is refused with
/// `AlreadyInitialized` before the clock is read. Where the runtime hands out
/// no clock, it is refused with `ClockUnavailable`. A refused call writes
/// nothing. Any other call succeeds as `initialize_stats_at` does at the time
/// read.
pub fn initialize_stats(ctx: &mut InitializeStats, coin_mint: Pubkey) -> (result: Result<
    (),
    ErrorCode,
>)
    ensures
        exists|clock: Option<i64>|
            (*final(ctx), result) == #[trigger] old(ctx).initialize_outcome(coin_mint, clock),
{
    if ctx.stats_account.is_some() {
        let result = Err(ErrorCode::AlreadyInitialized);
        assert((*ctx, result) == old(ctx).initialize_outcome(coin_mint, None));
        return result;
    }
    let clock = unix_timestamp();
    let result = match clock {
        Some(now) => initialize_stats_at(ctx, coin_mint, now),
        None => Err(ErrorCode::ClockUnavailable),
    };
    assert((*ctx, result) == old(ctx).initialize_outcome(coin_mint, clock));
    result
}

/// Creates the stats of `coin_mint` at the time `now`.
///
/// Where the stats account exists already, the call is refused with
/// `AlreadyInitialized` and the account is left as it is. Otherwise the account
/// is created with both counters and the net score at 0.
pub fn initialize_stats_at(ctx: &mut InitializeStats, coin_mint: Pubkey, now: i64) -> (result:
    Result<(), ErrorCode>)
    ensures
        (*final(ctx), result) == old(ctx).initialize_outcome(coin_mint, Some(now)),
{
    if ctx.stats_account.is_some() {
        return Err(ErrorCode::AlreadyInitialized);
    }
    ctx.stats_account = Some(CoinVoteStats::new(coin_mint, now));
    Ok(())
}

} // verus!
