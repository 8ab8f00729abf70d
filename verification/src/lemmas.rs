use vstd::prelude::*;
use crate::error::ErrorCode;
use crate::instructions::{InitializeStats, Vote};
use crate::state::Pubkey;
use crate::tally::{tally, VoteType};

verus! {

/// One for an UP vote, nothing for a DOWN vote.
pub open spec fn ups(cast: VoteType) -> int {
    if cast == VoteType::Up {
        1
    } else {
        0
    }
}

/// One for a DOWN vote, nothing for an UP vote.
pub open spec fn downs(cast: VoteType) -> int {
    if cast == VoteType::Down {
        1
    } else {
        0
    }
}

/// After a vote the net score is the difference of the two counters: always as
/// `net_score` defines it, and to the number wherever the difference is an
/// `i64`.
pub proof fn lemma_vote_sets_net_score(ctx: Vote, coin_mint: Pubkey, cast: VoteType, now: i64)
    ensures
        ctx.voted(coin_mint, cast, now).stats_account is Some,
        ctx.voted(coin_mint, cast, now).stats_account->0.consistent(),
        ({
            let stats = ctx.voted(coin_mint, cast, now).stats_account->0;
            i64::MIN <= stats.upvotes - stats.downvotes <= i64::MAX ==> stats.net_score
                == stats.upvotes - stats.downvotes
        }),
{
}

/// After each vote of any sequence of votes by one voter on one coin, the net
/// score is the difference of the two counters: always as `net_score` defines
/// it, and to the number wherever the difference is an `i64`.
pub proof fn lemma_votes_keep_net_score(ctx: Vote, coin_mint: Pubkey, casts: Seq<(VoteType, i64)>)
    requires
        casts.len() > 0,
    ensures
        ctx.voted_each(coin_mint, casts).stats_account is Some,
        ctx.voted_each(coin_mint, casts).stats_account->0.consistent(),
        ({
            let stats = ctx.voted_each(coin_mint, casts).stats_account->0;
            i64::MIN <= stats.upvotes - stats.downvotes <= i64::MAX ==> stats.net_score
                == stats.upvotes - stats.downvotes
        }),
{
    lemma_vote_sets_net_score(
        ctx.voted_each(coin_mint, casts.drop_last()),
        coin_mint,
        casts.last().0,
        casts.last().1,
    );
}

/// Of all the votes that a voter casts on a coin, the last one alone is
/// counted: after any sequence of votes by a voter who had none on the coin,
/// the counters are those from before with one added for the last vote, and
/// the vote account holds that vote. (A counter at `u64::MAX` cannot count
/// another vote and is left out.)
pub proof fn lemma_last_vote_counts_once(ctx: Vote, coin_mint: Pubkey, casts: Seq<(VoteType, i64)>)
    requires
        ctx.previous() is None,
        ctx.stats().upvotes < u64::MAX,
        ctx.stats().downvotes < u64::MAX,
        casts.len() > 0,
    ensures
        ctx.voted_each(coin_mint, casts).previous() == Some(casts.last().0),
        ctx.voted_each(coin_mint, casts).stats().upvotes == ctx.stats().upvotes + ups(
            casts.last().0,
        ),
        ctx.voted_each(coin_mint, casts).stats().downvotes == ctx.stats().downvotes + downs(
            casts.last().0,
        ),
    decreases casts.len(),
{
    if casts.len() > 1 {
        lemma_last_vote_counts_once(ctx, coin_mint, casts.drop_last());
    } else {
        assert(casts.drop_last().len() == 0);
        assert(ctx.voted_each(coin_mint, casts.drop_last()) == ctx);
    }
}

/// A vote of the type that the voter cast last changes neither counter nor the
/// net score: the second of two equal votes in a row counts nothing.
pub proof fn lemma_repeated_vote_counts_nothing(
    ctx: Vote,
    coin_mint: Pubkey,
    cast: VoteType,
    first: i64,
    second: i64,
)
    ensures
        ({
            let once = ctx.voted(coin_mint, cast, first);
            let twice = once.voted(coin_mint, cast, second);
            &&& twice.stats().upvotes == once.stats().upvotes
            &&& twice.stats().downvotes == once.stats().downvotes
            &&& twice.stats().net_score == once.stats().net_score
        }),
{
}

/// A voter who goes from DOWN to UP takes one from the downvotes and adds one
/// to the upvotes, and the sum of the counters stays. (With no downvote to
/// take, or no room for another upvote, a counter is held at its end and the
/// sum moves: those stats are left out.)
pub proof fn lemma_down_to_up_moves_one(ctx: Vote, coin_mint: Pubkey, now: i64)
    requires
        ctx.previous() == Some(VoteType::Down),
        ctx.stats().downvotes > 0,
        ctx.stats().upvotes < u64::MAX,
    ensures
        ({
            let after = ctx.voted(coin_mint, VoteType::Up, now).stats();
            &&& after.downvotes == ctx.stats().downvotes - 1
            &&& after.upvotes == ctx.stats().upvotes + 1
            &&& after.upvotes + after.downvotes == ctx.stats().upvotes + ctx.stats().downvotes
        }),
{
}

/// A voter who goes from UP to DOWN takes one from the upvotes and adds one to
/// the downvotes, and the sum of the counters stays. (With no upvote to take,
/// or no room for another downvote, a counter is held at its end and the sum
/// moves: those stats are left out.)
pub proof fn lemma_up_to_down_moves_one(ctx: Vote, coin_mint: Pubkey, now: i64)
    requires
        ctx.previous() == Some(VoteType::Up),
        ctx.stats().upvotes > 0,
        ctx.stats().downvotes < u64::MAX,
    ensures
        ({
            let after = ctx.voted(coin_mint, VoteType::Down, now).stats();
            &&& after.upvotes == ctx.stats().upvotes - 1
            &&& after.downvotes == ctx.stats().downvotes + 1
            &&& after.upvotes + after.downvotes == ctx.stats().upvotes + ctx.stats().downvotes
        }),
{
}

/// No vote takes a counter below 0 or above `u64::MAX`: a counter moves by one
/// at most, and where the step would leave the range the counter stays.
pub proof fn lemma_counters_stay_in_range(
    previous: Option<VoteType>,
    cast: VoteType,
    upvotes: u64,
    downvotes: u64,
)
    ensures
        ({
            let (up, down) = tally(previous, cast, upvotes, downvotes);
            &&& 0 <= up <= u64::MAX
            &&& 0 <= down <= u64::MAX
            &&& upvotes - 1 <= up <= upvotes + 1
            &&& downvotes - 1 <= down <= downvotes + 1
            &&& (upvotes == 0 ==> up >= upvotes)
            &&& (downvotes == 0 ==> down >= downvotes)
        }),
{
}

/// Stats are created once: after `initialize_stats` has created them, a second
/// call is refused with `AlreadyInitialized`, for any coin and at any time,
/// and leaves the stats of the first call as they are.
pub proof fn lemma_second_initialize_is_refused(
    ctx: InitializeStats,
    coin_mint: Pubkey,
    now: i64,
    other_mint: Pubkey,
    clock: Option<i64>,
)
    requires
        ctx.stats_account is None,
    ensures
        ctx.initialize_outcome(coin_mint, Some(now)).1 is Ok,
        ({
            let first = ctx.initialize_outcome(coin_mint, Some(now)).0;
            first.initialize_outcome(other_mint, clock) == (
                first,
                Err::<(), ErrorCode>(ErrorCode::AlreadyInitialized),
            )
        }),
{
}

/// A refused instruction writes nothing: whatever the error, the accounts
/// stay as they were.
pub proof fn lemma_refusal_writes_nothing(
    voting: Vote,
    creating: InitializeStats,
    coin_mint: Pubkey,
    vote_type: u8,
    clock: Option<i64>,
)
    ensures
        voting.vote_outcome(coin_mint, vote_type, clock).1 is Err ==> voting.vote_outcome(
            coin_mint,
            vote_type,
            clock,
        ).0 == voting,
        creating.initialize_outcome(coin_mint, clock).1 is Err ==> creating.initialize_outcome(
            coin_mint,
            clock,
        ).0 == creating,
{
}

/// A vote type other than 0 and 1 is refused with `InvalidVoteType`, whatever
/// the accounts and the clock, and the accounts stay as they were: an account
/// that did not exist is not created.
pub proof fn lemma_invalid_vote_type_is_refused(
    ctx: Vote,
    coin_mint: Pubkey,
    vote_type: u8,
    clock: Option<i64>,
)
    requires
        vote_type > 1,
    ensures
        ctx.vote_outcome(coin_mint, vote_type, clock) == (
            ctx,
            Err::<(), ErrorCode>(ErrorCode::InvalidVoteType),
        ),
{
}

} // verus!
