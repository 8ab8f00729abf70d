use vstd::prelude::*;
use vstd::set_lib::lemma_len_subset;
use crate::instructions::Vote;
use crate::state::{CoinVoteStats, Pubkey, VoteAccount};
use crate::tally::VoteType;

verus! {

/// All the accounts of one coin, as the runtime stores them: the coin's stats
/// and, under the address of each voter who has voted on the coin, that
/// voter's vote account.
pub struct Poll {
    /// The coin's stats; `None` until they are first written.
    pub stats_account: Option<CoinVoteStats>,
    /// The vote account of each voter who has voted on the coin.
    pub vote_accounts: Map<Pubkey, VoteAccount>,
}

impl Poll {
    /// The poll of a coin that nobody has voted on, with the stats given.
    pub open spec fn opened(stats_account: Option<CoinVoteStats>) -> Poll {
        Poll { stats_account, vote_accounts: Map::empty() }
    }

    /// The coin's stats, or stats of zeros where there are none yet.
    pub open spec fn stats(self) -> CoinVoteStats {
        match self.stats_account {
            Some(stats) => stats,
            None => CoinVoteStats::zeroed(),
        }
    }

    /// The accounts that a `vote` of `voter` is handed.
    pub open spec fn accounts_of(self, voter: Pubkey) -> Vote {
        Vote {
            vote_account: if self.vote_accounts.dom().contains(voter) {
                Some(self.vote_accounts[voter])
            } else {
                None
            },
            stats_account: self.stats_account,
            voter,
        }
    }

    /// The poll after `voter` casts `cast` on `coin_mint` at `now` and the
    /// accounts that the vote leaves are stored.
    pub open spec fn voted(self, coin_mint: Pubkey, voter: Pubkey, cast: VoteType, now: i64)
        -> Poll {
        let after = self.accounts_of(voter).voted(coin_mint, cast, now);
        Poll {
            stats_account: after.stats_account,
            vote_accounts: self.vote_accounts.insert(voter, after.vote_account->0),
        }
    }

    /// The poll after the votes of `ballots` on `coin_mint`, one after the
    /// other: each names its voter, the vote and the time.
    pub open spec fn voted_each(self, coin_mint: Pubkey, ballots: Seq<(Pubkey, VoteType, i64)>)
        -> Poll
        decreases ballots.len(),
    {
        if ballots.len() == 0 {
            self
        } else {
            self.voted_each(coin_mint, ballots.drop_last()).voted(
                coin_mint,
                ballots.last().0,
                ballots.last().1,
                ballots.last().2,
            )
        }
    }

    /// The voters whose vote account records the vote `cast`.
    pub open spec fn voters(self, cast: VoteType) -> Set<Pubkey> {
        Set::new(
            |voter: Pubkey|
                self.vote_accounts.dom().contains(voter) && self.vote_accounts[voter].cast()
                    == Some(cast),
        )
    }

    /// The stats count the voters: there are as many upvotes as voters whose
    /// last vote is UP, and as many downvotes as voters whose last vote is
    /// DOWN.
    pub open spec fn counted(self) -> bool {
        &&& self.vote_accounts.dom().finite()
        &&& self.stats().upvotes == self.voters(VoteType::Up).len()
        &&& self.stats().downvotes == self.voters(VoteType::Down).len()
    }
}

/// The voters of either vote are voters of the poll: finitely many, and no
/// more than there are vote accounts.
pub proof fn lemma_voters_are_few(poll: Poll, cast: VoteType)
    requires
        poll.vote_accounts.dom().finite(),
    ensures
        poll.voters(cast).finite(),
        poll.voters(cast).len() <= poll.vote_accounts.dom().len(),
{
    lemma_len_subset(poll.voters(cast), poll.vote_accounts.dom());
}

/// A vote keeps the count: where the stats count the voters before a vote,
/// they count them after it. (A counter at `u64::MAX` cannot count another
/// voter and is left out.)
pub proof fn lemma_vote_keeps_count(
    poll: Poll,
    coin_mint: Pubkey,
    voter: Pubkey,
    cast: VoteType,
    now: i64,
)
    requires
        poll.counted(),
        poll.stats().upvotes < u64::MAX,
        poll.stats().downvotes < u64::MAX,
    ensures
        poll.voted(coin_mint, voter, cast, now).counted(),
        poll.voted(coin_mint, voter, cast, now).vote_accounts.dom()
            == poll.vote_accounts.dom().insert(voter),
        poll.voted(coin_mint, voter, cast, now).vote_accounts[voter].cast() == Some(cast),
{
    let after = poll.voted(coin_mint, voter, cast, now);
    let other = if cast == VoteType::Up {
        VoteType::Down
    } else {
        VoteType::Up
    };
    lemma_voters_are_few(poll, cast);
    lemma_voters_are_few(poll, other);
    assert(after.vote_accounts.dom() =~= poll.vote_accounts.dom().insert(voter));
    assert(after.voters(cast) =~= poll.voters(cast).insert(voter));
    assert(after.voters(other) =~= poll.voters(other).remove(voter));
    assert(poll.accounts_of(voter).previous() == Some(cast) <==> poll.voters(cast).contains(voter));
    assert(poll.accounts_of(voter).previous() == Some(other) <==> poll.voters(other).contains(
        voter,
    ));
}

/// The stats count the voters. After any votes on a coin that start from empty
/// stats and no vote accounts, there are as many upvotes as voters whose last
/// vote is UP and as many downvotes as voters whose last vote is DOWN, however
/// often each voter voted. (Fewer than `u64::MAX` votes: the counters stop
/// there.)
pub proof fn lemma_stats_count_voters(
    stats_account: Option<CoinVoteStats>,
    coin_mint: Pubkey,
    ballots: Seq<(Pubkey, VoteType, i64)>,
)
    requires
        Poll::opened(stats_account).stats().upvotes == 0,
        Poll::opened(stats_account).stats().downvotes == 0,
        ballots.len() < u64::MAX,
    ensures
        Poll::opened(stats_account).voted_each(coin_mint, ballots).counted(),
        Poll::opened(stats_account).voted_each(coin_mint, ballots).vote_accounts.dom().len()
            <= ballots.len(),
    decreases ballots.len(),
{
    let start = Poll::opened(stats_account);
    if ballots.len() == 0 {
        assert(start.voters(VoteType::Up) =~= Set::empty());
        assert(start.voters(VoteType::Down) =~= Set::empty());
        assert(start.vote_accounts.dom() =~= Set::empty());
    } else {
        lemma_stats_count_voters(stats_account, coin_mint, ballots.drop_last());
        let before = start.voted_each(coin_mint, ballots.drop_last());
        lemma_voters_are_few(before, VoteType::Up);
        lemma_voters_are_few(before, VoteType::Down);
        lemma_vote_keeps_count(
            before,
            coin_mint,
            ballots.last().0,
            ballots.last().1,
            ballots.last().2,
        );
    }
}

} // verus!
