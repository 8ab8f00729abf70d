use memocracy_votes::{
    initialize_stats, initialize_stats_at, vote, vote_at, CoinVoteStats, ErrorCode,
    InitializeStats, Pubkey, Vote, VoteAccount,
};

const COIN: Pubkey = [7u8; 32];
const ALICE: Pubkey = [1u8; 32];
const BOB: Pubkey = [2u8; 32];

fn stats(upvotes: u64, downvotes: u64, net_score: i64, last_updated: i64) -> CoinVoteStats {
    CoinVoteStats { coin_mint: COIN, upvotes, downvotes, net_score, last_updated }
}

fn ballot(voter: Pubkey, vote_type: u8, timestamp: i64) -> VoteAccount {
    VoteAccount { voter, coin_mint: COIN, vote_type, timestamp }
}

#[test]
fn three_votes_on_one_coin() {
    let mut init = InitializeStats { stats_account: None };
    assert_eq!(initialize_stats_at(&mut init, COIN, 100), Ok(()));
    assert_eq!(init.stats_account, Some(stats(0, 0, 0, 100)));

    let mut alice = Vote { vote_account: None, stats_account: init.stats_account, voter: ALICE };
    assert_eq!(vote_at(&mut alice, COIN, 1, 101), Ok(()));
    assert_eq!(alice.stats_account, Some(stats(1, 0, 1, 101)));
    assert_eq!(alice.vote_account, Some(ballot(ALICE, 1, 101)));

    let mut bob = Vote { vote_account: None, stats_account: alice.stats_account, voter: BOB };
    assert_eq!(vote_at(&mut bob, COIN, 0, 102), Ok(()));
    assert_eq!(bob.stats_account, Some(stats(1, 1, 0, 102)));
    assert_eq!(bob.vote_account, Some(ballot(BOB, 0, 102)));

    alice.stats_account = bob.stats_account;
    assert_eq!(vote_at(&mut alice, COIN, 0, 103), Ok(()));
    assert_eq!(alice.stats_account, Some(stats(0, 2, -2, 103)));
    assert_eq!(alice.vote_account, Some(ballot(ALICE, 0, 103)));
}

#[test]
fn first_up_vote_adds_an_upvote() {
    let mut ctx = Vote { vote_account: None, stats_account: Some(stats(4, 9, -5, 1)), voter: ALICE };
    assert_eq!(vote_at(&mut ctx, COIN, 1, 50), Ok(()));
    assert_eq!(ctx.stats_account, Some(stats(5, 9, -4, 50)));
}

#[test]
fn first_down_vote_adds_a_downvote() {
    let mut ctx = Vote { vote_account: None, stats_account: Some(stats(4, 9, -5, 1)), voter: ALICE };
    assert_eq!(vote_at(&mut ctx, COIN, 0, 50), Ok(()));
    assert_eq!(ctx.stats_account, Some(stats(4, 10, -6, 50)));
}

#[test]
fn first_vote_creates_both_accounts() {
    let mut ctx = Vote { vote_account: None, stats_account: None, voter: BOB };
    assert_eq!(vote_at(&mut ctx, COIN, 0, 77), Ok(()));
    assert_eq!(ctx.vote_account, Some(ballot(BOB, 0, 77)));
    assert_eq!(
        ctx.stats_account,
        Some(CoinVoteStats {
            coin_mint: [0u8; 32],
            upvotes: 0,
            downvotes: 1,
            net_score: -1,
            last_updated: 77,
        })
    );
    assert_eq!(ctx.voter, BOB);
}

#[test]
fn repeated_up_vote_counts_nothing() {
    let mut ctx = Vote { vote_account: None, stats_account: Some(stats(3, 3, 0, 1)), voter: ALICE };
    assert_eq!(vote_at(&mut ctx, COIN, 1, 10), Ok(()));
    let once = ctx.stats_account.unwrap();
    assert_eq!(vote_at(&mut ctx, COIN, 1, 20), Ok(()));
    let twice = ctx.stats_account.unwrap();
    assert_eq!((once.upvotes, once.downvotes, once.net_score), (4, 3, 1));
    assert_eq!((twice.upvotes, twice.downvotes, twice.net_score), (4, 3, 1));
    assert_eq!(twice.last_updated, 20);
    assert_eq!(ctx.vote_account, Some(ballot(ALICE, 1, 20)));
}

#[test]
fn repeated_down_vote_counts_nothing() {
    let mut ctx = Vote {
        vote_account: Some(ballot(ALICE, 0, 5)),
        stats_account: Some(stats(3, 8, -5, 5)),
        voter: ALICE,
    };
    assert_eq!(vote_at(&mut ctx, COIN, 0, 6), Ok(()));
    assert_eq!(ctx.stats_account, Some(stats(3, 8, -5, 6)));
}

#[test]
fn down_to_up_moves_one_vote() {
    let mut ctx = Vote {
        vote_account: Some(ballot(ALICE, 0, 5)),
        stats_account: Some(stats(10, 4, 6, 5)),
        voter: ALICE,
    };
    assert_eq!(vote_at(&mut ctx, COIN, 1, 9), Ok(()));
    assert_eq!(ctx.stats_account, Some(stats(11, 3, 8, 9)));
    assert_eq!(ctx.vote_account, Some(ballot(ALICE, 1, 9)));
}

#[test]
fn up_to_down_moves_one_vote() {
    let mut ctx = Vote {
        vote_account: Some(ballot(ALICE, 1, 5)),
        stats_account: Some(stats(10, 4, 6, 5)),
        voter: ALICE,
    };
    assert_eq!(vote_at(&mut ctx, COIN, 0, 9), Ok(()));
    assert_eq!(ctx.stats_account, Some(stats(9, 5, 4, 9)));
}

#[test]
fn taking_a_vote_from_an_empty_counter_stops_at_zero() {
    let mut ctx = Vote {
        vote_account: Some(ballot(ALICE, 0, 5)),
        stats_account: Some(stats(2, 0, 2, 5)),
        voter: ALICE,
    };
    assert_eq!(vote_at(&mut ctx, COIN, 1, 9), Ok(()));
    assert_eq!(ctx.stats_account, Some(stats(3, 0, 3, 9)));

    let mut ctx = Vote {
        vote_account: Some(ballot(ALICE, 1, 5)),
        stats_account: Some(stats(0, 2, -2, 5)),
        voter: ALICE,
    };
    assert_eq!(vote_at(&mut ctx, COIN, 0, 9), Ok(()));
    assert_eq!(ctx.stats_account, Some(stats(0, 3, -3, 9)));
}

#[test]
fn a_full_counter_stays_full() {
    let mut ctx = Vote {
        vote_account: None,
        stats_account: Some(stats(u64::MAX, u64::MAX, 0, 5)),
        voter: ALICE,
    };
    assert_eq!(vote_at(&mut ctx, COIN, 1, 9), Ok(()));
    assert_eq!(ctx.stats_account, Some(stats(u64::MAX, u64::MAX, 0, 9)));
    assert_eq!(vote_at(&mut ctx, COIN, 0, 10), Ok(()));
    assert_eq!(ctx.stats_account, Some(stats(u64::MAX - 1, u64::MAX, -1, 10)));
}

#[test]
fn a_stored_byte_that_is_no_vote_counts_as_no_vote() {
    let mut ctx = Vote {
        vote_account: Some(ballot(ALICE, 9, 5)),
        stats_account: Some(stats(1, 1, 0, 5)),
        voter: ALICE,
    };
    assert_eq!(vote_at(&mut ctx, COIN, 0, 6), Ok(()));
    assert_eq!(ctx.stats_account, Some(stats(1, 2, -1, 6)));
    assert_eq!(ctx.vote_account, Some(ballot(ALICE, 0, 6)));
}

#[test]
fn a_vote_overwrites_the_vote_account() {
    let mut ctx = Vote {
        vote_account: Some(VoteAccount {
            voter: BOB,
            coin_mint: [9u8; 32],
            vote_type: 1,
            timestamp: 3,
        }),
        stats_account: Some(stats(1, 0, 1, 3)),
        voter: ALICE,
    };
    assert_eq!(vote_at(&mut ctx, COIN, 1, 4), Ok(()));
    assert_eq!(ctx.vote_account, Some(ballot(ALICE, 1, 4)));
}

#[test]
fn a_vote_recomputes_a_net_score_that_was_off() {
    let mut ctx = Vote {
        vote_account: Some(ballot(ALICE, 1, 5)),
        stats_account: Some(stats(6, 2, 99, 5)),
        voter: ALICE,
    };
    assert_eq!(vote_at(&mut ctx, COIN, 1, 6), Ok(()));
    assert_eq!(ctx.stats_account, Some(stats(6, 2, 4, 6)));
}

#[test]
fn only_the_last_of_many_votes_is_counted() {
    let mut ctx = Vote { vote_account: None, stats_account: Some(stats(20, 30, -10, 0)), voter: ALICE };
    let casts: [u8; 7] = [1, 1, 0, 1, 0, 0, 1];
    let mut now: i64 = 1;
    for cast in casts {
        assert_eq!(vote_at(&mut ctx, COIN, cast, now), Ok(()));
        let seen = ctx.stats_account.unwrap();
        assert_eq!(seen.upvotes, 20 + cast as u64);
        assert_eq!(seen.downvotes, 30 + (1 - cast) as u64);
        assert_eq!(seen.net_score, seen.upvotes as i64 - seen.downvotes as i64);
        assert_eq!(ctx.vote_account, Some(ballot(ALICE, cast, now)));
        now += 1;
    }
}

#[test]
fn vote_type_two_is_refused_and_creates_nothing() {
    let mut ctx = Vote { vote_account: None, stats_account: None, voter: ALICE };
    assert_eq!(vote_at(&mut ctx, COIN, 2, 5), Err(ErrorCode::InvalidVoteType));
    assert_eq!(ctx, Vote { vote_account: None, stats_account: None, voter: ALICE });
    assert_eq!(vote(&mut ctx, COIN, 2), Err(ErrorCode::InvalidVoteType));
    assert_eq!(ctx, Vote { vote_account: None, stats_account: None, voter: ALICE });
}

#[test]
fn every_vote_type_above_one_is_refused() {
    let before = Vote {
        vote_account: Some(ballot(ALICE, 1, 5)),
        stats_account: Some(stats(6, 2, 4, 5)),
        voter: ALICE,
    };
    for vote_type in 2..=255u8 {
        let mut ctx = before;
        assert_eq!(vote_at(&mut ctx, COIN, vote_type, 6), Err(ErrorCode::InvalidVoteType));
        assert_eq!(ctx, before);
    }
}

#[test]
fn initialize_stats_creates_empty_stats() {
    let mut ctx = InitializeStats { stats_account: None };
    assert_eq!(initialize_stats_at(&mut ctx, COIN, -3), Ok(()));
    assert_eq!(ctx.stats_account, Some(stats(0, 0, 0, -3)));
}

#[test]
fn second_initialize_is_refused_and_keeps_the_first() {
    let mut ctx = InitializeStats { stats_account: None };
    assert_eq!(initialize_stats_at(&mut ctx, COIN, 10), Ok(()));
    let first = ctx;
    assert_eq!(initialize_stats_at(&mut ctx, COIN, 11), Err(ErrorCode::AlreadyInitialized));
    assert_eq!(ctx, first);
    assert_eq!(initialize_stats(&mut ctx, COIN), Err(ErrorCode::AlreadyInitialized));
    assert_eq!(ctx, first);
}

#[test]
fn initialize_is_refused_on_stats_that_a_vote_created() {
    let mut voting = Vote { vote_account: None, stats_account: None, voter: ALICE };
    assert_eq!(vote_at(&mut voting, COIN, 1, 10), Ok(()));
    let mut ctx = InitializeStats { stats_account: voting.stats_account };
    assert_eq!(initialize_stats_at(&mut ctx, COIN, 11), Err(ErrorCode::AlreadyInitialized));
    assert_eq!(ctx.stats_account, voting.stats_account);
}

#[test]
fn without_a_runtime_there_is_no_clock_and_nothing_is_written() {
    let before = Vote { vote_account: None, stats_account: Some(stats(1, 0, 1, 3)), voter: ALICE };
    let mut ctx = before;
    assert_eq!(vote(&mut ctx, COIN, 1), Err(ErrorCode::ClockUnavailable));
    assert_eq!(ctx, before);
    assert_eq!(vote(&mut ctx, COIN, 0), Err(ErrorCode::ClockUnavailable));
    assert_eq!(ctx, before);

    let mut ctx = InitializeStats { stats_account: None };
    assert_eq!(initialize_stats(&mut ctx, COIN), Err(ErrorCode::ClockUnavailable));
    assert_eq!(ctx, InitializeStats { stats_account: None });
}
