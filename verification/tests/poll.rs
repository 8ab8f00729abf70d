use std::collections::HashMap;

use memocracy_votes::{
    initialize_stats_at, vote_at, CoinVoteStats, InitializeStats, Pubkey, Vote, VoteAccount,
};

const COIN: Pubkey = [7u8; 32];

/// Casts one vote on the accounts that a keyed store holds, and stores what
/// the vote leaves.
fn cast(
    stats: &mut Option<CoinVoteStats>,
    ballots: &mut HashMap<Pubkey, VoteAccount>,
    voter: Pubkey,
    vote_type: u8,
    now: i64,
) {
    let mut ctx = Vote { vote_account: ballots.get(&voter).copied(), stats_account: *stats, voter };
    assert_eq!(vote_at(&mut ctx, COIN, vote_type, now), Ok(()));
    *stats = ctx.stats_account;
    ballots.insert(voter, ctx.vote_account.unwrap());
}

#[test]
fn stats_count_the_voters() {
    let mut init = InitializeStats { stats_account: None };
    assert_eq!(initialize_stats_at(&mut init, COIN, 0), Ok(()));
    let mut stats = init.stats_account;
    let mut ballots: HashMap<Pubkey, VoteAccount> = HashMap::new();
    let mut seed: u32 = 12345;
    for step in 1..=400i64 {
        seed = seed.wrapping_mul(1_103_515_245).wrapping_add(12345);
        let voter: Pubkey = [((seed >> 16) % 9) as u8; 32];
        let vote_type = ((seed >> 8) & 1) as u8;
        cast(&mut stats, &mut ballots, voter, vote_type, step);

        let seen = stats.unwrap();
        let ups = ballots.values().filter(|ballot| ballot.vote_type == 1).count() as u64;
        let downs = ballots.values().filter(|ballot| ballot.vote_type == 0).count() as u64;
        assert_eq!(seen.upvotes, ups);
        assert_eq!(seen.downvotes, downs);
        assert_eq!(seen.net_score, ups as i64 - downs as i64);
        assert_eq!(seen.last_updated, step);
        assert_eq!(seen.coin_mint, COIN);
        assert_eq!(
            ballots[&voter],
            VoteAccount { voter, coin_mint: COIN, vote_type, timestamp: step }
        );
    }
    assert_eq!(ballots.len(), 9);
}

#[test]
fn stats_that_votes_created_count_the_voters() {
    let mut stats: Option<CoinVoteStats> = None;
    let mut ballots: HashMap<Pubkey, VoteAccount> = HashMap::new();
    cast(&mut stats, &mut ballots, [1u8; 32], 1, 10);
    cast(&mut stats, &mut ballots, [2u8; 32], 1, 11);
    cast(&mut stats, &mut ballots, [3u8; 32], 0, 12);
    cast(&mut stats, &mut ballots, [2u8; 32], 0, 13);
    cast(&mut stats, &mut ballots, [2u8; 32], 0, 14);
    assert_eq!(
        stats,
        Some(CoinVoteStats {
            coin_mint: [0u8; 32],
            upvotes: 1,
            downvotes: 2,
            net_score: -1,
            last_updated: 14,
        })
    );
}
