//! A voting ledger for coins: a voter casts an UP or DOWN vote on a coin, and
//! the coin's statistics keep the number of upvotes, the number of downvotes
//! and their difference.
//!
//! The crate holds the two stored records ([`VoteAccount`], [`CoinVoteStats`])
//! with their layout in bytes, the two instructions ([`vote`],
//! [`initialize_stats`]) on the accounts they are handed, and the seeds by
//! which the accounts are addressed. What holds of the instructions is proved
//! in [`lemmas`], for one voter, and in [`poll`], for all the voters of a
//! coin.
//!
//! Every function is verified against its contract but the two that call
//! into `anchor_lang`: the one that reads the runtime's clock and the one that
//! derives a program address. Their contracts are believed, and say so.

pub mod address;
mod clock;
pub mod error;
pub mod instructions;
pub mod layout;
pub mod lemmas;
pub mod poll;
pub mod state;
pub mod tally;

pub use error::ErrorCode;
pub use instructions::{
    initialize_stats, initialize_stats_at, vote, vote_at, InitializeStats, Vote,
};
pub use state::{CoinVoteStats, Pubkey, VoteAccount};
pub use tally::VoteType;
