use vstd::bytes::{
    lemma_auto_spec_u64_to_from_le_bytes, spec_u64_from_le_bytes, spec_u64_to_le_bytes,
    u64_from_le_bytes, u64_to_le_bytes,
};
use vstd::prelude::*;
use vstd::slice::{slice_subrange, slice_to_vec};
use crate::state::{CoinVoteStats, Pubkey, VoteAccount};

verus! {

/// The 64 bits of an `i64` in two's complement, read as a `u64`.
pub open spec fn bits_of(value: i64) -> u64 {
    if value >= 0 {
        value as u64
    } else {
        (value + 0x1_0000_0000_0000_0000) as u64
    }
}

/// The eight bytes of a `u64`, lowest first.
pub open spec fn u64_bytes(value: u64) -> Seq<u8> {
    spec_u64_to_le_bytes(value)
}

/// The eight bytes of an `i64` in two's complement, lowest first.
pub open spec fn i64_bytes(value: i64) -> Seq<u8> {
    spec_u64_to_le_bytes(bits_of(value))
}

/// Each `u64` has eight bytes, and no two have the same.
pub proof fn lemma_u64_bytes(value: u64, other: u64)
    ensures
        u64_bytes(value).len() == 8,
        u64_bytes(other).len() == 8,
        u64_bytes(value) == u64_bytes(other) ==> value == other,
{
    lemma_auto_spec_u64_to_from_le_bytes();
    assert(spec_u64_from_le_bytes(u64_bytes(value)) == value);
    assert(spec_u64_from_le_bytes(u64_bytes(other)) == other);
}

/// Each `i64` has eight bytes, and no two have the same.
pub proof fn lemma_i64_bytes(value: i64, other: i64)
    ensures
        i64_bytes(value).len() == 8,
        i64_bytes(other).len() == 8,
        i64_bytes(value) == i64_bytes(other) ==> value == other,
{
    lemma_auto_spec_u64_to_from_le_bytes();
    assert(spec_u64_from_le_bytes(i64_bytes(value)) == bits_of(value));
    assert(spec_u64_from_le_bytes(i64_bytes(other)) == bits_of(other));
}

impl VoteAccount {
    /// The account as it is stored, field after field without padding: the
    /// voter, the coin, the vote type, the timestamp.
    pub open spec fn stored(self) -> Seq<u8> {
        self.voter@ + self.coin_mint@ + seq![self.vote_type] + i64_bytes(self.timestamp)
    }

    /// Writes the account as it is stored: `Self::LEN` bytes.
    pub fn to_bytes(&self) -> (bytes: Vec<u8>)
        ensures
            bytes@ == self.stored(),
            bytes@.len() == Self::LEN,
    {
        let mut bytes: Vec<u8> = slice_to_vec(self.voter.as_slice());
        let mut coin: Vec<u8> = slice_to_vec(self.coin_mint.as_slice());
        bytes.append(&mut coin);
        bytes.push(self.vote_type);
        let mut timestamp: Vec<u8> = i64_to_bytes(self.timestamp);
        bytes.append(&mut timestamp);
        proof {
            lemma_i64_bytes(self.timestamp, self.timestamp);
            assert(bytes@ =~= self.stored());
        }
        bytes
    }

    /// Reads a stored account. `Some` for `Self::LEN` bytes, and then the
    /// account that is stored as these bytes; `None` for any other length.
    pub fn from_bytes(bytes: &[u8]) -> (read: Option<VoteAccount>)
        ensures
            read is Some <==> bytes@.len() == Self::LEN,
            read matches Some(account) ==> account.stored() == bytes@,
    {
        if bytes.len() != 73 {
            return None;
        }
        let account = VoteAccount {
            voter: pubkey_at(bytes, 0),
            coin_mint: pubkey_at(bytes, 32),
            vote_type: bytes[64],
            timestamp: i64_at(bytes, 65),
        };
        assert(account.stored() =~= bytes@);
        Some(account)
    }
}

impl CoinVoteStats {
    /// The stats as they are stored, field after field without padding: the
    /// coin, the upvotes, the downvotes, the net score, the time of the last
    /// update.
    pub open spec fn stored(self) -> Seq<u8> {
        self.coin_mint@ + u64_bytes(self.upvotes) + u64_bytes(self.downvotes) + i64_bytes(
            self.net_score,
        ) + i64_bytes(self.last_updated)
    }

    /// Writes the stats as they are stored: `Self::LEN` bytes.
    pub fn to_bytes(&self) -> (bytes: Vec<u8>)
        ensures
            bytes@ == self.stored(),
            bytes@.len() == Self::LEN,
    {
        let mut bytes: Vec<u8> = slice_to_vec(self.coin_mint.as_slice());
        let mut upvotes: Vec<u8> = u64_to_le_bytes(self.upvotes);
        bytes.append(&mut upvotes);
        let mut downvotes: Vec<u8> = u64_to_le_bytes(self.downvotes);
        bytes.append(&mut downvotes);
        let mut net_score: Vec<u8> = i64_to_bytes(self.net_score);
        bytes.append(&mut net_score);
        let mut last_updated: Vec<u8> = i64_to_bytes(self.last_updated);
        bytes.append(&mut last_updated);
        proof {
            lemma_u64_bytes(self.upvotes, self.downvotes);
            lemma_i64_bytes(self.net_score, self.last_updated);
            assert(bytes@ =~= self.stored());
        }
        bytes
    }

    /// Reads stored stats. `Some` for `Self::LEN` bytes, and then the stats
    /// that are stored as these bytes; `None` for any other length.
    pub fn from_bytes(bytes: &[u8]) -> (read: Option<CoinVoteStats>)
        ensures
            read is Some <==> bytes@.len() == Self::LEN,
            read matches Some(stats) ==> stats.stored() == bytes@,
    {
        if bytes.len() != 64 {
            return None;
        }
        let stats = CoinVoteStats {
            coin_mint: pubkey_at(bytes, 0),
            upvotes: u64_at(bytes, 32),
            downvotes: u64_at(bytes, 40),
            net_score: i64_at(bytes, 48),
            last_updated: i64_at(bytes, 56),
        };
        assert(stats.stored() =~= bytes@);
        Some(stats)
    }
}

/// Two vote accounts that are stored as the same bytes are the same account:
/// what `from_bytes` reads from what `to_bytes` wrote is the account written.
pub proof fn lemma_vote_account_stored_once(account: VoteAccount, other: VoteAccount)
    requires
        account.stored() == other.stored(),
    ensures
        account == other,
{
    lemma_i64_bytes(account.timestamp, other.timestamp);
    let bytes = account.stored();
    assert(account.voter@ =~= bytes.subrange(0, 32));
    assert(other.voter@ =~= bytes.subrange(0, 32));
    assert(account.coin_mint@ =~= bytes.subrange(32, 64));
    assert(other.coin_mint@ =~= bytes.subrange(32, 64));
    assert(account.vote_type == bytes[64]);
    assert(other.vote_type == bytes[64]);
    assert(i64_bytes(account.timestamp) =~= bytes.subrange(65, 73));
    assert(i64_bytes(other.timestamp) =~= bytes.subrange(65, 73));
    assert(account.voter =~= other.voter);
    assert(account.coin_mint =~= other.coin_mint);
}

/// Two stats that are stored as the same bytes are the same stats: what
/// `from_bytes` reads from what `to_bytes` wrote is the stats written.
pub proof fn lemma_stats_stored_once(stats: CoinVoteStats, other: CoinVoteStats)
    requires
        stats.stored() == other.stored(),
    ensures
        stats == other,
{
    lemma_u64_bytes(stats.upvotes, other.upvotes);
    lemma_u64_bytes(stats.downvotes, other.downvotes);
    lemma_i64_bytes(stats.net_score, other.net_score);
    lemma_i64_bytes(stats.last_updated, other.last_updated);
    let bytes = stats.stored();
    assert(stats.coin_mint@ =~= bytes.subrange(0, 32));
    assert(other.coin_mint@ =~= bytes.subrange(0, 32));
    assert(u64_bytes(stats.upvotes) =~= bytes.subrange(32, 40));
    assert(u64_bytes(other.upvotes) =~= bytes.subrange(32, 40));
    assert(u64_bytes(stats.downvotes) =~= bytes.subrange(40, 48));
    assert(u64_bytes(other.downvotes) =~= bytes.subrange(40, 48));
    assert(i64_bytes(stats.net_score) =~= bytes.subrange(48, 56));
    assert(i64_bytes(other.net_score) =~= bytes.subrange(48, 56));
    assert(i64_bytes(stats.last_updated) =~= bytes.subrange(56, 64));
    assert(i64_bytes(other.last_updated) =~= bytes.subrange(56, 64));
    assert(stats.coin_mint =~= other.coin_mint);
}

/// The eight bytes of `value` in two's complement, lowest first.
fn i64_to_bytes(value: i64) -> (bytes: Vec<u8>)
    ensures
        bytes@ == i64_bytes(value),
{
    let bits: u64 = if value >= 0 {
        value as u64
    } else {
        u64::MAX - ((-(value + 1)) as u64)
    };
    u64_to_le_bytes(bits)
}

/// The `u64` whose bytes, lowest first, are the eight bytes from `at` on.
fn u64_at(bytes: &[u8], at: usize) -> (value: u64)
    requires
        at + 8 <= bytes@.len(),
    ensures
        u64_bytes(value) == bytes@.subrange(at as int, at + 8),
{
    proof {
        lemma_auto_spec_u64_to_from_le_bytes();
    }
    let length = bytes.len();
    assert(at + 8 <= length);
    let value = u64_from_le_bytes(slice_subrange(bytes, at, at + 8));
    assert(u64_bytes(value) == bytes@.subrange(at as int, at + 8)) by {
        let part = bytes@.subrange(at as int, at + 8);
        assert(part.len() == 8);
        assert(spec_u64_to_le_bytes(spec_u64_from_le_bytes(part)) == part);
    }
    value
}

/// The `i64` whose bytes in two's complement, lowest first, are the eight
/// bytes from `at` on.
fn i64_at(bytes: &[u8], at: usize) -> (value: i64)
    requires
        at + 8 <= bytes@.len(),
    ensures
        i64_bytes(value) == bytes@.subrange(at as int, at + 8),
{
    let bits = u64_at(bytes, at);
    let half: u64 = 0x8000_0000_0000_0000;
    if bits < half {
        bits as i64
    } else {
        -((u64::MAX - bits) as i64) - 1
    }
}

/// The address whose bytes are the 32 bytes from `at` on.
fn pubkey_at(bytes: &[u8], at: usize) -> (key: Pubkey)
    requires
        at + 32 <= bytes@.len(),
    ensures
        key@ == bytes@.subrange(at as int, at + 32),
{
    let length = bytes.len();
    let mut key: Pubkey = [0u8; 32];
    let mut i: usize = 0;
    while i < 32
        invariant
            i <= 32,
            at + 32 <= length == bytes@.len(),
            forall|j: int| 0 <= j < i ==> key@[j] == bytes@[at + j],
        decreases 32 - i,
    {
        key[i] = bytes[at + i];
        i += 1;
    }
    assert(key@ =~= bytes@.subrange(at as int, at + 32));
    key
}

} // verus!
