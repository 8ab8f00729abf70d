use vstd::prelude::*;
use vstd::slice::slice_to_vec;
use crate::state::Pubkey;

verus! {

/// The tag of a vote account's seeds: the ASCII bytes of `vote`.
pub open spec fn vote_tag() -> Seq<u8> {
    seq![0x76u8, 0x6fu8, 0x74u8, 0x65u8]
}

/// The tag of a stats account's seeds: the ASCII bytes of `stats`.
pub open spec fn stats_tag() -> Seq<u8> {
    seq![0x73u8, 0x74u8, 0x61u8, 0x74u8, 0x73u8]
}

/// The seeds of the vote account of `voter` on `coin_mint`: the tag, the coin,
/// the voter.
pub open spec fn vote_seeds(coin_mint: Seq<u8>, voter: Seq<u8>) -> Seq<Seq<u8>> {
    seq![vote_tag(), coin_mint, voter]
}

/// The seeds of the stats account of `coin_mint`: the tag, the coin.
pub open spec fn stats_seeds(coin_mint: Seq<u8>) -> Seq<Seq<u8>> {
    seq![stats_tag(), coin_mint]
}

/// The seeds one after the other, as one string of bytes.
pub open spec fn joined(seeds: Seq<Seq<u8>>) -> Seq<u8>
    decreases seeds.len(),
{
    if seeds.len() == 0 {
        Seq::empty()
    } else {
        joined(seeds.drop_last()) + seeds.last()
    }
}

/// The seeds are few and short enough to derive an address from: fewer than
/// 16, none longer than 32 bytes.
pub open spec fn within_limits(seeds: Seq<Seq<u8>>) -> bool {
    &&& seeds.len() < 16
    &&& forall|i: int| 0 <= i < seeds.len() ==> (#[trigger] seeds[i]).len() <= 32
}

/// The program address that the runtime derives for `seeds` under the program
/// `program_id`, with its bump seed; `None` where it derives none.
pub uninterp spec fn program_address(seeds: Seq<Seq<u8>>, program_id: Seq<u8>) -> Option<
    (Seq<u8>, u8),
>;

/// Derives a program address.
///
/// Calls `Pubkey::try_find_program_address` of anchor_lang's prelude on the
/// seeds as slices and on the program's address, for seeds within the limits
/// that it documents: fewer than 16 of them, none longer than 32 bytes. The
/// call searches the bump seeds from 255 downwards for an address off the
/// curve and depends on its two arguments alone. The contract gives its result
/// the name `program_address` and claims nothing else of it: not that an
/// address is found, and not that two lists of seeds have two addresses.
#[verifier::external_body]
fn find_program_address(seeds: &Vec<Vec<u8>>, program_id: &Pubkey) -> (found: Option<(Pubkey, u8)>)
    requires
        within_limits(seeds.deep_view()),
    ensures
        match found {
            Some((address, bump)) => program_address(seeds.deep_view(), program_id@) == Some(
                (address@, bump),
            ),
            None => program_address(seeds.deep_view(), program_id@) is None,
        },
{
    let slices: Vec<&[u8]> = seeds.iter().map(|seed| seed.as_slice()).collect();
    let program = anchor_lang::prelude::Pubkey::new_from_array(*program_id);
    match anchor_lang::prelude::Pubkey::try_find_program_address(&slices, &program) {
        Some((address, bump)) => Some((address.to_bytes(), bump)),
        None => None,
    }
}

/// Joined, the seeds of a vote account are the tag, the coin and the voter end
/// to end.
pub proof fn lemma_vote_seeds_joined(coin_mint: Seq<u8>, voter: Seq<u8>)
    ensures
        joined(vote_seeds(coin_mint, voter)) == vote_tag() + coin_mint + voter,
{
    let seeds = vote_seeds(coin_mint, voter);
    assert(seeds.drop_last() =~= seq![vote_tag(), coin_mint]);
    assert(seeds.drop_last().drop_last() =~= seq![vote_tag()]);
    assert(seeds.drop_last().drop_last().drop_last() =~= Seq::<Seq<u8>>::empty());
    reveal_with_fuel(joined, 4);
    assert(joined(seeds) =~= vote_tag() + coin_mint + voter);
}

/// Joined, the seeds of a stats account are the tag and the coin end to end.
pub proof fn lemma_stats_seeds_joined(coin_mint: Seq<u8>)
    ensures
        joined(stats_seeds(coin_mint)) == stats_tag() + coin_mint,
{
    let seeds = stats_seeds(coin_mint);
    assert(seeds.drop_last() =~= seq![stats_tag()]);
    assert(seeds.drop_last().drop_last() =~= Seq::<Seq<u8>>::empty());
    reveal_with_fuel(joined, 3);
    assert(joined(seeds) =~= stats_tag() + coin_mint);
}

/// Each pair of voter and coin has seeds of its own: two vote accounts with
/// the same seeds, or with seeds that are the same bytes once joined, belong
/// to the same voter and the same coin.
pub proof fn lemma_vote_seeds_name_one_pair(
    coin_mint: Pubkey,
    voter: Pubkey,
    other_mint: Pubkey,
    other_voter: Pubkey,
)
    requires
        vote_seeds(coin_mint@, voter@) == vote_seeds(other_mint@, other_voter@) || joined(
            vote_seeds(coin_mint@, voter@),
        ) == joined(vote_seeds(other_mint@, other_voter@)),
    ensures
        coin_mint == other_mint,
        voter == other_voter,
{
    let mine = vote_seeds(coin_mint@, voter@);
    let other = vote_seeds(other_mint@, other_voter@);
    lemma_vote_seeds_joined(coin_mint@, voter@);
    lemma_vote_seeds_joined(other_mint@, other_voter@);
    assert(joined(mine) == joined(other));
    assert forall|i: int| 0 <= i < 32 implies coin_mint@[i] == other_mint@[i] && voter@[i]
        == other_voter@[i] by {
        assert(joined(mine)[4 + i] == coin_mint@[i]);
        assert(joined(other)[4 + i] == other_mint@[i]);
        assert(joined(mine)[36 + i] == voter@[i]);
        assert(joined(other)[36 + i] == other_voter@[i]);
    }
    assert(coin_mint =~= other_mint);
    assert(voter =~= other_voter);
}

/// Each coin has stats seeds of its own: two stats accounts with the same
/// seeds, or with seeds that are the same bytes once joined, belong to the
/// same coin.
pub proof fn lemma_stats_seeds_name_one_coin(coin_mint: Pubkey, other_mint: Pubkey)
    requires
        stats_seeds(coin_mint@) == stats_seeds(other_mint@) || joined(stats_seeds(coin_mint@))
            == joined(stats_seeds(other_mint@)),
    ensures
        coin_mint == other_mint,
{
    let mine = stats_seeds(coin_mint@);
    let other = stats_seeds(other_mint@);
    lemma_stats_seeds_joined(coin_mint@);
    lemma_stats_seeds_joined(other_mint@);
    assert(joined(mine) == joined(other));
    assert forall|i: int| 0 <= i < 32 implies coin_mint@[i] == other_mint@[i] by {
        assert(joined(mine)[5 + i] == coin_mint@[i]);
        assert(joined(other)[5 + i] == other_mint@[i]);
    }
    assert(coin_mint =~= other_mint);
}

/// No vote account shares its seeds with a stats account, as lists or joined.
pub proof fn lemma_vote_and_stats_seeds_differ(coin_mint: Pubkey, voter: Pubkey, other_mint: Pubkey)
    ensures
        vote_seeds(coin_mint@, voter@) != stats_seeds(other_mint@),
        joined(vote_seeds(coin_mint@, voter@)) != joined(stats_seeds(other_mint@)),
{
    lemma_vote_seeds_joined(coin_mint@, voter@);
    lemma_stats_seeds_joined(other_mint@);
    assert(vote_seeds(coin_mint@, voter@).len() == 3);
    assert(stats_seeds(other_mint@).len() == 2);
    assert(joined(vote_seeds(coin_mint@, voter@)).len() == 68);
    assert(joined(stats_seeds(other_mint@)).len() == 37);
}

/// Builds the seeds of the vote account of `voter` on `coin_mint`.
pub fn vote_account_seeds(coin_mint: &Pubkey, voter: &Pubkey) -> (seeds: Vec<Vec<u8>>)
    ensures
        seeds.deep_view() == vote_seeds(coin_mint@, voter@),
{
    let tag: Vec<u8> = vec![0x76u8, 0x6fu8, 0x74u8, 0x65u8];
    let coin: Vec<u8> = slice_to_vec(coin_mint.as_slice());
    let who: Vec<u8> = slice_to_vec(voter.as_slice());
    let seeds: Vec<Vec<u8>> = vec![tag, coin, who];
    assert(seeds.deep_view() == vote_seeds(coin_mint@, voter@)) by {
        assert(seeds@[0].deep_view() =~= vote_tag());
        assert(seeds@[1].deep_view() =~= coin_mint@);
        assert(seeds@[2].deep_view() =~= voter@);
        assert(seeds.deep_view() =~= vote_seeds(coin_mint@, voter@));
    }
    seeds
}

/// Builds the seeds of the stats account of `coin_mint`.
pub fn stats_account_seeds(coin_mint: &Pubkey) -> (seeds: Vec<Vec<u8>>)
    ensures
        seeds.deep_view() == stats_seeds(coin_mint@),
{
    let tag: Vec<u8> = vec![0x73u8, 0x74u8, 0x61u8, 0x74u8, 0x73u8];
    let coin: Vec<u8> = slice_to_vec(coin_mint.as_slice());
    let seeds: Vec<Vec<u8>> = vec![tag, coin];
    assert(seeds.deep_view() == stats_seeds(coin_mint@)) by {
        assert(seeds@[0].deep_view() =~= stats_tag());
        assert(seeds@[1].deep_view() =~= coin_mint@);
        assert(seeds.deep_view() =~= stats_seeds(coin_mint@));
    }
    seeds
}

/// The address and bump seed of the vote account of `voter` on `coin_mint`
/// under the program `program_id`: the program address of `vote_seeds`.
pub fn vote_account_address(program_id: &Pubkey, coin_mint: &Pubkey, voter: &Pubkey) -> (found:
    Option<(Pubkey, u8)>)
    ensures
        match found {
            Some((address, bump)) => program_address(
                vote_seeds(coin_mint@, voter@),
                program_id@,
            ) == Some((address@, bump)),
            None => program_address(vote_seeds(coin_mint@, voter@), program_id@) is None,
        },
{
    let seeds = vote_account_seeds(coin_mint, voter);
    assert(within_limits(vote_seeds(coin_mint@, voter@)));
    find_program_address(&seeds, program_id)
}

/// The address and bump seed of the stats account of `coin_mint` under the
/// program `program_id`: the program address of `stats_seeds`.
pub fn stats_account_address(program_id: &Pubkey, coin_mint: &Pubkey) -> (found: Option<
    (Pubkey, u8),
>)
    ensures
        match found {
            Some((address, bump)) => program_address(stats_seeds(coin_mint@), program_id@) == Some(
                (address@, bump),
            ),
            None => program_address(stats_seeds(coin_mint@), program_id@) is None,
        },
{
    let seeds = stats_account_seeds(coin_mint);
    assert(within_limits(stats_seeds(coin_mint@)));
    find_program_address(&seeds, program_id)
}

} // verus!
