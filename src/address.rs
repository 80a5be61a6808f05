//! Account addresses and their deterministic derivation from seeds.

use anchor_lang::solana_program::hash::hash;
use anchor_lang::solana_program::pubkey::Pubkey;
use crate::states::{COMMENT_SEED, TWEET_REACTION_SEED, TWEET_SEED};
use vstd::prelude::*;
use vstd::utf8::encode_utf8;

verus! {

/// A 32-byte account address: both the key of a record in the store and the
/// identity of a signer.
#[derive(Clone, Copy, Debug)]
pub struct Address {
    pub bytes: [u8; 32],
}

impl View for Address {
    type V = Seq<u8>;

    open spec fn view(&self) -> Seq<u8> {
        self.bytes@
    }
}

impl Address {
    /// The address with the given bytes.
    pub fn new(bytes: [u8; 32]) -> (r: Address)
        ensures
            r@ == bytes@,
    {
        Address { bytes }
    }
}

impl PartialEq for Address {
    fn eq(&self, other: &Address) -> (r: bool) {
        let mut i: usize = 0;
        while i < 32
            invariant
                i <= 32,
                forall|j: int| 0 <= j < i ==> self.bytes@[j] == other.bytes@[j],
            decreases 32 - i,
        {
            if self.bytes[i] != other.bytes[i] {
                return false;
            }
            i = i + 1;
        }
        assert(self@ =~= other@);
        true
    }
}

impl vstd::std_specs::cmp::PartialEqSpecImpl for Address {
    open spec fn obeys_eq_spec() -> bool {
        true
    }

    open spec fn eq_spec(&self, other: &Address) -> bool {
        self@ == other@
    }
}

impl Eq for Address {
}

/// The program derived address and bump that `Pubkey::try_find_program_address`
/// finds for the given seeds, or `None` when it finds none.
pub uninterp spec fn program_address(seeds: Seq<Seq<u8>>, program_id: Seq<u8>) -> Option<(Seq<u8>, u8)>;

/// The SHA-256 digest that `solana_program::hash::hash` computes of the bytes.
pub uninterp spec fn sha256(data: Seq<u8>) -> Seq<u8>;

/// The address and bump of a derivation, as plain values.
pub open spec fn found_view(r: Option<(Address, u8)>) -> Option<(Seq<u8>, u8)> {
    match r {
        Some((a, bump)) => Some((a@, bump)),
        None => None,
    }
}

/// Relies on `Pubkey::try_find_program_address`: the result depends on the
/// seeds and the program id alone.
#[verifier::external_body]
fn find_program_address(seeds: &Vec<Vec<u8>>, program_id: &Address) -> (r: Option<(Address, u8)>)
    ensures
        found_view(r) == program_address(seeds.deep_view(), program_id@),
{
    let slices: Vec<&[u8]> = seeds.iter().map(|s| s.as_slice()).collect();
    let id = Pubkey::new_from_array(program_id.bytes);
    Pubkey::try_find_program_address(&slices, &id).map(|(k, bump)| (Address { bytes: k.to_bytes() }, bump))
}

/// Relies on `solana_program::hash::hash`: the SHA-256 digest of the bytes,
/// which depends on the bytes alone.
#[verifier::external_body]
fn digest(data: &[u8]) -> (r: [u8; 32])
    ensures
        r@ == sha256(data@),
{
    hash(data).to_bytes()
}

/// The seeds of a tweet's address: its topic, the tweet marker and its author.
pub open spec fn tweet_seeds(topic: Seq<char>, author: Seq<u8>) -> Seq<Seq<u8>> {
    seq![encode_utf8(topic), encode_utf8(TWEET_SEED@), author]
}

/// The seeds of a reaction's address: the reaction marker, its author and the
/// tweet.
pub open spec fn reaction_seeds(author: Seq<u8>, tweet: Seq<u8>) -> Seq<Seq<u8>> {
    seq![encode_utf8(TWEET_REACTION_SEED@), author, tweet]
}

/// The seeds of a comment's address: the comment marker, its author, the
/// digest of its content and the tweet.
pub open spec fn comment_seeds(author: Seq<u8>, content: Seq<char>, tweet: Seq<u8>) -> Seq<Seq<u8>> {
    seq![encode_utf8(COMMENT_SEED@), author, sha256(encode_utf8(content)), tweet]
}

/// A copy of the bytes.
fn to_vec(b: &[u8]) -> (r: Vec<u8>)
    ensures
        r@ == b@,
{
    let mut r: Vec<u8> = Vec::new();
    let mut i: usize = 0;
    while i < b.len()
        invariant
            i <= b@.len(),
            r@ == b@.subrange(0, i as int),
        decreases b@.len() - i,
    {
        r.push(b[i]);
        i = i + 1;
        assert(r@ =~= b@.subrange(0, i as int));
    }
    assert(b@.subrange(0, b@.len() as int) =~= b@);
    r
}

/// The address of the tweet that `author` writes under `topic`, with its
/// bump, or `None` where no address can be derived.
pub fn derive_post_address(topic: &str, author: &Address, program_id: &Address) -> (r: Option<(Address, u8)>)
    ensures
        found_view(r) == program_address(tweet_seeds(topic@, author@), program_id@),
{
    let mut seeds: Vec<Vec<u8>> = Vec::new();
    seeds.push(to_vec(topic.as_bytes()));
    seeds.push(to_vec(TWEET_SEED.as_bytes()));
    seeds.push(to_vec(&author.bytes));
    assert(seeds.deep_view()[0] =~= encode_utf8(topic@));
    assert(seeds.deep_view()[1] =~= encode_utf8(TWEET_SEED@));
    assert(seeds.deep_view()[2] =~= author@);
    assert(seeds.deep_view() =~= tweet_seeds(topic@, author@));
    find_program_address(&seeds, program_id)
}

/// The address of the reaction of `author` to `tweet`, with its bump, or
/// `None` where no address can be derived.
pub fn derive_reaction_address(author: &Address, tweet: &Address, program_id: &Address) -> (r: Option<(Address, u8)>)
    ensures
        found_view(r) == program_address(reaction_seeds(author@, tweet@), program_id@),
{
    let mut seeds: Vec<Vec<u8>> = Vec::new();
    seeds.push(to_vec(TWEET_REACTION_SEED.as_bytes()));
    seeds.push(to_vec(&author.bytes));
    seeds.push(to_vec(&tweet.bytes));
    assert(seeds.deep_view()[0] =~= encode_utf8(TWEET_REACTION_SEED@));
    assert(seeds.deep_view()[1] =~= author@);
    assert(seeds.deep_view()[2] =~= tweet@);
    assert(seeds.deep_view() =~= reaction_seeds(author@, tweet@));
    find_program_address(&seeds, program_id)
}

/// The address of the comment of `author` with `content` on `tweet`, with
/// its bump, or `None` where no address can be derived.
pub fn derive_comment_address(author: &Address, content: &str, tweet: &Address, program_id: &Address) -> (r: Option<(Address, u8)>)
    ensures
        found_view(r) == program_address(comment_seeds(author@, content@, tweet@), program_id@),
{
    let mut seeds: Vec<Vec<u8>> = Vec::new();
    seeds.push(to_vec(COMMENT_SEED.as_bytes()));
    seeds.push(to_vec(&author.bytes));
    let d = digest(content.as_bytes());
    seeds.push(to_vec(&d));
    seeds.push(to_vec(&tweet.bytes));
    assert(seeds.deep_view()[0] =~= encode_utf8(COMMENT_SEED@));
    assert(seeds.deep_view()[1] =~= author@);
    assert(seeds.deep_view()[2] =~= sha256(encode_utf8(content@)));
    assert(seeds.deep_view()[3] =~= tweet@);
    assert(seeds.deep_view() =~= comment_seeds(author@, content@, tweet@));
    find_program_address(&seeds, program_id)
}

} // verus!
