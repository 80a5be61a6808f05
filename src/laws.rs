//! Laws of the ledger that relate its operations to each other, proved over
//! the state machine that the operations' contracts are stated in.

use crate::address::{program_address, reaction_seeds, tweet_seeds, Address};
use crate::ledger::{
    byte_len, comment_added, reaction_added, reaction_at, reaction_removed, recount, tweet_at,
    tweet_created, LedgerState,
};
use crate::states::{ReactionType, Record, TwitterError, COMMENT_LENGTH, CONTENT_LENGTH, TOPIC_LENGTH};
use vstd::prelude::*;

verus! {

/// The state after an operation with result `r` on `s`: the new state where
/// it succeeded, `s` itself where it was refused.
pub open spec fn after(r: Result<LedgerState, TwitterError>, s: LedgerState) -> LedgerState {
    match r {
        Ok(next) => next,
        Err(_) => s,
    }
}

/// Whether `author` has no reaction on `tweet`: none is stored at the address
/// derived from the two, or no address can be derived.
pub open spec fn no_reaction(s: LedgerState, program_id: Seq<u8>, author: Address, tweet: Address) -> bool {
    match program_address(reaction_seeds(author@, tweet@), program_id) {
        Some((a, _)) => reaction_at(s, a) is None,
        None => true,
    }
}

/// The state after `author` reacts to `tweet` with each of `kinds` in turn,
/// withdrawing each reaction right after adding it.
pub open spec fn react_and_withdraw(
    s: LedgerState,
    program_id: Seq<u8>,
    author: Address,
    tweet: Address,
    kinds: Seq<ReactionType>,
) -> LedgerState
    decreases kinds.len(),
{
    if kinds.len() == 0 {
        s
    } else {
        let added = after(reaction_added(s, program_id, author, tweet, kinds[0]), s);
        let withdrawn = after(reaction_removed(added, program_id, author, tweet), added);
        react_and_withdraw(withdrawn, program_id, author, tweet, kinds.drop_first())
    }
}

/// A tweet whose topic and content are within their limits is created at its
/// derived address, when that address is free, with both counters at zero.
pub proof fn lemma_tweet_created_within_limits(
    s: LedgerState,
    program_id: Seq<u8>,
    author: Address,
    topic: String,
    content: String,
)
    requires
        byte_len(topic@) <= TOPIC_LENGTH,
        byte_len(content@) <= CONTENT_LENGTH,
    ensures
        match program_address(tweet_seeds(topic@, author@), program_id) {
            Some((a, _)) => !s.contains_key(a) ==> (tweet_created(s, program_id, author, topic, content) matches Ok(next)
                && tweet_at(next, a) matches Some(t) && t.likes == 0 && t.dislikes == 0),
            None => true,
        },
{
}

/// A topic or a content over its limit is refused as too long, so that no
/// record is created.
pub proof fn lemma_too_long_refused(
    s: LedgerState,
    program_id: Seq<u8>,
    author: Address,
    tweet: Address,
    topic: String,
    content: String,
)
    ensures
        byte_len(topic@) > TOPIC_LENGTH ==> tweet_created(s, program_id, author, topic, content)
            == Err::<LedgerState, TwitterError>(TwitterError::TopicTooLong),
        byte_len(topic@) <= TOPIC_LENGTH && byte_len(content@) > CONTENT_LENGTH ==> tweet_created(
            s,
            program_id,
            author,
            topic,
            content,
        ) == Err::<LedgerState, TwitterError>(TwitterError::ContentTooLong),
        byte_len(content@) > COMMENT_LENGTH ==> comment_added(s, program_id, author, tweet, content)
            == Err::<LedgerState, TwitterError>(TwitterError::ContentTooLong),
{
}

/// Withdrawing a reaction that does not exist is refused with
/// `RecordNotFound`.
pub proof fn lemma_missing_reaction_not_found(s: LedgerState, program_id: Seq<u8>, author: Address, tweet: Address)
    requires
        no_reaction(s, program_id, author, tweet),
    ensures
        reaction_removed(s, program_id, author, tweet) == Err::<LedgerState, TwitterError>(TwitterError::RecordNotFound),
{
}

/// A tweet whose counter is at the largest `u64` refuses one more reaction
/// of that kind, from an author who has not reacted to it yet, with
/// `MaxLikesReached` or `MaxDislikesReached`.
pub proof fn lemma_reaction_at_ceiling_refused(
    s: LedgerState,
    program_id: Seq<u8>,
    author: Address,
    tweet: Address,
    kind: ReactionType,
)
    requires
        tweet_at(s, tweet@) matches Some(t) && (kind == ReactionType::Like ==> t.likes == u64::MAX) && (kind
            == ReactionType::Dislike ==> t.dislikes == u64::MAX),
        program_address(reaction_seeds(author@, tweet@), program_id) matches Some((a, _)) && !s.contains_key(a),
    ensures
        reaction_added(s, program_id, author, tweet, kind) == Err::<LedgerState, TwitterError>(
            if kind == ReactionType::Like {
                TwitterError::MaxLikesReached
            } else {
                TwitterError::MaxDislikesReached
            },
        ),
{
}

/// An author who has already reacted to a tweet is refused a second
/// reaction with `DuplicateRecord`, whatever the tweet's counters hold.
pub proof fn lemma_second_reaction_refused(
    s: LedgerState,
    program_id: Seq<u8>,
    author: Address,
    tweet: Address,
    kind: ReactionType,
)
    requires
        tweet_at(s, tweet@) is Some,
        program_address(reaction_seeds(author@, tweet@), program_id) matches Some((a, _)) && s.contains_key(a),
    ensures
        reaction_added(s, program_id, author, tweet, kind) == Err::<LedgerState, TwitterError>(
            TwitterError::DuplicateRecord,
        ),
{
}

/// Adding a reaction and withdrawing it, by an author who had none on the
/// tweet, leaves the ledger as it was.
proof fn lemma_reaction_pair_undone(
    s: LedgerState,
    program_id: Seq<u8>,
    author: Address,
    tweet: Address,
    kind: ReactionType,
)
    requires
        no_reaction(s, program_id, author, tweet),
    ensures
        ({
            let added = after(reaction_added(s, program_id, author, tweet, kind), s);
            after(reaction_removed(added, program_id, author, tweet), added) == s
        }),
{
    let added = after(reaction_added(s, program_id, author, tweet, kind), s);
    if let Ok(next) = reaction_added(s, program_id, author, tweet, kind) {
        let t = tweet_at(s, tweet@)->Some_0;
        let (a, bump) = program_address(reaction_seeds(author@, tweet@), program_id)->Some_0;
        assert(a != tweet@);
        assert(tweet_at(added, tweet@) == Some(recount(t, kind, 1)));
        let restored = recount(recount(t, kind, 1), kind, -1);
        assert(restored == t);
        assert(s[tweet@] == Record::Tweet(t));
        assert(added.insert(tweet@, Record::Tweet(restored)).remove(a) =~= s);
    }
}

/// Reacting to a tweet and withdrawing the reaction, any number of times and
/// with any kinds, by an author who had no reaction on it, leaves the ledger
/// as it was, and so the tweet's counters.
pub proof fn lemma_reaction_round_trip(
    s: LedgerState,
    program_id: Seq<u8>,
    author: Address,
    tweet: Address,
    kinds: Seq<ReactionType>,
)
    requires
        no_reaction(s, program_id, author, tweet),
    ensures
        react_and_withdraw(s, program_id, author, tweet, kinds) == s,
    decreases kinds.len(),
{
    if kinds.len() > 0 {
        lemma_reaction_pair_undone(s, program_id, author, tweet, kinds[0]);
        lemma_reaction_round_trip(s, program_id, author, tweet, kinds.drop_first());
    }
}

} // verus!
