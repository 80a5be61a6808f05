//! The ledger as a state machine: the state is the map from addresses to
//! records, and each operation either moves it to a new state or is refused
//! with an error and leaves it as it was.

use crate::address::{comment_seeds, program_address, reaction_seeds, tweet_seeds, Address};
use crate::states::{
    Comment, Reaction, ReactionType, Record, Tweet, TwitterError, COMMENT_LENGTH, CONTENT_LENGTH,
    TOPIC_LENGTH,
};
use crate::store::RecordStore;
use vstd::prelude::*;
use vstd::utf8::encode_utf8;

verus! {

/// The state of the ledger: the record at each address.
pub type LedgerState = Map<Seq<u8>, Record>;

/// The records of one program, whose id enters every derived address.
pub struct Ledger {
    pub program_id: Address,
    pub store: RecordStore,
}

impl Ledger {
    /// A ledger of `program_id` with no records.
    pub fn new(program_id: Address) -> (r: Ledger)
        ensures
            r.program_id == program_id,
            r.store@ == LedgerState::empty(),
    {
        Ledger { program_id, store: RecordStore::new() }
    }
}

/// The length of a string in bytes, as UTF-8.
pub open spec fn byte_len(s: Seq<char>) -> nat {
    encode_utf8(s).len()
}

/// The tweet stored at `k`, if a tweet is stored there.
pub open spec fn tweet_at(s: LedgerState, k: Seq<u8>) -> Option<Tweet> {
    if s.contains_key(k) {
        match s[k] {
            Record::Tweet(t) => Some(t),
            _ => None,
        }
    } else {
        None
    }
}

/// The reaction stored at `k`, if a reaction is stored there.
pub open spec fn reaction_at(s: LedgerState, k: Seq<u8>) -> Option<Reaction> {
    if s.contains_key(k) {
        match s[k] {
            Record::Reaction(r) => Some(r),
            _ => None,
        }
    } else {
        None
    }
}

/// The comment stored at `k`, if a comment is stored there.
pub open spec fn comment_at(s: LedgerState, k: Seq<u8>) -> Option<Comment> {
    if s.contains_key(k) {
        match s[k] {
            Record::Comment(c) => Some(c),
            _ => None,
        }
    } else {
        None
    }
}

/// `t` with the counter of `kind` raised by `delta` (which may be negative).
pub open spec fn recount(t: Tweet, kind: ReactionType, delta: int) -> Tweet {
    Tweet {
        tweet_author: t.tweet_author,
        topic: t.topic,
        content: t.content,
        likes: if kind == ReactionType::Like { (t.likes + delta) as u64 } else { t.likes },
        dislikes: if kind == ReactionType::Dislike { (t.dislikes + delta) as u64 } else { t.dislikes },
        bump: t.bump,
    }
}

/// What an operation that returned `r` and left the state `after` did.
pub open spec fn outcome(r: Result<(), TwitterError>, after: LedgerState) -> Result<LedgerState, TwitterError> {
    match r {
        Ok(_) => Ok(after),
        Err(e) => Err(e),
    }
}

/// Creating a tweet whose derived address and bump are `found`: both lengths
/// are checked first, then the tweet is stored there, with no reactions, if
/// the address is free.
pub open spec fn tweet_created_at(s: LedgerState, found: Option<(Seq<u8>, u8)>, author: Address, topic: String, content: String) -> Result<LedgerState, TwitterError> {
    if byte_len(topic@) > TOPIC_LENGTH {
        Err(TwitterError::TopicTooLong)
    } else if byte_len(content@) > CONTENT_LENGTH {
        Err(TwitterError::ContentTooLong)
    } else {
        match found {
            None => Err(TwitterError::AddressDerivationFailed),
            Some((a, bump)) => if s.contains_key(a) {
                Err(TwitterError::DuplicateRecord)
            } else {
                Ok(s.insert(a, Record::Tweet(Tweet {
                    tweet_author: author,
                    topic,
                    content,
                    likes: 0,
                    dislikes: 0,
                    bump,
                })))
            },
        }
    }
}

/// Creating a tweet at the address that `program_id` derives from its topic
/// and its author.
pub open spec fn tweet_created(s: LedgerState, program_id: Seq<u8>, author: Address, topic: String, content: String) -> Result<LedgerState, TwitterError> {
    tweet_created_at(s, program_address(tweet_seeds(topic@, author@), program_id), author, topic, content)
}

/// Reacting to a tweet, where `found` is the reaction's derived address and
/// bump: the tweet must exist, the address must be free (one reaction per
/// author and tweet), and the counter must not be at its ceiling; the
/// reaction is stored at that address and the counter is raised by one.
pub open spec fn reaction_added_at(s: LedgerState, found: Option<(Seq<u8>, u8)>, author: Address, tweet: Address, kind: ReactionType) -> Result<LedgerState, TwitterError> {
    match tweet_at(s, tweet@) {
        None => Err(TwitterError::RecordNotFound),
        Some(t) => match found {
            None => Err(TwitterError::AddressDerivationFailed),
            Some((a, bump)) => if s.contains_key(a) {
                Err(TwitterError::DuplicateRecord)
            } else if kind == ReactionType::Like && t.likes == u64::MAX {
                Err(TwitterError::MaxLikesReached)
            } else if kind == ReactionType::Dislike && t.dislikes == u64::MAX {
                Err(TwitterError::MaxDislikesReached)
            } else {
                Ok(s.insert(tweet@, Record::Tweet(recount(t, kind, 1))).insert(a, Record::Reaction(Reaction {
                    reaction_author: author,
                    parent_tweet: tweet,
                    reaction: kind,
                    bump,
                })))
            },
        },
    }
}

/// Reacting to a tweet at the address that `program_id` derives from the
/// author and the tweet.
pub open spec fn reaction_added(s: LedgerState, program_id: Seq<u8>, author: Address, tweet: Address, kind: ReactionType) -> Result<LedgerState, TwitterError> {
    reaction_added_at(s, program_address(reaction_seeds(author@, tweet@), program_id), author, tweet, kind)
}

/// Withdrawing a reaction, where `found` is its derived address and bump: the
/// tweet must exist, and the reaction at that address must be the author's,
/// with that bump; its counter is lowered by one, refused at zero, and the
/// reaction is removed.
pub open spec fn reaction_removed_at(s: LedgerState, found: Option<(Seq<u8>, u8)>, author: Address, tweet: Address) -> Result<LedgerState, TwitterError> {
    match tweet_at(s, tweet@) {
        None => Err(TwitterError::RecordNotFound),
        Some(t) => match found {
            None => Err(TwitterError::RecordNotFound),
            Some((a, bump)) => match reaction_at(s, a) {
                None => Err(TwitterError::RecordNotFound),
                Some(r) => if r.reaction_author@ != author@ || r.bump != bump {
                    Err(TwitterError::RecordNotFound)
                } else if r.reaction == ReactionType::Like && t.likes == 0 {
                    Err(TwitterError::MinLikesReached)
                } else if r.reaction == ReactionType::Dislike && t.dislikes == 0 {
                    Err(TwitterError::MinDislikesReached)
                } else {
                    Ok(s.insert(tweet@, Record::Tweet(recount(t, r.reaction, -1))).remove(a))
                },
            },
        },
    }
}

/// Withdrawing the reaction at the address that `program_id` derives from the
/// author and the tweet.
pub open spec fn reaction_removed(s: LedgerState, program_id: Seq<u8>, author: Address, tweet: Address) -> Result<LedgerState, TwitterError> {
    reaction_removed_at(s, program_address(reaction_seeds(author@, tweet@), program_id), author, tweet)
}

/// Commenting on a tweet, where `found` is the comment's derived address and
/// bump: the length is checked first, the tweet must exist, and the comment
/// is stored at that address if it is free.
pub open spec fn comment_added_at(s: LedgerState, found: Option<(Seq<u8>, u8)>, author: Address, tweet: Address, content: String) -> Result<LedgerState, TwitterError> {
    if byte_len(content@) > COMMENT_LENGTH {
        Err(TwitterError::ContentTooLong)
    } else if tweet_at(s, tweet@) is None {
        Err(TwitterError::RecordNotFound)
    } else {
        match found {
            None => Err(TwitterError::AddressDerivationFailed),
            Some((a, bump)) => if s.contains_key(a) {
                Err(TwitterError::DuplicateRecord)
            } else {
                Ok(s.insert(a, Record::Comment(Comment {
                    comment_author: author,
                    parent_tweet: tweet,
                    content,
                    bump,
                })))
            },
        }
    }
}

/// Commenting on a tweet at the address that `program_id` derives from the
/// author, the digest of the content and the tweet.
pub open spec fn comment_added(s: LedgerState, program_id: Seq<u8>, author: Address, tweet: Address, content: String) -> Result<LedgerState, TwitterError> {
    comment_added_at(s, program_address(comment_seeds(author@, content@, tweet@), program_id), author, tweet, content)
}

/// Deleting a comment, where `found` is its derived address and bump: the
/// tweet must exist, and the comment at that address must be the author's,
/// with that bump; it is removed.
pub open spec fn comment_removed_at(s: LedgerState, found: Option<(Seq<u8>, u8)>, author: Address, tweet: Address) -> Result<LedgerState, TwitterError> {
    if tweet_at(s, tweet@) is None {
        Err(TwitterError::RecordNotFound)
    } else {
        match found {
            None => Err(TwitterError::RecordNotFound),
            Some((a, bump)) => match comment_at(s, a) {
                None => Err(TwitterError::RecordNotFound),
                Some(c) => if c.comment_author@ != author@ || c.bump != bump {
                    Err(TwitterError::RecordNotFound)
                } else {
                    Ok(s.remove(a))
                },
            },
        }
    }
}

/// Deleting the comment at the address that `program_id` derives from the
/// author, the digest of the content and the tweet.
pub open spec fn comment_removed(s: LedgerState, program_id: Seq<u8>, author: Address, tweet: Address, content: Seq<char>) -> Result<LedgerState, TwitterError> {
    comment_removed_at(s, program_address(comment_seeds(author@, content, tweet@), program_id), author, tweet)
}

/// Accepts a topic of at most `TOPIC_LENGTH` bytes.
pub fn validate_topic_length(topic: &str) -> (r: Result<(), TwitterError>)
    ensures
        r == (if byte_len(topic@) > TOPIC_LENGTH {
            Err(TwitterError::TopicTooLong)
        } else {
            Ok(())
        }),
{
    if topic.as_bytes().len() > TOPIC_LENGTH {
        Err(TwitterError::TopicTooLong)
    } else {
        Ok(())
    }
}

/// Accepts a content of at most `max` bytes.
pub fn validate_content_length(content: &str, max: usize) -> (r: Result<(), TwitterError>)
    ensures
        r == (if byte_len(content@) > max {
            Err(TwitterError::ContentTooLong)
        } else {
            Ok(())
        }),
{
    if content.as_bytes().len() > max {
        Err(TwitterError::ContentTooLong)
    } else {
        Ok(())
    }
}

} // verus!
