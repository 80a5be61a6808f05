//! The records that the ledger stores, their limits, and the errors of the
//! ledger's operations.

use crate::address::Address;
use vstd::prelude::*;

verus! {

/// The largest topic of a tweet, in bytes.
pub const TOPIC_LENGTH: usize = 32;

/// The largest content of a tweet, in bytes.
pub const CONTENT_LENGTH: usize = 500;

/// The largest content of a comment, in bytes.
pub const COMMENT_LENGTH: usize = 500;

/// The seed that marks a tweet's address.
pub const TWEET_SEED: &'static str = "TWEET_SEED";

/// The seed that marks a reaction's address.
pub const TWEET_REACTION_SEED: &'static str = "TWEET_REACTION_SEED";

/// The seed that marks a comment's address.
pub const COMMENT_SEED: &'static str = "COMMENT_SEED";

/// What a reaction says of a tweet.
#[derive(Clone, Copy, Debug, PartialEq, Eq, Structural)]
pub enum ReactionType {
    Like,
    Dislike,
}

/// A tweet, stored at the address derived from its topic and its author.
#[derive(Debug)]
pub struct Tweet {
    pub tweet_author: Address,
    pub topic: String,
    pub content: String,
    pub likes: u64,
    pub dislikes: u64,
    pub bump: u8,
}

/// One author's reaction to one tweet, stored at the address derived from
/// the author and the tweet.
#[derive(Clone, Copy, Debug)]
pub struct Reaction {
    pub reaction_author: Address,
    pub parent_tweet: Address,
    pub reaction: ReactionType,
    pub bump: u8,
}

/// A comment on a tweet, stored at the address derived from its author, the
/// digest of its content and the tweet.
#[derive(Debug)]
pub struct Comment {
    pub comment_author: Address,
    pub parent_tweet: Address,
    pub content: String,
    pub bump: u8,
}

/// Any record of the ledger.
#[derive(Debug)]
pub enum Record {
    Tweet(Tweet),
    Reaction(Reaction),
    Comment(Comment),
}

/// Why an operation of the ledger was refused. A refused operation changes
/// nothing.
#[derive(Clone, Copy, Debug, PartialEq, Eq, Structural)]
pub enum TwitterError {
    TopicTooLong,
    ContentTooLong,
    MaxLikesReached,
    MaxDislikesReached,
    MinLikesReached,
    MinDislikesReached,
    DuplicateRecord,
    RecordNotFound,
    AddressDerivationFailed,
}

} // verus!
