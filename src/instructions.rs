//! The operations of the ledger. Each checks everything it needs before it
//! changes a record, so that a refused operation changes nothing.

use crate::address::{
    derive_comment_address, derive_post_address, derive_reaction_address, found_view, Address,
};
use crate::ledger::{
    comment_added, comment_added_at, comment_removed, comment_removed_at, outcome, reaction_added,
    reaction_added_at, reaction_removed, reaction_removed_at, tweet_created, tweet_created_at,
    validate_content_length, validate_topic_length, Ledger,
};
use crate::states::{
    Comment, Reaction, ReactionType, Record, Tweet, TwitterError, COMMENT_LENGTH, CONTENT_LENGTH,
};
use vstd::prelude::*;

verus! {

/// Who reacts, and to which tweet.
#[derive(Clone, Copy, Debug)]
pub struct AddReactionContext {
    pub reaction_author: Address,
    pub tweet: Address,
}

/// Adds the reaction of `ctx.reaction_author` to `ctx.tweet` and counts it
/// on the tweet.
pub fn add_reaction(ledger: &mut Ledger, ctx: AddReactionContext, reaction: ReactionType) -> (r: Result<(), TwitterError>)
    ensures
        final(ledger).program_id == old(ledger).program_id,
        outcome(r, final(ledger).store@) == reaction_added(
            old(ledger).store@,
            old(ledger).program_id@,
            ctx.reaction_author,
            ctx.tweet,
            reaction,
        ),
        r is Err ==> final(ledger).store@ == old(ledger).store@,
{
    let derived = derive_reaction_address(&ctx.reaction_author, &ctx.tweet, &ledger.program_id);
    add_reaction_at(ledger, ctx, reaction, derived)
}

/// Adds the reaction of `ctx.reaction_author` to `ctx.tweet` at `derived`,
/// its derived address and bump, and counts it on the tweet.
pub fn add_reaction_at(
    ledger: &mut Ledger,
    ctx: AddReactionContext,
    reaction: ReactionType,
    derived: Option<(Address, u8)>,
) -> (r: Result<(), TwitterError>)
    ensures
        final(ledger).program_id == old(ledger).program_id,
        outcome(r, final(ledger).store@) == reaction_added_at(
            old(ledger).store@,
            found_view(derived),
            ctx.reaction_author,
            ctx.tweet,
            reaction,
        ),
        r is Err ==> final(ledger).store@ == old(ledger).store@,
{
    let (likes, dislikes) = match ledger.store.get(&ctx.tweet) {
        Some(Record::Tweet(t)) => (t.likes, t.dislikes),
        _ => return Err(TwitterError::RecordNotFound),
    };
    let (address, bump) = match derived {
        Some(found) => found,
        None => return Err(TwitterError::AddressDerivationFailed),
    };
    if ledger.store.contains(&address) {
        return Err(TwitterError::DuplicateRecord);
    }
    match reaction {
        ReactionType::Like => if likes == u64::MAX {
            return Err(TwitterError::MaxLikesReached);
        },
        ReactionType::Dislike => if dislikes == u64::MAX {
            return Err(TwitterError::MaxDislikesReached);
        },
    }
    let mut tweet = match ledger.store.destroy(&ctx.tweet) {
        Some(Record::Tweet(t)) => t,
        _ => return Err(TwitterError::RecordNotFound),
    };
    match reaction {
        ReactionType::Like => tweet.likes = tweet.likes + 1,
        ReactionType::Dislike => tweet.dislikes = tweet.dislikes + 1,
    }
    let _ = ledger.store.create(ctx.tweet, Record::Tweet(tweet));
    let _ = ledger.store.create(
        address,
        Record::Reaction(Reaction { reaction_author: ctx.reaction_author, parent_tweet: ctx.tweet, reaction, bump }),
    );
    proof {
        let s = old(ledger).store@;
        assert(s.remove(ctx.tweet@).insert(ctx.tweet@, Record::Tweet(tweet)) =~= s.insert(ctx.tweet@, Record::Tweet(tweet)));
    }
    Ok(())
}

/// Who withdraws a reaction, and from which tweet.
#[derive(Clone, Copy, Debug)]
pub struct RemoveReactionContext {
    pub reaction_author: Address,
    pub tweet: Address,
}

/// Withdraws the reaction of `ctx.reaction_author` from `ctx.tweet` and
/// uncounts it on the tweet.
pub fn remove_reaction(ledger: &mut Ledger, ctx: RemoveReactionContext) -> (r: Result<(), TwitterError>)
    ensures
        final(ledger).program_id == old(ledger).program_id,
        outcome(r, final(ledger).store@) == reaction_removed(
            old(ledger).store@,
            old(ledger).program_id@,
            ctx.reaction_author,
            ctx.tweet,
        ),
        r is Err ==> final(ledger).store@ == old(ledger).store@,
{
    let derived = derive_reaction_address(&ctx.reaction_author, &ctx.tweet, &ledger.program_id);
    remove_reaction_at(ledger, ctx, derived)
}

/// Withdraws the reaction of `ctx.reaction_author` from `ctx.tweet`, which
/// stands at `derived`, its derived address and bump, and uncounts it on the
/// tweet.
pub fn remove_reaction_at(ledger: &mut Ledger, ctx: RemoveReactionContext, derived: Option<(Address, u8)>) -> (r: Result<(), TwitterError>)
    ensures
        final(ledger).program_id == old(ledger).program_id,
        outcome(r, final(ledger).store@) == reaction_removed_at(
            old(ledger).store@,
            found_view(derived),
            ctx.reaction_author,
            ctx.tweet,
        ),
        r is Err ==> final(ledger).store@ == old(ledger).store@,
{
    let (likes, dislikes) = match ledger.store.get(&ctx.tweet) {
        Some(Record::Tweet(t)) => (t.likes, t.dislikes),
        _ => return Err(TwitterError::RecordNotFound),
    };
    let (address, bump) = match derived {
        Some(found) => found,
        None => return Err(TwitterError::RecordNotFound),
    };
    let kind = match ledger.store.get(&address) {
        Some(Record::Reaction(reaction)) => {
            if reaction.reaction_author != ctx.reaction_author || reaction.bump != bump {
                return Err(TwitterError::RecordNotFound);
            }
            reaction.reaction
        },
        _ => return Err(TwitterError::RecordNotFound),
    };
    match kind {
        ReactionType::Like => if likes == 0 {
            return Err(TwitterError::MinLikesReached);
        },
        ReactionType::Dislike => if dislikes == 0 {
            return Err(TwitterError::MinDislikesReached);
        },
    }
    let _ = ledger.store.destroy(&address);
    let mut tweet = match ledger.store.destroy(&ctx.tweet) {
        Some(Record::Tweet(t)) => t,
        _ => return Err(TwitterError::RecordNotFound),
    };
    match kind {
        ReactionType::Like => tweet.likes = tweet.likes - 1,
        ReactionType::Dislike => tweet.dislikes = tweet.dislikes - 1,
    }
    let _ = ledger.store.create(ctx.tweet, Record::Tweet(tweet));
    proof {
        let s = old(ledger).store@;
        assert(s.remove(address@).remove(ctx.tweet@).insert(ctx.tweet@, Record::Tweet(tweet))
            =~= s.insert(ctx.tweet@, Record::Tweet(tweet)).remove(address@));
    }
    Ok(())
}

/// Who writes a tweet.
#[derive(Clone, Copy, Debug)]
pub struct InitializeTweet {
    pub tweet_authority: Address,
}

/// Stores a new tweet of `ctx.tweet_authority` with no reactions.
pub fn initialize_tweet(ledger: &mut Ledger, ctx: InitializeTweet, topic: String, content: String) -> (r: Result<(), TwitterError>)
    ensures
        final(ledger).program_id == old(ledger).program_id,
        outcome(r, final(ledger).store@) == tweet_created(
            old(ledger).store@,
            old(ledger).program_id@,
            ctx.tweet_authority,
            topic,
            content,
        ),
        r is Err ==> final(ledger).store@ == old(ledger).store@,
{
    let derived = derive_post_address(topic.as_str(), &ctx.tweet_authority, &ledger.program_id);
    initialize_tweet_at(ledger, ctx, topic, content, derived)
}

/// Stores a new tweet of `ctx.tweet_authority`, with no reactions, at
/// `derived`, its derived address and bump.
pub fn initialize_tweet_at(
    ledger: &mut Ledger,
    ctx: InitializeTweet,
    topic: String,
    content: String,
    derived: Option<(Address, u8)>,
) -> (r: Result<(), TwitterError>)
    ensures
        final(ledger).program_id == old(ledger).program_id,
        outcome(r, final(ledger).store@) == tweet_created_at(
            old(ledger).store@,
            found_view(derived),
            ctx.tweet_authority,
            topic,
            content,
        ),
        r is Err ==> final(ledger).store@ == old(ledger).store@,
{
    if let Err(e) = validate_topic_length(topic.as_str()) {
        return Err(e);
    }
    if let Err(e) = validate_content_length(content.as_str(), CONTENT_LENGTH) {
        return Err(e);
    }
    let (address, bump) = match derived {
        Some(found) => found,
        None => return Err(TwitterError::AddressDerivationFailed),
    };
    let tweet = Tweet { tweet_author: ctx.tweet_authority, topic, content, likes: 0, dislikes: 0, bump };
    ledger.store.create(address, Record::Tweet(tweet))
}

/// Who comments, and on which tweet.
#[derive(Clone, Copy, Debug)]
pub struct AddCommentContext {
    pub comment_author: Address,
    pub parent_tweet: Address,
}

/// Stores a new comment of `ctx.comment_author` on `ctx.parent_tweet`.
pub fn add_comment(ledger: &mut Ledger, ctx: AddCommentContext, comment_content: String) -> (r: Result<(), TwitterError>)
    ensures
        final(ledger).program_id == old(ledger).program_id,
        outcome(r, final(ledger).store@) == comment_added(
            old(ledger).store@,
            old(ledger).program_id@,
            ctx.comment_author,
            ctx.parent_tweet,
            comment_content,
        ),
        r is Err ==> final(ledger).store@ == old(ledger).store@,
{
    let derived = derive_comment_address(
        &ctx.comment_author,
        comment_content.as_str(),
        &ctx.parent_tweet,
        &ledger.program_id,
    );
    add_comment_at(ledger, ctx, comment_content, derived)
}

/// Stores a new comment of `ctx.comment_author` on `ctx.parent_tweet` at
/// `derived`, its derived address and bump.
pub fn add_comment_at(
    ledger: &mut Ledger,
    ctx: AddCommentContext,
    comment_content: String,
    derived: Option<(Address, u8)>,
) -> (r: Result<(), TwitterError>)
    ensures
        final(ledger).program_id == old(ledger).program_id,
        outcome(r, final(ledger).store@) == comment_added_at(
            old(ledger).store@,
            found_view(derived),
            ctx.comment_author,
            ctx.parent_tweet,
            comment_content,
        ),
        r is Err ==> final(ledger).store@ == old(ledger).store@,
{
    if let Err(e) = validate_content_length(comment_content.as_str(), COMMENT_LENGTH) {
        return Err(e);
    }
    match ledger.store.get(&ctx.parent_tweet) {
        Some(Record::Tweet(_)) => {},
        _ => return Err(TwitterError::RecordNotFound),
    }
    let (address, bump) = match derived {
        Some(found) => found,
        None => return Err(TwitterError::AddressDerivationFailed),
    };
    let comment = Comment {
        comment_author: ctx.comment_author,
        parent_tweet: ctx.parent_tweet,
        content: comment_content,
        bump,
    };
    ledger.store.create(address, Record::Comment(comment))
}

/// Who deletes a comment, and on which tweet it stands.
#[derive(Clone, Copy, Debug)]
pub struct RemoveCommentContext {
    pub comment_author: Address,
    pub tweet: Address,
}

/// Deletes the comment of `ctx.comment_author` with `comment_content` on
/// `ctx.tweet`.
pub fn remove_comment(ledger: &mut Ledger, ctx: RemoveCommentContext, comment_content: String) -> (r: Result<(), TwitterError>)
    ensures
        final(ledger).program_id == old(ledger).program_id,
        outcome(r, final(ledger).store@) == comment_removed(
            old(ledger).store@,
            old(ledger).program_id@,
            ctx.comment_author,
            ctx.tweet,
            comment_content@,
        ),
        r is Err ==> final(ledger).store@ == old(ledger).store@,
{
    let derived = derive_comment_address(&ctx.comment_author, comment_content.as_str(), &ctx.tweet, &ledger.program_id);
    remove_comment_at(ledger, ctx, derived)
}

/// Deletes the comment of `ctx.comment_author` on `ctx.tweet` that stands at
/// `derived`, its derived address and bump.
pub fn remove_comment_at(ledger: &mut Ledger, ctx: RemoveCommentContext, derived: Option<(Address, u8)>) -> (r: Result<(), TwitterError>)
    ensures
        final(ledger).program_id == old(ledger).program_id,
        outcome(r, final(ledger).store@) == comment_removed_at(
            old(ledger).store@,
            found_view(derived),
            ctx.comment_author,
            ctx.tweet,
        ),
        r is Err ==> final(ledger).store@ == old(ledger).store@,
{
    match ledger.store.get(&ctx.tweet) {
        Some(Record::Tweet(_)) => {},
        _ => return Err(TwitterError::RecordNotFound),
    }
    let (address, bump) = match derived {
        Some(found) => found,
        None => return Err(TwitterError::RecordNotFound),
    };
    match ledger.store.get(&address) {
        Some(Record::Comment(comment)) => {
            if comment.comment_author != ctx.comment_author || comment.bump != bump {
                return Err(TwitterError::RecordNotFound);
            }
        },
        _ => return Err(TwitterError::RecordNotFound),
    }
    let _ = ledger.store.destroy(&address);
    Ok(())
}

} // verus!
