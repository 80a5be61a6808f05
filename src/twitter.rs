//! The program's entry points, one per instruction a client can send.

use crate::instructions::{
    add_comment, add_reaction, initialize_tweet, remove_comment, remove_reaction, AddCommentContext,
    AddReactionContext, InitializeTweet, RemoveCommentContext, RemoveReactionContext,
};
use crate::ledger::{
    comment_added, comment_removed, outcome, reaction_added, reaction_removed, tweet_created, Ledger,
};
use crate::states::{ReactionType, TwitterError};
use vstd::prelude::*;

verus! {

/// Posts a tweet.
pub fn initialize(ledger: &mut Ledger, ctx: InitializeTweet, topic: String, content: String) -> (r: Result<(), TwitterError>)
    ensures
        final(ledger).program_id == old(ledger).program_id,
        outcome(r, final(ledger).store@) == tweet_created(
            old(ledger).store@,
            old(ledger).program_id@,
            ctx.tweet_authority,
            topic,
            content,
        ),
        r is Err ==> final(ledger).store@ == old(ledger).store@,
{
    initialize_tweet(ledger, ctx, topic, content)
}

/// Likes a tweet.
pub fn like_tweet(ledger: &mut Ledger, ctx: AddReactionContext) -> (r: Result<(), TwitterError>)
    ensures
        final(ledger).program_id == old(ledger).program_id,
        outcome(r, final(ledger).store@) == reaction_added(
            old(ledger).store@,
            old(ledger).program_id@,
            ctx.reaction_author,
            ctx.tweet,
            ReactionType::Like,
        ),
        r is Err ==> final(ledger).store@ == old(ledger).store@,
{
    add_reaction(ledger, ctx, ReactionType::Like)
}

/// Dislikes a tweet.
pub fn dislike_tweet(ledger: &mut Ledger, ctx: AddReactionContext) -> (r: Result<(), TwitterError>)
    ensures
        final(ledger).program_id == old(ledger).program_id,
        outcome(r, final(ledger).store@) == reaction_added(
            old(ledger).store@,
            old(ledger).program_id@,
            ctx.reaction_author,
            ctx.tweet,
            ReactionType::Dislike,
        ),
        r is Err ==> final(ledger).store@ == old(ledger).store@,
{
    add_reaction(ledger, ctx, ReactionType::Dislike)
}

/// Withdraws a like or a dislike.
pub fn reaction_remove(ledger: &mut Ledger, ctx: RemoveReactionContext) -> (r: Result<(), TwitterError>)
    ensures
        final(ledger).program_id == old(ledger).program_id,
        outcome(r, final(ledger).store@) == reaction_removed(
            old(ledger).store@,
            old(ledger).program_id@,
            ctx.reaction_author,
            ctx.tweet,
        ),
        r is Err ==> final(ledger).store@ == old(ledger).store@,
{
    remove_reaction(ledger, ctx)
}

/// Comments on a tweet.
pub fn comment_tweet(ledger: &mut Ledger, ctx: AddCommentContext, comment_content: String) -> (r: Result<(), TwitterError>)
    ensures
        final(ledger).program_id == old(ledger).program_id,
        outcome(r, final(ledger).store@) == comment_added(
            old(ledger).store@,
            old(ledger).program_id@,
            ctx.comment_author,
            ctx.parent_tweet,
            comment_content,
        ),
        r is Err ==> final(ledger).store@ == old(ledger).store@,
{
    add_comment(ledger, ctx, comment_content)
}

/// Deletes a comment.
pub fn comment_remove(ledger: &mut Ledger, ctx: RemoveCommentContext, comment_content: String) -> (r: Result<(), TwitterError>)
    ensures
        final(ledger).program_id == old(ledger).program_id,
        outcome(r, final(ledger).store@) == comment_removed(
            old(ledger).store@,
            old(ledger).program_id@,
            ctx.comment_author,
            ctx.tweet,
            comment_content@,
        ),
        r is Err ==> final(ledger).store@ == old(ledger).store@,
{
    remove_comment(ledger, ctx, comment_content)
}

} // verus!
