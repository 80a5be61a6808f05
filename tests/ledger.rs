use anchor_lang::solana_program::hash::hash;
use anchor_lang::solana_program::pubkey::Pubkey;
use social_ledger::address::{derive_comment_address, derive_post_address, derive_reaction_address, Address};
use social_ledger::instructions::{
    add_comment, add_comment_at, add_reaction, add_reaction_at, initialize_tweet, initialize_tweet_at,
    remove_comment, remove_comment_at, remove_reaction, remove_reaction_at, AddCommentContext,
    AddReactionContext, InitializeTweet, RemoveCommentContext, RemoveReactionContext,
};
use social_ledger::ledger::{validate_content_length, validate_topic_length, Ledger};
use social_ledger::states::{Reaction, ReactionType, Record, Tweet, TwitterError};
use social_ledger::store::RecordStore;
use social_ledger::twitter::{
    comment_remove, comment_tweet, dislike_tweet, initialize, like_tweet, reaction_remove,
};

fn key(b: u8) -> Address {
    Address::new([b; 32])
}

fn new_ledger() -> Ledger {
    Ledger::new(key(200))
}

fn post(ledger: &mut Ledger, author: Address, topic: &str, content: &str) -> Address {
    let r = initialize(
        ledger,
        InitializeTweet { tweet_authority: author },
        topic.to_string(),
        content.to_string(),
    );
    assert_eq!(r, Ok(()));
    derive_post_address(topic, &author, &ledger.program_id).unwrap().0
}

fn counters(ledger: &Ledger, tweet: Address) -> (u64, u64) {
    match ledger.store.get(&tweet) {
        Some(Record::Tweet(t)) => (t.likes, t.dislikes),
        _ => panic!("no tweet at that address"),
    }
}

fn reactor(author: Address, tweet: Address) -> AddReactionContext {
    AddReactionContext { reaction_author: author, tweet }
}

fn withdrawer(author: Address, tweet: Address) -> RemoveReactionContext {
    RemoveReactionContext { reaction_author: author, tweet }
}

fn stored_tweet(author: Address, likes: u64, dislikes: u64) -> Record {
    Record::Tweet(Tweet {
        tweet_author: author,
        topic: "t".to_string(),
        content: "c".to_string(),
        likes,
        dislikes,
        bump: 0,
    })
}

#[test]
fn like_then_withdraw_scenario() {
    let mut ledger = new_ledger();
    let a = key(1);
    let b = key(2);
    let tweet = post(&mut ledger, a, "solana", "hi");
    assert_eq!(like_tweet(&mut ledger, reactor(b, tweet)), Ok(()));
    assert_eq!(counters(&ledger, tweet), (1, 0));
    let (reaction_key, _) = derive_reaction_address(&b, &tweet, &ledger.program_id).unwrap();
    match ledger.store.get(&reaction_key) {
        Some(Record::Reaction(r)) => {
            assert_eq!(r.reaction_author, b);
            assert_eq!(r.parent_tweet, tweet);
            assert_eq!(r.reaction, ReactionType::Like);
        },
        _ => panic!("no reaction stored"),
    }
    assert_eq!(reaction_remove(&mut ledger, withdrawer(b, tweet)), Ok(()));
    assert_eq!(counters(&ledger, tweet), (0, 0));
    assert!(!ledger.store.contains(&reaction_key));
}

#[test]
fn duplicate_comment_scenario() {
    let mut ledger = new_ledger();
    let a = key(1);
    let p = post(&mut ledger, a, "solana", "hi");
    let ctx = AddCommentContext { comment_author: a, parent_tweet: p };
    assert_eq!(comment_tweet(&mut ledger, ctx, "nice".to_string()), Ok(()));
    assert_eq!(comment_tweet(&mut ledger, ctx, "nice".to_string()), Err(TwitterError::DuplicateRecord));
    assert_eq!(comment_tweet(&mut ledger, ctx, "great".to_string()), Ok(()));
    let (first, _) = derive_comment_address(&a, "nice", &p, &ledger.program_id).unwrap();
    let (second, _) = derive_comment_address(&a, "great", &p, &ledger.program_id).unwrap();
    assert_ne!(first, second);
    match (ledger.store.get(&first), ledger.store.get(&second)) {
        (Some(Record::Comment(c1)), Some(Record::Comment(c2))) => {
            assert_eq!(c1.content, "nice");
            assert_eq!(c2.content, "great");
            assert_eq!(c1.comment_author, a);
            assert_eq!(c2.parent_tweet, p);
        },
        _ => panic!("comments not stored"),
    }
}

#[test]
fn created_tweet_has_no_reactions() {
    let mut ledger = new_ledger();
    let a = key(3);
    let tweet = post(&mut ledger, a, "rust", "verified");
    match ledger.store.get(&tweet) {
        Some(Record::Tweet(t)) => {
            assert_eq!(t.likes, 0);
            assert_eq!(t.dislikes, 0);
            assert_eq!(t.topic, "rust");
            assert_eq!(t.content, "verified");
            assert_eq!(t.tweet_author, a);
            let (_, bump) = derive_post_address("rust", &a, &ledger.program_id).unwrap();
            assert_eq!(t.bump, bump);
        },
        _ => panic!("no tweet stored"),
    }
}

#[test]
fn second_tweet_on_same_topic_is_duplicate() {
    let mut ledger = new_ledger();
    let a = key(3);
    post(&mut ledger, a, "rust", "one");
    let ctx = InitializeTweet { tweet_authority: a };
    let r = initialize_tweet(&mut ledger, ctx, "rust".to_string(), "two".to_string());
    assert_eq!(r, Err(TwitterError::DuplicateRecord));
    post(&mut ledger, key(4), "rust", "another author");
}

#[test]
fn topic_and_content_limits() {
    let mut ledger = new_ledger();
    let ctx = InitializeTweet { tweet_authority: key(1) };
    let long_topic = "x".repeat(33);
    let r = initialize_tweet(&mut ledger, ctx, long_topic, "hi".to_string());
    assert_eq!(r, Err(TwitterError::TopicTooLong));
    let r = initialize_tweet(&mut ledger, ctx, "ok".to_string(), "y".repeat(501));
    assert_eq!(r, Err(TwitterError::ContentTooLong));
    let r = initialize_tweet(&mut ledger, ctx, "z".repeat(40), "y".repeat(501));
    assert_eq!(r, Err(TwitterError::TopicTooLong));
    // Seventeen two-byte characters: 34 bytes.
    let r = initialize_tweet(&mut ledger, ctx, "é".repeat(17), "hi".to_string());
    assert_eq!(r, Err(TwitterError::TopicTooLong));
    // A seed holds at most 32 bytes, so such a topic has no address at all.
    assert!(derive_post_address(&"x".repeat(33), &key(1), &ledger.program_id).is_none());
    assert!(!ledger.store.contains(&derive_post_address("ok", &key(1), &ledger.program_id).unwrap().0));
    post(&mut ledger, key(1), &"é".repeat(16), &"y".repeat(500));
    post(&mut ledger, key(1), &"x".repeat(32), "");
}

#[test]
fn comment_limit() {
    let mut ledger = new_ledger();
    let p = post(&mut ledger, key(1), "t", "c");
    let ctx = AddCommentContext { comment_author: key(2), parent_tweet: p };
    assert_eq!(add_comment(&mut ledger, ctx, "c".repeat(501)), Err(TwitterError::ContentTooLong));
    let (k, _) = derive_comment_address(&key(2), &"c".repeat(501), &p, &ledger.program_id).unwrap();
    assert!(!ledger.store.contains(&k));
    assert_eq!(add_comment(&mut ledger, ctx, "c".repeat(500)), Ok(()));
}

#[test]
fn validation_functions() {
    assert_eq!(validate_topic_length(&"a".repeat(32)), Ok(()));
    assert_eq!(validate_topic_length(&"a".repeat(33)), Err(TwitterError::TopicTooLong));
    assert_eq!(validate_content_length("abc", 3), Ok(()));
    assert_eq!(validate_content_length("abcd", 3), Err(TwitterError::ContentTooLong));
    assert_eq!(validate_content_length("ü", 1), Err(TwitterError::ContentTooLong));
}

#[test]
fn withdrawing_missing_reaction_is_not_found() {
    let mut ledger = new_ledger();
    let tweet = post(&mut ledger, key(1), "t", "c");
    assert_eq!(like_tweet(&mut ledger, reactor(key(2), tweet)), Ok(()));
    assert_eq!(remove_reaction(&mut ledger, withdrawer(key(3), tweet)), Err(TwitterError::RecordNotFound));
    assert_eq!(counters(&ledger, tweet), (1, 0));
    assert_eq!(remove_reaction(&mut ledger, withdrawer(key(2), key(99))), Err(TwitterError::RecordNotFound));
    assert_eq!(remove_reaction(&mut ledger, withdrawer(key(2), tweet)), Ok(()));
    assert_eq!(remove_reaction(&mut ledger, withdrawer(key(2), tweet)), Err(TwitterError::RecordNotFound));
    assert_eq!(counters(&ledger, tweet), (0, 0));
}

#[test]
fn like_at_ceiling_is_refused() {
    let mut ledger = new_ledger();
    let tweet = key(50);
    ledger.store.create(tweet, stored_tweet(key(1), u64::MAX, u64::MAX - 1)).unwrap();
    assert_eq!(like_tweet(&mut ledger, reactor(key(2), tweet)), Err(TwitterError::MaxLikesReached));
    assert_eq!(counters(&ledger, tweet), (u64::MAX, u64::MAX - 1));
    assert_eq!(dislike_tweet(&mut ledger, reactor(key(2), tweet)), Ok(()));
    assert_eq!(counters(&ledger, tweet), (u64::MAX, u64::MAX));
    assert_eq!(dislike_tweet(&mut ledger, reactor(key(3), tweet)), Err(TwitterError::MaxDislikesReached));
    assert_eq!(counters(&ledger, tweet), (u64::MAX, u64::MAX));
}

#[test]
fn withdrawing_at_zero_is_refused() {
    let mut ledger = new_ledger();
    let tweet = key(50);
    let author = key(2);
    ledger.store.create(tweet, stored_tweet(key(1), 0, 0)).unwrap();
    let (k, bump) = derive_reaction_address(&author, &tweet, &ledger.program_id).unwrap();
    let like = Reaction { reaction_author: author, parent_tweet: tweet, reaction: ReactionType::Like, bump };
    ledger.store.create(k, Record::Reaction(like)).unwrap();
    assert_eq!(reaction_remove(&mut ledger, withdrawer(author, tweet)), Err(TwitterError::MinLikesReached));
    let dislike = Reaction { reaction: ReactionType::Dislike, ..like };
    ledger.store.update(&k, Record::Reaction(dislike)).unwrap();
    assert_eq!(reaction_remove(&mut ledger, withdrawer(author, tweet)), Err(TwitterError::MinDislikesReached));
    assert!(ledger.store.contains(&k));
    let forged = Reaction { bump: bump.wrapping_add(1), ..like };
    ledger.store.update(&k, Record::Reaction(forged)).unwrap();
    assert_eq!(reaction_remove(&mut ledger, withdrawer(author, tweet)), Err(TwitterError::RecordNotFound));
    let foreign = Reaction { reaction_author: key(9), ..like };
    ledger.store.update(&k, Record::Reaction(foreign)).unwrap();
    assert_eq!(reaction_remove(&mut ledger, withdrawer(author, tweet)), Err(TwitterError::RecordNotFound));
}

#[test]
fn one_reaction_per_author_and_tweet() {
    let mut ledger = new_ledger();
    let tweet = post(&mut ledger, key(1), "t", "c");
    assert_eq!(add_reaction(&mut ledger, reactor(key(2), tweet), ReactionType::Like), Ok(()));
    assert_eq!(
        add_reaction(&mut ledger, reactor(key(2), tweet), ReactionType::Dislike),
        Err(TwitterError::DuplicateRecord)
    );
    assert_eq!(add_reaction(&mut ledger, reactor(key(3), tweet), ReactionType::Dislike), Ok(()));
    assert_eq!(counters(&ledger, tweet), (1, 1));
    assert_eq!(remove_reaction(&mut ledger, withdrawer(key(3), tweet)), Ok(()));
    assert_eq!(counters(&ledger, tweet), (1, 0));
}

#[test]
fn reaction_to_missing_tweet_is_not_found() {
    let mut ledger = new_ledger();
    assert_eq!(like_tweet(&mut ledger, reactor(key(2), key(77))), Err(TwitterError::RecordNotFound));
    let ctx = AddCommentContext { comment_author: key(2), parent_tweet: key(77) };
    assert_eq!(add_comment(&mut ledger, ctx, "hello".to_string()), Err(TwitterError::RecordNotFound));
    let ctx = RemoveCommentContext { comment_author: key(2), tweet: key(77) };
    assert_eq!(remove_comment(&mut ledger, ctx, "hello".to_string()), Err(TwitterError::RecordNotFound));
    // A reaction's address is not a tweet.
    let tweet = post(&mut ledger, key(1), "t", "c");
    assert_eq!(like_tweet(&mut ledger, reactor(key(2), tweet)), Ok(()));
    let (k, _) = derive_reaction_address(&key(2), &tweet, &ledger.program_id).unwrap();
    assert_eq!(like_tweet(&mut ledger, reactor(key(3), k)), Err(TwitterError::RecordNotFound));
}

#[test]
fn reacting_and_withdrawing_restores_counters() {
    let mut ledger = new_ledger();
    let tweet = post(&mut ledger, key(1), "t", "c");
    assert_eq!(like_tweet(&mut ledger, reactor(key(5), tweet)), Ok(()));
    assert_eq!(dislike_tweet(&mut ledger, reactor(key(6), tweet)), Ok(()));
    let before = counters(&ledger, tweet);
    let kinds = [ReactionType::Like, ReactionType::Dislike, ReactionType::Like, ReactionType::Like];
    for kind in kinds {
        assert_eq!(add_reaction(&mut ledger, reactor(key(2), tweet), kind), Ok(()));
        assert_ne!(counters(&ledger, tweet), before);
        assert_eq!(remove_reaction(&mut ledger, withdrawer(key(2), tweet)), Ok(()));
        assert_eq!(counters(&ledger, tweet), before);
    }
}

#[test]
fn comment_removal() {
    let mut ledger = new_ledger();
    let a = key(1);
    let p = post(&mut ledger, a, "t", "c");
    let add = AddCommentContext { comment_author: a, parent_tweet: p };
    assert_eq!(add_comment(&mut ledger, add, "first".to_string()), Ok(()));
    let (k, _) = derive_comment_address(&a, "first", &p, &ledger.program_id).unwrap();
    let other = RemoveCommentContext { comment_author: key(2), tweet: p };
    assert_eq!(comment_remove(&mut ledger, other, "first".to_string()), Err(TwitterError::RecordNotFound));
    let own = RemoveCommentContext { comment_author: a, tweet: p };
    assert_eq!(comment_remove(&mut ledger, own, "second".to_string()), Err(TwitterError::RecordNotFound));
    assert!(ledger.store.contains(&k));
    assert_eq!(comment_remove(&mut ledger, own, "first".to_string()), Ok(()));
    assert!(!ledger.store.contains(&k));
    assert!(ledger.store.contains(&p));
    assert_eq!(comment_remove(&mut ledger, own, "first".to_string()), Err(TwitterError::RecordNotFound));
}

#[test]
fn derived_addresses_follow_the_seed_layout() {
    let program = Pubkey::new_from_array([200; 32]);
    let author = key(1);
    let tweet = key(2);
    let (expected, bump) =
        Pubkey::find_program_address(&[b"solana", b"TWEET_SEED", &author.bytes], &program);
    let (found, found_bump) = derive_post_address("solana", &author, &key(200)).unwrap();
    assert_eq!(found.bytes, expected.to_bytes());
    assert_eq!(found_bump, bump);
    assert_ne!(found, author);
    assert_ne!(found, key(200));

    let (expected, bump) =
        Pubkey::find_program_address(&[b"TWEET_REACTION_SEED", &author.bytes, &tweet.bytes], &program);
    let (found, found_bump) = derive_reaction_address(&author, &tweet, &key(200)).unwrap();
    assert_eq!(found.bytes, expected.to_bytes());
    assert_eq!(found_bump, bump);

    let digest = hash(b"nice").to_bytes();
    let (expected, bump) =
        Pubkey::find_program_address(&[b"COMMENT_SEED", &author.bytes, &digest, &tweet.bytes], &program);
    let (found, found_bump) = derive_comment_address(&author, "nice", &tweet, &key(200)).unwrap();
    assert_eq!(found.bytes, expected.to_bytes());
    assert_eq!(found_bump, bump);
}

#[test]
fn derived_addresses_differ_by_input() {
    let p = key(200);
    let a = derive_post_address("a", &key(1), &p).unwrap().0;
    assert_eq!(a, derive_post_address("a", &key(1), &p).unwrap().0);
    assert_ne!(a, derive_post_address("b", &key(1), &p).unwrap().0);
    assert_ne!(a, derive_post_address("a", &key(2), &p).unwrap().0);
    assert_ne!(a, derive_post_address("a", &key(1), &key(201)).unwrap().0);
    let c = derive_comment_address(&key(1), "x", &key(2), &p).unwrap().0;
    assert_ne!(c, derive_comment_address(&key(1), "y", &key(2), &p).unwrap().0);
    // Comments longer than a seed may be are hashed first.
    assert!(derive_comment_address(&key(1), &"x".repeat(400), &key(2), &p).is_some());
}

#[test]
fn record_store_operations() {
    let mut store = RecordStore::new();
    let k = key(10);
    assert!(!store.contains(&k));
    assert!(store.get(&k).is_none());
    assert_eq!(store.update(&k, stored_tweet(key(1), 0, 0)), Err(TwitterError::RecordNotFound));
    assert_eq!(store.create(k, stored_tweet(key(1), 1, 2)), Ok(()));
    assert_eq!(store.create(k, stored_tweet(key(1), 3, 4)), Err(TwitterError::DuplicateRecord));
    assert_eq!(store.update(&k, stored_tweet(key(1), 5, 6)), Ok(()));
    match store.get(&k) {
        Some(Record::Tweet(t)) => assert_eq!((t.likes, t.dislikes), (5, 6)),
        _ => panic!("record lost"),
    }
    assert_eq!(store.create(key(11), stored_tweet(key(1), 0, 0)), Ok(()));
    assert!(store.destroy(&k).is_some());
    assert!(store.destroy(&k).is_none());
    assert!(store.contains(&key(11)));
}

#[test]
fn underivable_address_is_reported() {
    let mut ledger = new_ledger();
    let ctx = InitializeTweet { tweet_authority: key(1) };
    let r = initialize_tweet_at(&mut ledger, ctx, "t".to_string(), "c".to_string(), None);
    assert_eq!(r, Err(TwitterError::AddressDerivationFailed));
    let r = initialize_tweet_at(&mut ledger, ctx, "t".repeat(33), "c".to_string(), None);
    assert_eq!(r, Err(TwitterError::TopicTooLong));
    let tweet = post(&mut ledger, key(1), "t", "c");
    assert_eq!(
        add_reaction_at(&mut ledger, reactor(key(2), tweet), ReactionType::Like, None),
        Err(TwitterError::AddressDerivationFailed)
    );
    let add = AddCommentContext { comment_author: key(2), parent_tweet: tweet };
    assert_eq!(add_comment_at(&mut ledger, add, "x".to_string(), None), Err(TwitterError::AddressDerivationFailed));
    assert_eq!(remove_reaction_at(&mut ledger, withdrawer(key(2), tweet), None), Err(TwitterError::RecordNotFound));
    let remove = RemoveCommentContext { comment_author: key(2), tweet };
    assert_eq!(remove_comment_at(&mut ledger, remove, None), Err(TwitterError::RecordNotFound));
    assert_eq!(counters(&ledger, tweet), (0, 0));
}

#[test]
fn records_at_given_addresses() {
    let mut ledger = new_ledger();
    let tweet = key(60);
    let ctx = InitializeTweet { tweet_authority: key(1) };
    let r = initialize_tweet_at(&mut ledger, ctx, "t".to_string(), "c".to_string(), Some((tweet, 9)));
    assert_eq!(r, Ok(()));
    match ledger.store.get(&tweet) {
        Some(Record::Tweet(t)) => assert_eq!((t.likes, t.dislikes, t.bump), (0, 0, 9)),
        _ => panic!("no tweet stored"),
    }
    let reaction = key(61);
    assert_eq!(
        add_reaction_at(&mut ledger, reactor(key(2), tweet), ReactionType::Dislike, Some((reaction, 4))),
        Ok(())
    );
    assert_eq!(counters(&ledger, tweet), (0, 1));
    assert_eq!(
        remove_reaction_at(&mut ledger, withdrawer(key(2), tweet), Some((reaction, 5))),
        Err(TwitterError::RecordNotFound)
    );
    assert_eq!(remove_reaction_at(&mut ledger, withdrawer(key(2), tweet), Some((reaction, 4))), Ok(()));
    assert_eq!(counters(&ledger, tweet), (0, 0));
    assert!(!ledger.store.contains(&reaction));

    let comment = key(62);
    let add = AddCommentContext { comment_author: key(3), parent_tweet: tweet };
    assert_eq!(add_comment_at(&mut ledger, add, "x".to_string(), Some((comment, 1))), Ok(()));
    assert_eq!(
        add_comment_at(&mut ledger, add, "y".to_string(), Some((comment, 1))),
        Err(TwitterError::DuplicateRecord)
    );
    let remove = RemoveCommentContext { comment_author: key(3), tweet };
    assert_eq!(remove_comment_at(&mut ledger, remove, Some((tweet, 9))), Err(TwitterError::RecordNotFound));
    assert_eq!(remove_comment_at(&mut ledger, remove, Some((comment, 1))), Ok(()));
    assert!(!ledger.store.contains(&comment));
    assert!(ledger.store.contains(&tweet));
}

#[test]
fn duplicate_reaction_wins_over_ceiling() {
    let mut ledger = new_ledger();
    let tweet = key(50);
    let author = key(2);
    ledger.store.create(tweet, stored_tweet(key(1), u64::MAX - 1, 0)).unwrap();
    assert_eq!(like_tweet(&mut ledger, reactor(author, tweet)), Ok(()));
    assert_eq!(counters(&ledger, tweet), (u64::MAX, 0));
    assert_eq!(like_tweet(&mut ledger, reactor(author, tweet)), Err(TwitterError::DuplicateRecord));
    assert_eq!(dislike_tweet(&mut ledger, reactor(author, tweet)), Err(TwitterError::DuplicateRecord));
    assert_eq!(counters(&ledger, tweet), (u64::MAX, 0));
    let (k, _) = derive_reaction_address(&author, &tweet, &ledger.program_id).unwrap();
    match ledger.store.get(&k) {
        Some(Record::Reaction(r)) => assert_eq!(r.reaction, ReactionType::Like),
        _ => panic!("reaction lost"),
    }
}
