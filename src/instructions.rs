use vstd::prelude::*;
use vstd::string::StrSliceExecFns;

use anchor_lang::prelude::Pubkey;

use crate::error::ErrorCode;
use crate::tweet::{Tweet, MAX_CONTENT_CHARS, MAX_TOPIC_CHARS};

verus! {

/// What the runtime hands to a post: the signer who asked for it, and the
/// clock reading taken when the request came in.
pub struct SendTweet {
    /// The address of the signer; it becomes the record's author.
    pub author: Pubkey,
    /// Seconds since the Unix epoch, as the runtime's clock reported them.
    pub unix_timestamp: i64,
}

/// Checks a post and, when both texts are within their limits, returns the
/// record to store, with the texts kept exactly as given.
///
/// The topic is checked before the content, so a post that breaks both
/// limits is refused for its topic.
pub fn send_tweet(ctx: SendTweet, topic: String, content: String) -> (r: Result<Tweet, ErrorCode>)
    ensures
        topic@.len() > MAX_TOPIC_CHARS ==> r == Err::<Tweet, ErrorCode>(ErrorCode::TopicTooLong),
        topic@.len() <= MAX_TOPIC_CHARS && content@.len() > MAX_CONTENT_CHARS ==> r == Err::<
            Tweet,
            ErrorCode,
        >(ErrorCode::ContentTooLong),
        r is Ok <==> topic@.len() <= MAX_TOPIC_CHARS && content@.len() <= MAX_CONTENT_CHARS,
        r matches Ok(t) ==> {
            &&& t.author == ctx.author
            &&& t.timestamp == ctx.unix_timestamp
            &&& t.topic == topic
            &&& t.content == content
            &&& t.is_valid()
        },
{
    if topic.as_str().unicode_len() > MAX_TOPIC_CHARS {
        return Err(ErrorCode::TopicTooLong);
    }
    if content.as_str().unicode_len() > MAX_CONTENT_CHARS {
        return Err(ErrorCode::ContentTooLong);
    }
    Ok(Tweet { author: ctx.author, timestamp: ctx.unix_timestamp, topic, content })
}

} // verus!
