//! Short, topic-tagged posts stored as fixed-capacity records.
//!
//! `tweet` holds the record and its storage layout, `error` the two ways a
//! post is refused, and `instructions` the creation step that validates a
//! post and fills a new record.
pub mod error;
pub mod instructions;
pub mod tweet;

pub use error::ErrorCode;
pub use instructions::{send_tweet, SendTweet};
pub use tweet::Tweet;
