use vstd::prelude::*;
use vstd::utf8::encode_utf8;

use anchor_lang::prelude::Pubkey;

verus! {

/// Relies on anchor_lang's `Pubkey` (an account address of 32 bytes) only as
/// a value that is moved from the signer into a record, never read inside.
#[verifier::external_type_specification]
#[verifier::external_body]
pub struct ExPubkey(Pubkey);

/// Bytes of the type tag that the runtime puts before every stored record.
pub const DISCRIMINATOR_LENGTH: usize = 8;

/// Bytes of an account address.
pub const PUBLIC_KEY_LENGTH: usize = 32;

/// Bytes of a signed 64-bit timestamp.
pub const TIMESTAMP_LENGTH: usize = 8;

/// Bytes of the length that precedes the bytes of each stored string.
pub const STRING_LENGTH_PREFIX: usize = 4;

/// Most characters that a topic may hold.
pub const MAX_TOPIC_CHARS: usize = 50;

/// Most characters that a content may hold.
pub const MAX_CONTENT_CHARS: usize = 280;

/// Most bytes that a UTF-8 encoded character takes.
pub const MAX_UTF8_CHAR_BYTES: usize = 4;

/// Bytes reserved for the text of a topic: every character at its widest.
pub const MAX_TOPIC_LENGTH: usize = MAX_TOPIC_CHARS * MAX_UTF8_CHAR_BYTES;

/// Bytes reserved for the text of a content: every character at its widest.
pub const MAX_CONTENT_LENGTH: usize = MAX_CONTENT_CHARS * MAX_UTF8_CHAR_BYTES;

/// A post: who wrote it, when, under which topic, and what it says.
///
/// Fields are stored in this order, after the type tag.
#[derive(Debug, PartialEq, Eq)]
pub struct Tweet {
    pub author: Pubkey,
    pub timestamp: i64,
    pub topic: String,
    pub content: String,
}

/// Number of bytes that the UTF-8 encoding of `s` takes.
pub open spec fn utf8_len(s: Seq<char>) -> nat {
    encode_utf8(s).len()
}

/// A UTF-8 encoding takes at most four bytes per character.
pub proof fn lemma_utf8_len_bound(s: Seq<char>)
    ensures
        utf8_len(s) <= MAX_UTF8_CHAR_BYTES * s.len(),
    decreases s.len(),
{
    if s.len() > 0 {
        lemma_utf8_len_bound(s.drop_first());
    }
}

impl Tweet {
    /// Bytes of storage reserved for one record, whatever text it holds.
    pub const LEN: usize = DISCRIMINATOR_LENGTH + PUBLIC_KEY_LENGTH + TIMESTAMP_LENGTH
        + STRING_LENGTH_PREFIX + MAX_TOPIC_LENGTH + STRING_LENGTH_PREFIX + MAX_CONTENT_LENGTH;

    /// The topic and the content are within their character limits.
    pub open spec fn is_valid(&self) -> bool {
        &&& self.topic@.len() <= MAX_TOPIC_CHARS
        &&& self.content@.len() <= MAX_CONTENT_CHARS
    }

    /// Bytes that the stored form of this record takes: type tag, address,
    /// timestamp, then each string as its length followed by its UTF-8 bytes.
    pub open spec fn encoded_len(&self) -> int {
        DISCRIMINATOR_LENGTH + PUBLIC_KEY_LENGTH + TIMESTAMP_LENGTH + STRING_LENGTH_PREFIX
            + utf8_len(self.topic@) + STRING_LENGTH_PREFIX + utf8_len(self.content@)
    }

    /// Bytes that the stored form of this record takes.
    pub fn serialized_len(&self) -> (r: usize)
        requires
            self.encoded_len() <= usize::MAX,
        ensures
            r == self.encoded_len(),
            self.is_valid() ==> r <= Self::LEN,
    {
        proof {
            if self.is_valid() {
                lemma_tweet_fits_slot(self);
            }
        }
        DISCRIMINATOR_LENGTH + PUBLIC_KEY_LENGTH + TIMESTAMP_LENGTH + STRING_LENGTH_PREFIX
            + self.topic.as_str().len() + STRING_LENGTH_PREFIX + self.content.as_str().len()
    }
}

/// The stored form of a record whose text is within its limits never takes
/// more bytes than are reserved for a record, however wide its characters.
pub proof fn lemma_tweet_fits_slot(t: &Tweet)
    requires
        t.is_valid(),
    ensures
        t.encoded_len() <= Tweet::LEN,
        Tweet::LEN == 1376,
{
    lemma_utf8_len_bound(t.topic@);
    lemma_utf8_len_bound(t.content@);
}

} // verus!
