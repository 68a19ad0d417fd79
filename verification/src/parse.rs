//! Turning the raw bytes of an HTTP response body into a `FeedDocument`.
//!
//! The XML reading itself is done by the `rss` crate; what it yields for a
//! given byte sequence is named by `feed_of`, and everything downstream is
//! stated and proved in terms of that name.

use vstd::prelude::*;

use crate::feed::{Enclosure, Episode, FeedDocument, FeedModel};

verus! {

/// What reading the bytes as an RSS document yields: the parsed feed, or a
/// description of why the bytes are not a well-formed feed. Reading is a
/// function of the bytes alone, so repeated reads of identical bytes agree.
pub uninterp spec fn feed_of(bytes: Seq<u8>) -> Result<FeedModel, Seq<char>>;

/// Relies on `rss::Channel::read_from`: whether a byte sequence is a
/// well-formed RSS document, the channel fields and items read from it, and
/// the message of `rss::Error` on malformed input all depend on the bytes
/// alone. The body only moves the channel's fields into the library's types.
#[verifier::external_body]
fn read_rss(bytes: &[u8]) -> (r: Result<FeedDocument, String>)
    ensures
        r is Ok <==> feed_of(bytes@) is Ok,
        r matches Ok(d) ==> feed_of(bytes@) matches Ok(m) && d@ == m,
        r matches Err(s) ==> feed_of(bytes@) matches Err(c) && s@ == c,
{
    let c = match rss::Channel::read_from(bytes) {
        Ok(c) => c,
        Err(e) => return Err(e.to_string()),
    };
    let episodes = c.items.into_iter().map(|i| Episode {
        title: i.title,
        guid: i.guid.map(|g| g.value),
        description: i.description,
        pub_date: i.pub_date,
        enclosure: i.enclosure.map(|n| Enclosure { url: n.url, mime_type: n.mime_type, length: n.length }),
    }).collect();
    Ok(FeedDocument { title: c.title, description: Some(c.description), image_url: c.image.map(|m| m.url), pub_date: c.pub_date, episodes })
}

/// Interprets a response body as a feed document. Returns the parsed feed
/// exactly when the bytes form a well-formed RSS document, and otherwise a
/// description of the underlying cause.
pub fn parse_feed(bytes: &[u8]) -> (r: Result<FeedDocument, String>)
    ensures
        r is Ok <==> feed_of(bytes@) is Ok,
        r matches Ok(d) ==> feed_of(bytes@) matches Ok(m) && d@ == m,
        r matches Err(s) ==> feed_of(bytes@) matches Err(c) && s@ == c,
{
    read_rss(bytes)
}

/// Parsing is deterministic: any two parses of the same byte sequence agree
/// on the title, the episode count and the resolved publish date.
pub proof fn lemma_parse_deterministic(bytes: Seq<u8>, d1: FeedModel, d2: FeedModel)
    requires
        feed_of(bytes) == Ok::<FeedModel, Seq<char>>(d1),
        feed_of(bytes) == Ok::<FeedModel, Seq<char>>(d2),
    ensures
        d1.title == d2.title,
        d1.episodes.len() == d2.episodes.len(),
        crate::feed::resolved_pub_date_of(d1) == crate::feed::resolved_pub_date_of(d2),
{
}

} // verus!
