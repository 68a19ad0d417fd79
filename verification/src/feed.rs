//! The parsed representation of a podcast feed: a channel's metadata plus an
//! ordered sequence of episodes, together with the publish-date fallback rule.

use vstd::prelude::*;

verus! {

/// A media reference attached to an episode: URL, MIME type and reported size.
#[derive(Clone, Debug, PartialEq, Eq)]
pub struct Enclosure {
    pub url: String,
    pub mime_type: String,
    pub length: String,
}

/// One entry of a feed. The title and identifier are optional in the wire
/// format, so they are optional here too.
#[derive(Clone, Debug, PartialEq, Eq)]
pub struct Episode {
    pub title: Option<String>,
    pub guid: Option<String>,
    pub description: Option<String>,
    pub pub_date: Option<String>,
    pub enclosure: Option<Enclosure>,
}

/// A parsed feed document: channel-level metadata and the episodes in
/// document order.
#[derive(Clone, Debug, PartialEq, Eq)]
pub struct FeedDocument {
    pub title: String,
    pub description: Option<String>,
    pub image_url: Option<String>,
    pub pub_date: Option<String>,
    pub episodes: Vec<Episode>,
}

/// Mathematical model of an `Enclosure`.
pub struct EnclosureModel {
    pub url: Seq<char>,
    pub mime_type: Seq<char>,
    pub length: Seq<char>,
}

/// Mathematical model of an `Episode`.
pub struct EpisodeModel {
    pub title: Option<Seq<char>>,
    pub guid: Option<Seq<char>>,
    pub description: Option<Seq<char>>,
    pub pub_date: Option<Seq<char>>,
    pub enclosure: Option<EnclosureModel>,
}

/// Mathematical model of a `FeedDocument`.
pub struct FeedModel {
    pub title: Seq<char>,
    pub description: Option<Seq<char>>,
    pub image_url: Option<Seq<char>>,
    pub pub_date: Option<Seq<char>>,
    pub episodes: Seq<EpisodeModel>,
}

/// The view of an optional string: the character sequence, if present.
pub open spec fn opt_str_view(o: Option<String>) -> Option<Seq<char>> {
    match o {
        Option::Some(s) => Option::Some(s@),
        Option::None => Option::None,
    }
}

impl View for Enclosure {
    type V = EnclosureModel;

    open spec fn view(&self) -> EnclosureModel {
        EnclosureModel { url: self.url@, mime_type: self.mime_type@, length: self.length@ }
    }
}

impl View for Episode {
    type V = EpisodeModel;

    open spec fn view(&self) -> EpisodeModel {
        EpisodeModel {
            title: opt_str_view(self.title),
            guid: opt_str_view(self.guid),
            description: opt_str_view(self.description),
            pub_date: opt_str_view(self.pub_date),
            enclosure: match self.enclosure {
                Option::Some(e) => Option::Some(e@),
                Option::None => Option::None,
            },
        }
    }
}

impl View for FeedDocument {
    type V = FeedModel;

    open spec fn view(&self) -> FeedModel {
        FeedModel {
            title: self.title@,
            description: opt_str_view(self.description),
            image_url: opt_str_view(self.image_url),
            pub_date: opt_str_view(self.pub_date),
            episodes: self.episodes@.map_values(|e: Episode| e@),
        }
    }
}

/// The publish-date fallback rule: a channel-level date wins; otherwise the
/// first episode's date is used; a feed with neither has no date.
pub open spec fn resolved_pub_date_of(d: FeedModel) -> Option<Seq<char>> {
    if d.pub_date is Some {
        d.pub_date
    } else if d.episodes.len() > 0 {
        d.episodes[0].pub_date
    } else {
        Option::None
    }
}

/// Clones an optional string.
fn dup_opt_string(o: &Option<String>) -> (r: Option<String>)
    ensures
        r == *o,
{
    match o {
        Option::Some(s) => Option::Some(s.clone()),
        Option::None => Option::None,
    }
}

impl FeedDocument {
    /// The date to report for this feed, under the two-level fallback rule:
    /// the channel-level date if one is declared, otherwise the first
    /// episode's date if any episode exists, otherwise none.
    pub fn resolved_pub_date(&self) -> (r: Option<String>)
        ensures
            opt_str_view(r) == resolved_pub_date_of(self@),
    {
        if self.pub_date.is_some() {
            dup_opt_string(&self.pub_date)
        } else if self.episodes.len() > 0 {
            dup_opt_string(&self.episodes[0].pub_date)
        } else {
            Option::None
        }
    }
}

} // verus!
