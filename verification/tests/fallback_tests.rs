use podfetch::feed::{Episode, FeedDocument};

fn episode(pub_date: Option<&str>) -> Episode {
    Episode {
        title: Some(String::from("an episode")),
        guid: Some(String::from("guid")),
        description: None,
        pub_date: pub_date.map(String::from),
        enclosure: None,
    }
}

fn doc(channel_date: Option<&str>, episodes: Vec<Episode>) -> FeedDocument {
    FeedDocument {
        title: String::from("a feed"),
        description: None,
        image_url: None,
        pub_date: channel_date.map(String::from),
        episodes,
    }
}

#[test]
fn channel_date_wins_over_item_dates() {
    let d = doc(
        Some("Wed, 01 Jan 2020 00:00:00 GMT"),
        vec![episode(Some("Thu, 02 Jan 2020 00:00:00 GMT"))],
    );
    assert_eq!(d.resolved_pub_date().as_deref(), Some("Wed, 01 Jan 2020 00:00:00 GMT"));
}

#[test]
fn first_episode_date_used_when_channel_date_absent() {
    let d = doc(
        None,
        vec![
            episode(Some("Thu, 02 Jan 2020 00:00:00 GMT")),
            episode(Some("Fri, 03 Jan 2020 00:00:00 GMT")),
        ],
    );
    assert_eq!(d.resolved_pub_date().as_deref(), Some("Thu, 02 Jan 2020 00:00:00 GMT"));
}

#[test]
fn first_episode_without_date_is_not_skipped() {
    // The fallback is strictly two-level: it never searches past the first
    // episode, even when a later one carries a date.
    let d = doc(
        None,
        vec![episode(None), episode(Some("Fri, 03 Jan 2020 00:00:00 GMT"))],
    );
    assert_eq!(d.resolved_pub_date(), None);
}

#[test]
fn no_dates_anywhere_yields_none() {
    let d = doc(None, vec![]);
    assert_eq!(d.resolved_pub_date(), None);
}
