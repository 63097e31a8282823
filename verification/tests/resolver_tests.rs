use helipad::resolver::{parse_directory_reply, RemoteCache};

fn good_reply() -> String {
    r#"{"status":"true","query":{"podcastguid":"pg-1","episodeguid":"eg-1"},"value":{"feedTitle":"My Pod","title":"Episode One"}}"#
        .to_string()
}

#[test]
fn directory_reply_parses_when_status_true() {
    let guid = parse_directory_reply(&good_reply()).unwrap();
    assert_eq!(guid.podcast_guid, "pg-1");
    assert_eq!(guid.episode_guid, "eg-1");
    assert_eq!(guid.podcast, "My Pod");
    assert_eq!(guid.episode, "Episode One");
}

#[test]
fn directory_reply_rejects_false_status() {
    let body = r#"{"status":"false","query":{},"value":{}}"#;
    assert!(parse_directory_reply(body).is_none());
}

#[test]
fn directory_reply_rejects_missing_objects() {
    assert!(parse_directory_reply(r#"{"status":"true","value":{}}"#).is_none());
    assert!(parse_directory_reply(r#"{"status":"true","query":{}}"#).is_none());
    assert!(parse_directory_reply("garbage").is_none());
}

#[test]
fn directory_reply_rejects_missing_members() {
    // Every one of the four guid/title members must be present as a string.
    let body = r#"{"status":"true","query":{},"value":{}}"#;
    assert!(parse_directory_reply(body).is_none());
    let body = r#"{"status":"true","query":{"podcastguid":"pg-1","episodeguid":"eg-1"},"value":{"feedTitle":"My Pod"}}"#;
    assert!(parse_directory_reply(body).is_none());
    let body = r#"{"status":"true","query":{"episodeguid":"eg-1"},"value":{"feedTitle":"My Pod","title":"Episode One"}}"#;
    assert!(parse_directory_reply(body).is_none());
}

#[test]
fn directory_reply_rejects_non_string_members() {
    let body = r#"{"status":"true","query":{"podcastguid":7,"episodeguid":"eg-1"},"value":{"feedTitle":"My Pod","title":"Episode One"}}"#;
    assert!(parse_directory_reply(body).is_none());
    let body = r#"{"status":"true","query":{"podcastguid":"pg-1","episodeguid":"eg-1"},"value":{"feedTitle":"My Pod","title":null}}"#;
    assert!(parse_directory_reply(body).is_none());
}

#[test]
fn second_resolve_needs_no_fetch() {
    let mut cache = RemoteCache::new(8);
    let pg = "pg-1".to_string();
    let eg = "eg-1".to_string();

    // First resolution: a miss, so the caller fetches once.
    let mut fetches = 0;
    let first = match cache.resolve_cached(&pg, &eg) {
        Some(hit) => hit,
        None => {
            fetches += 1;
            cache.record_resolution(&pg, &eg, Some(good_reply()))
        }
    };
    assert_eq!(fetches, 1);
    assert_eq!(first.as_ref().unwrap().podcast, "My Pod");

    // Second resolution of the same pair: a hit, no further fetch.
    let second = match cache.resolve_cached(&pg, &eg) {
        Some(hit) => hit,
        None => {
            fetches += 1;
            cache.record_resolution(&pg, &eg, Some(good_reply()))
        }
    };
    assert_eq!(fetches, 1);
    assert_eq!(second.unwrap().episode, "Episode One");
}

#[test]
fn failed_fetch_is_cached_as_none() {
    let mut cache = RemoteCache::new(8);
    let pg = "pg-2".to_string();
    let eg = "eg-2".to_string();

    assert!(cache.resolve_cached(&pg, &eg).is_none());
    let outcome = cache.record_resolution(&pg, &eg, None);
    assert!(outcome.is_none());

    // The failure is remembered: the next attempt hits and fetches nothing.
    match cache.resolve_cached(&pg, &eg) {
        Some(hit) => assert!(hit.is_none()),
        None => panic!("the remembered failure should hit"),
    }
}

#[test]
fn false_status_is_cached_as_none() {
    let mut cache = RemoteCache::new(8);
    let pg = "pg-3".to_string();
    let eg = "eg-3".to_string();

    assert!(cache.resolve_cached(&pg, &eg).is_none());
    let body = r#"{"status":"false"}"#.to_string();
    assert!(cache.record_resolution(&pg, &eg, Some(body)).is_none());
    match cache.resolve_cached(&pg, &eg) {
        Some(hit) => assert!(hit.is_none()),
        None => panic!("the remembered miss should hit"),
    }
}

#[test]
fn different_pairs_are_cached_apart() {
    let mut cache = RemoteCache::new(8);
    let pg = "pg-4".to_string();
    let eg = "eg-4".to_string();
    cache.record_resolution(&pg, &eg, Some(good_reply()));
    assert!(cache.resolve_cached(&"other".to_string(), &eg).is_none());
    assert!(cache.resolve_cached(&pg, &eg).is_some());
}
