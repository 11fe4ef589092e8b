use spotify_analytics::analytics::SpotifyAnalytics;
use spotify_analytics::event::SpotifyHistoryEntry;
use spotify_analytics::import::wants_import;

fn entry(ts: i64, artist: Option<&str>, ms_played: u64) -> SpotifyHistoryEntry {
    SpotifyHistoryEntry {
        ts,
        username: None,
        platform: None,
        ms_played,
        conn_country: None,
        ip_addr_decrypted: None,
        user_agent_decrypted: None,
        master_metadata_track_name: None,
        master_metadata_album_artist_name: artist.map(|a| a.to_owned()),
        master_metadata_album_album_name: None,
        spotify_track_uri: None,
        episode_name: None,
        episode_show_name: None,
        spotify_episode_uri: None,
        reason_start: None,
        reason_end: None,
        shuffle: None,
        skipped: None,
        offline: None,
        offline_timestamp: None,
        incognito_mode: None,
    }
}

#[test]
fn top_artists_sums_and_sorts() {
    let a = SpotifyAnalytics::from_loaded_events(vec![
        entry(1, Some("A"), 1000),
        entry(2, Some("B"), 2000),
        entry(3, Some("A"), 500),
    ]);
    let top = a.get_all_top_artists();
    assert_eq!(top, vec![("B".to_owned(), 2000), ("A".to_owned(), 1500)]);
}

#[test]
fn artistless_events_are_excluded() {
    let mut podcast = entry(1, None, 999_999);
    podcast.episode_name = Some("Some Episode".to_owned());
    let a = SpotifyAnalytics::from_loaded_events(vec![podcast, entry(2, Some("A"), 10)]);
    let top = a.get_all_top_artists();
    assert_eq!(top, vec![("A".to_owned(), 10)]);
}

#[test]
fn top_n_zero_returns_empty() {
    let a = SpotifyAnalytics::from_loaded_events(vec![
        entry(1, Some("A"), 10),
        entry(2, Some("B"), 20),
    ]);
    assert_eq!(a.top_n_artists(0), vec![]);
}

#[test]
fn top_n_larger_than_distinct_returns_all() {
    let a = SpotifyAnalytics::from_loaded_events(vec![
        entry(1, Some("A"), 10),
        entry(2, Some("B"), 20),
        entry(3, Some("C"), 15),
    ]);
    let full = a.get_all_top_artists();
    assert_eq!(a.top_n_artists(3), full);
    assert_eq!(a.top_n_artists(100), full);
    assert_eq!(
        full,
        vec![("B".to_owned(), 20), ("C".to_owned(), 15), ("A".to_owned(), 10)]
    );
}

#[test]
fn top_n_truncates_to_largest() {
    let a = SpotifyAnalytics::from_loaded_events(vec![
        entry(1, Some("A"), 10),
        entry(2, Some("B"), 20),
        entry(3, Some("C"), 15),
    ]);
    assert_eq!(a.top_n_artists(2), vec![("B".to_owned(), 20), ("C".to_owned(), 15)]);
    assert_eq!(a.get_top_10_artists(), a.get_all_top_artists());
}

#[test]
fn totals_saturate_at_u64_max() {
    let a = SpotifyAnalytics::from_loaded_events(vec![
        entry(1, Some("A"), u64::MAX),
        entry(2, Some("A"), 5),
        entry(3, Some("B"), 7),
    ]);
    let top = a.get_all_top_artists();
    assert_eq!(top, vec![("A".to_owned(), u64::MAX), ("B".to_owned(), 7)]);
}

#[test]
fn merge_extends_ranking() {
    let mut a = SpotifyAnalytics::from_loaded_events(vec![entry(1, Some("A"), 10)]);
    a.merge(vec![entry(2, Some("B"), 30), entry(3, Some("A"), 5)]);
    let top = a.get_all_top_artists();
    assert_eq!(top, vec![("B".to_owned(), 30), ("A".to_owned(), 15)]);
}

#[test]
fn empty_working_set_ranks_nothing() {
    let a = SpotifyAnalytics::from_loaded_events(vec![]);
    assert_eq!(a.get_all_top_artists(), vec![]);
    assert_eq!(a.get_top_10_artists(), vec![]);
}

#[test]
fn import_policy_takes_only_json_files() {
    assert!(wants_import(true, Some(&"json".to_owned())));
    assert!(!wants_import(true, Some(&"txt".to_owned())));
    assert!(!wants_import(true, Some(&"JSON ".to_owned())));
    assert!(!wants_import(true, None));
    assert!(!wants_import(false, Some(&"json".to_owned())));
    assert!(!wants_import(false, None));
}
