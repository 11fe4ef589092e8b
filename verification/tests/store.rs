use spotify_analytics::analytics::SpotifyAnalytics;
use spotify_analytics::event::SpotifyHistoryEntry;
use spotify_analytics::store::Store;

fn entry(ts: i64, artist: Option<&str>, ms_played: u64) -> SpotifyHistoryEntry {
    SpotifyHistoryEntry {
        ts,
        username: None,
        platform: None,
        ms_played,
        conn_country: None,
        ip_addr_decrypted: None,
        user_agent_decrypted: None,
        master_metadata_track_name: None,
        master_metadata_album_artist_name: artist.map(|a| a.to_owned()),
        master_metadata_album_album_name: None,
        spotify_track_uri: None,
        episode_name: None,
        episode_show_name: None,
        spotify_episode_uri: None,
        reason_start: None,
        reason_end: None,
        shuffle: None,
        skipped: None,
        offline: None,
        offline_timestamp: None,
        incognito_mode: None,
    }
}

fn full_entry(ts: i64) -> SpotifyHistoryEntry {
    SpotifyHistoryEntry {
        ts,
        username: Some("listener".to_owned()),
        platform: Some("ios".to_owned()),
        ms_played: 123_456,
        conn_country: Some("SE".to_owned()),
        ip_addr_decrypted: Some("127.0.0.1".to_owned()),
        user_agent_decrypted: Some("unknown".to_owned()),
        master_metadata_track_name: Some("Track".to_owned()),
        master_metadata_album_artist_name: Some("Artist".to_owned()),
        master_metadata_album_album_name: Some("Album".to_owned()),
        spotify_track_uri: Some("spotify:track:xyz".to_owned()),
        episode_name: None,
        episode_show_name: None,
        spotify_episode_uri: None,
        reason_start: Some("trackdone".to_owned()),
        reason_end: Some("endplay".to_owned()),
        shuffle: Some(true),
        skipped: Some(false),
        offline: Some(false),
        offline_timestamp: Some(1_700_000_000_000),
        incognito_mode: Some(false),
    }
}

#[test]
fn open_store_and_load_nothing() {
    let store = Store::open(":memory:").unwrap();
    assert_eq!(store.load_all().unwrap(), vec![]);
}

#[test]
fn insert_then_load_roundtrips() {
    let mut store = Store::open(":memory:").unwrap();
    let e = full_entry(42);
    store.insert(&e).unwrap();
    assert_eq!(store.load_all().unwrap(), vec![e]);
}

#[test]
fn save_after_nonempty_load_writes_nothing() {
    let mut store = Store::open(":memory:").unwrap();
    store.insert(&entry(100, Some("A"), 10)).unwrap();
    store.insert(&entry(200, Some("B"), 20)).unwrap();

    let mut a = SpotifyAnalytics::new(&store).unwrap();
    // Unmodified working set: nothing can pass the range filter.
    a.save(&mut store).unwrap();
    assert_eq!(store.load_all().unwrap().len(), 2);

    // Even freshly merged events are filtered out after a non-empty load.
    a.merge(vec![entry(300, Some("C"), 30), entry(50, Some("D"), 5)]);
    a.save(&mut store).unwrap();
    assert_eq!(store.load_all().unwrap().len(), 2);
}

#[test]
fn save_after_empty_load_writes_every_merged_event_once() {
    let mut store = Store::open(":memory:").unwrap();
    let mut a = SpotifyAnalytics::new(&store).unwrap();

    let merged = vec![full_entry(1), entry(2, Some("B"), 7), entry(3, None, 9)];
    a.merge(merged.clone());
    a.save(&mut store).unwrap();

    let loaded = store.load_all().unwrap();
    assert_eq!(loaded, merged);

    // A second save duplicates them: the range scalars are load-time
    // snapshots, so the filter still lets every event through.
    a.save(&mut store).unwrap();
    assert_eq!(store.load_all().unwrap().len(), 6);
}

#[test]
fn boundary_timestamps_are_not_saved() {
    // The filter compares strictly, so even after an empty load the two
    // representable extremes themselves never pass it.
    let mut store = Store::open(":memory:").unwrap();
    let mut a = SpotifyAnalytics::new(&store).unwrap();
    a.merge(vec![
        entry(i64::MIN, Some("A"), 1),
        entry(7, Some("B"), 2),
        entry(i64::MAX, Some("C"), 3),
    ]);
    a.save(&mut store).unwrap();
    assert_eq!(store.load_all().unwrap(), vec![entry(7, Some("B"), 2)]);
}

#[test]
fn save_reports_the_unstorable_record() {
    let mut store = Store::open(":memory:").unwrap();
    let mut a = SpotifyAnalytics::new(&store).unwrap();

    let good = entry(1, Some("A"), 10);
    let bad = entry(2, Some("B"), u64::MAX);
    a.merge(vec![good.clone(), bad.clone()]);

    let err = a.save(&mut store).unwrap_err();
    assert_eq!(err.record, Some(bad));
    // The write before the failure stays committed.
    assert_eq!(store.load_all().unwrap(), vec![good]);
}

#[test]
fn new_after_save_sees_the_saved_events() {
    let mut store = Store::open(":memory:").unwrap();
    let mut a = SpotifyAnalytics::new(&store).unwrap();
    a.merge(vec![entry(5, Some("A"), 11), entry(9, Some("A"), 4)]);
    a.save(&mut store).unwrap();

    let reloaded = SpotifyAnalytics::new(&store).unwrap();
    assert_eq!(reloaded.get_all_top_artists(), vec![("A".to_owned(), 15)]);
}
