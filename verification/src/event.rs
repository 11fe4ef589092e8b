//! The listening-event record: one playback of a track or podcast episode.
use vstd::prelude::*;

verus! {

/// One playback record. `ts` is the moment playback started, as milliseconds
/// since the Unix epoch (UTC); `ms_played` is how long it played. Track and
/// episode fields are nullable: a podcast episode has no artist name.
#[derive(Debug, Clone, PartialEq)]
pub struct SpotifyHistoryEntry {
    pub ts: i64,
    pub username: Option<String>,
    pub platform: Option<String>,
    pub ms_played: u64,
    pub conn_country: Option<String>,
    pub ip_addr_decrypted: Option<String>,
    pub user_agent_decrypted: Option<String>,
    pub master_metadata_track_name: Option<String>,
    pub master_metadata_album_artist_name: Option<String>,
    pub master_metadata_album_album_name: Option<String>,
    pub spotify_track_uri: Option<String>,
    pub episode_name: Option<String>,
    pub episode_show_name: Option<String>,
    pub spotify_episode_uri: Option<String>,
    pub reason_start: Option<String>,
    pub reason_end: Option<String>,
    pub shuffle: Option<bool>,
    pub skipped: Option<bool>,
    pub offline: Option<bool>,
    pub offline_timestamp: Option<u64>,
    pub incognito_mode: Option<bool>,
}

fn clone_opt_string(s: &Option<String>) -> (r: Option<String>)
    ensures
        r == *s,
{
    match s {
        Some(t) => Some(t.clone()),
        None => None,
    }
}

impl SpotifyHistoryEntry {
    /// An equal copy, field by field.
    pub fn duplicate(&self) -> (r: Self)
        ensures
            r == *self,
    {
        SpotifyHistoryEntry {
            ts: self.ts,
            username: clone_opt_string(&self.username),
            platform: clone_opt_string(&self.platform),
            ms_played: self.ms_played,
            conn_country: clone_opt_string(&self.conn_country),
            ip_addr_decrypted: clone_opt_string(&self.ip_addr_decrypted),
            user_agent_decrypted: clone_opt_string(&self.user_agent_decrypted),
            master_metadata_track_name: clone_opt_string(&self.master_metadata_track_name),
            master_metadata_album_artist_name: clone_opt_string(
                &self.master_metadata_album_artist_name,
            ),
            master_metadata_album_album_name: clone_opt_string(
                &self.master_metadata_album_album_name,
            ),
            spotify_track_uri: clone_opt_string(&self.spotify_track_uri),
            episode_name: clone_opt_string(&self.episode_name),
            episode_show_name: clone_opt_string(&self.episode_show_name),
            spotify_episode_uri: clone_opt_string(&self.spotify_episode_uri),
            reason_start: clone_opt_string(&self.reason_start),
            reason_end: clone_opt_string(&self.reason_end),
            shuffle: self.shuffle,
            skipped: self.skipped,
            offline: self.offline,
            offline_timestamp: self.offline_timestamp,
            incognito_mode: self.incognito_mode,
        }
    }
}

/// The artist name an event is grouped under, if it has one.
pub open spec fn artist_of(e: SpotifyHistoryEntry) -> Option<Seq<char>> {
    match e.master_metadata_album_artist_name {
        Some(s) => Some(s@),
        None => None,
    }
}

} // verus!
