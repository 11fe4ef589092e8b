//! Durable storage of listening events: one SQLite database file holding a
//! single versioned table, reached through a small set of trusted wrappers
//! around `rusqlite` and `rusqlite_migration`.
//!
//! A `Store`'s view is the sequence of rows successfully inserted through the
//! handle during this run; what was already in the file is unknown to the
//! specification and surfaces only through `load_all`. Row content crosses
//! the trusted boundary as `SqlValue`, the library's model of a SQL dynamic
//! value in plain values, so that encoding an event into named parameters and
//! decoding a row back are verified exactly; the one step no contract can
//! state is the engine returning the values it was handed.
use vstd::prelude::*;

use crate::event::SpotifyHistoryEntry;

verus! {

/// A storage failure: opening or migrating the database, reading a row back,
/// or writing one. `record` carries the offending event on a write failure.
#[derive(Debug)]
pub struct StorageError {
    pub message: String,
    pub record: Option<SpotifyHistoryEntry>,
}

/// One SQL dynamic value, as the library models it in plain values. The
/// schema only ever yields NULL, INTEGER and TEXT; `Other` stands for the
/// remaining dynamic types (REAL, BLOB), which the encoder never produces and
/// the decoders reject.
pub enum SqlValue {
    Null,
    Integer(i64),
    Text(String),
    Other,
}

/// `rusqlite::Connection`: a handle to one open SQLite database.
#[verifier::external_type_specification]
#[verifier::external_body]
pub struct ExConnection(rusqlite::Connection);

/// `rusqlite::types::Value`: one dynamically typed SQLite value.
#[verifier::external_type_specification]
#[verifier::external_body]
pub struct ExValue(rusqlite::types::Value);

/// Relies on `rusqlite::Connection::open`: opens the database file at `path`,
/// creating it if absent.
#[verifier::external_body]
fn open_connection(path: &str) -> (r: Result<rusqlite::Connection, String>) {
    rusqlite::Connection::open(path).map_err(|e| format!("{}", e))
}

/// Relies on `rusqlite::Connection::pragma_update`: sets one database pragma
/// to the given value.
#[verifier::external_body]
fn set_pragma(conn: &rusqlite::Connection, name: &str, value: &str) -> (r: Result<(), String>) {
    conn.pragma_update(None, name, value).map_err(|e| format!("{}", e))
}

/// Relies on `rusqlite_migration`: `M::up`/`M::down` describe one schema
/// migration and `Migrations::to_latest` applies the pending ones in order,
/// recording the applied version in the database so that re-runs change nothing.
#[verifier::external_body]
fn apply_single_migration(
    conn: &mut rusqlite::Connection,
    up_sql: &str,
    down_sql: &str,
) -> (r: Result<(), String>) {
    let migrations = rusqlite_migration::Migrations::new(
        vec![rusqlite_migration::M::up(up_sql).down(down_sql)],
    );
    migrations.to_latest(conn).map_err(|e| format!("{}", e))
}

/// Relies on `rusqlite::Connection::prepare_cached` and
/// `rusqlite::Statement::execute`: runs `sql` once with each parameter bound
/// by its name, after rewriting each `SqlValue` into the engine's value, one
/// for one (`Other`, which the verified encoder never hands over, binds NULL).
#[verifier::external_body]
fn execute_named(
    conn: &rusqlite::Connection,
    sql: &str,
    params: &Vec<(String, SqlValue)>,
) -> (r: Result<(), String>) {
    let bound: Vec<(&str, rusqlite::types::Value)> = params.iter().map(|p| (p.0.as_str(),
        match &p.1 {
            SqlValue::Null | SqlValue::Other => rusqlite::types::Value::Null,
            SqlValue::Integer(n) => rusqlite::types::Value::Integer(*n),
            SqlValue::Text(s) => rusqlite::types::Value::Text(s.clone()),
        })).collect();
    match conn.prepare_cached(sql).and_then(|mut stmt| stmt.execute(bound.as_slice())) {
        Ok(_) => Ok(()),
        Err(e) => Err(format!("{}", e)),
    }
}

/// Relies on `rusqlite::Connection::prepare`, `Statement::query`,
/// `Rows::next` and `Row::get`: runs `sql` and hands back every resulting
/// row, one `Value` per column, in the order the engine yields them.
#[verifier::external_body]
fn query_all_rows(
    conn: &rusqlite::Connection,
    sql: &str,
) -> (r: Result<Vec<Vec<rusqlite::types::Value>>, String>) {
    let go = || -> rusqlite::Result<Vec<Vec<rusqlite::types::Value>>> {
        let mut stmt = conn.prepare(sql)?;
        let ncols = stmt.column_count();
        let mut rows = stmt.query([])?;
        let mut out = Vec::new();
        while let Some(row) = rows.next()? {
            out.push((0..ncols).map(|i| row.get(i)).collect::<rusqlite::Result<Vec<_>>>()?);
        }
        Ok(out)
    };
    go().map_err(|e| format!("{}", e))
}

/// Relies on `rusqlite::types::Value`: rewrites one row of engine values into
/// the library's model, one arm per variant, moving fields only; REAL and
/// BLOB, which no column of the schema yields, become `SqlValue::Other`.
#[verifier::external_body]
fn row_values(row: &Vec<rusqlite::types::Value>) -> (r: Vec<SqlValue>) {
    row.iter().map(|v| match v {
        rusqlite::types::Value::Null => SqlValue::Null,
        rusqlite::types::Value::Integer(n) => SqlValue::Integer(*n),
        rusqlite::types::Value::Text(s) => SqlValue::Text(s.clone()),
        _ => SqlValue::Other,
    }).collect()
}

/// An event can be stored as a row: SQLite integers are signed 64-bit, so the
/// unsigned counters must fit below `i64::MAX`.
pub open spec fn storable(e: SpotifyHistoryEntry) -> bool {
    &&& e.ms_played <= i64::MAX
    &&& (e.offline_timestamp matches Some(t) ==> t <= i64::MAX)
}

/// How a nullable text field is bound.
pub open spec fn opt_text_sql(s: Option<String>) -> SqlValue {
    match s {
        Some(t) => SqlValue::Text(t),
        None => SqlValue::Null,
    }
}

/// How a nullable boolean field is bound: 1 for true, 0 for false.
pub open spec fn opt_bool_sql(b: Option<bool>) -> SqlValue {
    match b {
        Some(x) => SqlValue::Integer(
            if x {
                1
            } else {
                0
            },
        ),
        None => SqlValue::Null,
    }
}

/// How a nullable unsigned counter is bound (exact only below `i64::MAX`).
pub open spec fn opt_u64_sql(t: Option<u64>) -> SqlValue {
    match t {
        Some(u) => SqlValue::Integer(u as i64),
        None => SqlValue::Null,
    }
}

/// `p` is exactly the named-parameter list for `e`: all 21 columns of the
/// schema, each bound by its own name, in the declared column order.
pub open spec fn params_match(p: Seq<(String, SqlValue)>, e: SpotifyHistoryEntry) -> bool {
    &&& p.len() == 21
    &&& p[0].0@ == ":ts"@ && p[0].1 == SqlValue::Integer(e.ts)
    &&& p[1].0@ == ":username"@ && p[1].1 == opt_text_sql(e.username)
    &&& p[2].0@ == ":platform"@ && p[2].1 == opt_text_sql(e.platform)
    &&& p[3].0@ == ":ms_played"@ && p[3].1 == SqlValue::Integer(e.ms_played as i64)
    &&& p[4].0@ == ":conn_country"@ && p[4].1 == opt_text_sql(e.conn_country)
    &&& p[5].0@ == ":ip_addr_decrypted"@ && p[5].1 == opt_text_sql(e.ip_addr_decrypted)
    &&& p[6].0@ == ":user_agent_decrypted"@ && p[6].1 == opt_text_sql(e.user_agent_decrypted)
    &&& p[7].0@ == ":master_metadata_track_name"@ && p[7].1 == opt_text_sql(
        e.master_metadata_track_name,
    )
    &&& p[8].0@ == ":master_metadata_album_artist_name"@ && p[8].1 == opt_text_sql(
        e.master_metadata_album_artist_name,
    )
    &&& p[9].0@ == ":master_metadata_album_album_name"@ && p[9].1 == opt_text_sql(
        e.master_metadata_album_album_name,
    )
    &&& p[10].0@ == ":spotify_track_uri"@ && p[10].1 == opt_text_sql(e.spotify_track_uri)
    &&& p[11].0@ == ":episode_name"@ && p[11].1 == opt_text_sql(e.episode_name)
    &&& p[12].0@ == ":episode_show_name"@ && p[12].1 == opt_text_sql(e.episode_show_name)
    &&& p[13].0@ == ":spotify_episode_uri"@ && p[13].1 == opt_text_sql(e.spotify_episode_uri)
    &&& p[14].0@ == ":reason_start"@ && p[14].1 == opt_text_sql(e.reason_start)
    &&& p[15].0@ == ":reason_end"@ && p[15].1 == opt_text_sql(e.reason_end)
    &&& p[16].0@ == ":shuffle"@ && p[16].1 == opt_bool_sql(e.shuffle)
    &&& p[17].0@ == ":skipped"@ && p[17].1 == opt_bool_sql(e.skipped)
    &&& p[18].0@ == ":offline"@ && p[18].1 == opt_bool_sql(e.offline)
    &&& p[19].0@ == ":offline_timestamp"@ && p[19].1 == opt_u64_sql(e.offline_timestamp)
    &&& p[20].0@ == ":incognito_mode"@ && p[20].1 == opt_bool_sql(e.incognito_mode)
}

/// What a required integer column decodes to.
pub open spec fn dec_i64(v: SqlValue) -> Option<i64> {
    match v {
        SqlValue::Integer(i) => Some(i),
        _ => None,
    }
}

/// What a nullable text column decodes to.
pub open spec fn dec_opt_text(v: SqlValue) -> Option<Option<String>> {
    match v {
        SqlValue::Null => Some(None),
        SqlValue::Text(s) => Some(Some(s)),
        _ => None,
    }
}

/// What a nullable boolean column decodes to: any stored nonzero is true.
pub open spec fn dec_opt_bool(v: SqlValue) -> Option<Option<bool>> {
    match v {
        SqlValue::Null => Some(None),
        SqlValue::Integer(i) => Some(Some(i != 0)),
        _ => None,
    }
}

/// What a required unsigned column decodes to: a non-negative integer.
pub open spec fn dec_unsigned(v: SqlValue) -> Option<u64> {
    match v {
        SqlValue::Integer(i) => if i >= 0 {
            Some(i as u64)
        } else {
            None
        },
        _ => None,
    }
}

/// What a nullable unsigned column decodes to.
pub open spec fn dec_opt_unsigned(v: SqlValue) -> Option<Option<u64>> {
    match v {
        SqlValue::Null => Some(None),
        _ => match dec_unsigned(v) {
            Some(u) => Some(Some(u)),
            None => None,
        },
    }
}

/// The row has the 21 declared columns and each decodes under its column's type.
pub open spec fn row_well_formed(row: Seq<SqlValue>) -> bool {
    &&& row.len() == 21
    &&& dec_i64(row[0]) is Some
    &&& dec_opt_text(row[1]) is Some
    &&& dec_opt_text(row[2]) is Some
    &&& dec_unsigned(row[3]) is Some
    &&& dec_opt_text(row[4]) is Some
    &&& dec_opt_text(row[5]) is Some
    &&& dec_opt_text(row[6]) is Some
    &&& dec_opt_text(row[7]) is Some
    &&& dec_opt_text(row[8]) is Some
    &&& dec_opt_text(row[9]) is Some
    &&& dec_opt_text(row[10]) is Some
    &&& dec_opt_text(row[11]) is Some
    &&& dec_opt_text(row[12]) is Some
    &&& dec_opt_text(row[13]) is Some
    &&& dec_opt_text(row[14]) is Some
    &&& dec_opt_text(row[15]) is Some
    &&& dec_opt_bool(row[16]) is Some
    &&& dec_opt_bool(row[17]) is Some
    &&& dec_opt_bool(row[18]) is Some
    &&& dec_opt_unsigned(row[19]) is Some
    &&& dec_opt_bool(row[20]) is Some
}

/// `ev` is exactly what `row` decodes to, column by column.
pub open spec fn ev_matches_row(ev: SpotifyHistoryEntry, row: Seq<SqlValue>) -> bool {
    &&& dec_i64(row[0]) == Some(ev.ts)
    &&& dec_opt_text(row[1]) == Some(ev.username)
    &&& dec_opt_text(row[2]) == Some(ev.platform)
    &&& dec_unsigned(row[3]) == Some(ev.ms_played)
    &&& dec_opt_text(row[4]) == Some(ev.conn_country)
    &&& dec_opt_text(row[5]) == Some(ev.ip_addr_decrypted)
    &&& dec_opt_text(row[6]) == Some(ev.user_agent_decrypted)
    &&& dec_opt_text(row[7]) == Some(ev.master_metadata_track_name)
    &&& dec_opt_text(row[8]) == Some(ev.master_metadata_album_artist_name)
    &&& dec_opt_text(row[9]) == Some(ev.master_metadata_album_album_name)
    &&& dec_opt_text(row[10]) == Some(ev.spotify_track_uri)
    &&& dec_opt_text(row[11]) == Some(ev.episode_name)
    &&& dec_opt_text(row[12]) == Some(ev.episode_show_name)
    &&& dec_opt_text(row[13]) == Some(ev.spotify_episode_uri)
    &&& dec_opt_text(row[14]) == Some(ev.reason_start)
    &&& dec_opt_text(row[15]) == Some(ev.reason_end)
    &&& dec_opt_bool(row[16]) == Some(ev.shuffle)
    &&& dec_opt_bool(row[17]) == Some(ev.skipped)
    &&& dec_opt_bool(row[18]) == Some(ev.offline)
    &&& dec_opt_unsigned(row[19]) == Some(ev.offline_timestamp)
    &&& dec_opt_bool(row[20]) == Some(ev.incognito_mode)
}

/// Law: the row bound for a storable event decodes back to exactly that
/// event, field for field — what `insert` binds, the load-side decoder
/// returns unchanged. The one link no contract can state is the engine
/// returning the values it stored.
pub proof fn lemma_row_roundtrip(
    e: SpotifyHistoryEntry,
    p: Seq<(String, SqlValue)>,
    row: Seq<SqlValue>,
)
    requires
        storable(e),
        params_match(p, e),
        row.len() == p.len(),
        forall|k: int| 0 <= k < p.len() ==> row[k] == (#[trigger] p[k]).1,
    ensures
        row_well_formed(row),
        ev_matches_row(e, row),
{
}

fn storage_error(msg: &str) -> (r: StorageError)
    ensures
        r.record is None,
{
    StorageError { message: msg.to_owned(), record: None }
}

fn text_sql(s: &Option<String>) -> (r: SqlValue)
    ensures
        r == opt_text_sql(*s),
{
    match s {
        Some(t) => SqlValue::Text(t.clone()),
        None => SqlValue::Null,
    }
}

fn bool_sql(b: Option<bool>) -> (r: SqlValue)
    ensures
        r == opt_bool_sql(b),
{
    match b {
        Some(true) => SqlValue::Integer(1),
        Some(false) => SqlValue::Integer(0),
        None => SqlValue::Null,
    }
}

/// The 21 named parameters of one row, in the declared column order, or the
/// reason the event cannot be stored.
fn entry_params(e: &SpotifyHistoryEntry) -> (r: Result<Vec<(String, SqlValue)>, StorageError>)
    ensures
        r is Ok <==> storable(*e),
        r matches Ok(p) ==> params_match(p@, *e),
{
    if e.ms_played > i64::MAX as u64 {
        return Err(storage_error("ms_played does not fit in a signed 64-bit column"));
    }
    let offline_ts = match e.offline_timestamp {
        Some(t) => {
            if t > i64::MAX as u64 {
                return Err(
                    storage_error("offline_timestamp does not fit in a signed 64-bit column"),
                );
            }
            SqlValue::Integer(t as i64)
        },
        None => SqlValue::Null,
    };
    let mut p: Vec<(String, SqlValue)> = Vec::new();
    p.push((":ts".to_owned(), SqlValue::Integer(e.ts)));
    p.push((":username".to_owned(), text_sql(&e.username)));
    p.push((":platform".to_owned(), text_sql(&e.platform)));
    p.push((":ms_played".to_owned(), SqlValue::Integer(e.ms_played as i64)));
    p.push((":conn_country".to_owned(), text_sql(&e.conn_country)));
    p.push((":ip_addr_decrypted".to_owned(), text_sql(&e.ip_addr_decrypted)));
    p.push((":user_agent_decrypted".to_owned(), text_sql(&e.user_agent_decrypted)));
    p.push((":master_metadata_track_name".to_owned(), text_sql(&e.master_metadata_track_name)));
    p.push(
        (
            ":master_metadata_album_artist_name".to_owned(),
            text_sql(&e.master_metadata_album_artist_name),
        ),
    );
    p.push(
        (
            ":master_metadata_album_album_name".to_owned(),
            text_sql(&e.master_metadata_album_album_name),
        ),
    );
    p.push((":spotify_track_uri".to_owned(), text_sql(&e.spotify_track_uri)));
    p.push((":episode_name".to_owned(), text_sql(&e.episode_name)));
    p.push((":episode_show_name".to_owned(), text_sql(&e.episode_show_name)));
    p.push((":spotify_episode_uri".to_owned(), text_sql(&e.spotify_episode_uri)));
    p.push((":reason_start".to_owned(), text_sql(&e.reason_start)));
    p.push((":reason_end".to_owned(), text_sql(&e.reason_end)));
    p.push((":shuffle".to_owned(), bool_sql(e.shuffle)));
    p.push((":skipped".to_owned(), bool_sql(e.skipped)));
    p.push((":offline".to_owned(), bool_sql(e.offline)));
    p.push((":offline_timestamp".to_owned(), offline_ts));
    p.push((":incognito_mode".to_owned(), bool_sql(e.incognito_mode)));
    Ok(p)
}

fn decode_i64(v: &SqlValue) -> (r: Result<i64, StorageError>)
    ensures
        r matches Ok(i) ==> dec_i64(*v) == Some(i),
        r is Err <==> dec_i64(*v) is None,
{
    match v {
        SqlValue::Integer(i) => Ok(*i),
        _ => Err(storage_error("a required integer column holds a non-integer value")),
    }
}

fn decode_opt_text(v: &SqlValue) -> (r: Result<Option<String>, StorageError>)
    ensures
        r matches Ok(x) ==> dec_opt_text(*v) == Some(x),
        r is Err <==> dec_opt_text(*v) is None,
{
    match v {
        SqlValue::Null => Ok(None),
        SqlValue::Text(s) => Ok(Some(s.clone())),
        _ => Err(storage_error("a text column holds a non-text value")),
    }
}

fn decode_opt_bool(v: &SqlValue) -> (r: Result<Option<bool>, StorageError>)
    ensures
        r matches Ok(x) ==> dec_opt_bool(*v) == Some(x),
        r is Err <==> dec_opt_bool(*v) is None,
{
    match v {
        SqlValue::Null => Ok(None),
        SqlValue::Integer(i) => Ok(Some(*i != 0)),
        _ => Err(storage_error("a boolean column holds a non-integer value")),
    }
}

fn decode_unsigned(v: &SqlValue) -> (r: Result<u64, StorageError>)
    ensures
        r matches Ok(u) ==> dec_unsigned(*v) == Some(u) && u <= i64::MAX,
        r is Err <==> dec_unsigned(*v) is None,
{
    match v {
        SqlValue::Integer(i) => {
            if *i < 0 {
                Err(storage_error("an unsigned column holds a negative value"))
            } else {
                Ok(*i as u64)
            }
        },
        _ => Err(storage_error("an unsigned column holds a non-integer value")),
    }
}

fn decode_opt_unsigned(v: &SqlValue) -> (r: Result<Option<u64>, StorageError>)
    ensures
        r matches Ok(x) ==> dec_opt_unsigned(*v) == Some(x) && (x matches Some(u) ==> u
            <= i64::MAX),
        r is Err <==> dec_opt_unsigned(*v) is None,
{
    match v {
        SqlValue::Null => Ok(None),
        _ => match decode_unsigned(v) {
            Ok(u) => Ok(Some(u)),
            Err(err) => Err(err),
        },
    }
}

/// One stored row, read back as the event it decodes to; fails exactly on a
/// row that does not match the schema, and the whole load aborts with it.
fn decode_row(row: &Vec<SqlValue>) -> (r: Result<SpotifyHistoryEntry, StorageError>)
    ensures
        r is Ok <==> row_well_formed(row@),
        r matches Ok(ev) ==> ev_matches_row(ev, row@) && storable(ev),
{
    if row.len() != 21 {
        return Err(storage_error("a stored row does not have the 21 declared columns"));
    }
    Ok(
        SpotifyHistoryEntry {
            ts: decode_i64(&row[0])?,
            username: decode_opt_text(&row[1])?,
            platform: decode_opt_text(&row[2])?,
            ms_played: decode_unsigned(&row[3])?,
            conn_country: decode_opt_text(&row[4])?,
            ip_addr_decrypted: decode_opt_text(&row[5])?,
            user_agent_decrypted: decode_opt_text(&row[6])?,
            master_metadata_track_name: decode_opt_text(&row[7])?,
            master_metadata_album_artist_name: decode_opt_text(&row[8])?,
            master_metadata_album_album_name: decode_opt_text(&row[9])?,
            spotify_track_uri: decode_opt_text(&row[10])?,
            episode_name: decode_opt_text(&row[11])?,
            episode_show_name: decode_opt_text(&row[12])?,
            spotify_episode_uri: decode_opt_text(&row[13])?,
            reason_start: decode_opt_text(&row[14])?,
            reason_end: decode_opt_text(&row[15])?,
            shuffle: decode_opt_bool(&row[16])?,
            skipped: decode_opt_bool(&row[17])?,
            offline: decode_opt_bool(&row[18])?,
            offline_timestamp: decode_opt_unsigned(&row[19])?,
            incognito_mode: decode_opt_bool(&row[20])?,
        },
    )
}

/// The durable store: one open connection to the history database. Its view
/// is the sequence of events inserted through this handle during this run;
/// rows already in the file are reachable only through `load_all`.
pub struct Store {
    conn: rusqlite::Connection,
    written: Ghost<Seq<SpotifyHistoryEntry>>,
}

impl View for Store {
    type V = Seq<SpotifyHistoryEntry>;

    closed spec fn view(&self) -> Seq<SpotifyHistoryEntry> {
        self.written@
    }
}

impl Store {
    /// Opens (creating if absent) the database at `path`, turns on
    /// write-ahead durability, and applies any pending schema migration;
    /// a database already at the current version is left as it is.
    pub fn open(path: &str) -> (r: Result<Store, StorageError>)
        ensures
            r matches Ok(s) ==> s@ == Seq::<SpotifyHistoryEntry>::empty(),
    {
        let mut conn = match open_connection(path) {
            Ok(c) => c,
            Err(m) => {
                return Err(StorageError { message: m, record: None });
            },
        };
        if let Err(m) = set_pragma(&conn, "journal_mode", "WAL") {
            return Err(StorageError { message: m, record: None });
        }
        let up = "CREATE TABLE spotify_history (
            ts DATETIME NOT NULL,
            username TEXT,
            platform TEXT,
            ms_played UNSIGNED BIG INT,
            conn_country TEXT,
            ip_addr_decrypted TEXT,
            user_agent_decrypted TEXT,
            master_metadata_track_name TEXT,
            master_metadata_album_artist_name TEXT,
            master_metadata_album_album_name TEXT,
            spotify_track_uri TEXT,
            episode_name TEXT,
            episode_show_name TEXT,
            spotify_episode_uri TEXT,
            reason_start TEXT,
            reason_end TEXT,
            shuffle BOOLEAN,
            skipped BOOLEAN,
            offline BOOLEAN,
            offline_timestamp UNSIGNED BIG INT,
            incognito_mode BOOLEAN
          );";
        let down = "DROP TABLE spotify_history;";
        if let Err(m) = apply_single_migration(&mut conn, up, down) {
            return Err(StorageError { message: m, record: None });
        }
        Ok(Store { conn, written: Ghost(Seq::empty()) })
    }

    /// Appends one event as a row. The parameter list handed to the engine is
    /// pinned by `params_match`: every field bound by its column's name, in
    /// the declared order. On success the event joins this handle's view; on
    /// failure nothing does, and the error carries the offending record.
    pub fn insert(&mut self, e: &SpotifyHistoryEntry) -> (r: Result<(), StorageError>)
        ensures
            r is Ok ==> final(self)@ == old(self)@.push(*e),
            r matches Err(err) ==> final(self)@ == old(self)@ && err.record == Some(*e),
            !storable(*e) ==> r is Err,
    {
        let params = match entry_params(e) {
            Ok(p) => p,
            Err(mut err) => {
                err.record = Some(e.duplicate());
                return Err(err);
            },
        };
        let sql = "INSERT INTO spotify_history VALUES (
            :ts,
            :username,
            :platform,
            :ms_played,
            :conn_country,
            :ip_addr_decrypted,
            :user_agent_decrypted,
            :master_metadata_track_name,
            :master_metadata_album_artist_name,
            :master_metadata_album_album_name,
            :spotify_track_uri,
            :episode_name,
            :episode_show_name,
            :spotify_episode_uri,
            :reason_start,
            :reason_end,
            :shuffle,
            :skipped,
            :offline,
            :offline_timestamp,
            :incognito_mode
          );";
        match execute_named(&self.conn, sql, &params) {
            Ok(()) => {
                self.written = Ghost(self.written@.push(*e));
                Ok(())
            },
            Err(m) => Err(StorageError { message: m, record: Some(e.duplicate()) }),
        }
    }

    /// Every stored row read back as an event, in whatever order the engine
    /// yields; aborts on the first row that cannot be read or decoded. What
    /// the file held cannot be stated, but everything returned decoded under
    /// the schema, so it is storable again as it stands.
    pub fn load_all(&self) -> (r: Result<Vec<SpotifyHistoryEntry>, StorageError>)
        ensures
            r matches Ok(es) ==> forall|k: int|
                0 <= k < es@.len() ==> storable(#[trigger] es@[k]),
    {
        let rows = match query_all_rows(&self.conn, "SELECT * FROM spotify_history") {
            Ok(rows) => rows,
            Err(m) => {
                return Err(StorageError { message: m, record: None });
            },
        };
        let mut events: Vec<SpotifyHistoryEntry> = Vec::new();
        let mut i: usize = 0;
        while i < rows.len()
            invariant
                i <= rows@.len(),
                forall|k: int| 0 <= k < events@.len() ==> storable(#[trigger] events@[k]),
            decreases rows@.len() - i,
        {
            let vals = row_values(&rows[i]);
            events.push(decode_row(&vals)?);
            i += 1;
        }
        Ok(events)
    }
}

} // verus!
