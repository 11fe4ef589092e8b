//! The in-memory working set: loaded from the store once, extended by merging
//! parsed import files, queried for rankings, and written back under the
//! range-filter policy.
use vstd::prelude::*;

use crate::event::SpotifyHistoryEntry;
use crate::ranking::{
    artist_names, artist_total_ms, has_artist, is_complete_ranking, is_top_n_ranking, rank_artists,
};
use crate::store::{StorageError, Store};

verus! {

/// The largest `ts` in `s`, or the smallest representable timestamp when `s`
/// is empty.
pub open spec fn seq_max_ts(s: Seq<SpotifyHistoryEntry>) -> i64
    decreases s.len(),
{
    if s.len() == 0 {
        i64::MIN
    } else {
        let rest = seq_max_ts(s.drop_last());
        if s.last().ts > rest {
            s.last().ts
        } else {
            rest
        }
    }
}

/// The smallest `ts` in `s`, or the largest representable timestamp when `s`
/// is empty.
pub open spec fn seq_min_ts(s: Seq<SpotifyHistoryEntry>) -> i64
    decreases s.len(),
{
    if s.len() == 0 {
        i64::MAX
    } else {
        let rest = seq_min_ts(s.drop_last());
        if s.last().ts < rest {
            s.last().ts
        } else {
            rest
        }
    }
}

/// The range filter: `persist` writes an event only if its timestamp lies
/// strictly above the load-time maximum and strictly below the load-time
/// minimum — satisfiable only when the loaded set was empty.
pub open spec fn in_save_range(e: SpotifyHistoryEntry, max_ts: i64, min_ts: i64) -> bool {
    e.ts > max_ts && e.ts < min_ts
}

/// The subsequence of `s` that passes the range filter, in order.
pub open spec fn saved_events(s: Seq<SpotifyHistoryEntry>, max_ts: i64, min_ts: i64) -> Seq<
    SpotifyHistoryEntry,
>
    decreases s.len(),
{
    if s.len() == 0 {
        Seq::empty()
    } else {
        let rest = saved_events(s.drop_last(), max_ts, min_ts);
        if in_save_range(s.last(), max_ts, min_ts) {
            rest.push(s.last())
        } else {
            rest
        }
    }
}

/// Every timestamp in `s` lies between the extrema of `s`.
pub proof fn lemma_ts_bounds(s: Seq<SpotifyHistoryEntry>)
    ensures
        forall|i: int|
            0 <= i < s.len() ==> seq_min_ts(s) <= (#[trigger] s[i]).ts <= seq_max_ts(s),
    decreases s.len(),
{
    if s.len() > 0 {
        lemma_ts_bounds(s.drop_last());
        assert forall|i: int|
            0 <= i < s.len() implies seq_min_ts(s) <= (#[trigger] s[i]).ts <= seq_max_ts(s) by {
            if i < s.len() - 1 {
                assert(s.drop_last()[i] == s[i]);
            }
        }
    }
}

/// With an inverted range bound (`max_ts` at or above `min_ts`) the filter
/// accepts nothing, so nothing is selected for writing.
pub proof fn lemma_saved_none_when_range_inverted(
    s: Seq<SpotifyHistoryEntry>,
    max_ts: i64,
    min_ts: i64,
)
    requires
        max_ts >= min_ts,
    ensures
        saved_events(s, max_ts, min_ts) == Seq::<SpotifyHistoryEntry>::empty(),
    decreases s.len(),
{
    if s.len() > 0 {
        lemma_saved_none_when_range_inverted(s.drop_last(), max_ts, min_ts);
    }
}

/// When every event passes the filter, the selection is the whole sequence,
/// each event once, in order.
pub proof fn lemma_saved_all_when_all_in_range(
    s: Seq<SpotifyHistoryEntry>,
    max_ts: i64,
    min_ts: i64,
)
    requires
        forall|i: int| 0 <= i < s.len() ==> in_save_range(#[trigger] s[i], max_ts, min_ts),
    ensures
        saved_events(s, max_ts, min_ts) == s,
    decreases s.len(),
{
    if s.len() > 0 {
        assert forall|i: int|
            0 <= i < s.drop_last().len() implies in_save_range(
            #[trigger] s.drop_last()[i],
            max_ts,
            min_ts,
        ) by {
            assert(s.drop_last()[i] == s[i]);
        }
        lemma_saved_all_when_all_in_range(s.drop_last(), max_ts, min_ts);
        assert(in_save_range(s[s.len() - 1], max_ts, min_ts));
        assert(saved_events(s, max_ts, min_ts) =~= s);
    }
}

/// Law: after loading a non-empty store, `persist` selects nothing to write —
/// neither a loaded event nor any merged one — because no timestamp can lie
/// strictly above the loaded maximum and strictly below the loaded minimum
/// at once.
pub proof fn lemma_nonempty_load_persists_nothing(a: SpotifyAnalytics)
    requires
        a.wf(),
        a.loaded_events().len() > 0,
    ensures
        saved_events(a.events(), a.max_ts_spec(), a.min_ts_spec()) == Seq::<
            SpotifyHistoryEntry,
        >::empty(),
{
    lemma_ts_bounds(a.loaded_events());
    assert(a.min_ts_spec() <= a.loaded_events()[0].ts <= a.max_ts_spec());
    lemma_saved_none_when_range_inverted(a.events(), a.max_ts_spec(), a.min_ts_spec());
}

/// Law: after loading an empty store, `persist` selects every event of the
/// working set — that is, every merged event — exactly once, in merge order.
/// The boundary timestamps themselves are the one exception: the strict
/// comparisons exclude an event at exactly `i64::MIN` or `i64::MAX`.
pub proof fn lemma_empty_load_persists_all(a: SpotifyAnalytics)
    requires
        a.wf(),
        a.loaded_events().len() == 0,
        forall|i: int|
            0 <= i < a.events().len() ==> i64::MIN < (#[trigger] a.events()[i]).ts < i64::MAX,
    ensures
        saved_events(a.events(), a.max_ts_spec(), a.min_ts_spec()) == a.events(),
{
    assert(a.max_ts_spec() == i64::MIN);
    assert(a.min_ts_spec() == i64::MAX);
    lemma_saved_all_when_all_in_range(a.events(), a.max_ts_spec(), a.min_ts_spec());
}

/// Law: after an empty load, a save that returned `Ok` — whose contract makes
/// the store's view grow by exactly the filtered selection — has appended the
/// whole working set, every merged event once, in merge order. The strict
/// filter keeps out only the two representable timestamp extremes.
pub proof fn lemma_empty_load_save_appends_all(
    a: SpotifyAnalytics,
    before: Seq<SpotifyHistoryEntry>,
    after: Seq<SpotifyHistoryEntry>,
)
    requires
        a.wf(),
        a.loaded_events().len() == 0,
        forall|i: int|
            0 <= i < a.events().len() ==> i64::MIN < (#[trigger] a.events()[i]).ts < i64::MAX,
        after == before + saved_events(a.events(), a.max_ts_spec(), a.min_ts_spec()),
    ensures
        after == before + a.events(),
{
    lemma_empty_load_persists_all(a);
}

/// The analytics working set: every event seen this run, plus the two range
/// scalars snapshotted when the originally stored events were loaded.
pub struct SpotifyAnalytics {
    history: Vec<SpotifyHistoryEntry>,
    max_ts: i64,
    min_ts: i64,
    loaded: Ghost<Seq<SpotifyHistoryEntry>>,
}

impl SpotifyAnalytics {
    /// Every event in the working set, loaded ones first, merged ones after.
    pub closed spec fn events(&self) -> Seq<SpotifyHistoryEntry> {
        self.history@
    }

    /// The events that were loaded from the store at construction time.
    pub closed spec fn loaded_events(&self) -> Seq<SpotifyHistoryEntry> {
        self.loaded@
    }

    /// The load-time snapshot of the largest loaded timestamp.
    pub closed spec fn max_ts_spec(&self) -> i64 {
        self.max_ts
    }

    /// The load-time snapshot of the smallest loaded timestamp.
    pub closed spec fn min_ts_spec(&self) -> i64 {
        self.min_ts
    }

    /// The loaded events sit unchanged at the front of the working set, and
    /// the two scalars are their extrema; they are never re-derived later.
    pub open spec fn wf(&self) -> bool {
        &&& self.loaded_events().len() <= self.events().len()
        &&& self.events().take(self.loaded_events().len() as int) == self.loaded_events()
        &&& self.max_ts_spec() == seq_max_ts(self.loaded_events())
        &&& self.min_ts_spec() == seq_min_ts(self.loaded_events())
    }

    /// Builds the working set from the events the store held, computing the
    /// load-time extrema; an empty store gives the inverted full range.
    pub fn from_loaded_events(events: Vec<SpotifyHistoryEntry>) -> (a: SpotifyAnalytics)
        ensures
            a.wf(),
            a.events() == events@,
            a.loaded_events() == events@,
            a.max_ts_spec() == seq_max_ts(events@),
            a.min_ts_spec() == seq_min_ts(events@),
    {
        let mut max_ts: i64 = i64::MIN;
        let mut min_ts: i64 = i64::MAX;
        let mut i: usize = 0;
        while i < events.len()
            invariant
                i <= events@.len(),
                max_ts == seq_max_ts(events@.take(i as int)),
                min_ts == seq_min_ts(events@.take(i as int)),
            decreases events@.len() - i,
        {
            proof {
                assert(events@.take(i as int + 1).drop_last() =~= events@.take(i as int));
                assert(events@.take(i as int + 1).last() == events@[i as int]);
            }
            let t = events[i].ts;
            if t > max_ts {
                max_ts = t;
            }
            if t < min_ts {
                min_ts = t;
            }
            i += 1;
        }
        proof {
            assert(events@.take(events@.len() as int) =~= events@);
        }
        SpotifyAnalytics { loaded: Ghost(events@), history: events, max_ts, min_ts }
    }

    /// Opens the working set over `store`: loads every stored row and
    /// snapshots the loaded range. Fails with whatever the load raised.
    pub fn new(store: &Store) -> (r: Result<SpotifyAnalytics, StorageError>)
        ensures
            r matches Ok(a) ==> a.wf() && a.loaded_events() == a.events(),
    {
        let events = store.load_all()?;
        Ok(Self::from_loaded_events(events))
    }

    /// Appends already-parsed events to the working set, unconditionally: no
    /// deduplication, and the load-time range scalars stay as they were.
    pub fn merge(&mut self, parsed: Vec<SpotifyHistoryEntry>)
        ensures
            final(self).events() == old(self).events() + parsed@,
            final(self).loaded_events() == old(self).loaded_events(),
            final(self).max_ts_spec() == old(self).max_ts_spec(),
            final(self).min_ts_spec() == old(self).min_ts_spec(),
            old(self).wf() ==> final(self).wf(),
    {
        let mut parsed = parsed;
        let ghost history0 = self.history@;
        self.history.append(&mut parsed);
        proof {
            if old(self).wf() {
                assert(self.history@.take(self.loaded@.len() as int) =~= history0.take(
                    self.loaded@.len() as int,
                ));
            }
        }
    }

    /// Writes back every event in the working set whose timestamp passes the
    /// range filter, in order, stopping at the first failing write; writes
    /// made before the failure stay. Events whose counters cannot be stored
    /// as rows also stop the run with an error carrying the record.
    pub fn save(&self, store: &mut Store) -> (r: Result<(), StorageError>)
        ensures
            r is Ok ==> final(store)@ == old(store)@ + saved_events(
                self.events(),
                self.max_ts_spec(),
                self.min_ts_spec(),
            ),
            r is Ok ==> forall|k: int|
                0 <= k < self.events().len() && in_save_range(
                    #[trigger] self.events()[k],
                    self.max_ts_spec(),
                    self.min_ts_spec(),
                ) ==> crate::store::storable(self.events()[k]),
            r matches Err(err) ==> exists|k: int|
                0 <= k < self.events().len() && in_save_range(
                    #[trigger] self.events()[k],
                    self.max_ts_spec(),
                    self.min_ts_spec(),
                ) && err.record == Some(self.events()[k]) && final(store)@ == old(store)@
                    + saved_events(
                    self.events().take(k),
                    self.max_ts_spec(),
                    self.min_ts_spec(),
                ),
    {
        let ghost store0 = store@;
        let mut i: usize = 0;
        while i < self.history.len()
            invariant
                i <= self.history@.len(),
                store0 == old(store)@,
                forall|j: int|
                    0 <= j < i && in_save_range(#[trigger] self.history@[j], self.max_ts,
                    self.min_ts) ==> crate::store::storable(self.history@[j]),
                store@ == store0 + saved_events(
                    self.history@.take(i as int),
                    self.max_ts,
                    self.min_ts,
                ),
            decreases self.history@.len() - i,
        {
            proof {
                assert(self.history@.take(i as int + 1).drop_last() =~= self.history@.take(
                    i as int,
                ));
                assert(self.history@.take(i as int + 1).last() == self.history@[i as int]);
            }
            let e = &self.history[i];
            if e.ts > self.max_ts && e.ts < self.min_ts {
                match store.insert(e) {
                    Ok(()) => {},
                    Err(err) => {
                        proof {
                            let k = i as int;
                            assert(in_save_range(self.events()[k], self.max_ts_spec(),
                                self.min_ts_spec()));
                            assert(err.record == Some(self.events()[k]));
                            assert(final(store)@ == old(store)@ + saved_events(
                                self.events().take(k),
                                self.max_ts_spec(),
                                self.min_ts_spec(),
                            ));
                        }
                        return Err(err);
                    },
                }
            }
            i += 1;
        }
        proof {
            assert(self.history@.take(self.history@.len() as int) =~= self.history@);
        }
        Ok(())
    }

    /// The full ranking: every artist in the working set with its exact
    /// saturating total, sorted by total descending.
    pub fn get_all_top_artists(&self) -> (r: Vec<(String, u64)>)
        ensures
            is_complete_ranking(self.events(), r@),
    {
        rank_artists(&self.history)
    }

    /// The first `n` entries of the full ranking: `n` of the top totals, or
    /// the whole ranking when fewer than `n` artists occur.
    pub fn top_n_artists(&self, n: usize) -> (r: Vec<(String, u64)>)
        ensures
            is_top_n_ranking(self.events(), r@, n as int),
    {
        let mut r = rank_artists(&self.history);
        let ghost full = r@;
        r.truncate(n);
        proof {
            if n < full.len() {
                assert(r@ =~= full.take(n as int));
            }
            assert forall|i: int| 0 <= i < r@.len() implies artist_names(self.events()).contains(
                (#[trigger] r@[i]).0@,
            ) && r@[i].1 == artist_total_ms(self.events(), r@[i].0@) by {
                assert(r@[i] == full[i]);
            }
            assert forall|m: Seq<char>|
                #[trigger] artist_names(self.events()).contains(m) && !has_artist(
                    r@,
                    m,
                ) implies r@.len() == n && (0 < n ==> artist_total_ms(self.events(), m) <= r@[n
                - 1].1) by {
                let w = choose|w: int| 0 <= w < full.len() && (#[trigger] full[w]).0@ == m;
                if w < r@.len() {
                    assert(r@[w] == full[w]);
                    assert(has_artist(r@, m));
                }
                assert(r@.len() == n);
                if 0 < n {
                    assert(full[w].1 <= full[n - 1].1);
                    assert(r@[n - 1] == full[n - 1]);
                    assert(full[w].1 == artist_total_ms(self.events(), m));
                }
            }
        }
        r
    }

    /// The ten artists with the largest totals, the original report shape.
    pub fn get_top_10_artists(&self) -> (r: Vec<(String, u64)>)
        ensures
            is_top_n_ranking(self.events(), r@, 10),
    {
        self.top_n_artists(10)
    }
}

} // verus!
