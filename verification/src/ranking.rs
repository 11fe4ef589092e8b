//! Per-artist listening-time aggregation: grouping by artist name, saturating
//! totals, and the ranking sorted by total descending.
use vstd::prelude::*;

use crate::event::{artist_of, SpotifyHistoryEntry};

verus! {

/// Milliseconds the given artist was played across `events`, as an
/// unbounded sum. Events without an artist name contribute to no sum.
pub open spec fn raw_artist_ms(events: Seq<SpotifyHistoryEntry>, name: Seq<char>) -> nat
    decreases events.len(),
{
    if events.len() == 0 {
        0
    } else {
        raw_artist_ms(events.drop_last(), name) + if artist_of(events.last()) == Some(name) {
            events.last().ms_played as nat
        } else {
            0 as nat
        }
    }
}

/// The reported total for one artist: the unbounded sum clamped to `u64::MAX`.
pub open spec fn artist_total_ms(events: Seq<SpotifyHistoryEntry>, name: Seq<char>) -> u64 {
    if raw_artist_ms(events, name) > u64::MAX {
        u64::MAX
    } else {
        raw_artist_ms(events, name) as u64
    }
}

/// The set of artist names that occur in `events`.
pub open spec fn artist_names(events: Seq<SpotifyHistoryEntry>) -> Set<Seq<char>> {
    Set::new(
        |n: Seq<char>| exists|i: int| 0 <= i < events.len() && artist_of(#[trigger] events[i]) == Some(n),
    )
}

/// Every pair carries a name that occurs in `events`, with that name's exact total.
pub open spec fn ranking_entries_valid(
    events: Seq<SpotifyHistoryEntry>,
    s: Seq<(String, u64)>,
) -> bool {
    forall|i: int|
        0 <= i < s.len() ==> artist_names(events).contains((#[trigger] s[i]).0@) && s[i].1
            == artist_total_ms(events, s[i].0@)
}

/// Totals never increase along the ranking.
pub open spec fn ranking_sorted(s: Seq<(String, u64)>) -> bool {
    forall|i: int, j: int| 0 <= i <= j < s.len() ==> (#[trigger] s[i]).1 >= (#[trigger] s[j]).1
}

/// No artist name appears twice.
pub open spec fn ranking_distinct(s: Seq<(String, u64)>) -> bool {
    forall|i: int, j: int| 0 <= i < j < s.len() ==> (#[trigger] s[i]).0@ != (#[trigger] s[j]).0@
}

/// `s` has an entry for artist `m`.
pub open spec fn has_artist(s: Seq<(String, u64)>, m: Seq<char>) -> bool {
    exists|i: int| 0 <= i < s.len() && (#[trigger] s[i]).0@ == m
}

/// Every artist that occurs in `events` appears in the ranking.
pub open spec fn ranking_complete(events: Seq<SpotifyHistoryEntry>, s: Seq<(String, u64)>) -> bool {
    forall|n: Seq<char>| #[trigger] artist_names(events).contains(n) ==> has_artist(s, n)
}

/// A full ranking of `events`: exact clamped totals, sorted descending, one
/// entry per artist that occurs, and none missing.
pub open spec fn is_complete_ranking(
    events: Seq<SpotifyHistoryEntry>,
    s: Seq<(String, u64)>,
) -> bool {
    &&& ranking_entries_valid(events, s)
    &&& ranking_sorted(s)
    &&& ranking_distinct(s)
    &&& ranking_complete(events, s)
}

/// The first `n` entries of a full ranking: exact totals, sorted, distinct,
/// and no artist outside it beats (or has fewer plays than) the entry at the cut.
pub open spec fn is_top_n_ranking(
    events: Seq<SpotifyHistoryEntry>,
    s: Seq<(String, u64)>,
    n: int,
) -> bool {
    &&& ranking_entries_valid(events, s)
    &&& ranking_sorted(s)
    &&& ranking_distinct(s)
    &&& s.len() <= n
    &&& (s.len() < n ==> ranking_complete(events, s))
    &&& (forall|m: Seq<char>|
        #[trigger] artist_names(events).contains(m) && !has_artist(s, m) ==> s.len() == n && (0 < n
            ==> artist_total_ms(events, m) <= s[n - 1].1))
}

/// Law: a top-`0` report holds nothing.
pub proof fn lemma_top_zero_is_empty(events: Seq<SpotifyHistoryEntry>, s: Seq<(String, u64)>)
    requires
        is_top_n_ranking(events, s, 0),
    ensures
        s == Seq::<(String, u64)>::empty(),
{
    assert(s =~= Seq::<(String, u64)>::empty());
}

/// Law: a top-`n` report with fewer than `n` entries is the complete ranking —
/// asking for at least as many entries as there are distinct artists ranks
/// them all.
pub proof fn lemma_short_top_n_is_complete(
    events: Seq<SpotifyHistoryEntry>,
    s: Seq<(String, u64)>,
    n: int,
)
    requires
        is_top_n_ranking(events, s, n),
        s.len() < n,
    ensures
        is_complete_ranking(events, s),
{
}

/// Appending one event adds its playing time to its own artist's sum and to
/// no other artist's.
pub proof fn lemma_raw_push(events: Seq<SpotifyHistoryEntry>, e: SpotifyHistoryEntry, name: Seq<char>)
    ensures
        raw_artist_ms(events.push(e), name) == raw_artist_ms(events, name) + (if artist_of(e)
            == Some(name) {
            e.ms_played as nat
        } else {
            0 as nat
        }),
{
    assert(events.push(e).drop_last() =~= events);
    assert(events.push(e).last() == e);
}

/// Appending one event adds at most its own artist name to the name set.
pub proof fn lemma_names_push(events: Seq<SpotifyHistoryEntry>, e: SpotifyHistoryEntry)
    ensures
        artist_names(events.push(e)) =~= (match artist_of(e) {
            Some(n) => artist_names(events).insert(n),
            None => artist_names(events),
        }),
{
    let s2 = events.push(e);
    assert forall|n: Seq<char>| artist_names(s2).contains(n) implies artist_names(events).contains(
        n,
    ) || artist_of(e) == Some(n) by {
        let i = choose|i: int| 0 <= i < s2.len() && artist_of(#[trigger] s2[i]) == Some(n);
        if i < events.len() {
            assert(s2[i] == events[i]);
            assert(artist_of(events[i]) == Some(n));
        } else {
            assert(s2[i] == e);
        }
    }
    assert forall|n: Seq<char>| artist_names(events).contains(n) implies artist_names(s2).contains(
        n,
    ) by {
        let i = choose|i: int| 0 <= i < events.len() && artist_of(#[trigger] events[i]) == Some(n);
        assert(s2[i] == events[i]);
        assert(artist_of(s2[i]) == Some(n));
    }
    match artist_of(e) {
        Some(n) => {
            assert(artist_of(s2[events.len() as int]) == Some(n));
            assert(artist_names(s2).contains(n));
        },
        None => {},
    }
}

/// An artist that occurs nowhere in `events` has no listening time there.
pub proof fn lemma_raw_absent(events: Seq<SpotifyHistoryEntry>, name: Seq<char>)
    requires
        !artist_names(events).contains(name),
    ensures
        raw_artist_ms(events, name) == 0,
    decreases events.len(),
{
    if events.len() > 0 {
        let head = events.drop_last();
        assert(!artist_names(head).contains(name)) by {
            if artist_names(head).contains(name) {
                let i = choose|i: int| 0 <= i < head.len() && artist_of(#[trigger] head[i]) == Some(
                    name,
                );
                assert(events[i] == head[i]);
                assert(artist_of(events[i]) == Some(name));
                assert(artist_names(events).contains(name));
            }
        }
        lemma_raw_absent(head, name);
        assert(artist_of(events.last()) != Some(name)) by {
            if artist_of(events.last()) == Some(name) {
                assert(artist_of(events[events.len() - 1]) == Some(name));
                assert(artist_names(events).contains(name));
            }
        }
    }
}

/// Law: an event with no artist name (a podcast episode, say) changes neither
/// the set of ranked artists nor any artist's total, however long it played.
pub proof fn lemma_artistless_event_is_ignored(
    events: Seq<SpotifyHistoryEntry>,
    e: SpotifyHistoryEntry,
)
    requires
        artist_of(e) is None,
    ensures
        artist_names(events.push(e)) =~= artist_names(events),
        forall|n: Seq<char>| raw_artist_ms(events.push(e), n) == raw_artist_ms(events, n),
        forall|n: Seq<char>| artist_total_ms(events.push(e), n) == artist_total_ms(events, n),
{
    lemma_names_push(events, e);
    assert forall|n: Seq<char>| raw_artist_ms(events.push(e), n) == raw_artist_ms(events, n) by {
        lemma_raw_push(events, e, n);
    }
}

/// Law: an artist whose accumulated playing time passes `u64::MAX` is
/// reported with exactly `u64::MAX`, not a wrapped-around value.
pub proof fn lemma_total_saturates(events: Seq<SpotifyHistoryEntry>, name: Seq<char>)
    requires
        raw_artist_ms(events, name) > u64::MAX,
    ensures
        artist_total_ms(events, name) == u64::MAX,
{
}

/// Position of `name` among the accumulated totals, if it is there.
fn find_artist(acc: &Vec<(String, u64)>, name: &String) -> (r: Option<usize>)
    ensures
        (r matches Some(k) ==> k < acc@.len() && acc@[k as int].0@ == name@),
        (r is None ==> forall|j: int| 0 <= j < acc@.len() ==> (#[trigger] acc@[j]).0@ != name@),
{
    let mut k: usize = 0;
    while k < acc.len()
        invariant
            k <= acc@.len(),
            forall|j: int| 0 <= j < k ==> (#[trigger] acc@[j]).0@ != name@,
        decreases acc@.len() - k,
    {
        if acc[k].0 == *name {
            return Some(k);
        }
        k += 1;
    }
    None
}

/// Groups `events` by artist name, summing `ms_played` per artist with
/// saturating addition; events with no artist name are left out. One pair per
/// artist, in order of first appearance, not yet sorted.
fn accumulate_totals(events: &Vec<SpotifyHistoryEntry>) -> (acc: Vec<(String, u64)>)
    ensures
        ranking_entries_valid(events@, acc@),
        ranking_distinct(acc@),
        ranking_complete(events@, acc@),
{
    let mut acc: Vec<(String, u64)> = Vec::new();
    let mut i: usize = 0;
    while i < events.len()
        invariant
            i <= events@.len(),
            ranking_entries_valid(events@.take(i as int), acc@),
            ranking_distinct(acc@),
            ranking_complete(events@.take(i as int), acc@),
        decreases events@.len() - i,
    {
        let ghost prefix = events@.take(i as int);
        let ghost e = events@[i as int];
        proof {
            assert(events@.take(i as int + 1) =~= prefix.push(e));
        }
        match &events[i].master_metadata_album_artist_name {
            None => {
                proof {
                    lemma_artistless_event_is_ignored(prefix, e);
                    assert forall|j: int| 0 <= j < acc@.len() implies artist_names(
                        prefix.push(e),
                    ).contains((#[trigger] acc@[j]).0@) && acc@[j].1 == artist_total_ms(
                        prefix.push(e),
                        acc@[j].0@,
                    ) by {
                        assert(artist_names(prefix).contains(acc@[j].0@));
                    }
                    assert forall|n: Seq<char>| #[trigger] artist_names(prefix.push(e)).contains(
                        n,
                    ) implies has_artist(acc@, n) by {
                        assert(artist_names(prefix).contains(n));
                    }
                }
            },
            Some(name) => {
                proof {
                    assert(artist_of(e) == Some(name@));
                }
                match find_artist(&acc, name) {
                    Some(k) => {
                        let total = acc[k].1.saturating_add(events[i].ms_played);
                        let nm = acc[k].0.clone();
                        let ghost acc0 = acc@;
                        acc[k] = (nm, total);
                        proof {
                            lemma_names_push(prefix, e);
                            assert(acc@ =~= acc0.update(k as int, (nm, total)));
                            assert forall|j: int| 0 <= j < acc@.len() implies artist_names(
                                prefix.push(e),
                            ).contains((#[trigger] acc@[j]).0@) && acc@[j].1 == artist_total_ms(
                                prefix.push(e),
                                acc@[j].0@,
                            ) by {
                                lemma_raw_push(prefix, e, acc@[j].0@);
                                assert(artist_names(prefix).contains(acc0[j].0@));
                                if j != k {
                                    assert(acc@[j] == acc0[j]);
                                    assert(acc0[j].0@ != acc0[k as int].0@);
                                } else {
                                    assert(acc@[k as int].0@ == name@);
                                }
                            }
                            assert(ranking_distinct(acc@)) by {
                                assert forall|p: int, q: int|
                                    0 <= p < q < acc@.len() implies (#[trigger] acc@[p]).0@
                                    != (#[trigger] acc@[q]).0@ by {
                                    assert(acc@[p].0@ == acc0[p].0@);
                                    assert(acc@[q].0@ == acc0[q].0@);
                                }
                            }
                            assert forall|n: Seq<char>|
                                #[trigger] artist_names(prefix.push(e)).contains(
                                    n,
                                ) implies has_artist(acc@, n) by {
                                if n == name@ {
                                    assert(acc@[k as int].0@ == n);
                                } else {
                                    assert(artist_names(prefix).contains(n));
                                    let w = choose|w: int|
                                        0 <= w < acc0.len() && (#[trigger] acc0[w]).0@ == n;
                                    assert(acc@[w].0@ == n);
                                }
                            }
                        }
                    },
                    None => {
                        let ghost acc0 = acc@;
                        acc.push((name.clone(), events[i].ms_played));
                        proof {
                            lemma_names_push(prefix, e);
                            assert(!artist_names(prefix).contains(name@)) by {
                                if artist_names(prefix).contains(name@) {
                                    let w = choose|w: int|
                                        0 <= w < acc0.len() && (#[trigger] acc0[w]).0@ == name@;
                                }
                            }
                            lemma_raw_absent(prefix, name@);
                            let newlen = acc0.len() as int;
                            assert(acc@[newlen].0@ == name@ && acc@[newlen].1 == e.ms_played);
                            assert forall|j: int| 0 <= j < acc@.len() implies artist_names(
                                prefix.push(e),
                            ).contains((#[trigger] acc@[j]).0@) && acc@[j].1 == artist_total_ms(
                                prefix.push(e),
                                acc@[j].0@,
                            ) by {
                                lemma_raw_push(prefix, e, acc@[j].0@);
                                if j < newlen {
                                    assert(acc@[j] == acc0[j]);
                                    assert(artist_names(prefix).contains(acc0[j].0@));
                                    assert(acc0[j].0@ != name@);
                                } else {
                                    assert(acc@[j].0@ == name@);
                                    assert(raw_artist_ms(prefix, name@) == 0);
                                }
                            }
                            assert(ranking_distinct(acc@)) by {
                                assert forall|p: int, q: int|
                                    0 <= p < q < acc@.len() implies (#[trigger] acc@[p]).0@
                                    != (#[trigger] acc@[q]).0@ by {
                                    if q < newlen {
                                        assert(acc@[p] == acc0[p]);
                                        assert(acc@[q] == acc0[q]);
                                    } else {
                                        assert(acc@[p] == acc0[p]);
                                        assert(acc@[q].0@ == name@);
                                        assert(acc0[p].0@ != name@);
                                    }
                                }
                            }
                            assert forall|n: Seq<char>|
                                #[trigger] artist_names(prefix.push(e)).contains(
                                    n,
                                ) implies has_artist(acc@, n) by {
                                if n == name@ {
                                    assert(acc@[newlen].0@ == n);
                                } else {
                                    assert(artist_names(prefix).contains(n));
                                    let w = choose|w: int|
                                        0 <= w < acc0.len() && (#[trigger] acc0[w]).0@ == n;
                                    assert(acc@[w].0@ == n);
                                }
                            }
                        }
                    },
                }
            },
        }
        i += 1;
    }
    proof {
        assert(events@.take(events@.len() as int) =~= events@);
    }
    acc
}

/// Sorts ranking pairs by total descending, by repeatedly moving a largest
/// remaining pair to the output. The result is a permutation of the input;
/// the relative order of equal totals is not specified.
fn sort_by_total_desc(input: Vec<(String, u64)>) -> (out: Vec<(String, u64)>)
    ensures
        out@.to_multiset() == input@.to_multiset(),
        ranking_sorted(out@),
{
    broadcast use vstd::seq_lib::group_to_multiset_ensures;
    broadcast use vstd::multiset::group_multiset_axioms;

    let mut rest = input;
    let ghost whole = rest@;
    let mut out: Vec<(String, u64)> = Vec::new();
    proof {
        assert(out@.to_multiset().add(rest@.to_multiset()) =~= whole.to_multiset());
    }
    while rest.len() > 0
        invariant
            out@.to_multiset().add(rest@.to_multiset()) == whole.to_multiset(),
            ranking_sorted(out@),
            forall|i: int, j: int|
                0 <= i < out@.len() && 0 <= j < rest@.len() ==> (#[trigger] out@[i]).1
                    >= (#[trigger] rest@[j]).1,
        decreases rest@.len(),
    {
        broadcast use vstd::seq_lib::group_to_multiset_ensures;
        broadcast use vstd::multiset::group_multiset_axioms;

        let mut m: usize = 0;
        let mut k: usize = 1;
        while k < rest.len()
            invariant
                m < k <= rest@.len(),
                rest@.len() > 0,
                forall|j: int| 0 <= j < k ==> rest@[m as int].1 >= (#[trigger] rest@[j]).1,
            decreases rest@.len() - k,
        {
            if rest[k].1 > rest[m].1 {
                m = k;
            }
            k += 1;
        }
        let ghost rest0 = rest@;
        let ghost out0 = out@;
        let x = rest.remove(m);
        out.push(x);
        proof {
            assert(rest0.contains(x)) by {
                assert(rest0[m as int] == x);
            }
            assert(rest@.to_multiset() =~= rest0.to_multiset().remove(x));
            assert(out@.to_multiset() =~= out0.to_multiset().insert(x));
            assert(out@.to_multiset().add(rest@.to_multiset()) =~= whole.to_multiset());
            assert(ranking_sorted(out@)) by {
                assert forall|i: int, j: int| 0 <= i <= j < out@.len() implies (
                #[trigger] out@[i]).1 >= (#[trigger] out@[j]).1 by {
                    if j < out0.len() {
                        assert(out@[i] == out0[i] && out@[j] == out0[j]);
                    } else if i < out0.len() {
                        assert(out@[i] == out0[i] && out@[j] == x && x == rest0[m as int]);
                    }
                }
            }
            assert forall|i: int, j: int|
                0 <= i < out@.len() && 0 <= j < rest@.len() implies (#[trigger] out@[i]).1
                >= (#[trigger] rest@[j]).1 by {
                assert(rest@[j] == if j < m { rest0[j] } else { rest0[j + 1] });
                if i < out0.len() {
                    assert(out@[i] == out0[i]);
                } else {
                    assert(out@[i] == rest0[m as int]);
                }
            }
        }
    }
    proof {
        assert(rest@ =~= Seq::<(String, u64)>::empty());
        assert forall|p: (String, u64)| true implies out@.to_multiset().count(p)
            == whole.to_multiset().count(p) by {
            assert(!rest@.contains(p));
            assert(rest@.to_multiset().count(p) == 0);
        }
        assert(out@.to_multiset() =~= whole.to_multiset());
    }
    out
}

/// A complete ranking of `events`: every artist that occurs in them, each with
/// its exact saturating total, sorted by total descending. Artists with equal
/// totals come in no specified relative order.
pub fn rank_artists(events: &Vec<SpotifyHistoryEntry>) -> (r: Vec<(String, u64)>)
    ensures
        is_complete_ranking(events@, r@),
{
    broadcast use vstd::seq_lib::group_to_multiset_ensures;

    let acc = accumulate_totals(events);
    let ghost acc0 = acc@;
    let r = sort_by_total_desc(acc);
    proof {
        // Each output pair is some input pair, hence carries a valid entry.
        assert forall|i: int| 0 <= i < r@.len() implies artist_names(events@).contains(
            (#[trigger] r@[i]).0@,
        ) && r@[i].1 == artist_total_ms(events@, r@[i].0@) by {
            assert(r@.contains(r@[i]));
            assert(r@.to_multiset().count(r@[i]) > 0);
            assert(acc0.contains(r@[i]));
            let k = choose|k: int| 0 <= k < acc0.len() && acc0[k] == r@[i];
            assert(artist_names(events@).contains(acc0[k].0@));
        }
        // Input pairs are pairwise distinct values, so the output never
        // repeats one, and distinct names carry over.
        assert(acc0.no_duplicates()) by {
            assert forall|p: int, q: int|
                0 <= p < q < acc0.len() implies acc0[p] != acc0[q] by {
                assert(acc0[p].0@ != acc0[q].0@);
            }
        }
        acc0.lemma_multiset_has_no_duplicates();
        r@.lemma_multiset_has_no_duplicates_conv();
        assert forall|i: int, j: int| 0 <= i < j < r@.len() implies (#[trigger] r@[i]).0@
            != (#[trigger] r@[j]).0@ by {
            if r@[i].0@ == r@[j].0@ {
                assert(r@.contains(r@[i]) && r@.contains(r@[j]));
                assert(r@.to_multiset().count(r@[i]) > 0 && r@.to_multiset().count(r@[j]) > 0);
                assert(acc0.to_multiset().count(r@[i]) > 0 && acc0.to_multiset().count(r@[j]) > 0);
                assert(acc0.contains(r@[i]) && acc0.contains(r@[j]));
                let p = choose|p: int| 0 <= p < acc0.len() && acc0[p] == r@[i];
                let q = choose|q: int| 0 <= q < acc0.len() && acc0[q] == r@[j];
                if p != q {
                    assert(acc0[p].0@ != acc0[q].0@);
                }
                assert(r@[i] == r@[j]);
            }
        }
        // No artist goes missing.
        assert forall|n: Seq<char>| #[trigger] artist_names(events@).contains(n) implies has_artist(
            r@,
            n,
        ) by {
            let w = choose|w: int| 0 <= w < acc0.len() && (#[trigger] acc0[w]).0@ == n;
            assert(acc0.contains(acc0[w]));
            assert(acc0.to_multiset().count(acc0[w]) > 0);
            assert(r@.to_multiset().count(acc0[w]) > 0);
            assert(r@.contains(acc0[w]));
            let v = choose|v: int| 0 <= v < r@.len() && r@[v] == acc0[w];
            assert(r@[v].0@ == n);
        }
    }
    r
}

} // verus!
