use crate::track::{Track, TrackView};
use vstd::prelude::*;

verus! {

/// What recording an observed track found.
#[derive(Debug, Clone, Copy, PartialEq, Eq, Structural)]
pub enum ObservationResult {
    /// The uri was not in the cache; an entry was created for it.
    NewTrack,
    /// The uri was in the cache; the observation was appended to its history.
    RepeatObservation,
}

/// Why a list of stored records cannot be a cache.
#[derive(Debug, Clone, Copy, PartialEq, Eq, Structural)]
pub enum CacheError {
    /// A record is stored under a key other than its track's uri.
    KeyMismatch,
    /// Two records share a uri.
    DuplicateUri,
}

/// A track with the times (epoch seconds) at which it was observed, oldest first.
#[derive(Debug)]
pub struct PlayHistoryEntry {
    pub track: Track,
    pub play_history: Vec<i64>,
}

pub struct EntryView {
    pub track: TrackView,
    pub history: Seq<i64>,
}

impl View for PlayHistoryEntry {
    type V = EntryView;

    open spec fn view(&self) -> EntryView {
        EntryView { track: self.track@, history: self.play_history@ }
    }
}

impl Clone for PlayHistoryEntry {
    fn clone(&self) -> (r: Self)
        ensures
            r@ == self@,
    {
        let mut history: Vec<i64> = Vec::new();
        let mut i: usize = 0;
        while i < self.play_history.len()
            invariant
                i <= self.play_history@.len(),
                history@ == self.play_history@.take(i as int),
            decreases self.play_history@.len() - i,
        {
            history.push(self.play_history[i]);
            i = i + 1;
            assert(history@ == self.play_history@.take(i as int));
        }
        assert(history@ == self.play_history@);
        PlayHistoryEntry { track: self.track.clone(), play_history: history }
    }
}

/// No two entries share a uri.
pub open spec fn uris_unique(s: Seq<EntryView>) -> bool {
    forall|i: int, j: int|
        0 <= i < s.len() && 0 <= j < s.len() && i != j ==> s[i].track.uri != s[j].track.uri
}

/// Whether some entry of `s` has the uri `k`.
pub open spec fn has_uri(s: Seq<EntryView>, k: Seq<char>) -> bool {
    exists|i: int| 0 <= i < s.len() && s[i].track.uri == k
}

/// The entries of `s` keyed by their uris.
pub open spec fn map_of(s: Seq<EntryView>) -> Map<Seq<char>, EntryView> {
    Map::new(
        |k: Seq<char>| has_uri(s, k),
        |k: Seq<char>| s[choose|i: int| 0 <= i < s.len() && s[i].track.uri == k],
    )
}

/// What `record` reports for `t` on a cache that maps uris as `m` does.
pub open spec fn observation(m: Map<Seq<char>, EntryView>, t: TrackView) -> ObservationResult {
    if m.contains_key(t.uri) {
        ObservationResult::RepeatObservation
    } else {
        ObservationResult::NewTrack
    }
}

/// The cache `m` after observing `t` at time `now`: a known uri keeps its track and gets
/// `now` appended to its history; an unknown uri gets an entry whose history is `[now]`.
pub open spec fn recorded(m: Map<Seq<char>, EntryView>, t: TrackView, now: i64) -> Map<
    Seq<char>,
    EntryView,
> {
    if m.contains_key(t.uri) {
        m.insert(t.uri, EntryView { track: m[t.uri].track, history: m[t.uri].history.push(now) })
    } else {
        m.insert(t.uri, EntryView { track: t, history: seq![now] })
    }
}

/// A stored record viewed as plain values: the key it is stored under and its entry.
pub open spec fn record_views(r: Seq<(String, PlayHistoryEntry)>) -> Seq<(Seq<char>, EntryView)> {
    r.map_values(|p: (String, PlayHistoryEntry)| (p.0@, p.1@))
}

/// Every record is stored under its own track's uri.
pub open spec fn keys_match(r: Seq<(Seq<char>, EntryView)>) -> bool {
    forall|i: int| 0 <= i < r.len() ==> #[trigger] r[i].0 == r[i].1.track.uri
}

pub open spec fn record_entries(r: Seq<(Seq<char>, EntryView)>) -> Seq<EntryView> {
    r.map_values(|p: (Seq<char>, EntryView)| p.1)
}

/// The cache that stored records describe, or why they describe none.
pub open spec fn decode(r: Seq<(Seq<char>, EntryView)>) -> Result<
    Map<Seq<char>, EntryView>,
    CacheError,
> {
    if !keys_match(r) {
        Err(CacheError::KeyMismatch)
    } else if !uris_unique(record_entries(r)) {
        Err(CacheError::DuplicateUri)
    } else {
        Ok(map_of(record_entries(r)))
    }
}

/// `r` is a stored form of the cache `m`: one record per uri, keyed by it.
pub open spec fn stores(r: Seq<(Seq<char>, EntryView)>, m: Map<Seq<char>, EntryView>) -> bool {
    &&& keys_match(r)
    &&& uris_unique(record_entries(r))
    &&& map_of(record_entries(r)) == m
}

/// Saving a cache and loading what was saved gives back the same cache: the same uris,
/// each with the same track and the same history.
pub proof fn lemma_save_then_load(m: Map<Seq<char>, EntryView>, r: Seq<(Seq<char>, EntryView)>)
    requires
        stores(r, m),
    ensures
        decode(r) == Ok::<Map<Seq<char>, EntryView>, CacheError>(m),
{
}

/// Timestamps in non-decreasing order.
pub open spec fn is_sorted(h: Seq<i64>) -> bool {
    forall|i: int, j: int| 0 <= i <= j < h.len() ==> h[i] <= h[j]
}

/// Recording keeps histories in order: when every history of `m` is sorted and `now` is no
/// earlier than the latest observation of `t`'s uri, every history is still sorted after
/// `t` is recorded at `now`.
pub proof fn lemma_record_keeps_histories_sorted(
    m: Map<Seq<char>, EntryView>,
    t: TrackView,
    now: i64,
)
    requires
        forall|k: Seq<char>| #[trigger] m.contains_key(k) ==> is_sorted(m[k].history),
        m.contains_key(t.uri) && m[t.uri].history.len() > 0 ==> m[t.uri].history.last() <= now,
    ensures
        forall|k: Seq<char>| #[trigger]
            recorded(m, t, now).contains_key(k) ==> is_sorted(recorded(m, t, now)[k].history),
{
    if m.contains_key(t.uri) {
        let h = m[t.uri].history;
        assert(is_sorted(h));
        assert(is_sorted(h.push(now))) by {
            assert forall|i: int, j: int| 0 <= i <= j < h.push(now).len() implies h.push(now)[i]
                <= h.push(now)[j] by {
                if j == h.len() && i < h.len() {
                    assert(h[i] <= h[h.len() - 1]);
                }
            }
        }
    }
}

/// `record` applied to the observations `obs` in order, starting from `m`.
pub open spec fn record_all(m: Map<Seq<char>, EntryView>, obs: Seq<(TrackView, i64)>) -> Map<
    Seq<char>,
    EntryView,
>
    decreases obs.len(),
{
    if obs.len() == 0 {
        m
    } else {
        recorded(record_all(m, obs.drop_last()), obs.last().0, obs.last().1)
    }
}

/// Observing tracks of one uri over and over: the first observation reports a new track
/// exactly when the uri was not cached, every later one reports a repeat, and each one
/// adds one timestamp to the uri's history, so that it never shrinks.
pub proof fn lemma_repeated_observations(
    m: Map<Seq<char>, EntryView>,
    uri: Seq<char>,
    obs: Seq<(TrackView, i64)>,
)
    requires
        forall|i: int| 0 <= i < obs.len() ==> (#[trigger] obs[i]).0.uri == uri,
    ensures
        forall|k: int|
            0 <= k < obs.len() ==> observation(#[trigger] record_all(m, obs.take(k)), obs[k].0)
                == if k == 0 && !m.contains_key(uri) {
                ObservationResult::NewTrack
            } else {
                ObservationResult::RepeatObservation
            },
        forall|k: int|
            0 < k <= obs.len() ==> (#[trigger] record_all(m, obs.take(k))).contains_key(uri)
                && record_all(m, obs.take(k))[uri].history.len() == k + if m.contains_key(uri) {
                m[uri].history.len() as int
            } else {
                0
            },
    decreases obs.len(),
{
    if obs.len() > 0 {
        let n = obs.len() as int;
        let prev = obs.drop_last();
        lemma_repeated_observations(m, uri, prev);
        assert forall|k: int| 0 <= k <= prev.len() implies #[trigger] obs.take(k) == prev.take(
            k,
        ) by {
            assert(obs.take(k) =~= prev.take(k));
        }
        assert(prev.take(n - 1) =~= prev);
        assert(obs.take(n) =~= obs);
        let before = record_all(m, prev);
        assert(record_all(m, obs.take(n)) == recorded(before, obs[n - 1].0, obs[n - 1].1));
        if n > 1 {
            assert(record_all(m, prev.take(n - 1)) == before);
            assert(before.contains_key(uri));
        } else {
            assert(prev =~= Seq::<(TrackView, i64)>::empty());
            assert(before == m);
        }
    }
}

proof fn lemma_map_of_index(s: Seq<EntryView>, i: int)
    requires
        uris_unique(s),
        0 <= i < s.len(),
    ensures
        map_of(s).contains_key(s[i].track.uri),
        map_of(s)[s[i].track.uri] == s[i],
{
    let k = s[i].track.uri;
    assert(has_uri(s, k));
    let j = choose|j: int| 0 <= j < s.len() && s[j].track.uri == k;
    assert(j == i);
}

proof fn lemma_map_of_update(s: Seq<EntryView>, i: int, e: EntryView)
    requires
        uris_unique(s),
        0 <= i < s.len(),
        e.track.uri == s[i].track.uri,
    ensures
        uris_unique(s.update(i, e)),
        map_of(s.update(i, e)) == map_of(s).insert(e.track.uri, e),
{
    let t = s.update(i, e);
    assert(uris_unique(t));
    let lhs = map_of(t);
    let rhs = map_of(s).insert(e.track.uri, e);
    assert forall|k: Seq<char>| #[trigger] lhs.contains_key(k) <==> rhs.contains_key(k) by {
        if has_uri(t, k) {
            let j = choose|j: int| 0 <= j < t.len() && t[j].track.uri == k;
            if j != i {
                assert(s[j].track.uri == k);
            }
        }
        if has_uri(s, k) {
            let j = choose|j: int| 0 <= j < s.len() && s[j].track.uri == k;
            assert(t[j].track.uri == k);
        }
        if k == e.track.uri {
            assert(t[i].track.uri == k);
        }
    }
    assert forall|k: Seq<char>| #[trigger] lhs.contains_key(k) implies lhs[k] == rhs[k] by {
        let j = choose|j: int| 0 <= j < t.len() && t[j].track.uri == k;
        lemma_map_of_index(t, j);
        if j != i {
            lemma_map_of_index(s, j);
        }
    }
    assert(lhs =~= rhs);
}

proof fn lemma_map_of_push(s: Seq<EntryView>, e: EntryView)
    requires
        uris_unique(s),
        !has_uri(s, e.track.uri),
    ensures
        uris_unique(s.push(e)),
        map_of(s.push(e)) == map_of(s).insert(e.track.uri, e),
{
    let t = s.push(e);
    assert(uris_unique(t)) by {
        assert forall|i: int, j: int|
            0 <= i < t.len() && 0 <= j < t.len() && i != j implies t[i].track.uri
            != t[j].track.uri by {
            if i == s.len() {
                assert(!(s[j].track.uri == e.track.uri));
            } else if j == s.len() {
                assert(!(s[i].track.uri == e.track.uri));
            }
        }
    }
    let lhs = map_of(t);
    let rhs = map_of(s).insert(e.track.uri, e);
    assert forall|k: Seq<char>| #[trigger] lhs.contains_key(k) <==> rhs.contains_key(k) by {
        if has_uri(t, k) {
            let j = choose|j: int| 0 <= j < t.len() && t[j].track.uri == k;
            if j < s.len() {
                assert(s[j].track.uri == k);
            }
        }
        if has_uri(s, k) {
            let j = choose|j: int| 0 <= j < s.len() && s[j].track.uri == k;
            assert(t[j].track.uri == k);
        }
        if k == e.track.uri {
            assert(t[s.len() as int].track.uri == k);
        }
    }
    assert forall|k: Seq<char>| #[trigger] lhs.contains_key(k) implies lhs[k] == rhs[k] by {
        let j = choose|j: int| 0 <= j < t.len() && t[j].track.uri == k;
        lemma_map_of_index(t, j);
        if j < s.len() {
            lemma_map_of_index(s, j);
        }
    }
    assert(lhs =~= rhs);
}

/// The play history of every track observed so far, keyed by uri.
///
/// Entries are only ever added or extended, never removed.
pub struct TrackCache {
    entries: Vec<PlayHistoryEntry>,
}

impl TrackCache {
    /// The entries, in the order in which they were first stored.
    pub closed spec fn entry_views(&self) -> Seq<EntryView> {
        self.entries@.map_values(|e: PlayHistoryEntry| e@)
    }

    /// At most one entry per uri.
    pub closed spec fn wf(&self) -> bool {
        uris_unique(self.entry_views())
    }

    pub closed spec fn view(&self) -> Map<Seq<char>, EntryView> {
        map_of(self.entry_views())
    }

    /// The empty cache, used when no cache file exists.
    pub fn new() -> (r: TrackCache)
        ensures
            r.wf(),
            r@ == Map::<Seq<char>, EntryView>::empty(),
    {
        let r = TrackCache { entries: Vec::new() };
        assert(r@ =~= Map::<Seq<char>, EntryView>::empty());
        r
    }

    /// The number of distinct uris in the cache.
    pub fn len(&self) -> (r: usize)
        requires
            self.wf(),
        ensures
            r == self@.len(),
    {
        proof {
            self.lemma_dom_len();
        }
        self.entries.len()
    }

    proof fn lemma_dom_len(&self)
        requires
            self.wf(),
        ensures
            self@.dom().len() == self.entries@.len(),
            self@.dom().finite(),
    {
        let s = self.entry_views();
        let uris = s.map_values(|e: EntryView| e.track.uri);
        assert(uris.no_duplicates()) by {
            assert forall|i: int, j: int|
                0 <= i < uris.len() && 0 <= j < uris.len() && i != j implies uris[i]
                != uris[j] by {}
        }
        assert(self@.dom() =~= uris.to_set()) by {
            assert forall|k: Seq<char>| self@.dom().contains(k) <==> uris.to_set().contains(k) by {
                if has_uri(s, k) {
                    let j = choose|j: int| 0 <= j < s.len() && s[j].track.uri == k;
                    assert(uris[j] == k);
                }
                if uris.contains(k) {
                    let j = choose|j: int| 0 <= j < uris.len() && uris[j] == k;
                    assert(s[j].track.uri == k);
                }
            }
        }
        uris.unique_seq_to_set();
    }

    /// The index of the entry whose uri is `uri`, if there is one.
    fn find(&self, uri: &String) -> (r: Option<usize>)
        requires
            self.wf(),
        ensures
            r matches Some(i) ==> i < self.entries@.len() && self.entries@[i as int].track.uri@
                == uri@,
            r is None ==> !has_uri(self.entry_views(), uri@),
    {
        let mut i: usize = 0;
        while i < self.entries.len()
            invariant
                i <= self.entries@.len(),
                forall|j: int| 0 <= j < i ==> self.entries@[j].track.uri@ != uri@,
            decreases self.entries@.len() - i,
        {
            if self.entries[i].track.uri == *uri {
                return Some(i);
            }
            i = i + 1;
        }
        proof {
            let s = self.entry_views();
            if has_uri(s, uri@) {
                let j = choose|j: int| 0 <= j < s.len() && s[j].track.uri == uri@;
                assert(self.entries@[j].track.uri@ == uri@);
            }
        }
        None
    }

    /// Whether `uri` has an entry.
    pub fn contains(&self, uri: &String) -> (r: bool)
        requires
            self.wf(),
        ensures
            r == self@.contains_key(uri@),
    {
        match self.find(uri) {
            Some(i) => {
                proof {
                    lemma_map_of_index(self.entry_views(), i as int);
                }
                true
            },
            None => false,
        }
    }

    /// The stored form of the cache: one record per uri, keyed by it.
    pub fn to_records(&self) -> (r: Vec<(String, PlayHistoryEntry)>)
        requires
            self.wf(),
        ensures
            stores(record_views(r@), self@),
    {
        let mut out: Vec<(String, PlayHistoryEntry)> = Vec::new();
        let mut i: usize = 0;
        while i < self.entries.len()
            invariant
                i <= self.entries@.len(),
                keys_match(record_views(out@)),
                record_entries(record_views(out@)) == self.entry_views().take(i as int),
            decreases self.entries@.len() - i,
        {
            let entry = self.entries[i].clone();
            let key = self.entries[i].track.uri.clone();
            let ghost before = record_views(out@);
            out.push((key, entry));
            proof {
                assert(record_views(out@) =~= before.push((key@, entry@)));
                assert(record_entries(record_views(out@)) =~= record_entries(before).push(entry@));
                assert(entry@ == self.entry_views()[i as int]);
                assert(self.entry_views().take(i + 1) =~= self.entry_views().take(i as int).push(
                    self.entry_views()[i as int],
                ));
            }
            i = i + 1;
        }
        proof {
            assert(self.entry_views().take(i as int) =~= self.entry_views());
        }
        out
    }

    /// The cache that `records` store, or why they are not a stored cache.
    pub fn from_records(records: Vec<(String, PlayHistoryEntry)>) -> (r: Result<
        TrackCache,
        CacheError,
    >)
        ensures
            match r {
                Ok(c) => c.wf() && decode(record_views(records@)) == Ok::<
                    Map<Seq<char>, EntryView>,
                    CacheError,
                >(c@),
                Err(e) => decode(record_views(records@)) == Err::<
                    Map<Seq<char>, EntryView>,
                    CacheError,
                >(e),
            },
    {
        let ghost rv = record_views(records@);
        let mut i: usize = 0;
        while i < records.len()
            invariant
                i <= records@.len(),
                rv == record_views(records@),
                forall|j: int| 0 <= j < i ==> #[trigger] rv[j].0 == rv[j].1.track.uri,
            decreases records@.len() - i,
        {
            if records[i].0 != records[i].1.track.uri {
                proof {
                    assert(!(rv[i as int].0 == rv[i as int].1.track.uri));
                }
                return Err(CacheError::KeyMismatch);
            }
            i = i + 1;
        }
        assert(keys_match(rv));
        let mut entries: Vec<PlayHistoryEntry> = Vec::new();
        let mut rest = records;
        while rest.len() > 0
            invariant
                entries@.len() + rest@.len() == rv.len(),
                entries@.map_values(|e: PlayHistoryEntry| e@) == record_entries(rv).take(
                    entries@.len() as int,
                ),
                record_views(rest@) == rv.skip(entries@.len() as int),
            decreases rest@.len(),
        {
            let ghost k = entries@.len() as int;
            let ghost old_rest = rest@;
            let (_key, entry) = rest.remove(0);
            let ghost old_entries = entries@;
            entries.push(entry);
            proof {
                assert(record_views(old_rest)[0] == rv.skip(k)[0]);
                assert(entry@ == rv[k].1);
                assert(rest@ =~= old_rest.subrange(1, old_rest.len() as int));
                assert(entries@.map_values(|e: PlayHistoryEntry| e@) =~= record_entries(rv).take(
                    k + 1,
                ));
                assert forall|j: int| 0 <= j < rest@.len() implies record_views(rest@)[j] == rv.skip(
                    k + 1,
                )[j] by {
                    assert(rest@[j] == old_rest[j + 1]);
                    assert(record_views(old_rest)[j + 1] == rv.skip(k)[j + 1]);
                }
                assert(record_views(rest@) =~= rv.skip(k + 1));
            }
        }
        proof {
            assert(record_entries(rv).take(entries@.len() as int) =~= record_entries(rv));
        }
        let c = TrackCache { entries };
        if c.uris_distinct() {
            Ok(c)
        } else {
            Err(CacheError::DuplicateUri)
        }
    }

    /// Whether no two entries share a uri.
    fn uris_distinct(&self) -> (r: bool)
        ensures
            r == self.wf(),
    {
        let ghost s = self.entry_views();
        let mut i: usize = 0;
        while i < self.entries.len()
            invariant
                i <= self.entries@.len(),
                s == self.entry_views(),
                forall|a: int, b: int|
                    0 <= a < i && 0 <= b < s.len() && a != b ==> s[a].track.uri != s[b].track.uri,
            decreases self.entries@.len() - i,
        {
            let mut j: usize = 0;
            while j < self.entries.len()
                invariant
                    i < self.entries@.len(),
                    j <= self.entries@.len(),
                    s == self.entry_views(),
                    forall|a: int, b: int|
                        0 <= a < i && 0 <= b < s.len() && a != b ==> s[a].track.uri
                            != s[b].track.uri,
                    forall|b: int| 0 <= b < j && b != i ==> s[i as int].track.uri != s[b].track.uri,
                decreases self.entries@.len() - j,
            {
                if j != i && self.entries[i].track.uri == self.entries[j].track.uri {
                    proof {
                        assert(s[i as int].track.uri == s[j as int].track.uri);
                    }
                    return false;
                }
                j = j + 1;
            }
            i = i + 1;
        }
        proof {
            assert forall|a: int, b: int|
                0 <= a < s.len() && 0 <= b < s.len() && a != b implies s[a].track.uri
                != s[b].track.uri by {}
        }
        true
    }

    /// Every cached track, once each, for replaying them at start.
    pub fn tracks(&self) -> (r: Vec<Track>)
        requires
            self.wf(),
        ensures
            r@.len() == self@.len(),
            forall|i: int|
                0 <= i < r@.len() ==> self@.contains_key((#[trigger] r@[i])@.uri) && r@[i]@
                    == self@[r@[i]@.uri].track,
            forall|i: int, j: int|
                0 <= i < r@.len() && 0 <= j < r@.len() && i != j ==> r@[i]@.uri != r@[j]@.uri,
    {
        proof {
            self.lemma_dom_len();
        }
        let ghost s = self.entry_views();
        let mut out: Vec<Track> = Vec::new();
        let mut i: usize = 0;
        while i < self.entries.len()
            invariant
                i <= self.entries@.len(),
                s == self.entry_views(),
                uris_unique(s),
                out@.len() == i,
                forall|j: int| 0 <= j < i ==> (#[trigger] out@[j])@ == s[j].track,
            decreases self.entries@.len() - i,
        {
            out.push(self.entries[i].track.clone());
            i = i + 1;
        }
        proof {
            assert forall|j: int| 0 <= j < out@.len() implies self@.contains_key(
                (#[trigger] out@[j])@.uri,
            ) && out@[j]@ == self@[out@[j]@.uri].track by {
                lemma_map_of_index(s, j);
            }
        }
        out
    }

    /// Records that `track` was observed at `now`.
    ///
    /// A new uri gets an entry seeded with `now`; a known uri gets `now` appended to its
    /// history. Nothing is ever removed.
    pub fn record(&mut self, track: Track, now: i64) -> (r: ObservationResult)
        requires
            old(self).wf(),
        ensures
            final(self).wf(),
            r == observation(old(self)@, track@),
            final(self)@ == recorded(old(self)@, track@, now),
    {
        let found = self.find(&track.uri);
        let ghost s = self.entry_views();
        match found {
            Some(i) => {
                proof {
                    lemma_map_of_index(s, i as int);
                }
                let mut entry = self.entries.remove(i);
                entry.play_history.push(now);
                self.entries.insert(i, entry);
                proof {
                    let e = EntryView { track: s[i as int].track, history: s[i as int].history.push(now) };
                    assert(self.entry_views() =~= s.update(i as int, e));
                    lemma_map_of_update(s, i as int, e);
                }
                ObservationResult::RepeatObservation
            },
            None => {
                let mut history: Vec<i64> = Vec::new();
                history.push(now);
                let entry = PlayHistoryEntry { track, play_history: history };
                self.entries.push(entry);
                proof {
                    assert(entry@.history =~= seq![now]);
                    assert(self.entry_views() =~= s.push(entry@));
                    lemma_map_of_push(s, entry@);
                }
                ObservationResult::NewTrack
            },
        }
    }
}

} // verus!
