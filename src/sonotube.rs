use crate::cache::{observation, recorded, EntryView, ObservationResult, TrackCache};
use crate::clock::unix_timestamp;
use crate::config::Config;
use crate::track::Track;
use vstd::prelude::*;

verus! {

/// Seconds the poller sleeps between two sweeps over the players.
pub const POLL_INTERVAL_SECS: u64 = 30;

/// What one sweep over the players has seen so far.
///
/// A sweep starts afresh: the track-change check compares a player's track with the one
/// recorded just before it in the same sweep only.
#[derive(Debug)]
pub struct Sweep {
    /// The uri of the last track recorded in this sweep.
    pub last_uri: Option<String>,
    /// Whether this sweep added or extended a cache entry.
    pub changed: bool,
}

impl Sweep {
    pub fn new() -> (r: Sweep)
        ensures
            r.last_uri is None,
            !r.changed,
    {
        Sweep { last_uri: None, changed: false }
    }

    /// Whether the cache must be written out after this sweep.
    pub fn needs_save(&self) -> (r: bool)
        ensures
            r == self.changed,
    {
        self.changed
    }
}

/// The poller: the play-history cache and the options that decide what is forwarded to
/// the playlist session.
pub struct SonoTube {
    tracks: TrackCache,
    config: Config,
}

impl SonoTube {
    pub closed spec fn wf(&self) -> bool {
        self.tracks.wf()
    }

    /// The cache, keyed by uri.
    pub closed spec fn cache(&self) -> Map<Seq<char>, EntryView> {
        self.tracks@
    }

    /// Whether tracks heard for the first time are forwarded to the playlist session.
    pub closed spec fn forwards_new(&self) -> bool {
        self.config.create_sonotube_playlist == Some(true)
    }

    /// Whether the cached tracks are replayed to the playlist session at start.
    pub closed spec fn replays_cached(&self) -> bool {
        self.config.send_previous_tracks == Some(true)
    }

    /// A poller that starts from the loaded cache `tracks`.
    pub fn new(config: Config, tracks: TrackCache) -> (r: SonoTube)
        requires
            tracks.wf(),
        ensures
            r.wf(),
            r.cache() == tracks@,
            r.forwards_new() == (config.create_sonotube_playlist == Some(true)),
            r.replays_cached() == (config.send_previous_tracks == Some(true)),
    {
        SonoTube { tracks, config }
    }

    /// The cache, to be written out.
    pub fn tracks(&self) -> (r: &TrackCache)
        ensures
            r.wf() == self.wf(),
            r@ == self.cache(),
    {
        &self.tracks
    }

    /// The tracks to hand to the playlist session before the first sweep: every cached
    /// track once when replaying is enabled, none otherwise.
    pub fn replayed_tracks(&self) -> (r: Vec<Track>)
        requires
            self.wf(),
        ensures
            !self.replays_cached() ==> r@.len() == 0,
            self.replays_cached() ==> {
                &&& r@.len() == self.cache().len()
                &&& forall|i: int|
                    0 <= i < r@.len() ==> self.cache().contains_key((#[trigger] r@[i])@.uri)
                        && r@[i]@ == self.cache()[r@[i]@.uri].track
                &&& forall|i: int, j: int|
                    0 <= i < r@.len() && 0 <= j < r@.len() && i != j ==> r@[i]@.uri
                        != r@[j]@.uri
            },
    {
        if self.config.send_previous_tracks() {
            self.tracks.tracks()
        } else {
            Vec::new()
        }
    }

    /// Handles the track that a player reported during `sweep`, observed at `now`.
    ///
    /// A track with the same uri as the one recorded just before it in the sweep is
    /// skipped. Any other is recorded in the cache; it is returned, to be forwarded to the
    /// playlist session, when its uri was new and forwarding is enabled.
    pub fn observe(&mut self, sweep: &mut Sweep, track: Track, now: i64) -> (r: Option<Track>)
        requires
            old(self).wf(),
        ensures
            final(self).wf(),
            final(self).forwards_new() == old(self).forwards_new(),
            final(self).replays_cached() == old(self).replays_cached(),
            old(sweep).last_uri.deep_view() == Some(track@.uri) ==> {
                &&& final(self).cache() == old(self).cache()
                &&& *final(sweep) == *old(sweep)
                &&& r is None
            },
            old(sweep).last_uri.deep_view() != Some(track@.uri) ==> {
                &&& final(self).cache() == recorded(old(self).cache(), track@, now)
                &&& final(sweep).last_uri.deep_view() == Some(track@.uri)
                &&& final(sweep).changed
                &&& r == if old(self).forwards_new() && observation(old(self).cache(), track@)
                    == ObservationResult::NewTrack {
                    Some(track)
                } else {
                    None::<Track>
                }
            },
    {
        let repeated = match &sweep.last_uri {
            Some(last) => *last == track.uri,
            None => false,
        };
        if repeated {
            return None;
        }
        sweep.last_uri = Some(track.uri.clone());
        sweep.changed = true;
        let copy = track.clone();
        let seen = self.tracks.record(copy, now);
        if seen == ObservationResult::NewTrack && self.config.create_play_list() {
            Some(track)
        } else {
            None
        }
    }

    /// `observe`, at the current time.
    pub fn observe_now(&mut self, sweep: &mut Sweep, track: Track) -> (r: Option<Track>)
        requires
            old(self).wf(),
        ensures
            final(self).wf(),
            final(self).forwards_new() == old(self).forwards_new(),
            final(self).replays_cached() == old(self).replays_cached(),
            old(sweep).last_uri.deep_view() == Some(track@.uri) ==> {
                &&& final(self).cache() == old(self).cache()
                &&& *final(sweep) == *old(sweep)
                &&& r is None
            },
            old(sweep).last_uri.deep_view() != Some(track@.uri) ==> {
                &&& exists|now: i64| final(self).cache() == recorded(old(self).cache(), track@, now)
                &&& final(sweep).last_uri.deep_view() == Some(track@.uri)
                &&& final(sweep).changed
                &&& r == if old(self).forwards_new() && observation(old(self).cache(), track@)
                    == ObservationResult::NewTrack {
                    Some(track)
                } else {
                    None::<Track>
                }
            },
    {
        let now = unix_timestamp();
        self.observe(sweep, track, now)
    }
}

} // verus!
