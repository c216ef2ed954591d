use sonotube::cache::TrackCache;
use sonotube::config::Config;
use sonotube::sonotube::{SonoTube, Sweep, POLL_INTERVAL_SECS};
use sonotube::track::Track;
use std::time::Duration;

fn track(uri: &str) -> Track {
    Track {
        title: format!("title {uri}"),
        artist: "artist".to_string(),
        album: None,
        queue_position: 0,
        uri: uri.to_string(),
        duration: Duration::from_secs(200),
        running_time: Duration::from_secs(5),
    }
}

fn config(forward: bool, replay: bool) -> Config {
    let mut c = Config::new();
    c.create_sonotube_playlist = Some(forward);
    c.send_previous_tracks = Some(replay);
    c
}

#[test]
fn default_config_disables_everything() {
    let c = Config::new();
    assert!(c.api_key.is_none());
    assert!(!c.create_play_list());
    assert!(!c.send_previous_tracks());
    assert!(config(true, false).create_play_list());
    assert!(!config(true, false).send_previous_tracks());
    assert!(config(false, true).send_previous_tracks());
}

#[test]
fn poll_interval_is_thirty_seconds() {
    assert_eq!(30, POLL_INTERVAL_SECS);
}

#[test]
fn new_track_is_forwarded_when_enabled() {
    let mut poller = SonoTube::new(config(true, false), TrackCache::new());
    let mut sweep = Sweep::new();
    let forwarded = poller.observe(&mut sweep, track("u1"), 10);
    assert_eq!("u1", forwarded.unwrap().uri);
    assert!(sweep.needs_save());
    assert_eq!(1, poller.tracks().len());
}

#[test]
fn new_track_is_not_forwarded_when_disabled() {
    let mut poller = SonoTube::new(config(false, false), TrackCache::new());
    let mut sweep = Sweep::new();
    assert!(poller.observe(&mut sweep, track("u1"), 10).is_none());
    assert_eq!(1, poller.tracks().len());
}

#[test]
fn adjacent_repeat_in_a_sweep_is_skipped() {
    let mut poller = SonoTube::new(config(true, false), TrackCache::new());
    let mut sweep = Sweep::new();
    assert!(poller.observe(&mut sweep, track("u1"), 10).is_some());
    assert!(poller.observe(&mut sweep, track("u1"), 11).is_none());
    let records = poller.tracks().to_records();
    assert_eq!(vec![10], records[0].1.play_history);
}

#[test]
fn non_adjacent_repeat_is_recorded_but_not_forwarded() {
    let mut poller = SonoTube::new(config(true, false), TrackCache::new());
    let mut sweep = Sweep::new();
    assert!(poller.observe(&mut sweep, track("u1"), 10).is_some());
    assert!(poller.observe(&mut sweep, track("u2"), 11).is_some());
    assert!(poller.observe(&mut sweep, track("u1"), 12).is_none());
    for (key, entry) in poller.tracks().to_records() {
        if key == "u1" {
            assert_eq!(vec![10, 12], entry.play_history);
        }
    }
}

#[test]
fn next_sweep_records_the_same_track_again() {
    let mut poller = SonoTube::new(config(true, false), TrackCache::new());
    let mut first = Sweep::new();
    assert!(poller.observe(&mut first, track("u1"), 10).is_some());
    let mut second = Sweep::new();
    assert!(poller.observe(&mut second, track("u1"), 40).is_none());
    assert!(second.needs_save());
    assert_eq!(vec![10, 40], poller.tracks().to_records()[0].1.play_history);
}

#[test]
fn sweep_without_tracks_needs_no_save() {
    let sweep = Sweep::new();
    assert!(!sweep.needs_save());
    assert!(sweep.last_uri.is_none());
}

#[test]
fn observe_now_records_a_timestamp() {
    let mut poller = SonoTube::new(config(true, false), TrackCache::new());
    let mut sweep = Sweep::new();
    assert!(poller.observe_now(&mut sweep, track("u1")).is_some());
    let history = poller.tracks().to_records()[0].1.play_history.clone();
    assert_eq!(1, history.len());
    assert!(history[0] > 1_600_000_000);
}

#[test]
fn cached_tracks_are_replayed_only_when_enabled() {
    let mut cache = TrackCache::new();
    cache.record(track("u1"), 1);
    cache.record(track("u2"), 2);
    let records = cache.to_records();
    let replaying = SonoTube::new(config(false, true), TrackCache::from_records(records).unwrap());
    assert_eq!(2, replaying.replayed_tracks().len());
    let quiet = SonoTube::new(config(false, false), cache);
    assert!(quiet.replayed_tracks().is_empty());
}
