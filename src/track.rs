use crate::models::{clone_opt_string, TubeTrack};
use core::time::Duration;
use vstd::prelude::*;

verus! {

/// One track heard on a player. Its identity is `uri`.
#[derive(Debug)]
pub struct Track {
    pub title: String,
    pub artist: String,
    pub album: Option<String>,
    pub queue_position: u64,
    pub uri: String,
    pub duration: Duration,
    pub running_time: Duration,
}

pub struct TrackView {
    pub title: Seq<char>,
    pub artist: Seq<char>,
    pub album: Option<Seq<char>>,
    pub queue_position: u64,
    pub uri: Seq<char>,
    pub duration: Duration,
    pub running_time: Duration,
}

impl View for Track {
    type V = TrackView;

    open spec fn view(&self) -> TrackView {
        TrackView {
            title: self.title@,
            artist: self.artist@,
            album: self.album.deep_view(),
            queue_position: self.queue_position,
            uri: self.uri@,
            duration: self.duration,
            running_time: self.running_time,
        }
    }
}

impl Clone for Track {
    fn clone(&self) -> (r: Self)
        ensures
            r == *self,
    {
        Track {
            title: self.title.clone(),
            artist: self.artist.clone(),
            album: clone_opt_string(&self.album),
            queue_position: self.queue_position,
            uri: self.uri.clone(),
            duration: self.duration,
            running_time: self.running_time,
        }
    }
}

impl From<Track> for TubeTrack {
    fn from(track: Track) -> (r: TubeTrack) {
        TubeTrack { id: track.uri, title: track.title, artist: track.artist, video_id: None }
    }
}

impl vstd::std_specs::convert::FromSpecImpl<Track> for TubeTrack {
    open spec fn obeys_from_spec() -> bool {
        true
    }

    open spec fn from_spec(track: Track) -> TubeTrack {
        TubeTrack { id: track.uri, title: track.title, artist: track.artist, video_id: None }
    }
}

} // verus!
