use crate::models::{TubeTrack, TubeTrackView};
use crate::tube::{step, Action, ActionView, Event, OutcomeView, Tube};
use vstd::prelude::*;

verus! {

/// A batch submitted to the control surface: a playlist title, its description and the
/// tracks to put in it.
#[derive(Debug)]
pub struct Playlist {
    pub title: String,
    pub description: String,
    pub tracks: Vec<TubeTrack>,
}

/// `t` answered with the video it was resolved to, if any.
pub open spec fn answered(t: TubeTrackView, video_id: Option<Seq<char>>) -> TubeTrackView {
    TubeTrackView { video_id, ..t }
}

/// The video that a finishing action resolved its track to: the appended one, else none.
pub open spec fn resolved_video(a: ActionView) -> Option<Seq<char>> {
    match a {
        ActionView::Finish(OutcomeView::Appended(v)) => Some(v),
        _ => None,
    }
}

/// A batch being worked through, one track after the other, in the order given.
pub struct PlaylistRun {
    title: String,
    description: String,
    tracks: Vec<TubeTrack>,
    processed: Vec<TubeTrack>,
}

impl PlaylistRun {
    pub closed spec fn title_view(&self) -> Seq<char> {
        self.title@
    }

    pub closed spec fn description_view(&self) -> Seq<char> {
        self.description@
    }

    /// The tracks of the batch.
    pub closed spec fn tracks_view(&self) -> Seq<TubeTrackView> {
        self.tracks@.map_values(|t: TubeTrack| t@)
    }

    /// The answers so far, one per finished track, in the batch's order.
    pub closed spec fn answers(&self) -> Seq<TubeTrackView> {
        self.processed@.map_values(|t: TubeTrack| t@)
    }

    /// Every answer is its track, with a video or none.
    pub open spec fn wf(&self) -> bool {
        &&& self.answers().len() <= self.tracks_view().len()
        &&& forall|i: int|
            0 <= i < self.answers().len() ==> (#[trigger] self.answers()[i]).id
                == self.tracks_view()[i].id && self.answers()[i].title
                == self.tracks_view()[i].title && self.answers()[i].artist
                == self.tracks_view()[i].artist
    }

    /// Whether every track has its answer.
    pub open spec fn done(&self) -> bool {
        self.answers().len() == self.tracks_view().len()
    }

    /// A run over the batch, with no track answered yet.
    pub fn new(playlist: Playlist) -> (r: PlaylistRun)
        ensures
            r.wf(),
            r.title_view() == playlist.title@,
            r.description_view() == playlist.description@,
            r.tracks_view() == playlist.tracks@.map_values(|t: TubeTrack| t@),
            r.answers().len() == 0,
    {
        PlaylistRun {
            title: playlist.title,
            description: playlist.description,
            tracks: playlist.tracks,
            processed: Vec::new(),
        }
    }

    pub fn is_done(&self) -> (r: bool)
        requires
            self.wf(),
        ensures
            r == self.done(),
    {
        self.processed.len() == self.tracks.len()
    }

    /// The answers: every track of the batch, in order, with the video it was resolved
    /// to or none.
    pub fn into_tracks(self) -> (r: Vec<TubeTrack>)
        ensures
            r@.map_values(|t: TubeTrack| t@) == self.answers(),
    {
        self.processed
    }
}

/// The control surface's state: the playlist session that batches and the poller's
/// tracks go through, so that both share one set of seen ids.
#[derive(Debug)]
pub struct TopTastic {
    pub tube: Tube,
}

impl TopTastic {
    pub fn new() -> (r: TopTastic)
        ensures
            r.tube@ == crate::tube::fresh_session(),
    {
        TopTastic { tube: Tube::new() }
    }

    /// One step of a batch: `event` is what was learned for the batch's current track
    /// (`Event::Arrived` when it is taken up). Returns the session's next action for that
    /// track, or none once every track is answered. When the action finishes the track,
    /// its answer is recorded: the track with its appended video, or with none.
    pub fn create_playlist(&mut self, run: &mut PlaylistRun, event: Event) -> (r: Option<Action>)
        requires
            old(run).wf(),
        ensures
            final(run).wf(),
            final(run).title_view() == old(run).title_view(),
            final(run).description_view() == old(run).description_view(),
            final(run).tracks_view() == old(run).tracks_view(),
            old(run).done() ==> r is None && final(self).tube@ == old(self).tube@
                && final(run).answers() == old(run).answers(),
            !old(run).done() ==> {
                let t = old(run).tracks_view()[old(run).answers().len() as int];
                let (s, a) = step(
                    old(self).tube@,
                    t,
                    old(run).title_view(),
                    old(run).description_view(),
                    event@,
                );
                &&& final(self).tube@ == s
                &&& r matches Some(act) && act@ == a
                &&& final(run).answers() == if a is Finish {
                    old(run).answers().push(answered(t, resolved_video(a)))
                } else {
                    old(run).answers()
                }
            },
    {
        if run.processed.len() == run.tracks.len() {
            return None;
        }
        let k = run.processed.len();
        let action = self.tube.process_track(&run.tracks[k], run.title.as_str(), run.description.as_str(), event);
        if let Action::Finish(outcome) = &action {
            let answer = run.tracks[k].with_video_id(outcome.video_id());
            let ghost before = run.answers();
            run.processed.push(answer);
            proof {
                assert(run.answers() =~= before.push(answer@));
            }
        }
        Some(action)
    }
}

} // verus!
