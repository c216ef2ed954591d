use crate::clock::local_time_label;
use crate::track::Track;
use crate::models::{clone_opt_string, search_query, TubeTrack, TubeTrackView};
use vstd::prelude::*;
use vstd::string::StringExecFns;

verus! {

/// What the caller learned since the previous step of a track's processing.
#[derive(Debug)]
pub enum Event {
    /// The track was just taken up.
    Arrived,
    /// The answer to `Action::Authenticate`: a bearer token, or none when it could not be had.
    TokenObtained(Option<String>),
    /// The answer to `Action::InsertPlaylist`: the new playlist's id, or none on failure.
    PlaylistInserted(Option<String>),
    /// The answer to `Action::Search`: the first result's video id, or none.
    SearchAnswered(Option<String>),
    /// `Action::Append` was performed (whatever the catalog answered) for this video.
    VideoAppended(String),
}

/// How the processing of a track ended.
#[derive(Debug)]
pub enum Outcome {
    /// The video was appended to the playlist.
    Appended(String),
    /// The search found no video; the track is dropped.
    Unresolved,
    /// The track's id was already submitted in this session; it is skipped.
    AlreadyProcessed,
    /// No playlist could be created; the track is dropped.
    NoPlaylist,
    /// No token could be had; the track is dropped.
    NotAuthorized,
}

/// What the caller is to do next for the track.
#[derive(Debug)]
pub enum Action {
    /// Obtain a bearer token, then report `Event::TokenObtained`.
    Authenticate,
    /// Create a private playlist, then report `Event::PlaylistInserted`.
    InsertPlaylist { token: String, title: String, description: String },
    /// Search the catalog for `query`, then report `Event::SearchAnswered` with the first
    /// result only.
    Search { query: String },
    /// Append the video to the playlist, then report `Event::VideoAppended`.
    Append { token: String, playlist_id: String, video_id: String },
    /// Nothing more to do for this track.
    Finish(Outcome),
}

pub enum EventView {
    Arrived,
    TokenObtained(Option<Seq<char>>),
    PlaylistInserted(Option<Seq<char>>),
    SearchAnswered(Option<Seq<char>>),
    VideoAppended(Seq<char>),
}

pub enum OutcomeView {
    Appended(Seq<char>),
    Unresolved,
    AlreadyProcessed,
    NoPlaylist,
    NotAuthorized,
}

pub enum ActionView {
    Authenticate,
    InsertPlaylist { token: Seq<char>, title: Seq<char>, description: Seq<char> },
    Search { query: Seq<char> },
    Append { token: Seq<char>, playlist_id: Seq<char>, video_id: Seq<char> },
    Finish(OutcomeView),
}

impl View for Event {
    type V = EventView;

    open spec fn view(&self) -> EventView {
        match self {
            Event::Arrived => EventView::Arrived,
            Event::TokenObtained(t) => EventView::TokenObtained(t.deep_view()),
            Event::PlaylistInserted(p) => EventView::PlaylistInserted(p.deep_view()),
            Event::SearchAnswered(v) => EventView::SearchAnswered(v.deep_view()),
            Event::VideoAppended(v) => EventView::VideoAppended(v@),
        }
    }
}

impl View for Outcome {
    type V = OutcomeView;

    open spec fn view(&self) -> OutcomeView {
        match self {
            Outcome::Appended(v) => OutcomeView::Appended(v@),
            Outcome::Unresolved => OutcomeView::Unresolved,
            Outcome::AlreadyProcessed => OutcomeView::AlreadyProcessed,
            Outcome::NoPlaylist => OutcomeView::NoPlaylist,
            Outcome::NotAuthorized => OutcomeView::NotAuthorized,
        }
    }
}

impl View for Action {
    type V = ActionView;

    open spec fn view(&self) -> ActionView {
        match self {
            Action::Authenticate => ActionView::Authenticate,
            Action::InsertPlaylist { token, title, description } => ActionView::InsertPlaylist {
                token: token@,
                title: title@,
                description: description@,
            },
            Action::Search { query } => ActionView::Search { query: query@ },
            Action::Append { token, playlist_id, video_id } => ActionView::Append {
                token: token@,
                playlist_id: playlist_id@,
                video_id: video_id@,
            },
            Action::Finish(o) => ActionView::Finish(o@),
        }
    }
}

impl Outcome {
    /// The video the track was resolved to, when it was appended.
    pub fn video_id(&self) -> (r: Option<String>)
        ensures
            r.deep_view() == match self@ {
                OutcomeView::Appended(v) => Some(v),
                _ => None::<Seq<char>>,
            },
    {
        match self {
            Outcome::Appended(v) => Some(v.clone()),
            _ => None,
        }
    }
}

/// The playlist session as plain values.
pub struct SessionView {
    /// The ids already submitted to the catalog in this session.
    pub seen: Set<Seq<char>>,
    pub token: Option<Seq<char>>,
    pub playlist_id: Option<Seq<char>>,
}

/// The session before any track: nothing seen, no token, no playlist.
pub open spec fn fresh_session() -> SessionView {
    SessionView { seen: Set::empty(), token: None, playlist_id: None }
}

/// Append `video` to the session's playlist, when there is a token and a playlist.
pub open spec fn append_action(s: SessionView, video: Seq<char>) -> ActionView {
    match (s.token, s.playlist_id) {
        (Some(token), Some(playlist_id)) => ActionView::Append {
            token,
            playlist_id,
            video_id: video,
        },
        _ => ActionView::Finish(OutcomeView::NoPlaylist),
    }
}

/// Take the track up once the session has a token and a playlist: skip an id already
/// seen; otherwise mark it seen and go to the append when the video is known, to the
/// search when it is not.
pub open spec fn take_up(s: SessionView, t: TubeTrackView) -> (SessionView, ActionView) {
    if s.seen.contains(t.id) {
        (s, ActionView::Finish(OutcomeView::AlreadyProcessed))
    } else {
        let s2 = SessionView { seen: s.seen.insert(t.id), ..s };
        match t.video_id {
            Some(v) => (s2, append_action(s2, v)),
            None => (s2, ActionView::Search { query: search_query(t) }),
        }
    }
}

/// Get a token first, then a playlist, then take the track up.
pub open spec fn prepare(s: SessionView, t: TubeTrackView, title: Seq<char>, description: Seq<char>) -> (
    SessionView,
    ActionView,
) {
    match s.token {
        None => (s, ActionView::Authenticate),
        Some(token) => match s.playlist_id {
            None => (s, ActionView::InsertPlaylist { token, title, description }),
            Some(_) => take_up(s, t),
        },
    }
}

/// One step of processing track `t` in session `s`: the next session and what to do.
pub open spec fn step(
    s: SessionView,
    t: TubeTrackView,
    title: Seq<char>,
    description: Seq<char>,
    e: EventView,
) -> (SessionView, ActionView) {
    match e {
        EventView::Arrived => prepare(s, t, title, description),
        EventView::TokenObtained(Some(token)) => prepare(
            SessionView { token: Some(token), ..s },
            t,
            title,
            description,
        ),
        EventView::TokenObtained(None) => (s, ActionView::Finish(OutcomeView::NotAuthorized)),
        EventView::PlaylistInserted(Some(id)) => prepare(
            if s.playlist_id is None {
                SessionView { playlist_id: Some(id), ..s }
            } else {
                s
            },
            t,
            title,
            description,
        ),
        EventView::PlaylistInserted(None) => (s, ActionView::Finish(OutcomeView::NoPlaylist)),
        EventView::SearchAnswered(Some(v)) => (s, append_action(s, v)),
        EventView::SearchAnswered(None) => (s, ActionView::Finish(OutcomeView::Unresolved)),
        EventView::VideoAppended(v) => (s, ActionView::Finish(OutcomeView::Appended(v))),
    }
}

/// An event that begins a track or readies the session for it, as opposed to an answer
/// about the track's own video.
pub open spec fn is_setup_event(e: EventView) -> bool {
    e is Arrived || e is TokenObtained || e is PlaylistInserted
}

/// Whether an action hands the track to the catalog.
pub open spec fn submits(a: ActionView) -> bool {
    a is Search || a is Append
}

/// One step of a session's history: a track, its playlist's title and description, and
/// the event reported for it.
pub struct StepInput {
    pub track: TubeTrackView,
    pub title: Seq<char>,
    pub description: Seq<char>,
    pub event: EventView,
}

/// The session after the steps `steps`, taken in order from `s`.
pub open spec fn run(s: SessionView, steps: Seq<StepInput>) -> SessionView
    decreases steps.len(),
{
    if steps.len() == 0 {
        s
    } else {
        let p = steps.last();
        step(run(s, steps.drop_last()), p.track, p.title, p.description, p.event).0
    }
}

/// The action that step `i` of `steps` yields, in the session that the earlier steps left.
pub open spec fn action_at(s: SessionView, steps: Seq<StepInput>, i: int) -> ActionView {
    let p = steps[i];
    step(run(s, steps.take(i)), p.track, p.title, p.description, p.event).1
}

/// Step `i` of `steps` takes its track up and hands it to the catalog.
pub open spec fn submits_at(s: SessionView, steps: Seq<StepInput>, i: int) -> bool {
    is_setup_event(steps[i].event) && submits(action_at(s, steps, i))
}

/// A step never forgets: the seen ids stay, a token stays, the playlist stays the same.
proof fn lemma_step_keeps(
    s: SessionView,
    t: TubeTrackView,
    title: Seq<char>,
    description: Seq<char>,
    e: EventView,
)
    ensures
        s.seen.subset_of(step(s, t, title, description, e).0.seen),
        s.token is Some ==> step(s, t, title, description, e).0.token is Some,
        s.playlist_id is Some ==> step(s, t, title, description, e).0.playlist_id
            == s.playlist_id,
{
}

/// A step that takes its track up and submits it marks the id seen, and leaves a session
/// with a token and a playlist.
proof fn lemma_submission_marks_seen(
    s: SessionView,
    t: TubeTrackView,
    title: Seq<char>,
    description: Seq<char>,
    e: EventView,
)
    requires
        is_setup_event(e),
        submits(step(s, t, title, description, e).1),
    ensures
        !s.seen.contains(t.id),
        step(s, t, title, description, e).0.seen.contains(t.id),
        step(s, t, title, description, e).0.token is Some,
        step(s, t, title, description, e).0.playlist_id is Some,
{
}

proof fn lemma_run_keeps(s: SessionView, steps: Seq<StepInput>, a: int, b: int)
    requires
        0 <= a <= b <= steps.len(),
    ensures
        run(s, steps.take(a)).seen.subset_of(run(s, steps.take(b)).seen),
        run(s, steps.take(a)).token is Some ==> run(s, steps.take(b)).token is Some,
        run(s, steps.take(a)).playlist_id is Some ==> run(s, steps.take(b)).playlist_id == run(
            s,
            steps.take(a),
        ).playlist_id,
    decreases b - a,
{
    if a < b {
        lemma_run_keeps(s, steps, a, b - 1);
        let p = steps[b - 1];
        assert(steps.take(b).drop_last() =~= steps.take(b - 1));
        lemma_step_keeps(run(s, steps.take(b - 1)), p.track, p.title, p.description, p.event);
    }
}

/// Within one session an id is handed to the catalog at most once: after a step has
/// taken a track up and submitted it, no later step that takes up a track with the same
/// id submits it again.
pub proof fn lemma_id_submitted_once(s: SessionView, steps: Seq<StepInput>, i: int, j: int)
    requires
        0 <= i < j < steps.len(),
        submits_at(s, steps, i),
        steps[j].track.id == steps[i].track.id,
    ensures
        !submits_at(s, steps, j),
{
    let p = steps[i];
    lemma_submission_marks_seen(run(s, steps.take(i)), p.track, p.title, p.description, p.event);
    assert(steps.take(i + 1).drop_last() =~= steps.take(i));
    lemma_run_keeps(s, steps, i + 1, j);
    let q = steps[j];
    let sj = run(s, steps.take(j));
    assert(sj.seen.contains(q.track.id));
    if is_setup_event(q.event) {
        lemma_step_keeps(sj, q.track, q.title, q.description, q.event);
        if submits(action_at(s, steps, j)) {
            lemma_submission_marks_seen(sj, q.track, q.title, q.description, q.event);
        }
    }
}

/// A track that carries its video is never searched for, and in a session with a token
/// and a playlist its first step appends that very video (when its id is new).
pub proof fn lemma_known_video_skips_search(
    s: SessionView,
    t: TubeTrackView,
    title: Seq<char>,
    description: Seq<char>,
    e: EventView,
)
    requires
        t.video_id is Some,
    ensures
        !(step(s, t, title, description, e).1 is Search),
        !s.seen.contains(t.id) && s.token is Some && s.playlist_id is Some ==> step(
            s,
            t,
            title,
            description,
            EventView::Arrived,
        ).1 == (ActionView::Append {
            token: s.token->0,
            playlist_id: s.playlist_id->0,
            video_id: t.video_id->0,
        }),
{
}

/// A track forwarded by the poller and submitted is already processed for a later batch
/// of the control surface in the same session: a batch track with that id is neither
/// searched for nor appended, and on arrival it ends as already processed.
pub proof fn lemma_batch_skips_forwarded_track(
    s: SessionView,
    steps: Seq<StepInput>,
    i: int,
    j: int,
    live: Track,
)
    requires
        0 <= i < j < steps.len(),
        steps[i].track == <TubeTrack as vstd::std_specs::convert::FromSpec<Track>>::from_spec(
            live,
        )@,
        submits_at(s, steps, i),
        steps[j].track.id == live.uri@,
    ensures
        !submits_at(s, steps, j),
        steps[j].event is Arrived ==> action_at(s, steps, j) == ActionView::Finish(
            OutcomeView::AlreadyProcessed,
        ),
{
    lemma_id_submitted_once(s, steps, i, j);
    let p = steps[i];
    lemma_submission_marks_seen(run(s, steps.take(i)), p.track, p.title, p.description, p.event);
    assert(steps.take(i + 1).drop_last() =~= steps.take(i));
    lemma_run_keeps(s, steps, i + 1, j);
}

/// The title and description of a playlist made by `creator` at local time `now`.
pub open spec fn title_and_description_of(creator: Seq<char>, now: Seq<char>) -> (
    Seq<char>,
    Seq<char>,
) {
    (creator + " - "@ + now, "playlist created by "@ + creator + " on "@ + now)
}

/// The title and description of a playlist made by `creator` at local time `now`.
pub fn title_and_description(creator: &str, now: &str) -> (r: (String, String))
    ensures
        (r.0@, r.1@) == title_and_description_of(creator@, now@),
{
    let mut title = String::from_str(creator);
    title.append(" - ");
    title.append(now);
    let mut description = String::from_str("playlist created by ");
    description.append(creator);
    description.append(" on ");
    description.append(now);
    (title, description)
}

/// The playlist session: a token and a playlist, both obtained lazily and kept for the
/// session's lifetime, and the ids already submitted to the catalog.
#[derive(Debug)]
pub struct Tube {
    seen: Vec<String>,
    token: Option<String>,
    playlist_id: Option<String>,
}

impl Tube {
    pub closed spec fn view(&self) -> SessionView {
        SessionView {
            seen: Set::new(|k: Seq<char>| exists|i: int| 0 <= i < self.seen@.len() && self.seen@[i]@ == k),
            token: self.token.deep_view(),
            playlist_id: self.playlist_id.deep_view(),
        }
    }

    pub fn new() -> (r: Tube)
        ensures
            r@ == fresh_session(),
    {
        let r = Tube { seen: Vec::new(), token: None, playlist_id: None };
        assert(r@.seen =~= Set::<Seq<char>>::empty());
        r
    }

    /// A title and a description for a playlist made now by `creator`.
    pub fn generate_sonotube_title_and_description(creator: &str) -> (r: (String, String))
        ensures
            exists|now: Seq<char>| (r.0@, r.1@) == title_and_description_of(creator@, now),
    {
        let now = local_time_label();
        title_and_description(creator, now.as_str())
    }

    /// Whether `id` was already submitted in this session.
    pub fn has_seen(&self, id: &str) -> (r: bool)
        ensures
            r == self@.seen.contains(id@),
    {
        let key = id.to_owned();
        let mut i: usize = 0;
        while i < self.seen.len()
            invariant
                i <= self.seen@.len(),
                key@ == id@,
                forall|j: int| 0 <= j < i ==> self.seen@[j]@ != id@,
            decreases self.seen@.len() - i,
        {
            if self.seen[i] == key {
                assert(self.seen@[i as int]@ == id@);
                return true;
            }
            i = i + 1;
        }
        false
    }

    /// The session's playlist, once created.
    pub fn playlist_id(&self) -> (r: Option<String>)
        ensures
            r.deep_view() == self@.playlist_id,
    {
        clone_opt_string(&self.playlist_id)
    }

    fn append_action(&self, video_id: String) -> (r: Action)
        ensures
            r@ == append_action(self@, video_id@),
    {
        match (&self.token, &self.playlist_id) {
            (Some(token), Some(playlist_id)) => Action::Append {
                token: token.clone(),
                playlist_id: playlist_id.clone(),
                video_id,
            },
            _ => Action::Finish(Outcome::NoPlaylist),
        }
    }

    fn take_up(&mut self, track: &TubeTrack) -> (r: Action)
        ensures
            (final(self)@, r@) == take_up(old(self)@, track@),
    {
        if self.has_seen(track.id.as_str()) {
            return Action::Finish(Outcome::AlreadyProcessed);
        }
        let ghost before = self@;
        self.seen.push(track.id.clone());
        proof {
            let s2 = SessionView { seen: before.seen.insert(track@.id), ..before };
            assert(self@.seen =~= s2.seen) by {
                assert forall|k: Seq<char>| self@.seen.contains(k) == s2.seen.contains(k) by {
                    if k == track@.id {
                        assert(self.seen@[self.seen@.len() - 1]@ == k);
                    }
                    if before.seen.contains(k) {
                        let i = choose|i: int| 0 <= i < old(self).seen@.len() && old(self).seen@[i]@ == k;
                        assert(self.seen@[i]@ == k);
                    }
                    if self@.seen.contains(k) && k != track@.id {
                        let i = choose|i: int| 0 <= i < self.seen@.len() && self.seen@[i]@ == k;
                        assert(old(self).seen@[i]@ == k);
                    }
                }
            }
        }
        match &track.video_id {
            Some(v) => self.append_action(v.clone()),
            None => Action::Search { query: track.search_query() },
        }
    }

    fn prepare(&mut self, track: &TubeTrack, title: &str, description: &str) -> (r: Action)
        ensures
            (final(self)@, r@) == prepare(old(self)@, track@, title@, description@),
    {
        match &self.token {
            None => Action::Authenticate,
            Some(token) => match &self.playlist_id {
                None => Action::InsertPlaylist {
                    token: token.clone(),
                    title: title.to_owned(),
                    description: description.to_owned(),
                },
                Some(_) => self.take_up(track),
            },
        }
    }

    /// One step of processing `track` for the playlist titled `title`: records what
    /// `event` reports and says what to do next.
    ///
    /// A track is first given a token and a playlist, each obtained once per session. It is
    /// then skipped if its id was already submitted; otherwise its id is marked seen,
    /// whatever comes of it, and its video is appended: the one it carries, or else the
    /// first result of a search for its title and artist. A failure along the way drops
    /// the track.
    pub fn process_track(
        &mut self,
        track: &TubeTrack,
        title: &str,
        description: &str,
        event: Event,
    ) -> (r: Action)
        ensures
            (final(self)@, r@) == step(old(self)@, track@, title@, description@, event@),
    {
        match event {
            Event::Arrived => self.prepare(track, title, description),
            Event::TokenObtained(Some(token)) => {
                self.token = Some(token);
                self.prepare(track, title, description)
            },
            Event::TokenObtained(None) => Action::Finish(Outcome::NotAuthorized),
            Event::PlaylistInserted(Some(id)) => {
                if self.playlist_id.is_none() {
                    self.playlist_id = Some(id);
                }
                self.prepare(track, title, description)
            },
            Event::PlaylistInserted(None) => Action::Finish(Outcome::NoPlaylist),
            Event::SearchAnswered(Some(video_id)) => self.append_action(video_id),
            Event::SearchAnswered(None) => Action::Finish(Outcome::Unresolved),
            Event::VideoAppended(video_id) => Action::Finish(Outcome::Appended(video_id)),
        }
    }
}

} // verus!
