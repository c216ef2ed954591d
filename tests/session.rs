use sonotube::models::TubeTrack;
use sonotube::toptastic::{Playlist, PlaylistRun, TopTastic};
use sonotube::track::Track;
use sonotube::tube::{title_and_description, Action, Event, Outcome, Tube};
use std::time::Duration;

fn tube_track(id: &str, title: &str, artist: &str, video_id: Option<&str>) -> TubeTrack {
    TubeTrack {
        id: id.to_string(),
        title: title.to_string(),
        artist: artist.to_string(),
        video_id: video_id.map(|v| v.to_string()),
    }
}

/// Stands in for the catalog: every token is "tok", the playlist is "PL1", every search
/// answers "vid-" followed by the query. Counts the searches and the appends.
#[derive(Default)]
struct Catalog {
    searches: Vec<String>,
    appends: Vec<(String, String)>,
    playlists_created: usize,
}

impl Catalog {
    fn answer(&mut self, action: &Action) -> Option<Event> {
        match action {
            Action::Authenticate => Some(Event::TokenObtained(Some("tok".to_string()))),
            Action::InsertPlaylist { .. } => {
                self.playlists_created += 1;
                Some(Event::PlaylistInserted(Some("PL1".to_string())))
            }
            Action::Search { query } => {
                self.searches.push(query.clone());
                Some(Event::SearchAnswered(Some(format!("vid-{query}"))))
            }
            Action::Append { playlist_id, video_id, .. } => {
                self.appends.push((playlist_id.clone(), video_id.clone()));
                Some(Event::VideoAppended(video_id.clone()))
            }
            Action::Finish(_) => None,
        }
    }

    fn process(&mut self, tube: &mut Tube, track: &TubeTrack) -> Outcome {
        let mut event = Event::Arrived;
        loop {
            let action = tube.process_track(track, "T", "D", event);
            match self.answer(&action) {
                Some(next) => event = next,
                None => match action {
                    Action::Finish(outcome) => return outcome,
                    _ => unreachable!(),
                },
            }
        }
    }

    fn run_batch(&mut self, top: &mut TopTastic, playlist: Playlist) -> Vec<TubeTrack> {
        let mut run = PlaylistRun::new(playlist);
        let mut event = Event::Arrived;
        while let Some(action) = top.create_playlist(&mut run, event) {
            event = self.answer(&action).unwrap_or(Event::Arrived);
        }
        assert!(run.is_done());
        run.into_tracks()
    }
}

#[test]
fn test_process_track() {
    let track = TubeTrack {
        id: String::from("id"),
        title: String::from("title"),
        artist: String::from("artist"),
        video_id: None,
    };

    let mut tube = Tube::new();
    let (title, description) = Tube::generate_sonotube_title_and_description("test");
    assert!(matches!(tube.process_track(&track, &title, &description, Event::Arrived), Action::Authenticate));
    let action = tube.process_track(&track, &title, &description, Event::TokenObtained(Some("tok".to_string())));
    match action {
        Action::InsertPlaylist { token, title: t, description: d } => {
            assert_eq!("tok", token);
            assert_eq!(title, t);
            assert_eq!(description, d);
        }
        _ => panic!("expected a playlist creation"),
    }
    let action = tube.process_track(&track, &title, &description, Event::PlaylistInserted(Some("PL".to_string())));
    match action {
        Action::Search { query } => assert_eq!("title artist", query),
        _ => panic!("expected a search"),
    }
    assert!(tube.has_seen("id"));
}

#[test]
fn generated_title_names_the_creator() {
    let (title, description) = Tube::generate_sonotube_title_and_description("test");
    assert!(title.starts_with("test - "));
    assert!(title.len() > "test - ".len());
    assert!(description.starts_with("playlist created by test on "));
    assert_eq!(&title["test - ".len()..], &description["playlist created by test on ".len()..]);
}

#[test]
fn title_and_description_are_exact() {
    let (title, description) = title_and_description("sonotube", "Sat Mar  2 2024 14:05:09");
    assert_eq!("sonotube - Sat Mar  2 2024 14:05:09", title);
    assert_eq!("playlist created by sonotube on Sat Mar  2 2024 14:05:09", description);
}

#[test]
fn full_processing_searches_then_appends() {
    let mut catalog = Catalog::default();
    let mut tube = Tube::new();
    let outcome = catalog.process(&mut tube, &tube_track("u1", "shape of you", "ed sheeran", None));
    assert_eq!(Some("vid-shape of you ed sheeran".to_string()), outcome.video_id());
    assert_eq!(vec!["shape of you ed sheeran".to_string()], catalog.searches);
    assert_eq!(
        vec![("PL1".to_string(), "vid-shape of you ed sheeran".to_string())],
        catalog.appends
    );
    assert_eq!(Some("PL1".to_string()), tube.playlist_id());
}

#[test]
fn identical_tracks_are_submitted_once() {
    let mut catalog = Catalog::default();
    let mut tube = Tube::new();
    let track = tube_track("u1", "Houdini", "Dua Lipa", None);
    catalog.process(&mut tube, &track);
    let second = catalog.process(&mut tube, &track);
    assert!(matches!(second, Outcome::AlreadyProcessed));
    assert_eq!(None, second.video_id());
    assert_eq!(1, catalog.searches.len());
    assert_eq!(1, catalog.appends.len());
    assert_eq!(1, catalog.playlists_created);
}

#[test]
fn known_video_skips_the_search() {
    let mut catalog = Catalog::default();
    let mut tube = Tube::new();
    let outcome = catalog.process(&mut tube, &tube_track("u1", "a", "b", Some("JGwWNGJdvx8")));
    assert_eq!(Some("JGwWNGJdvx8".to_string()), outcome.video_id());
    assert!(catalog.searches.is_empty());
    assert_eq!(vec![("PL1".to_string(), "JGwWNGJdvx8".to_string())], catalog.appends);
}

#[test]
fn known_video_goes_straight_to_append_in_a_ready_session() {
    let mut catalog = Catalog::default();
    let mut tube = Tube::new();
    catalog.process(&mut tube, &tube_track("u1", "a", "b", None));
    let action = tube.process_track(&tube_track("u2", "c", "d", Some("v2")), "T", "D", Event::Arrived);
    match action {
        Action::Append { token, playlist_id, video_id } => {
            assert_eq!("tok", token);
            assert_eq!("PL1", playlist_id);
            assert_eq!("v2", video_id);
        }
        _ => panic!("expected an append"),
    }
}

#[test]
fn missing_search_result_leaves_the_track_unresolved() {
    let mut tube = Tube::new();
    let track = tube_track("u1", "a", "b", None);
    tube.process_track(&track, "T", "D", Event::TokenObtained(Some("tok".to_string())));
    tube.process_track(&track, "T", "D", Event::PlaylistInserted(Some("PL".to_string())));
    let action = tube.process_track(&track, "T", "D", Event::SearchAnswered(None));
    assert!(matches!(action, Action::Finish(Outcome::Unresolved)));
    assert!(tube.has_seen("u1"));
}

#[test]
fn failed_playlist_creation_drops_the_track() {
    let mut tube = Tube::new();
    let track = tube_track("u1", "a", "b", None);
    tube.process_track(&track, "T", "D", Event::TokenObtained(Some("tok".to_string())));
    let action = tube.process_track(&track, "T", "D", Event::PlaylistInserted(None));
    assert!(matches!(action, Action::Finish(Outcome::NoPlaylist)));
    assert!(!tube.has_seen("u1"));
    assert_eq!(None, tube.playlist_id());
    let again = tube.process_track(&track, "T", "D", Event::Arrived);
    assert!(matches!(again, Action::InsertPlaylist { .. }));
}

#[test]
fn missing_token_drops_the_track() {
    let mut tube = Tube::new();
    let track = tube_track("u1", "a", "b", None);
    let action = tube.process_track(&track, "T", "D", Event::TokenObtained(None));
    assert!(matches!(action, Action::Finish(Outcome::NotAuthorized)));
    assert!(!tube.has_seen("u1"));
}

#[test]
fn playlist_is_created_once() {
    let mut tube = Tube::new();
    let track = tube_track("u1", "a", "b", None);
    tube.process_track(&track, "T", "D", Event::TokenObtained(Some("tok".to_string())));
    tube.process_track(&track, "T", "D", Event::PlaylistInserted(Some("first".to_string())));
    tube.process_track(&track, "T", "D", Event::PlaylistInserted(Some("second".to_string())));
    assert_eq!(Some("first".to_string()), tube.playlist_id());
}

#[test]
fn test_create_playlist() {
    let mut catalog = Catalog::default();
    let mut toptastic = TopTastic::new();
    let processed = catalog.run_batch(
        &mut toptastic,
        Playlist {
            title: "Test Playlist".into(),
            description: "Test Description".into(),
            tracks: vec![
                TubeTrack {
                    id: "test1".into(),
                    title: "we are never getting back together".into(),
                    artist: "Taylor Swift".into(),
                    video_id: None,
                },
                TubeTrack {
                    id: "test2".into(),
                    title: "Houdini".into(),
                    artist: "Dua Lipa".into(),
                    video_id: None,
                },
            ],
        },
    );
    assert_eq!(2, processed.len());
    assert_eq!("test1", processed[0].id);
    assert_eq!(
        Some("vid-we are never getting back together Taylor Swift".to_string()),
        processed[0].video_id
    );
    assert_eq!("test2", processed[1].id);
    assert_eq!(Some("vid-Houdini Dua Lipa".to_string()), processed[1].video_id);
}

#[test]
fn empty_batch_answers_nothing() {
    let mut toptastic = TopTastic::new();
    let mut run = PlaylistRun::new(Playlist {
        title: "t".into(),
        description: "d".into(),
        tracks: vec![],
    });
    assert!(run.is_done());
    assert!(toptastic.create_playlist(&mut run, Event::Arrived).is_none());
    assert!(run.into_tracks().is_empty());
}

#[test]
fn batch_repeats_answer_without_video() {
    let mut catalog = Catalog::default();
    let mut toptastic = TopTastic::new();
    let processed = catalog.run_batch(
        &mut toptastic,
        Playlist {
            title: "t".into(),
            description: "d".into(),
            tracks: vec![tube_track("x", "a", "b", None), tube_track("x", "a", "b", None)],
        },
    );
    assert_eq!(2, processed.len());
    assert!(processed[0].video_id.is_some());
    assert_eq!(None, processed[1].video_id);
    assert_eq!(1, catalog.searches.len());
}

#[test]
fn batch_treats_a_forwarded_track_as_processed() {
    let mut catalog = Catalog::default();
    let mut toptastic = TopTastic::new();
    let live = Track {
        title: "Houdini".to_string(),
        artist: "Dua Lipa".to_string(),
        album: None,
        queue_position: 3,
        uri: "x-sonos:houdini".to_string(),
        duration: Duration::from_secs(185),
        running_time: Duration::from_secs(12),
    };
    let forwarded = TubeTrack::from(live);
    assert_eq!("x-sonos:houdini", forwarded.id);
    assert_eq!(None, forwarded.video_id);
    catalog.process(&mut toptastic.tube, &forwarded);
    assert_eq!(1, catalog.appends.len());

    let processed = catalog.run_batch(
        &mut toptastic,
        Playlist {
            title: "t".into(),
            description: "d".into(),
            tracks: vec![tube_track("x-sonos:houdini", "Houdini", "Dua Lipa", Some("v9"))],
        },
    );
    assert_eq!(1, processed.len());
    assert_eq!(None, processed[0].video_id);
    assert_eq!(1, catalog.appends.len());
}
