use vstd::prelude::*;

verus! {

/// User options of the process.
///
/// Every option is optional; an option that is absent counts as disabled.
#[derive(Debug)]
pub struct Config {
    pub api_key: Option<String>,
    pub create_sonotube_playlist: Option<bool>,
    pub send_previous_tracks: Option<bool>,
    pub create_toptastic_playlist: Option<bool>,
}

impl Config {
    /// The configuration used when no configuration file is present.
    pub fn new() -> (r: Config)
        ensures
            r.api_key is None,
            r.create_sonotube_playlist is None,
            r.send_previous_tracks is None,
            r.create_toptastic_playlist is None,
    {
        Config {
            api_key: None,
            create_sonotube_playlist: None,
            send_previous_tracks: None,
            create_toptastic_playlist: None,
        }
    }

    /// Whether tracks heard live are forwarded to the playlist session.
    pub fn create_play_list(&self) -> (r: bool)
        ensures
            r == (self.create_sonotube_playlist == Some(true)),
    {
        match self.create_sonotube_playlist {
            Some(val) => val,
            None => false,
        }
    }

    /// Whether the cached tracks are replayed to the playlist session at start.
    pub fn send_previous_tracks(&self) -> (r: bool)
        ensures
            r == (self.send_previous_tracks == Some(true)),
    {
        match self.send_previous_tracks {
            Some(val) => val,
            None => false,
        }
    }
}

} // verus!
