use std::collections::HashMap;
use vstd::prelude::*;
use vstd::string::StringExecFns;

verus! {

//
// Search
//

/// The parts of a video search that the caller chooses.
#[derive(Debug)]
pub struct SearchRequestBuilder {
    pub query: Option<String>,
    pub channel_id: Option<String>,
}

impl SearchRequestBuilder {
    /// A search for `query` in any channel.
    pub fn for_query(query: String) -> (r: SearchRequestBuilder)
        ensures
            r.query == Some(query),
            r.channel_id is None,
    {
        SearchRequestBuilder { query: Some(query), channel_id: None }
    }

    /// The request sent to the catalog: one video result, snippet part, signed with `api_key`.
    pub fn build(self, api_key: String) -> (r: SearchRequest)
        ensures
            r.part@ == "snippet"@,
            r.key == api_key,
            r.query == self.query,
            r._type matches Some(t) && t@ == "video"@,
            r.max_results == Some(1u64),
    {
        SearchRequest {
            part: "snippet".to_owned(),
            key: api_key,
            query: self.query,
            _type: Some("video".to_owned()),
            max_results: Some(1),
        }
    }
}

/// Query parameters of a video search.
#[derive(Debug)]
pub struct SearchRequest {
    pub part: String,
    pub key: String,
    pub query: Option<String>,
    pub _type: Option<String>,
    pub max_results: Option<u64>,
}

/// A page of results from the catalog.
#[derive(Debug)]
pub struct Response<T> {
    pub kind: String,
    pub etag: String,
    pub next_page_token: Option<String>,
    pub prev_page_token: Option<String>,
    pub region_code: Option<String>,
    pub page_info: PageInfo,
    pub items: Vec<T>,
}

#[derive(Debug)]
pub struct PageInfo {
    pub total_results: u64,
    pub results_per_page: u64,
}

pub type SearchResponse = Response<SearchResult>;

impl Response<SearchResult> {
    /// The identifier of the first result, in the catalog's relevance order.
    pub fn first_id(&self) -> (r: Option<String>)
        ensures
            self.items@.len() == 0 ==> r is None,
            self.items@.len() > 0 ==> (r matches Some(id) && id@ == self.items@[0].id.inner()),
    {
        if self.items.len() == 0 {
            None
        } else {
            Some(self.items[0].id.inner_ref())
        }
    }
}

#[derive(Debug)]
pub struct SearchResult {
    pub kind: String,
    pub etag: String,
    pub id: Id,
    pub snippet: SearchResultSnippet,
}

#[derive(Debug)]
pub struct SearchResultSnippet {
    pub published_at: String,
    pub channel_id: String,
    pub title: String,
    pub description: String,
    pub thumbnails: HashMap<String, Thumbnail>,
    pub channel_title: String,
    pub live_broadcast_content: Option<String>,
}

#[derive(Debug)]
pub struct Thumbnail {
    pub url: String,
    pub width: Option<u64>,
    pub height: Option<u64>,
}

/// What a search result points at.
#[derive(Debug)]
pub enum Id {
    VideoId { video_id: String },
    ChannelId { channel_id: String },
    PlaylistId { playlist_id: String },
}

impl Id {
    /// The identifier, whatever its kind.
    pub open spec fn inner(&self) -> Seq<char> {
        match self {
            Id::VideoId { video_id } => video_id@,
            Id::ChannelId { channel_id } => channel_id@,
            Id::PlaylistId { playlist_id } => playlist_id@,
        }
    }

    pub fn into_inner(self) -> (r: String)
        ensures
            r@ == self.inner(),
    {
        match self {
            Id::VideoId { video_id } => video_id,
            Id::ChannelId { channel_id } => channel_id,
            Id::PlaylistId { playlist_id } => playlist_id,
        }
    }

    fn inner_ref(&self) -> (r: String)
        ensures
            r@ == self.inner(),
    {
        match self {
            Id::VideoId { video_id } => video_id.clone(),
            Id::ChannelId { channel_id } => channel_id.clone(),
            Id::PlaylistId { playlist_id } => playlist_id.clone(),
        }
    }
}

//
// Playlist
//

#[derive(Debug)]
pub struct PlaylistSnippet {
    pub published_at: Option<String>,
    pub channel_id: Option<String>,
    pub title: Option<String>,
    pub description: Option<String>,
    pub tumbnails: Option<HashMap<String, Thumbnail>>,
    pub channel_title: Option<String>,
    pub localized: Option<PlaylistLocalization>,
}

#[derive(Debug)]
pub struct PlaylistStatus {
    /// The playlist's privacy status.
    pub privacy_status: Option<String>,
}

/// The body of a playlist creation.
#[derive(Debug)]
pub struct Playlist {
    pub snippet: PlaylistSnippet,
    pub status: PlaylistStatus,
}

impl Playlist {
    /// A private playlist with the given title and description, all else unset.
    pub fn private(title: &str, description: &str) -> (r: Playlist)
        ensures
            r.snippet.title matches Some(t) && t@ == title@,
            r.snippet.description matches Some(d) && d@ == description@,
            r.status.privacy_status matches Some(p) && p@ == "private"@,
            r.snippet.published_at is None,
            r.snippet.channel_id is None,
            r.snippet.tumbnails is None,
            r.snippet.channel_title is None,
            r.snippet.localized is None,
    {
        Playlist {
            snippet: PlaylistSnippet {
                published_at: None,
                channel_id: None,
                title: Some(title.to_owned()),
                description: Some(description.to_owned()),
                tumbnails: None,
                channel_title: None,
                localized: None,
            },
            status: PlaylistStatus { privacy_status: Some("private".to_owned()) },
        }
    }
}

#[derive(Debug)]
pub struct PlaylistLocalization {
    /// The localized strings for playlist's description.
    pub description: Option<String>,
    /// The localized strings for playlist's title.
    pub title: Option<String>,
}

/// The catalog's answer to a playlist creation.
#[derive(Debug)]
pub struct PlaylistResponse {
    pub id: String,
}

#[derive(Debug)]
pub struct PlaylistContentDetails {
    /// The number of videos in the playlist.
    pub item_count: Option<u32>,
}

#[derive(Debug)]
pub struct PlaylistPlayer {
    /// An <iframe> tag that embeds a player that will play the playlist.
    pub embed_html: Option<String>,
}

/// The body of a playlist-item insertion: one video appended to one playlist.
#[derive(Debug)]
pub struct PlaylistItem {
    pub snippet: PlaylistItemSnippet,
}

impl PlaylistItem {
    pub fn new(playlist_id: String, video_id: String) -> (r: PlaylistItem)
        ensures
            r.snippet.playlist_id == playlist_id,
            r.snippet.resource_id.kind@ == "youtube#video"@,
            r.snippet.resource_id.video_id == video_id,
    {
        PlaylistItem {
            snippet: PlaylistItemSnippet {
                playlist_id: playlist_id,
                resource_id: PlaylistItemResource {
                    kind: "youtube#video".to_owned(),
                    video_id: video_id,
                },
            },
        }
    }
}

#[derive(Debug)]
pub struct PlaylistItemSnippet {
    pub playlist_id: String,
    pub resource_id: PlaylistItemResource,
}

#[derive(Debug)]
pub struct PlaylistItemResource {
    pub kind: String,
    pub video_id: String,
}

//
// Errors
//

/// The error envelope of the catalog.
#[derive(Debug)]
pub struct GoogleErrorResponse {
    pub error: GoogleError,
}

#[derive(Debug)]
pub struct GoogleError {
    pub code: u16,
    pub errors: Vec<ErrorItem>,
    pub message: String,
}

#[derive(Debug)]
pub struct ErrorItem {
    pub domain: String,
    pub message: String,
    pub reason: String,
}

} // verus!

verus! {

//
// Tracks handed to the playlist session
//

/// A track as the playlist session sees it: `id` is the player's uri, `video_id` a
/// catalog video already known for it.
#[derive(Debug)]
pub struct TubeTrack {
    pub id: String,
    pub title: String,
    pub artist: String,
    pub video_id: Option<String>,
}

pub struct TubeTrackView {
    pub id: Seq<char>,
    pub title: Seq<char>,
    pub artist: Seq<char>,
    pub video_id: Option<Seq<char>>,
}

impl View for TubeTrack {
    type V = TubeTrackView;

    open spec fn view(&self) -> TubeTrackView {
        TubeTrackView {
            id: self.id@,
            title: self.title@,
            artist: self.artist@,
            video_id: self.video_id.deep_view(),
        }
    }
}

/// The catalog query that looks a track up: its title, a space, its artist.
pub open spec fn search_query(t: TubeTrackView) -> Seq<char> {
    t.title + " "@ + t.artist
}

pub(crate) fn clone_opt_string(s: &Option<String>) -> (r: Option<String>)
    ensures
        r == *s,
{
    match s {
        Some(v) => Some(v.clone()),
        None => None,
    }
}

impl Clone for TubeTrack {
    fn clone(&self) -> (r: Self)
        ensures
            r == *self,
    {
        TubeTrack {
            id: self.id.clone(),
            title: self.title.clone(),
            artist: self.artist.clone(),
            video_id: clone_opt_string(&self.video_id),
        }
    }
}

impl TubeTrack {
    /// The catalog query for this track.
    pub fn search_query(&self) -> (r: String)
        ensures
            r@ == search_query(self@),
    {
        let mut q = self.title.clone();
        q.append(" ");
        q.append(self.artist.as_str());
        q
    }

    /// This track with `video_id` as its resolved video.
    pub fn with_video_id(&self, video_id: Option<String>) -> (r: TubeTrack)
        ensures
            r.id == self.id,
            r.title == self.title,
            r.artist == self.artist,
            r.video_id == video_id,
    {
        TubeTrack {
            id: self.id.clone(),
            title: self.title.clone(),
            artist: self.artist.clone(),
            video_id: video_id,
        }
    }
}

} // verus!
