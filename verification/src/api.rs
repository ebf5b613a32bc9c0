//! The server's data, and the requests that the client makes of it.

use crate::text;
use vstd::prelude::*;

verus! {

// ---------------------------------------------------------------------------
// Data
// ---------------------------------------------------------------------------

/// A track of the library.
#[derive(Debug)]
pub struct Track {
    pub id: i64,
    pub path: String,
    pub title: Option<String>,
    pub album: Option<String>,
    pub artist: Option<String>,
    pub album_artist: Option<String>,
    pub track_no: Option<i64>,
    pub disc_no: Option<i64>,
    pub duration_ms: Option<i64>,
    pub year: Option<i64>,
    pub added_at: i64,
}

/// A `Track`, with its texts as characters.
pub struct TrackView {
    pub id: i64,
    pub path: Seq<char>,
    pub title: Option<Seq<char>>,
    pub album: Option<Seq<char>>,
    pub artist: Option<Seq<char>>,
    pub album_artist: Option<Seq<char>>,
    pub track_no: Option<i64>,
    pub disc_no: Option<i64>,
    pub duration_ms: Option<i64>,
    pub year: Option<i64>,
    pub added_at: i64,
}

impl Clone for Track {
    fn clone(&self) -> (r: Self)
        ensures
            r == *self,
    {
        Track {
            path: self.path.clone(),
            title: text::copy_opt(&self.title),
            album: text::copy_opt(&self.album),
            artist: text::copy_opt(&self.artist),
            album_artist: text::copy_opt(&self.album_artist),
            id: self.id,
            track_no: self.track_no,
            disc_no: self.disc_no,
            duration_ms: self.duration_ms,
            year: self.year,
            added_at: self.added_at,
        }
    }
}

impl View for Track {
    type V = TrackView;

    open spec fn view(&self) -> TrackView {
        TrackView {
            id: self.id,
            path: self.path@,
            title: text::opt(self.title),
            album: text::opt(self.album),
            artist: text::opt(self.artist),
            album_artist: text::opt(self.album_artist),
            track_no: self.track_no,
            disc_no: self.disc_no,
            duration_ms: self.duration_ms,
            year: self.year,
            added_at: self.added_at,
        }
    }
}

/// The first of two optional texts that is there, or a dash.
pub open spec fn artist_or_dash(artist: Option<Seq<char>>, album_artist: Option<Seq<char>>) -> Seq<
    char,
> {
    match artist {
        Some(a) => a,
        None => match album_artist {
            Some(a) => a,
            None => "—"@,
        },
    }
}

impl TrackView {
    /// The title to show: that of the track, or the last part of its path.
    pub open spec fn display_title(self) -> Seq<char> {
        match self.title {
            Some(t) => t,
            None => text::segments(self.path, '/').last(),
        }
    }

    /// The artist to show: that of the track, that of its album, or a dash.
    pub open spec fn display_artist(self) -> Seq<char> {
        artist_or_dash(self.artist, self.album_artist)
    }

    /// The album to show, or a dash.
    pub open spec fn display_album(self) -> Seq<char> {
        match self.album {
            Some(a) => a,
            None => "—"@,
        }
    }
}

impl Track {
    /// The title to show: that of the track, or the last part of its path.
    pub fn display_title(&self) -> (r: &str)
        ensures
            r@ == self@.display_title(),
    {
        match &self.title {
            Some(t) => t.as_str(),
            None => text::last_segment(self.path.as_str()),
        }
    }

    /// The artist to show: that of the track, that of its album, or a dash.
    pub fn display_artist(&self) -> (r: &str)
        ensures
            r@ == self@.display_artist(),
    {
        match &self.artist {
            Some(a) => a.as_str(),
            None => match &self.album_artist {
                Some(a) => a.as_str(),
                None => "—",
            },
        }
    }

    /// The album to show, or a dash.
    pub fn display_album(&self) -> (r: &str)
        ensures
            r@ == self@.display_album(),
    {
        match &self.album {
            Some(a) => a.as_str(),
            None => "—",
        }
    }
}

/// A playlist, without its tracks.
#[derive(Debug)]
pub struct Playlist {
    pub id: i64,
    pub name: String,
    pub description: Option<String>,
    pub track_count: i64,
    pub created_at: i64,
    pub updated_at: i64,
}

/// A `Playlist`, with its texts as characters.
pub struct PlaylistView {
    pub id: i64,
    pub name: Seq<char>,
    pub description: Option<Seq<char>>,
    pub track_count: i64,
    pub created_at: i64,
    pub updated_at: i64,
}

impl Clone for Playlist {
    fn clone(&self) -> (r: Self)
        ensures
            r == *self,
    {
        Playlist {
            name: self.name.clone(),
            description: text::copy_opt(&self.description),
            id: self.id,
            track_count: self.track_count,
            created_at: self.created_at,
            updated_at: self.updated_at,
        }
    }
}

impl View for Playlist {
    type V = PlaylistView;

    open spec fn view(&self) -> PlaylistView {
        PlaylistView {
            id: self.id,
            name: self.name@,
            description: text::opt(self.description),
            track_count: self.track_count,
            created_at: self.created_at,
            updated_at: self.updated_at,
        }
    }
}

/// A track at its place in a playlist.
#[derive(Debug)]
pub struct PlaylistTrack {
    pub track_id: i64,
    pub position: i64,
    pub added_at: i64,
    pub title: Option<String>,
    pub album: Option<String>,
    pub artist: Option<String>,
    pub album_artist: Option<String>,
    pub duration_ms: Option<i64>,
}

/// A `PlaylistTrack`, with its texts as characters.
pub struct PlaylistTrackView {
    pub track_id: i64,
    pub position: i64,
    pub added_at: i64,
    pub title: Option<Seq<char>>,
    pub album: Option<Seq<char>>,
    pub artist: Option<Seq<char>>,
    pub album_artist: Option<Seq<char>>,
    pub duration_ms: Option<i64>,
}

impl Clone for PlaylistTrack {
    fn clone(&self) -> (r: Self)
        ensures
            r == *self,
    {
        PlaylistTrack {
            title: text::copy_opt(&self.title),
            album: text::copy_opt(&self.album),
            artist: text::copy_opt(&self.artist),
            album_artist: text::copy_opt(&self.album_artist),
            track_id: self.track_id,
            position: self.position,
            added_at: self.added_at,
            duration_ms: self.duration_ms,
        }
    }
}

impl View for PlaylistTrack {
    type V = PlaylistTrackView;

    open spec fn view(&self) -> PlaylistTrackView {
        PlaylistTrackView {
            track_id: self.track_id,
            position: self.position,
            added_at: self.added_at,
            title: text::opt(self.title),
            album: text::opt(self.album),
            artist: text::opt(self.artist),
            album_artist: text::opt(self.album_artist),
            duration_ms: self.duration_ms,
        }
    }
}

impl PlaylistTrackView {
    /// The title to show.
    pub open spec fn display_title(self) -> Seq<char> {
        match self.title {
            Some(t) => t,
            None => "(untitled)"@,
        }
    }

    /// The artist to show: that of the track, that of its album, or a dash.
    pub open spec fn display_artist(self) -> Seq<char> {
        artist_or_dash(self.artist, self.album_artist)
    }
}

impl PlaylistTrack {
    /// The title to show.
    pub fn display_title(&self) -> (r: &str)
        ensures
            r@ == self@.display_title(),
    {
        match &self.title {
            Some(t) => t.as_str(),
            None => "(untitled)",
        }
    }

    /// The artist to show: that of the track, that of its album, or a dash.
    pub fn display_artist(&self) -> (r: &str)
        ensures
            r@ == self@.display_artist(),
    {
        match &self.artist {
            Some(a) => a.as_str(),
            None => match &self.album_artist {
                Some(a) => a.as_str(),
                None => "—",
            },
        }
    }
}

/// A tag on a track, and where it came from.
#[derive(Debug)]
pub struct TrackTag {
    pub tag_id: i64,
    pub namespace: String,
    pub value: String,
    pub source: String,
}

/// A `TrackTag`, with its texts as characters.
pub struct TrackTagView {
    pub tag_id: i64,
    pub namespace: Seq<char>,
    pub value: Seq<char>,
    pub source: Seq<char>,
}

impl Clone for TrackTag {
    fn clone(&self) -> (r: Self)
        ensures
            r == *self,
    {
        TrackTag {
            namespace: self.namespace.clone(),
            value: self.value.clone(),
            source: self.source.clone(),
            tag_id: self.tag_id,
        }
    }
}

impl View for TrackTag {
    type V = TrackTagView;

    open spec fn view(&self) -> TrackTagView {
        TrackTagView {
            tag_id: self.tag_id,
            namespace: self.namespace@,
            value: self.value@,
            source: self.source@,
        }
    }
}

/// How a tag is written: its namespace, a colon, its value.
pub open spec fn tag_text(namespace: Seq<char>, value: Seq<char>) -> Seq<char> {
    namespace + ":"@ + value
}

impl TrackTagView {
    /// How the tag is written.
    pub open spec fn display(self) -> Seq<char> {
        tag_text(self.namespace, self.value)
    }

    /// Whether a user put the tag there.
    pub open spec fn is_user(self) -> bool {
        self.source == "user"@
    }
}

impl TrackTag {
    /// How the tag is written.
    pub fn display(&self) -> (r: String)
        ensures
            r@ == self@.display(),
    {
        fmt_tag(self.namespace.as_str(), self.value.as_str())
    }

    /// Whether a user put the tag there.
    pub fn is_user(&self) -> (r: bool)
        ensures
            r == self@.is_user(),
    {
        text::same(self.source.as_str(), "user")
    }
}

/// Writes a tag: its namespace, a colon, its value. A tag without a namespace begins
/// with the colon.
pub fn fmt_tag(ns: &str, val: &str) -> (r: String)
    ensures
        r@ == tag_text(ns@, val@),
{
    text::cat3(ns, ":", val)
}

/// A tag that the server has just added.
#[derive(Debug)]
pub struct AddedTag {
    pub tag_id: i64,
    pub namespace: String,
    pub value: String,
}

impl Clone for AddedTag {
    fn clone(&self) -> (r: Self)
        ensures
            r == *self,
    {
        AddedTag {
            namespace: self.namespace.clone(),
            value: self.value.clone(),
            tag_id: self.tag_id,
        }
    }
}

/// What a scan of the library counted.
#[derive(Debug, Clone, Copy)]
pub struct ScanStats {
    pub seen: u64,
    pub inserted: u64,
    pub updated: u64,
    pub unchanged: u64,
    pub failed: u64,
}

/// Where the server's scan of the library stands.
#[derive(Debug)]
pub struct ScanState {
    pub running: bool,
    pub started_at: Option<i64>,
    pub finished_at: Option<i64>,
    pub last_stats: Option<ScanStats>,
    pub last_error: Option<String>,
}

/// A `ScanState`, with its texts as characters.
pub struct ScanStateView {
    pub running: bool,
    pub started_at: Option<i64>,
    pub finished_at: Option<i64>,
    pub last_stats: Option<ScanStats>,
    pub last_error: Option<Seq<char>>,
}

impl Clone for ScanState {
    fn clone(&self) -> (r: Self)
        ensures
            r == *self,
    {
        ScanState {
            last_error: text::copy_opt(&self.last_error),
            running: self.running,
            started_at: self.started_at,
            finished_at: self.finished_at,
            last_stats: self.last_stats,
        }
    }
}

impl View for ScanState {
    type V = ScanStateView;

    open spec fn view(&self) -> ScanStateView {
        ScanStateView {
            running: self.running,
            started_at: self.started_at,
            finished_at: self.finished_at,
            last_stats: self.last_stats,
            last_error: text::opt(self.last_error),
        }
    }
}

// ---------------------------------------------------------------------------
// Requests
// ---------------------------------------------------------------------------

/// An HTTP method.
#[derive(Debug, Clone, Copy, PartialEq, Eq, Structural)]
pub enum Method {
    Get,
    Post,
    Put,
    Patch,
    Delete,
}

/// What a request carries, as the fields of one JSON object.
#[derive(Debug)]
pub enum Body {
    /// No body.
    Empty,
    /// The fields `namespace` and `value`.
    Tag { namespace: String, value: String },
    /// The field `name`.
    Name(String),
    /// The field `track_id`.
    TrackId(i64),
    /// The field `track_ids`.
    TrackIds(Vec<i64>),
}

/// A `Body`, with its texts as characters.
pub enum BodyView {
    Empty,
    Tag { namespace: Seq<char>, value: Seq<char> },
    Name(Seq<char>),
    TrackId(i64),
    TrackIds(Seq<i64>),
}

impl View for Body {
    type V = BodyView;

    open spec fn view(&self) -> BodyView {
        match self {
            Body::Empty => BodyView::Empty,
            Body::Tag { namespace, value } => BodyView::Tag {
                namespace: namespace@,
                value: value@,
            },
            Body::Name(n) => BodyView::Name(n@),
            Body::TrackId(id) => BodyView::TrackId(*id),
            Body::TrackIds(ids) => BodyView::TrackIds(ids@),
        }
    }
}

/// A request to send, and what to say where sending it or reading its answer fails.
#[derive(Debug)]
pub struct Request {
    pub method: Method,
    pub url: String,
    pub authorization: Option<String>,
    pub body: Body,
    pub context: String,
    pub decode_context: String,
}

/// A `Request`, with its texts as characters.
pub struct RequestView {
    pub method: Method,
    pub url: Seq<char>,
    pub authorization: Option<Seq<char>>,
    pub body: BodyView,
    pub context: Seq<char>,
    pub decode_context: Seq<char>,
}

impl View for Request {
    type V = RequestView;

    open spec fn view(&self) -> RequestView {
        RequestView {
            method: self.method,
            url: self.url@,
            authorization: text::opt(self.authorization),
            body: self.body@,
            context: self.context@,
            decode_context: self.decode_context@,
        }
    }
}

/// A text without the slashes at its end.
pub open spec fn without_slashes(s: Seq<char>) -> Seq<char>
    decreases s.len(),
{
    if s.len() > 0 && s.last() == '/' {
        without_slashes(s.drop_last())
    } else {
        s
    }
}

/// A server, and the token to show it.
#[derive(Debug)]
pub struct Client {
    pub base: String,
    pub token: Option<String>,
}

/// A `Client`, with its texts as characters.
pub struct ClientView {
    pub base: Seq<char>,
    pub token: Option<Seq<char>>,
}

impl Clone for Client {
    fn clone(&self) -> (r: Self)
        ensures
            r == *self,
    {
        Client {
            base: self.base.clone(),
            token: text::copy_opt(&self.token),
        }
    }
}

impl View for Client {
    type V = ClientView;

    open spec fn view(&self) -> ClientView {
        ClientView { base: self.base@, token: text::opt(self.token) }
    }
}

/// The path of a track on the server, up to and with its number.
pub open spec fn track_path(track_id: i64) -> Seq<char> {
    "/api/tracks/"@ + text::decimal_int(track_id as int)
}

/// The path of a playlist on the server, up to and with its number.
pub open spec fn playlist_path(id: i64) -> Seq<char> {
    "/api/playlists/"@ + text::decimal_int(id as int)
}

impl ClientView {
    /// The client of a server: slashes at the end of its address do not count.
    pub open spec fn new(base: Seq<char>, token: Option<Seq<char>>) -> ClientView {
        ClientView { base: without_slashes(base), token }
    }

    /// The header that shows the token, if there is one.
    pub open spec fn auth_header(self) -> Option<Seq<char>> {
        match self.token {
            Some(t) => Some("Bearer "@ + t),
            None => None,
        }
    }

    /// The request for a path of the server.
    pub open spec fn request(
        self,
        method: Method,
        path: Seq<char>,
        body: BodyView,
        context: Seq<char>,
        decode_context: Seq<char>,
    ) -> RequestView {
        RequestView {
            method,
            url: self.base + path,
            authorization: self.auth_header(),
            body,
            context,
            decode_context,
        }
    }

    /// Where the server streams a track.
    pub open spec fn stream_url(self, track_id: i64) -> Seq<char> {
        self.base + track_path(track_id) + "/stream"@
    }

    /// Asks for the tracks that match a query.
    pub open spec fn search(self, query: Seq<char>) -> RequestView {
        self.request(
            Method::Get,
            "/api/search?q="@ + percent(vstd::utf8::encode_utf8(query)),
            BodyView::Empty,
            "GET /api/search"@,
            "decode search"@,
        )
    }

    /// Asks for the page of tracks that follows the first `fetched`.
    pub open spec fn list_tracks(self, fetched: nat) -> RequestView {
        self.request(
            Method::Get,
            "/api/tracks?limit="@ + text::decimal(PAGE as nat) + "&offset="@ + text::decimal(
                fetched,
            ),
            BodyView::Empty,
            "GET /api/tracks"@,
            "decode tracks"@,
        )
    }

    /// Asks for the tags of a track.
    pub open spec fn list_track_tags(self, track_id: i64) -> RequestView {
        self.request(
            Method::Get,
            track_path(track_id) + "/tags"@,
            BodyView::Empty,
            "GET tags"@,
            "decode tags"@,
        )
    }

    /// Puts a tag on a track.
    pub open spec fn add_user_tag(
        self,
        track_id: i64,
        namespace: Seq<char>,
        value: Seq<char>,
    ) -> RequestView {
        self.request(
            Method::Post,
            track_path(track_id) + "/tags"@,
            BodyView::Tag { namespace, value },
            "POST tag"@,
            "decode added tag"@,
        )
    }

    /// Takes a tag off a track.
    pub open spec fn remove_user_tag(self, track_id: i64, tag_id: i64) -> RequestView {
        self.request(
            Method::Delete,
            track_path(track_id) + "/tags/"@ + text::decimal_int(tag_id as int),
            BodyView::Empty,
            "DELETE tag"@,
            ""@,
        )
    }

    /// Asks for the playlists.
    pub open spec fn list_playlists(self) -> RequestView {
        self.request(
            Method::Get,
            "/api/playlists"@,
            BodyView::Empty,
            "GET playlists"@,
            "decode playlists"@,
        )
    }

    /// Makes a playlist.
    pub open spec fn create_playlist(self, name: Seq<char>) -> RequestView {
        self.request(
            Method::Post,
            "/api/playlists"@,
            BodyView::Name(name),
            "POST playlist"@,
            "decode playlist"@,
        )
    }

    /// Gives a playlist another name.
    pub open spec fn rename_playlist(self, id: i64, name: Seq<char>) -> RequestView {
        self.request(
            Method::Patch,
            playlist_path(id),
            BodyView::Name(name),
            "PATCH playlist"@,
            "decode playlist"@,
        )
    }

    /// Deletes a playlist.
    pub open spec fn delete_playlist(self, id: i64) -> RequestView {
        self.request(
            Method::Delete,
            playlist_path(id),
            BodyView::Empty,
            "DELETE playlist"@,
            ""@,
        )
    }

    /// Asks for the tracks of a playlist.
    pub open spec fn get_playlist_tracks(self, id: i64) -> RequestView {
        self.request(
            Method::Get,
            playlist_path(id) + "/tracks"@,
            BodyView::Empty,
            "GET playlist tracks"@,
            "decode playlist tracks"@,
        )
    }

    /// Adds a track to the end of a playlist.
    pub open spec fn add_to_playlist(self, playlist_id: i64, track_id: i64) -> RequestView {
        self.request(
            Method::Post,
            playlist_path(playlist_id) + "/tracks"@,
            BodyView::TrackId(track_id),
            "POST playlist track"@,
            ""@,
        )
    }

    /// Replaces the tracks of a playlist.
    pub open spec fn set_playlist_tracks(
        self,
        playlist_id: i64,
        track_ids: Seq<i64>,
    ) -> RequestView {
        self.request(
            Method::Put,
            playlist_path(playlist_id) + "/tracks"@,
            BodyView::TrackIds(track_ids),
            "PUT playlist tracks"@,
            ""@,
        )
    }

    /// Takes a track out of a playlist.
    pub open spec fn remove_from_playlist(self, playlist_id: i64, track_id: i64) -> RequestView {
        self.request(
            Method::Delete,
            playlist_path(playlist_id) + "/tracks/"@ + text::decimal_int(track_id as int),
            BodyView::Empty,
            "DELETE playlist track"@,
            ""@,
        )
    }

    /// Starts a scan of the library.
    pub open spec fn trigger_scan(self) -> RequestView {
        self.request(
            Method::Post,
            "/api/scans"@,
            BodyView::Empty,
            "POST /api/scans"@,
            "decode scan state"@,
        )
    }

    /// Asks where the scan of the library stands.
    pub open spec fn scan_status(self) -> RequestView {
        self.request(
            Method::Get,
            "/api/scans"@,
            BodyView::Empty,
            "GET /api/scans"@,
            "decode scan state"@,
        )
    }
}

/// How many tracks one request asks for.
pub const PAGE: usize = 1000;

impl Client {
    /// The client of a server: slashes at the end of its address do not count.
    pub fn new(base: String, token: Option<String>) -> (r: Self)
        ensures
            r@ == ClientView::new(base@, text::opt(token)),
    {
        let v = text::chars(base.as_str());
        let mut to: usize = v.len();
        assert(v@.subrange(0, to as int) =~= base@);
        while to > 0 && v[to - 1] == '/'
            invariant
                v@ == base@,
                to <= v@.len(),
                without_slashes(base@) == without_slashes(v@.subrange(0, to as int)),
            decreases to,
        {
            assert(v@.subrange(0, to as int).drop_last() =~= v@.subrange(0, to - 1));
            to = to - 1;
        }
        Client { base: text::from_chars(&v, 0, to), token }
    }

    /// The address of a path on the server.
    pub fn url(&self, path: &str) -> (r: String)
        ensures
            r@ == self.base@ + path@,
    {
        text::cat(self.base.as_str(), path)
    }

    /// The header that shows the token, if there is one.
    pub fn auth_header(&self) -> (r: Option<String>)
        ensures
            text::opt(r) == self@.auth_header(),
    {
        match &self.token {
            Some(t) => Some(text::cat("Bearer ", t.as_str())),
            None => None,
        }
    }

    /// The request for a path of the server.
    fn request(
        &self,
        method: Method,
        path: &str,
        body: Body,
        context: &str,
        decode_context: &str,
    ) -> (r: Request)
        ensures
            r@ == self@.request(method, path@, body@, context@, decode_context@),
    {
        Request {
            method,
            url: self.url(path),
            authorization: self.auth_header(),
            body,
            context: text::copy(context),
            decode_context: text::copy(decode_context),
        }
    }

    /// Asks for the tracks that match a query.
    pub fn search(&self, query: &str) -> (r: Request)
        ensures
            r@ == self@.search(query@),
    {
        let encoded = percent_encode(query);
        let path = text::cat("/api/search?q=", encoded.as_str());
        self.request(Method::Get, path.as_str(), Body::Empty, "GET /api/search", "decode search")
    }

    /// Asks for the page of tracks that follows the first `fetched`.
    pub fn list_tracks(&self, fetched: usize) -> (r: Request)
        ensures
            r@ == self@.list_tracks(fetched as nat),
    {
        let limit = text::show(PAGE as u64);
        let offset = text::show(fetched as u64);
        let mut path = text::cat3("/api/tracks?limit=", limit.as_str(), "&offset=");
        path.append(offset.as_str());
        self.request(Method::Get, path.as_str(), Body::Empty, "GET /api/tracks", "decode tracks")
    }

    /// Where the server streams a track.
    pub fn stream_url(&self, track_id: i64) -> (r: String)
        ensures
            r@ == self@.stream_url(track_id),
    {
        let path = track_path_text(track_id);
        text::cat3(self.base.as_str(), path.as_str(), "/stream")
    }

    /// Asks for the tags of a track.
    pub fn list_track_tags(&self, track_id: i64) -> (r: Request)
        ensures
            r@ == self@.list_track_tags(track_id),
    {
        let path = text::cat(track_path_text(track_id).as_str(), "/tags");
        self.request(Method::Get, path.as_str(), Body::Empty, "GET tags", "decode tags")
    }

    /// Puts a tag on a track.
    pub fn add_user_tag(&self, track_id: i64, namespace: &str, value: &str) -> (r: Request)
        ensures
            r@ == self@.add_user_tag(track_id, namespace@, value@),
    {
        let path = text::cat(track_path_text(track_id).as_str(), "/tags");
        let body = Body::Tag { namespace: text::copy(namespace), value: text::copy(value) };
        self.request(Method::Post, path.as_str(), body, "POST tag", "decode added tag")
    }

    /// Takes a tag off a track.
    pub fn remove_user_tag(&self, track_id: i64, tag_id: i64) -> (r: Request)
        ensures
            r@ == self@.remove_user_tag(track_id, tag_id),
    {
        let tag = text::show_int(tag_id);
        let path = text::cat3(track_path_text(track_id).as_str(), "/tags/", tag.as_str());
        self.request(Method::Delete, path.as_str(), Body::Empty, "DELETE tag", "")
    }

    /// Asks for the playlists.
    pub fn list_playlists(&self) -> (r: Request)
        ensures
            r@ == self@.list_playlists(),
    {
        self.request(
            Method::Get,
            "/api/playlists",
            Body::Empty,
            "GET playlists",
            "decode playlists",
        )
    }

    /// Makes a playlist.
    pub fn create_playlist(&self, name: &str) -> (r: Request)
        ensures
            r@ == self@.create_playlist(name@),
    {
        let body = Body::Name(text::copy(name));
        self.request(Method::Post, "/api/playlists", body, "POST playlist", "decode playlist")
    }

    /// Gives a playlist another name.
    pub fn rename_playlist(&self, id: i64, name: &str) -> (r: Request)
        ensures
            r@ == self@.rename_playlist(id, name@),
    {
        let path = playlist_path_text(id);
        let body = Body::Name(text::copy(name));
        self.request(Method::Patch, path.as_str(), body, "PATCH playlist", "decode playlist")
    }

    /// Deletes a playlist.
    pub fn delete_playlist(&self, id: i64) -> (r: Request)
        ensures
            r@ == self@.delete_playlist(id),
    {
        let path = playlist_path_text(id);
        self.request(Method::Delete, path.as_str(), Body::Empty, "DELETE playlist", "")
    }

    /// Asks for the tracks of a playlist.
    pub fn get_playlist_tracks(&self, id: i64) -> (r: Request)
        ensures
            r@ == self@.get_playlist_tracks(id),
    {
        let path = text::cat(playlist_path_text(id).as_str(), "/tracks");
        self.request(
            Method::Get,
            path.as_str(),
            Body::Empty,
            "GET playlist tracks",
            "decode playlist tracks",
        )
    }

    /// Adds a track to the end of a playlist.
    pub fn add_to_playlist(&self, playlist_id: i64, track_id: i64) -> (r: Request)
        ensures
            r@ == self@.add_to_playlist(playlist_id, track_id),
    {
        let path = text::cat(playlist_path_text(playlist_id).as_str(), "/tracks");
        let body = Body::TrackId(track_id);
        self.request(Method::Post, path.as_str(), body, "POST playlist track", "")
    }

    /// Replaces the tracks of a playlist.
    pub fn set_playlist_tracks(&self, playlist_id: i64, track_ids: Vec<i64>) -> (r: Request)
        ensures
            r@ == self@.set_playlist_tracks(playlist_id, track_ids@),
    {
        let path = text::cat(playlist_path_text(playlist_id).as_str(), "/tracks");
        self.request(
            Method::Put,
            path.as_str(),
            Body::TrackIds(track_ids),
            "PUT playlist tracks",
            "",
        )
    }

    /// Takes a track out of a playlist.
    pub fn remove_from_playlist(&self, playlist_id: i64, track_id: i64) -> (r: Request)
        ensures
            r@ == self@.remove_from_playlist(playlist_id, track_id),
    {
        let track = text::show_int(track_id);
        let path = text::cat3(
            playlist_path_text(playlist_id).as_str(),
            "/tracks/",
            track.as_str(),
        );
        self.request(Method::Delete, path.as_str(), Body::Empty, "DELETE playlist track", "")
    }

    /// Starts a scan of the library.
    pub fn trigger_scan(&self) -> (r: Request)
        ensures
            r@ == self@.trigger_scan(),
    {
        self.request(
            Method::Post,
            "/api/scans",
            Body::Empty,
            "POST /api/scans",
            "decode scan state",
        )
    }

    /// Asks where the scan of the library stands.
    pub fn scan_status(&self) -> (r: Request)
        ensures
            r@ == self@.scan_status(),
    {
        self.request(
            Method::Get,
            "/api/scans",
            Body::Empty,
            "GET /api/scans",
            "decode scan state",
        )
    }
}

/// The path of a track on the server, up to and with its number.
fn track_path_text(track_id: i64) -> (r: String)
    ensures
        r@ == track_path(track_id),
{
    text::cat("/api/tracks/", text::show_int(track_id).as_str())
}

/// The path of a playlist on the server, up to and with its number.
fn playlist_path_text(id: i64) -> (r: String)
    ensures
        r@ == playlist_path(id),
{
    text::cat("/api/playlists/", text::show_int(id).as_str())
}

// ---------------------------------------------------------------------------
// Percent-encoding
// ---------------------------------------------------------------------------

/// Whether a byte stands for itself in an address.
pub open spec fn unreserved(b: u8) -> bool {
    ||| 65 <= b <= 90
    ||| 97 <= b <= 122
    ||| 48 <= b <= 57
    ||| b == 45
    ||| b == 95
    ||| b == 46
    ||| b == 126
}

/// The hexadecimal digit of a number below sixteen, with capital letters.
pub open spec fn hex_digit(n: int) -> char {
    if n < 10 {
        (48 + n) as char
    } else {
        (55 + n) as char
    }
}

/// A byte as it stands in an address.
pub open spec fn percent_byte(b: u8) -> Seq<char> {
    if unreserved(b) {
        seq![b as char]
    } else {
        seq!['%', hex_digit(b as int / 16), hex_digit(b as int % 16)]
    }
}

/// Bytes as they stand in an address.
pub open spec fn percent(bytes: Seq<u8>) -> Seq<char>
    decreases bytes.len(),
{
    if bytes.len() == 0 {
        Seq::empty()
    } else {
        percent(bytes.drop_last()) + percent_byte(bytes.last())
    }
}

/// The hexadecimal digit of a number below sixteen.
fn hex(n: u8) -> (r: char)
    requires
        n < 16,
    ensures
        r == hex_digit(n as int),
{
    if n < 10 {
        (48u8 + n) as char
    } else {
        (55u8 + n) as char
    }
}

/// Writes a text so that it can stand in an address: the unreserved characters as they
/// are, every other byte of its UTF-8 form as a percent sign and two digits.
pub fn percent_encode(s: &str) -> (r: String)
    ensures
        r@ == percent(vstd::utf8::encode_utf8(s@)),
{
    let bytes = s.as_bytes();
    let mut out = String::new();
    let ghost all = vstd::utf8::encode_utf8(s@);
    for i in 0..bytes.len()
        invariant
            bytes@ == all,
            out@ == percent(all.take(i as int)),
    {
        let b = bytes[i];
        let ghost before = out@;
        if (65 <= b && b <= 90) || (97 <= b && b <= 122) || (48 <= b && b <= 57) || b == 45 || b
            == 95 || b == 46 || b == 126 {
            out.push(b as char);
        } else {
            out.push('%');
            out.push(hex(b / 16));
            out.push(hex(b % 16));
        }
        assert(out@ =~= before + percent_byte(b));
        assert(all.take(i + 1).drop_last() =~= all.take(i as int));
    }
    assert(all.take(all.len() as int) =~= all);
    out
}

/// The number of a hexadecimal digit.
pub open spec fn hex_value(c: char) -> int {
    if c <= '9' {
        c as int - '0' as int
    } else {
        c as int - 'A' as int + 10
    }
}

/// The bytes that a part of an address stands for: a percent sign and two digits for one,
/// every other character for itself.
pub open spec fn unpercent(s: Seq<char>) -> Seq<u8>
    decreases s.len(),
{
    if s.len() == 0 {
        Seq::empty()
    } else if s[0] == '%' && s.len() >= 3 {
        seq![(hex_value(s[1]) * 16 + hex_value(s[2])) as u8] + unpercent(s.skip(3))
    } else {
        seq![s[0] as u8] + unpercent(s.skip(1))
    }
}

proof fn lemma_unpercent(bytes: Seq<u8>, rest: Seq<char>)
    ensures
        unpercent(percent(bytes) + rest) == bytes + unpercent(rest),
    decreases bytes.len(),
{
    if bytes.len() == 0 {
        assert(percent(bytes) + rest =~= rest);
        assert(bytes + unpercent(rest) =~= unpercent(rest));
    } else {
        let b = bytes.last();
        let front = bytes.drop_last();
        let tail = percent_byte(b) + rest;
        assert(percent(bytes) + rest =~= percent(front) + tail);
        lemma_unpercent(front, tail);
        assert(unpercent(tail) =~= seq![b] + unpercent(rest)) by {
            if unreserved(b) {
                assert(tail.skip(1) =~= rest);
                assert(tail[0] == b as char);
                assert(tail[0] != '%');
            } else {
                let high = b as int / 16;
                let low = b as int % 16;
                assert(tail.skip(3) =~= rest);
                assert(tail[1] == hex_digit(high));
                assert(tail[2] == hex_digit(low));
                assert(hex_value(hex_digit(high)) == high);
                assert(hex_value(hex_digit(low)) == low);
            }
        }
        assert(front + (seq![b] + unpercent(rest)) =~= bytes + unpercent(rest));
    }
}

proof fn lemma_percent_is_plain(bytes: Seq<u8>)
    ensures
        forall|i: int|
            0 <= i < percent(bytes).len() ==> (#[trigger] percent(bytes)[i]) == '%' || (
            percent(bytes)[i] <= '~' && unreserved(percent(bytes)[i] as u8)),
    decreases bytes.len(),
{
    if bytes.len() > 0 {
        let front = percent(bytes.drop_last());
        let last = percent_byte(bytes.last());
        lemma_percent_is_plain(bytes.drop_last());
        assert forall|i: int| 0 <= i < percent(bytes).len() implies (#[trigger] percent(bytes)[i])
            == '%' || (percent(bytes)[i] <= '~' && unreserved(percent(bytes)[i] as u8)) by {
            if i < front.len() {
                assert(percent(bytes)[i] == front[i]);
            } else {
                assert(percent(bytes)[i] == last[i - front.len()]);
            }
        }
    }
}

/// What is searched for can be read back from the address that the search is sent to, and
/// in that address it is spelt with unreserved characters and percent signs alone.
pub proof fn a_query_can_be_read_back(query: Seq<char>)
    ensures
        vstd::utf8::decode_utf8(unpercent(percent(vstd::utf8::encode_utf8(query)))) == query,
        forall|i: int|
            0 <= i < percent(vstd::utf8::encode_utf8(query)).len() ==> (#[trigger] percent(
                vstd::utf8::encode_utf8(query),
            )[i]) == '%' || (percent(vstd::utf8::encode_utf8(query))[i] <= '~' && unreserved(
                percent(vstd::utf8::encode_utf8(query))[i] as u8,
            )),
{
    let bytes = vstd::utf8::encode_utf8(query);
    lemma_unpercent(bytes, Seq::empty());
    assert(percent(bytes) + Seq::empty() =~= percent(bytes));
    assert(bytes + unpercent(Seq::empty()) =~= bytes);
    lemma_percent_is_plain(bytes);
    vstd::utf8::encode_utf8_decode_utf8(query);
}

// ---------------------------------------------------------------------------
// Answers
// ---------------------------------------------------------------------------

/// Whether an HTTP status says that the request succeeded.
pub open spec fn success(status: u16) -> bool {
    200 <= status < 300
}

/// What to say of a status that is no success.
pub open spec fn status_error(status: u16, message: Seq<char>) -> Seq<char> {
    "status "@ + text::decimal(status as nat) + ": "@ + message
}

/// Whether an HTTP status says that the request succeeded.
pub fn is_success(status: u16) -> (r: bool)
    ensures
        r == success(status),
{
    200 <= status && status < 300
}

/// Accepts a status that says success; else says the status and what the server wrote.
pub fn ensure_ok(status: u16, message: &str) -> (r: Result<(), String>)
    ensures
        success(status) <==> r is Ok,
        r matches Err(e) ==> e@ == status_error(status, message@),
{
    if is_success(status) {
        Ok(())
    } else {
        let mut e = text::cat3("status ", text::show(status as u64).as_str(), ": ");
        e.append(message);
        Err(e)
    }
}

/// What the answer to a scan request is.
#[derive(Debug)]
pub enum ScanAnswer {
    /// A scan runs already: the body tells of it; where it cannot be read, say this.
    Running { unreadable: String },
    /// The server refused.
    Refused,
    /// The body holds the state of the scan.
    State,
}

/// Tells what the answer to a scan request is.
pub fn scan_answer(status: u16) -> (r: ScanAnswer)
    ensures
        match r {
            ScanAnswer::Running { unreadable } => status == 409 && unreadable@
                == "already running"@,
            ScanAnswer::Refused => status != 409 && !success(status),
            ScanAnswer::State => success(status),
        },
{
    if status == 409 {
        ScanAnswer::Running { unreadable: text::copy("already running") }
    } else if !is_success(status) {
        ScanAnswer::Refused
    } else {
        ScanAnswer::State
    }
}

/// What to say where the server refused a scan, after what it wrote.
pub fn scan_refusal(message: &str) -> (r: String)
    ensures
        r@ == "server: "@ + message@,
{
    text::cat("server: ", message)
}

/// Whether another page may follow one of so many tracks: a full page may not be the last.
pub open spec fn more_may_follow(n: nat) -> bool {
    n >= PAGE
}

/// The tracks that the pages so far held.
#[derive(Debug)]
pub struct TrackPages {
    pub tracks: Vec<Track>,
}

impl TrackPages {
    /// No page yet.
    pub fn new() -> (r: Self)
        ensures
            r.tracks@ == Seq::<Track>::empty(),
    {
        TrackPages { tracks: Vec::new() }
    }

    /// Adds a page, and says whether to ask for another: a full page may not be the last.
    pub fn add_page(&mut self, chunk: Vec<Track>) -> (more: bool)
        ensures
            final(self).tracks@ == old(self).tracks@ + chunk@,
            more == (chunk@.len() >= PAGE),
            more == more_may_follow(chunk@.len()),
    {
        let n: usize = chunk.len();
        let mut chunk = chunk;
        self.tracks.append(&mut chunk);
        n >= PAGE
    }
}

/// The page of a library that follows its first `fetched` tracks.
pub open spec fn page<T>(library: Seq<T>, fetched: nat) -> Seq<T> {
    if fetched + PAGE <= library.len() {
        library.subrange(fetched as int, fetched + PAGE)
    } else {
        library.skip(fetched as int)
    }
}

/// From a server that gives its library page by page, the pages together are the start of
/// the library. Where the last page was not full, they are all of it; else there is more
/// of the library than before the page.
pub proof fn pages_make_up_the_library<T>(library: Seq<T>, fetched: nat)
    requires
        fetched <= library.len(),
    ensures
        ({
            let so_far = library.take(fetched as int) + page(library, fetched);
            &&& so_far == library.take(so_far.len() as int)
            &&& page(library, fetched).len() < PAGE ==> so_far == library
            &&& page(library, fetched).len() >= PAGE ==> fetched < so_far.len() <= library.len()
        }),
{
    let so_far = library.take(fetched as int) + page(library, fetched);
    assert(so_far =~= library.take(so_far.len() as int));
    if page(library, fetched).len() < PAGE {
        assert(so_far =~= library);
    }
}

} // verus!
