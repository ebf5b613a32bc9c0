//! The parts of the client's state, and what it asks of the world.

use crate::api::{Client, ClientView, Request, RequestView};
use crate::lists;
use crate::mpv::{PlayerCommand, PlayerCommandView};
use crate::text;
use vstd::prelude::*;

verus! {

/// A field of the settings.
#[derive(Debug, Clone, Copy, PartialEq, Eq, Structural)]
pub enum SettingsField {
    ServerUrl,
    AuthToken,
}

impl SettingsField {
    /// The name of the field.
    pub open spec fn label_text(self) -> Seq<char> {
        match self {
            SettingsField::ServerUrl => "Server URL"@,
            SettingsField::AuthToken => "Auth Token"@,
        }
    }

    /// The name of the field.
    pub fn label(&self) -> (r: &'static str)
        ensures
            r@ == self.label_text(),
    {
        match self {
            SettingsField::ServerUrl => "Server URL",
            SettingsField::AuthToken => "Auth Token",
        }
    }
}

/// Which pane of the playlists tab takes the keys.
#[derive(Debug, Clone, Copy, PartialEq, Eq, Structural)]
pub enum PlaylistsFocus {
    List,
    Tracks,
}

/// What is played again.
#[derive(Debug, Clone, Copy, PartialEq, Eq, Structural)]
pub enum RepeatMode {
    Off,
    All,
    One,
}

impl RepeatMode {
    /// The mode after this one.
    pub open spec fn next(self) -> RepeatMode {
        match self {
            RepeatMode::Off => RepeatMode::All,
            RepeatMode::All => RepeatMode::One,
            RepeatMode::One => RepeatMode::Off,
        }
    }

    /// The sign of the mode.
    pub open spec fn label_text(self) -> Seq<char> {
        match self {
            RepeatMode::Off => ""@,
            RepeatMode::All => "↻"@,
            RepeatMode::One => "↻¹"@,
        }
    }

    /// The mode in words.
    pub open spec fn status_text(self) -> Seq<char> {
        match self {
            RepeatMode::Off => "repeat off"@,
            RepeatMode::All => "repeat all"@,
            RepeatMode::One => "repeat one"@,
        }
    }

    /// Whether the player plays the queue again, in its words.
    pub open spec fn loop_playlist_text(self) -> Seq<char> {
        if self == RepeatMode::All {
            "inf"@
        } else {
            "no"@
        }
    }

    /// Whether the player plays a track again, in its words.
    pub open spec fn loop_file_text(self) -> Seq<char> {
        if self == RepeatMode::One {
            "inf"@
        } else {
            "no"@
        }
    }

    /// The mode after this one.
    pub fn cycle(self) -> (r: Self)
        ensures
            r == self.next(),
    {
        match self {
            RepeatMode::Off => RepeatMode::All,
            RepeatMode::All => RepeatMode::One,
            RepeatMode::One => RepeatMode::Off,
        }
    }

    /// The sign of the mode.
    pub fn label(self) -> (r: &'static str)
        ensures
            r@ == self.label_text(),
    {
        match self {
            RepeatMode::Off => "",
            RepeatMode::All => "↻",
            RepeatMode::One => "↻¹",
        }
    }

    /// The mode in words.
    pub fn status_label(self) -> (r: &'static str)
        ensures
            r@ == self.status_text(),
    {
        match self {
            RepeatMode::Off => "repeat off",
            RepeatMode::All => "repeat all",
            RepeatMode::One => "repeat one",
        }
    }

    /// Whether the player plays the queue again, in its words.
    pub fn loop_playlist(self) -> (r: &'static str)
        ensures
            r@ == self.loop_playlist_text(),
    {
        match self {
            RepeatMode::All => "inf",
            _ => "no",
        }
    }

    /// Whether the player plays a track again, in its words.
    pub fn loop_file(self) -> (r: &'static str)
        ensures
            r@ == self.loop_file_text(),
    {
        match self {
            RepeatMode::One => "inf",
            _ => "no",
        }
    }
}

/// A tab of the screen.
#[derive(Debug, Clone, Copy, PartialEq, Eq, Structural)]
pub enum Tab {
    Songs,
    Playlists,
    Queue,
    Settings,
}

/// The tabs, in order.
pub open spec fn tabs() -> Seq<Tab> {
    seq![Tab::Songs, Tab::Playlists, Tab::Queue, Tab::Settings]
}

/// The tab of a digit.
pub open spec fn digit_tab(c: char) -> Option<Tab> {
    if '1' <= c <= '4' {
        Some(tabs()[c as int - '1' as int])
    } else {
        None
    }
}

impl Tab {
    /// The name of the tab.
    pub open spec fn label_text(self) -> Seq<char> {
        match self {
            Tab::Songs => "Songs"@,
            Tab::Playlists => "Playlists"@,
            Tab::Queue => "Queue"@,
            Tab::Settings => "Settings"@,
        }
    }

    /// The tabs, in order.
    pub fn all() -> (r: Vec<Tab>)
        ensures
            r@ == tabs(),
    {
        let r = vec![Tab::Songs, Tab::Playlists, Tab::Queue, Tab::Settings];
        assert(r@ =~= tabs());
        r
    }

    /// The name of the tab.
    pub fn label(&self) -> (r: &'static str)
        ensures
            r@ == self.label_text(),
    {
        match self {
            Tab::Songs => "Songs",
            Tab::Playlists => "Playlists",
            Tab::Queue => "Queue",
            Tab::Settings => "Settings",
        }
    }

    /// The tab of a digit.
    pub fn from_digit(c: char) -> (r: Option<Tab>)
        ensures
            r == digit_tab(c),
    {
        match c {
            '1' => Some(Tab::Songs),
            '2' => Some(Tab::Playlists),
            '3' => Some(Tab::Queue),
            '4' => Some(Tab::Settings),
            _ => None,
        }
    }
}

/// What the keys do at the moment.
#[derive(Debug)]
pub enum Mode {
    Normal,
    Filter(String),
    TagSearch(String),
    AddTag(String),
    EditSetting(SettingsField, String),
    NewPlaylist(String),
    RenamePlaylist(i64, String),
    PickPlaylist { index: usize, track_id: i64 },
    SortPicker { index: usize },
}

/// A `Mode`, with its text as characters.
pub enum ModeView {
    Normal,
    Filter(Seq<char>),
    TagSearch(Seq<char>),
    AddTag(Seq<char>),
    EditSetting(SettingsField, Seq<char>),
    NewPlaylist(Seq<char>),
    RenamePlaylist(i64, Seq<char>),
    PickPlaylist { index: usize, track_id: i64 },
    SortPicker { index: usize },
}

impl View for Mode {
    type V = ModeView;

    open spec fn view(&self) -> ModeView {
        match self {
            Mode::Normal => ModeView::Normal,
            Mode::Filter(buf) => ModeView::Filter(buf@),
            Mode::TagSearch(buf) => ModeView::TagSearch(buf@),
            Mode::AddTag(buf) => ModeView::AddTag(buf@),
            Mode::EditSetting(field, buf) => ModeView::EditSetting(*field, buf@),
            Mode::NewPlaylist(buf) => ModeView::NewPlaylist(buf@),
            Mode::RenamePlaylist(id, buf) => ModeView::RenamePlaylist(*id, buf@),
            Mode::PickPlaylist { index, track_id } => ModeView::PickPlaylist {
                index: *index,
                track_id: *track_id,
            },
            Mode::SortPicker { index } => ModeView::SortPicker { index: *index },
        }
    }
}

impl Clone for Mode {
    fn clone(&self) -> (r: Self)
        ensures
            r == *self,
    {
        match self {
            Mode::Normal => Mode::Normal,
            Mode::Filter(buf) => Mode::Filter(buf.clone()),
            Mode::TagSearch(buf) => Mode::TagSearch(buf.clone()),
            Mode::AddTag(buf) => Mode::AddTag(buf.clone()),
            Mode::EditSetting(field, buf) => Mode::EditSetting(*field, buf.clone()),
            Mode::NewPlaylist(buf) => Mode::NewPlaylist(buf.clone()),
            Mode::RenamePlaylist(id, buf) => Mode::RenamePlaylist(*id, buf.clone()),
            Mode::PickPlaylist { index, track_id } => Mode::PickPlaylist {
                index: *index,
                track_id: *track_id,
            },
            Mode::SortPicker { index } => Mode::SortPicker { index: *index },
        }
    }
}

/// What follows once the playlists, or the tracks of one, have been fetched again.
#[derive(Debug, Clone, Copy, PartialEq, Eq, Structural)]
pub enum Next {
    /// Nothing.
    Rest,
    /// Select the playlist with this number, and fetch its tracks.
    SelectPlaylist(i64),
    /// Fetch the playlists again.
    ReloadPlaylists,
}

/// What follows once the tags of a track have been fetched again.
#[derive(Debug, Clone, Copy, PartialEq, Eq, Structural)]
pub enum TagsNext {
    /// Nothing.
    Rest,
    /// Show the tags.
    Show,
    /// Bring the selection into the list.
    KeepInRange,
}

/// A call of the server, with what has to be known when its answer is there.
#[derive(Debug)]
pub enum Call {
    Playlists(Next),
    PlaylistTracks(i64, Next),
    CreatePlaylist(String),
    RenamePlaylist(i64, String),
    DeletePlaylist(i64, String),
    AddToPlaylist { playlist: i64, track: i64, name: String },
    RemoveFromPlaylist { playlist: i64, track: i64 },
    SetPlaylistTracks(i64, Vec<i64>),
    Search(String),
    TrackTags(i64, TagsNext),
    AddUserTag { track: i64, namespace: String, value: String },
    RemoveUserTag { track: i64, tag: i64, label: String },
    TriggerScan,
    ScanStatus,
    /// All tracks, page by page, after a scan that ended with this summary.
    Tracks(Option<String>),
}

/// A `Call`, with its texts as characters.
pub enum CallView {
    Playlists(Next),
    PlaylistTracks(i64, Next),
    CreatePlaylist(Seq<char>),
    RenamePlaylist(i64, Seq<char>),
    DeletePlaylist(i64, Seq<char>),
    AddToPlaylist { playlist: i64, track: i64, name: Seq<char> },
    RemoveFromPlaylist { playlist: i64, track: i64 },
    SetPlaylistTracks(i64, Seq<i64>),
    Search(Seq<char>),
    TrackTags(i64, TagsNext),
    AddUserTag { track: i64, namespace: Seq<char>, value: Seq<char> },
    RemoveUserTag { track: i64, tag: i64, label: Seq<char> },
    TriggerScan,
    ScanStatus,
    Tracks(Option<Seq<char>>),
}

impl View for Call {
    type V = CallView;

    open spec fn view(&self) -> CallView {
        match self {
            Call::Playlists(next) => CallView::Playlists(*next),
            Call::PlaylistTracks(id, next) => CallView::PlaylistTracks(*id, *next),
            Call::CreatePlaylist(name) => CallView::CreatePlaylist(name@),
            Call::RenamePlaylist(id, name) => CallView::RenamePlaylist(*id, name@),
            Call::DeletePlaylist(id, name) => CallView::DeletePlaylist(*id, name@),
            Call::AddToPlaylist { playlist, track, name } => CallView::AddToPlaylist {
                playlist: *playlist,
                track: *track,
                name: name@,
            },
            Call::RemoveFromPlaylist { playlist, track } => CallView::RemoveFromPlaylist {
                playlist: *playlist,
                track: *track,
            },
            Call::SetPlaylistTracks(id, tracks) => CallView::SetPlaylistTracks(*id, tracks@),
            Call::Search(q) => CallView::Search(q@),
            Call::TrackTags(id, next) => CallView::TrackTags(*id, *next),
            Call::AddUserTag { track, namespace, value } => CallView::AddUserTag {
                track: *track,
                namespace: namespace@,
                value: value@,
            },
            Call::RemoveUserTag { track, tag, label } => CallView::RemoveUserTag {
                track: *track,
                tag: *tag,
                label: label@,
            },
            Call::TriggerScan => CallView::TriggerScan,
            Call::ScanStatus => CallView::ScanStatus,
            Call::Tracks(summary) => CallView::Tracks(text::opt(*summary)),
        }
    }
}

impl CallView {
    /// The request that makes the call. Where tracks come page by page, `fetched` are
    /// there already.
    pub open spec fn request(self, client: ClientView, fetched: nat) -> RequestView {
        match self {
            CallView::Playlists(_) => client.list_playlists(),
            CallView::PlaylistTracks(id, _) => client.get_playlist_tracks(id),
            CallView::CreatePlaylist(name) => client.create_playlist(name),
            CallView::RenamePlaylist(id, name) => client.rename_playlist(id, name),
            CallView::DeletePlaylist(id, _) => client.delete_playlist(id),
            CallView::AddToPlaylist { playlist, track, .. } => client.add_to_playlist(
                playlist,
                track,
            ),
            CallView::RemoveFromPlaylist { playlist, track } => client.remove_from_playlist(
                playlist,
                track,
            ),
            CallView::SetPlaylistTracks(id, tracks) => client.set_playlist_tracks(id, tracks),
            CallView::Search(q) => client.search(q),
            CallView::TrackTags(id, _) => client.list_track_tags(id),
            CallView::AddUserTag { track, namespace, value } => client.add_user_tag(
                track,
                namespace,
                value,
            ),
            CallView::RemoveUserTag { track, tag, .. } => client.remove_user_tag(track, tag),
            CallView::TriggerScan => client.trigger_scan(),
            CallView::ScanStatus => client.scan_status(),
            CallView::Tracks(_) => client.list_tracks(fetched),
        }
    }
}

impl Call {
    /// The request that makes the call.
    pub fn request(&self, client: &Client, fetched: usize) -> (r: Request)
        ensures
            r@ == self@.request(client@, fetched as nat),
    {
        match self {
            Call::Playlists(_) => client.list_playlists(),
            Call::PlaylistTracks(id, _) => client.get_playlist_tracks(*id),
            Call::CreatePlaylist(name) => client.create_playlist(name.as_str()),
            Call::RenamePlaylist(id, name) => client.rename_playlist(*id, name.as_str()),
            Call::DeletePlaylist(id, _) => client.delete_playlist(*id),
            Call::AddToPlaylist { playlist, track, .. } => client.add_to_playlist(
                *playlist,
                *track,
            ),
            Call::RemoveFromPlaylist { playlist, track } => client.remove_from_playlist(
                *playlist,
                *track,
            ),
            Call::SetPlaylistTracks(id, tracks) => client.set_playlist_tracks(
                *id,
                copy_ids(tracks),
            ),
            Call::Search(q) => client.search(q.as_str()),
            Call::TrackTags(id, _) => client.list_track_tags(*id),
            Call::AddUserTag { track, namespace, value } => client.add_user_tag(
                *track,
                namespace.as_str(),
                value.as_str(),
            ),
            Call::RemoveUserTag { track, tag, .. } => client.remove_user_tag(*track, *tag),
            Call::TriggerScan => client.trigger_scan(),
            Call::ScanStatus => client.scan_status(),
            Call::Tracks(_) => client.list_tracks(fetched),
        }
    }
}

/// A copy of a list of numbers.
fn copy_ids(v: &Vec<i64>) -> (r: Vec<i64>)
    ensures
        r@ == v@,
{
    let mut r: Vec<i64> = Vec::new();
    for i in 0..v.len()
        invariant
            r@ == v@.take(i as int),
    {
        r.push(v[i]);
        assert(r@ =~= v@.take(i + 1));
    }
    assert(r@ =~= v@);
    r
}

/// What the client asks of the world.
#[derive(Debug)]
pub enum Effect {
    /// Nothing.
    Idle,
    /// Send these commands to the player.
    Player(Vec<PlayerCommand>),
    /// Shuffle the player's queue.
    Shuffle,
    /// Save the settings.
    SaveSettings,
    /// Give the player these headers, whether it takes them or not, and fetch all tracks
    /// from the new server.
    Reconnect(Vec<String>),
    /// Call the server.
    Call(Call),
}

/// An `Effect`, with its texts as characters.
pub enum EffectView {
    Idle,
    Player(Seq<PlayerCommandView>),
    Shuffle,
    SaveSettings,
    Reconnect(Seq<Seq<char>>),
    Call(CallView),
}

impl View for Effect {
    type V = EffectView;

    open spec fn view(&self) -> EffectView {
        match self {
            Effect::Idle => EffectView::Idle,
            Effect::Player(commands) => EffectView::Player(lists::views(commands@)),
            Effect::Shuffle => EffectView::Shuffle,
            Effect::SaveSettings => EffectView::SaveSettings,
            Effect::Reconnect(headers) => EffectView::Reconnect(text::texts(headers@)),
            Effect::Call(call) => EffectView::Call(call@),
        }
    }
}

} // verus!
