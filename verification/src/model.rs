//! What the client does: the state it holds, and for every key and every answer the next
//! state and what is asked of the world.

use crate::api;
use crate::api::{
    ClientView, PlaylistTrackView, PlaylistView, ScanStateView, ScanStats, TrackTagView, TrackView,
};
use crate::keys;
use crate::keys::{Key, KeyCode};
use crate::lists;
use crate::lists::ListState;
use crate::mpv::{PlayerCommandView, PlayerStateView};
use crate::order;
use crate::order::SortKey;
use crate::parse;
use crate::settings::SettingsView;
use crate::sort;
use crate::state;
use crate::state::{
    CallView, EffectView, ModeView, Next, PlaylistsFocus, RepeatMode, SettingsField, Tab, TagsNext,
};
use crate::text;
use vstd::prelude::*;

verus! {

/// The state of the client.
#[verifier::ext_equal]
pub struct AppView {
    pub client: ClientView,
    pub tracks: Seq<TrackView>,
    pub filtered: Seq<usize>,
    pub list_state: ListState,
    pub tags_state: ListState,
    pub queue_state: ListState,
    pub tab: Tab,
    pub mode: ModeView,
    pub settings: SettingsView,
    pub saved_settings: SettingsView,
    pub settings_field: SettingsField,
    pub current_tags: Seq<TrackTagView>,
    pub playlists: Seq<PlaylistView>,
    pub playlists_state: ListState,
    pub playlists_focus: PlaylistsFocus,
    pub playlist_tracks: Seq<PlaylistTrackView>,
    pub playlist_tracks_state: ListState,
    pub playlist_tracks_for: Option<i64>,
    pub current_tags_for: Option<i64>,
    pub repeat: RepeatMode,
    pub sort_key: SortKey,
    pub status_msg: Seq<char>,
    pub show_help: bool,
    pub show_tags: bool,
    pub should_quit: bool,
    pub scan_polling: bool,
    pub last_scan_poll: u64,
}

/// How long to wait between two looks at a scan, in nanoseconds.
pub const POLL_INTERVAL: u64 = 1_500_000_000;

// ---------------------------------------------------------------------------
// Lists of tracks
// ---------------------------------------------------------------------------

/// The places of a list of `n` items.
pub open spec fn all_places(n: nat) -> Seq<usize> {
    Seq::new(n, |i: int| i as usize)
}

/// Whether places are places of a list of `n` items.
pub open spec fn places_in(places: Seq<usize>, n: nat) -> bool {
    forall|i: int| 0 <= i < places.len() ==> #[trigger] places[i] < n
}

/// The text of a track that a filter looks at.
pub open spec fn searched_text(t: TrackView) -> Seq<char> {
    t.display_artist() + " "@ + t.display_title() + " "@ + t.display_album()
}

/// Whether a track passes a filter, whatever the case of the letters. An empty filter lets
/// everything pass.
pub open spec fn passes(t: TrackView, q: Seq<char>) -> bool {
    q.len() == 0 || text::occurs(text::lowercase(q), text::lowercase(searched_text(t)))
}

/// The places of the tracks that pass a filter.
pub open spec fn passing(tracks: Seq<TrackView>, q: Seq<char>) -> Seq<usize>
    decreases tracks.len(),
{
    if tracks.len() == 0 {
        Seq::empty()
    } else {
        let front = passing(tracks.drop_last(), q);
        if passes(tracks.last(), q) {
            front.push((tracks.len() - 1) as usize)
        } else {
            front
        }
    }
}

/// The last place of a track with a number, if there is one.
pub open spec fn last_place(tracks: Seq<TrackView>, id: i64) -> Option<usize>
    decreases tracks.len(),
{
    if tracks.len() == 0 {
        None
    } else if tracks.last().id == id {
        Some((tracks.len() - 1) as usize)
    } else {
        last_place(tracks.drop_last(), id)
    }
}

/// The places of the hits of a search among the tracks; hits that are not there are left
/// out.
pub open spec fn hit_places(tracks: Seq<TrackView>, hits: Seq<TrackView>) -> Seq<usize>
    decreases hits.len(),
{
    if hits.len() == 0 {
        Seq::empty()
    } else {
        let front = hit_places(tracks, hits.drop_last());
        match last_place(tracks, hits.last().id) {
            Some(i) => front.push(i),
            None => front,
        }
    }
}

/// The numbers of the tracks at places.
pub open spec fn ids_at(tracks: Seq<TrackView>, places: Seq<usize>) -> Seq<i64> {
    places.map_values(|i: usize| tracks[i as int].id)
}

/// The numbers of playlists.
pub open spec fn playlist_ids(playlists: Seq<PlaylistView>) -> Seq<i64> {
    playlists.map_values(|p: PlaylistView| p.id)
}

/// The numbers of the tracks of a playlist.
pub open spec fn track_ids(tracks: Seq<PlaylistTrackView>) -> Seq<i64> {
    tracks.map_values(|t: PlaylistTrackView| t.track_id)
}

/// The tracks of a playlist with their positions counted anew.
pub open spec fn renumbered(tracks: Seq<PlaylistTrackView>) -> Seq<PlaylistTrackView> {
    tracks.map(|i: int, t: PlaylistTrackView| PlaylistTrackView { position: i as i64, ..t })
}

/// The commands that queue tracks.
pub open spec fn enqueue(client: ClientView, ids: Seq<i64>) -> Seq<PlayerCommandView> {
    ids.map_values(|id: i64| PlayerCommandView::Enqueue(client.stream_url(id)))
}

/// What is said of a track that was queued.
pub open spec fn queued_text(artist: Seq<char>, title: Seq<char>) -> Seq<char> {
    "queued: "@ + artist + " — "@ + title
}

/// What is said of a scan that is done.
pub open spec fn summary_text(s: ScanStats) -> Seq<char> {
    "scan done: seen="@ + text::decimal(s.seen as nat) + " +"@ + text::decimal(s.inserted as nat)
        + " ~"@ + text::decimal(s.updated as nat) + " ="@ + text::decimal(s.unchanged as nat)
        + " fail="@ + text::decimal(s.failed as nat)
}

/// What is said of a scan that is done, if it has been counted.
pub open spec fn summary(stats: Option<ScanStats>) -> Option<Seq<char>> {
    match stats {
        Some(s) => Some(summary_text(s)),
        None => None,
    }
}

/// The index of a picker, after a key.
pub open spec fn picker_index(index: usize, code: KeyCode, len: nat) -> usize {
    if keys::is_down(code) && len > 0 {
        lists::clamp(index + 1, len) as usize
    } else if keys::is_up(code) && index > 0 {
        (index - 1) as usize
    } else {
        index
    }
}

/// A mode in which a text is typed, after one more key.
pub open spec fn edited_mode(mode: ModeView, code: KeyCode) -> ModeView {
    match mode {
        ModeView::TagSearch(buf) => ModeView::TagSearch(keys::edited(buf, code)),
        ModeView::AddTag(buf) => ModeView::AddTag(keys::edited(buf, code)),
        ModeView::EditSetting(field, buf) => ModeView::EditSetting(field, keys::edited(buf, code)),
        ModeView::NewPlaylist(buf) => ModeView::NewPlaylist(keys::edited(buf, code)),
        ModeView::RenamePlaylist(id, buf) => ModeView::RenamePlaylist(id, keys::edited(buf, code)),
        _ => mode,
    }
}

impl AppView {
    /// Whether the state holds together: the list shows tracks that are there, one of them
    /// is selected unless the list is empty, and so is no playlist and no track of one that
    /// is not there.
    pub open spec fn wf(self) -> bool {
        &&& places_in(self.filtered, self.tracks.len())
        &&& lists::is_place(self.list_state.selected, self.filtered.len())
        &&& self.list_state.selected is None ==> self.filtered.len() == 0
        &&& self.playlists_hold_together()
    }

    /// Whether no playlist and no track of one is selected that is not there.
    pub open spec fn playlists_hold_together(self) -> bool {
        &&& lists::is_place(self.playlists_state.selected, self.playlists.len())
        &&& lists::is_place(self.playlist_tracks_state.selected, self.playlist_tracks.len())
    }

    /// The first state, and the first thing to do: fetch the playlists.
    pub open spec fn new(
        client: ClientView,
        tracks: Seq<TrackView>,
        settings: SettingsView,
        now: u64,
    ) -> (AppView, EffectView) {
        let none = ListState { offset: 0, selected: None };
        (
            AppView {
                client,
                tracks,
                filtered: all_places(tracks.len()),
                list_state: lists::select(none, lists::first(tracks.len())),
                tags_state: none,
                queue_state: none,
                tab: Tab::Songs,
                mode: ModeView::Normal,
                settings,
                saved_settings: settings,
                settings_field: SettingsField::ServerUrl,
                current_tags: Seq::empty(),
                playlists: Seq::empty(),
                playlists_state: none,
                playlists_focus: PlaylistsFocus::List,
                playlist_tracks: Seq::empty(),
                playlist_tracks_state: none,
                playlist_tracks_for: None,
                current_tags_for: None,
                repeat: RepeatMode::Off,
                sort_key: SortKey::Default,
                status_msg: Seq::empty(),
                show_help: false,
                show_tags: false,
                should_quit: false,
                scan_polling: false,
                last_scan_poll: now,
            },
            EffectView::Call(CallView::Playlists(Next::Rest)),
        )
    }

    /// This state, and nothing to do.
    pub open spec fn idle(self) -> (AppView, EffectView) {
        (self, EffectView::Idle)
    }

    /// This state, and a call of the server to make.
    pub open spec fn calling(self, call: CallView) -> (AppView, EffectView) {
        (self, EffectView::Call(call))
    }

    /// This state with something said.
    pub open spec fn saying(self, s: Seq<char>) -> AppView {
        AppView { status_msg: s, ..self }
    }

    /// This state in another mode.
    pub open spec fn in_mode(self, mode: ModeView) -> AppView {
        AppView { mode, ..self }
    }

    /// The track that is selected.
    pub open spec fn selected_track(self) -> Option<TrackView> {
        match self.list_state.selected {
            Some(i) => if i < self.filtered.len() && self.filtered[i as int] < self.tracks.len() {
                Some(self.tracks[self.filtered[i as int] as int])
            } else {
                None
            },
            None => None,
        }
    }

    /// The playlist that is selected.
    pub open spec fn selected_playlist(self) -> Option<PlaylistView> {
        match self.playlists_state.selected {
            Some(i) => if i < self.playlists.len() {
                Some(self.playlists[i as int])
            } else {
                None
            },
            None => None,
        }
    }

    // -----------------------------------------------------------------------
    // Playlists
    // -----------------------------------------------------------------------

    /// What follows once the playlists or the tracks of one are there.
    pub open spec fn finish(self, next: Next) -> (AppView, EffectView) {
        match next {
            Next::Rest => self.idle(),
            Next::SelectPlaylist(id) => match lists::place_of(playlist_ids(self.playlists), id) {
                Some(i) => AppView {
                    playlists_state: lists::select(self.playlists_state, Some(i)),
                    ..self
                }.calling(CallView::PlaylistTracks(id, Next::Rest)),
                None => self.idle(),
            },
            Next::ReloadPlaylists => self.calling(CallView::Playlists(Next::Rest)),
        }
    }

    /// Fetching the tracks of the selected playlist again; without one there are none.
    pub open spec fn refresh_playlist_tracks(self, next: Next) -> (AppView, EffectView) {
        match self.selected_playlist() {
            Some(p) => self.calling(CallView::PlaylistTracks(p.id, next)),
            None => AppView {
                playlist_tracks: Seq::empty(),
                playlist_tracks_for: None,
                playlist_tracks_state: lists::select(self.playlist_tracks_state, None),
                ..self
            }.finish(next),
        }
    }

    /// The playlists are there: the selected one stays selected, else the first is.
    pub open spec fn playlists_loaded(
        self,
        r: Result<Seq<PlaylistView>, Seq<char>>,
        next: Next,
    ) -> (AppView, EffectView) {
        match r {
            Ok(playlists) => {
                let kept = match self.selected_playlist() {
                    Some(p) => lists::place_of(playlist_ids(playlists), p.id),
                    None => None,
                };
                let selected = if kept is None {
                    lists::first(playlists.len())
                } else {
                    kept
                };
                AppView {
                    playlists,
                    playlists_state: lists::select(self.playlists_state, selected),
                    ..self
                }.refresh_playlist_tracks(next)
            },
            Err(e) => self.saying("playlists: "@ + e).finish(next),
        }
    }

    /// The tracks of a playlist are there.
    pub open spec fn playlist_tracks_loaded(
        self,
        id: i64,
        r: Result<Seq<PlaylistTrackView>, Seq<char>>,
        next: Next,
    ) -> (AppView, EffectView) {
        match r {
            Ok(tracks) => AppView {
                playlist_tracks: tracks,
                playlist_tracks_for: Some(id),
                playlist_tracks_state: lists::select(
                    self.playlist_tracks_state,
                    lists::first(tracks.len()),
                ),
                ..self
            }.finish(next),
            Err(e) => AppView {
                playlist_tracks: Seq::empty(),
                playlist_tracks_for: Some(id),
                playlist_tracks_state: lists::select(self.playlist_tracks_state, None),
                status_msg: "playlist tracks: "@ + e,
                ..self
            }.finish(next),
        }
    }

    /// A name for a new playlist was typed.
    pub open spec fn commit_new_playlist(self, raw: Seq<char>) -> (AppView, EffectView) {
        let name = text::trim(raw);
        if name.len() == 0 {
            self.saying("playlist name is empty"@).idle()
        } else {
            self.calling(CallView::CreatePlaylist(name))
        }
    }

    /// A playlist was made, or not: a new one gets selected.
    pub open spec fn playlist_created(
        self,
        r: Result<PlaylistView, Seq<char>>,
    ) -> (AppView, EffectView) {
        match r {
            Ok(p) => self.saying("created playlist "@ + p.name).calling(
                CallView::Playlists(Next::SelectPlaylist(p.id)),
            ),
            Err(e) => self.saying("create failed: "@ + e).idle(),
        }
    }

    /// Another name for a playlist was typed.
    pub open spec fn commit_rename_playlist(self, id: i64, raw: Seq<char>) -> (
        AppView,
        EffectView,
    ) {
        let name = text::trim(raw);
        if name.len() == 0 {
            self.saying("name is empty"@).idle()
        } else {
            self.calling(CallView::RenamePlaylist(id, name))
        }
    }

    /// A playlist was renamed, or not.
    pub open spec fn playlist_renamed(self, r: Result<(), Seq<char>>) -> (AppView, EffectView) {
        match r {
            Ok(_) => self.saying("renamed"@).calling(CallView::Playlists(Next::Rest)),
            Err(e) => self.saying("rename failed: "@ + e).idle(),
        }
    }

    /// Deleting the selected playlist.
    pub open spec fn delete_selected_playlist(self) -> (AppView, EffectView) {
        match self.selected_playlist() {
            Some(p) => self.calling(CallView::DeletePlaylist(p.id, p.name)),
            None => self.idle(),
        }
    }

    /// A playlist was deleted, or not.
    pub open spec fn playlist_deleted(self, name: Seq<char>, r: Result<(), Seq<char>>) -> (
        AppView,
        EffectView,
    ) {
        match r {
            Ok(_) => AppView {
                playlists_state: lists::select(self.playlists_state, None),
                playlist_tracks_for: None,
                ..self.saying("deleted "@ + name)
            }.calling(CallView::Playlists(Next::Rest)),
            Err(e) => self.saying("delete failed: "@ + e).idle(),
        }
    }

    /// Playing the selected playlist from one of its tracks on.
    pub open spec fn play_selected_playlist(self, start_index: usize) -> (AppView, EffectView) {
        match self.selected_playlist() {
            None => self.idle(),
            Some(p) => {
                let n = self.playlist_tracks.len();
                let start = lists::clamp(start_index as int, n);
                let ids = track_ids(self.playlist_tracks);
                if n == 0 {
                    self.saying("playlist is empty"@).idle()
                } else {
                    (
                        self.saying(
                            "playing "@ + p.name + " from #"@ + text::decimal((start + 1) as nat)
                                + " ("@ + text::decimal((n - start) as nat) + " tracks)"@,
                        ),
                        EffectView::Player(
                            seq![
                                PlayerCommandView::Load(self.client.stream_url(ids[start])),
                                PlayerCommandView::SetPause(false),
                            ] + enqueue(self.client, ids.skip(start + 1)),
                        ),
                    )
                }
            },
        }
    }

    /// Taking the selected track out of the selected playlist.
    pub open spec fn remove_selected_playlist_track(self) -> (AppView, EffectView) {
        match (self.selected_playlist(), self.playlist_tracks_state.selected) {
            (Some(p), Some(i)) => if i < self.playlist_tracks.len() {
                self.calling(
                    CallView::RemoveFromPlaylist {
                        playlist: p.id,
                        track: self.playlist_tracks[i as int].track_id,
                    },
                )
            } else {
                self.idle()
            },
            _ => self.idle(),
        }
    }

    /// A track was taken out of a playlist, or not.
    pub open spec fn removed_from_playlist(self, r: Result<(), Seq<char>>) -> (
        AppView,
        EffectView,
    ) {
        match r {
            Ok(_) => self.saying("removed from playlist"@).refresh_playlist_tracks(
                Next::ReloadPlaylists,
            ),
            Err(e) => self.saying("remove failed: "@ + e).idle(),
        }
    }

    /// A track was added to a playlist, or not.
    pub open spec fn added_to_playlist(
        self,
        playlist: i64,
        name: Seq<char>,
        r: Result<(), Seq<char>>,
    ) -> (AppView, EffectView) {
        match r {
            Ok(_) => {
                let said = self.saying("added to "@ + name);
                if self.playlist_tracks_for == Some(playlist) {
                    said.refresh_playlist_tracks(Next::ReloadPlaylists)
                } else {
                    said.calling(CallView::Playlists(Next::Rest))
                }
            },
            Err(e) => self.saying("add failed: "@ + e).idle(),
        }
    }

    /// Moving the selected track inside its playlist.
    pub open spec fn move_playlist_track(self, delta: int) -> (AppView, EffectView) {
        match (self.selected_playlist(), self.playlist_tracks_state.selected) {
            (Some(p), Some(i)) => {
                let new = i + delta;
                if 0 <= new < self.playlist_tracks.len() {
                    let tracks = renumbered(lists::swapped(self.playlist_tracks, i as int, new));
                    AppView {
                        playlist_tracks: tracks,
                        playlist_tracks_state: lists::select(
                            self.playlist_tracks_state,
                            Some(new as usize),
                        ),
                        ..self
                    }.calling(CallView::SetPlaylistTracks(p.id, track_ids(tracks)))
                } else {
                    self.idle()
                }
            },
            _ => self.idle(),
        }
    }

    /// The tracks of a playlist were put in order on the server, or not.
    pub open spec fn playlist_tracks_set(self, r: Result<(), Seq<char>>) -> (AppView, EffectView) {
        match r {
            Ok(_) => self.idle(),
            Err(e) => self.saying("reorder failed: "@ + e).refresh_playlist_tracks(Next::Rest),
        }
    }

    /// Moving the selection among the playlists.
    pub open spec fn move_playlist_selection(self, delta: int) -> (AppView, EffectView) {
        let selected = lists::moved(self.playlists_state.selected, delta, self.playlists.len());
        if self.playlists.len() == 0 || selected == self.playlists_state.selected {
            self.idle()
        } else {
            self.select_playlist(selected)
        }
    }

    /// Selecting a playlist, and fetching its tracks.
    pub open spec fn select_playlist(self, selected: Option<usize>) -> (AppView, EffectView) {
        AppView {
            playlists_state: lists::select(self.playlists_state, selected),
            ..self
        }.refresh_playlist_tracks(Next::Rest)
    }

    /// A key in the list of playlists.
    pub open spec fn playlists_list_key(self, code: KeyCode) -> (AppView, EffectView) {
        if keys::is_down(code) {
            self.move_playlist_selection(1)
        } else if keys::is_up(code) {
            self.move_playlist_selection(-1)
        } else if keys::is_top(code) {
            if self.playlists.len() == 0 {
                self.idle()
            } else {
                self.select_playlist(Some(0))
            }
        } else if keys::is_bottom(code) {
            if self.playlists.len() == 0 {
                self.idle()
            } else {
                self.select_playlist(lists::last(self.playlists.len()))
            }
        } else {
            match code {
                KeyCode::Enter => AppView {
                    playlists_focus: PlaylistsFocus::Tracks,
                    ..self
                }.refresh_playlist_tracks(Next::Rest),
                KeyCode::Char('N') => self.in_mode(ModeView::NewPlaylist(Seq::empty())).idle(),
                KeyCode::Char('r') => match self.selected_playlist() {
                    Some(p) => self.in_mode(ModeView::RenamePlaylist(p.id, p.name)).idle(),
                    None => self.idle(),
                },
                KeyCode::Char('D') => self.delete_selected_playlist(),
                KeyCode::Char('P') => self.play_selected_playlist(0),
                _ => self.idle(),
            }
        }
    }

    /// This state with another track of the playlist selected.
    pub open spec fn with_playlist_track(self, selected: Option<usize>) -> AppView {
        AppView {
            playlist_tracks_state: lists::select(self.playlist_tracks_state, selected),
            ..self
        }
    }

    /// Queueing the selected track of a playlist.
    pub open spec fn enqueue_playlist_track(self) -> (AppView, EffectView) {
        match self.playlist_tracks_state.selected {
            Some(i) => if i < self.playlist_tracks.len() {
                let t = self.playlist_tracks[i as int];
                (
                    self.saying(queued_text(t.display_artist(), t.display_title())),
                    EffectView::Player(
                        seq![PlayerCommandView::Enqueue(self.client.stream_url(t.track_id))],
                    ),
                )
            } else {
                self.idle()
            },
            None => self.idle(),
        }
    }

    /// A key in the tracks of a playlist.
    pub open spec fn playlists_tracks_key(self, code: KeyCode) -> (AppView, EffectView) {
        let len = self.playlist_tracks.len();
        let selected = self.playlist_tracks_state.selected;
        if keys::is_down(code) || keys::is_up(code) || keys::is_top(code) || keys::is_bottom(code) {
            if len == 0 {
                self.idle()
            } else if keys::is_down(code) {
                self.with_playlist_track(lists::moved(selected, 1, len)).idle()
            } else if keys::is_up(code) {
                self.with_playlist_track(lists::up(selected)).idle()
            } else if keys::is_top(code) {
                self.with_playlist_track(Some(0)).idle()
            } else {
                self.with_playlist_track(lists::last(len)).idle()
            }
        } else {
            match code {
                KeyCode::Enter => match selected {
                    Some(i) => self.play_selected_playlist(i),
                    None => self.idle(),
                },
                KeyCode::Char('a') => self.enqueue_playlist_track(),
                KeyCode::Char('d') => self.remove_selected_playlist_track(),
                KeyCode::Char('J') => self.move_playlist_track(1),
                KeyCode::Char('K') => self.move_playlist_track(-1),
                _ => self.idle(),
            }
        }
    }

    /// A key in the playlists tab.
    #[verifier::opaque]
    pub open spec fn playlists_key(self, code: KeyCode) -> (AppView, EffectView) {
        match self.playlists_focus {
            PlaylistsFocus::List => if code == KeyCode::Tab {
                AppView { playlists_focus: PlaylistsFocus::Tracks, ..self }.idle()
            } else {
                self.playlists_list_key(code)
            },
            PlaylistsFocus::Tracks => if code == KeyCode::Tab || code == KeyCode::Esc {
                AppView { playlists_focus: PlaylistsFocus::List, ..self }.idle()
            } else {
                self.playlists_tracks_key(code)
            },
        }
    }

    // -----------------------------------------------------------------------
    // Scans
    // -----------------------------------------------------------------------

    /// A scan was asked for, and the server answered.
    pub open spec fn scan_triggered(
        self,
        r: Result<ScanStateView, Seq<char>>,
        now: u64,
    ) -> (AppView, EffectView) {
        match r {
            Ok(scan) => AppView {
                status_msg: if scan.running {
                    "rescanning library…"@
                } else {
                    "scan triggered"@
                },
                scan_polling: scan.running,
                last_scan_poll: now,
                ..self
            }.idle(),
            Err(e) => self.saying("scan: "@ + e).idle(),
        }
    }

    /// Looking at the scan, where one runs and the last look is long enough ago.
    pub open spec fn poll_scan_if_due(self, now: u64) -> (AppView, EffectView) {
        if self.scan_polling && now - self.last_scan_poll >= POLL_INTERVAL {
            AppView { last_scan_poll: now, ..self }.calling(CallView::ScanStatus)
        } else {
            self.idle()
        }
    }

    /// The server said where the scan stands.
    pub open spec fn scan_polled(self, r: Result<ScanStateView, Seq<char>>) -> (
        AppView,
        EffectView,
    ) {
        match r {
            Ok(scan) => if scan.running {
                self.idle()
            } else {
                let stopped = AppView { scan_polling: false, ..self };
                match scan.last_error {
                    Some(e) => stopped.saying("scan failed: "@ + e).idle(),
                    None => stopped.calling(CallView::Tracks(summary(scan.last_stats))),
                }
            },
            Err(_) => self.idle(),
        }
    }

    /// This state with other tracks, and with no tags.
    pub open spec fn with_tracks(self, tracks: Seq<TrackView>) -> AppView {
        AppView { tracks, current_tags: Seq::empty(), current_tags_for: None, ..self }
    }

    /// The tracks are there after a scan: all are shown, and the track at the selected
    /// place stays selected.
    pub open spec fn rescanned(
        self,
        summary: Option<Seq<char>>,
        r: Result<Seq<TrackView>, Seq<char>>,
    ) -> (AppView, EffectView) {
        match r {
            Ok(tracks) => {
                let new = self.with_tracks(tracks);
                let shown = new.apply_filter(Seq::empty());
                let kept = match new.selected_track() {
                    Some(t) => lists::place_of(ids_at(tracks, shown.filtered), t.id),
                    None => None,
                };
                AppView {
                    list_state: if kept is Some {
                        lists::select(shown.list_state, kept)
                    } else {
                        shown.list_state
                    },
                    status_msg: match summary {
                        Some(s) => s,
                        None => "scan done — "@ + text::decimal(tracks.len()) + " tracks"@,
                    },
                    ..shown
                }.idle()
            },
            Err(e) => {
                let done = match summary {
                    Some(s) => s,
                    None => "scan done"@,
                };
                self.saying(done + " (reload failed: "@ + e + ")"@).idle()
            },
        }
    }

    // -----------------------------------------------------------------------
    // Settings
    // -----------------------------------------------------------------------

    /// The field that is being looked at.
    pub open spec fn field_text(self, field: SettingsField) -> Seq<char> {
        match field {
            SettingsField::ServerUrl => self.settings.server_url,
            SettingsField::AuthToken => self.settings.auth_token,
        }
    }

    /// The settings with one field replaced.
    pub open spec fn with_field(self, field: SettingsField, value: Seq<char>) -> AppView {
        let settings = match field {
            SettingsField::ServerUrl => SettingsView { server_url: value, ..self.settings },
            SettingsField::AuthToken => SettingsView { auth_token: value, ..self.settings },
        };
        AppView { settings, ..self }
    }

    /// A key in the settings tab.
    #[verifier::opaque]
    pub open spec fn settings_key(self, code: KeyCode) -> (AppView, EffectView) {
        if keys::is_down(code) {
            AppView { settings_field: SettingsField::AuthToken, ..self }.idle()
        } else if keys::is_up(code) {
            AppView { settings_field: SettingsField::ServerUrl, ..self }.idle()
        } else {
            match code {
                KeyCode::Enter | KeyCode::Char('e') => self.in_mode(
                    ModeView::EditSetting(
                        self.settings_field,
                        self.field_text(self.settings_field),
                    ),
                ).idle(),
                KeyCode::Char('s') => (self, EffectView::SaveSettings),
                KeyCode::Char('r') | KeyCode::Esc => AppView {
                    settings: self.saved_settings,
                    ..self
                }.saying("settings reverted"@).idle(),
                _ => self.idle(),
            }
        }
    }

    /// The settings were saved, or not: once saved they are used.
    pub open spec fn settings_saved(self, r: Result<(), Seq<char>>) -> (AppView, EffectView) {
        match r {
            Ok(_) => (
                AppView {
                    saved_settings: self.settings,
                    client: self.settings.client(),
                    ..self
                },
                EffectView::Reconnect(self.settings.headers()),
            ),
            Err(e) => self.saying("save failed: "@ + e).idle(),
        }
    }

    /// The tracks of the new server are there, or not.
    pub open spec fn reconnected(self, r: Result<Seq<TrackView>, Seq<char>>) -> (
        AppView,
        EffectView,
    ) {
        match r {
            Ok(tracks) => AppView {
                filtered: sort::sorted(tracks, self.sort_key, all_places(tracks.len())),
                list_state: lists::select(self.list_state, lists::first(tracks.len())),
                ..self.with_tracks(tracks)
            }.saying("saved & reloaded ("@ + text::decimal(tracks.len()) + " tracks)"@).idle(),
            Err(e) => AppView {
                filtered: Seq::empty(),
                list_state: lists::select(self.list_state, None),
                ..self.with_tracks(Seq::empty())
            }.saying("saved, but connect failed: "@ + e).idle(),
        }
    }

    // -----------------------------------------------------------------------
    // Songs
    // -----------------------------------------------------------------------

    /// This state with some tracks shown, in order, and the first of them selected.
    pub open spec fn showing(self, places: Seq<usize>) -> AppView {
        AppView {
            filtered: sort::sorted(self.tracks, self.sort_key, places),
            list_state: lists::select(self.list_state, lists::first(places.len())),
            ..self
        }
    }

    /// This state with the tracks shown that pass a filter.
    pub open spec fn apply_filter(self, q: Seq<char>) -> AppView {
        self.showing(passing(self.tracks, q))
    }

    /// Sorting by a key: the selected track stays selected.
    pub open spec fn apply_sort(self, key: SortKey) -> AppView {
        let filtered = sort::sorted(self.tracks, key, self.filtered);
        let kept = match self.selected_track() {
            Some(t) => lists::place_of(ids_at(self.tracks, filtered), t.id),
            None => None,
        };
        let selected = if kept is None {
            lists::first(filtered.len())
        } else {
            kept
        };
        AppView {
            sort_key: key,
            filtered,
            list_state: lists::select(self.list_state, selected),
            ..self
        }.saying("sort: "@ + key.short_label_text())
    }

    /// A tag search was typed.
    pub open spec fn run_tag_search(self, query: Seq<char>) -> (AppView, EffectView) {
        let q = text::trim(query);
        if q.len() == 0 {
            self.apply_filter(Seq::empty()).idle()
        } else {
            self.calling(CallView::Search(q))
        }
    }

    /// The hits of a search are there, or not.
    pub open spec fn search_done(
        self,
        q: Seq<char>,
        r: Result<Seq<TrackView>, Seq<char>>,
    ) -> (AppView, EffectView) {
        match r {
            Ok(hits) => {
                let places = hit_places(self.tracks, hits);
                self.showing(places).saying(
                    "tag search '"@ + q + "': "@ + text::decimal(places.len()) + " hits"@,
                ).idle()
            },
            Err(e) => self.saying("search failed: "@ + e).idle(),
        }
    }

    /// This state with another item of the list selected.
    pub open spec fn with_track(self, selected: Option<usize>) -> AppView {
        AppView { list_state: lists::select(self.list_state, selected), ..self }
    }

    /// Moving the selection among the tracks.
    pub open spec fn move_selection(self, delta: int) -> AppView {
        if self.filtered.len() == 0 {
            self
        } else {
            self.with_track(lists::moved(self.list_state.selected, delta, self.filtered.len()))
        }
    }

    /// Playing the selected track.
    pub open spec fn play_selected(self) -> (AppView, EffectView) {
        match self.selected_track() {
            Some(t) => (
                self,
                EffectView::Player(
                    seq![
                        PlayerCommandView::Load(self.client.stream_url(t.id)),
                        PlayerCommandView::SetPause(false),
                    ],
                ),
            ),
            None => self.idle(),
        }
    }

    /// Queueing the selected track.
    pub open spec fn enqueue_selected(self) -> (AppView, EffectView) {
        match self.selected_track() {
            Some(t) => (
                self.saying(queued_text(t.display_artist(), t.display_title())),
                EffectView::Player(seq![PlayerCommandView::Enqueue(self.client.stream_url(t.id))]),
            ),
            None => self.idle(),
        }
    }

    /// Queueing all tracks that are shown.
    pub open spec fn enqueue_all_filtered(self) -> (AppView, EffectView) {
        if self.filtered.len() == 0 {
            self.saying("nothing to queue"@).idle()
        } else {
            (
                self.saying("queued "@ + text::decimal(self.filtered.len()) + " tracks"@),
                EffectView::Player(enqueue(self.client, ids_at(self.tracks, self.filtered))),
            )
        }
    }

    /// Choosing a playlist for the selected track.
    pub open spec fn pick_playlist(self) -> AppView {
        match self.selected_track() {
            Some(t) => if self.playlists.len() == 0 {
                self.saying("no playlists — create one in the Playlists tab"@)
            } else {
                self.in_mode(ModeView::PickPlaylist { index: 0, track_id: t.id })
            },
            None => self,
        }
    }

    /// A key in the list of tracks.
    pub open spec fn tracks_key(self, code: KeyCode) -> (AppView, EffectView) {
        if keys::is_down(code) {
            self.move_selection(1).idle()
        } else if keys::is_up(code) {
            self.move_selection(-1).idle()
        } else if keys::is_top(code) {
            if self.filtered.len() == 0 {
                self.idle()
            } else {
                self.with_track(Some(0)).idle()
            }
        } else if keys::is_bottom(code) {
            if self.filtered.len() == 0 {
                self.idle()
            } else {
                self.with_track(lists::last(self.filtered.len())).idle()
            }
        } else {
            match code {
                KeyCode::PageDown => self.move_selection(10).idle(),
                KeyCode::PageUp => self.move_selection(-10).idle(),
                KeyCode::Enter => self.play_selected(),
                KeyCode::Char('a') => self.enqueue_selected(),
                KeyCode::Char('E') => self.enqueue_all_filtered(),
                KeyCode::Char('A') => self.pick_playlist().idle(),
                KeyCode::Char('/') => self.in_mode(ModeView::Filter(Seq::empty())).idle(),
                KeyCode::Char('T') => self.in_mode(ModeView::TagSearch(Seq::empty())).idle(),
                KeyCode::Char('t') => self.open_tags_popup(),
                KeyCode::Char('s') => self.in_mode(
                    ModeView::SortPicker { index: self.sort_key.place() },
                ).idle(),
                _ => self.idle(),
            }
        }
    }

    /// A key in the songs tab.
    #[verifier::opaque]
    pub open spec fn songs_key(self, code: KeyCode) -> (AppView, EffectView) {
        if self.show_tags {
            self.tags_key(code)
        } else if code == KeyCode::Esc {
            self.apply_filter(Seq::empty()).idle()
        } else {
            self.tracks_key(code)
        }
    }

    // -----------------------------------------------------------------------
    // Tags
    // -----------------------------------------------------------------------

    /// What follows once the tags are there.
    pub open spec fn finish_tags(self, next: TagsNext) -> AppView {
        let len = self.current_tags.len();
        match next {
            TagsNext::Rest => self,
            TagsNext::Show => AppView { show_tags: true, ..self },
            TagsNext::KeepInRange => {
                let selected = match self.tags_state.selected {
                    Some(i) => i as int,
                    None => 0,
                };
                if selected >= len {
                    self.with_tag(lists::last(len))
                } else {
                    self
                }
            },
        }
    }

    /// This state with another tag selected.
    pub open spec fn with_tag(self, selected: Option<usize>) -> AppView {
        AppView { tags_state: lists::select(self.tags_state, selected), ..self }
    }

    /// Fetching the tags of the selected track, where they are not there already.
    pub open spec fn refresh_tags(self, next: TagsNext) -> (AppView, EffectView) {
        match self.selected_track() {
            Some(t) => if self.current_tags_for == Some(t.id) {
                self.finish_tags(next).idle()
            } else {
                self.calling(CallView::TrackTags(t.id, next))
            },
            None => AppView {
                current_tags: Seq::empty(),
                current_tags_for: None,
                ..self
            }.finish_tags(next).idle(),
        }
    }

    /// The tags of a track are there, or not.
    pub open spec fn track_tags_loaded(
        self,
        id: i64,
        r: Result<Seq<TrackTagView>, Seq<char>>,
        next: TagsNext,
    ) -> (AppView, EffectView) {
        let tags = match r {
            Ok(tags) => tags,
            Err(_) => Seq::empty(),
        };
        AppView {
            current_tags: tags,
            current_tags_for: Some(id),
            tags_state: lists::select(
                self.tags_state,
                lists::in_range(self.tags_state.selected, tags.len()),
            ),
            status_msg: match r {
                Ok(_) => self.status_msg,
                Err(e) => "tag fetch failed: "@ + e,
            },
            ..self
        }.finish_tags(next).idle()
    }

    /// Showing the tags of the selected track.
    pub open spec fn open_tags_popup(self) -> (AppView, EffectView) {
        if self.selected_track() is None {
            self.saying("no track selected"@).idle()
        } else {
            self.refresh_tags(TagsNext::Show)
        }
    }

    /// Taking the selected tag off the selected track: only a user's tag can be.
    pub open spec fn delete_selected_tag(self) -> (AppView, EffectView) {
        match self.tags_state.selected {
            Some(i) => if i < self.current_tags.len() {
                let tag = self.current_tags[i as int];
                if !tag.is_user() {
                    self.saying("can't remove non-user tag "@ + tag.display()).idle()
                } else {
                    match self.selected_track() {
                        Some(t) => self.calling(
                            CallView::RemoveUserTag {
                                track: t.id,
                                tag: tag.tag_id,
                                label: tag.display(),
                            },
                        ),
                        None => self.idle(),
                    }
                }
            } else {
                self.idle()
            },
            None => self.idle(),
        }
    }

    /// A tag was taken off, or not.
    pub open spec fn user_tag_removed(self, label: Seq<char>, r: Result<(), Seq<char>>) -> (
        AppView,
        EffectView,
    ) {
        match r {
            Ok(_) => AppView {
                current_tags_for: None,
                ..self.saying("removed "@ + label)
            }.refresh_tags(TagsNext::KeepInRange),
            Err(e) => self.saying("remove tag failed: "@ + e).idle(),
        }
    }

    /// A tag was typed.
    pub open spec fn commit_add_tag(self, raw: Seq<char>) -> (AppView, EffectView) {
        match (parse::tag_input(raw), self.selected_track()) {
            (None, _) => self.saying("tag input: '<ns>:<val>' or '<val>'"@).idle(),
            (Some(_), None) => self.idle(),
            (Some((namespace, value)), Some(t)) => self.calling(
                CallView::AddUserTag { track: t.id, namespace, value },
            ),
        }
    }

    /// A tag was put on, or not.
    pub open spec fn user_tag_added(
        self,
        namespace: Seq<char>,
        value: Seq<char>,
        r: Result<(), Seq<char>>,
    ) -> (AppView, EffectView) {
        match r {
            Ok(_) => AppView {
                current_tags_for: None,
                ..self.saying("added "@ + api::tag_text(namespace, value))
            }.refresh_tags(TagsNext::Rest),
            Err(e) => self.saying("add tag failed: "@ + e).idle(),
        }
    }

    /// A key while the tags are shown.
    pub open spec fn tags_key(self, code: KeyCode) -> (AppView, EffectView) {
        let len = self.current_tags.len();
        if keys::is_down(code) || keys::is_up(code) || keys::is_top(code) || keys::is_bottom(code) {
            if len == 0 {
                self.idle()
            } else if keys::is_down(code) {
                self.with_tag(lists::moved(self.tags_state.selected, 1, len)).idle()
            } else if keys::is_up(code) {
                self.with_tag(lists::moved(self.tags_state.selected, -1, len)).idle()
            } else if keys::is_top(code) {
                self.with_tag(Some(0)).idle()
            } else {
                self.with_tag(lists::last(len)).idle()
            }
        } else {
            match code {
                KeyCode::Char('a') => self.in_mode(ModeView::AddTag(Seq::empty())).idle(),
                KeyCode::Char('d') => self.delete_selected_tag(),
                KeyCode::Char('t') => AppView { show_tags: false, ..self }.idle(),
                _ => self.idle(),
            }
        }
    }

    // -----------------------------------------------------------------------
    // Queue
    // -----------------------------------------------------------------------

    /// This state with another entry of the queue selected.
    pub open spec fn with_entry(self, selected: Option<usize>) -> AppView {
        AppView { queue_state: lists::select(self.queue_state, selected), ..self }
    }

    /// Moving the selected entry of a queue of `len` entries. The player puts an entry
    /// before the one that it names, so on the way down the one behind is named.
    pub open spec fn move_queue_item(self, delta: int, len: nat) -> (AppView, EffectView) {
        match self.queue_state.selected {
            Some(i) => {
                let new = i + delta;
                if len >= 2 && 0 <= new < len {
                    let to = if delta > 0 {
                        new + 1
                    } else {
                        new
                    };
                    (
                        self.with_entry(Some(new as usize)),
                        EffectView::Player(
                            seq![PlayerCommandView::Move { from: i as i64, to: to as i64 }],
                        ),
                    )
                } else {
                    self.idle()
                }
            },
            None => self.idle(),
        }
    }

    /// A key in the queue tab, where the queue has `len` entries.
    #[verifier::opaque]
    pub open spec fn queue_key(self, code: KeyCode, len: nat) -> (AppView, EffectView) {
        let selected = self.queue_state.selected;
        if keys::is_down(code) || keys::is_up(code) || keys::is_top(code) || keys::is_bottom(code) {
            if len == 0 {
                self.idle()
            } else if keys::is_down(code) {
                self.with_entry(lists::moved(selected, 1, len)).idle()
            } else if keys::is_up(code) {
                self.with_entry(lists::up(selected)).idle()
            } else if keys::is_top(code) {
                self.with_entry(Some(0)).idle()
            } else {
                self.with_entry(lists::last(len)).idle()
            }
        } else {
            match (code, selected) {
                (KeyCode::Enter, Some(i)) => (
                    self,
                    EffectView::Player(seq![PlayerCommandView::PlayIndex(i as i64)]),
                ),
                (KeyCode::Char('d'), Some(i)) => (
                    self,
                    EffectView::Player(seq![PlayerCommandView::RemoveIndex(i as i64)]),
                ),
                (KeyCode::Char('J'), _) => self.move_queue_item(1, len),
                (KeyCode::Char('K'), _) => self.move_queue_item(-1, len),
                _ => self.idle(),
            }
        }
    }

    // -----------------------------------------------------------------------
    // Keys
    // -----------------------------------------------------------------------

    /// Pausing, or going on, where something plays.
    pub open spec fn toggle_pause(self, player: PlayerStateView) -> (AppView, EffectView) {
        if player.stopped() {
            self.idle()
        } else {
            (self, EffectView::Player(seq![PlayerCommandView::SetPause(!player.paused)]))
        }
    }

    /// Going on to the next way of repeating.
    pub open spec fn cycle_repeat(self) -> (AppView, EffectView) {
        let repeat = self.repeat.next();
        (
            AppView { repeat, ..self }.saying(repeat.status_text()),
            EffectView::Player(
                seq![
                    PlayerCommandView::LoopPlaylist(repeat.loop_playlist_text()),
                    PlayerCommandView::LoopFile(repeat.loop_file_text()),
                ],
            ),
        )
    }

    /// Going to a tab.
    pub open spec fn switch_tab(self, tab: Tab) -> AppView {
        AppView { tab, show_tags: false, ..self }
    }

    /// A key in normal mode.
    pub open spec fn normal_key(self, key: Key, player: PlayerStateView) -> (AppView, EffectView) {
        match key.code {
            KeyCode::Char('1') | KeyCode::Char('2') | KeyCode::Char('3') | KeyCode::Char(
                '4',
            ) => self.switch_tab(state::digit_tab(key.code->0)->0).idle(),
            KeyCode::Char('q') => AppView { should_quit: true, ..self }.idle(),
            KeyCode::Char('c') if key.control => AppView { should_quit: true, ..self }.idle(),
            KeyCode::Char(' ') => self.toggle_pause(player),
            KeyCode::Char('n') => (self, EffectView::Player(seq![PlayerCommandView::Next])),
            KeyCode::Char('p') => (self, EffectView::Player(seq![PlayerCommandView::Prev])),
            KeyCode::Char('?') => AppView { show_help: !self.show_help, ..self }.idle(),
            KeyCode::Esc if self.show_help => AppView { show_help: false, ..self }.idle(),
            KeyCode::Esc if self.show_tags => AppView { show_tags: false, ..self }.idle(),
            KeyCode::Char('S') => (self.saying("shuffled queue"@), EffectView::Shuffle),
            KeyCode::Char('R') => self.cycle_repeat(),
            KeyCode::Char('F') => self.calling(CallView::TriggerScan),
            _ => match self.tab {
                Tab::Songs => self.songs_key(key.code),
                Tab::Queue => self.queue_key(key.code, player.playlist.len()),
                Tab::Settings => self.settings_key(key.code),
                Tab::Playlists => self.playlists_key(key.code),
            },
        }
    }

    /// A key while a filter is typed: the list follows every change.
    pub open spec fn filter_key(self, buf: Seq<char>, code: KeyCode) -> AppView {
        match code {
            KeyCode::Esc => self.in_mode(ModeView::Normal).apply_filter(Seq::empty()),
            KeyCode::Enter => self.in_mode(ModeView::Normal),
            KeyCode::Backspace | KeyCode::Char(_) => self.in_mode(
                ModeView::Filter(keys::edited(buf, code)),
            ).apply_filter(keys::edited(buf, code)),
            _ => self,
        }
    }

    /// A key while a playlist is picked for a track.
    pub open spec fn pick_key(self, index: usize, track_id: i64, code: KeyCode) -> (
        AppView,
        EffectView,
    ) {
        let normal = self.in_mode(ModeView::Normal);
        match code {
            KeyCode::Esc => normal.idle(),
            KeyCode::Enter => if index < self.playlists.len() {
                let p = self.playlists[index as int];
                normal.calling(
                    CallView::AddToPlaylist { playlist: p.id, track: track_id, name: p.name },
                )
            } else {
                normal.saying("no playlists — create one first (Playlists tab)"@).idle()
            },
            _ => self.in_mode(
                ModeView::PickPlaylist {
                    index: picker_index(index, code, self.playlists.len()),
                    track_id,
                },
            ).idle(),
        }
    }

    /// A key while a sort key is picked.
    pub open spec fn sort_key_key(self, index: usize, code: KeyCode) -> AppView {
        let keys = order::sort_keys();
        let normal = self.in_mode(ModeView::Normal);
        match code {
            KeyCode::Esc => normal,
            KeyCode::Enter => if index < keys.len() {
                normal.apply_sort(keys[index as int])
            } else {
                normal
            },
            _ => self.in_mode(
                ModeView::SortPicker { index: picker_index(index, code, keys.len()) },
            ),
        }
    }

    /// A key while a text other than a filter is typed.
    #[verifier::opaque]
    pub open spec fn typing_key(self, code: KeyCode) -> (AppView, EffectView) {
        let normal = self.in_mode(ModeView::Normal);
        match code {
            KeyCode::Esc => if self.mode is TagSearch {
                normal.apply_filter(Seq::empty()).idle()
            } else {
                normal.idle()
            },
            KeyCode::Enter => match self.mode {
                ModeView::TagSearch(buf) => normal.run_tag_search(buf),
                ModeView::AddTag(buf) => normal.commit_add_tag(buf),
                ModeView::EditSetting(field, buf) => normal.with_field(field, buf).idle(),
                ModeView::NewPlaylist(buf) => normal.commit_new_playlist(buf),
                ModeView::RenamePlaylist(id, buf) => normal.commit_rename_playlist(id, buf),
                _ => normal.idle(),
            },
            _ => self.in_mode(edited_mode(self.mode, code)).idle(),
        }
    }

    /// A key.
    pub open spec fn handle_key(self, key: Key, player: PlayerStateView) -> (AppView, EffectView) {
        match self.mode {
            ModeView::Normal => self.normal_key(key, player),
            ModeView::Filter(buf) => self.filter_key(buf, key.code).idle(),
            ModeView::PickPlaylist { index, track_id } => self.pick_key(index, track_id, key.code),
            ModeView::SortPicker { index } => self.sort_key_key(index, key.code).idle(),
            _ => self.typing_key(key.code),
        }
    }

    /// A key that went down; one that went up does nothing.
    pub open spec fn handle_event(self, key: Key, player: PlayerStateView) -> (
        AppView,
        EffectView,
    ) {
        if key.press {
            self.handle_key(key, player)
        } else {
            self.idle()
        }
    }
}

} // verus!
