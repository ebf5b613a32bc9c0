//! The client: it takes keys and answers, and says what to do next.

use crate::api;
use crate::api::{Client, Playlist, PlaylistTrack, ScanState, ScanStats, Track, TrackTag, TrackView};
use crate::keys;
use crate::keys::{Key, KeyCode};
use crate::lists;
use crate::lists::ListState;
use crate::model;
use crate::model::{AppView, POLL_INTERVAL};
use crate::mpv::{PlayerCommand, PlayerState};
use crate::order::SortKey;
use crate::parse;
use crate::settings::Settings;
use crate::sort;
use crate::state::{
    Call, Effect, EffectView, Mode, ModeView, Next, PlaylistsFocus, RepeatMode, SettingsField, Tab,
    TagsNext,
};
use crate::text;
use std::collections::HashMap;
use vstd::prelude::*;

verus! {

/// The client. Times are nanoseconds since some fixed moment.
#[derive(Debug)]
pub struct App {
    pub client: Client,
    pub tracks: Vec<Track>,
    pub filtered: Vec<usize>,
    pub list_state: ListState,
    pub tags_state: ListState,
    pub queue_state: ListState,
    pub tab: Tab,
    pub mode: Mode,
    pub settings: Settings,
    pub saved_settings: Settings,
    pub settings_field: SettingsField,
    pub current_tags: Vec<TrackTag>,
    pub playlists: Vec<Playlist>,
    pub playlists_state: ListState,
    pub playlists_focus: PlaylistsFocus,
    pub playlist_tracks: Vec<PlaylistTrack>,
    pub playlist_tracks_state: ListState,
    pub playlist_tracks_for: Option<i64>,
    pub current_tags_for: Option<i64>,
    pub repeat: RepeatMode,
    pub sort_key: SortKey,
    pub status_msg: String,
    pub show_help: bool,
    pub show_tags: bool,
    pub should_quit: bool,
    pub scan_polling: bool,
    pub last_scan_poll: u64,
}

impl View for App {
    type V = AppView;

    open spec fn view(&self) -> AppView {
        AppView {
            client: self.client@,
            tracks: lists::views(self.tracks@),
            filtered: self.filtered@,
            list_state: self.list_state,
            tags_state: self.tags_state,
            queue_state: self.queue_state,
            tab: self.tab,
            mode: self.mode@,
            settings: self.settings@,
            saved_settings: self.saved_settings@,
            settings_field: self.settings_field,
            current_tags: lists::views(self.current_tags@),
            playlists: lists::views(self.playlists@),
            playlists_state: self.playlists_state,
            playlists_focus: self.playlists_focus,
            playlist_tracks: lists::views(self.playlist_tracks@),
            playlist_tracks_state: self.playlist_tracks_state,
            playlist_tracks_for: self.playlist_tracks_for,
            current_tags_for: self.current_tags_for,
            repeat: self.repeat,
            sort_key: self.sort_key,
            status_msg: self.status_msg@,
            show_help: self.show_help,
            show_tags: self.show_tags,
            should_quit: self.should_quit,
            scan_polling: self.scan_polling,
            last_scan_poll: self.last_scan_poll,
        }
    }
}

/// The places of a list of `n` items.
fn every_place(n: usize) -> (r: Vec<usize>)
    ensures
        r@ == model::all_places(n as nat),
{
    let mut r: Vec<usize> = Vec::new();
    for i in 0..n
        invariant
            r@ =~= model::all_places(i as nat),
    {
        r.push(i);
    }
    r
}

/// The numbers of playlists.
fn ids_of_playlists(playlists: &Vec<Playlist>) -> (r: Vec<i64>)
    ensures
        r@ == model::playlist_ids(lists::views(playlists@)),
{
    let mut r: Vec<i64> = Vec::new();
    for i in 0..playlists.len()
        invariant
            r@ =~= model::playlist_ids(lists::views(playlists@)).take(i as int),
    {
        r.push(playlists[i].id);
    }
    r
}

/// The numbers of the tracks of a playlist.
fn ids_of_tracks(tracks: &Vec<PlaylistTrack>) -> (r: Vec<i64>)
    ensures
        r@ == model::track_ids(lists::views(tracks@)),
{
    let mut r: Vec<i64> = Vec::new();
    for i in 0..tracks.len()
        invariant
            r@ =~= model::track_ids(lists::views(tracks@)).take(i as int),
    {
        r.push(tracks[i].track_id);
    }
    r
}

/// The numbers of the tracks at places.
fn ids_at_places(tracks: &Vec<Track>, places: &Vec<usize>) -> (r: Vec<i64>)
    requires
        forall|i: int| 0 <= i < places@.len() ==> #[trigger] places@[i] < tracks@.len(),
    ensures
        r@ == model::ids_at(lists::views(tracks@), places@),
{
    let mut r: Vec<i64> = Vec::new();
    for i in 0..places.len()
        invariant
            forall|j: int| 0 <= j < places@.len() ==> #[trigger] places@[j] < tracks@.len(),
            r@ =~= model::ids_at(lists::views(tracks@), places@).take(i as int),
    {
        r.push(tracks[places[i]].id);
    }
    r
}

/// The first of two optional places that is there.
fn or_first(place: Option<usize>, len: usize) -> (r: Option<usize>)
    ensures
        r == (if place is None {
            lists::first(len as nat)
        } else {
            place
        }),
{
    if place.is_none() {
        lists::first_of(len)
    } else {
        place
    }
}

impl App {
    /// A client with the tracks of a server, and the first thing to do.
    pub fn new(client: Client, tracks: Vec<Track>, settings: Settings, now: u64) -> (r: (
        App,
        Effect,
    ))
        ensures
            (r.0@, r.1@) == AppView::new(
                client@,
                lists::views(tracks@),
                settings@,
                now,
            ),
            r.0@.wf(),
    {
        let filtered = every_place(tracks.len());
        let mut list_state = ListState::new();
        if filtered.len() > 0 {
            list_state.select(Some(0));
        }
        let saved_settings = settings.clone();
        let app = App {
            client,
            tracks,
            filtered,
            list_state,
            tags_state: ListState::new(),
            queue_state: ListState::new(),
            tab: Tab::Songs,
            mode: Mode::Normal,
            settings,
            saved_settings,
            settings_field: SettingsField::ServerUrl,
            current_tags: Vec::new(),
            playlists: Vec::new(),
            playlists_state: ListState::new(),
            playlists_focus: PlaylistsFocus::List,
            playlist_tracks: Vec::new(),
            playlist_tracks_state: ListState::new(),
            playlist_tracks_for: None,
            current_tags_for: None,
            repeat: RepeatMode::Off,
            sort_key: SortKey::Default,
            status_msg: String::new(),
            show_help: false,
            show_tags: false,
            should_quit: false,
            scan_polling: false,
            last_scan_poll: now,
        };
        assert(app@ =~= AppView::new(
            client@,
            lists::views(tracks@),
            settings@,
            now,
        ).0);
        (app, Effect::Call(Call::Playlists(Next::Rest)))
    }

    /// The track that is selected.
    pub fn selected_track(&self) -> (r: Option<&Track>)
        ensures
            match r {
                Some(t) => self@.selected_track() == Some(t@),
                None => self@.selected_track() is None,
            },
    {
        match self.list_state.selected {
            Some(i) => {
                if i < self.filtered.len() {
                    let place: usize = self.filtered[i];
                    if place < self.tracks.len() {
                        return Some(&self.tracks[place]);
                    }
                }
                None
            },
            None => None,
        }
    }

    /// The playlist that is selected.
    pub fn selected_playlist(&self) -> (r: Option<&Playlist>)
        ensures
            match r {
                Some(p) => self@.selected_playlist() == Some(p@),
                None => self@.selected_playlist() is None,
            },
    {
        match self.playlists_state.selected {
            Some(i) => {
                if i < self.playlists.len() {
                    Some(&self.playlists[i])
                } else {
                    None
                }
            },
            None => None,
        }
    }

    /// Says something.
    fn say(&mut self, s: String)
        ensures
            final(self)@ == old(self)@.saying(s@),
    {
        self.status_msg = s;
    }

    // -----------------------------------------------------------------------
    // Playlists
    // -----------------------------------------------------------------------

    /// Does what follows once the playlists or the tracks of one are there.
    fn finish(&mut self, next: Next) -> (e: Effect)
        requires
            old(self)@.wf(),
        ensures
            (final(self)@, e@) == old(self)@.finish(next),
            final(self)@.wf(),
    {
        match next {
            Next::Rest => Effect::Idle,
            Next::SelectPlaylist(id) => {
                let ids = ids_of_playlists(&self.playlists);
                match lists::find(&ids, id) {
                    Some(i) => {
                        self.playlists_state.select(Some(i));
                        Effect::Call(Call::PlaylistTracks(id, Next::Rest))
                    },
                    None => Effect::Idle,
                }
            },
            Next::ReloadPlaylists => Effect::Call(Call::Playlists(Next::Rest)),
        }
    }

    /// Fetches the tracks of the selected playlist again.
    fn refresh_playlist_tracks(&mut self, next: Next) -> (e: Effect)
        requires
            old(self)@.wf(),
        ensures
            (final(self)@, e@) == old(self)@.refresh_playlist_tracks(next),
            final(self)@.wf(),
    {
        let id: Option<i64> = match self.selected_playlist() {
            Some(p) => Some(p.id),
            None => None,
        };
        match id {
            Some(id) => Effect::Call(Call::PlaylistTracks(id, next)),
            None => {
                self.playlist_tracks = Vec::new();
                self.playlist_tracks_for = None;
                self.playlist_tracks_state.select(None);
                assert(self@.playlist_tracks =~= Seq::empty());
                self.finish(next)
            },
        }
    }

    /// Takes in the playlists.
    pub fn playlists_loaded(&mut self, r: Result<Vec<Playlist>, String>, next: Next) -> (e: Effect)
        requires
            old(self)@.wf(),
        ensures
            (final(self)@, e@) == old(self)@.playlists_loaded(lists::fetched(r), next),
            final(self)@.wf(),
    {
        match r {
            Ok(playlists) => {
                let ids = ids_of_playlists(&playlists);
                let kept = match self.selected_playlist() {
                    Some(p) => lists::find(&ids, p.id),
                    None => None,
                };
                let selected = or_first(kept, playlists.len());
                self.playlists = playlists;
                self.playlists_state.select(selected);
                self.refresh_playlist_tracks(next)
            },
            Err(e) => {
                self.say(text::cat("playlists: ", e.as_str()));
                self.finish(next)
            },
        }
    }

    /// Takes in the tracks of a playlist.
    pub fn playlist_tracks_loaded(
        &mut self,
        id: i64,
        r: Result<Vec<PlaylistTrack>, String>,
        next: Next,
    ) -> (e: Effect)
        requires
            old(self)@.wf(),
        ensures
            (final(self)@, e@) == old(self)@.playlist_tracks_loaded(id, lists::fetched(r), next),
            final(self)@.wf(),
    {
        self.playlist_tracks_for = Some(id);
        match r {
            Ok(tracks) => {
                let first = lists::first_of(tracks.len());
                self.playlist_tracks = tracks;
                self.playlist_tracks_state.select(first);
            },
            Err(e) => {
                self.playlist_tracks = Vec::new();
                assert(lists::views(self.playlist_tracks@) =~= Seq::empty());
                self.playlist_tracks_state.select(None);
                self.status_msg = text::cat("playlist tracks: ", e.as_str());
            },
        }
        self.finish(next)
    }

    /// Makes a playlist with the name that was typed.
    fn commit_new_playlist(&mut self, raw: &str) -> (e: Effect)
        requires
            old(self)@.wf(),
        ensures
            (final(self)@, e@) == old(self)@.commit_new_playlist(raw@),
            final(self)@.wf(),
    {
        let name = text::trimmed(raw);
        if name.as_str().is_empty() {
            self.say(text::copy("playlist name is empty"));
            Effect::Idle
        } else {
            Effect::Call(Call::CreatePlaylist(name))
        }
    }

    /// Takes in whether a playlist was made.
    pub fn playlist_created(&mut self, r: Result<Playlist, String>) -> (e: Effect)
        requires
            old(self)@.wf(),
        ensures
            (final(self)@, e@) == old(self)@.playlist_created(lists::got(r)),
            final(self)@.wf(),
    {
        match r {
            Ok(p) => {
                self.say(text::cat("created playlist ", p.name.as_str()));
                Effect::Call(Call::Playlists(Next::SelectPlaylist(p.id)))
            },
            Err(e) => {
                self.say(text::cat("create failed: ", e.as_str()));
                Effect::Idle
            },
        }
    }

    /// Gives a playlist the name that was typed.
    fn commit_rename_playlist(&mut self, id: i64, raw: &str) -> (e: Effect)
        requires
            old(self)@.wf(),
        ensures
            (final(self)@, e@) == old(self)@.commit_rename_playlist(id, raw@),
            final(self)@.wf(),
    {
        let name = text::trimmed(raw);
        if name.as_str().is_empty() {
            self.say(text::copy("name is empty"));
            Effect::Idle
        } else {
            Effect::Call(Call::RenamePlaylist(id, name))
        }
    }

    /// Takes in whether a playlist was renamed.
    pub fn playlist_renamed(&mut self, r: Result<(), String>) -> (e: Effect)
        requires
            old(self)@.wf(),
        ensures
            (final(self)@, e@) == old(self)@.playlist_renamed(lists::done(r)),
            final(self)@.wf(),
    {
        match r {
            Ok(_) => {
                self.say(text::copy("renamed"));
                Effect::Call(Call::Playlists(Next::Rest))
            },
            Err(e) => {
                self.say(text::cat("rename failed: ", e.as_str()));
                Effect::Idle
            },
        }
    }

    /// Deletes the selected playlist.
    fn delete_selected_playlist(&self) -> (e: Effect)
        ensures
            (self@, e@) == self@.delete_selected_playlist(),
    {
        match self.selected_playlist() {
            Some(p) => Effect::Call(Call::DeletePlaylist(p.id, p.name.clone())),
            None => Effect::Idle,
        }
    }

    /// Takes in whether a playlist was deleted.
    pub fn playlist_deleted(&mut self, name: &str, r: Result<(), String>) -> (e: Effect)
        requires
            old(self)@.wf(),
        ensures
            (final(self)@, e@) == old(self)@.playlist_deleted(name@, lists::done(r)),
            final(self)@.wf(),
    {
        match r {
            Ok(_) => {
                self.say(text::cat("deleted ", name));
                self.playlists_state.select(None);
                self.playlist_tracks_for = None;
                Effect::Call(Call::Playlists(Next::Rest))
            },
            Err(e) => {
                self.say(text::cat("delete failed: ", e.as_str()));
                Effect::Idle
            },
        }
    }

    /// Plays the selected playlist from one of its tracks on.
    fn play_selected_playlist(&mut self, start_index: usize) -> (e: Effect)
        requires
            old(self)@.wf(),
        ensures
            (final(self)@, e@) == old(self)@.play_selected_playlist(start_index),
            final(self)@.wf(),
    {
        let name = match self.selected_playlist() {
            Some(p) => p.name.clone(),
            None => return Effect::Idle,
        };
        let n: usize = self.playlist_tracks.len();
        if n == 0 {
            self.say(text::copy("playlist is empty"));
            return Effect::Idle;
        }
        let start: usize = if start_index < n {
            start_index
        } else {
            n - 1
        };
        let ghost ids = model::track_ids(self@.playlist_tracks);
        let ghost rest = model::enqueue(self@.client, ids.skip(start + 1));
        let url = self.client.stream_url(self.playlist_tracks[start].track_id);
        let ghost head = seq![
            PlayerCommand::Load(url)@,
            PlayerCommand::SetPause(false)@,
        ];
        let mut commands = vec![PlayerCommand::Load(url), PlayerCommand::SetPause(false)];
        for i in start + 1..n
            invariant
                n == self.playlist_tracks@.len(),
                start < n,
                head.len() == 2,
                ids == model::track_ids(self@.playlist_tracks),
                rest == model::enqueue(self@.client, ids.skip(start + 1)),
                lists::views(commands@) =~= head + rest.take(i - start - 1),
        {
            let ghost before = lists::views(commands@);
            let command = PlayerCommand::Enqueue(
                self.client.stream_url(self.playlist_tracks[i].track_id),
            );
            assert(command@ == rest[i - start - 1]);
            commands.push(command);
            assert(lists::views(commands@) =~= before.push(command@));
        }
        assert(lists::views(commands@) =~= head + rest);
        let first = text::show((start + 1) as u64);
        let count = text::show((n - start) as u64);
        let mut s = text::cat3("playing ", name.as_str(), " from #");
        s.append(first.as_str());
        s.append(" (");
        s.append(count.as_str());
        s.append(" tracks)");
        self.say(s);
        Effect::Player(commands)
    }

    /// Takes the selected track out of the selected playlist.
    fn remove_selected_playlist_track(&self) -> (e: Effect)
        ensures
            (self@, e@) == self@.remove_selected_playlist_track(),
    {
        match (self.selected_playlist(), self.playlist_tracks_state.selected) {
            (Some(p), Some(i)) => {
                if i < self.playlist_tracks.len() {
                    let track: i64 = self.playlist_tracks[i].track_id;
                    Effect::Call(Call::RemoveFromPlaylist { playlist: p.id, track })
                } else {
                    Effect::Idle
                }
            },
            _ => Effect::Idle,
        }
    }

    /// Takes in whether a track was taken out of a playlist.
    pub fn removed_from_playlist(&mut self, r: Result<(), String>) -> (e: Effect)
        requires
            old(self)@.wf(),
        ensures
            (final(self)@, e@) == old(self)@.removed_from_playlist(lists::done(r)),
            final(self)@.wf(),
    {
        match r {
            Ok(_) => {
                self.say(text::copy("removed from playlist"));
                self.refresh_playlist_tracks(Next::ReloadPlaylists)
            },
            Err(e) => {
                self.say(text::cat("remove failed: ", e.as_str()));
                Effect::Idle
            },
        }
    }

    /// Takes in whether a track was added to a playlist.
    pub fn added_to_playlist(
        &mut self,
        playlist: i64,
        name: &str,
        r: Result<(), String>,
    ) -> (e: Effect)
        requires
            old(self)@.wf(),
        ensures
            (final(self)@, e@) == old(self)@.added_to_playlist(playlist, name@, lists::done(r)),
            final(self)@.wf(),
    {
        match r {
            Ok(_) => {
                self.say(text::cat("added to ", name));
                let shown = match self.playlist_tracks_for {
                    Some(id) => id == playlist,
                    None => false,
                };
                if shown {
                    self.refresh_playlist_tracks(Next::ReloadPlaylists)
                } else {
                    Effect::Call(Call::Playlists(Next::Rest))
                }
            },
            Err(e) => {
                self.say(text::cat("add failed: ", e.as_str()));
                Effect::Idle
            },
        }
    }

    /// Moves the selected track inside its playlist.
    #[verifier::rlimit(30)]
    fn move_playlist_track(&mut self, down: bool) -> (e: Effect)
        requires
            old(self)@.wf(),
        ensures
            (final(self)@, e@) == old(self)@.move_playlist_track(
                if down {
                    1
                } else {
                    -1
                },
            ),
            final(self)@.wf(),
    {
        let pid: i64 = match self.selected_playlist() {
            Some(p) => p.id,
            None => return Effect::Idle,
        };
        let idx: usize = match self.playlist_tracks_state.selected {
            Some(i) => i,
            None => return Effect::Idle,
        };
        let len: usize = self.playlist_tracks.len();
        if (down && idx + 1 >= len) || (!down && idx == 0) {
            return Effect::Idle;
        }
        let new: usize = if down {
            idx + 1
        } else {
            idx - 1
        };
        let ghost wanted = lists::swapped(self@.playlist_tracks, idx as int, new as int);
        self.playlist_tracks.swap(idx, new);
        assert(lists::views(self.playlist_tracks@) =~= wanted);
        renumber(&mut self.playlist_tracks);
        self.playlist_tracks_state.select(Some(new));
        let ids = ids_of_tracks(&self.playlist_tracks);
        Effect::Call(Call::SetPlaylistTracks(pid, ids))
    }

    /// Takes in whether the tracks of a playlist were put in order on the server.
    pub fn playlist_tracks_set(&mut self, r: Result<(), String>) -> (e: Effect)
        requires
            old(self)@.wf(),
        ensures
            (final(self)@, e@) == old(self)@.playlist_tracks_set(lists::done(r)),
            final(self)@.wf(),
    {
        match r {
            Ok(_) => Effect::Idle,
            Err(e) => {
                self.say(text::cat("reorder failed: ", e.as_str()));
                self.refresh_playlist_tracks(Next::Rest)
            },
        }
    }

    /// Selects a playlist, and fetches its tracks.
    fn select_playlist(&mut self, selected: Option<usize>) -> (e: Effect)
        requires
            old(self)@.wf(),
            lists::is_place(selected, old(self)@.playlists.len()),
        ensures
            (final(self)@, e@) == old(self)@.select_playlist(selected),
            final(self)@.wf(),
    {
        self.playlists_state.select(selected);
        self.refresh_playlist_tracks(Next::Rest)
    }

    /// Moves the selection among the playlists.
    fn move_playlist_selection(&mut self, delta: i32) -> (e: Effect)
        requires
            old(self)@.wf(),
        ensures
            (final(self)@, e@) == old(self)@.move_playlist_selection(delta as int),
            final(self)@.wf(),
    {
        if self.playlists.len() == 0 {
            return Effect::Idle;
        }
        let selected = lists::move_by(self.playlists_state.selected, delta, self.playlists.len());
        if selected == self.playlists_state.selected {
            return Effect::Idle;
        }
        self.select_playlist(selected)
    }

    /// Takes a key in the list of playlists.
    fn handle_playlists_list_key(&mut self, code: KeyCode) -> (e: Effect)
        requires
            old(self)@.wf(),
        ensures
            (final(self)@, e@) == old(self)@.playlists_list_key(code),
            final(self)@.wf(),
    {
        if code.goes_down() {
            return self.move_playlist_selection(1);
        }
        if code.goes_up() {
            return self.move_playlist_selection(-1);
        }
        if code.goes_to_top() {
            if self.playlists.len() == 0 {
                return Effect::Idle;
            }
            return self.select_playlist(Some(0));
        }
        if code.goes_to_bottom() {
            if self.playlists.len() == 0 {
                return Effect::Idle;
            }
            let last = lists::last_of(self.playlists.len());
            return self.select_playlist(last);
        }
        match code {
            KeyCode::Enter => {
                self.playlists_focus = PlaylistsFocus::Tracks;
                self.refresh_playlist_tracks(Next::Rest)
            },
            KeyCode::Char('N') => {
                self.mode = Mode::NewPlaylist(String::new());
                Effect::Idle
            },
            KeyCode::Char('r') => {
                let mode = match self.selected_playlist() {
                    Some(p) => Some(Mode::RenamePlaylist(p.id, p.name.clone())),
                    None => None,
                };
                if let Some(mode) = mode {
                    self.mode = mode;
                }
                Effect::Idle
            },
            KeyCode::Char('D') => self.delete_selected_playlist(),
            KeyCode::Char('P') => self.play_selected_playlist(0),
            _ => Effect::Idle,
        }
    }

    /// Queues the selected track of a playlist.
    fn enqueue_playlist_track(&mut self) -> (e: Effect)
        requires
            old(self)@.wf(),
        ensures
            (final(self)@, e@) == old(self)@.enqueue_playlist_track(),
            final(self)@.wf(),
    {
        let i: usize = match self.playlist_tracks_state.selected {
            Some(i) => i,
            None => return Effect::Idle,
        };
        if i >= self.playlist_tracks.len() {
            return Effect::Idle;
        }
        let t = &self.playlist_tracks[i];
        assert(t@ == self@.playlist_tracks[i as int]);
        let s = queued(t.display_artist(), t.display_title());
        let commands = vec![PlayerCommand::Enqueue(self.client.stream_url(t.track_id))];
        assert(lists::views(commands@) =~= seq![commands@[0]@]);
        self.say(s);
        Effect::Player(commands)
    }

    /// Takes a key in the tracks of a playlist.
    fn handle_playlists_tracks_key(&mut self, code: KeyCode) -> (e: Effect)
        requires
            old(self)@.wf(),
        ensures
            (final(self)@, e@) == old(self)@.playlists_tracks_key(code),
            final(self)@.wf(),
    {
        let len: usize = self.playlist_tracks.len();
        let selected = self.playlist_tracks_state.selected;
        if code.goes_down() || code.goes_up() || code.goes_to_top() || code.goes_to_bottom() {
            if len == 0 {
                return Effect::Idle;
            }
            let wanted = if code.goes_down() {
                lists::move_by(selected, 1, len)
            } else if code.goes_up() {
                lists::move_up(selected)
            } else if code.goes_to_top() {
                Some(0)
            } else {
                lists::last_of(len)
            };
            self.playlist_tracks_state.select(wanted);
            return Effect::Idle;
        }
        match code {
            KeyCode::Enter => match selected {
                Some(i) => self.play_selected_playlist(i),
                None => Effect::Idle,
            },
            KeyCode::Char('a') => self.enqueue_playlist_track(),
            KeyCode::Char('d') => self.remove_selected_playlist_track(),
            KeyCode::Char('J') => self.move_playlist_track(true),
            KeyCode::Char('K') => self.move_playlist_track(false),
            _ => Effect::Idle,
        }
    }

    /// Takes a key in the playlists tab.
    fn handle_playlists_key(&mut self, code: KeyCode) -> (e: Effect)
        requires
            old(self)@.wf(),
        ensures
            (final(self)@, e@) == old(self)@.playlists_key(code),
            final(self)@.wf(),
    {
        proof {
            reveal(AppView::playlists_key);
        }
        match self.playlists_focus {
            PlaylistsFocus::List => {
                if code == KeyCode::Tab {
                    self.playlists_focus = PlaylistsFocus::Tracks;
                    Effect::Idle
                } else {
                    self.handle_playlists_list_key(code)
                }
            },
            PlaylistsFocus::Tracks => {
                if code == KeyCode::Tab || code == KeyCode::Esc {
                    self.playlists_focus = PlaylistsFocus::List;
                    Effect::Idle
                } else {
                    self.handle_playlists_tracks_key(code)
                }
            },
        }
    }

    // -----------------------------------------------------------------------
    // Scans
    // -----------------------------------------------------------------------

    /// Takes in the answer to a request for a scan.
    pub fn scan_triggered(&mut self, r: Result<ScanState, String>, now: u64) -> (e: Effect)
        requires
            old(self)@.wf(),
        ensures
            (final(self)@, e@) == old(self)@.scan_triggered(lists::got(r), now),
            final(self)@.wf(),
    {
        match r {
            Ok(scan) => {
                self.status_msg = if scan.running {
                    text::copy("rescanning library…")
                } else {
                    text::copy("scan triggered")
                };
                self.scan_polling = scan.running;
                self.last_scan_poll = now;
            },
            Err(e) => {
                self.say(text::cat("scan: ", e.as_str()));
            },
        }
        Effect::Idle
    }

    /// Looks at the scan, where one runs and the last look is long enough ago.
    pub fn poll_scan_if_due(&mut self, now: u64) -> (e: Effect)
        requires
            old(self)@.wf(),
        ensures
            (final(self)@, e@) == old(self)@.poll_scan_if_due(now),
            final(self)@.wf(),
    {
        if !self.scan_polling || now < self.last_scan_poll || now - self.last_scan_poll
            < POLL_INTERVAL {
            return Effect::Idle;
        }
        self.last_scan_poll = now;
        Effect::Call(Call::ScanStatus)
    }

    /// Takes in where the scan stands.
    pub fn scan_polled(&mut self, r: Result<ScanState, String>) -> (e: Effect)
        requires
            old(self)@.wf(),
        ensures
            (final(self)@, e@) == old(self)@.scan_polled(lists::got(r)),
            final(self)@.wf(),
    {
        match r {
            Ok(scan) => {
                if scan.running {
                    return Effect::Idle;
                }
                self.scan_polling = false;
                match scan.last_error {
                    Some(e) => {
                        self.say(text::cat("scan failed: ", e.as_str()));
                        Effect::Idle
                    },
                    None => Effect::Call(Call::Tracks(summarise(scan.last_stats))),
                }
            },
            Err(_) => Effect::Idle,
        }
    }

    /// Replaces the tracks, and forgets the tags.
    fn set_tracks(&mut self, tracks: Vec<Track>)
        ensures
            final(self)@ == old(self)@.with_tracks(lists::views(tracks@)),
    {
        self.tracks = tracks;
        self.current_tags = Vec::new();
        assert(self@.current_tags =~= Seq::empty());
        self.current_tags_for = None;
    }

    /// Takes in the tracks after a scan.
    #[verifier::rlimit(30)]
    pub fn rescanned(&mut self, summary: Option<String>, r: Result<Vec<Track>, String>) -> (e:
        Effect)
        requires
            old(self)@.wf(),
        ensures
            (final(self)@, e@) == old(self)@.rescanned(text::opt(summary), lists::fetched(r)),
            final(self)@.wf(),
    {
        match r {
            Ok(tracks) => {
                self.set_tracks(tracks);
                let kept: Option<i64> = match self.selected_track() {
                    Some(t) => Some(t.id),
                    None => None,
                };
                self.clear_filter();
                if let Some(id) = kept {
                    let ids = ids_at_places(&self.tracks, &self.filtered);
                    let place = lists::find(&ids, id);
                    if place.is_some() {
                        self.list_state.select(place);
                    }
                }
                let s = match summary {
                    Some(s) => s,
                    None => text::cat3(
                        "scan done — ",
                        text::show(self.tracks.len() as u64).as_str(),
                        " tracks",
                    ),
                };
                self.say(s);
            },
            Err(e) => {
                let done = match summary {
                    Some(s) => s,
                    None => text::copy("scan done"),
                };
                let mut s = text::cat3(done.as_str(), " (reload failed: ", e.as_str());
                s.append(")");
                self.say(s);
            },
        }
        Effect::Idle
    }

    // -----------------------------------------------------------------------
    // Settings
    // -----------------------------------------------------------------------

    /// Takes a key in the settings tab.
    fn handle_settings_key(&mut self, code: KeyCode) -> (e: Effect)
        requires
            old(self)@.wf(),
        ensures
            (final(self)@, e@) == old(self)@.settings_key(code),
            final(self)@.wf(),
    {
        proof {
            reveal(AppView::settings_key);
        }
        if code.goes_down() {
            self.settings_field = SettingsField::AuthToken;
            return Effect::Idle;
        }
        if code.goes_up() {
            self.settings_field = SettingsField::ServerUrl;
            return Effect::Idle;
        }
        match code {
            KeyCode::Enter | KeyCode::Char('e') => {
                let buf = match self.settings_field {
                    SettingsField::ServerUrl => self.settings.server_url.clone(),
                    SettingsField::AuthToken => self.settings.auth_token.clone(),
                };
                self.mode = Mode::EditSetting(self.settings_field, buf);
                Effect::Idle
            },
            KeyCode::Char('s') => Effect::SaveSettings,
            KeyCode::Char('r') | KeyCode::Esc => {
                self.settings = self.saved_settings.clone();
                self.say(text::copy("settings reverted"));
                Effect::Idle
            },
            _ => Effect::Idle,
        }
    }

    /// Takes in whether the settings were saved, and uses them.
    pub fn settings_saved(&mut self, r: Result<(), String>) -> (e: Effect)
        requires
            old(self)@.wf(),
        ensures
            (final(self)@, e@) == old(self)@.settings_saved(lists::done(r)),
            final(self)@.wf(),
    {
        match r {
            Ok(_) => {
                self.saved_settings = self.settings.clone();
                self.client = self.settings.client();
                Effect::Reconnect(self.settings.headers())
            },
            Err(e) => {
                self.say(text::cat("save failed: ", e.as_str()));
                Effect::Idle
            },
        }
    }

    /// Takes in the tracks of the new server.
    pub fn reconnected(&mut self, r: Result<Vec<Track>, String>) -> (e: Effect)
        requires
            old(self)@.wf(),
        ensures
            (final(self)@, e@) == old(self)@.reconnected(lists::fetched(r)),
            final(self)@.wf(),
    {
        match r {
            Ok(tracks) => {
                self.set_tracks(tracks);
                let places = every_place(self.tracks.len());
                let first = lists::first_of(places.len());
                self.filtered = sort::sort_places(&self.tracks, self.sort_key, &places);
                self.list_state.select(first);
                let count = text::show(self.tracks.len() as u64);
                self.say(text::cat3("saved & reloaded (", count.as_str(), " tracks)"));
            },
            Err(e) => {
                self.set_tracks(Vec::new());
                assert(self@.tracks =~= Seq::empty());
                self.filtered = Vec::new();
                self.list_state.select(None);
                self.say(text::cat("saved, but connect failed: ", e.as_str()));
            },
        }
        Effect::Idle
    }

    // -----------------------------------------------------------------------
    // Songs
    // -----------------------------------------------------------------------

    /// Shows some tracks, in order, and selects the first of them.
    fn show(&mut self, places: Vec<usize>)
        requires
            model::places_in(places@, old(self)@.tracks.len()),
            old(self)@.playlists_hold_together(),
        ensures
            final(self)@ == old(self)@.showing(places@),
            final(self)@.wf(),
    {
        self.filtered = sort::sort_places(&self.tracks, self.sort_key, &places);
        self.list_state.select(lists::first_of(places.len()));
    }

    /// Shows the tracks that pass a filter.
    fn apply_filter(&mut self, q: &str)
        requires
            old(self)@.playlists_hold_together(),
        ensures
            final(self)@ == old(self)@.apply_filter(q@),
            final(self)@.wf(),
    {
        let places = places_passing(&self.tracks, q);
        self.show(places);
    }

    /// Shows all tracks.
    fn clear_filter(&mut self)
        requires
            old(self)@.playlists_hold_together(),
        ensures
            final(self)@ == old(self)@.apply_filter(Seq::empty()),
            final(self)@.wf(),
    {
        proof {
            reveal_strlit("");
            assert(""@ =~= Seq::empty());
        }
        self.apply_filter("");
    }

    /// Sorts by a key; the selected track stays selected.
    fn apply_sort(&mut self, key: SortKey)
        requires
            old(self)@.wf(),
        ensures
            final(self)@ == old(self)@.apply_sort(key),
            final(self)@.wf(),
    {
        let selected: Option<i64> = match self.selected_track() {
            Some(t) => Some(t.id),
            None => None,
        };
        self.sort_key = key;
        self.filtered = sort::sort_places(&self.tracks, key, &self.filtered);
        let kept = match selected {
            Some(id) => {
                let ids = ids_at_places(&self.tracks, &self.filtered);
                lists::find(&ids, id)
            },
            None => None,
        };
        self.list_state.select(or_first(kept, self.filtered.len()));
        self.say(text::cat("sort: ", key.short_label()));
    }

    /// Searches for the tags that were typed.
    fn run_tag_search(&mut self, query: &str) -> (e: Effect)
        requires
            old(self)@.wf(),
        ensures
            (final(self)@, e@) == old(self)@.run_tag_search(query@),
            final(self)@.wf(),
    {
        let q = text::trimmed(query);
        if q.as_str().is_empty() {
            self.clear_filter();
            Effect::Idle
        } else {
            Effect::Call(Call::Search(q))
        }
    }

    /// Takes in the hits of a search.
    pub fn search_done(&mut self, q: &str, r: Result<Vec<Track>, String>) -> (e: Effect)
        requires
            old(self)@.wf(),
        ensures
            (final(self)@, e@) == old(self)@.search_done(q@, lists::fetched(r)),
            final(self)@.wf(),
    {
        match r {
            Ok(hits) => {
                let places = places_of_hits(&self.tracks, &hits);
                let mut s = text::cat3("tag search '", q, "': ");
                s.append(text::show(places.len() as u64).as_str());
                s.append(" hits");
                self.show(places);
                self.say(s);
            },
            Err(e) => {
                self.say(text::cat("search failed: ", e.as_str()));
            },
        }
        Effect::Idle
    }

    /// Moves the selection among the tracks.
    fn move_selection(&mut self, delta: i32)
        ensures
            final(self)@ == old(self)@.move_selection(delta as int),
            old(self)@.wf() ==> final(self)@.wf(),
    {
        if self.filtered.len() == 0 {
            return;
        }
        self.list_state.select(
            lists::move_by(self.list_state.selected, delta, self.filtered.len()),
        );
    }

    /// Plays the selected track.
    fn play_selected(&self) -> (e: Effect)
        ensures
            (self@, e@) == self@.play_selected(),
    {
        match self.selected_track() {
            Some(t) => {
                let commands = vec![
                    PlayerCommand::Load(self.client.stream_url(t.id)),
                    PlayerCommand::SetPause(false),
                ];
                assert(lists::views(commands@) =~= seq![commands@[0]@, commands@[1]@]);
                Effect::Player(commands)
            },
            None => Effect::Idle,
        }
    }

    /// Queues the selected track.
    fn enqueue_selected(&mut self) -> (e: Effect)
        requires
            old(self)@.wf(),
        ensures
            (final(self)@, e@) == old(self)@.enqueue_selected(),
            final(self)@.wf(),
    {
        let (s, commands) = match self.selected_track() {
            Some(t) => (
                queued(t.display_artist(), t.display_title()),
                vec![PlayerCommand::Enqueue(self.client.stream_url(t.id))],
            ),
            None => return Effect::Idle,
        };
        assert(lists::views(commands@) =~= seq![commands@[0]@]);
        self.say(s);
        Effect::Player(commands)
    }

    /// Queues all tracks that are shown.
    fn enqueue_all_filtered(&mut self) -> (e: Effect)
        requires
            old(self)@.wf(),
        ensures
            (final(self)@, e@) == old(self)@.enqueue_all_filtered(),
            final(self)@.wf(),
    {
        if self.filtered.len() == 0 {
            self.say(text::copy("nothing to queue"));
            return Effect::Idle;
        }
        let ids = ids_at_places(&self.tracks, &self.filtered);
        let ghost wanted = model::enqueue(self@.client, ids@);
        let mut commands: Vec<PlayerCommand> = Vec::new();
        for i in 0..ids.len()
            invariant
                wanted == model::enqueue(self@.client, ids@),
                lists::views(commands@) =~= wanted.take(i as int),
        {
            let ghost before = lists::views(commands@);
            let command = PlayerCommand::Enqueue(self.client.stream_url(ids[i]));
            commands.push(command);
            assert(lists::views(commands@) =~= before.push(command@));
            assert(wanted.take(i + 1) =~= wanted.take(i as int).push(command@));
        }
        assert(lists::views(commands@) =~= wanted);
        let count = text::show(ids.len() as u64);
        self.say(text::cat3("queued ", count.as_str(), " tracks"));
        Effect::Player(commands)
    }

    /// Lets a playlist be chosen for the selected track.
    fn pick_playlist(&mut self)
        ensures
            final(self)@ == old(self)@.pick_playlist(),
            old(self)@.wf() ==> final(self)@.wf(),
    {
        let track_id: i64 = match self.selected_track() {
            Some(t) => t.id,
            None => return,
        };
        if self.playlists.len() == 0 {
            self.say(text::copy("no playlists — create one in the Playlists tab"));
        } else {
            self.mode = Mode::PickPlaylist { index: 0, track_id };
        }
    }

    /// Takes a key in the list of tracks.
    fn handle_tracks_key(&mut self, code: KeyCode) -> (e: Effect)
        requires
            old(self)@.wf(),
        ensures
            (final(self)@, e@) == old(self)@.tracks_key(code),
            final(self)@.wf(),
    {
        let len: usize = self.filtered.len();
        if code.goes_down() {
            self.move_selection(1);
            return Effect::Idle;
        }
        if code.goes_up() {
            self.move_selection(-1);
            return Effect::Idle;
        }
        if code.goes_to_top() {
            if len > 0 {
                self.list_state.select(Some(0));
            }
            return Effect::Idle;
        }
        if code.goes_to_bottom() {
            if len > 0 {
                self.list_state.select(lists::last_of(len));
            }
            return Effect::Idle;
        }
        match code {
            KeyCode::PageDown => {
                self.move_selection(10);
                Effect::Idle
            },
            KeyCode::PageUp => {
                self.move_selection(-10);
                Effect::Idle
            },
            KeyCode::Enter => self.play_selected(),
            KeyCode::Char('a') => self.enqueue_selected(),
            KeyCode::Char('E') => self.enqueue_all_filtered(),
            KeyCode::Char('A') => {
                self.pick_playlist();
                Effect::Idle
            },
            KeyCode::Char('/') => {
                self.mode = Mode::Filter(String::new());
                Effect::Idle
            },
            KeyCode::Char('T') => {
                self.mode = Mode::TagSearch(String::new());
                Effect::Idle
            },
            KeyCode::Char('t') => self.open_tags_popup(),
            KeyCode::Char('s') => {
                self.mode = Mode::SortPicker { index: self.sort_key.index() };
                Effect::Idle
            },
            _ => Effect::Idle,
        }
    }

    /// Takes a key in the songs tab.
    fn handle_songs_key(&mut self, code: KeyCode) -> (e: Effect)
        requires
            old(self)@.wf(),
        ensures
            (final(self)@, e@) == old(self)@.songs_key(code),
            final(self)@.wf(),
    {
        proof {
            reveal(AppView::songs_key);
        }
        if self.show_tags {
            return self.handle_tags_key(code);
        }
        if code == KeyCode::Esc {
            self.clear_filter();
            return Effect::Idle;
        }
        self.handle_tracks_key(code)
    }

    // -----------------------------------------------------------------------
    // Tags
    // -----------------------------------------------------------------------

    /// Does what follows once the tags are there.
    fn finish_tags(&mut self, next: TagsNext)
        requires
            old(self)@.wf(),
        ensures
            final(self)@ == old(self)@.finish_tags(next),
            final(self)@.wf(),
    {
        match next {
            TagsNext::Rest => {},
            TagsNext::Show => {
                self.show_tags = true;
            },
            TagsNext::KeepInRange => {
                let selected: usize = self.tags_state.selected.unwrap_or(0);
                if selected >= self.current_tags.len() {
                    self.tags_state.select(lists::last_of(self.current_tags.len()));
                }
            },
        }
    }

    /// Fetches the tags of the selected track, where they are not there already.
    fn refresh_tags(&mut self, next: TagsNext) -> (e: Effect)
        requires
            old(self)@.wf(),
        ensures
            (final(self)@, e@) == old(self)@.refresh_tags(next),
            final(self)@.wf(),
    {
        let id: Option<i64> = match self.selected_track() {
            Some(t) => Some(t.id),
            None => None,
        };
        match id {
            Some(id) => {
                if self.current_tags_for == Some(id) {
                    self.finish_tags(next);
                    Effect::Idle
                } else {
                    Effect::Call(Call::TrackTags(id, next))
                }
            },
            None => {
                self.current_tags = Vec::new();
                assert(lists::views(self.current_tags@) =~= Seq::empty());
                self.current_tags_for = None;
                self.finish_tags(next);
                Effect::Idle
            },
        }
    }

    /// Takes in the tags of a track.
    pub fn track_tags_loaded(
        &mut self,
        id: i64,
        r: Result<Vec<TrackTag>, String>,
        next: TagsNext,
    ) -> (e: Effect)
        requires
            old(self)@.wf(),
        ensures
            (final(self)@, e@) == old(self)@.track_tags_loaded(id, lists::fetched(r), next),
            final(self)@.wf(),
    {
        match r {
            Ok(tags) => {
                self.current_tags = tags;
            },
            Err(e) => {
                self.say(text::cat("tag fetch failed: ", e.as_str()));
                self.current_tags = Vec::new();
                assert(lists::views(self.current_tags@) =~= Seq::empty());
            },
        }
        self.current_tags_for = Some(id);
        self.clamp_tag_selection();
        self.finish_tags(next);
        Effect::Idle
    }

    /// Brings the selection into the list of tags.
    fn clamp_tag_selection(&mut self)
        ensures
            final(self)@ == old(self)@.with_tag(
                lists::in_range(old(self)@.tags_state.selected, old(self)@.current_tags.len()),
            ),
    {
        self.tags_state.select(
            lists::bring_in_range(self.tags_state.selected, self.current_tags.len()),
        );
    }

    /// Shows the tags of the selected track.
    fn open_tags_popup(&mut self) -> (e: Effect)
        requires
            old(self)@.wf(),
        ensures
            (final(self)@, e@) == old(self)@.open_tags_popup(),
            final(self)@.wf(),
    {
        if self.selected_track().is_none() {
            self.say(text::copy("no track selected"));
            return Effect::Idle;
        }
        self.refresh_tags(TagsNext::Show)
    }

    /// Takes the selected tag off the selected track: only a user's tag can be.
    fn delete_selected_tag(&mut self) -> (e: Effect)
        requires
            old(self)@.wf(),
        ensures
            (final(self)@, e@) == old(self)@.delete_selected_tag(),
            final(self)@.wf(),
    {
        let i: usize = match self.tags_state.selected {
            Some(i) => i,
            None => return Effect::Idle,
        };
        if i >= self.current_tags.len() {
            return Effect::Idle;
        }
        let label = self.current_tags[i].display();
        let tag: i64 = self.current_tags[i].tag_id;
        assert(self.current_tags@[i as int]@ == self@.current_tags[i as int]);
        if !self.current_tags[i].is_user() {
            self.say(text::cat("can't remove non-user tag ", label.as_str()));
            return Effect::Idle;
        }
        match self.selected_track() {
            Some(t) => Effect::Call(Call::RemoveUserTag { track: t.id, tag, label }),
            None => Effect::Idle,
        }
    }

    /// Takes in whether a tag was taken off.
    pub fn user_tag_removed(&mut self, label: &str, r: Result<(), String>) -> (e: Effect)
        requires
            old(self)@.wf(),
        ensures
            (final(self)@, e@) == old(self)@.user_tag_removed(label@, lists::done(r)),
            final(self)@.wf(),
    {
        match r {
            Ok(_) => {
                self.say(text::cat("removed ", label));
                self.current_tags_for = None;
                self.refresh_tags(TagsNext::KeepInRange)
            },
            Err(e) => {
                self.say(text::cat("remove tag failed: ", e.as_str()));
                Effect::Idle
            },
        }
    }

    /// Puts the tag that was typed on the selected track.
    fn commit_add_tag(&mut self, raw: &str) -> (e: Effect)
        requires
            old(self)@.wf(),
        ensures
            (final(self)@, e@) == old(self)@.commit_add_tag(raw@),
            final(self)@.wf(),
    {
        match parse::parse_tag_input(raw) {
            None => {
                self.say(text::copy("tag input: '<ns>:<val>' or '<val>'"));
                Effect::Idle
            },
            Some((namespace, value)) => match self.selected_track() {
                Some(t) => Effect::Call(Call::AddUserTag { track: t.id, namespace, value }),
                None => Effect::Idle,
            },
        }
    }

    /// Takes in whether a tag was put on.
    pub fn user_tag_added(&mut self, namespace: &str, value: &str, r: Result<(), String>) -> (e:
        Effect)
        requires
            old(self)@.wf(),
        ensures
            (final(self)@, e@) == old(self)@.user_tag_added(namespace@, value@, lists::done(r)),
            final(self)@.wf(),
    {
        match r {
            Ok(_) => {
                let tag = api::fmt_tag(namespace, value);
                self.say(text::cat("added ", tag.as_str()));
                self.current_tags_for = None;
                self.refresh_tags(TagsNext::Rest)
            },
            Err(e) => {
                self.say(text::cat("add tag failed: ", e.as_str()));
                Effect::Idle
            },
        }
    }

    /// Takes a key while the tags are shown.
    fn handle_tags_key(&mut self, code: KeyCode) -> (e: Effect)
        requires
            old(self)@.wf(),
        ensures
            (final(self)@, e@) == old(self)@.tags_key(code),
            final(self)@.wf(),
    {
        let len: usize = self.current_tags.len();
        let selected = self.tags_state.selected;
        if code.goes_down() || code.goes_up() || code.goes_to_top() || code.goes_to_bottom() {
            if len == 0 {
                return Effect::Idle;
            }
            let wanted = if code.goes_down() {
                lists::move_by(selected, 1, len)
            } else if code.goes_up() {
                lists::move_by(selected, -1, len)
            } else if code.goes_to_top() {
                Some(0)
            } else {
                lists::last_of(len)
            };
            self.tags_state.select(wanted);
            return Effect::Idle;
        }
        match code {
            KeyCode::Char('a') => {
                self.mode = Mode::AddTag(String::new());
                Effect::Idle
            },
            KeyCode::Char('d') => self.delete_selected_tag(),
            KeyCode::Char('t') => {
                self.show_tags = false;
                Effect::Idle
            },
            _ => Effect::Idle,
        }
    }

    // -----------------------------------------------------------------------
    // Queue
    // -----------------------------------------------------------------------

    /// Moves the selected entry of a queue of `len` entries.
    fn move_queue_item(&mut self, down: bool, len: usize) -> (e: Effect)
        requires
            old(self)@.wf(),
        ensures
            (final(self)@, e@) == old(self)@.move_queue_item(
                if down {
                    1
                } else {
                    -1
                },
                len as nat,
            ),
            final(self)@.wf(),
    {
        if len < 2 {
            return Effect::Idle;
        }
        let cur: usize = match self.queue_state.selected {
            Some(i) => i,
            None => return Effect::Idle,
        };
        if down {
            if cur >= len - 1 {
                return Effect::Idle;
            }
        } else if cur == 0 || cur > len {
            return Effect::Idle;
        }
        let (new, to): (usize, usize) = if down {
            (cur + 1, cur + 2)
        } else {
            (cur - 1, cur - 1)
        };
        self.queue_state.select(Some(new));
        let commands = vec![PlayerCommand::Move { from: cur as i64, to: to as i64 }];
        assert(lists::views(commands@) =~= seq![commands@[0]@]);
        Effect::Player(commands)
    }

    /// Takes a key in the queue tab, where the queue has `len` entries.
    fn handle_queue_key(&mut self, code: KeyCode, len: usize) -> (e: Effect)
        requires
            old(self)@.wf(),
        ensures
            (final(self)@, e@) == old(self)@.queue_key(code, len as nat),
            final(self)@.wf(),
    {
        proof {
            reveal(AppView::queue_key);
        }
        let selected = self.queue_state.selected;
        if code.goes_down() || code.goes_up() || code.goes_to_top() || code.goes_to_bottom() {
            if len == 0 {
                return Effect::Idle;
            }
            let wanted = if code.goes_down() {
                lists::move_by(selected, 1, len)
            } else if code.goes_up() {
                lists::move_up(selected)
            } else if code.goes_to_top() {
                Some(0)
            } else {
                lists::last_of(len)
            };
            self.queue_state.select(wanted);
            return Effect::Idle;
        }
        match (code, selected) {
            (KeyCode::Enter, Some(i)) => one(PlayerCommand::PlayIndex(i as i64)),
            (KeyCode::Char('d'), Some(i)) => one(PlayerCommand::RemoveIndex(i as i64)),
            (KeyCode::Char('J'), _) => self.move_queue_item(true, len),
            (KeyCode::Char('K'), _) => self.move_queue_item(false, len),
            _ => Effect::Idle,
        }
    }

    // -----------------------------------------------------------------------
    // Keys
    // -----------------------------------------------------------------------

    /// Pauses, or goes on, where something plays.
    fn toggle_pause(&self, player: &PlayerState) -> (e: Effect)
        ensures
            (self@, e@) == self@.toggle_pause(player@),
    {
        if player.is_stopped() {
            Effect::Idle
        } else {
            one(PlayerCommand::SetPause(!player.paused))
        }
    }

    /// Goes on to the next way of repeating.
    fn cycle_repeat(&mut self) -> (e: Effect)
        requires
            old(self)@.wf(),
        ensures
            (final(self)@, e@) == old(self)@.cycle_repeat(),
            final(self)@.wf(),
    {
        let repeat = self.repeat.cycle();
        self.repeat = repeat;
        self.say(text::copy(repeat.status_label()));
        let commands = vec![
            PlayerCommand::LoopPlaylist(text::copy(repeat.loop_playlist())),
            PlayerCommand::LoopFile(text::copy(repeat.loop_file())),
        ];
        assert(lists::views(commands@) =~= seq![commands@[0]@, commands@[1]@]);
        Effect::Player(commands)
    }

    /// Takes a key in normal mode.
    #[verifier::rlimit(30)]
    fn handle_normal_key(&mut self, key: Key, player: &PlayerState) -> (e: Effect)
        requires
            old(self)@.wf(),
        ensures
            (final(self)@, e@) == old(self)@.normal_key(key, player@),
            final(self)@.wf(),
    {
        if let KeyCode::Char(c) = key.code {
            if let Some(tab) = Tab::from_digit(c) {
                self.tab = tab;
                self.show_tags = false;
                return Effect::Idle;
            }
        }
        match key.code {
            KeyCode::Char('q') => {
                self.should_quit = true;
                return Effect::Idle;
            },
            KeyCode::Char('c') if key.control => {
                self.should_quit = true;
                return Effect::Idle;
            },
            KeyCode::Char(' ') => return self.toggle_pause(player),
            KeyCode::Char('n') => return one(PlayerCommand::Next),
            KeyCode::Char('p') => return one(PlayerCommand::Prev),
            KeyCode::Char('?') => {
                self.show_help = !self.show_help;
                return Effect::Idle;
            },
            KeyCode::Esc if self.show_help => {
                self.show_help = false;
                return Effect::Idle;
            },
            KeyCode::Esc if self.show_tags => {
                self.show_tags = false;
                return Effect::Idle;
            },
            KeyCode::Char('S') => {
                self.say(text::copy("shuffled queue"));
                return Effect::Shuffle;
            },
            KeyCode::Char('R') => return self.cycle_repeat(),
            KeyCode::Char('F') => return Effect::Call(Call::TriggerScan),
            _ => {},
        }
        match self.tab {
            Tab::Songs => self.handle_songs_key(key.code),
            Tab::Queue => self.handle_queue_key(key.code, player.playlist.len()),
            Tab::Settings => self.handle_settings_key(key.code),
            Tab::Playlists => self.handle_playlists_key(key.code),
        }
    }

    /// Takes a key while a filter is typed: the list follows every change.
    fn handle_filter_key(&mut self, buf: String, code: KeyCode)
        requires
            old(self)@.wf(),
            old(self)@.mode == ModeView::Filter(buf@),
        ensures
            final(self)@ == old(self)@.filter_key(buf@, code),
            final(self)@.wf(),
    {
        match code {
            KeyCode::Esc => {
                self.mode = Mode::Normal;
                self.clear_filter();
            },
            KeyCode::Enter => {
                self.mode = Mode::Normal;
            },
            KeyCode::Backspace | KeyCode::Char(_) => {
                let q = keys::edit(buf, code);
                self.mode = Mode::Filter(q.clone());
                self.apply_filter(q.as_str());
            },
            _ => {},
        }
    }

    /// Takes a key while a playlist is picked for a track.
    fn handle_pick_key(&mut self, index: usize, track_id: i64, code: KeyCode) -> (e: Effect)
        requires
            old(self)@.wf(),
        ensures
            (final(self)@, e@) == old(self)@.pick_key(index, track_id, code),
            final(self)@.wf(),
    {
        match code {
            KeyCode::Esc => {
                self.mode = Mode::Normal;
                Effect::Idle
            },
            KeyCode::Enter => {
                self.mode = Mode::Normal;
                if index < self.playlists.len() {
                    let playlist: i64 = self.playlists[index].id;
                    let name = self.playlists[index].name.clone();
                    assert(self.playlists@[index as int]@ == self@.playlists[index as int]);
                    Effect::Call(Call::AddToPlaylist { playlist, track: track_id, name })
                } else {
                    self.say(text::copy("no playlists — create one first (Playlists tab)"));
                    Effect::Idle
                }
            },
            _ => {
                let index = picker_index(index, code, self.playlists.len());
                self.mode = Mode::PickPlaylist { index, track_id };
                Effect::Idle
            },
        }
    }

    /// Takes a key while a sort key is picked.
    fn handle_sort_key(&mut self, index: usize, code: KeyCode)
        requires
            old(self)@.wf(),
        ensures
            final(self)@ == old(self)@.sort_key_key(index, code),
            final(self)@.wf(),
    {
        let all = SortKey::all();
        match code {
            KeyCode::Esc => {
                self.mode = Mode::Normal;
            },
            KeyCode::Enter => {
                self.mode = Mode::Normal;
                if index < all.len() {
                    self.apply_sort(all[index]);
                }
            },
            _ => {
                self.mode = Mode::SortPicker { index: picker_index(index, code, all.len()) };
            },
        }
    }

    /// Takes a key while a text other than a filter is typed.
    fn handle_typing_key(&mut self, mode: Mode, code: KeyCode) -> (e: Effect)
        requires
            old(self)@.wf(),
            old(self)@.mode == mode@,
        ensures
            (final(self)@, e@) == old(self)@.typing_key(code),
            final(self)@.wf(),
    {
        proof {
            reveal(AppView::typing_key);
        }
        self.mode = Mode::Normal;
        match code {
            KeyCode::Esc => {
                if let Mode::TagSearch(_) = mode {
                    self.clear_filter();
                }
                Effect::Idle
            },
            KeyCode::Enter => match mode {
                Mode::TagSearch(buf) => self.run_tag_search(buf.as_str()),
                Mode::AddTag(buf) => self.commit_add_tag(buf.as_str()),
                Mode::EditSetting(field, buf) => {
                    match field {
                        SettingsField::ServerUrl => {
                            self.settings.server_url = buf;
                        },
                        SettingsField::AuthToken => {
                            self.settings.auth_token = buf;
                        },
                    }
                    Effect::Idle
                },
                Mode::NewPlaylist(buf) => self.commit_new_playlist(buf.as_str()),
                Mode::RenamePlaylist(id, buf) => self.commit_rename_playlist(id, buf.as_str()),
                _ => Effect::Idle,
            },
            _ => {
                self.mode = edit_mode(mode, code);
                Effect::Idle
            },
        }
    }

    /// Takes a key, and says what to do.
    pub fn handle_key(&mut self, key: Key, player: &PlayerState) -> (e: Effect)
        requires
            old(self)@.wf(),
        ensures
            (final(self)@, e@) == old(self)@.handle_key(key, player@),
            final(self)@.wf(),
    {
        match self.mode.clone() {
            Mode::Normal => self.handle_normal_key(key, player),
            Mode::Filter(buf) => {
                self.handle_filter_key(buf, key.code);
                Effect::Idle
            },
            Mode::PickPlaylist { index, track_id } => self.handle_pick_key(
                index,
                track_id,
                key.code,
            ),
            Mode::SortPicker { index } => {
                self.handle_sort_key(index, key.code);
                Effect::Idle
            },
            mode => self.handle_typing_key(mode, key.code),
        }
    }

    /// Takes a key that went down; one that went up does nothing.
    pub fn handle_event(&mut self, key: Key, player: &PlayerState) -> (e: Effect)
        requires
            old(self)@.wf(),
        ensures
            (final(self)@, e@) == old(self)@.handle_event(key, player@),
            final(self)@.wf(),
    {
        if key.press {
            self.handle_key(key, player)
        } else {
            Effect::Idle
        }
    }
}

/// A mode in which a text is typed, after one more key.
fn edit_mode(mode: Mode, code: KeyCode) -> (r: Mode)
    ensures
        r@ == model::edited_mode(mode@, code),
{
    match mode {
        Mode::TagSearch(buf) => Mode::TagSearch(keys::edit(buf, code)),
        Mode::AddTag(buf) => Mode::AddTag(keys::edit(buf, code)),
        Mode::EditSetting(field, buf) => Mode::EditSetting(field, keys::edit(buf, code)),
        Mode::NewPlaylist(buf) => Mode::NewPlaylist(keys::edit(buf, code)),
        Mode::RenamePlaylist(id, buf) => Mode::RenamePlaylist(id, keys::edit(buf, code)),
        other => other,
    }
}

/// The index of a picker, after a key.
fn picker_index(index: usize, code: KeyCode, len: usize) -> (r: usize)
    ensures
        r == model::picker_index(index, code, len as nat),
{
    if code.goes_down() {
        if len > 0 {
            if index >= len - 1 {
                return len - 1;
            }
            return index + 1;
        }
    } else if code.goes_up() && index > 0 {
        return index - 1;
    }
    index
}

/// One command to the player.
fn one(command: PlayerCommand) -> (e: Effect)
    ensures
        e@ == EffectView::Player(seq![command@]),
{
    let commands = vec![command];
    assert(lists::views(commands@) =~= seq![command@]);
    Effect::Player(commands)
}

/// What is said of a track that was queued.
fn queued(artist: &str, title: &str) -> (r: String)
    ensures
        r@ == model::queued_text(artist@, title@),
{
    let mut s = text::cat3("queued: ", artist, " — ");
    s.append(title);
    s
}

/// What is said of a scan that is done, if it has been counted.
fn summarise(stats: Option<ScanStats>) -> (r: Option<String>)
    ensures
        text::opt(r) == model::summary(stats),
{
    match stats {
        Some(s) => {
            let mut r = text::cat3("scan done: seen=", text::show(s.seen).as_str(), " +");
            r.append(text::show(s.inserted).as_str());
            r.append(" ~");
            r.append(text::show(s.updated).as_str());
            r.append(" =");
            r.append(text::show(s.unchanged).as_str());
            r.append(" fail=");
            r.append(text::show(s.failed).as_str());
            Some(r)
        },
        None => None,
    }
}

/// Counts the positions of the tracks of a playlist anew.
fn renumber(tracks: &mut Vec<PlaylistTrack>)
    ensures
        lists::views(final(tracks)@) == model::renumbered(lists::views(old(tracks)@)),
        final(tracks)@.len() == old(tracks)@.len(),
{
    let ghost before = lists::views(tracks@);
    let ghost wanted = model::renumbered(before);
    let n: usize = tracks.len();
    for i in 0..n
        invariant
            n == before.len(),
            before == lists::views(old(tracks)@),
            wanted == model::renumbered(before),
            tracks@.len() == before.len(),
            forall|j: int| 0 <= j < i ==> (#[trigger] tracks@[j])@ == wanted[j],
            forall|j: int| i <= j < tracks@.len() ==> (#[trigger] tracks@[j])@ == before[j],
    {
        tracks[i].position = i as i64;
    }
    assert(lists::views(tracks@) =~= wanted);
}

/// The places of the tracks that pass a filter.
fn places_passing(tracks: &Vec<Track>, q: &str) -> (r: Vec<usize>)
    ensures
        r@ == model::passing(lists::views(tracks@), q@),
        model::places_in(r@, tracks@.len()),
{
    let needle = text::to_lowercase(q);
    let ghost all = lists::views(tracks@);
    let everything = needle.as_str().is_empty();
    let mut r: Vec<usize> = Vec::new();
    for i in 0..tracks.len()
        invariant
            all == lists::views(tracks@),
            needle@ == text::lowercase(q@),
            everything == (q@.len() == 0),
            r@ == model::passing(all.take(i as int), q@),
            model::places_in(r@, i as nat),
    {
        let t = &tracks[i];
        let passed = if everything {
            true
        } else {
            let mut s = text::cat3(t.display_artist(), " ", t.display_title());
            s.append(" ");
            s.append(t.display_album());
            let hay = text::to_lowercase(s.as_str());
            text::contains(hay.as_str(), needle.as_str())
        };
        assert(all.take(i + 1).drop_last() =~= all.take(i as int));
        assert(all.take(i + 1).last() == t@);
        if passed {
            r.push(i);
        }
    }
    assert(all.take(all.len() as int) =~= all);
    r
}

/// The places of the hits of a search among the tracks.
fn places_of_hits(tracks: &Vec<Track>, hits: &Vec<Track>) -> (r: Vec<usize>)
    ensures
        r@ == model::hit_places(lists::views(tracks@), lists::views(hits@)),
        model::places_in(r@, tracks@.len()),
{
    broadcast use vstd::std_specs::hash::group_hash_axioms;

    let ghost all = lists::views(tracks@);
    let ghost found = lists::views(hits@);
    let mut by_id: HashMap<i64, usize> = HashMap::new();
    for i in 0..tracks.len()
        invariant
            all == lists::views(tracks@),
            forall|id: i64| #[trigger]
                by_id@.contains_key(id) <==> model::last_place(all.take(i as int), id) is Some,
            forall|id: i64| #[trigger]
                by_id@.contains_key(id) ==> model::last_place(all.take(i as int), id) == Some(
                    by_id@[id],
                ),
            forall|id: i64| #[trigger] by_id@.contains_key(id) ==> by_id@[id] < i,
    {
        broadcast use vstd::std_specs::hash::group_hash_axioms;

        by_id.insert(tracks[i].id, i);
        assert(all.take(i + 1).drop_last() =~= all.take(i as int));
        assert(all.take(i + 1).last() == tracks@[i as int]@);
    }
    assert(all.take(all.len() as int) =~= all);
    let mut r: Vec<usize> = Vec::new();
    for i in 0..hits.len()
        invariant
            all == lists::views(tracks@),
            found == lists::views(hits@),
            forall|id: i64| #[trigger]
                by_id@.contains_key(id) <==> model::last_place(all, id) is Some,
            forall|id: i64| #[trigger]
                by_id@.contains_key(id) ==> model::last_place(all, id) == Some(by_id@[id]),
            forall|id: i64| #[trigger] by_id@.contains_key(id) ==> by_id@[id] < tracks@.len(),
            r@ == model::hit_places(all, found.take(i as int)),
            model::places_in(r@, tracks@.len()),
    {
        broadcast use vstd::std_specs::hash::group_hash_axioms;

        assert(found.take(i + 1).drop_last() =~= found.take(i as int));
        assert(found.take(i + 1).last() == hits@[i as int]@);
        match by_id.get(&hits[i].id) {
            Some(place) => {
                r.push(*place);
            },
            None => {},
        }
    }
    assert(found.take(found.len() as int) =~= found);
    r
}

} // verus!
