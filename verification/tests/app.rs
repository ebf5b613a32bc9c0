use mutui::api::{Client, Playlist, PlaylistTrack, ScanState, ScanStats, Track, TrackTag};
use mutui::app::App;
use mutui::keys::{Key, KeyCode};
use mutui::lists::ListState;
use mutui::mpv::{PlayerCommand, PlayerState, PlaylistEntry};
use mutui::order::SortKey;
use mutui::settings::Settings;
use mutui::state::{
    Call, Effect, Mode, Next, PlaylistsFocus, RepeatMode, SettingsField, Tab, TagsNext,
};
use mutui::ui::Pane;

fn track(id: i64, artist: &str, title: &str) -> Track {
    Track {
        id,
        path: format!("{id}.mp3"),
        title: Some(title.to_string()),
        album: Some("Album".to_string()),
        artist: Some(artist.to_string()),
        album_artist: None,
        track_no: None,
        disc_no: None,
        duration_ms: None,
        year: None,
        added_at: id,
    }
}

fn songs() -> Vec<Track> {
    vec![track(10, "Zappa", "Peaches"), track(20, "Abba", "Waterloo"), track(30, "Björk", "Jóga")]
}

fn playlist(id: i64, name: &str) -> Playlist {
    Playlist { id, name: name.to_string(), description: None, track_count: 2, created_at: 0, updated_at: 0 }
}

fn entry(track_id: i64, position: i64) -> PlaylistTrack {
    PlaylistTrack {
        track_id,
        position,
        added_at: 0,
        title: Some(format!("t{track_id}")),
        album: None,
        artist: None,
        album_artist: None,
        duration_ms: None,
    }
}

fn tag(tag_id: i64, value: &str, source: &str) -> TrackTag {
    TrackTag { tag_id, namespace: "n".to_string(), value: value.to_string(), source: source.to_string() }
}

fn scan(running: bool) -> ScanState {
    ScanState { running, started_at: None, finished_at: None, last_stats: None, last_error: None }
}

fn client() -> App {
    let settings = Settings { server_url: "http://h".to_string(), auth_token: String::new() };
    let (app, effect) = App::new(Client::new("http://h".to_string(), None), songs(), settings, 0);
    assert!(matches!(effect, Effect::Call(Call::Playlists(Next::Rest))));
    app
}

fn with_playlists() -> App {
    let mut app = client();
    let effect = app.playlists_loaded(Ok(vec![playlist(1, "one"), playlist(2, "two")]), Next::Rest);
    assert!(matches!(effect, Effect::Call(Call::PlaylistTracks(1, Next::Rest))));
    let tracks = vec![entry(10, 0), entry(20, 1), entry(30, 2)];
    assert!(matches!(app.playlist_tracks_loaded(1, Ok(tracks), Next::Rest), Effect::Idle));
    app
}

fn press(app: &mut App, code: KeyCode) -> Effect {
    app.handle_event(Key { code, control: false, press: true }, &PlayerState::new())
}

fn type_in(app: &mut App, s: &str) {
    for c in s.chars() {
        assert!(matches!(press(app, KeyCode::Char(c)), Effect::Idle));
    }
}

fn shown(app: &App) -> Vec<i64> {
    app.filtered.iter().map(|&i| app.tracks[i].id).collect()
}

fn fail() -> String {
    "boom".to_string()
}

#[test]
fn the_first_state() {
    let app = client();
    assert_eq!(shown(&app), vec![10, 20, 30]);
    assert_eq!(app.list_state.selected, Some(0));
    assert_eq!(app.tab, Tab::Songs);
    assert!(matches!(app.mode, Mode::Normal));
    assert_eq!(app.repeat, RepeatMode::Off);
    assert_eq!(app.status_msg, "");
    let settings = Settings { server_url: String::new(), auth_token: String::new() };
    let (empty, _) = App::new(Client::new(String::new(), None), Vec::new(), settings, 9);
    assert_eq!(empty.list_state.selected, None);
    assert_eq!(empty.last_scan_poll, 9);
}

#[test]
fn a_key_that_goes_up_does_nothing() {
    let mut app = client();
    let key = Key { code: KeyCode::Char('q'), control: false, press: false };
    assert!(matches!(app.handle_event(key, &PlayerState::new()), Effect::Idle));
    assert!(!app.should_quit);
}

#[test]
fn q_and_control_c_quit() {
    let mut app = client();
    press(&mut app, KeyCode::Char('c'));
    assert!(!app.should_quit);
    app.handle_key(Key { code: KeyCode::Char('c'), control: true, press: true }, &PlayerState::new());
    assert!(app.should_quit);
    let mut app = client();
    press(&mut app, KeyCode::Char('q'));
    assert!(app.should_quit);
}

#[test]
fn digits_go_to_tabs() {
    let mut app = client();
    app.show_tags = true;
    for (c, tab) in [('2', Tab::Playlists), ('3', Tab::Queue), ('4', Tab::Settings), ('1', Tab::Songs)] {
        press(&mut app, KeyCode::Char(c));
        assert_eq!(app.tab, tab);
        assert!(!app.show_tags);
    }
    press(&mut app, KeyCode::Char('5'));
    assert_eq!(app.tab, Tab::Songs);
    assert_eq!(Tab::from_digit('0'), None);
}

#[test]
fn the_player_is_told_by_keys() {
    let mut app = client();
    assert!(matches!(press(&mut app, KeyCode::Char('n')), Effect::Player(c) if matches!(c[..], [PlayerCommand::Next])));
    assert!(matches!(press(&mut app, KeyCode::Char('p')), Effect::Player(c) if matches!(c[..], [PlayerCommand::Prev])));
    assert!(matches!(press(&mut app, KeyCode::Char('S')), Effect::Shuffle));
    assert_eq!(app.status_msg, "shuffled queue");
    assert!(matches!(press(&mut app, KeyCode::Char('F')), Effect::Call(Call::TriggerScan)));
}

#[test]
fn space_pauses_what_plays() {
    let mut app = client();
    assert!(matches!(press(&mut app, KeyCode::Char(' ')), Effect::Idle));
    let mut player = PlayerState::new();
    player.current_path = Some("x".to_string());
    let key = Key { code: KeyCode::Char(' '), control: false, press: true };
    assert!(matches!(app.handle_key(key, &player), Effect::Player(c) if matches!(c[..], [PlayerCommand::SetPause(true)])));
    player.paused = true;
    assert!(matches!(app.handle_key(key, &player), Effect::Player(c) if matches!(c[..], [PlayerCommand::SetPause(false)])));
    player.idle_active = true;
    assert!(matches!(app.handle_key(key, &player), Effect::Idle));
}

#[test]
fn repeating_goes_off_all_one() {
    let mut app = client();
    for (mode, playlist, file, said) in [
        (RepeatMode::All, "inf", "no", "repeat all"),
        (RepeatMode::One, "no", "inf", "repeat one"),
        (RepeatMode::Off, "no", "no", "repeat off"),
    ] {
        match press(&mut app, KeyCode::Char('R')) {
            Effect::Player(c) => match &c[..] {
                [PlayerCommand::LoopPlaylist(p), PlayerCommand::LoopFile(f)] => {
                    assert_eq!((p.as_str(), f.as_str()), (playlist, file));
                }
                other => panic!("{other:?}"),
            },
            other => panic!("{other:?}"),
        }
        assert_eq!(app.repeat, mode);
        assert_eq!(app.status_msg, said);
    }
}

#[test]
fn help_opens_and_closes_again() {
    let mut app = client();
    press(&mut app, KeyCode::Char('?'));
    assert!(app.show_help);
    press(&mut app, KeyCode::Char('?'));
    assert!(!app.show_help);
    app.show_help = true;
    app.show_tags = true;
    press(&mut app, KeyCode::Esc);
    assert!(!app.show_help && app.show_tags);
    press(&mut app, KeyCode::Esc);
    assert!(!app.show_tags);
}

#[test]
fn the_selection_stays_in_the_list() {
    let mut app = client();
    for (code, selected) in [
        (KeyCode::Char('j'), 1),
        (KeyCode::Down, 2),
        (KeyCode::Down, 2),
        (KeyCode::Up, 1),
        (KeyCode::PageUp, 0),
        (KeyCode::PageDown, 2),
        (KeyCode::Char('g'), 0),
        (KeyCode::Char('k'), 0),
        (KeyCode::Char('G'), 2),
        (KeyCode::Home, 0),
        (KeyCode::End, 2),
    ] {
        press(&mut app, code);
        assert_eq!(app.list_state.selected, Some(selected));
    }
}

#[test]
fn a_filter_follows_the_typing() {
    let mut app = client();
    press(&mut app, KeyCode::Char('/'));
    type_in(&mut app, "BJ");
    assert_eq!(shown(&app), vec![30]);
    assert!(matches!(&app.mode, Mode::Filter(b) if b == "BJ"));
    press(&mut app, KeyCode::Backspace);
    assert_eq!(app.filtered.len(), 3);
    type_in(&mut app, "ÖRK");
    assert!(shown(&app).is_empty());
    assert_eq!(app.list_state.selected, None);
    press(&mut app, KeyCode::Other);
    press(&mut app, KeyCode::Esc);
    assert!(matches!(app.mode, Mode::Normal));
    assert_eq!(app.filtered.len(), 3);
}

#[test]
fn a_filter_is_blind_to_case() {
    let mut app = client();
    press(&mut app, KeyCode::Char('/'));
    type_in(&mut app, "BJÖRK JÓGA");
    assert_eq!(shown(&app), vec![30]);
    press(&mut app, KeyCode::Enter);
    assert!(matches!(app.mode, Mode::Normal));
    assert_eq!(shown(&app), vec![30]);
    press(&mut app, KeyCode::Esc);
    assert_eq!(app.filtered.len(), 3);
}

#[test]
fn backspace_takes_the_last_character() {
    let mut app = client();
    press(&mut app, KeyCode::Char('T'));
    type_in(&mut app, "aé");
    press(&mut app, KeyCode::Backspace);
    assert!(matches!(&app.mode, Mode::TagSearch(b) if b == "a"));
    press(&mut app, KeyCode::Backspace);
    press(&mut app, KeyCode::Backspace);
    assert!(matches!(&app.mode, Mode::TagSearch(b) if b.is_empty()));
}

#[test]
fn a_tag_search_shows_the_hits() {
    let mut app = client();
    press(&mut app, KeyCode::Char('T'));
    type_in(&mut app, " mood:calm ");
    let q = match press(&mut app, KeyCode::Enter) {
        Effect::Call(Call::Search(q)) => q,
        other => panic!("{other:?}"),
    };
    assert_eq!(q, "mood:calm");
    let hits = vec![track(30, "x", "x"), track(99, "x", "x"), track(10, "x", "x")];
    app.search_done(&q, Ok(hits));
    assert_eq!(app.status_msg, "tag search 'mood:calm': 2 hits");
    let mut ids = shown(&app);
    ids.sort();
    assert_eq!(ids, vec![10, 30]);
    app.search_done(&q, Err(fail()));
    assert_eq!(app.status_msg, "search failed: boom");
    app.search_done(&q, Ok(Vec::new()));
    assert_eq!(app.list_state.selected, None);
    press(&mut app, KeyCode::Char('T'));
    assert!(matches!(press(&mut app, KeyCode::Enter), Effect::Idle));
    assert_eq!(app.filtered.len(), 3);
}

#[test]
fn a_hit_is_the_last_track_with_its_number() {
    let mut app = client();
    app.reconnected(Ok(vec![track(7, "a", "first"), track(7, "b", "second")]));
    app.search_done("q", Ok(vec![track(7, "", "")]));
    assert_eq!(app.filtered, vec![1]);
}

#[test]
fn sorting_keeps_the_selected_track() {
    let mut app = client();
    press(&mut app, KeyCode::Char('s'));
    assert!(matches!(app.mode, Mode::SortPicker { index: 0 }));
    press(&mut app, KeyCode::Char('k'));
    press(&mut app, KeyCode::Char('j'));
    press(&mut app, KeyCode::Down);
    assert!(matches!(app.mode, Mode::SortPicker { index: 2 }));
    press(&mut app, KeyCode::Enter);
    assert_eq!(app.sort_key, SortKey::Artist);
    assert_eq!(shown(&app), vec![20, 30, 10]);
    assert_eq!(app.list_state.selected, Some(2));
    assert_eq!(app.status_msg, "sort: artist");
    press(&mut app, KeyCode::Char('s'));
    for _ in 0..9 {
        press(&mut app, KeyCode::Char('j'));
    }
    assert!(matches!(app.mode, Mode::SortPicker { index: 6 }));
    press(&mut app, KeyCode::Enter);
    assert_eq!(shown(&app), vec![30, 20, 10]);
    press(&mut app, KeyCode::Char('s'));
    press(&mut app, KeyCode::Esc);
    assert_eq!(app.sort_key, SortKey::AddedAt);
}

#[test]
fn playing_and_queueing_tracks() {
    let mut app = client();
    press(&mut app, KeyCode::Down);
    match press(&mut app, KeyCode::Enter) {
        Effect::Player(c) => match &c[..] {
            [PlayerCommand::Load(u), PlayerCommand::SetPause(false)] => assert_eq!(u, "http://h/api/tracks/20/stream"),
            other => panic!("{other:?}"),
        },
        other => panic!("{other:?}"),
    }
    match press(&mut app, KeyCode::Char('a')) {
        Effect::Player(c) => match &c[..] {
            [PlayerCommand::Enqueue(u)] => assert_eq!(u, "http://h/api/tracks/20/stream"),
            other => panic!("{other:?}"),
        },
        other => panic!("{other:?}"),
    }
    assert_eq!(app.status_msg, "queued: Abba — Waterloo");
    match press(&mut app, KeyCode::Char('E')) {
        Effect::Player(c) => {
            assert_eq!(c.len(), 3);
            assert!(matches!(&c[2], PlayerCommand::Enqueue(u) if u == "http://h/api/tracks/30/stream"));
        }
        other => panic!("{other:?}"),
    }
    assert_eq!(app.status_msg, "queued 3 tracks");
    app.reconnected(Ok(Vec::new()));
    assert!(matches!(press(&mut app, KeyCode::Enter), Effect::Idle));
    assert!(matches!(press(&mut app, KeyCode::Char('a')), Effect::Idle));
    press(&mut app, KeyCode::Char('E'));
    assert_eq!(app.status_msg, "nothing to queue");
    press(&mut app, KeyCode::Char('t'));
    assert_eq!(app.status_msg, "no track selected");
}

#[test]
fn tags_are_fetched_once() {
    let mut app = client();
    assert!(matches!(press(&mut app, KeyCode::Char('t')), Effect::Call(Call::TrackTags(10, TagsNext::Show))));
    app.track_tags_loaded(10, Ok(vec![tag(1, "a", "file"), tag(2, "b", "user")]), TagsNext::Show);
    assert!(app.show_tags);
    assert_eq!(app.tags_state.selected, Some(0));
    press(&mut app, KeyCode::Char('t'));
    assert!(!app.show_tags);
    assert!(matches!(press(&mut app, KeyCode::Char('t')), Effect::Idle));
    assert!(app.show_tags);
}

#[test]
fn tags_that_cannot_be_fetched() {
    let mut app = client();
    press(&mut app, KeyCode::Char('t'));
    app.track_tags_loaded(10, Err(fail()), TagsNext::Show);
    assert_eq!(app.status_msg, "tag fetch failed: boom");
    assert!(app.show_tags && app.current_tags.is_empty());
    assert_eq!(app.current_tags_for, Some(10));
    assert_eq!(app.tags_state.selected, None);
}

#[test]
fn only_a_user_tag_is_removed() {
    let mut app = client();
    press(&mut app, KeyCode::Char('t'));
    app.track_tags_loaded(10, Ok(vec![tag(1, "a", "file"), tag(2, "b", "user")]), TagsNext::Show);
    assert!(matches!(press(&mut app, KeyCode::Char('d')), Effect::Idle));
    assert_eq!(app.status_msg, "can't remove non-user tag n:a");
    press(&mut app, KeyCode::Char('G'));
    let label = match press(&mut app, KeyCode::Char('d')) {
        Effect::Call(Call::RemoveUserTag { track: 10, tag: 2, label }) => label,
        other => panic!("{other:?}"),
    };
    assert_eq!(label, "n:b");
    assert!(matches!(app.user_tag_removed(&label, Ok(())), Effect::Call(Call::TrackTags(10, TagsNext::KeepInRange))));
    assert_eq!(app.status_msg, "removed n:b");
    app.track_tags_loaded(10, Ok(vec![tag(1, "a", "file")]), TagsNext::KeepInRange);
    assert_eq!(app.tags_state.selected, Some(0));
    app.user_tag_removed("x", Err(fail()));
    assert_eq!(app.status_msg, "remove tag failed: boom");
}

#[test]
fn a_tag_is_added() {
    let mut app = client();
    app.show_tags = true;
    press(&mut app, KeyCode::Char('a'));
    type_in(&mut app, "mood: calm");
    let effect = press(&mut app, KeyCode::Enter);
    match &effect {
        Effect::Call(Call::AddUserTag { track: 10, namespace, value }) => {
            assert_eq!((namespace.as_str(), value.as_str()), ("mood", "calm"));
        }
        other => panic!("{other:?}"),
    }
    assert!(matches!(app.user_tag_added("mood", "calm", Ok(())), Effect::Call(Call::TrackTags(10, TagsNext::Rest))));
    assert_eq!(app.status_msg, "added mood:calm");
    app.user_tag_added("mood", "calm", Err(fail()));
    assert_eq!(app.status_msg, "add tag failed: boom");
    press(&mut app, KeyCode::Char('a'));
    assert!(matches!(press(&mut app, KeyCode::Enter), Effect::Idle));
    assert_eq!(app.status_msg, "tag input: '<ns>:<val>' or '<val>'");
}

#[test]
fn playlists_stay_selected_by_their_number() {
    let mut app = with_playlists();
    app.tab = Tab::Playlists;
    press(&mut app, KeyCode::Char('j'));
    assert_eq!(app.playlists_state.selected, Some(1));
    app.playlists_loaded(Ok(vec![playlist(5, "new"), playlist(1, "one"), playlist(2, "two")]), Next::Rest);
    assert_eq!(app.playlists_state.selected, Some(2));
    app.playlists_loaded(Ok(vec![playlist(5, "new")]), Next::Rest);
    assert_eq!(app.playlists_state.selected, Some(0));
    app.playlists_loaded(Err(fail()), Next::Rest);
    assert_eq!(app.status_msg, "playlists: boom");
    assert_eq!(app.playlists.len(), 1);
    app.playlists_loaded(Ok(Vec::new()), Next::Rest);
    assert_eq!(app.playlists_state.selected, None);
    assert!(app.playlist_tracks.is_empty());
}

#[test]
fn moving_among_playlists_fetches_their_tracks() {
    let mut app = with_playlists();
    app.tab = Tab::Playlists;
    assert!(matches!(press(&mut app, KeyCode::Char('k')), Effect::Idle));
    assert!(matches!(press(&mut app, KeyCode::Down), Effect::Call(Call::PlaylistTracks(2, Next::Rest))));
    assert!(matches!(press(&mut app, KeyCode::Down), Effect::Idle));
    assert!(matches!(press(&mut app, KeyCode::Home), Effect::Call(Call::PlaylistTracks(1, Next::Rest))));
    assert!(matches!(press(&mut app, KeyCode::End), Effect::Call(Call::PlaylistTracks(2, Next::Rest))));
    assert!(matches!(press(&mut app, KeyCode::Enter), Effect::Call(Call::PlaylistTracks(2, Next::Rest))));
    assert_eq!(app.playlists_focus, PlaylistsFocus::Tracks);
    press(&mut app, KeyCode::Esc);
    assert_eq!(app.playlists_focus, PlaylistsFocus::List);
    press(&mut app, KeyCode::Tab);
    assert_eq!(app.playlists_focus, PlaylistsFocus::Tracks);
    app.playlist_tracks_loaded(2, Err(fail()), Next::Rest);
    assert_eq!(app.status_msg, "playlist tracks: boom");
    assert_eq!(app.playlist_tracks_for, Some(2));
    assert_eq!(app.playlist_tracks_state.selected, None);
}

#[test]
fn a_playlist_is_made_and_selected() {
    let mut app = with_playlists();
    app.tab = Tab::Playlists;
    press(&mut app, KeyCode::Char('N'));
    assert!(matches!(press(&mut app, KeyCode::Enter), Effect::Idle));
    assert_eq!(app.status_msg, "playlist name is empty");
    press(&mut app, KeyCode::Char('N'));
    type_in(&mut app, " mix ");
    assert!(matches!(press(&mut app, KeyCode::Enter), Effect::Call(Call::CreatePlaylist(n)) if n == "mix"));
    let effect = app.playlist_created(Ok(playlist(3, "mix")));
    assert!(matches!(effect, Effect::Call(Call::Playlists(Next::SelectPlaylist(3)))));
    assert_eq!(app.status_msg, "created playlist mix");
    let all = vec![playlist(1, "one"), playlist(3, "mix"), playlist(2, "two")];
    let effect = app.playlists_loaded(Ok(all), Next::SelectPlaylist(3));
    assert!(matches!(effect, Effect::Call(Call::PlaylistTracks(1, Next::SelectPlaylist(3)))));
    let effect = app.playlist_tracks_loaded(1, Ok(Vec::new()), Next::SelectPlaylist(3));
    assert!(matches!(effect, Effect::Call(Call::PlaylistTracks(3, Next::Rest))));
    assert_eq!(app.playlists_state.selected, Some(1));
    assert!(matches!(app.playlist_tracks_loaded(3, Ok(Vec::new()), Next::Rest), Effect::Idle));
    app.playlist_created(Err(fail()));
    assert_eq!(app.status_msg, "create failed: boom");
}

#[test]
fn a_playlist_is_renamed() {
    let mut app = with_playlists();
    app.tab = Tab::Playlists;
    press(&mut app, KeyCode::Char('r'));
    assert!(matches!(&app.mode, Mode::RenamePlaylist(1, b) if b == "one"));
    type_in(&mut app, "!");
    assert!(matches!(press(&mut app, KeyCode::Enter), Effect::Call(Call::RenamePlaylist(1, n)) if n == "one!"));
    assert!(matches!(app.playlist_renamed(Ok(())), Effect::Call(Call::Playlists(Next::Rest))));
    assert_eq!(app.status_msg, "renamed");
    app.playlist_renamed(Err(fail()));
    assert_eq!(app.status_msg, "rename failed: boom");
    app.mode = Mode::RenamePlaylist(1, " ".to_string());
    assert!(matches!(press(&mut app, KeyCode::Enter), Effect::Idle));
    assert_eq!(app.status_msg, "name is empty");
}

#[test]
fn a_playlist_is_deleted() {
    let mut app = with_playlists();
    app.tab = Tab::Playlists;
    let name = match press(&mut app, KeyCode::Char('D')) {
        Effect::Call(Call::DeletePlaylist(1, name)) => name,
        other => panic!("{other:?}"),
    };
    app.playlist_deleted(&name, Err(fail()));
    assert_eq!(app.status_msg, "delete failed: boom");
    assert_eq!(app.playlists_state.selected, Some(0));
    assert!(matches!(app.playlist_deleted(&name, Ok(())), Effect::Call(Call::Playlists(Next::Rest))));
    assert_eq!(app.status_msg, "deleted one");
    assert_eq!(app.playlists_state.selected, None);
    assert_eq!(app.playlist_tracks_for, None);
    assert!(matches!(press(&mut app, KeyCode::Char('D')), Effect::Idle));
}

#[test]
fn a_playlist_is_played_from_a_track() {
    let mut app = with_playlists();
    app.tab = Tab::Playlists;
    assert!(matches!(press(&mut app, KeyCode::Char('P')), Effect::Player(c) if c.len() == 4));
    assert_eq!(app.status_msg, "playing one from #1 (3 tracks)");
    press(&mut app, KeyCode::Tab);
    press(&mut app, KeyCode::Char('j'));
    match press(&mut app, KeyCode::Enter) {
        Effect::Player(c) => match &c[..] {
            [PlayerCommand::Load(a), PlayerCommand::SetPause(false), PlayerCommand::Enqueue(b)] => {
                assert_eq!(a, "http://h/api/tracks/20/stream");
                assert_eq!(b, "http://h/api/tracks/30/stream");
            }
            other => panic!("{other:?}"),
        },
        other => panic!("{other:?}"),
    }
    assert_eq!(app.status_msg, "playing one from #2 (2 tracks)");
    match press(&mut app, KeyCode::Char('a')) {
        Effect::Player(c) => assert!(matches!(&c[..], [PlayerCommand::Enqueue(u)] if u.ends_with("/20/stream"))),
        other => panic!("{other:?}"),
    }
    assert_eq!(app.status_msg, "queued: — — t20");
    app.playlist_tracks_loaded(1, Ok(Vec::new()), Next::Rest);
    press(&mut app, KeyCode::Esc);
    press(&mut app, KeyCode::Char('P'));
    assert_eq!(app.status_msg, "playlist is empty");
}

#[test]
fn a_playlist_track_moves_and_moves_back() {
    let mut app = with_playlists();
    app.tab = Tab::Playlists;
    press(&mut app, KeyCode::Tab);
    assert!(matches!(press(&mut app, KeyCode::Char('K')), Effect::Idle));
    match press(&mut app, KeyCode::Char('J')) {
        Effect::Call(Call::SetPlaylistTracks(1, ids)) => assert_eq!(ids, vec![20, 10, 30]),
        other => panic!("{other:?}"),
    }
    assert_eq!(app.playlist_tracks_state.selected, Some(1));
    assert_eq!(app.playlist_tracks.iter().map(|t| t.position).collect::<Vec<_>>(), vec![0, 1, 2]);
    match press(&mut app, KeyCode::Char('K')) {
        Effect::Call(Call::SetPlaylistTracks(1, ids)) => assert_eq!(ids, vec![10, 20, 30]),
        other => panic!("{other:?}"),
    }
    assert!(matches!(app.playlist_tracks_set(Ok(())), Effect::Idle));
    assert!(matches!(app.playlist_tracks_set(Err(fail())), Effect::Call(Call::PlaylistTracks(1, Next::Rest))));
    assert_eq!(app.status_msg, "reorder failed: boom");
    press(&mut app, KeyCode::End);
    assert!(matches!(press(&mut app, KeyCode::Char('J')), Effect::Idle));
}

#[test]
fn a_track_leaves_a_playlist() {
    let mut app = with_playlists();
    app.tab = Tab::Playlists;
    press(&mut app, KeyCode::Tab);
    press(&mut app, KeyCode::Down);
    assert!(matches!(press(&mut app, KeyCode::Char('d')), Effect::Call(Call::RemoveFromPlaylist { playlist: 1, track: 20 })));
    let effect = app.removed_from_playlist(Ok(()));
    assert!(matches!(effect, Effect::Call(Call::PlaylistTracks(1, Next::ReloadPlaylists))));
    let effect = app.playlist_tracks_loaded(1, Ok(vec![entry(10, 0)]), Next::ReloadPlaylists);
    assert!(matches!(effect, Effect::Call(Call::Playlists(Next::Rest))));
    assert_eq!(app.playlist_tracks_state.selected, Some(0));
    app.removed_from_playlist(Err(fail()));
    assert_eq!(app.status_msg, "remove failed: boom");
}

#[test]
fn a_track_goes_into_a_playlist() {
    let mut app = client();
    press(&mut app, KeyCode::Char('A'));
    assert_eq!(app.status_msg, "no playlists — create one in the Playlists tab");
    let mut app = with_playlists();
    press(&mut app, KeyCode::Char('A'));
    assert!(matches!(app.mode, Mode::PickPlaylist { index: 0, track_id: 10 }));
    press(&mut app, KeyCode::Char('k'));
    press(&mut app, KeyCode::Char('j'));
    press(&mut app, KeyCode::Char('j'));
    assert!(matches!(app.mode, Mode::PickPlaylist { index: 1, track_id: 10 }));
    let name = match press(&mut app, KeyCode::Enter) {
        Effect::Call(Call::AddToPlaylist { playlist: 2, track: 10, name }) => name,
        other => panic!("{other:?}"),
    };
    assert!(matches!(app.added_to_playlist(2, &name, Ok(())), Effect::Call(Call::Playlists(Next::Rest))));
    assert_eq!(app.status_msg, "added to two");
    let effect = app.added_to_playlist(1, "one", Ok(()));
    assert!(matches!(effect, Effect::Call(Call::PlaylistTracks(1, Next::ReloadPlaylists))));
    app.added_to_playlist(1, "one", Err(fail()));
    assert_eq!(app.status_msg, "add failed: boom");
    app.mode = Mode::PickPlaylist { index: 9, track_id: 10 };
    assert!(matches!(press(&mut app, KeyCode::Enter), Effect::Idle));
    assert_eq!(app.status_msg, "no playlists — create one first (Playlists tab)");
}

fn queue_of(n: usize) -> PlayerState {
    let mut player = PlayerState::new();
    for i in 0..n {
        player.playlist.push(PlaylistEntry { url: i.to_string(), current: i == 0 });
    }
    player
}

fn press_with(app: &mut App, player: &PlayerState, code: KeyCode) -> Effect {
    app.handle_key(Key { code, control: false, press: true }, player)
}

#[test]
fn the_queue_is_played_and_shortened() {
    let mut app = client();
    app.tab = Tab::Queue;
    let player = queue_of(3);
    assert!(matches!(press_with(&mut app, &player, KeyCode::Enter), Effect::Idle));
    press_with(&mut app, &player, KeyCode::Down);
    assert_eq!(app.queue_state.selected, Some(1));
    press_with(&mut app, &player, KeyCode::Char('G'));
    assert!(matches!(press_with(&mut app, &player, KeyCode::Enter), Effect::Player(c) if matches!(c[..], [PlayerCommand::PlayIndex(2)])));
    assert!(matches!(press_with(&mut app, &player, KeyCode::Char('d')), Effect::Player(c) if matches!(c[..], [PlayerCommand::RemoveIndex(2)])));
    press_with(&mut app, &player, KeyCode::Char('g'));
    press_with(&mut app, &player, KeyCode::Char('k'));
    assert_eq!(app.queue_state.selected, Some(0));
    let empty = queue_of(0);
    press_with(&mut app, &empty, KeyCode::Down);
    assert_eq!(app.queue_state.selected, Some(0));
}

#[test]
fn a_queue_entry_lands_next_to_where_it_was() {
    let mut app = client();
    app.tab = Tab::Queue;
    let player = queue_of(3);
    app.queue_state.selected = Some(0);
    for (code, order) in [
        (KeyCode::Char('J'), vec![1, 0, 2]),
        (KeyCode::Char('J'), vec![1, 2, 0]),
        (KeyCode::Char('J'), vec![1, 2, 0]),
        (KeyCode::Char('K'), vec![1, 0, 2]),
        (KeyCode::Char('K'), vec![0, 1, 2]),
        (KeyCode::Char('K'), vec![0, 1, 2]),
    ] {
        let before = app.queue_state.selected.unwrap();
        let mut entries = if code == KeyCode::Char('J') {
            match before {
                0 => vec![0, 1, 2],
                1 => vec![1, 0, 2],
                _ => vec![1, 2, 0],
            }
        } else {
            match before {
                2 => vec![1, 2, 0],
                1 => vec![1, 0, 2],
                _ => vec![0, 1, 2],
            }
        };
        if let Effect::Player(c) = press_with(&mut app, &player, code) {
            match c[..] {
                [PlayerCommand::Move { from, to }] => {
                    let e = entries.remove(from as usize);
                    entries.insert(if from < to { to as usize - 1 } else { to as usize }, e);
                }
                ref other => panic!("{other:?}"),
            }
        }
        assert_eq!(entries, order);
        assert_eq!(entries[app.queue_state.selected.unwrap()], 0);
    }
    assert!(matches!(press_with(&mut app, &queue_of(1), KeyCode::Char('J')), Effect::Idle));
}

#[test]
fn settings_are_edited_saved_and_used() {
    let mut app = client();
    app.tab = Tab::Settings;
    press(&mut app, KeyCode::Char('j'));
    assert_eq!(app.settings_field, SettingsField::AuthToken);
    press(&mut app, KeyCode::Enter);
    type_in(&mut app, "tok");
    press(&mut app, KeyCode::Enter);
    assert_eq!(app.settings.auth_token, "tok");
    press(&mut app, KeyCode::Up);
    press(&mut app, KeyCode::Char('e'));
    assert!(matches!(&app.mode, Mode::EditSetting(SettingsField::ServerUrl, b) if b == "http://h"));
    type_in(&mut app, "2/");
    press(&mut app, KeyCode::Enter);
    assert!(matches!(press(&mut app, KeyCode::Char('s')), Effect::SaveSettings));
    app.settings_saved(Err(fail()));
    assert_eq!(app.status_msg, "save failed: boom");
    assert_eq!(app.client.base, "http://h");
    match app.settings_saved(Ok(())) {
        Effect::Reconnect(headers) => assert_eq!(headers, vec!["Authorization: Bearer tok"]),
        other => panic!("{other:?}"),
    }
    assert_eq!(app.client.base, "http://h2");
    assert_eq!(app.saved_settings.server_url, "http://h2/");
    app.reconnected(Ok(vec![track(1, "B", "x"), track(2, "A", "y")]));
    assert_eq!(app.status_msg, "saved & reloaded (2 tracks)");
    assert_eq!(app.list_state.selected, Some(0));
    app.reconnected(Err(fail()));
    assert_eq!(app.status_msg, "saved, but connect failed: boom");
    assert!(app.tracks.is_empty() && app.filtered.is_empty());
    assert_eq!(app.list_state.selected, None);
}

#[test]
fn settings_are_reverted() {
    let mut app = client();
    app.tab = Tab::Settings;
    press(&mut app, KeyCode::Char('e'));
    type_in(&mut app, "x");
    press(&mut app, KeyCode::Esc);
    assert_eq!(app.settings.server_url, "http://h");
    press(&mut app, KeyCode::Char('e'));
    type_in(&mut app, "x");
    press(&mut app, KeyCode::Enter);
    assert_eq!(app.settings.server_url, "http://hx");
    press(&mut app, KeyCode::Char('r'));
    assert_eq!(app.settings.server_url, "http://h");
    assert_eq!(app.status_msg, "settings reverted");
}

#[test]
fn a_scan_is_watched_until_it_is_done() {
    let mut app = client();
    app.scan_triggered(Err(fail()), 5);
    assert_eq!(app.status_msg, "scan: boom");
    app.scan_triggered(Ok(scan(false)), 5);
    assert_eq!(app.status_msg, "scan triggered");
    assert!(matches!(app.poll_scan_if_due(u64::MAX), Effect::Idle));
    app.scan_triggered(Ok(scan(true)), 1_000);
    assert_eq!(app.status_msg, "rescanning library…");
    assert!(matches!(app.poll_scan_if_due(0), Effect::Idle));
    assert!(matches!(app.poll_scan_if_due(1_500_000_999), Effect::Idle));
    assert!(matches!(app.poll_scan_if_due(1_500_001_000), Effect::Call(Call::ScanStatus)));
    assert_eq!(app.last_scan_poll, 1_500_001_000);
    assert!(matches!(app.scan_polled(Err(fail())), Effect::Idle));
    assert!(matches!(app.scan_polled(Ok(scan(true))), Effect::Idle));
    assert!(app.scan_polling);
    let mut done = scan(false);
    done.last_stats = Some(ScanStats { seen: 5, inserted: 1, updated: 2, unchanged: 3, failed: 4 });
    let summary = match app.scan_polled(Ok(done)) {
        Effect::Call(Call::Tracks(summary)) => summary,
        other => panic!("{other:?}"),
    };
    assert!(!app.scan_polling);
    app.rescanned(summary, Ok(songs()));
    assert_eq!(app.status_msg, "scan done: seen=5 +1 ~2 =3 fail=4");
}

#[test]
fn a_scan_can_fail() {
    let mut app = client();
    app.scan_polling = true;
    let mut broken = scan(false);
    broken.last_error = Some("disk".to_string());
    assert!(matches!(app.scan_polled(Ok(broken)), Effect::Idle));
    assert_eq!(app.status_msg, "scan failed: disk");
    assert!(matches!(app.scan_polled(Ok(scan(false))), Effect::Call(Call::Tracks(None))));
    app.rescanned(None, Err(fail()));
    assert_eq!(app.status_msg, "scan done (reload failed: boom)");
    app.rescanned(Some("sum".to_string()), Err(fail()));
    assert_eq!(app.status_msg, "sum (reload failed: boom)");
}

#[test]
fn after_a_scan_the_track_at_the_selected_place_is_selected() {
    let mut app = client();
    press(&mut app, KeyCode::Down);
    app.current_tags_for = Some(20);
    app.rescanned(None, Ok(vec![track(1, "a", "1"), track(2, "b", "Zulu"), track(3, "c", "Alpha")]));
    assert_eq!(app.status_msg, "scan done — 3 tracks");
    assert_eq!(shown(&app), vec![1, 3, 2]);
    assert_eq!(app.list_state.selected, Some(2));
    assert_eq!(app.current_tags_for, None);
    app.rescanned(None, Ok(Vec::new()));
    assert_eq!(app.list_state.selected, None);
}

#[test]
fn calls_become_requests() {
    let app = client();
    let r = Call::Tracks(None).request(&app.client, 1000);
    assert_eq!(r.url, "http://h/api/tracks?limit=1000&offset=1000");
    let r = Call::RemoveUserTag { track: 1, tag: 2, label: String::new() }.request(&app.client, 0);
    assert_eq!(r.url, "http://h/api/tracks/1/tags/2");
    let r = Call::SetPlaylistTracks(4, vec![1, 2]).request(&app.client, 0);
    assert_eq!(r.url, "http://h/api/playlists/4/tracks");
    let r = Call::PlaylistTracks(4, Next::Rest).request(&app.client, 0);
    assert_eq!(r.context, "GET playlist tracks");
    let r = Call::Search("x y".to_string()).request(&app.client, 0);
    assert_eq!(r.url, "http://h/api/search?q=x%20y");
}

#[test]
fn a_drawn_list_keeps_a_selection_that_is_there() {
    let mut app = with_playlists();
    app.drawn(Pane::Songs, ListState { offset: 2, selected: Some(2) });
    assert_eq!(app.list_state, ListState { offset: 2, selected: Some(2) });
    app.drawn(Pane::Songs, ListState { offset: 0, selected: None });
    assert_eq!(app.list_state.selected, Some(0));
    app.drawn(Pane::PlaylistTracks, ListState { offset: 1, selected: Some(9) });
    assert_eq!(app.playlist_tracks_state, ListState { offset: 1, selected: Some(2) });
    app.drawn(Pane::Playlists, ListState { offset: 0, selected: None });
    assert_eq!(app.playlists_state.selected, None);
    app.drawn(Pane::Queue, ListState { offset: 3, selected: Some(4) });
    assert_eq!(app.queue_state.offset, 3);
    app.drawn(Pane::Tags, ListState { offset: 0, selected: None });
    assert_eq!(app.tags_state.selected, None);
}

#[test]
fn escape_leads_back_to_normal_mode() {
    for mode in [
        Mode::Normal,
        Mode::Filter("a".to_string()),
        Mode::TagSearch("a".to_string()),
        Mode::AddTag("a".to_string()),
        Mode::EditSetting(SettingsField::ServerUrl, "a".to_string()),
        Mode::NewPlaylist("a".to_string()),
        Mode::RenamePlaylist(1, "a".to_string()),
        Mode::PickPlaylist { index: 0, track_id: 1 },
        Mode::SortPicker { index: 0 },
    ] {
        let mut app = with_playlists();
        app.mode = mode;
        assert!(matches!(press(&mut app, KeyCode::Esc), Effect::Idle));
        assert!(matches!(app.mode, Mode::Normal));
        assert_eq!(app.settings.server_url, "http://h");
        assert_eq!(app.filtered.len(), 3);
    }
}

#[test]
fn a_chain_of_calls_ends() {
    let mut app = with_playlists();
    app.tab = Tab::Playlists;
    app.playlists_focus = PlaylistsFocus::Tracks;
    let mut effect = press(&mut app, KeyCode::Char('d'));
    let mut calls = 0;
    loop {
        effect = match effect {
            Effect::Call(Call::RemoveFromPlaylist { .. }) => app.removed_from_playlist(Ok(())),
            Effect::Call(Call::PlaylistTracks(id, next)) => {
                app.playlist_tracks_loaded(id, Ok(vec![entry(20, 0)]), next)
            }
            Effect::Call(Call::Playlists(next)) => {
                app.playlists_loaded(Ok(vec![playlist(2, "two")]), next)
            }
            Effect::Idle => break,
            other => panic!("{other:?}"),
        };
        calls += 1;
    }
    assert_eq!(calls, 4);
}

#[test]
fn a_second_drawing_changes_nothing() {
    let mut app = client();
    app.tab = Tab::Queue;
    app.queue_state = ListState { offset: 1, selected: Some(9) };
    let player = queue_of(2);
    app.render(&player, "");
    assert_eq!(app.queue_state, ListState { offset: 1, selected: Some(1) });
    app.render(&player, "");
    assert_eq!(app.queue_state, ListState { offset: 1, selected: Some(1) });
}

#[test]
fn tags_are_in_sight_with_the_songs_alone() {
    let mut app = client();
    press(&mut app, KeyCode::Char('t'));
    app.track_tags_loaded(10, Ok(vec![tag(1, "a", "user")]), TagsNext::Show);
    assert!(app.show_tags);
    for c in ['2', '3', '4'] {
        press(&mut app, KeyCode::Char(c));
        assert!(!app.show_tags);
        assert!(!matches!(
            press(&mut app, KeyCode::Char('t')),
            Effect::Call(Call::TrackTags(_, TagsNext::Show))
        ));
        assert!(!app.show_tags);
    }
    app.track_tags_loaded(10, Ok(Vec::new()), TagsNext::Rest);
    assert!(!app.show_tags);
    assert_eq!(app.tab, Tab::Settings);
}

#[test]
fn a_longer_filter_only_takes_tracks_away() {
    let mut app = client();
    app.sort_key = SortKey::Artist;
    press(&mut app, KeyCode::Char('/'));
    let mut before = vec![20, 30, 10];
    for c in "A Wat".chars() {
        press(&mut app, KeyCode::Char(c));
        let now = shown(&app);
        let kept: Vec<i64> = before.iter().copied().filter(|i| now.contains(i)).collect();
        assert_eq!(now, kept);
        before = now;
    }
    assert_eq!(before, vec![20]);
}

#[test]
fn a_final_sigma_can_make_a_longer_filter_show_more() {
    let mut app = client();
    app.reconnected(Ok(vec![track(1, "x", "ασα")]));
    press(&mut app, KeyCode::Char('/'));
    type_in(&mut app, "ΑΣ");
    assert!(shown(&app).is_empty());
    type_in(&mut app, "Α");
    assert_eq!(shown(&app), vec![1]);
}

#[test]
fn a_filter_forgets_the_one_before_it() {
    let mut app = client();
    press(&mut app, KeyCode::Char('/'));
    type_in(&mut app, "zzz");
    press(&mut app, KeyCode::Enter);
    assert!(shown(&app).is_empty());
    press(&mut app, KeyCode::Char('/'));
    type_in(&mut app, "abba");
    assert_eq!(shown(&app), vec![20]);
    assert_eq!(app.list_state.selected, Some(0));
}
