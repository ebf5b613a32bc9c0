use mutui::api::{Client, Playlist, PlaylistTrack, Track, TrackTag};
use mutui::app::App;
use mutui::mpv::{PlayerState, PlaylistEntry};
use mutui::settings::Settings;
use mutui::state::{Mode, Next, PlaylistsFocus, RepeatMode, SettingsField, Tab, TagsNext};
use mutui::ui::{Body, Line, ListPane, Overlay, Style};

fn track(id: i64, title: &str) -> Track {
    Track {
        id,
        path: String::new(),
        title: Some(title.to_string()),
        album: Some("Alb".to_string()),
        artist: Some("Art".to_string()),
        album_artist: None,
        track_no: None,
        disc_no: None,
        duration_ms: None,
        year: None,
        added_at: 0,
    }
}

fn client() -> App {
    let settings = Settings { server_url: "http://h".to_string(), auth_token: String::new() };
    let tracks = vec![track(1, "One"), track(2, "Two")];
    App::new(Client::new("http://h".to_string(), None), tracks, settings, 0).0
}

fn spans(line: &Line) -> Vec<(&str, Style)> {
    line.spans.iter().map(|s| (s.text.as_str(), s.style)).collect()
}

fn flat(line: &Line) -> String {
    line.spans.iter().map(|s| s.text.as_str()).collect()
}

fn items(pane: &ListPane) -> Vec<String> {
    pane.items.iter().map(flat).collect()
}

fn playing() -> PlayerState {
    let mut p = PlayerState::new();
    p.current_path = Some("http://h/api/tracks/2/stream".to_string());
    p.time_pos = Some(61);
    p
}

#[test]
fn the_tabs_stand_in_a_row() {
    let screen = client().render(&PlayerState::new(), "cfg");
    assert_eq!(
        spans(&screen.tabs),
        vec![
            (" ", Style::Plain),
            (" 1 Songs ", Style::ReversedBold),
            ("   ", Style::Plain),
            (" 2 Playlists ", Style::Dim),
            ("   ", Style::Plain),
            (" 3 Queue ", Style::Dim),
            ("   ", Style::Plain),
            (" 4 Settings ", Style::Dim),
        ]
    );
}

#[test]
fn the_songs_are_marked_where_they_play() {
    let mut app = client();
    let screen = app.render(&playing(), "cfg");
    let Body::Songs(pane) = screen.body else { panic!() };
    assert_eq!(pane.block.title, " muserv — 2 / 2 ");
    assert_eq!(pane.block.border, Style::Yellow);
    assert_eq!(items(&pane), vec!["  Art  One  [Alb]", "▶ Art  Two  [Alb]"]);
    assert_eq!(pane.state.unwrap().selected, Some(0));
    assert!(pane.highlight);
    let mut paused = playing();
    paused.paused = true;
    let Body::Songs(pane) = app.render(&paused, "cfg").body else { panic!() };
    assert_eq!(items(&pane)[1], "‖ Art  Two  [Alb]");
    assert_eq!(spans(&pane.items[0])[5], ("[Alb]", Style::Dim));
}

#[test]
fn the_footer_says_what_plays() {
    let mut app = client();
    assert_eq!(spans(&app.render(&PlayerState::new(), "").playing), vec![("■ stopped", Style::Bold)]);
    app.repeat = RepeatMode::One;
    app.status_msg = "né".to_string();
    let mut p = playing();
    p.duration = Some(3_700);
    let screen = app.render(&p, "");
    assert_eq!(
        spans(&screen.playing),
        vec![
            ("▶ ", Style::Bold),
            ("Art — Two", Style::Plain),
            ("   1:01 / 1:01:40", Style::Dim),
            ("   ↻¹", Style::Cyan),
        ]
    );
    assert_eq!(spans(&screen.status), vec![("né", Style::Yellow)]);
    assert_eq!(screen.status_width, 2);
    assert!(screen.prompt.is_none());
    app.repeat = RepeatMode::Off;
    let mut p = PlayerState::new();
    p.current_path = Some("http://other/x.mp3".to_string());
    p.paused = true;
    assert_eq!(flat(&app.render(&p, "").playing), "‖ http://other/x.mp3   — / —");
    p.idle_active = true;
    assert_eq!(flat(&app.render(&p, "").playing), "■ stopped");
}

#[test]
fn the_prompt_shows_what_is_typed() {
    let mut app = client();
    for (mode, line) in [
        (Mode::Filter("ab".to_string()), "/ab_"),
        (Mode::TagSearch("x".to_string()), "T tag: x_"),
        (Mode::AddTag("y".to_string()), "+tag y_"),
        (Mode::EditSetting(SettingsField::AuthToken, "z".to_string()), "editing Auth Token: ⏎ commit  Esc cancel"),
        (Mode::NewPlaylist("p".to_string()), "new playlist p_"),
        (Mode::RenamePlaylist(1, "q".to_string()), "rename q_"),
        (Mode::PickPlaylist { index: 0, track_id: 1 }, "pick playlist (j/k, ⏎ confirm, Esc cancel)"),
        (Mode::SortPicker { index: 0 }, "sort songs (j/k, ⏎ confirm, Esc cancel)"),
    ] {
        app.mode = mode;
        assert_eq!(flat(&app.render(&PlayerState::new(), "").prompt.unwrap()), line);
    }
}

#[test]
fn the_queue_shows_tracks_and_addresses() {
    let mut app = client();
    app.tab = Tab::Queue;
    app.queue_state.selected = Some(7);
    let mut p = PlayerState::new();
    p.playlist.push(PlaylistEntry { url: "http://h/api/tracks/1/stream".to_string(), current: true });
    p.playlist.push(PlaylistEntry { url: "file.ogg".to_string(), current: false });
    let Body::Queue(pane) = app.render(&p, "").body else { panic!() };
    assert_eq!(pane.block.title, " Queue (2) ");
    assert_eq!(items(&pane), vec!["▶ Art — One", "  file.ogg"]);
    assert_eq!(pane.items[0].spans[0].style, Style::Bold);
    assert_eq!(app.queue_state.selected, Some(1));
    app.render(&PlayerState::new(), "");
    assert_eq!(app.queue_state.selected, None);
    app.render(&p, "");
    assert_eq!(app.queue_state.selected, Some(0));
}

#[test]
fn the_playlists_stand_in_two_panes() {
    let mut app = client();
    app.tab = Tab::Playlists;
    let Body::Playlists(list, tracks) = app.render(&PlayerState::new(), "").body else { panic!() };
    assert_eq!(list.block.title, " Playlists (0) ");
    assert_eq!(tracks.block.title, " Tracks ");
    let p = Playlist { id: 1, name: "mix".to_string(), description: None, track_count: 12, created_at: 0, updated_at: 0 };
    app.playlists_loaded(Ok(vec![p]), Next::Rest);
    let t = PlaylistTrack {
        track_id: 1,
        position: 0,
        added_at: 0,
        title: None,
        album: None,
        artist: Some("A".to_string()),
        album_artist: None,
        duration_ms: None,
    };
    app.playlist_tracks_loaded(1, Ok(vec![t]), Next::Rest);
    let Body::Playlists(list, tracks) = app.render(&PlayerState::new(), "").body else { panic!() };
    assert_eq!(items(&list), vec!["mix  (12)"]);
    assert_eq!(list.block.border, Style::Yellow);
    assert!(list.highlight && !tracks.highlight);
    assert_eq!(tracks.block.title, " mix (1) ");
    assert_eq!(items(&tracks), vec!["  1. A  (untitled)"]);
    app.playlists_focus = PlaylistsFocus::Tracks;
    let Body::Playlists(list, tracks) = app.render(&PlayerState::new(), "").body else { panic!() };
    assert!(!list.highlight && tracks.highlight);
    assert_eq!(tracks.block.border, Style::Yellow);
}

#[test]
fn the_settings_say_whether_they_are_saved() {
    let mut app = client();
    app.tab = Tab::Settings;
    let Body::Settings(pane) = app.render(&PlayerState::new(), "/etc/m.json").body else { panic!() };
    let lines: Vec<String> = pane.lines.iter().map(flat).collect();
    assert_eq!(lines, vec!["", "> Server URL    http://h", "", "  Auth Token    ", "", "  config: /etc/m.json"]);
    app.settings.auth_token = "t".to_string();
    app.mode = Mode::EditSetting(SettingsField::ServerUrl, "new".to_string());
    let Body::Settings(pane) = app.render(&PlayerState::new(), "").body else { panic!() };
    assert_eq!(flat(&pane.lines[1]), "> Server URL    new_");
    assert_eq!(pane.lines[1].spans[3].style, Style::Yellow);
    assert_eq!(flat(&pane.lines[5]), "  unsaved changes — 's' save, 'r'/Esc revert");
}

#[test]
fn overlays_stand_over_everything() {
    let mut app = client();
    assert!(app.render(&PlayerState::new(), "").overlays.is_empty());
    app.show_help = true;
    app.show_tags = true;
    app.mode = Mode::SortPicker { index: 1 };
    let tag = TrackTag { tag_id: 1, namespace: String::new(), value: "v".to_string(), source: "user".to_string() };
    app.track_tags_loaded(1, Ok(vec![tag]), TagsNext::Rest);
    app.tags_state.selected = None;
    let overlays = app.render(&PlayerState::new(), "").overlays;
    assert_eq!(app.tags_state.selected, Some(0));
    assert_eq!(overlays.iter().map(|o| o.size()).collect::<Vec<_>>(), vec![(60, 70), (70, 80), (50, 50)]);
    let Overlay::Tags(tags) = &overlays[0] else { panic!() };
    assert_eq!(tags.block.title, " Tags — Art — One (1) ");
    assert_eq!(spans(&tags.items[0]), vec![(":v *", Style::Green)]);
    let Overlay::SortPicker(sort) = &overlays[2] else { panic!() };
    assert_eq!(items(sort)[0], "  Default (artist / album / track) *");
    assert_eq!(items(sort)[1], "> Title (A→Z)");
    assert_eq!(sort.items[0].spans[0].style, Style::Green);
    assert_eq!(sort.items[1].spans[0].style, Style::ReversedBold);
    app.tab = Tab::Queue;
    app.mode = Mode::PickPlaylist { index: 0, track_id: 1 };
    let p = Playlist { id: 1, name: "mix".to_string(), description: None, track_count: 3, created_at: 0, updated_at: 0 };
    app.playlists_loaded(Ok(vec![p]), Next::Rest);
    let overlays = app.render(&PlayerState::new(), "").overlays;
    assert_eq!(overlays.len(), 2);
    let Overlay::PickPlaylist(pick) = &overlays[1] else { panic!() };
    assert_eq!(items(pick), vec!["> mix  (3)"]);
    assert_eq!(overlays[1].size(), (60, 60));
}

#[test]
fn the_help_is_about_what_is_in_sight() {
    let mut app = client();
    app.show_help = true;
    let mut heads = Vec::new();
    for (tab, tags, focus, lines) in [
        (Tab::Songs, false, PlaylistsFocus::List, 22),
        (Tab::Songs, true, PlaylistsFocus::List, 16),
        (Tab::Playlists, false, PlaylistsFocus::List, 18),
        (Tab::Playlists, false, PlaylistsFocus::Tracks, 17),
        (Tab::Queue, false, PlaylistsFocus::List, 16),
        (Tab::Settings, false, PlaylistsFocus::List, 15),
    ] {
        app.tab = tab;
        app.show_tags = tags;
        app.playlists_focus = focus;
        let overlays = app.render(&PlayerState::new(), "").overlays;
        let Some(Overlay::Help(help)) = overlays.into_iter().last() else { panic!() };
        assert_eq!(help.lines.len(), lines);
        assert_eq!(flat(&help.lines[1]), "  q / Ctrl+C      quit");
        assert_eq!(flat(&help.lines[9]), "");
        heads.push(flat(&help.lines[10]));
    }
    assert_eq!(heads, vec!["Songs", "Songs — tags popup", "Playlists", "Playlist tracks", "Queue", "Settings"]);
}
