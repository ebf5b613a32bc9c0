//! What the screen shows of the state, on its fields.

use crate::api::{PlaylistView, TrackView};
use crate::laws;
use crate::laws::sorting;
use crate::lists;
use crate::lists::ListState;
use crate::model::AppView;
use crate::mpv::PlayerStateView;
use crate::order::SortKey;
use crate::parse;
use crate::state::{ModeView, PlaylistsFocus, RepeatMode, SettingsField, Tab};
use crate::text;
use crate::ui;
use crate::ui::{BodyView, OverlayView, Pane, SpanView, Style};
use vstd::prelude::*;

verus! {

/// Whether a line has a text at a place that looks in some way.
pub open spec fn has(line: Seq<SpanView>, k: int, words: Seq<char>, style: Style) -> bool {
    0 <= k < line.len() && line[k].text == words && line[k].style == style
}

/// Whether a line is one text that looks in some way.
pub open spec fn is_text(line: Seq<SpanView>, words: Seq<char>, style: Style) -> bool {
    line.len() == 1 && has(line, 0, words, style)
}

// ---------------------------------------------------------------------------
// Songs and tags
// ---------------------------------------------------------------------------

/// The sign before a track: a bar where it is paused, an arrow where it plays, else blanks.
pub open spec fn sign(plays: bool, paused: bool) -> Seq<char> {
    match (plays, paused) {
        (true, true) => "‖ "@,
        (true, false) => "▶ "@,
        (false, _) => "  "@,
    }
}

/// Each line of the list of songs shows the track at its place: whether it plays, the artist,
/// the title and the album. The title tells how many tracks are shown, and how many there are.
pub proof fn lines_show_their_songs(app: AppView, player: PlayerStateView, k: int)
    requires
        0 <= k < app.filtered.len(),
    ensures
        ({
            let pane = ui::songs_pane(app, player);
            let t = app.tracks[app.filtered[k] as int];
            let plays = player.current_path matches Some(url) && parse::id_in_url(url) == Some(
                t.id as int,
            );
            let line = pane.items[k];
            &&& pane.items.len() == app.filtered.len()
            &&& pane.state == Some(app.list_state)
            &&& pane.block.title == " muserv — "@ + text::decimal(app.filtered.len()) + " / "@
                + text::decimal(app.tracks.len()) + " "@
            &&& line.len() == 6
            &&& has(line, 0, sign(plays, player.paused), Style::Plain)
            &&& has(line, 1, sorting::artist_of(t), Style::Bold)
            &&& has(line, 2, "  "@, Style::Plain)
            &&& has(line, 3, sorting::title_of(t), Style::Plain)
            &&& has(line, 4, "  "@, Style::Plain)
            &&& has(line, 5, "["@ + sorting::album_of(t) + "]"@, Style::Dim)
        }),
{
}

/// Each line of the tags shows the tag at its place, with a star where a user put it there.
/// The title names the selected track, and tells how many tags there are.
pub proof fn lines_show_their_tags(app: AppView, k: int, i: usize)
    requires
        0 <= k < app.current_tags.len(),
    ensures
        ({
            let pane = ui::tags_pane(app);
            let t = app.current_tags[k];
            let count = " ("@ + text::decimal(app.current_tags.len()) + ") "@;
            &&& pane.items.len() == app.current_tags.len()
            &&& pane.state == Some(app.tags_state)
            &&& t.source == "user"@ ==> is_text(
                pane.items[k],
                t.namespace + ":"@ + t.value + " *"@,
                Style::Green,
            )
            &&& t.source != "user"@ ==> is_text(
                pane.items[k],
                t.namespace + ":"@ + t.value,
                Style::Dim,
            )
            &&& app.list_state.selected == Some(i) && i < app.filtered.len()
                && app.filtered[i as int] < app.tracks.len() ==> {
                let track = app.tracks[app.filtered[i as int] as int];
                pane.block.title =~= " Tags — "@ + sorting::artist_of(track) + " — "@
                    + sorting::title_of(track) + count
            }
            &&& app.list_state.selected is None ==> pane.block.title =~= " Tags — "@ + "no track"@
                + count
        }),
{
    reveal_strlit("");
    let t = app.current_tags[k];
    assert(t.display() + ""@ =~= t.display());
}

// ---------------------------------------------------------------------------
// Queue
// ---------------------------------------------------------------------------

/// What an address is shown as: the first track with the number in it, by artist and title,
/// else the address itself.
pub proof fn addresses_are_shown_as_tracks(tracks: Seq<TrackView>, url: Seq<char>, i: int)
    requires
        tracks.len() <= usize::MAX,
    ensures
        parse::id_in_url(url) is None ==> ui::url_label(tracks, url) == url,
        parse::id_in_url(url) matches Some(id) ==> {
            &&& (forall|j: int| 0 <= j < tracks.len() ==> (#[trigger] tracks[j]).id != id)
                ==> ui::url_label(tracks, url) == url
            &&& 0 <= i < tracks.len() && tracks[i].id == id && (forall|j: int|
                0 <= j < i ==> (#[trigger] tracks[j]).id != id) ==> ui::url_label(tracks, url)
                == sorting::artist_of(tracks[i]) + " — "@ + sorting::title_of(tracks[i])
        },
{
    if let Some(id) = parse::id_in_url(url) {
        lemma_id_fits(url);
        let ids = ui::numbers(tracks);
        laws::lemma_place_from(ids, id as i64, 0);
        let p: int = lists::place_from(ids, id as i64, 0);
        assert forall|j: int| 0 <= j < tracks.len() implies ids[j] == (
        #[trigger] tracks[j]).id by {}
        if p < ids.len() {
            assert(ids[p] == tracks[p].id);
        }
        if 0 <= i < tracks.len() {
            assert(ids[i] == tracks[i].id);
        }
    }
}

proof fn lemma_id_fits(url: Seq<char>)
    ensures
        parse::id_in_url(url) matches Some(id) ==> i64::MIN <= id <= i64::MAX,
{
    lemma_id_after_fits(text::segments(url, '/'));
}

proof fn lemma_id_after_fits(parts: Seq<Seq<char>>)
    ensures
        parse::id_after_tracks(parts) matches Some(id) ==> i64::MIN <= id <= i64::MAX,
    decreases parts.len(),
{
    if parts.len() > 0 {
        lemma_id_after_fits(parts.skip(1));
    }
}

/// Each line of the queue shows the entry at its place: whether it plays, and what its address
/// is shown as. The title tells how many entries there are.
pub proof fn lines_show_their_entries(app: AppView, player: PlayerStateView, k: int)
    requires
        0 <= k < player.playlist.len(),
    ensures
        ({
            let pane = ui::queue_pane(app, player);
            let e = player.playlist[k];
            &&& pane.items.len() == player.playlist.len()
            &&& pane.state == Some(app.queue_state)
            &&& pane.block.title == " Queue ("@ + text::decimal(player.playlist.len()) + ") "@
            &&& is_text(
                pane.items[k],
                sign(e.current, player.paused) + ui::url_label(app.tracks, e.url),
                if e.current {
                    Style::Bold
                } else {
                    Style::Plain
                },
            )
        }),
{
}

// ---------------------------------------------------------------------------
// Playlists
// ---------------------------------------------------------------------------

/// Each line of the playlists shows the name of the one at its place and how many tracks it
/// has, and each line of the tracks the position, counted from one, the artist and the title.
/// The pane that takes the keys stands out.
pub proof fn lines_show_their_playlists(app: AppView, k: int, i: int)
    ensures
        ({
            let pane = ui::playlists_pane(app);
            let lists_keys = app.playlists_focus == PlaylistsFocus::List;
            &&& pane.items.len() == app.playlists.len()
            &&& pane.state == Some(app.playlists_state)
            &&& pane.block.title == " Playlists ("@ + text::decimal(app.playlists.len()) + ") "@
            &&& pane.highlight == lists_keys
            &&& lists_keys ==> pane.block.border == Style::Yellow
            &&& !lists_keys ==> pane.block.border == Style::Plain
            &&& 0 <= k < app.playlists.len() ==> {
                let p = app.playlists[k];
                &&& pane.items[k].len() == 2
                &&& has(pane.items[k], 0, p.name, Style::Bold)
                &&& has(
                    pane.items[k],
                    1,
                    "  ("@ + text::decimal_int(p.track_count as int) + ")"@,
                    Style::Dim,
                )
            }
        }),
        ({
            let pane = ui::playlist_tracks_pane(app);
            let takes_keys = app.playlists_focus == PlaylistsFocus::Tracks;
            &&& pane.items.len() == app.playlist_tracks.len()
            &&& pane.state == Some(app.playlist_tracks_state)
            &&& pane.highlight == takes_keys
            &&& takes_keys ==> pane.block.border == Style::Yellow
            &&& !takes_keys ==> pane.block.border == Style::Plain
            &&& 0 <= i < app.playlist_tracks.len() ==> {
                let t = app.playlist_tracks[i];
                &&& pane.items[i].len() == 4
                &&& has(
                    pane.items[i],
                    0,
                    text::right_aligned(text::decimal_int(t.position + 1), 3) + ". "@,
                    Style::Dim,
                )
                &&& has(pane.items[i], 1, t.display_artist(), Style::Bold)
                &&& has(pane.items[i], 2, "  "@, Style::Plain)
                &&& has(pane.items[i], 3, t.display_title(), Style::Plain)
            }
        }),
{
}

/// The tracks of a playlist stand under the name of the selected one and their number; under
/// a name that says nothing where none is selected, or it has no name.
pub proof fn tracks_stand_under_their_playlist(app: AppView, p: usize)
    ensures
        app.playlists_state.selected == Some(p) && p < app.playlists.len()
            && app.playlists[p as int].name.len() > 0 ==> ui::playlist_tracks_pane(app).block.title
            == " "@ + app.playlists[p as int].name + " ("@ + text::decimal(
            app.playlist_tracks.len(),
        ) + ") "@,
        app.playlists_state.selected is None || (app.playlists_state.selected == Some(p) && (p
            >= app.playlists.len() || app.playlists[p as int].name.len() == 0))
            ==> ui::playlist_tracks_pane(app).block.title == " Tracks "@,
{
}

/// In a picker the selected line stands out, and has a cursor. The picker of playlists shows
/// their names and how many tracks they have, and that of sort keys what they are called,
/// with a star at the one in use.
pub proof fn lines_show_what_is_picked(
    playlists: Seq<PlaylistView>,
    sort_key: SortKey,
    index: usize,
    k: int,
)
    ensures
        ({
            let pane = ui::pick_pane(playlists, index);
            &&& pane.items.len() == playlists.len()
            &&& pane.block.title == " add to playlist  (j/k, ⏎ confirm, Esc cancel) "@
            &&& 0 <= k < playlists.len() ==> is_text(
                pane.items[k],
                (if k == index {
                    "> "@
                } else {
                    "  "@
                }) + playlists[k].name + "  ("@ + text::decimal_int(playlists[k].track_count as int)
                    + ")"@,
                if k == index {
                    Style::ReversedBold
                } else {
                    Style::Plain
                },
            )
        }),
        ({
            let pane = ui::sort_pane(sort_key, index);
            let (key, name) = match k as u8 {
                0 => (SortKey::Default, "Default (artist / album / track)"@),
                1 => (SortKey::Title, "Title (A→Z)"@),
                2 => (SortKey::Artist, "Artist (A→Z)"@),
                3 => (SortKey::Album, "Album (A→Z)"@),
                4 => (SortKey::Duration, "Duration (shortest first)"@),
                5 => (SortKey::Year, "Year (newest first)"@),
                _ => (SortKey::AddedAt, "Date added (newest first)"@),
            };
            &&& pane.items.len() == 7
            &&& pane.block.title == " Sort by  (j/k, ⏎ confirm, Esc cancel) "@
            &&& 0 <= k < 7 ==> is_text(
                pane.items[k],
                (if k == index {
                    "> "@
                } else {
                    "  "@
                }) + name + (if key == sort_key {
                    " *"@
                } else {
                    ""@
                }),
                if k == index {
                    Style::ReversedBold
                } else if key == sort_key {
                    Style::Green
                } else {
                    Style::Plain
                },
            )
        }),
{
    sorting::the_sort_keys_have_their_places();
}

// ---------------------------------------------------------------------------
// Settings
// ---------------------------------------------------------------------------

/// The line of a setting: a cursor where it is selected, its name, and what it is, or what is
/// being typed for it.
pub open spec fn is_setting(
    line: Seq<SpanView>,
    app: AppView,
    field: SettingsField,
    name: Seq<char>,
    value: Seq<char>,
) -> bool {
    let selected = app.settings_field == field;
    &&& line.len() == 4
    &&& selected ==> has(line, 0, "> "@, Style::Plain) && has(
        line,
        1,
        text::left_aligned(name, 12),
        Style::Bold,
    )
    &&& !selected ==> has(line, 0, "  "@, Style::Plain) && has(
        line,
        1,
        text::left_aligned(name, 12),
        Style::Plain,
    )
    &&& has(line, 2, "  "@, Style::Plain)
    &&& match app.mode {
        ModeView::EditSetting(f, buf) if f == field => has(line, 3, buf + "_"@, Style::Yellow),
        _ => has(
            line,
            3,
            value,
            if selected {
                Style::Plain
            } else {
                Style::Dim
            },
        ),
    }
}

/// The settings show the server and the token, and whether they are saved, or where.
pub proof fn the_settings_are_shown(app: AppView, config: Seq<char>)
    ensures
        ({
            let pane = ui::settings_pane(app, config);
            &&& pane.block.title == " Settings "@
            &&& pane.lines.len() == 6
            &&& is_setting(
                pane.lines[1],
                app,
                SettingsField::ServerUrl,
                "Server URL"@,
                app.settings.server_url,
            )
            &&& is_setting(
                pane.lines[3],
                app,
                SettingsField::AuthToken,
                "Auth Token"@,
                app.settings.auth_token,
            )
            &&& pane.lines[0].len() == 0 && pane.lines[2].len() == 0 && pane.lines[4].len() == 0
            &&& app.settings == app.saved_settings ==> is_text(
                pane.lines[5],
                "  config: "@ + config,
                Style::Dim,
            )
            &&& app.settings != app.saved_settings ==> is_text(
                pane.lines[5],
                "  unsaved changes — 's' save, 'r'/Esc revert"@,
                Style::Yellow,
            )
        }),
{
}

// ---------------------------------------------------------------------------
// Footer
// ---------------------------------------------------------------------------

/// A time that may not be known.
pub open spec fn shown_time(t: Option<u64>) -> Seq<char> {
    match t {
        Some(s) => parse::time_text(s as nat),
        None => "—"@,
    }
}

/// The footer tells what plays: whether it is paused, what it is, how far it is and how long,
/// and what is repeated; or that nothing does.
pub proof fn the_footer_tells_what_plays(app: AppView, player: PlayerStateView)
    ensures
        player.current_path is None || player.idle_active ==> is_text(
            ui::playing_line(app, player),
            "■ stopped"@,
            Style::Bold,
        ),
        !player.idle_active ==> (player.current_path matches Some(url) ==> {
            let line = ui::playing_line(app, player);
            &&& player.paused ==> has(line, 0, "‖"@ + " "@, Style::Bold)
            &&& !player.paused ==> has(line, 0, "▶"@ + " "@, Style::Bold)
            &&& has(line, 1, ui::url_label(app.tracks, url), Style::Plain)
            &&& has(
                line,
                2,
                "   "@ + shown_time(player.time_pos) + " / "@ + shown_time(player.duration),
                Style::Dim,
            )
            &&& app.repeat == RepeatMode::Off ==> line.len() == 3
            &&& app.repeat == RepeatMode::All ==> line.len() == 4 && has(
                line,
                3,
                "   "@ + "↻"@,
                Style::Cyan,
            )
            &&& app.repeat == RepeatMode::One ==> line.len() == 4 && has(
                line,
                3,
                "   "@ + "↻¹"@,
                Style::Cyan,
            )
        }),
{
    reveal_strlit("");
    reveal_strlit("↻");
    reveal_strlit("↻¹");
}

/// A time is told in minutes and seconds, and in hours too from one hour on; behind the first
/// number every number has two digits.
pub proof fn times_are_told_in_minutes_and_seconds(hours: nat, minutes: nat, seconds: nat)
    requires
        minutes < 60,
        seconds < 60,
    ensures
        ({
            let two = |n: nat| seq![('0' as int + n / 10) as char, ('0' as int + n % 10) as char];
            &&& parse::time_text(60 * minutes + seconds) =~= text::decimal(minutes) + ":"@ + two(
                seconds,
            )
            &&& hours > 0 ==> parse::time_text(3600 * hours + 60 * minutes + seconds)
                =~= text::decimal(hours) + ":"@ + two(minutes) + ":"@ + two(seconds)
        }),
{
    lemma_two_digits(minutes);
    lemma_two_digits(seconds);
    let all = 3600 * hours + 60 * minutes + seconds;
    assert(all / 60 == 60 * hours + minutes);
    assert(all % 60 == seconds);
    assert((60 * hours + minutes) / 60 == hours);
    assert((60 * hours + minutes) % 60 == minutes);
    assert((60 * minutes + seconds) / 60 == minutes);
    assert((60 * minutes + seconds) % 60 == seconds);
}

proof fn lemma_two_digits(n: nat)
    requires
        n < 60,
    ensures
        parse::two_digits(n) == seq![('0' as int + n / 10) as char, ('0' as int + n % 10) as char],
{
    reveal_strlit("0");
    reveal_with_fuel(text::decimal, 3);
    assert("0"@ =~= seq!['0']);
    assert(parse::two_digits(n) =~= seq![
        ('0' as int + n / 10) as char,
        ('0' as int + n % 10) as char,
    ]);
}

/// What is typed is shown behind what it is for, with a cursor at its end.
pub proof fn what_is_typed_is_shown(buf: Seq<char>, id: i64, index: usize)
    ensures
        ({
            let line = ui::prompt_line(ModeView::Filter(buf));
            line.len() == 3 && has(line, 0, "/"@, Style::Bold) && has(line, 1, buf, Style::Plain)
                && has(line, 2, "_"@, Style::Plain)
        }),
        ({
            let line = ui::prompt_line(ModeView::TagSearch(buf));
            line.len() == 4 && has(line, 0, "T"@, Style::CyanBold) && has(
                line,
                1,
                " tag: "@,
                Style::Plain,
            ) && has(line, 2, buf, Style::Plain) && has(line, 3, "_"@, Style::Plain)
        }),
        ({
            let line = ui::prompt_line(ModeView::AddTag(buf));
            line.len() == 3 && has(line, 0, "+tag "@, Style::Green) && has(
                line,
                1,
                buf,
                Style::Plain,
            ) && has(line, 2, "_"@, Style::Plain)
        }),
        ({
            let line = ui::prompt_line(ModeView::NewPlaylist(buf));
            line.len() == 3 && has(line, 0, "new playlist "@, Style::Green) && has(
                line,
                1,
                buf,
                Style::Plain,
            ) && has(line, 2, "_"@, Style::Plain)
        }),
        ({
            let line = ui::prompt_line(ModeView::RenamePlaylist(id, buf));
            line.len() == 3 && has(line, 0, "rename "@, Style::Yellow) && has(
                line,
                1,
                buf,
                Style::Plain,
            ) && has(line, 2, "_"@, Style::Plain)
        }),
        ({
            let line = ui::prompt_line(ModeView::EditSetting(SettingsField::ServerUrl, buf));
            line.len() == 2 && has(
                line,
                0,
                "editing "@ + "Server URL"@ + ": "@,
                Style::Yellow,
            ) && has(line, 1, "⏎ commit  Esc cancel"@, Style::Dim)
        }),
        ({
            let line = ui::prompt_line(ModeView::EditSetting(SettingsField::AuthToken, buf));
            line.len() == 2 && has(
                line,
                0,
                "editing "@ + "Auth Token"@ + ": "@,
                Style::Yellow,
            ) && has(line, 1, "⏎ commit  Esc cancel"@, Style::Dim)
        }),
        is_text(
            ui::prompt_line(ModeView::PickPlaylist { index, track_id: id }),
            "pick playlist (j/k, ⏎ confirm, Esc cancel)"@,
            Style::Cyan,
        ),
        is_text(
            ui::prompt_line(ModeView::SortPicker { index }),
            "sort songs (j/k, ⏎ confirm, Esc cancel)"@,
            Style::Cyan,
        ),
{
}

// ---------------------------------------------------------------------------
// The screen
// ---------------------------------------------------------------------------

/// The line of tabs shows the four of them with their numbers; the one in sight stands out.
pub proof fn the_tabs_are_shown(app: AppView, player: PlayerStateView, config: Seq<char>)
    ensures
        ({
            let line = ui::screen(app, player, config).tabs;
            let tab = |k: int, number: nat, name: Seq<char>, tab: Tab|
                has(
                    line,
                    k,
                    " "@ + text::decimal(number) + " "@ + name + " "@,
                    if app.tab == tab {
                        Style::ReversedBold
                    } else {
                        Style::Dim
                    },
                );
            &&& line.len() == 8
            &&& has(line, 0, " "@, Style::Plain)
            &&& tab(1, 1, "Songs"@, Tab::Songs)
            &&& has(line, 2, "   "@, Style::Plain)
            &&& tab(3, 2, "Playlists"@, Tab::Playlists)
            &&& has(line, 4, "   "@, Style::Plain)
            &&& tab(5, 3, "Queue"@, Tab::Queue)
            &&& has(line, 6, "   "@, Style::Plain)
            &&& tab(7, 4, "Settings"@, Tab::Settings)
        }),
{
    reveal_with_fuel(ui::tabs_line, 5);
}

/// The screen shows what the tab in sight is about, what plays, what was said last, and what
/// is typed where something is.
pub proof fn the_screen_shows_the_tab_in_sight(
    app: AppView,
    player: PlayerStateView,
    config: Seq<char>,
)
    ensures
        ({
            let screen = ui::screen(app, player, config);
            &&& app.tab == Tab::Songs ==> screen.body == BodyView::Songs(
                ui::songs_pane(app, player),
            )
            &&& app.tab == Tab::Playlists ==> screen.body == BodyView::Playlists(
                ui::playlists_pane(app),
                ui::playlist_tracks_pane(app),
            )
            &&& app.tab == Tab::Queue ==> screen.body == BodyView::Queue(
                ui::queue_pane(app, player),
            )
            &&& app.tab == Tab::Settings ==> screen.body == BodyView::Settings(
                ui::settings_pane(app, config),
            )
            &&& screen.playing == ui::playing_line(app, player)
            &&& is_text(screen.status, app.status_msg, Style::Yellow)
            &&& app.mode == ModeView::Normal ==> screen.prompt is None
            &&& app.mode != ModeView::Normal ==> screen.prompt == Some(ui::prompt_line(app.mode))
        }),
{
}

/// The tags stand over the songs where they are in sight, the help over all that where it is,
/// and what is picked over everything else.
pub proof fn what_is_in_sight_stands_over_the_screen(
    app: AppView,
    player: PlayerStateView,
    config: Seq<char>,
    index: usize,
    id: i64,
)
    ensures
        ({
            let over = ui::screen(app, player, config).overlays;
            let tags: int = if app.tab == Tab::Songs && app.show_tags {
                1
            } else {
                0
            };
            let help: int = if app.show_help {
                1
            } else {
                0
            };
            let picker: int = if app.mode is PickPlaylist || app.mode is SortPicker {
                1
            } else {
                0
            };
            &&& over.len() == tags + help + picker
            &&& tags == 1 ==> over[0] == OverlayView::Tags(ui::tags_pane(app))
            &&& help == 1 ==> over[tags] == OverlayView::Help(
                ui::help(app.tab, app.show_tags, app.playlists_focus),
            )
            &&& app.mode == (ModeView::PickPlaylist { index, track_id: id }) ==> over.last()
                == OverlayView::PickPlaylist(ui::pick_pane(app.playlists, index))
            &&& app.mode == (ModeView::SortPicker { index }) ==> over.last()
                == OverlayView::SortPicker(ui::sort_pane(app.sort_key, index))
        }),
{
}

/// Before the screen is drawn the selections of the queue and of the tags are brought into
/// their lists, where these are in sight: to the last entry from behind it, and to the first
/// where nothing is selected.
pub proof fn selections_are_brought_into_their_lists(app: AppView, player: PlayerStateView)
    ensures
        ({
            let after = ui::before_drawing(app, player);
            let n = player.playlist.len();
            &&& after == (AppView {
                queue_state: after.queue_state,
                tags_state: after.tags_state,
                ..app
            })
            &&& app.tab != Tab::Queue ==> after.queue_state == app.queue_state
            &&& app.tab == Tab::Queue ==> {
                &&& n == 0 ==> after.queue_state == (ListState { offset: 0, selected: None })
                &&& n > 0 ==> after.queue_state == (ListState {
                    selected: match app.queue_state.selected {
                        None => Some(0),
                        Some(i) => if i < n {
                            Some(i)
                        } else {
                            Some((n - 1) as usize)
                        },
                    },
                    ..app.queue_state
                })
            }
            &&& app.tab == Tab::Songs && app.show_tags && app.tags_state.selected is None
                && app.current_tags.len() > 0 ==> after.tags_state == (ListState {
                selected: Some(0),
                ..app.tags_state
            })
            &&& !(app.tab == Tab::Songs && app.show_tags && app.tags_state.selected is None
                && app.current_tags.len() > 0) ==> after.tags_state == app.tags_state
        }),
{
}

/// Drawing a list keeps how far it is scrolled and what is selected, and changes no other
/// list. A selection behind the end of a list goes to its last item, and songs never lose
/// theirs.
pub proof fn a_drawn_list_stays_scrolled(app: AppView, state: ListState)
    ensures
        ({
            let inside = |len: nat|
                match state.selected {
                    Some(i) => if i < len {
                        Some(i)
                    } else if len > 0 {
                        Some((len - 1) as usize)
                    } else {
                        None::<usize>
                    },
                    None => None::<usize>,
                };
            let songs = if app.filtered.len() > 0 && state.selected is None {
                Some(0usize)
            } else {
                inside(app.filtered.len())
            };
            &&& ui::after_drawing(app, Pane::Songs, state) == (AppView {
                list_state: ListState { offset: state.offset, selected: songs },
                ..app
            })
            &&& ui::after_drawing(app, Pane::Playlists, state) == (AppView {
                playlists_state: ListState {
                    offset: state.offset,
                    selected: inside(app.playlists.len()),
                },
                ..app
            })
            &&& ui::after_drawing(app, Pane::PlaylistTracks, state) == (AppView {
                playlist_tracks_state: ListState {
                    offset: state.offset,
                    selected: inside(app.playlist_tracks.len()),
                },
                ..app
            })
            &&& ui::after_drawing(app, Pane::Queue, state) == (AppView {
                queue_state: state,
                ..app
            })
            &&& ui::after_drawing(app, Pane::Tags, state) == (AppView { tags_state: state, ..app })
        }),
{
}

// ---------------------------------------------------------------------------
// Help
// ---------------------------------------------------------------------------

/// Whether a line of the help tells what a key does.
pub open spec fn tells(lines: Seq<Seq<SpanView>>, k: int, key: Seq<char>, does: Seq<char>) -> bool {
    &&& 0 <= k < lines.len()
    &&& lines[k].len() == 3
    &&& has(lines[k], 0, "  "@, Style::Plain)
    &&& has(lines[k], 1, text::left_aligned(key, 16), Style::Green)
    &&& has(lines[k], 2, does, Style::Plain)
}

/// The help begins with the keys that act on every tab.
pub proof fn the_help_tells_the_keys_of_every_tab(
    tab: Tab,
    show_tags: bool,
    focus: PlaylistsFocus,
)
    ensures
        ({
            let lines = ui::help(tab, show_tags, focus).lines;
            &&& ui::help(tab, show_tags, focus).block.title == " Help (? to close) "@
            &&& is_text(lines[0], "Global"@, Style::YellowBold)
            &&& tells(lines, 1, "q / Ctrl+C"@, "quit"@)
            &&& tells(lines, 2, "space"@, "play / pause"@)
            &&& tells(lines, 3, "n / p"@, "next / previous"@)
            &&& tells(lines, 4, "S"@, "shuffle queue"@)
            &&& tells(lines, 5, "R"@, "cycle repeat (off/all/one)"@)
            &&& tells(lines, 6, "F"@, "rescan library"@)
            &&& tells(lines, 7, "?"@, "toggle this help"@)
            &&& tells(lines, 8, "1-4"@, "switch tabs"@)
            &&& lines[9].len() == 0
        }),
{
}

/// What the help tells of the songs, and of the tags over them.
pub proof fn the_help_tells_the_keys_of_the_songs(focus: PlaylistsFocus)
    ensures
        ({
            let lines = ui::help(Tab::Songs, false, focus).lines;
            &&& lines.len() == 22
            &&& is_text(lines[10], "Songs"@, Style::YellowBold)
            &&& tells(lines, 11, "j/k, PgUp/Dn"@, "move selection"@)
            &&& tells(lines, 12, "g / G"@, "top / bottom"@)
            &&& tells(lines, 13, "⏎"@, "play selected"@)
            &&& tells(lines, 14, "a"@, "queue selected"@)
            &&& tells(lines, 15, "E"@, "queue all (filtered)"@)
            &&& tells(lines, 16, "A"@, "add to playlist"@)
            &&& tells(lines, 17, "t"@, "show tags for selected"@)
            &&& tells(lines, 18, "/"@, "filter"@)
            &&& tells(lines, 19, "T"@, "tag search"@)
            &&& tells(lines, 20, "s"@, "sort by…"@)
            &&& tells(lines, 21, "Esc"@, "clear filter"@)
        }),
        ({
            let lines = ui::help(Tab::Songs, true, focus).lines;
            &&& lines.len() == 16
            &&& is_text(lines[10], "Songs — tags popup"@, Style::YellowBold)
            &&& tells(lines, 11, "j/k"@, "navigate tags"@)
            &&& tells(lines, 12, "g / G"@, "top / bottom"@)
            &&& tells(lines, 13, "a"@, "add tag"@)
            &&& tells(lines, 14, "d"@, "remove user tag"@)
            &&& tells(lines, 15, "t / Esc"@, "close tags popup"@)
        }),
{
}

/// What the help tells of the playlists, and of their tracks.
pub proof fn the_help_tells_the_keys_of_the_playlists(show_tags: bool)
    ensures
        ({
            let lines = ui::help(Tab::Playlists, show_tags, PlaylistsFocus::List).lines;
            &&& lines.len() == 18
            &&& is_text(lines[10], "Playlists"@, Style::YellowBold)
            &&& tells(lines, 11, "j/k"@, "navigate"@)
            &&& tells(lines, 12, "⏎"@, "open playlist"@)
            &&& tells(lines, 13, "P"@, "play playlist"@)
            &&& tells(lines, 14, "N"@, "new playlist"@)
            &&& tells(lines, 15, "r"@, "rename"@)
            &&& tells(lines, 16, "D"@, "delete"@)
            &&& tells(lines, 17, "⇥"@, "tracks pane"@)
        }),
        ({
            let lines = ui::help(Tab::Playlists, show_tags, PlaylistsFocus::Tracks).lines;
            &&& lines.len() == 17
            &&& is_text(lines[10], "Playlist tracks"@, Style::YellowBold)
            &&& tells(lines, 11, "j/k"@, "navigate"@)
            &&& tells(lines, 12, "J / K"@, "reorder down / up"@)
            &&& tells(lines, 13, "⏎"@, "play from here"@)
            &&& tells(lines, 14, "a"@, "queue track"@)
            &&& tells(lines, 15, "d"@, "remove from playlist"@)
            &&& tells(lines, 16, "⇥ / Esc"@, "back to playlists"@)
        }),
{
}

/// What the help tells of the queue, and of the settings.
pub proof fn the_help_tells_the_keys_of_queue_and_settings(show_tags: bool, focus: PlaylistsFocus)
    ensures
        ({
            let lines = ui::help(Tab::Queue, show_tags, focus).lines;
            &&& lines.len() == 16
            &&& is_text(lines[10], "Queue"@, Style::YellowBold)
            &&& tells(lines, 11, "j/k"@, "navigate"@)
            &&& tells(lines, 12, "g / G"@, "top / bottom"@)
            &&& tells(lines, 13, "J / K"@, "reorder down / up"@)
            &&& tells(lines, 14, "⏎"@, "jump to track"@)
            &&& tells(lines, 15, "d"@, "remove from queue"@)
        }),
        ({
            let lines = ui::help(Tab::Settings, show_tags, focus).lines;
            &&& lines.len() == 15
            &&& is_text(lines[10], "Settings"@, Style::YellowBold)
            &&& tells(lines, 11, "j/k"@, "navigate fields"@)
            &&& tells(lines, 12, "⏎ / e"@, "edit field"@)
            &&& tells(lines, 13, "s"@, "save changes"@)
            &&& tells(lines, 14, "r / Esc"@, "revert"@)
        }),
{
}

} // verus!
