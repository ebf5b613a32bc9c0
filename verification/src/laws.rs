//! What holds of the client as a whole.

use crate::api::{
    ClientView, PlaylistTrackView, PlaylistView, ScanStateView, TrackTagView, TrackView,
};
use crate::keys::{Key, KeyCode};
use crate::lists;
use crate::model;
use crate::model::AppView;
use crate::mpv::{PlayerCommandView, PlayerStateView, ReportView};
use crate::order::SortKey;
use crate::shuffle;
use crate::sort;
use crate::state;
use crate::state::{CallView, EffectView, ModeView, Next, SettingsField, Tab, TagsNext};
use crate::text;
use crate::ui;
use vstd::prelude::*;

pub mod keys;
pub mod player;
pub mod playlists;
pub mod screen;
pub mod server;
pub mod songs;
pub mod sorting;
pub mod tags;
pub mod texts;

verus! {

// ---------------------------------------------------------------------------
// Calls come to an end
// ---------------------------------------------------------------------------

/// How many calls may follow what comes after a fetch.
pub open spec fn calls_after(next: Next) -> nat {
    match next {
        Next::Rest => 0,
        Next::SelectPlaylist(_) => 1,
        Next::ReloadPlaylists => 2,
    }
}

/// How many calls of the world may still be made, with this one.
pub open spec fn calls_left(effect: EffectView) -> nat {
    match effect {
        EffectView::Idle | EffectView::Player(_) | EffectView::Shuffle => 0,
        EffectView::Reconnect(_) => 1,
        EffectView::SaveSettings => 2,
        EffectView::Call(call) => match call {
            CallView::Search(_) | CallView::TrackTags(..) | CallView::TriggerScan
            | CallView::Tracks(_) => 1,
            CallView::PlaylistTracks(_, next) => 1 + calls_after(next),
            CallView::Playlists(next) => 2 + calls_after(next),
            CallView::SetPlaylistTracks(..) | CallView::AddUserTag { .. }
            | CallView::RemoveUserTag { .. } | CallView::ScanStatus => 2,
            CallView::RenamePlaylist(..) | CallView::DeletePlaylist(..) => 3,
            CallView::CreatePlaylist(_) | CallView::AddToPlaylist { .. }
            | CallView::RemoveFromPlaylist { .. } => 4,
        },
    }
}

/// Whatever the server answers, fewer calls are left than before.
pub proof fn answers_come_to_an_end(
    app: AppView,
    next: Next,
    tags_next: TagsNext,
    id: i64,
    now: u64,
    text: Seq<char>,
    other: Seq<char>,
    summary: Option<Seq<char>>,
    done: Result<(), Seq<char>>,
    playlists: Result<Seq<PlaylistView>, Seq<char>>,
    playlist: Result<PlaylistView, Seq<char>>,
    playlist_tracks: Result<Seq<PlaylistTrackView>, Seq<char>>,
    tracks: Result<Seq<TrackView>, Seq<char>>,
    tags: Result<Seq<TrackTagView>, Seq<char>>,
    scan: Result<ScanStateView, Seq<char>>,
)
    ensures
        calls_left(app.playlists_loaded(playlists, next).1) < calls_left(
            EffectView::Call(CallView::Playlists(next)),
        ),
        calls_left(app.playlist_tracks_loaded(id, playlist_tracks, next).1) < calls_left(
            EffectView::Call(CallView::PlaylistTracks(id, next)),
        ),
        calls_left(app.playlist_created(playlist).1) < calls_left(
            EffectView::Call(CallView::CreatePlaylist(text)),
        ),
        calls_left(app.playlist_renamed(done).1) < calls_left(
            EffectView::Call(CallView::RenamePlaylist(id, text)),
        ),
        calls_left(app.playlist_deleted(text, done).1) < calls_left(
            EffectView::Call(CallView::DeletePlaylist(id, text)),
        ),
        calls_left(app.added_to_playlist(id, text, done).1) < calls_left(
            EffectView::Call(CallView::AddToPlaylist { playlist: id, track: id, name: text }),
        ),
        calls_left(app.removed_from_playlist(done).1) < calls_left(
            EffectView::Call(CallView::RemoveFromPlaylist { playlist: id, track: id }),
        ),
        calls_left(app.playlist_tracks_set(done).1) < calls_left(
            EffectView::Call(CallView::SetPlaylistTracks(id, Seq::empty())),
        ),
        calls_left(app.search_done(text, tracks).1) < calls_left(
            EffectView::Call(CallView::Search(text)),
        ),
        calls_left(app.track_tags_loaded(id, tags, tags_next).1) < calls_left(
            EffectView::Call(CallView::TrackTags(id, tags_next)),
        ),
        calls_left(app.user_tag_added(text, other, done).1) < calls_left(
            EffectView::Call(CallView::AddUserTag { track: id, namespace: text, value: other }),
        ),
        calls_left(app.user_tag_removed(text, done).1) < calls_left(
            EffectView::Call(CallView::RemoveUserTag { track: id, tag: id, label: text }),
        ),
        calls_left(app.scan_triggered(scan, now).1) < calls_left(
            EffectView::Call(CallView::TriggerScan),
        ),
        calls_left(app.scan_polled(scan).1) < calls_left(EffectView::Call(CallView::ScanStatus)),
        calls_left(app.rescanned(summary, tracks).1) < calls_left(
            EffectView::Call(CallView::Tracks(summary)),
        ),
        calls_left(app.settings_saved(done).1) < calls_left(EffectView::SaveSettings),
        calls_left(app.reconnected(tracks).1) < calls_left(EffectView::Reconnect(Seq::empty())),
{
}

/// Every call goes to the server of the client, and shows it the client's token.
pub proof fn every_call_goes_to_the_server(call: CallView, client: ClientView, fetched: nat)
    ensures
        ({
            let r = call.request(client, fetched);
            &&& client.base.len() <= r.url.len()
            &&& r.url.take(client.base.len() as int) == client.base
            &&& r.authorization == client.auth_header()
        }),
{
    let r = call.request(client, fetched);
    assert(r.url.take(client.base.len() as int) =~= client.base);
}

/// Whether tags are asked for in order to be shown.
pub open spec fn asks_to_show_tags(effect: EffectView) -> bool {
    effect matches EffectView::Call(CallView::TrackTags(_, next)) && next == TagsNext::Show
}

/// What a key in a tab cannot do: end the client, change the mode by escape, go to another
/// tab, show tags elsewhere than with the songs, or take off a tag that is no user's.
spec fn harmless(app: AppView, code: KeyCode, step: (AppView, EffectView)) -> bool {
    &&& step.0.should_quit == app.should_quit
    &&& calls_left(step.1) <= 4
    &&& step.0.tab == app.tab
    &&& step.0.show_tags ==> app.show_tags || app.tab == Tab::Songs
    &&& asks_to_show_tags(step.1) ==> app.tab == Tab::Songs
    &&& code == KeyCode::Esc ==> step.0.mode == app.mode && step.1 == EffectView::Idle
    &&& match step.1 {
        EffectView::Call(CallView::RemoveUserTag { track, tag, label }) => {
            &&& app.tags_state.selected is Some
            &&& app.tags_state.selected->0 < app.current_tags.len()
            &&& app.current_tags[app.tags_state.selected->0 as int].is_user()
            &&& app.current_tags[app.tags_state.selected->0 as int].tag_id == tag
            &&& app.selected_track() is Some
            &&& app.selected_track()->0.id == track
        },
        _ => true,
    }
}

proof fn lemma_playlists_key(app: AppView, code: KeyCode)
    ensures
        harmless(app, code, app.playlists_key(code)),
{
    reveal(AppView::playlists_key);
}

proof fn lemma_songs_key(app: AppView, code: KeyCode)
    requires
        app.tab == Tab::Songs,
    ensures
        harmless(app, code, app.songs_key(code)),
{
    reveal(AppView::songs_key);
}

proof fn lemma_queue_key(app: AppView, code: KeyCode, len: nat)
    ensures
        harmless(app, code, app.queue_key(code, len)),
{
    reveal(AppView::queue_key);
}

proof fn lemma_settings_key(app: AppView, code: KeyCode)
    ensures
        harmless(app, code, app.settings_key(code)),
{
    reveal(AppView::settings_key);
}

proof fn lemma_typing_key(app: AppView, code: KeyCode)
    ensures
        harmless(
            AppView {
                mode: if code == KeyCode::Esc {
                    ModeView::Normal
                } else {
                    app.mode
                },
                ..app
            },
            code,
            app.typing_key(code),
        ),
        code == KeyCode::Esc ==> app.typing_key(code).0.settings == app.settings,
{
    reveal(AppView::typing_key);
}

proof fn lemma_keys(app: AppView, key: Key, player: PlayerStateView)
    ensures
        app.tab == Tab::Playlists ==> harmless(app, key.code, app.playlists_key(key.code)),
        app.tab == Tab::Songs ==> harmless(app, key.code, app.songs_key(key.code)),
        app.tab == Tab::Queue ==> harmless(
            app,
            key.code,
            app.queue_key(key.code, player.playlist.len()),
        ),
        app.tab == Tab::Settings ==> harmless(app, key.code, app.settings_key(key.code)),
{
    lemma_playlists_key(app, key.code);
    if app.tab == Tab::Songs {
        lemma_songs_key(app, key.code);
    }
    lemma_queue_key(app, key.code, player.playlist.len());
    lemma_settings_key(app, key.code);
}

/// No key leads to more than four calls.
pub proof fn keys_make_few_calls(app: AppView, key: Key, player: PlayerStateView)
    ensures
        calls_left(app.handle_key(key, player).1) <= 4,
{
    lemma_keys(app, key, player);
    lemma_typing_key(app, key.code);
}

// ---------------------------------------------------------------------------
// Keys
// ---------------------------------------------------------------------------

/// In normal mode a digit from one to four goes to a tab, and changes nothing else but
/// that the tags are out of sight.
pub proof fn digits_switch_tabs(app: AppView, key: Key, c: char, player: PlayerStateView)
    requires
        app.mode == ModeView::Normal,
        key.code == KeyCode::Char(c),
        '1' <= c <= '4',
    ensures
        app.handle_key(key, player) == (
            AppView { tab: state::tabs()[c as int - '1' as int], show_tags: false, ..app },
            EffectView::Idle,
        ),
{
}

/// Escape leads back to normal mode from every mode, asks nothing of the world, and leaves
/// the settings as they are unless they are in sight.
pub proof fn escape_leaves_every_mode(app: AppView, key: Key, player: PlayerStateView)
    requires
        key.code == KeyCode::Esc,
    ensures
        app.handle_key(key, player).0.mode == ModeView::Normal,
        app.handle_key(key, player).1 == EffectView::Idle,
        app.mode != ModeView::Normal ==> app.handle_key(key, player).0.settings == app.settings,
{
    lemma_keys(app, key, player);
    lemma_typing_key(app, key.code);
}

/// Only `q`, and `c` with the control key, end the client, and only in normal mode.
pub proof fn only_q_and_control_c_quit(app: AppView, key: Key, player: PlayerStateView)
    requires
        !app.should_quit,
    ensures
        app.handle_key(key, player).0.should_quit <==> app.mode == ModeView::Normal && (key.code
            == KeyCode::Char('q') || (key.code == KeyCode::Char('c') && key.control)),
{
    lemma_keys(app, key, player);
    lemma_typing_key(app, key.code);
}

/// While a text is typed, a character and a backspace behind it leave the text as it was.
pub proof fn backspace_undoes_a_character(
    app: AppView,
    c: char,
    control: bool,
    player: PlayerStateView,
)
    requires
        !(app.mode is Normal || app.mode is PickPlaylist || app.mode is SortPicker),
    ensures
        ({
            let typed = Key { code: KeyCode::Char(c), control, press: true };
            let erased = Key { code: KeyCode::Backspace, control, press: true };
            app.handle_key(typed, player).0.handle_key(erased, player).0.mode == app.mode
        }),
{
    reveal(AppView::typing_key);
    match app.mode {
        ModeView::Filter(buf) | ModeView::TagSearch(buf) | ModeView::AddTag(buf)
        | ModeView::EditSetting(_, buf) | ModeView::NewPlaylist(buf)
        | ModeView::RenamePlaylist(_, buf) => {
            assert(buf.push(c).drop_last() =~= buf);
        },
        _ => {},
    }
}

/// Three times the key for repeating, and the client repeats as before.
pub proof fn repeating_comes_round(app: AppView, key: Key, player: PlayerStateView)
    requires
        app.mode == ModeView::Normal,
        key.code == KeyCode::Char('R'),
    ensures
        ({
            let once = app.handle_key(key, player).0;
            let twice = once.handle_key(key, player).0;
            let thrice = twice.handle_key(key, player).0;
            &&& once.repeat != app.repeat
            &&& twice.repeat != app.repeat
            &&& twice.repeat != once.repeat
            &&& thrice.repeat == app.repeat
        }),
{
}

/// Opening the help and closing it again changes nothing.
pub proof fn help_opens_and_closes(app: AppView, key: Key, player: PlayerStateView)
    requires
        app.mode == ModeView::Normal,
        key.code == KeyCode::Char('?'),
    ensures
        app.handle_key(key, player).0.show_help == !app.show_help,
        app.handle_key(key, player).0.handle_key(key, player).0 == app,
{
}

/// The tags are in sight only with the songs: no key brings them up in another tab, nor
/// asks there for tags to be shown.
pub proof fn tags_are_shown_with_the_songs(app: AppView, key: Key, player: PlayerStateView)
    requires
        app.show_tags ==> app.tab == Tab::Songs,
    ensures
        app.handle_key(key, player).0.show_tags ==> app.handle_key(key, player).0.tab
            == Tab::Songs,
        asks_to_show_tags(app.handle_key(key, player).1) ==> app.tab == Tab::Songs
            && app.handle_key(key, player).0.tab == Tab::Songs,
{
    lemma_keys(app, key, player);
    lemma_typing_key(app, key.code);
}

/// Whether a step leaves the tab, and whether the tags are in sight, as they were.
pub open spec fn leaves_in_sight(app: AppView, step: (AppView, EffectView)) -> bool {
    step.0.tab == app.tab && step.0.show_tags == app.show_tags && !asks_to_show_tags(step.1)
}

/// No answer goes to another tab, and none brings tags into sight or asks for tags to be
/// shown but the one to a call that was made to show them.
pub proof fn answers_leave_what_is_in_sight(
    app: AppView,
    next: Next,
    tags_next: TagsNext,
    id: i64,
    now: u64,
    text: Seq<char>,
    other: Seq<char>,
    summary: Option<Seq<char>>,
    done: Result<(), Seq<char>>,
    playlists: Result<Seq<PlaylistView>, Seq<char>>,
    playlist: Result<PlaylistView, Seq<char>>,
    playlist_tracks: Result<Seq<PlaylistTrackView>, Seq<char>>,
    tracks: Result<Seq<TrackView>, Seq<char>>,
    tags: Result<Seq<TrackTagView>, Seq<char>>,
    scan: Result<ScanStateView, Seq<char>>,
)
    ensures
        leaves_in_sight(app, app.playlists_loaded(playlists, next)),
        leaves_in_sight(app, app.playlist_tracks_loaded(id, playlist_tracks, next)),
        leaves_in_sight(app, app.playlist_created(playlist)),
        leaves_in_sight(app, app.playlist_renamed(done)),
        leaves_in_sight(app, app.playlist_deleted(text, done)),
        leaves_in_sight(app, app.added_to_playlist(id, text, done)),
        leaves_in_sight(app, app.removed_from_playlist(done)),
        leaves_in_sight(app, app.playlist_tracks_set(done)),
        leaves_in_sight(app, app.search_done(text, tracks)),
        leaves_in_sight(app, app.user_tag_added(text, other, done)),
        leaves_in_sight(app, app.user_tag_removed(text, done)),
        leaves_in_sight(app, app.scan_triggered(scan, now)),
        leaves_in_sight(app, app.poll_scan_if_due(now)),
        leaves_in_sight(app, app.scan_polled(scan)),
        leaves_in_sight(app, app.rescanned(summary, tracks)),
        leaves_in_sight(app, app.settings_saved(done)),
        leaves_in_sight(app, app.reconnected(tracks)),
        tags_next != TagsNext::Show ==> leaves_in_sight(
            app,
            app.track_tags_loaded(id, tags, tags_next),
        ),
        app.track_tags_loaded(id, tags, TagsNext::Show).0.tab == app.tab,
        app.track_tags_loaded(id, tags, TagsNext::Show).0.show_tags,
{
}

/// No key takes a tag off a track that no user put there.
pub proof fn only_user_tags_are_removed(app: AppView, key: Key, player: PlayerStateView)
    ensures
        match app.handle_key(key, player).1 {
            EffectView::Call(CallView::RemoveUserTag { track, tag, label }) => {
                &&& app.tags_state.selected is Some
                &&& app.tags_state.selected->0 < app.current_tags.len()
                &&& app.current_tags[app.tags_state.selected->0 as int].is_user()
                &&& app.current_tags[app.tags_state.selected->0 as int].tag_id == tag
                &&& app.selected_track() is Some
                &&& app.selected_track()->0.id == track
            },
            _ => true,
        },
{
    lemma_keys(app, key, player);
    lemma_typing_key(app, key.code);
}

// ---------------------------------------------------------------------------
// The player
// ---------------------------------------------------------------------------

/// A report changes nothing that is known of the player but the property that it names.
pub proof fn a_report_changes_what_it_names(player: PlayerStateView, r: ReportView)
    ensures
        ({
            let after = player.after(r);
            let named = |property: Seq<char>|
                r.event == Some("property-change"@) && r.name == Some(property);
            &&& after.time_pos != player.time_pos ==> named("time-pos"@)
            &&& after.duration != player.duration ==> named("duration"@)
            &&& after.paused != player.paused ==> named("pause"@)
            &&& after.idle_active != player.idle_active ==> named("idle-active"@)
            &&& after.current_path != player.current_path ==> named("path"@)
            &&& after.playlist != player.playlist ==> named("playlist"@)
        }),
{
}

// ---------------------------------------------------------------------------
// Settings
// ---------------------------------------------------------------------------

/// Whatever has been typed into the settings, going back brings the saved ones.
pub proof fn reverting_restores_the_saved_settings(
    app: AppView,
    field: SettingsField,
    value: Seq<char>,
    key: Key,
    player: PlayerStateView,
)
    requires
        app.mode == ModeView::Normal,
        app.tab == Tab::Settings,
        key.code == KeyCode::Char('r'),
    ensures
        app.with_field(field, value).handle_key(key, player).0.settings == app.saved_settings,
        app.handle_key(key, player).0.settings == app.saved_settings,
{
    reveal(AppView::settings_key);
}

/// Settings are used once they are saved, and only these: the client is that of the saved
/// settings, and what is saved is what is shown.
pub proof fn saved_settings_are_used(app: AppView, why: Seq<char>)
    ensures
        app.settings_saved(Ok(())).0.saved_settings == app.settings,
        app.settings_saved(Ok(())).0.settings == app.settings,
        app.settings_saved(Ok(())).0.client == app.settings.client(),
        app.settings_saved(Err(why)).0.client == app.client,
        app.settings_saved(Err(why)).0.saved_settings == app.saved_settings,
{
}

// ---------------------------------------------------------------------------
// The list of tracks
// ---------------------------------------------------------------------------

proof fn lemma_passing(tracks: Seq<TrackView>, q: Seq<char>)
    requires
        tracks.len() <= usize::MAX,
    ensures
        forall|i: int| 0 <= i < model::passing(tracks, q).len() ==> (
        #[trigger] model::passing(tracks, q)[i]) < tracks.len(),
        forall|i: int, j: int|
            0 <= i < j < model::passing(tracks, q).len() ==> (#[trigger] model::passing(
                tracks,
                q,
            )[i]) < #[trigger] model::passing(tracks, q)[j],
        forall|i: int|
            0 <= i < model::passing(tracks, q).len() ==> model::passes(
                tracks[(#[trigger] model::passing(tracks, q)[i]) as int],
                q,
            ),
        forall|x: usize|
            x < tracks.len() && model::passes(tracks[x as int], q)
                ==> #[trigger] model::passing(tracks, q).contains(x),
    decreases tracks.len(),
{
    if tracks.len() > 0 {
        let front = model::passing(tracks.drop_last(), q);
        let all = model::passing(tracks, q);
        let n = (tracks.len() - 1) as usize;
        lemma_passing(tracks.drop_last(), q);
        assert forall|i: int| 0 <= i < all.len() implies model::passes(
            tracks[(#[trigger] all[i]) as int],
            q,
        ) && all[i] < tracks.len() by {
            if i < front.len() {
                assert(all[i] == front[i]);
                assert(tracks.drop_last()[front[i] as int] == tracks[front[i] as int]);
            }
        }
        assert forall|i: int, j: int| 0 <= i < j < all.len() implies (#[trigger] all[i])
            < #[trigger] all[j] by {
            assert(all[i] == front[i]);
            if j < front.len() {
                assert(all[j] == front[j]);
            }
        }
        assert forall|x: usize|
            x < tracks.len() && model::passes(
                tracks[x as int],
                q,
            ) implies #[trigger] all.contains(x) by {
            if x < n {
                assert(tracks.drop_last()[x as int] == tracks[x as int]);
                assert(front.contains(x));
                let i = choose|i: int| 0 <= i < front.len() && front[i] == x;
                assert(all[i] == x);
            } else {
                assert(all[all.len() - 1] == x);
            }
        }
    }
}

/// A filter shows the tracks that pass it and no others, each once, in the order of the
/// sort key.
pub proof fn a_filter_shows_what_passes(app: AppView, q: Seq<char>)
    requires
        app.tracks.len() <= usize::MAX,
    ensures
        ({
            let shown = app.apply_filter(q).filtered;
            &&& forall|x: usize|
                #[trigger] shown.contains(x) <==> x < app.tracks.len() && model::passes(
                    app.tracks[x as int],
                    q,
                )
            &&& shown.no_duplicates()
            &&& sort::in_order(app.tracks, app.sort_key, shown)
        }),
{
    broadcast use vstd::seq_lib::group_to_multiset_ensures;

    let places = model::passing(app.tracks, q);
    let shown = app.apply_filter(q).filtered;
    lemma_passing(app.tracks, q);
    sort::sorted_is_in_order(app.tracks, app.sort_key, places);
    assert(shown.to_multiset() == places.to_multiset());
    assert forall|x: usize|
        #[trigger] shown.contains(x) <==> x < app.tracks.len() && model::passes(
            app.tracks[x as int],
            q,
        ) by {
        assert(shown.contains(x) <==> shown.to_multiset().count(x) > 0);
        assert(places.contains(x) <==> places.to_multiset().count(x) > 0);
        if places.contains(x) {
            let i = choose|i: int| 0 <= i < places.len() && places[i] == x;
            assert(places[i] == x);
        }
    }
    assert(places.no_duplicates());
    places.lemma_multiset_has_no_duplicates();
    shown.lemma_multiset_has_no_duplicates_conv();
}

/// An empty filter shows all tracks.
pub proof fn an_empty_filter_shows_everything(app: AppView, x: usize)
    requires
        app.tracks.len() <= usize::MAX,
        x < app.tracks.len(),
    ensures
        app.apply_filter(Seq::empty()).filtered.contains(x),
        app.apply_filter(Seq::empty()).filtered.len() == app.tracks.len(),
{
    a_filter_shows_what_passes(app, Seq::empty());
    lemma_everything_passes(app.tracks);
    sort::sorted_is_in_order(
        app.tracks,
        app.sort_key,
        model::passing(app.tracks, Seq::empty()),
    );
    vstd::seq_lib::to_multiset_len(app.apply_filter(Seq::empty()).filtered);
    vstd::seq_lib::to_multiset_len(model::passing(app.tracks, Seq::empty()));
}

/// Whether what a filter looks for is part of what another one looks for, the case of the
/// letters apart. An empty filter is part of every other.
pub open spec fn is_part(p: Seq<char>, q: Seq<char>) -> bool {
    p.len() == 0 || (q.len() > 0 && text::occurs(text::lowercase(p), text::lowercase(q)))
}

proof fn lemma_occurs(a: Seq<char>, b: Seq<char>, c: Seq<char>)
    requires
        text::occurs(a, b),
        text::occurs(b, c),
    ensures
        text::occurs(a, c),
{
    let i = choose|i: int|
        0 <= i && i + a.len() <= b.len() && #[trigger] b.subrange(i, i + a.len()) == a;
    let j = choose|j: int|
        0 <= j && j + b.len() <= c.len() && #[trigger] c.subrange(j, j + b.len()) == b;
    assert(c.subrange(j + i, j + i + a.len()) =~= c.subrange(j, j + b.len()).subrange(
        i,
        i + a.len(),
    ));
}

proof fn lemma_passing_narrows(tracks: Seq<TrackView>, p: Seq<char>, q: Seq<char>, n: nat)
    requires
        n <= tracks.len() <= usize::MAX,
        is_part(p, q),
    ensures
        model::passing(tracks.take(n as int), q) == model::passing(
            tracks.take(n as int),
            p,
        ).filter(|x: usize| model::passes(tracks[x as int], q)),
    decreases n,
{
    reveal(Seq::filter);
    let keep = |x: usize| model::passes(tracks[x as int], q);
    let now = tracks.take(n as int);
    if n > 0 {
        let m = (n - 1) as nat;
        lemma_passing_narrows(tracks, p, q, m);
        assert(now.drop_last() =~= tracks.take(m as int));
        let t = now.last();
        assert(t == tracks[m as int]);
        if model::passes(t, q) && p.len() > 0 {
            lemma_occurs(
                text::lowercase(p),
                text::lowercase(q),
                text::lowercase(model::searched_text(t)),
            );
        }
        let front = model::passing(tracks.take(m as int), p);
        assert(front.push(m as usize).drop_last() =~= front);
        assert(keep(m as usize) == model::passes(t, q));
    } else {
        assert(model::passing(now, p).filter(keep) =~= Seq::empty());
    }
}

/// A filter that looks for more only takes tracks away: what it shows is what the other
/// showed, without the tracks that do not pass, in the same order.
pub proof fn a_longer_filter_takes_away(app: AppView, p: Seq<char>, q: Seq<char>)
    requires
        app.tracks.len() <= usize::MAX,
    ensures
        is_part(p, q) ==> app.apply_filter(q).filtered == app.apply_filter(p).filtered.filter(
            |x: usize| model::passes(app.tracks[x as int], q),
        ),
{
    if is_part(p, q) {
        let keep = |x: usize| model::passes(app.tracks[x as int], q);
        let n = app.tracks.len();
        lemma_passing_narrows(app.tracks, p, q, n);
        assert(app.tracks.take(n as int) =~= app.tracks);
        sort::leaving_out_commutes_with_sorting(
            app.tracks,
            app.sort_key,
            model::passing(app.tracks, p),
            keep,
        );
    }
}

/// While a filter is typed, the list is what the text so far shows, and one more character
/// that makes the text look for more only takes tracks away.
pub proof fn typing_on_takes_away(
    app: AppView,
    buf: Seq<char>,
    c: char,
    key: Key,
    player: PlayerStateView,
)
    requires
        app.tracks.len() <= usize::MAX,
        app.mode == ModeView::Filter(buf),
        app.filtered == app.apply_filter(buf).filtered,
        key.code == KeyCode::Char(c),
    ensures
        ({
            let typed = app.handle_key(key, player).0;
            let q = buf.push(c);
            &&& typed.mode == ModeView::Filter(q)
            &&& typed.filtered == app.apply_filter(q).filtered
            &&& is_part(buf, q) ==> typed.filtered == app.filtered.filter(
                |x: usize| model::passes(app.tracks[x as int], q),
            )
        }),
{
    a_longer_filter_takes_away(app, buf, buf.push(c));
}

/// What a filter shows, and which track is selected, does not depend on the filter before
/// it; nothing is left of that one but how far the list is scrolled.
pub proof fn a_filter_forgets_the_one_before(app: AppView, p: Seq<char>, q: Seq<char>)
    ensures
        ({
            let direct = app.apply_filter(q);
            let after = app.apply_filter(p).apply_filter(q);
            &&& after.list_state.selected == direct.list_state.selected
            &&& after == AppView { list_state: after.list_state, ..direct }
        }),
{
}

proof fn lemma_everything_passes(tracks: Seq<TrackView>)
    ensures
        model::passing(tracks, Seq::empty()).len() == tracks.len(),
    decreases tracks.len(),
{
    if tracks.len() > 0 {
        lemma_everything_passes(tracks.drop_last());
    }
}

proof fn lemma_place_from(ids: Seq<i64>, id: i64, from: int)
    requires
        0 <= from <= ids.len(),
    ensures
        from <= lists::place_from(ids, id, from) <= ids.len(),
        lists::place_from(ids, id, from) < ids.len() ==> ids[lists::place_from(ids, id, from)]
            == id,
        forall|k: int| from <= k < lists::place_from(ids, id, from) ==> ids[k] != id,
    decreases ids.len() - from,
{
    if from < ids.len() && ids[from] != id {
        lemma_place_from(ids, id, from + 1);
    }
}

/// Sorting by another key leaves the selected track selected, told by its number, and
/// shows the same tracks in the order of the key.
pub proof fn sorting_keeps_the_selection(app: AppView, key: SortKey)
    requires
        app.wf(),
        app.filtered.len() <= usize::MAX,
    ensures
        ({
            let sorted = app.apply_sort(key);
            &&& sorted.filtered.to_multiset() == app.filtered.to_multiset()
            &&& sort::in_order(app.tracks, key, sorted.filtered)
            &&& app.selected_track() is Some ==> sorted.selected_track() is Some
                && sorted.selected_track()->0.id == app.selected_track()->0.id
            &&& app.selected_track() is None ==> sorted.selected_track() is None
        }),
{
    broadcast use vstd::seq_lib::group_to_multiset_ensures;

    let sorted = app.apply_sort(key);
    sort::sorted_is_in_order(app.tracks, key, app.filtered);
    let ids = model::ids_at(app.tracks, sorted.filtered);
    vstd::seq_lib::to_multiset_len(app.filtered);
    vstd::seq_lib::to_multiset_len(sorted.filtered);
    if app.selected_track() is Some {
        let i = app.list_state.selected->0 as int;
        let x = app.filtered[i];
        let id = app.tracks[x as int].id;
        assert(app.filtered.contains(x));
        assert(sorted.filtered.to_multiset().count(x) > 0);
        assert(sorted.filtered.contains(x));
        let j = choose|j: int| 0 <= j < sorted.filtered.len() && sorted.filtered[j] == x;
        assert(ids[j] == id);
        lemma_place_from(ids, id, 0);
        let k = lists::place_from(ids, id, 0);
        assert(k <= j);
        let y = sorted.filtered[k];
        assert(sorted.filtered.contains(y));
        assert(app.filtered.to_multiset().count(y) > 0);
        assert(app.filtered.contains(y));
        assert(y < app.tracks.len());
    }
}

/// Unless the list is empty, a track is selected.
pub proof fn a_track_is_selected(app: AppView)
    requires
        app.wf(),
    ensures
        app.selected_track() is Some <==> app.filtered.len() > 0,
{
    if app.filtered.len() > 0 {
        assert(app.filtered[app.list_state.selected->0 as int] < app.tracks.len());
    }
}

// ---------------------------------------------------------------------------
// Putting things in another order
// ---------------------------------------------------------------------------

/// Moving an entry of the queue: the player exchanges it with its neighbour, and the
/// selection goes with it.
pub proof fn a_queue_entry_moves_by_one<T>(app: AppView, queue: Seq<T>, down: bool)
    requires
        app.queue_state.selected is Some,
        app.queue_state.selected->0 < queue.len() < i64::MAX,
        queue.len() <= usize::MAX,
        down ==> app.queue_state.selected->0 + 1 < queue.len(),
        !down ==> app.queue_state.selected->0 > 0,
    ensures
        ({
            let i = app.queue_state.selected->0 as int;
            let new = if down {
                i + 1
            } else {
                i - 1
            };
            let step = app.move_queue_item(new - i, queue.len());
            &&& step.1 is Player
            &&& shuffle::after_moves(queue, step.1->Player_0) == lists::swapped(queue, i, new)
            &&& step.0.queue_state.selected == Some(new as usize)
        }),
{
    let i = app.queue_state.selected->0 as int;
    let new = if down {
        i + 1
    } else {
        i - 1
    };
    let step = app.move_queue_item(new - i, queue.len());
    let commands = step.1->Player_0;
    assert(commands.skip(1) =~= Seq::<PlayerCommandView>::empty());
    let to = if down {
        new + 1
    } else {
        new
    };
    assert(shuffle::after_moves(queue, commands) == shuffle::player_move(queue, i, to)) by {
        assert(shuffle::after_moves(shuffle::player_move(queue, i, to), commands.skip(1))
            == shuffle::player_move(queue, i, to));
    }
    assert(shuffle::player_move(queue, i, to) =~= lists::swapped(queue, i, new));
}

/// Moving a track of a playlist down and up again brings the tracks back into their order,
/// and it is selected as before.
pub proof fn moving_a_playlist_track_back_restores(app: AppView)
    requires
        app.wf(),
        app.selected_playlist() is Some,
        app.playlist_tracks_state.selected is Some,
        app.playlist_tracks_state.selected->0 + 1 < app.playlist_tracks.len() <= usize::MAX,
    ensures
        ({
            let there = app.move_playlist_track(1).0;
            let back = there.move_playlist_track(-1);
            &&& model::track_ids(back.0.playlist_tracks) == model::track_ids(app.playlist_tracks)
            &&& back.0.playlist_tracks_state.selected == app.playlist_tracks_state.selected
            &&& back.1 == EffectView::Call(
                CallView::SetPlaylistTracks(
                    app.selected_playlist()->0.id,
                    model::track_ids(app.playlist_tracks),
                ),
            )
        }),
{
    let there = app.move_playlist_track(1).0;
    let back = there.move_playlist_track(-1);
    let i = app.playlist_tracks_state.selected->0 as int;
    assert(there.selected_playlist() == app.selected_playlist());
    assert(there.playlist_tracks_state.selected == Some((i + 1) as usize));
    assert(model::track_ids(back.0.playlist_tracks) =~= model::track_ids(app.playlist_tracks));
}

/// However a track of a playlist is moved, no track is lost, and the positions count up
/// from zero.
pub proof fn moving_a_playlist_track_keeps_all(app: AppView, delta: int)
    requires
        app.wf(),
        app.playlist_tracks.len() <= i64::MAX,
    ensures
        ({
            let moved = app.move_playlist_track(delta).0;
            &&& model::track_ids(moved.playlist_tracks).to_multiset() == model::track_ids(
                app.playlist_tracks,
            ).to_multiset()
            &&& moved.playlist_tracks == app.playlist_tracks || forall|i: int|
                0 <= i < moved.playlist_tracks.len() ==> (
                #[trigger] moved.playlist_tracks[i]).position == i
        }),
{
    broadcast use vstd::seq_lib::group_to_multiset_ensures;

    let moved = app.move_playlist_track(delta).0;
    let ids = model::track_ids(app.playlist_tracks);
    if app.selected_playlist() is Some && app.playlist_tracks_state.selected is Some {
        let i = app.playlist_tracks_state.selected->0 as int;
        let new = i + delta;
        if 0 <= new < ids.len() {
            let w = ids.update(i, ids[new]);
            vstd::seq_lib::to_multiset_update(ids, i, ids[new]);
            vstd::seq_lib::to_multiset_update(w, new, ids[i]);
            assert(w[new] == ids[new]);
            assert(ids.contains(ids[i]));
            assert(ids.contains(ids[new]));
            assert(model::track_ids(moved.playlist_tracks) =~= lists::swapped(ids, i, new));
            assert(lists::swapped(ids, i, new).to_multiset() =~= ids.to_multiset());
        }
    }
}

// ---------------------------------------------------------------------------
// Playlists and tags after a fetch
// ---------------------------------------------------------------------------

proof fn lemma_place_of(playlists: Seq<PlaylistView>, id: i64, k: int)
    requires
        0 <= k < playlists.len() <= usize::MAX,
        playlists[k].id == id,
    ensures
        ({
            let place = lists::place_of(model::playlist_ids(playlists), id);
            &&& place is Some
            &&& place->0 < playlists.len()
            &&& playlists[place->0 as int].id == id
        }),
{
    let ids = model::playlist_ids(playlists);
    assert(ids[k] == id);
    lemma_place_from(ids, id, 0);
}

/// Fetching the playlists again leaves the selected one selected where it is still there,
/// told by its number.
pub proof fn reloading_keeps_the_selected_playlist(
    app: AppView,
    playlists: Seq<PlaylistView>,
    k: int,
)
    requires
        app.selected_playlist() is Some,
        0 <= k < playlists.len() <= usize::MAX,
        playlists[k].id == app.selected_playlist()->0.id,
    ensures
        ({
            let after = app.playlists_loaded(Ok(playlists), Next::Rest);
            &&& after.0.selected_playlist() is Some
            &&& after.0.selected_playlist()->0.id == app.selected_playlist()->0.id
            &&& after.1 == EffectView::Call(
                CallView::PlaylistTracks(app.selected_playlist()->0.id, Next::Rest),
            )
        }),
{
    lemma_place_of(playlists, app.selected_playlist()->0.id, k);
}

/// Once the server has made a playlist, and the playlists and the tracks of one have been
/// fetched, or not, the new playlist is the selected one, and its tracks are asked for.
pub proof fn a_new_playlist_gets_selected(
    app: AppView,
    made: PlaylistView,
    playlists: Seq<PlaylistView>,
    id: i64,
    tracks: Result<Seq<PlaylistTrackView>, Seq<char>>,
    k: int,
)
    requires
        0 <= k < playlists.len() <= usize::MAX,
        playlists[k].id == made.id,
    ensures
        ({
            let next = Next::SelectPlaylist(made.id);
            let created = app.playlist_created(Ok(made));
            let listed = created.0.playlists_loaded(Ok(playlists), next);
            let after = listed.0.playlist_tracks_loaded(id, tracks, next);
            &&& created.1 == EffectView::Call(CallView::Playlists(next))
            &&& listed.1 matches EffectView::Call(CallView::PlaylistTracks(_, n)) && n == next
            &&& after.0.selected_playlist() is Some
            &&& after.0.selected_playlist()->0.id == made.id
            &&& after.1 == EffectView::Call(CallView::PlaylistTracks(made.id, Next::Rest))
        }),
{
    lemma_place_of(playlists, made.id, k);
    let created = app.playlist_created(Ok(made)).0;
    if created.selected_playlist() is Some {
        let ids = model::playlist_ids(playlists);
        lemma_place_from(ids, created.selected_playlist()->0.id, 0);
    }
}

/// Once the tags of a track are there, one of them is selected, unless there are none.
pub proof fn a_tag_is_selected(
    app: AppView,
    id: i64,
    r: Result<Seq<TrackTagView>, Seq<char>>,
    next: TagsNext,
)
    requires
        r matches Ok(tags) ==> tags.len() <= usize::MAX,
    ensures
        ({
            let after = app.track_tags_loaded(id, r, next).0;
            &&& lists::is_place(after.tags_state.selected, after.current_tags.len())
            &&& after.tags_state.selected is Some <==> after.current_tags.len() > 0
            &&& after.current_tags_for == Some(id)
        }),
{
}

/// After a scan all tracks are shown.
pub proof fn a_rescan_shows_everything(
    app: AppView,
    summary: Option<Seq<char>>,
    tracks: Seq<TrackView>,
    x: usize,
)
    requires
        x < tracks.len() <= usize::MAX,
    ensures
        app.rescanned(summary, Ok(tracks)).0.tracks == tracks,
        app.rescanned(summary, Ok(tracks)).0.filtered.contains(x),
        app.rescanned(summary, Ok(tracks)).0.filtered.len() == tracks.len(),
{
    an_empty_filter_shows_everything(app.with_tracks(tracks), x);
}

proof fn lemma_last_place(tracks: Seq<TrackView>, id: i64)
    requires
        tracks.len() <= usize::MAX,
    ensures
        model::last_place(tracks, id) matches Some(i) ==> i < tracks.len() && tracks[i as int].id
            == id,
        model::last_place(tracks, id) is None ==> forall|i: int|
            0 <= i < tracks.len() ==> (#[trigger] tracks[i]).id != id,
    decreases tracks.len(),
{
    if tracks.len() > 0 && tracks.last().id != id {
        lemma_last_place(tracks.drop_last(), id);
        if model::last_place(tracks, id) is None {
            assert forall|i: int| 0 <= i < tracks.len() implies (#[trigger] tracks[i]).id != id by {
                if i < tracks.len() - 1 {
                    assert(tracks.drop_last()[i] == tracks[i]);
                }
            }
        }
    }
}

proof fn lemma_hit_places(tracks: Seq<TrackView>, hits: Seq<TrackView>)
    requires
        tracks.len() <= usize::MAX,
    ensures
        forall|x: usize| #[trigger]
            model::hit_places(tracks, hits).contains(x) ==> x < tracks.len() && exists|h: int|
                0 <= h < hits.len() && (#[trigger] hits[h]).id == tracks[x as int].id,
        forall|h: int, i: int|
            0 <= h < hits.len() && 0 <= i < tracks.len() && (#[trigger] tracks[i]).id == (
            #[trigger] hits[h]).id ==> exists|x: usize| #[trigger]
                model::hit_places(tracks, hits).contains(x) && tracks[x as int].id == hits[h].id,
    decreases hits.len(),
{
    if hits.len() > 0 {
        let front = model::hit_places(tracks, hits.drop_last());
        let all = model::hit_places(tracks, hits);
        let n = hits.len() - 1;
        lemma_hit_places(tracks, hits.drop_last());
        lemma_last_place(tracks, hits.last().id);
        assert forall|x: usize| #[trigger] all.contains(x) implies x < tracks.len() && exists|
            h: int,
        |
            0 <= h < hits.len() && (#[trigger] hits[h]).id == tracks[x as int].id by {
            let j = choose|j: int| 0 <= j < all.len() && all[j] == x;
            if j < front.len() {
                assert(front[j] == x);
                assert(front.contains(x));
                let h = choose|h: int|
                    0 <= h < n && (#[trigger] hits.drop_last()[h]).id == tracks[x as int].id;
                assert(hits[h].id == tracks[x as int].id);
            } else {
                assert(hits[n].id == tracks[x as int].id);
            }
        }
        assert forall|h: int, i: int|
            0 <= h < hits.len() && 0 <= i < tracks.len() && (#[trigger] tracks[i]).id == (
            #[trigger] hits[h]).id implies exists|x: usize| #[trigger]
            all.contains(x) && tracks[x as int].id == hits[h].id by {
            if h < n {
                assert(hits.drop_last()[h] == hits[h]);
                let x = choose|x: usize| #[trigger]
                    front.contains(x) && tracks[x as int].id == hits[h].id;
                let j = choose|j: int| 0 <= j < front.len() && front[j] == x;
                assert(all[j] == x);
                assert(all.contains(x));
            } else {
                let x = model::last_place(tracks, hits.last().id)->0;
                assert(all[all.len() - 1] == x);
                assert(all.contains(x));
            }
        }
    }
}

/// A tag search shows no track but those that the server found, and of each number that it
/// found and that is there, a track.
pub proof fn a_search_shows_its_hits(app: AppView, q: Seq<char>, hits: Seq<TrackView>)
    requires
        app.tracks.len() <= usize::MAX,
    ensures
        ({
            let shown = app.search_done(q, Ok(hits)).0.filtered;
            &&& forall|x: usize| #[trigger]
                shown.contains(x) ==> x < app.tracks.len() && exists|h: int|
                    0 <= h < hits.len() && (#[trigger] hits[h]).id == app.tracks[x as int].id
            &&& forall|h: int, i: int|
                0 <= h < hits.len() && 0 <= i < app.tracks.len() && (#[trigger] app.tracks[i]).id
                    == (#[trigger] hits[h]).id ==> exists|x: usize| #[trigger]
                    shown.contains(x) && app.tracks[x as int].id == hits[h].id
            &&& sort::in_order(app.tracks, app.sort_key, shown)
        }),
{
    broadcast use vstd::seq_lib::group_to_multiset_ensures;

    let places = model::hit_places(app.tracks, hits);
    let shown = app.search_done(q, Ok(hits)).0.filtered;
    lemma_hit_places(app.tracks, hits);
    sort::sorted_is_in_order(app.tracks, app.sort_key, places);
    assert forall|x: usize| #[trigger] shown.contains(x) <==> places.contains(x) by {
        assert(shown.contains(x) <==> shown.to_multiset().count(x) > 0);
        assert(places.contains(x) <==> places.to_multiset().count(x) > 0);
    }
    assert forall|h: int, i: int|
        0 <= h < hits.len() && 0 <= i < app.tracks.len() && (#[trigger] app.tracks[i]).id == (
        #[trigger] hits[h]).id implies exists|x: usize| #[trigger]
        shown.contains(x) && app.tracks[x as int].id == hits[h].id by {
        let x = choose|x: usize| #[trigger]
            places.contains(x) && app.tracks[x as int].id == hits[h].id;
        assert(shown.contains(x));
    }
}

// ---------------------------------------------------------------------------
// The screen
// ---------------------------------------------------------------------------

/// The line of the list that is selected is that of the selected track, and there are as
/// many lines as tracks are shown.
pub proof fn the_selected_line_is_the_selected_track(app: AppView, player: PlayerStateView)
    requires
        app.wf(),
        app.filtered.len() > 0,
    ensures
        ({
            let pane = ui::songs_pane(app, player);
            &&& pane.items.len() == app.filtered.len()
            &&& pane.state is Some
            &&& pane.state->0.selected is Some
            &&& pane.items[pane.state->0.selected->0 as int] == ui::song_line(
                app.selected_track()->0,
                player,
            )
        }),
{
    a_track_is_selected(app);
}

/// Drawing the screen changes nothing but which entry of the queue and which tag are
/// selected, and a second drawing changes nothing at all.
pub proof fn drawing_changes_selections_alone(app: AppView, player: PlayerStateView)
    requires
        player.playlist.len() <= usize::MAX,
    ensures
        ({
            let drawn = ui::before_drawing(app, player);
            &&& drawn == AppView {
                queue_state: drawn.queue_state,
                tags_state: drawn.tags_state,
                ..app
            }
            &&& ui::before_drawing(drawn, player) == drawn
        }),
{
}

} // verus!
