//! What is asked of the server, and what becomes of its answers, on the fields of the state.

use crate::api;
use crate::api::{BodyView, ClientView, Method, RequestView, ScanStateView, TrackView};
use crate::keys::{Key, KeyCode};
use crate::laws;
use crate::lists;
use crate::lists::ListState;
use crate::model;
use crate::model::AppView;
use crate::mpv::PlayerStateView;
use crate::settings::SettingsView;
use crate::sort;
use crate::state::{CallView, EffectView, ModeView, Next, SettingsField, Tab, TagsNext};
use crate::text;
use vstd::prelude::*;

verus! {

// ---------------------------------------------------------------------------
// Requests
// ---------------------------------------------------------------------------

/// Whether a request asks a server for a path in a way, with something to tell, and shows the
/// token of the client where it has one.
pub open spec fn asks(
    r: RequestView,
    client: ClientView,
    method: Method,
    path: Seq<char>,
    body: BodyView,
) -> bool {
    &&& r.method == method
    &&& r.url == client.base + path
    &&& r.body == body
    &&& client.token is None ==> r.authorization is None
    &&& client.token matches Some(token) ==> r.authorization == Some("Bearer "@ + token)
}

/// A number as it stands in a path.
pub open spec fn number(id: i64) -> Seq<char> {
    text::decimal_int(id as int)
}

/// What is asked about playlists.
#[verifier::rlimit(30)]
pub proof fn playlists_are_asked_for(
    client: ClientView,
    id: i64,
    track: i64,
    ids: Seq<i64>,
    name: Seq<char>,
    next: Next,
    fetched: nat,
)
    ensures
        asks(
            CallView::Playlists(next).request(client, fetched),
            client,
            Method::Get,
            "/api/playlists"@,
            BodyView::Empty,
        ),
        asks(
            CallView::PlaylistTracks(id, next).request(client, fetched),
            client,
            Method::Get,
            "/api/playlists/"@ + number(id) + "/tracks"@,
            BodyView::Empty,
        ),
        asks(
            CallView::CreatePlaylist(name).request(client, fetched),
            client,
            Method::Post,
            "/api/playlists"@,
            BodyView::Name(name),
        ),
        asks(
            CallView::RenamePlaylist(id, name).request(client, fetched),
            client,
            Method::Patch,
            "/api/playlists/"@ + number(id),
            BodyView::Name(name),
        ),
        asks(
            CallView::DeletePlaylist(id, name).request(client, fetched),
            client,
            Method::Delete,
            "/api/playlists/"@ + number(id),
            BodyView::Empty,
        ),
        asks(
            (CallView::AddToPlaylist { playlist: id, track, name }).request(client, fetched),
            client,
            Method::Post,
            "/api/playlists/"@ + number(id) + "/tracks"@,
            BodyView::TrackId(track),
        ),
        asks(
            (CallView::RemoveFromPlaylist { playlist: id, track }).request(client, fetched),
            client,
            Method::Delete,
            "/api/playlists/"@ + number(id) + "/tracks/"@ + number(track),
            BodyView::Empty,
        ),
        asks(
            CallView::SetPlaylistTracks(id, ids).request(client, fetched),
            client,
            Method::Put,
            "/api/playlists/"@ + number(id) + "/tracks"@,
            BodyView::TrackIds(ids),
        ),
{
}

/// What is asked about tracks, their tags, and scans. Tracks come a thousand at a time, from
/// the first one that is not there yet.
#[verifier::rlimit(30)]
pub proof fn tracks_and_tags_are_asked_for(
    client: ClientView,
    id: i64,
    tag: i64,
    namespace: Seq<char>,
    value: Seq<char>,
    q: Seq<char>,
    next: TagsNext,
    said: Option<Seq<char>>,
    fetched: nat,
)
    ensures
        asks(
            CallView::Search(q).request(client, fetched),
            client,
            Method::Get,
            "/api/search?q="@ + api::percent(vstd::utf8::encode_utf8(q)),
            BodyView::Empty,
        ),
        asks(
            CallView::TrackTags(id, next).request(client, fetched),
            client,
            Method::Get,
            "/api/tracks/"@ + number(id) + "/tags"@,
            BodyView::Empty,
        ),
        asks(
            (CallView::AddUserTag { track: id, namespace, value }).request(client, fetched),
            client,
            Method::Post,
            "/api/tracks/"@ + number(id) + "/tags"@,
            BodyView::Tag { namespace, value },
        ),
        asks(
            (CallView::RemoveUserTag { track: id, tag, label: value }).request(client, fetched),
            client,
            Method::Delete,
            "/api/tracks/"@ + number(id) + "/tags/"@ + number(tag),
            BodyView::Empty,
        ),
        asks(
            CallView::TriggerScan.request(client, fetched),
            client,
            Method::Post,
            "/api/scans"@,
            BodyView::Empty,
        ),
        asks(
            CallView::ScanStatus.request(client, fetched),
            client,
            Method::Get,
            "/api/scans"@,
            BodyView::Empty,
        ),
        asks(
            CallView::Tracks(said).request(client, fetched),
            client,
            Method::Get,
            "/api/tracks?limit="@ + text::decimal(1000) + "&offset="@ + text::decimal(fetched),
            BodyView::Empty,
        ),
        client.stream_url(id) == client.base + ("/api/tracks/"@ + number(id)) + "/stream"@,
{
}

/// Whether a request tells what it was where it fails, and where its answer cannot be read.
pub open spec fn fails_as(r: RequestView, context: Seq<char>, unreadable: Seq<char>) -> bool {
    r.context == context && r.decode_context == unreadable
}

/// What is told of requests about playlists that fail.
#[verifier::rlimit(30)]
pub proof fn failed_requests_about_playlists_are_told(
    client: ClientView,
    id: i64,
    track: i64,
    ids: Seq<i64>,
    name: Seq<char>,
    next: Next,
    n: nat,
)
    ensures
        fails_as(
            CallView::Playlists(next).request(client, n),
            "GET playlists"@,
            "decode playlists"@,
        ),
        fails_as(
            CallView::PlaylistTracks(id, next).request(client, n),
            "GET playlist tracks"@,
            "decode playlist tracks"@,
        ),
        fails_as(
            CallView::CreatePlaylist(name).request(client, n),
            "POST playlist"@,
            "decode playlist"@,
        ),
        fails_as(
            CallView::RenamePlaylist(id, name).request(client, n),
            "PATCH playlist"@,
            "decode playlist"@,
        ),
        fails_as(CallView::DeletePlaylist(id, name).request(client, n), "DELETE playlist"@, ""@),
        fails_as(
            (CallView::AddToPlaylist { playlist: id, track, name }).request(client, n),
            "POST playlist track"@,
            ""@,
        ),
        fails_as(
            (CallView::RemoveFromPlaylist { playlist: id, track }).request(client, n),
            "DELETE playlist track"@,
            ""@,
        ),
        fails_as(
            CallView::SetPlaylistTracks(id, ids).request(client, n),
            "PUT playlist tracks"@,
            ""@,
        ),
{
}

/// What is told of requests about tracks, tags and scans that fail.
#[verifier::rlimit(30)]
pub proof fn failed_requests_about_tracks_are_told(
    client: ClientView,
    id: i64,
    tag: i64,
    namespace: Seq<char>,
    value: Seq<char>,
    next: TagsNext,
    said: Option<Seq<char>>,
    n: nat,
)
    ensures
        fails_as(
            CallView::Search(value).request(client, n),
            "GET /api/search"@,
            "decode search"@,
        ),
        fails_as(CallView::TrackTags(id, next).request(client, n), "GET tags"@, "decode tags"@),
        fails_as(
            (CallView::AddUserTag { track: id, namespace, value }).request(client, n),
            "POST tag"@,
            "decode added tag"@,
        ),
        fails_as(
            (CallView::RemoveUserTag { track: id, tag, label: value }).request(client, n),
            "DELETE tag"@,
            ""@,
        ),
        fails_as(
            CallView::TriggerScan.request(client, n),
            "POST /api/scans"@,
            "decode scan state"@,
        ),
        fails_as(
            CallView::ScanStatus.request(client, n),
            "GET /api/scans"@,
            "decode scan state"@,
        ),
        fails_as(CallView::Tracks(said).request(client, n), "GET /api/tracks"@, "decode tracks"@),
{
}

/// In an address letters, digits and four signs stand for themselves, and every other byte is
/// a percent sign and two hexadecimal digits with capital letters.
pub proof fn bytes_stand_in_an_address(bytes: Seq<u8>, b: u8)
    ensures
        api::percent(Seq::empty()).len() == 0,
        ({
            let plain = 'A' <= b as char <= 'Z' || 'a' <= b as char <= 'z' || '0' <= b as char
                <= '9' || b as char == '-' || b as char == '_' || b as char == '.' || b as char
                == '~';
            let digit = |n: int|
                if n < 10 {
                    ('0' as int + n) as char
                } else {
                    ('A' as int + n - 10) as char
                };
            &&& plain ==> api::percent(bytes.push(b)) == api::percent(bytes).push(b as char)
            &&& !plain ==> api::percent(bytes.push(b)) == api::percent(bytes).push('%').push(
                digit(b as int / 16),
            ).push(digit(b as int % 16))
        }),
{
    assert(bytes.push(b).drop_last() =~= bytes);
}

/// Slashes at the end of the address of a server do not count, and nothing else is taken from
/// it.
pub proof fn slashes_at_the_end_do_not_count(base: Seq<char>, token: Option<Seq<char>>)
    ensures
        ({
            let client = ClientView::new(base, token);
            &&& client.token == token
            &&& client.base.len() <= base.len()
            &&& client.base == base.take(client.base.len() as int)
            &&& forall|i: int| client.base.len() <= i < base.len() ==> #[trigger] base[i] == '/'
            &&& client.base.len() > 0 ==> client.base.last() != '/'
        }),
    decreases base.len(),
{
    if base.len() > 0 && base.last() == '/' {
        let front = base.drop_last();
        slashes_at_the_end_do_not_count(front, token);
        let client = ClientView::new(base, token);
        assert(front.take(client.base.len() as int) =~= base.take(client.base.len() as int));
        assert forall|i: int| client.base.len() <= i < base.len() implies #[trigger] base[i]
            == '/' by {
            if i < front.len() {
                assert(front[i] == base[i]);
            }
        }
    } else {
        assert(base.take(base.len() as int) =~= base);
    }
}

/// A full page may not be the last one: a page has a thousand tracks, and the next request
/// asks for what follows them.
pub proof fn a_page_is_a_thousand_tracks<T>(library: Seq<T>, fetched: nat, i: int)
    requires
        fetched <= library.len(),
    ensures
        api::page(library, fetched).len() == if library.len() - fetched > 1000 {
            1000
        } else {
            library.len() - fetched
        },
        0 <= i < api::page(library, fetched).len() ==> api::page(library, fetched)[i]
            == library[fetched + i],
        api::more_may_follow(api::page(library, fetched).len()) <==> library.len() - fetched
            >= 1000,
{
}

/// The answers that are no success are told with their number and what the server wrote.
pub proof fn failures_are_told(status: u16, message: Seq<char>)
    ensures
        api::success(status) <==> 200 <= status <= 299,
        api::status_error(status, message) == "status "@ + text::decimal(status as nat) + ": "@
            + message,
{
}

// ---------------------------------------------------------------------------
// Scans
// ---------------------------------------------------------------------------

/// A scan that runs is watched from then on, one that does not is not, and what came of the
/// request is told.
pub proof fn a_running_scan_is_watched(
    app: AppView,
    scan: ScanStateView,
    e: Seq<char>,
    now: u64,
)
    ensures
        app.scan_triggered(Ok(scan), now) == (
            AppView {
                scan_polling: scan.running,
                last_scan_poll: now,
                status_msg: if scan.running {
                    "rescanning library…"@
                } else {
                    "scan triggered"@
                },
                ..app
            },
            EffectView::Idle,
        ),
        app.scan_triggered(Err(e), now) == (
            AppView { status_msg: "scan: "@ + e, ..app },
            EffectView::Idle,
        ),
{
}

/// While a scan is watched the server is asked for it once one and a half seconds, in
/// nanoseconds, have gone by since it was last asked, and not before.
pub proof fn the_server_is_asked_in_time(app: AppView, now: u64)
    ensures
        app.scan_polling && now - app.last_scan_poll >= 1_500_000_000 ==> app.poll_scan_if_due(now)
            == (
            AppView { last_scan_poll: now, ..app },
            EffectView::Call(CallView::ScanStatus),
        ),
        !app.scan_polling || now - app.last_scan_poll < 1_500_000_000 ==> app.poll_scan_if_due(now)
            == (app, EffectView::Idle),
{
}

/// A scan that still runs stays watched, and so does one of which the server does not tell. One
/// that failed is told, and one that is done has the library fetched, with what it counted.
pub proof fn a_scan_that_is_done_has_the_library_fetched(
    app: AppView,
    scan: ScanStateView,
    e: Seq<char>,
)
    ensures
        app.scan_polled(Err(e)) == (app, EffectView::Idle),
        scan.running ==> app.scan_polled(Ok(scan)) == (app, EffectView::Idle),
        !scan.running ==> (scan.last_error matches Some(error) ==> app.scan_polled(Ok(scan)) == (
            AppView { scan_polling: false, status_msg: "scan failed: "@ + error, ..app },
            EffectView::Idle,
        )),
        !scan.running && scan.last_error is None && scan.last_stats is None ==> app.scan_polled(
            Ok(scan),
        ) == (
            AppView { scan_polling: false, ..app },
            EffectView::Call(CallView::Tracks(None)),
        ),
        !scan.running && scan.last_error is None ==> (scan.last_stats matches Some(n)
            ==> app.scan_polled(Ok(scan)) == (
            AppView { scan_polling: false, ..app },
            EffectView::Call(
                CallView::Tracks(
                    Some(
                        "scan done: seen="@ + text::decimal(n.seen as nat) + " +"@ + text::decimal(
                            n.inserted as nat,
                        ) + " ~"@ + text::decimal(n.updated as nat) + " ="@ + text::decimal(
                            n.unchanged as nat,
                        ) + " fail="@ + text::decimal(n.failed as nat),
                    ),
                ),
            ),
        )),
{
}

/// Whether a list shows every track of a library once, in the order of a state's sort key.
pub open spec fn shows_all(app: AppView, tracks: Seq<TrackView>, shown: Seq<usize>) -> bool {
    &&& shown.len() == tracks.len()
    &&& shown.no_duplicates()
    &&& forall|x: usize| #[trigger] shown.contains(x) <==> x < tracks.len()
    &&& sort::in_order(tracks, app.sort_key, shown)
}

/// The library that was fetched after a scan takes the place of the old one, and all of it is
/// shown. The line of the list that was selected shows a track of the new library, and the
/// first line that shows one with its number is selected then. What the scan counted is told.
/// A failure leaves the old library, and is told.
pub proof fn a_scanned_library_is_shown(
    app: AppView,
    said: Option<Seq<char>>,
    tracks: Seq<TrackView>,
    e: Seq<char>,
    i: usize,
    k: int,
)
    requires
        tracks.len() <= usize::MAX,
    ensures
        ({
            let (after, effect) = app.rescanned(said, Ok(tracks));
            &&& effect == EffectView::Idle
            &&& shows_all(app, tracks, after.filtered)
            &&& after == (AppView {
                tracks,
                filtered: after.filtered,
                list_state: after.list_state,
                current_tags: Seq::empty(),
                current_tags_for: None,
                status_msg: match said {
                    Some(s) => s,
                    None => "scan done — "@ + text::decimal(tracks.len()) + " tracks"@,
                },
                ..app
            })
            &&& tracks.len() == 0 ==> after.list_state == (ListState { offset: 0, selected: None })
            &&& tracks.len() > 0 && !(app.list_state.selected matches Some(j) && j
                < app.filtered.len() && app.filtered[j as int] < tracks.len()) ==> after.list_state
                == (ListState { offset: app.list_state.offset, selected: Some(0) })
            &&& app.list_state.selected == Some(i) && i < app.filtered.len()
                && app.filtered[i as int] < tracks.len() && 0 <= k < tracks.len()
                && tracks[after.filtered[k] as int].id == tracks[app.filtered[i as int] as int].id
                && (forall|j: int|
                0 <= j < k ==> tracks[(#[trigger] after.filtered[j]) as int].id
                    != tracks[app.filtered[i as int] as int].id) ==> after.list_state
                == (ListState { offset: app.list_state.offset, selected: Some(k as usize) })
        }),
        app.rescanned(said, Err(e)) == (
            AppView {
                status_msg: (match said {
                    Some(s) => s,
                    None => "scan done"@,
                }) + " (reload failed: "@ + e + ")"@,
                ..app
            },
            EffectView::Idle,
        ),
{
    let after = app.rescanned(said, Ok(tracks)).0;
    let new = app.with_tracks(tracks);
    lemma_all_shown(new, tracks);
    if let Some(i) = app.list_state.selected {
        if i < app.filtered.len() && app.filtered[i as int] < tracks.len() {
            let id: i64 = tracks[app.filtered[i as int] as int].id;
            let ids = model::ids_at(tracks, after.filtered);
            laws::lemma_place_from(ids, id, 0);
            let p: int = lists::place_from(ids, id, 0);
            if 0 <= k < tracks.len() {
                assert(ids[k] == tracks[after.filtered[k] as int].id);
            }
            if p < ids.len() {
                assert(ids[p] == tracks[after.filtered[p] as int].id);
            }
        }
    }
}

proof fn lemma_all_shown(app: AppView, tracks: Seq<TrackView>)
    requires
        app.tracks == tracks,
        tracks.len() <= usize::MAX,
    ensures
        shows_all(app, tracks, app.apply_filter(Seq::empty()).filtered),
{
    let q: Seq<char> = Seq::empty();
    laws::a_filter_shows_what_passes(app, q);
    lemma_all_pass(tracks, q);
    sort::sorted_is_in_order(app.tracks, app.sort_key, model::passing(tracks, q));
}

proof fn lemma_all_pass(tracks: Seq<TrackView>, q: Seq<char>)
    requires
        q.len() == 0,
    ensures
        model::passing(tracks, q).len() == tracks.len(),
    decreases tracks.len(),
{
    if tracks.len() > 0 {
        lemma_all_pass(tracks.drop_last(), q);
    }
}

// ---------------------------------------------------------------------------
// Settings
// ---------------------------------------------------------------------------

/// What the command line says goes before what is set, and a server is used in any case.
pub proof fn the_command_line_goes_first(
    s: SettingsView,
    server: Option<Seq<char>>,
    token: Option<Seq<char>>,
)
    ensures
        ({
            let used = s.overridden(server, token);
            &&& server matches Some(url) ==> url.len() > 0 ==> used.server_url == url
            &&& server is None && s.server_url.len() > 0 ==> used.server_url == s.server_url
            &&& server matches Some(url) ==> url.len() == 0 ==> used.server_url
                == "http://127.0.0.1:7700"@
            &&& server is None && s.server_url.len() == 0 ==> used.server_url
                == "http://127.0.0.1:7700"@
            &&& token matches Some(t) ==> used.auth_token == t
            &&& token is None ==> used.auth_token == s.auth_token
        }),
{
}

/// A token is shown to the server, by the client and by the player, and no token where it is
/// empty.
pub proof fn the_token_is_shown(s: SettingsView)
    ensures
        s.auth_token.len() == 0 ==> s.client().token is None && s.headers().len() == 0,
        s.auth_token.len() > 0 ==> {
            &&& s.client().token == Some(s.auth_token)
            &&& s.headers().len() == 1
            &&& s.headers()[0] == "Authorization: Bearer "@ + s.auth_token
        },
        s.client().base == ClientView::new(s.server_url, None).base,
{
}

/// Whether the keys act on the settings.
pub open spec fn at_the_settings(app: AppView) -> bool {
    app.mode == ModeView::Normal && app.tab == Tab::Settings
}

/// The settings: "j" goes to the token and "k" to the server, Enter and "e" begin to change
/// the one that is selected, with what it is, "s" saves both, and "r" brings back those that
/// were saved.
pub proof fn keys_act_on_the_settings(app: AppView, key: Key, player: PlayerStateView)
    requires
        at_the_settings(app),
    ensures
        ({
            let r = app.handle_key(key, player);
            &&& key.code == KeyCode::Char('j') || key.code == KeyCode::Down ==> r == (
                AppView { settings_field: SettingsField::AuthToken, ..app },
                EffectView::Idle,
            )
            &&& key.code == KeyCode::Char('k') || key.code == KeyCode::Up ==> r == (
                AppView { settings_field: SettingsField::ServerUrl, ..app },
                EffectView::Idle,
            )
            &&& key.code == KeyCode::Enter || key.code == KeyCode::Char('e') ==> r == (
                AppView {
                    mode: ModeView::EditSetting(
                        app.settings_field,
                        if app.settings_field == SettingsField::ServerUrl {
                            app.settings.server_url
                        } else {
                            app.settings.auth_token
                        },
                    ),
                    ..app
                },
                EffectView::Idle,
            )
            &&& key.code == KeyCode::Char('s') ==> r == (app, EffectView::SaveSettings)
            &&& key.code == KeyCode::Char('r') || (key.code == KeyCode::Esc && !app.show_help
                && !app.show_tags) ==> r == (
                AppView {
                    settings: app.saved_settings,
                    status_msg: "settings reverted"@,
                    ..app
                },
                EffectView::Idle,
            )
        }),
{
    reveal(AppView::settings_key);
}

/// What was typed for a setting is set as it was typed, and the other setting stays.
pub proof fn a_typed_setting_is_set(
    app: AppView,
    buf: Seq<char>,
    key: Key,
    player: PlayerStateView,
)
    requires
        key.code == KeyCode::Enter,
    ensures
        app.mode == ModeView::EditSetting(SettingsField::ServerUrl, buf) ==> app.handle_key(
            key,
            player,
        ) == (
            AppView {
                mode: ModeView::Normal,
                settings: SettingsView { server_url: buf, auth_token: app.settings.auth_token },
                ..app
            },
            EffectView::Idle,
        ),
        app.mode == ModeView::EditSetting(SettingsField::AuthToken, buf) ==> app.handle_key(
            key,
            player,
        ) == (
            AppView {
                mode: ModeView::Normal,
                settings: SettingsView { server_url: app.settings.server_url, auth_token: buf },
                ..app
            },
            EffectView::Idle,
        ),
{
    reveal(AppView::typing_key);
}

/// Whether a text is typed, for anything but a filter.
pub open spec fn is_typing(mode: ModeView) -> bool {
    mode is TagSearch || mode is AddTag || mode is NewPlaylist || mode is RenamePlaylist
        || mode is EditSetting
}

/// Whether one thing is typed for what another was typed for.
pub open spec fn is_typed_instead(before: ModeView, after: ModeView, text: Seq<char>) -> bool {
    match before {
        ModeView::TagSearch(_) => after == ModeView::TagSearch(text),
        ModeView::AddTag(_) => after == ModeView::AddTag(text),
        ModeView::NewPlaylist(_) => after == ModeView::NewPlaylist(text),
        ModeView::RenamePlaylist(id, _) => after == ModeView::RenamePlaylist(id, text),
        ModeView::EditSetting(field, _) => after == ModeView::EditSetting(field, text),
        _ => false,
    }
}

/// What is typed at the moment.
pub open spec fn typed_text(mode: ModeView) -> Seq<char> {
    match mode {
        ModeView::TagSearch(buf) => buf,
        ModeView::AddTag(buf) => buf,
        ModeView::NewPlaylist(buf) => buf,
        ModeView::RenamePlaylist(_, buf) => buf,
        ModeView::EditSetting(_, buf) => buf,
        _ => Seq::empty(),
    }
}

proof fn lemma_typing(app: AppView, key: Key, player: PlayerStateView)
    requires
        is_typing(app.mode),
    ensures
        app.handle_key(key, player) == app.typing_key(key.code),
{
}

/// While something is typed each character is put to its end, and Backspace takes the last
/// one away.
pub proof fn typing_adds_and_takes_away(app: AppView, key: Key, player: PlayerStateView, c: char)
    requires
        is_typing(app.mode),
        key.code == KeyCode::Char(c) || (key.code == KeyCode::Backspace && typed_text(
            app.mode,
        ).len() > 0),
    ensures
        ({
            let (after, effect) = app.handle_key(key, player);
            &&& effect == EffectView::Idle
            &&& after == (AppView { mode: after.mode, ..app })
            &&& is_typed_instead(
                app.mode,
                after.mode,
                if key.code == KeyCode::Backspace {
                    typed_text(app.mode).drop_last()
                } else {
                    typed_text(app.mode).push(c)
                },
            )
        }),
{
    lemma_typing(app, key, player);
    reveal(AppView::typing_key);
}

/// Escape leaves all that was typed.
pub proof fn escape_leaves_what_was_typed(app: AppView, key: Key, player: PlayerStateView)
    requires
        is_typing(app.mode),
        !(app.mode is TagSearch),
        key.code == KeyCode::Esc,
    ensures
        app.handle_key(key, player) == (
            AppView { mode: ModeView::Normal, ..app },
            EffectView::Idle,
        ),
{
    lemma_typing(app, key, player);
    reveal(AppView::typing_key);
}

/// Saved settings are used: the server that is set, and the token, are the client's from then
/// on, and the player is told the token. A failure is told, and changes nothing else.
pub proof fn saved_settings_reach_client_and_player(app: AppView, e: Seq<char>)
    ensures
        ({
            let (after, effect) = app.settings_saved(Ok(()));
            &&& after == (AppView {
                saved_settings: app.settings,
                client: ClientView::new(
                    app.settings.server_url,
                    if app.settings.auth_token.len() == 0 {
                        None
                    } else {
                        Some(app.settings.auth_token)
                    },
                ),
                ..app
            })
            &&& effect matches EffectView::Reconnect(headers)
            &&& app.settings.auth_token.len() == 0 ==> headers.len() == 0
            &&& app.settings.auth_token.len() > 0 ==> headers.len() == 1 && headers[0]
                == "Authorization: Bearer "@ + app.settings.auth_token
        }),
        app.settings_saved(Err(e)) == (
            AppView { status_msg: "save failed: "@ + e, ..app },
            EffectView::Idle,
        ),
{
}

/// The library of another server takes the place of the old one, and all of it is shown with
/// the first line selected; a server that does not answer has none.
pub proof fn another_server_has_another_library(
    app: AppView,
    tracks: Seq<TrackView>,
    e: Seq<char>,
)
    requires
        tracks.len() <= usize::MAX,
    ensures
        ({
            let (after, effect) = app.reconnected(Ok(tracks));
            &&& effect == EffectView::Idle
            &&& shows_all(app, tracks, after.filtered)
            &&& after == (AppView {
                tracks,
                filtered: after.filtered,
                list_state: if tracks.len() == 0 {
                    ListState { offset: 0, selected: None }
                } else {
                    ListState { offset: app.list_state.offset, selected: Some(0) }
                },
                current_tags: Seq::empty(),
                current_tags_for: None,
                status_msg: "saved & reloaded ("@ + text::decimal(tracks.len()) + " tracks)"@,
                ..app
            })
        }),
        app.reconnected(Err(e)) == (
            AppView {
                tracks: Seq::empty(),
                filtered: Seq::empty(),
                list_state: ListState { offset: 0, selected: None },
                current_tags: Seq::empty(),
                current_tags_for: None,
                status_msg: "saved, but connect failed: "@ + e,
                ..app
            },
            EffectView::Idle,
        ),
{
    broadcast use vstd::seq_lib::group_to_multiset_ensures;

    let places = model::all_places(tracks.len());
    let shown = app.reconnected(Ok(tracks)).0.filtered;
    sort::sorted_is_in_order(tracks, app.sort_key, places);
    assert(places.no_duplicates());
    places.lemma_multiset_has_no_duplicates();
    shown.lemma_multiset_has_no_duplicates_conv();
    assert forall|x: usize| #[trigger] shown.contains(x) <==> x < tracks.len() by {
        assert(shown.contains(x) <==> shown.to_multiset().count(x) > 0);
        assert(places.contains(x) <==> places.to_multiset().count(x) > 0);
        if x < tracks.len() {
            assert(places[x as int] == x);
        }
    }
}

/// At the start all tracks are shown as the server gave them, with the first line selected,
/// on the first tab, with nothing else in sight, and the playlists are asked for.
pub proof fn the_client_begins_with_the_songs(
    client: ClientView,
    tracks: Seq<TrackView>,
    s: SettingsView,
    now: u64,
    i: int,
)
    requires
        tracks.len() <= usize::MAX,
    ensures
        ({
            let (app, effect) = AppView::new(client, tracks, s, now);
            &&& effect == EffectView::Call(CallView::Playlists(Next::Rest))
            &&& app.client == client && app.tracks == tracks
            &&& app.settings == s && app.saved_settings == s
            &&& app.filtered.len() == tracks.len()
            &&& 0 <= i < tracks.len() ==> app.filtered[i] == i
            &&& app.list_state.selected == if tracks.len() == 0 {
                None::<usize>
            } else {
                Some(0)
            }
            &&& app.tab == Tab::Songs && app.mode == ModeView::Normal
            &&& app.playlists.len() == 0 && app.playlist_tracks.len() == 0
            &&& app.current_tags.len() == 0 && app.current_tags_for is None
            &&& !app.show_help && !app.show_tags && !app.should_quit && !app.scan_polling
            &&& app.status_msg.len() == 0
        }),
{
}

} // verus!
