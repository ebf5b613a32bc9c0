//! What the keys and the server do to the playlists, on the fields of the state.

use crate::api::{PlaylistTrackView, PlaylistView};
use crate::keys::{Key, KeyCode};
use crate::laws;
use crate::laws::songs;
use crate::lists;
use crate::lists::ListState;
use crate::model;
use crate::model::AppView;
use crate::mpv::{PlayerCommandView, PlayerStateView};
use crate::state::{CallView, EffectView, ModeView, Next, PlaylistsFocus, Tab};
use crate::text;
use vstd::prelude::*;

verus! {

/// Whether the keys act on the list of playlists.
pub open spec fn at_the_playlists(app: AppView) -> bool {
    app.mode == ModeView::Normal && app.tab == Tab::Playlists && app.playlists_focus
        == PlaylistsFocus::List
}

/// Whether the keys act on the tracks of a playlist.
pub open spec fn at_the_tracks(app: AppView) -> bool {
    app.mode == ModeView::Normal && app.tab == Tab::Playlists && app.playlists_focus
        == PlaylistsFocus::Tracks
}

/// Whether a line of the list of playlists is selected.
pub open spec fn playlist_is_selected(app: AppView, i: usize) -> bool {
    app.playlists_state.selected == Some(i) && i < app.playlists.len()
}

/// Whether no playlist is selected.
pub open spec fn no_playlist_is_selected(app: AppView) -> bool {
    !(app.playlists_state.selected matches Some(i) && i < app.playlists.len())
}

/// Whether commands play tracks from a place on: the first is loaded at once and played, and
/// those behind it follow in their order.
pub open spec fn plays_from(
    app: AppView,
    start: int,
    commands: Seq<PlayerCommandView>,
) -> bool {
    let n = app.playlist_tracks.len();
    &&& commands.len() == n - start + 1
    &&& commands[0] == PlayerCommandView::Load(
        songs::stream(app.client, app.playlist_tracks[start].track_id),
    )
    &&& commands[1] == PlayerCommandView::SetPause(false)
    &&& forall|k: int|
        start < k < n ==> commands[k - start + 1] == PlayerCommandView::Enqueue(
            songs::stream(app.client, (#[trigger] app.playlist_tracks[k]).track_id),
        )
}

/// What is said of a playlist that is played.
pub open spec fn playing_text(name: Seq<char>, start: int, n: int) -> Seq<char> {
    "playing "@ + name + " from #"@ + text::decimal((start + 1) as nat) + " ("@ + text::decimal(
        (n - start) as nat,
    ) + " tracks)"@
}

/// A playlist is played from a track on: the track at once, and those behind it in their
/// order.
pub proof fn a_playlist_is_played_in_order(app: AppView, start: usize, p: usize)
    requires
        playlist_is_selected(app, p),
    ensures
        start < app.playlist_tracks.len() ==> {
            let (after, effect) = app.play_selected_playlist(start);
            &&& after == (AppView {
                status_msg: playing_text(
                    app.playlists[p as int].name,
                    start as int,
                    app.playlist_tracks.len() as int,
                ),
                ..app
            })
            &&& effect matches EffectView::Player(commands)
            &&& plays_from(app, start as int, commands)
        },
        app.playlist_tracks.len() == 0 ==> app.play_selected_playlist(start) == (
            AppView { status_msg: "playlist is empty"@, ..app },
            EffectView::Idle,
        ),
{
    if start < app.playlist_tracks.len() {
        let ids = model::track_ids(app.playlist_tracks);
        let rest = model::enqueue(app.client, ids.skip(start + 1));
        let commands = app.play_selected_playlist(start).1->Player_0;
        assert forall|k: int| start < k < app.playlist_tracks.len() implies commands[k - start + 1]
            == PlayerCommandView::Enqueue(
            songs::stream(app.client, (#[trigger] app.playlist_tracks[k]).track_id),
        ) by {
            assert(rest[k - start - 1] == commands[k - start + 1]);
            assert(ids.skip(start + 1)[k - start - 1] == ids[k]);
        }
    }
}

/// "P" plays the selected playlist from its first track on.
pub proof fn capital_p_plays_the_playlist(
    app: AppView,
    key: Key,
    player: PlayerStateView,
    p: usize,
)
    requires
        at_the_playlists(app),
        key.code == KeyCode::Char('P'),
    ensures
        playlist_is_selected(app, p) && app.playlist_tracks.len() > 0 ==> {
            &&& app.handle_key(key, player).0 == (AppView {
                status_msg: playing_text(
                    app.playlists[p as int].name,
                    0,
                    app.playlist_tracks.len() as int,
                ),
                ..app
            })
            &&& app.handle_key(key, player).1 matches EffectView::Player(commands)
            &&& plays_from(app, 0, commands)
        },
        playlist_is_selected(app, p) && app.playlist_tracks.len() == 0 ==> app.handle_key(
            key,
            player,
        ) == (AppView { status_msg: "playlist is empty"@, ..app }, EffectView::Idle),
        no_playlist_is_selected(app) ==> app.handle_key(key, player) == (app, EffectView::Idle),
{
    reveal(AppView::playlists_key);
    if playlist_is_selected(app, p) {
        a_playlist_is_played_in_order(app, 0, p);
    }
}

/// Enter plays a playlist from the selected track on.
pub proof fn enter_plays_from_the_selected_track(
    app: AppView,
    key: Key,
    player: PlayerStateView,
    p: usize,
    start: usize,
)
    requires
        at_the_tracks(app),
        key.code == KeyCode::Enter,
    ensures
        playlist_is_selected(app, p) && app.playlist_tracks_state.selected == Some(start) && start
            < app.playlist_tracks.len() ==> {
            &&& app.handle_key(key, player).0 == (AppView {
                status_msg: playing_text(
                    app.playlists[p as int].name,
                    start as int,
                    app.playlist_tracks.len() as int,
                ),
                ..app
            })
            &&& app.handle_key(key, player).1 matches EffectView::Player(commands)
            &&& plays_from(app, start as int, commands)
        },
        app.playlist_tracks_state.selected is None || no_playlist_is_selected(app)
            ==> app.handle_key(key, player) == (app, EffectView::Idle),
{
    reveal(AppView::playlists_key);
    if playlist_is_selected(app, p) {
        a_playlist_is_played_in_order(app, start, p);
    }
}

/// "a" puts the selected track of a playlist behind the queue and says so.
pub proof fn a_queues_the_selected_track(
    app: AppView,
    key: Key,
    player: PlayerStateView,
    i: usize,
)
    requires
        at_the_tracks(app),
        key.code == KeyCode::Char('a'),
    ensures
        app.playlist_tracks_state.selected == Some(i) && i < app.playlist_tracks.len() ==> {
            let t = app.playlist_tracks[i as int];
            &&& app.handle_key(key, player).0 == (AppView {
                status_msg: "queued: "@ + t.display_artist() + " — "@ + t.display_title(),
                ..app
            })
            &&& app.handle_key(key, player).1 matches EffectView::Player(commands)
            &&& commands.len() == 1
            &&& commands[0] == PlayerCommandView::Enqueue(songs::stream(app.client, t.track_id))
        },
        !(app.playlist_tracks_state.selected matches Some(k) && k < app.playlist_tracks.len())
            ==> app.handle_key(key, player) == (app, EffectView::Idle),
{
    reveal(AppView::playlists_key);
}

/// "d" asks the server to take the selected track out of the selected playlist.
pub proof fn d_removes_the_selected_track(
    app: AppView,
    key: Key,
    player: PlayerStateView,
    p: usize,
    i: usize,
)
    requires
        at_the_tracks(app),
        key.code == KeyCode::Char('d'),
    ensures
        app.handle_key(key, player).0 == app,
        playlist_is_selected(app, p) && app.playlist_tracks_state.selected == Some(i) && i
            < app.playlist_tracks.len() ==> app.handle_key(key, player).1 == EffectView::Call(
            (CallView::RemoveFromPlaylist {
                playlist: app.playlists[p as int].id,
                track: app.playlist_tracks[i as int].track_id,
            }),
        ),
        no_playlist_is_selected(app) || !(app.playlist_tracks_state.selected matches Some(k) && k
            < app.playlist_tracks.len()) ==> app.handle_key(key, player).1 == EffectView::Idle,
{
    reveal(AppView::playlists_key);
}

/// "J" and "K" put the selected track one place down and up. It changes places with its
/// neighbour, stays selected, all positions are counted anew, and the server is told the
/// numbers of the tracks in their new order. At the end of the list nothing happens.
pub proof fn capital_j_and_k_move_the_selected_track(
    app: AppView,
    key: Key,
    player: PlayerStateView,
    p: usize,
    i: usize,
)
    requires
        at_the_tracks(app),
        key.code == KeyCode::Char('J') || key.code == KeyCode::Char('K'),
        playlist_is_selected(app, p),
        app.playlist_tracks_state.selected == Some(i),
        i < app.playlist_tracks.len(),
    ensures
        ({
            let to: int = if key.code == KeyCode::Char('J') {
                i + 1
            } else {
                i - 1
            };
            let n = app.playlist_tracks.len();
            let (after, effect) = app.handle_key(key, player);
            &&& !(0 <= to < n) ==> (after, effect) == (app, EffectView::Idle)
            &&& 0 <= to < n ==> {
                &&& after == (AppView {
                    playlist_tracks: after.playlist_tracks,
                    playlist_tracks_state: ListState {
                        selected: Some(to as usize),
                        ..app.playlist_tracks_state
                    },
                    ..app
                })
                &&& after.playlist_tracks.len() == n
                &&& effect matches EffectView::Call(CallView::SetPlaylistTracks(id, ids))
                &&& id == app.playlists[p as int].id
                &&& ids.len() == n
                &&& forall|k: int|
                    0 <= k < n ==> {
                        let from: int = if k == i {
                            to
                        } else if k == to {
                            i as int
                        } else {
                            k
                        };
                        #[trigger] after.playlist_tracks[k] == (PlaylistTrackView {
                            position: k as i64,
                            ..app.playlist_tracks[from]
                        }) && ids[k] == app.playlist_tracks[from].track_id
                    }
            }
        }),
{
    reveal(AppView::playlists_key);
}

/// Without a selected playlist, or a selected track, no track of it is moved.
pub proof fn without_a_selection_no_track_is_moved(app: AppView, key: Key, player: PlayerStateView)
    requires
        at_the_tracks(app),
        key.code == KeyCode::Char('J') || key.code == KeyCode::Char('K'),
        no_playlist_is_selected(app) || app.playlist_tracks_state.selected is None,
    ensures
        app.handle_key(key, player) == (app, EffectView::Idle),
{
    reveal(AppView::playlists_key);
}

/// The state without tracks of a playlist.
pub open spec fn without_tracks(app: AppView) -> AppView {
    AppView {
        playlist_tracks: Seq::empty(),
        playlist_tracks_for: None,
        playlist_tracks_state: ListState { offset: 0, selected: None },
        ..app
    }
}

/// Without a selected playlist there are no tracks of one, once they are asked for.
pub proof fn without_a_playlist_there_are_no_tracks(
    app: AppView,
    key: Key,
    player: PlayerStateView,
    id: i64,
    name: Seq<char>,
    e: Seq<char>,
)
    requires
        no_playlist_is_selected(app),
    ensures
        at_the_playlists(app) && key.code == KeyCode::Enter ==> app.handle_key(key, player) == (
            AppView { playlists_focus: PlaylistsFocus::Tracks, ..without_tracks(app) },
            EffectView::Idle,
        ),
        app.removed_from_playlist(Ok(())) == (
            AppView { status_msg: "removed from playlist"@, ..without_tracks(app) },
            EffectView::Call(CallView::Playlists(Next::Rest)),
        ),
        app.playlist_tracks_for == Some(id) ==> app.added_to_playlist(id, name, Ok(())) == (
            AppView { status_msg: "added to "@ + name, ..without_tracks(app) },
            EffectView::Call(CallView::Playlists(Next::Rest)),
        ),
        app.playlist_tracks_for != Some(id) ==> app.added_to_playlist(id, name, Ok(())) == (
            AppView { status_msg: "added to "@ + name, ..app },
            EffectView::Call(CallView::Playlists(Next::Rest)),
        ),
        app.playlist_tracks_set(Err(e)) == (
            AppView { status_msg: "reorder failed: "@ + e, ..without_tracks(app) },
            EffectView::Idle,
        ),
{
    reveal(AppView::playlists_key);
}

/// The list of playlists: "N" begins the name of a new one, "r" another name for the selected
/// one with the name that it has, and "D" asks the server to delete the selected one.
pub proof fn playlists_are_made_renamed_and_deleted(
    app: AppView,
    key: Key,
    player: PlayerStateView,
    p: usize,
)
    requires
        at_the_playlists(app),
    ensures
        key.code == KeyCode::Char('N') ==> app.handle_key(key, player) == (
            AppView { mode: ModeView::NewPlaylist(Seq::empty()), ..app },
            EffectView::Idle,
        ),
        key.code == KeyCode::Char('r') && playlist_is_selected(app, p) ==> app.handle_key(
            key,
            player,
        ) == (
            AppView {
                mode: ModeView::RenamePlaylist(
                    app.playlists[p as int].id,
                    app.playlists[p as int].name,
                ),
                ..app
            },
            EffectView::Idle,
        ),
        key.code == KeyCode::Char('D') && playlist_is_selected(app, p) ==> app.handle_key(
            key,
            player,
        ) == (
            app,
            EffectView::Call(
                CallView::DeletePlaylist(app.playlists[p as int].id, app.playlists[p as int].name),
            ),
        ),
        (key.code == KeyCode::Char('r') || key.code == KeyCode::Char('D'))
            && no_playlist_is_selected(app) ==> app.handle_key(key, player) == (
            app,
            EffectView::Idle,
        ),
{
    reveal(AppView::playlists_key);
}

/// A name that was typed is sent to the server without the blanks around it; a name that is
/// nothing else is not sent.
pub proof fn typed_names_are_sent(
    app: AppView,
    id: i64,
    buf: Seq<char>,
    key: Key,
    player: PlayerStateView,
)
    requires
        key.code == KeyCode::Enter,
    ensures
        app.mode == ModeView::NewPlaylist(buf) ==> app.handle_key(key, player) == (
            if text::trim(buf).len() == 0 {
                (
                    AppView {
                        mode: ModeView::Normal,
                        status_msg: "playlist name is empty"@,
                        ..app
                    },
                    EffectView::Idle,
                )
            } else {
                (
                    AppView { mode: ModeView::Normal, ..app },
                    EffectView::Call(CallView::CreatePlaylist(text::trim(buf))),
                )
            }),
        app.mode == ModeView::RenamePlaylist(id, buf) ==> app.handle_key(key, player) == (
            if text::trim(buf).len() == 0 {
                (
                    AppView { mode: ModeView::Normal, status_msg: "name is empty"@, ..app },
                    EffectView::Idle,
                )
            } else {
                (
                    AppView { mode: ModeView::Normal, ..app },
                    EffectView::Call(CallView::RenamePlaylist(id, text::trim(buf))),
                )
            }),
{
    reveal(AppView::typing_key);
}

/// In the picker Enter adds the track to the playlist on the selected line; Escape adds it to
/// none, and "j" and "k" go one line down and up.
pub proof fn the_picker_adds_to_the_playlist_on_its_line(
    app: AppView,
    key: Key,
    player: PlayerStateView,
    index: usize,
    track_id: i64,
)
    requires
        app.mode == (ModeView::PickPlaylist { index, track_id }),
        app.playlists.len() <= usize::MAX,
    ensures
        key.code == KeyCode::Enter && index < app.playlists.len() ==> app.handle_key(key, player)
            == (
            AppView { mode: ModeView::Normal, ..app },
            EffectView::Call(
                (CallView::AddToPlaylist {
                    playlist: app.playlists[index as int].id,
                    track: track_id,
                    name: app.playlists[index as int].name,
                }),
            ),
        ),
        key.code == KeyCode::Enter && index >= app.playlists.len() ==> app.handle_key(key, player)
            == (
            AppView {
                mode: ModeView::Normal,
                status_msg: "no playlists — create one first (Playlists tab)"@,
                ..app
            },
            EffectView::Idle,
        ),
        key.code == KeyCode::Esc ==> app.handle_key(key, player) == (
            AppView { mode: ModeView::Normal, ..app },
            EffectView::Idle,
        ),
        (key.code == KeyCode::Char('j') || key.code == KeyCode::Down) && index
            < app.playlists.len() ==> app.handle_key(key, player) == (
            AppView {
                mode: ModeView::PickPlaylist {
                    index: songs::between(index + 1, app.playlists.len()) as usize,
                    track_id,
                },
                ..app
            },
            EffectView::Idle,
        ),
        (key.code == KeyCode::Char('k') || key.code == KeyCode::Up) && index < app.playlists.len()
            ==> app.handle_key(key, player) == (
            AppView {
                mode: ModeView::PickPlaylist {
                    index: songs::between(index - 1, app.playlists.len()) as usize,
                    track_id,
                },
                ..app
            },
            EffectView::Idle,
        ),
{
}

/// Tab goes from the list of playlists to the tracks, and Tab and Escape back. Enter goes to
/// the tracks too, and asks for those of the selected playlist.
pub proof fn the_panes_can_be_changed(
    app: AppView,
    key: Key,
    player: PlayerStateView,
    p: usize,
)
    ensures
        at_the_playlists(app) && key.code == KeyCode::Tab ==> app.handle_key(key, player) == (
            AppView { playlists_focus: PlaylistsFocus::Tracks, ..app },
            EffectView::Idle,
        ),
        at_the_tracks(app) && (key.code == KeyCode::Tab || (key.code == KeyCode::Esc
            && !app.show_help && !app.show_tags)) ==> app.handle_key(key, player) == (
            AppView { playlists_focus: PlaylistsFocus::List, ..app },
            EffectView::Idle,
        ),
        at_the_playlists(app) && key.code == KeyCode::Enter && playlist_is_selected(app, p)
            ==> app.handle_key(key, player) == (
            AppView { playlists_focus: PlaylistsFocus::Tracks, ..app },
            EffectView::Call(CallView::PlaylistTracks(app.playlists[p as int].id, Next::Rest)),
        ),
{
    reveal(AppView::playlists_key);
}

/// The state with another playlist selected, whose tracks are asked for.
pub open spec fn on_playlist(app: AppView, i: int) -> (AppView, EffectView) {
    (
        AppView {
            playlists_state: ListState { selected: Some(i as usize), ..app.playlists_state },
            ..app
        },
        EffectView::Call(CallView::PlaylistTracks(app.playlists[i].id, Next::Rest)),
    )
}

/// "j" and "k" select the playlist below and above, "g" and "G" the first and the last, and
/// the tracks of the one that is selected then are asked for. At the end of the list "j" and
/// "k" do nothing.
pub proof fn keys_move_along_the_playlists(app: AppView, key: Key, player: PlayerStateView)
    requires
        at_the_playlists(app),
        app.playlists_state.selected matches Some(i) ==> i < app.playlists.len(),
        app.playlists.len() <= usize::MAX,
    ensures
        ({
            let len = app.playlists.len();
            let i: int = match app.playlists_state.selected {
                Some(i) => i as int,
                None => 0,
            };
            let r = app.handle_key(key, player);
            let goes = |to: int|
                r == if app.playlists_state.selected == Some(to as usize) {
                    (app, EffectView::Idle)
                } else {
                    on_playlist(app, to)
                };
            let down = key.code == KeyCode::Char('j') || key.code == KeyCode::Down;
            let up = key.code == KeyCode::Char('k') || key.code == KeyCode::Up;
            let top = key.code == KeyCode::Char('g') || key.code == KeyCode::Home;
            let bottom = key.code == KeyCode::Char('G') || key.code == KeyCode::End;
            &&& len > 0 && down ==> goes(songs::between(i + 1, len))
            &&& len > 0 && up ==> goes(songs::between(i - 1, len))
            &&& len > 0 && top ==> r == on_playlist(app, 0)
            &&& len > 0 && bottom ==> r == on_playlist(app, len - 1)
            &&& len == 0 && (down || up || top || bottom) ==> r == (app, EffectView::Idle)
        }),
{
    reveal(AppView::playlists_key);
}

/// The state with another track of a playlist selected, and nothing to do.
pub open spec fn on_track(app: AppView, i: int) -> (AppView, EffectView) {
    (
        AppView {
            playlist_tracks_state: ListState {
                selected: Some(i as usize),
                ..app.playlist_tracks_state
            },
            ..app
        },
        EffectView::Idle,
    )
}

/// "j" and "k" go one track of a playlist down and up, "g" and "G" to the first and the last.
pub proof fn keys_move_along_the_tracks(app: AppView, key: Key, player: PlayerStateView)
    requires
        at_the_tracks(app),
        app.playlist_tracks_state.selected matches Some(i) ==> i < app.playlist_tracks.len(),
    ensures
        ({
            let len = app.playlist_tracks.len();
            let i: int = match app.playlist_tracks_state.selected {
                Some(i) => i as int,
                None => 0,
            };
            let r = app.handle_key(key, player);
            let down = key.code == KeyCode::Char('j') || key.code == KeyCode::Down;
            let up = key.code == KeyCode::Char('k') || key.code == KeyCode::Up;
            let top = key.code == KeyCode::Char('g') || key.code == KeyCode::Home;
            let bottom = key.code == KeyCode::Char('G') || key.code == KeyCode::End;
            &&& len > 0 && down ==> r == on_track(app, songs::between(i + 1, len))
            &&& len > 0 && up ==> r == on_track(app, songs::between(i - 1, len))
            &&& len > 0 && top ==> r == on_track(app, 0)
            &&& len > 0 && bottom ==> r == on_track(app, len - 1)
            &&& len == 0 && (down || up || top || bottom) ==> r == (app, EffectView::Idle)
        }),
{
    reveal(AppView::playlists_key);
}

/// What follows once playlists or tracks are there.
pub open spec fn follows(app: AppView, next: Next) -> (AppView, EffectView) {
    match next {
        Next::Rest => (app, EffectView::Idle),
        Next::ReloadPlaylists => (app, EffectView::Call(CallView::Playlists(Next::Rest))),
        Next::SelectPlaylist(id) => app.finish(next),
    }
}

/// The tracks that the server tells are those of the playlist that was asked for, with the
/// first one selected; a failure leaves none, and is told.
pub proof fn told_tracks_are_kept(
    app: AppView,
    id: i64,
    tracks: Seq<PlaylistTrackView>,
    e: Seq<char>,
    next: Next,
)
    ensures
        app.playlist_tracks_loaded(id, Ok(tracks), next) == follows(
            AppView {
                playlist_tracks: tracks,
                playlist_tracks_for: Some(id),
                playlist_tracks_state: if tracks.len() == 0 {
                    ListState { offset: 0, selected: None }
                } else {
                    ListState { selected: Some(0), ..app.playlist_tracks_state }
                },
                ..app
            },
            next,
        ),
        app.playlist_tracks_loaded(id, Err(e), next) == follows(
            AppView {
                playlist_tracks: Seq::empty(),
                playlist_tracks_for: Some(id),
                playlist_tracks_state: ListState { offset: 0, selected: None },
                status_msg: "playlist tracks: "@ + e,
                ..app
            },
            next,
        ),
{
}

/// A playlist is selected by its number: the first one that has it is, and its tracks are
/// asked for. Where none has it, nothing happens.
pub proof fn a_playlist_is_selected_by_its_number(app: AppView, id: i64, k: usize)
    requires
        app.playlists.len() <= usize::MAX,
    ensures
        k < app.playlists.len() && app.playlists[k as int].id == id && (forall|j: int|
            0 <= j < k ==> (#[trigger] app.playlists[j]).id != id) ==> app.finish(
            Next::SelectPlaylist(id),
        ) == on_playlist(app, k as int),
        (forall|j: int| 0 <= j < app.playlists.len() ==> (#[trigger] app.playlists[j]).id != id)
            ==> app.finish(Next::SelectPlaylist(id)) == (app, EffectView::Idle),
{
    lemma_first_with_the_number(app.playlists, id, k);
}

proof fn lemma_first_with_the_number(playlists: Seq<PlaylistView>, id: i64, k: usize)
    requires
        playlists.len() <= usize::MAX,
    ensures
        k < playlists.len() && playlists[k as int].id == id && (forall|j: int|
            0 <= j < k ==> (#[trigger] playlists[j]).id != id) ==> lists::place_of(
            model::playlist_ids(playlists),
            id,
        ) == Some(k),
        (forall|j: int| 0 <= j < playlists.len() ==> (#[trigger] playlists[j]).id != id)
            ==> lists::place_of(model::playlist_ids(playlists), id) is None,
{
    let ids = model::playlist_ids(playlists);
    laws::lemma_place_from(ids, id, 0);
    let i: int = lists::place_from(ids, id, 0);
    assert forall|j: int| 0 <= j < playlists.len() implies ids[j] == (
    #[trigger] playlists[j]).id by {}
    if i < ids.len() {
        assert(ids[i] == playlists[i].id);
    }
    if k < playlists.len() {
        assert(ids[k as int] == playlists[k as int].id);
    }
}

/// The playlists that the server tells are kept. The one that was selected stays selected,
/// told by its number, else the first one is, and its tracks are asked for; without playlists
/// there are no tracks. A failure is told, and changes nothing else.
pub proof fn told_playlists_are_kept(
    app: AppView,
    playlists: Seq<PlaylistView>,
    e: Seq<char>,
    p: usize,
    k: usize,
    next: Next,
)
    requires
        playlists.len() <= usize::MAX,
    ensures
        playlist_is_selected(app, p) && k < playlists.len() && playlists[k as int].id
            == app.playlists[p as int].id && (forall|j: int|
            0 <= j < k ==> (#[trigger] playlists[j]).id != app.playlists[p as int].id)
            ==> app.playlists_loaded(Ok(playlists), next) == (
            AppView {
                playlists,
                playlists_state: ListState { selected: Some(k), ..app.playlists_state },
                ..app
            },
            EffectView::Call(CallView::PlaylistTracks(playlists[k as int].id, next)),
        ),
        playlists.len() > 0 && (no_playlist_is_selected(app) || (playlist_is_selected(app, p) && (
        forall|j: int|
            0 <= j < playlists.len() ==> (#[trigger] playlists[j]).id
                != app.playlists[p as int].id))) ==> app.playlists_loaded(Ok(playlists), next) == (
            AppView {
                playlists,
                playlists_state: ListState { selected: Some(0), ..app.playlists_state },
                ..app
            },
            EffectView::Call(CallView::PlaylistTracks(playlists[0].id, next)),
        ),
        playlists.len() == 0 ==> app.playlists_loaded(Ok(playlists), next) == follows(
            AppView {
                playlists,
                playlists_state: ListState { offset: 0, selected: None },
                playlist_tracks: Seq::empty(),
                playlist_tracks_for: None,
                playlist_tracks_state: ListState { offset: 0, selected: None },
                ..app
            },
            next,
        ),
        app.playlists_loaded(Err(e), next) == follows(
            AppView { status_msg: "playlists: "@ + e, ..app },
            next,
        ),
{
    if let Some(i) = app.playlists_state.selected {
        lemma_first_with_the_number(playlists, app.playlists[i as int].id, k);
    }
}

/// After a playlist was made, renamed or deleted all are asked for anew and what was done is
/// told; a new one is selected then, and after a deletion none is. A failure is told, and
/// changes nothing else.
pub proof fn changed_playlists_are_asked_for_anew(
    app: AppView,
    p: PlaylistView,
    name: Seq<char>,
    e: Seq<char>,
)
    ensures
        app.playlist_created(Ok(p)) == (
            AppView { status_msg: "created playlist "@ + p.name, ..app },
            EffectView::Call(CallView::Playlists(Next::SelectPlaylist(p.id))),
        ),
        app.playlist_created(Err(e)) == (
            AppView { status_msg: "create failed: "@ + e, ..app },
            EffectView::Idle,
        ),
        app.playlist_renamed(Ok(())) == (
            AppView { status_msg: "renamed"@, ..app },
            EffectView::Call(CallView::Playlists(Next::Rest)),
        ),
        app.playlist_renamed(Err(e)) == (
            AppView { status_msg: "rename failed: "@ + e, ..app },
            EffectView::Idle,
        ),
        app.playlist_deleted(name, Ok(())) == (
            AppView {
                playlists_state: ListState { offset: 0, selected: None },
                playlist_tracks_for: None,
                status_msg: "deleted "@ + name,
                ..app
            },
            EffectView::Call(CallView::Playlists(Next::Rest)),
        ),
        app.playlist_deleted(name, Err(e)) == (
            AppView { status_msg: "delete failed: "@ + e, ..app },
            EffectView::Idle,
        ),
{
}

/// After a track was added to a playlist or taken out of it, what is shown of it is asked for
/// anew: its tracks where they are shown, and then the playlists.
pub proof fn a_changed_playlist_is_asked_for_anew(
    app: AppView,
    p: usize,
    id: i64,
    name: Seq<char>,
    e: Seq<char>,
)
    requires
        playlist_is_selected(app, p),
    ensures
        app.removed_from_playlist(Ok(())) == (
            AppView { status_msg: "removed from playlist"@, ..app },
            EffectView::Call(
                CallView::PlaylistTracks(app.playlists[p as int].id, Next::ReloadPlaylists),
            ),
        ),
        app.removed_from_playlist(Err(e)) == (
            AppView { status_msg: "remove failed: "@ + e, ..app },
            EffectView::Idle,
        ),
        app.playlist_tracks_for == Some(id) ==> app.added_to_playlist(id, name, Ok(())) == (
            AppView { status_msg: "added to "@ + name, ..app },
            EffectView::Call(
                CallView::PlaylistTracks(app.playlists[p as int].id, Next::ReloadPlaylists),
            ),
        ),
        app.playlist_tracks_for != Some(id) ==> app.added_to_playlist(id, name, Ok(())) == (
            AppView { status_msg: "added to "@ + name, ..app },
            EffectView::Call(CallView::Playlists(Next::Rest)),
        ),
        app.added_to_playlist(id, name, Err(e)) == (
            AppView { status_msg: "add failed: "@ + e, ..app },
            EffectView::Idle,
        ),
        app.playlist_tracks_set(Ok(())) == (app, EffectView::Idle),
        app.playlist_tracks_set(Err(e)) == (
            AppView { status_msg: "reorder failed: "@ + e, ..app },
            EffectView::Call(CallView::PlaylistTracks(app.playlists[p as int].id, Next::Rest)),
        ),
{
}

/// What is shown of a track of a playlist comes from its fields: the title, and the artist,
/// else that of the album, else a dash.
pub proof fn tracks_of_playlists_are_shown_by_their_fields(t: PlaylistTrackView)
    ensures
        t.title matches Some(title) ==> t.display_title() == title,
        t.title is None ==> t.display_title() == "(untitled)"@,
        t.artist matches Some(artist) ==> t.display_artist() == artist,
        t.artist is None && t.album_artist is Some ==> Some(t.display_artist()) == t.album_artist,
        t.artist is None && t.album_artist is None ==> t.display_artist() == "—"@,
{
}

} // verus!
