//! What the keys do in the list of songs, on the fields of the state.

use crate::api::{ClientView, TrackView};
use crate::keys::{Key, KeyCode};
use crate::laws;
use crate::laws::sorting;
use crate::lists;
use crate::lists::ListState;
use crate::model;
use crate::model::AppView;
use crate::mpv::{PlayerCommandView, PlayerStateView};
use crate::order::SortKey;
use crate::sort;
use crate::state::{CallView, EffectView, ModeView, Tab};
use crate::text;
use vstd::prelude::*;

verus! {

/// Whether the keys act on the list of songs.
pub open spec fn at_the_songs(app: AppView) -> bool {
    app.mode == ModeView::Normal && app.tab == Tab::Songs && !app.show_tags
}

/// The address from which the server streams a track.
pub open spec fn stream(client: ClientView, id: i64) -> Seq<char> {
    client.base + ("/api/tracks/"@ + text::decimal_int(id as int)) + "/stream"@
}

/// The track that a line of the list shows.
pub open spec fn track_on_line(app: AppView, i: usize) -> TrackView {
    app.tracks[app.filtered[i as int] as int]
}

/// Whether a line of the list is selected, and shows a track.
pub open spec fn line_is_selected(app: AppView, i: usize) -> bool {
    &&& app.list_state.selected == Some(i)
    &&& i < app.filtered.len()
    &&& app.filtered[i as int] < app.tracks.len()
}

/// Whether no line of the list is selected that shows a track.
pub open spec fn no_line_is_selected(app: AppView) -> bool {
    match app.list_state.selected {
        Some(i) => i >= app.filtered.len() || app.filtered[i as int] >= app.tracks.len(),
        None => true,
    }
}

/// The text in which a filter looks: artist, title and album, with a space between them.
pub open spec fn text_of(t: TrackView) -> Seq<char> {
    sorting::artist_of(t) + " "@ + sorting::title_of(t) + " "@ + sorting::album_of(t)
}

/// Whether one text stands somewhere in another.
pub open spec fn stands_in(part: Seq<char>, whole: Seq<char>) -> bool {
    exists|i: int|
        0 <= i <= whole.len() - part.len() && #[trigger] whole.subrange(i, i + part.len()) == part
}

/// Whether a list shows the tracks whose text, all in small letters, holds what is looked
/// for, in small letters too: each once, in the order of the sort key, with the first line
/// selected.
pub open spec fn shows_what_holds(before: AppView, after: AppView, q: Seq<char>) -> bool {
    &&& forall|x: usize|
        #[trigger] after.filtered.contains(x) <==> x < before.tracks.len() && (q.len() == 0
            || stands_in(text::lowercase(q), text::lowercase(text_of(before.tracks[x as int]))))
    &&& after.filtered.no_duplicates()
    &&& sort::in_order(before.tracks, before.sort_key, after.filtered)
    &&& after.filtered.len() > 0 ==> after.list_state == (ListState {
        selected: Some(0),
        ..before.list_state
    })
    &&& after.filtered.len() == 0 ==> after.list_state == (ListState { offset: 0, selected: None })
    &&& after == (AppView {
        mode: after.mode,
        filtered: after.filtered,
        list_state: after.list_state,
        ..before
    })
}

proof fn lemma_filter(app: AppView, q: Seq<char>)
    requires
        app.tracks.len() <= usize::MAX,
    ensures
        shows_what_holds(app, app.apply_filter(q), q),
        app.apply_filter(q).mode == app.mode,
{
    broadcast use vstd::seq_lib::group_to_multiset_ensures;

    laws::a_filter_shows_what_passes(app, q);
    sort::sorted_is_in_order(app.tracks, app.sort_key, model::passing(app.tracks, q));
    assert forall|x: usize| x < app.tracks.len() implies (model::passes(app.tracks[x as int], q)
        <==> q.len() == 0 || #[trigger] stands_in(
        text::lowercase(q),
        text::lowercase(text_of(app.tracks[x as int])),
    )) by {
        lemma_stands_in(text::lowercase(q), text::lowercase(text_of(app.tracks[x as int])));
    }
    let after = app.apply_filter(q);
    assert forall|x: usize|
        #[trigger] after.filtered.contains(x) <==> x < app.tracks.len() && (q.len() == 0
            || stands_in(text::lowercase(q), text::lowercase(text_of(app.tracks[x as int])))) by {
        if x < app.tracks.len() {
            assert(model::passes(app.tracks[x as int], q) <==> q.len() == 0 || stands_in(
                text::lowercase(q),
                text::lowercase(text_of(app.tracks[x as int])),
            ));
        }
    }
}

proof fn lemma_stands_in(part: Seq<char>, whole: Seq<char>)
    ensures
        stands_in(part, whole) == text::occurs(part, whole),
{
    if stands_in(part, whole) {
        let i: int = choose|i: int|
            0 <= i <= whole.len() - part.len() && #[trigger] whole.subrange(i, i + part.len())
                == part;
        assert(whole.subrange(i, i + part.len()) == part);
    }
    if text::occurs(part, whole) {
        let i: int = choose|i: int|
            0 <= i && i + part.len() <= whole.len() && #[trigger] whole.subrange(
                i,
                i + part.len(),
            ) == part;
        assert(whole.subrange(i, i + part.len()) == part);
    }
}

/// A filter shows a track exactly where what is looked for, in small letters, stands in the
/// text "artist title album" of the track, taken as a whole in small letters.
pub proof fn a_filter_looks_at_artist_title_and_album(app: AppView, q: Seq<char>, x: usize)
    requires
        app.tracks.len() <= usize::MAX,
        x < app.tracks.len(),
        q.len() > 0,
    ensures
        app.apply_filter(q).filtered.contains(x) <==> ({
            let t = app.tracks[x as int];
            let all = text::lowercase(
                t.display_artist() + " "@ + t.display_title() + " "@ + t.display_album(),
            );
            exists|i: int|
                0 <= i <= all.len() - text::lowercase(q).len() && #[trigger] all.subrange(
                    i,
                    i + text::lowercase(q).len(),
                ) == text::lowercase(q)
        }),
{
    lemma_filter(app, q);
    sorting::tracks_are_shown_by_their_fields(app.tracks[x as int]);
    assert(stands_in(text::lowercase(q), text::lowercase(text_of(app.tracks[x as int])))
        <==> app.apply_filter(q).filtered.contains(x));
}

/// A track is shown where its own album, artist or title is looked for, however it is
/// written, as long as the small letters of it stand in those of the whole text.
pub proof fn a_track_is_found_by_what_is_shown_of_it(app: AppView, x: usize)
    requires
        app.tracks.len() <= usize::MAX,
        x < app.tracks.len(),
    ensures
        ({
            let t = app.tracks[x as int];
            let all = text::lowercase(text_of(t));
            &&& t.album matches Some(album) ==> stands_in(text::lowercase(album), all)
                ==> app.apply_filter(album).filtered.contains(x)
            &&& t.artist matches Some(artist) ==> stands_in(text::lowercase(artist), all)
                ==> app.apply_filter(artist).filtered.contains(x)
            &&& t.title matches Some(title) ==> stands_in(text::lowercase(title), all)
                ==> app.apply_filter(title).filtered.contains(x)
        }),
{
    let t = app.tracks[x as int];
    if let Some(album) = t.album {
        lemma_filter(app, album);
    }
    if let Some(artist) = t.artist {
        lemma_filter(app, artist);
    }
    if let Some(title) = t.title {
        lemma_filter(app, title);
    }
}

/// While a filter is typed, the list shows what holds it after every key; leaving it out
/// shows everything again, and entering it leaves the list as it is.
pub proof fn a_filter_acts_while_it_is_typed(
    app: AppView,
    buf: Seq<char>,
    key: Key,
    player: PlayerStateView,
)
    requires
        app.mode == ModeView::Filter(buf),
        app.tracks.len() <= usize::MAX,
    ensures
        ({
            let (after, effect) = app.handle_key(key, player);
            &&& effect == EffectView::Idle
            &&& key.code matches KeyCode::Char(c) ==> after.mode == ModeView::Filter(buf.push(c))
                && shows_what_holds(app, after, buf.push(c))
            &&& key.code == KeyCode::Backspace && buf.len() > 0 ==> after.mode == ModeView::Filter(
                buf.drop_last(),
            ) && shows_what_holds(app, after, buf.drop_last())
            &&& key.code == KeyCode::Backspace && buf.len() == 0 ==> after.mode == app.mode
                && shows_what_holds(app, after, buf)
            &&& key.code == KeyCode::Enter ==> after == (AppView { mode: ModeView::Normal, ..app })
            &&& key.code == KeyCode::Esc ==> after.mode == ModeView::Normal && shows_what_holds(
                app,
                after,
                Seq::empty(),
            )
            &&& !(key.code is Char) && key.code != KeyCode::Backspace && key.code != KeyCode::Enter
                && key.code != KeyCode::Esc ==> after == app
        }),
{
    let after = app.handle_key(key, player).0;
    lemma_filter(AppView { mode: after.mode, ..app }, Seq::empty());
    lemma_filter(AppView { mode: after.mode, ..app }, buf);
    if let KeyCode::Char(c) = key.code {
        lemma_filter(AppView { mode: after.mode, ..app }, buf.push(c));
    }
    if buf.len() > 0 {
        lemma_filter(AppView { mode: after.mode, ..app }, buf.drop_last());
    }
}

/// Escape in the list of songs shows everything again.
pub proof fn escape_shows_all_songs(app: AppView, key: Key, player: PlayerStateView)
    requires
        at_the_songs(app),
        !app.show_help,
        key.code == KeyCode::Esc,
        app.tracks.len() <= usize::MAX,
    ensures
        app.handle_key(key, player).1 == EffectView::Idle,
        app.handle_key(key, player).0.mode == ModeView::Normal,
        shows_what_holds(app, app.handle_key(key, player).0, Seq::empty()),
{
    reveal(AppView::songs_key);
    lemma_filter(app, Seq::empty());
}

/// Enter plays the track on the selected line at once, and nothing where no line is selected.
pub proof fn enter_plays_the_selected_line(
    app: AppView,
    key: Key,
    player: PlayerStateView,
    i: usize,
)
    requires
        at_the_songs(app),
        key.code == KeyCode::Enter,
    ensures
        app.handle_key(key, player).0 == app,
        line_is_selected(app, i) ==> (app.handle_key(key, player).1 matches EffectView::Player(
            commands,
        ) && {
            &&& commands.len() == 2
            &&& commands[0] == PlayerCommandView::Load(
                stream(app.client, track_on_line(app, i).id),
            )
            &&& commands[1] == PlayerCommandView::SetPause(false)
        }),
        no_line_is_selected(app) ==> app.handle_key(key, player).1 == EffectView::Idle,
{
    reveal(AppView::songs_key);
}

/// "a" puts the track on the selected line behind the queue, says so, and does nothing where
/// no line is selected.
pub proof fn a_queues_the_selected_line(app: AppView, key: Key, player: PlayerStateView, i: usize)
    requires
        at_the_songs(app),
        key.code == KeyCode::Char('a'),
    ensures
        line_is_selected(app, i) ==> {
            let t = track_on_line(app, i);
            &&& app.handle_key(key, player).0 == (AppView {
                status_msg: "queued: "@ + sorting::artist_of(t) + " — "@ + sorting::title_of(t),
                ..app
            })
            &&& app.handle_key(key, player).1 matches EffectView::Player(commands)
            &&& commands.len() == 1
            &&& commands[0] == PlayerCommandView::Enqueue(stream(app.client, t.id))
        },
        no_line_is_selected(app) ==> app.handle_key(key, player) == (
            app,
            EffectView::Idle,
        ),
{
    reveal(AppView::songs_key);
}

/// "E" puts all shown tracks behind the queue, in the order in which they are shown.
pub proof fn e_queues_what_is_shown_in_order(app: AppView, key: Key, player: PlayerStateView)
    requires
        at_the_songs(app),
        key.code == KeyCode::Char('E'),
    ensures
        app.filtered.len() > 0 ==> {
            &&& app.handle_key(key, player).0 == (AppView {
                status_msg: "queued "@ + text::decimal(app.filtered.len()) + " tracks"@,
                ..app
            })
            &&& app.handle_key(key, player).1 matches EffectView::Player(commands)
            &&& commands.len() == app.filtered.len()
            &&& forall|k: int|
                0 <= k < app.filtered.len() ==> #[trigger] commands[k]
                    == PlayerCommandView::Enqueue(
                    stream(app.client, app.tracks[app.filtered[k] as int].id),
                )
        },
        app.filtered.len() == 0 ==> app.handle_key(key, player) == (
            AppView { status_msg: "nothing to queue"@, ..app },
            EffectView::Idle,
        ),
{
    reveal(AppView::songs_key);
}

/// "A" asks for a playlist to which the track on the selected line is to be added.
pub proof fn capital_a_asks_for_a_playlist(
    app: AppView,
    key: Key,
    player: PlayerStateView,
    i: usize,
)
    requires
        at_the_songs(app),
        key.code == KeyCode::Char('A'),
    ensures
        line_is_selected(app, i) && app.playlists.len() > 0 ==> app.handle_key(key, player) == (
            AppView {
                mode: ModeView::PickPlaylist { index: 0, track_id: track_on_line(app, i).id },
                ..app
            },
            EffectView::Idle,
        ),
        line_is_selected(app, i) && app.playlists.len() == 0 ==> app.handle_key(key, player) == (
            AppView { status_msg: "no playlists — create one in the Playlists tab"@, ..app },
            EffectView::Idle,
        ),
        no_line_is_selected(app) ==> app.handle_key(key, player) == (
            app,
            EffectView::Idle,
        ),
{
    reveal(AppView::songs_key);
}

/// The keys that begin to ask for something: "/" for a filter, "T" for tags to search for,
/// and "s" for a sort key, beginning with the one in use.
pub proof fn asking_begins(app: AppView, key: Key, player: PlayerStateView)
    requires
        at_the_songs(app),
    ensures
        key.code == KeyCode::Char('/') ==> app.handle_key(key, player) == (
            AppView { mode: ModeView::Filter(Seq::empty()), ..app },
            EffectView::Idle,
        ),
        key.code == KeyCode::Char('T') ==> app.handle_key(key, player) == (
            AppView { mode: ModeView::TagSearch(Seq::empty()), ..app },
            EffectView::Idle,
        ),
        key.code == KeyCode::Char('s') ==> app.handle_key(key, player) == (
            AppView {
                mode: ModeView::SortPicker {
                    index: match app.sort_key {
                        SortKey::Default => 0,
                        SortKey::Title => 1,
                        SortKey::Artist => 2,
                        SortKey::Album => 3,
                        SortKey::Duration => 4,
                        SortKey::Year => 5,
                        SortKey::AddedAt => 6,
                    },
                },
                ..app
            },
            EffectView::Idle,
        ),
{
    reveal(AppView::songs_key);
}

/// The state with another line of the list selected, and nothing to do.
pub open spec fn on_line(app: AppView, i: int) -> (AppView, EffectView) {
    (
        AppView {
            list_state: ListState { selected: Some(i as usize), ..app.list_state },
            ..app
        },
        EffectView::Idle,
    )
}

/// The least and the greatest line, and what lies between them.
pub open spec fn between(i: int, len: nat) -> int {
    if i < 0 {
        0
    } else if i < len {
        i
    } else {
        len - 1
    }
}

/// "j" and "k" go one line down and up, the page keys ten, "g" and "G" to the first and last
/// line; no key leaves the list, and in an empty list none does anything.
pub proof fn keys_move_along_the_songs(app: AppView, key: Key, player: PlayerStateView)
    requires
        at_the_songs(app),
    ensures
        ({
            let len = app.filtered.len();
            let i: int = match app.list_state.selected {
                Some(i) => i as int,
                None => 0,
            };
            let r = app.handle_key(key, player);
            let down = key.code == KeyCode::Char('j') || key.code == KeyCode::Down;
            let up = key.code == KeyCode::Char('k') || key.code == KeyCode::Up;
            let top = key.code == KeyCode::Char('g') || key.code == KeyCode::Home;
            let bottom = key.code == KeyCode::Char('G') || key.code == KeyCode::End;
            let page_down = key.code == KeyCode::PageDown;
            let page_up = key.code == KeyCode::PageUp;
            &&& len > 0 && down ==> r == on_line(app, between(i + 1, len))
            &&& len > 0 && up ==> r == on_line(app, between(i - 1, len))
            &&& len > 0 && page_down ==> r == on_line(app, between(i + 10, len))
            &&& len > 0 && page_up ==> r == on_line(app, between(i - 10, len))
            &&& len > 0 && top ==> r == on_line(app, 0)
            &&& len > 0 && bottom ==> r == on_line(app, len - 1)
            &&& len == 0 && (down || up || top || bottom || page_down || page_up) ==> r == (
                app,
                EffectView::Idle,
            )
        }),
{
    reveal(AppView::songs_key);
}

/// The sort picker: Enter sorts by the key on the selected line and says so, Escape leaves
/// the order as it is, and "j" and "k" go one line down and up.
pub proof fn the_picker_sorts_by_the_key_on_its_line(
    app: AppView,
    key: Key,
    player: PlayerStateView,
    index: usize,
)
    requires
        app.mode == (ModeView::SortPicker { index }),
        index < 7,
    ensures
        ({
            let (after, effect) = app.handle_key(key, player);
            let chosen = match index {
                0 => SortKey::Default,
                1 => SortKey::Title,
                2 => SortKey::Artist,
                3 => SortKey::Album,
                4 => SortKey::Duration,
                5 => SortKey::Year,
                _ => SortKey::AddedAt,
            };
            &&& effect == EffectView::Idle
            &&& key.code == KeyCode::Enter ==> {
                &&& after == (AppView {
                    mode: ModeView::Normal,
                    sort_key: chosen,
                    status_msg: "sort: "@ + (match chosen {
                        SortKey::Default => "default"@,
                        SortKey::Title => "title"@,
                        SortKey::Artist => "artist"@,
                        SortKey::Album => "album"@,
                        SortKey::Duration => "duration"@,
                        SortKey::Year => "year"@,
                        SortKey::AddedAt => "added"@,
                    }),
                    filtered: after.filtered,
                    list_state: after.list_state,
                    ..app
                })
                &&& after.filtered.to_multiset() == app.filtered.to_multiset()
                &&& sort::in_order(app.tracks, chosen, after.filtered)
            }
            &&& key.code == KeyCode::Esc ==> after == (AppView { mode: ModeView::Normal, ..app })
            &&& key.code == KeyCode::Char('j') || key.code == KeyCode::Down ==> after
                == (AppView {
                mode: ModeView::SortPicker { index: between(index + 1, 7) as usize },
                ..app
            })
            &&& key.code == KeyCode::Char('k') || key.code == KeyCode::Up ==> after == (AppView {
                mode: ModeView::SortPicker { index: between(index - 1, 7) as usize },
                ..app
            })
        }),
{
    sorting::the_sort_keys_have_their_places();
    let chosen = crate::order::sort_keys()[index as int];
    sort::sorted_is_in_order(app.tracks, chosen, app.filtered);
}

/// A selected track stays selected while the list is sorted: the line that is selected then
/// shows a track with its number, and no line above it does.
pub proof fn sorting_leaves_the_track_selected(
    app: AppView,
    key: Key,
    player: PlayerStateView,
    index: usize,
    i: usize,
)
    requires
        app.mode == (ModeView::SortPicker { index }),
        index < 7,
        key.code == KeyCode::Enter,
        model::places_in(app.filtered, app.tracks.len()),
        app.filtered.len() <= usize::MAX,
        line_is_selected(app, i),
    ensures
        ({
            let after = app.handle_key(key, player).0;
            &&& after.list_state.offset == app.list_state.offset
            &&& after.list_state.selected matches Some(j)
            &&& line_is_selected(after, j)
            &&& track_on_line(after, j).id == track_on_line(app, i).id
            &&& forall|k: int|
                0 <= k < j ==> app.tracks[(#[trigger] after.filtered[k]) as int].id
                    != track_on_line(app, i).id
        }),
{
    broadcast use vstd::seq_lib::group_to_multiset_ensures;

    let chosen = crate::order::sort_keys()[index as int];
    let after = app.handle_key(key, player).0;
    let id = track_on_line(app, i).id;
    sort::sorted_is_in_order(app.tracks, chosen, app.filtered);
    let ids = model::ids_at(app.tracks, after.filtered);
    let x: usize = app.filtered[i as int];
    assert(app.filtered.contains(x));
    assert(app.filtered.to_multiset().count(x) > 0);
    assert(after.filtered.contains(x));
    let k: int = choose|k: int| 0 <= k < after.filtered.len() && after.filtered[k] == x;
    assert(ids[k] == id);
    laws::lemma_place_from(ids, id, 0);
    let j: int = lists::place_from(ids, id, 0);
    assert(ids[j] == id);
    let y: usize = after.filtered[j];
    assert(after.filtered.contains(y));
    assert(after.filtered.to_multiset().count(y) > 0);
    assert(app.filtered.contains(y));
    assert forall|m: int| 0 <= m < j implies app.tracks[(#[trigger] after.filtered[m]) as int].id
        != id by {
        assert(ids[m] != id);
    }
}

/// Where no track is selected, sorting selects the first line.
pub proof fn sorting_selects_a_line(
    app: AppView,
    key: Key,
    player: PlayerStateView,
    index: usize,
)
    requires
        app.mode == (ModeView::SortPicker { index }),
        index < 7,
        key.code == KeyCode::Enter,
        no_line_is_selected(app),
    ensures
        app.filtered.len() > 0 ==> app.handle_key(key, player).0.list_state == (ListState {
            selected: Some(0),
            ..app.list_state
        }),
        app.filtered.len() == 0 ==> app.handle_key(key, player).0.list_state == (ListState {
            offset: 0,
            selected: None,
        }),
{
    let chosen = crate::order::sort_keys()[index as int];
    sort::sorted_is_in_order(app.tracks, chosen, app.filtered);
}

/// Enter asks the server for the tags that were typed, without the blanks around them; where
/// there is nothing else, all songs are shown.
pub proof fn a_tag_search_asks_for_what_was_typed(
    app: AppView,
    buf: Seq<char>,
    key: Key,
    player: PlayerStateView,
)
    requires
        app.mode == ModeView::TagSearch(buf),
        key.code == KeyCode::Enter,
        app.tracks.len() <= usize::MAX,
    ensures
        text::trim(buf).len() > 0 ==> app.handle_key(key, player) == (
            AppView { mode: ModeView::Normal, ..app },
            EffectView::Call(CallView::Search(text::trim(buf))),
        ),
        text::trim(buf).len() == 0 ==> {
            &&& app.handle_key(key, player).1 == EffectView::Idle
            &&& app.handle_key(key, player).0.mode == ModeView::Normal
            &&& shows_what_holds(app, app.handle_key(key, player).0, Seq::empty())
        },
{
    reveal(AppView::typing_key);
    lemma_filter(AppView { mode: ModeView::Normal, ..app }, Seq::empty());
}

/// Escape leaves a tag search and shows all songs.
pub proof fn a_tag_search_can_be_left(
    app: AppView,
    buf: Seq<char>,
    key: Key,
    player: PlayerStateView,
)
    requires
        app.mode == ModeView::TagSearch(buf),
        key.code == KeyCode::Esc,
        app.tracks.len() <= usize::MAX,
    ensures
        app.handle_key(key, player).1 == EffectView::Idle,
        app.handle_key(key, player).0.mode == ModeView::Normal,
        shows_what_holds(app, app.handle_key(key, player).0, Seq::empty()),
{
    reveal(AppView::typing_key);
    lemma_filter(AppView { mode: ModeView::Normal, ..app }, Seq::empty());
}

/// No hits, no songs; and each further hit adds the last track with its number to what is
/// shown, or nothing where there is none.
pub proof fn each_hit_adds_its_track(
    app: AppView,
    q: Seq<char>,
    hits: Seq<TrackView>,
    hit: TrackView,
    x: usize,
)
    requires
        app.tracks.len() <= usize::MAX,
    ensures
        app.search_done(q, Ok(Seq::empty())).0.filtered.len() == 0,
        x < app.tracks.len() && app.tracks[x as int].id == hit.id && (forall|j: int|
            x < j < app.tracks.len() ==> (#[trigger] app.tracks[j]).id != hit.id)
            ==> app.search_done(q, Ok(hits.push(hit))).0.filtered.to_multiset()
            == app.search_done(q, Ok(hits)).0.filtered.to_multiset().insert(x),
        (forall|j: int| 0 <= j < app.tracks.len() ==> (#[trigger] app.tracks[j]).id != hit.id)
            ==> app.search_done(q, Ok(hits.push(hit))).0.filtered == app.search_done(
            q,
            Ok(hits),
        ).0.filtered,
{
    broadcast use vstd::seq_lib::group_to_multiset_ensures;

    let one = model::hit_places(app.tracks, hits);
    let more = model::hit_places(app.tracks, hits.push(hit));
    assert(hits.push(hit).drop_last() =~= hits);
    sort::sorted_is_in_order(app.tracks, app.sort_key, one);
    sort::sorted_is_in_order(app.tracks, app.sort_key, more);
    sort::sorted_is_in_order(app.tracks, app.sort_key, Seq::empty());
    lemma_last_with_the_number(app.tracks, hit.id);
}

proof fn lemma_last_with_the_number(tracks: Seq<TrackView>, id: i64)
    requires
        tracks.len() <= usize::MAX,
    ensures
        model::last_place(tracks, id) matches Some(i) ==> i < tracks.len() && tracks[i as int].id
            == id && forall|j: int| i < j < tracks.len() ==> (#[trigger] tracks[j]).id != id,
        model::last_place(tracks, id) is None ==> forall|i: int|
            0 <= i < tracks.len() ==> (#[trigger] tracks[i]).id != id,
    decreases tracks.len(),
{
    if tracks.len() > 0 && tracks.last().id != id {
        let front = tracks.drop_last();
        lemma_last_with_the_number(front, id);
        assert(forall|j: int| 0 <= j < front.len() ==> front[j] == #[trigger] tracks[j]);
    }
}

/// What a tag search found is shown in the order of the sort key with the first line
/// selected, and counted; a search that failed changes nothing but what is said.
pub proof fn a_tag_search_tells_its_hits(
    app: AppView,
    q: Seq<char>,
    hits: Seq<TrackView>,
    e: Seq<char>,
)
    ensures
        ({
            let (after, effect) = app.search_done(q, Ok(hits));
            &&& effect == EffectView::Idle
            &&& sort::in_order(app.tracks, app.sort_key, after.filtered)
            &&& after == (AppView {
                filtered: after.filtered,
                list_state: if after.filtered.len() == 0 {
                    ListState { offset: 0, selected: None }
                } else {
                    ListState { selected: Some(0), ..app.list_state }
                },
                status_msg: "tag search '"@ + q + "': "@ + text::decimal(after.filtered.len())
                    + " hits"@,
                ..app
            })
        }),
        app.search_done(q, Err(e)) == (
            AppView { status_msg: "search failed: "@ + e, ..app },
            EffectView::Idle,
        ),
{
    sort::sorted_is_in_order(
        app.tracks,
        app.sort_key,
        model::hit_places(app.tracks, hits),
    );
}

} // verus!
