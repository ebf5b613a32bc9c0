//! What the keys and the server do to the tags of a track, on the fields of the state.

use crate::api::TrackTagView;
use crate::keys::{Key, KeyCode};
use crate::laws::songs;
use crate::lists::ListState;
use crate::model::AppView;
use crate::mpv::PlayerStateView;
use crate::parse;
use crate::state::{CallView, EffectView, ModeView, Tab, TagsNext};
use crate::text;
use vstd::prelude::*;

verus! {

/// Whether the keys act on the tags of the selected track.
pub open spec fn at_the_tags(app: AppView) -> bool {
    app.mode == ModeView::Normal && app.tab == Tab::Songs && app.show_tags
}

/// Whether the selected line shows a track with a number.
pub open spec fn is_the_selected_track(app: AppView, id: i64) -> bool {
    app.list_state.selected matches Some(i) && i < app.filtered.len() && app.filtered[i as int]
        < app.tracks.len() && app.tracks[app.filtered[i as int] as int].id == id
}

/// Whether no line is selected that shows a track.
pub open spec fn no_track_is_selected(app: AppView) -> bool {
    !(app.list_state.selected matches Some(i) && i < app.filtered.len() && app.filtered[i as int]
        < app.tracks.len())
}

/// Whether the server is asked to add a tag.
pub open spec fn adds_a_tag(effect: EffectView) -> bool {
    effect matches EffectView::Call(call) && call is AddUserTag
}

proof fn lemma_songs_add_no_tag(app: AppView, code: KeyCode)
    ensures
        !adds_a_tag(app.songs_key(code).1),
{
    reveal(AppView::songs_key);
}

proof fn lemma_playlists_add_no_tag(app: AppView, code: KeyCode)
    ensures
        !adds_a_tag(app.playlists_key(code).1),
{
    reveal(AppView::playlists_key);
}

proof fn lemma_queue_adds_no_tag(app: AppView, code: KeyCode, len: nat)
    ensures
        !adds_a_tag(app.queue_key(code, len).1),
{
    reveal(AppView::queue_key);
}

proof fn lemma_settings_add_no_tag(app: AppView, code: KeyCode)
    ensures
        !adds_a_tag(app.settings_key(code).1),
{
    reveal(AppView::settings_key);
}

/// A tag is added to no track but the selected one, and only where a tag was being typed.
pub proof fn a_tag_is_added_to_the_selected_track(
    app: AppView,
    key: Key,
    player: PlayerStateView,
    track: i64,
    namespace: Seq<char>,
    value: Seq<char>,
)
    requires
        app.handle_key(key, player).1 == EffectView::Call(
            (CallView::AddUserTag { track, namespace, value }),
        ),
    ensures
        app.mode is AddTag,
        key.code == KeyCode::Enter,
        is_the_selected_track(app, track),
{
    lemma_songs_add_no_tag(app, key.code);
    lemma_playlists_add_no_tag(app, key.code);
    lemma_queue_adds_no_tag(app, key.code, player.playlist.len());
    lemma_settings_add_no_tag(app, key.code);
    if !(app.mode is Normal) {
        reveal(AppView::typing_key);
    }
}

/// Enter asks the server to add the tag that was typed to the selected track.
pub proof fn enter_adds_the_typed_tag(
    app: AppView,
    buf: Seq<char>,
    key: Key,
    player: PlayerStateView,
    id: i64,
)
    requires
        app.mode == ModeView::AddTag(buf),
        key.code == KeyCode::Enter,
    ensures
        app.handle_key(key, player).0 == (AppView {
            mode: ModeView::Normal,
            status_msg: app.handle_key(key, player).0.status_msg,
            ..app
        }),
        parse::tag_input(buf) is None ==> app.handle_key(key, player) == (
            AppView {
                mode: ModeView::Normal,
                status_msg: "tag input: '<ns>:<val>' or '<val>'"@,
                ..app
            },
            EffectView::Idle,
        ),
        parse::tag_input(buf) matches Some((namespace, value)) ==> {
            &&& app.handle_key(key, player).0.status_msg == app.status_msg
            &&& is_the_selected_track(app, id) ==> app.handle_key(key, player).1
                == EffectView::Call((CallView::AddUserTag { track: id, namespace, value }))
            &&& no_track_is_selected(app) ==> app.handle_key(key, player).1 == EffectView::Idle
        },
{
    reveal(AppView::typing_key);
}

/// What is typed for a tag: what stands before the first colon is the namespace and what
/// follows it the value, both without the blanks around them; without a colon all of it is
/// the value. A tag has a value.
pub proof fn a_colon_parts_a_tag(front: Seq<char>, back: Seq<char>, typed: Seq<char>)
    requires
        !front.contains(':'),
    ensures
        text::trim(typed) == front + seq![':'] + back && text::trim(back).len() > 0
            ==> parse::tag_input(typed) == Some((text::trim(front), text::trim(back))),
        text::trim(typed) == front + seq![':'] + back && text::trim(back).len() == 0
            ==> parse::tag_input(typed) is None,
        text::trim(typed) == front && front.len() > 0 ==> parse::tag_input(typed) == Some(
            (Seq::<char>::empty(), front),
        ),
        text::trim(typed).len() == 0 ==> parse::tag_input(typed) is None,
{
    let t = text::trim(typed);
    if t == front + seq![':'] + back {
        text::first_index_is(t, ':', front.len() as int);
        assert(t.take(front.len() as int) =~= front);
        assert(t.skip(front.len() as int + 1) =~= back);
    }
    if t == front {
        text::first_index_is(t, ':', front.len() as int);
    }
}

/// The blanks around a text are taken away, and nothing else is.
pub proof fn blanks_are_taken_from_the_ends(s: Seq<char>)
    ensures
        exists|a: int, b: int|
            0 <= a <= b <= s.len() && text::trim(s) == #[trigger] s.subrange(a, b) && (forall|
                i: int,
            |
                0 <= i < s.len() && (i < a || b <= i) ==> text::white_space(#[trigger] s[i])),
        text::trim(s).len() > 0 ==> !text::white_space(text::trim(s)[0]) && !text::white_space(
            text::trim(s).last(),
        ),
{
    let t = text::trim_start(s);
    let a: int = lemma_start(s);
    let b: int = lemma_end(t);
    assert(s.subrange(a, a + b) =~= t.take(b));
    assert forall|i: int| 0 <= i < s.len() && (i < a || a + b <= i) implies text::white_space(
        #[trigger] s[i],
    ) by {
        if a + b <= i {
            assert(t[i - a] == s[i]);
        }
    }
    if text::trim(s).len() > 0 {
        assert(text::trim(s)[0] == t[0]);
    }
}

proof fn lemma_start(s: Seq<char>) -> (n: int)
    ensures
        0 <= n <= s.len(),
        text::trim_start(s) == s.skip(n),
        forall|i: int| 0 <= i < n ==> text::white_space(#[trigger] s[i]),
        n < s.len() ==> !text::white_space(s[n]),
    decreases s.len(),
{
    if s.len() > 0 && text::white_space(s[0]) {
        let n: int = lemma_start(s.skip(1));
        assert(s.skip(1).skip(n) =~= s.skip(n + 1));
        assert forall|i: int| 0 <= i < n + 1 implies text::white_space(#[trigger] s[i]) by {
            if i > 0 {
                assert(s.skip(1)[i - 1] == s[i]);
            }
        }
        n + 1
    } else {
        assert(s.skip(0) =~= s);
        0
    }
}

proof fn lemma_end(s: Seq<char>) -> (n: int)
    ensures
        0 <= n <= s.len(),
        text::trim_end(s) == s.take(n),
        forall|i: int| n <= i < s.len() ==> text::white_space(#[trigger] s[i]),
        n > 0 ==> !text::white_space(s[n - 1]),
    decreases s.len(),
{
    if s.len() > 0 && text::white_space(s.last()) {
        let n: int = lemma_end(s.drop_last());
        assert(s.drop_last().take(n) =~= s.take(n));
        assert forall|i: int| n <= i < s.len() implies text::white_space(#[trigger] s[i]) by {
            if i < s.len() - 1 {
                assert(s.drop_last()[i] == s[i]);
            }
        }
        n
    } else {
        assert(s.take(s.len() as int) =~= s);
        s.len() as int
    }
}

/// "t" shows the tags of the track on the selected line: at once where they are there, else
/// once the server has told them.
pub proof fn t_shows_the_tags_of_the_selected_track(
    app: AppView,
    key: Key,
    player: PlayerStateView,
    id: i64,
)
    requires
        songs::at_the_songs(app),
        key.code == KeyCode::Char('t'),
    ensures
        is_the_selected_track(app, id) && app.current_tags_for == Some(id) ==> app.handle_key(
            key,
            player,
        ) == (AppView { show_tags: true, ..app }, EffectView::Idle),
        is_the_selected_track(app, id) && app.current_tags_for != Some(id) ==> app.handle_key(
            key,
            player,
        ) == (app, EffectView::Call(CallView::TrackTags(id, TagsNext::Show))),
        no_track_is_selected(app) ==> app.handle_key(key, player) == (
            AppView { status_msg: "no track selected"@, ..app },
            EffectView::Idle,
        ),
{
    reveal(AppView::songs_key);
}

/// "a" begins a new tag, "t" puts the tags out of sight, and nothing else changes.
pub proof fn the_tags_can_be_added_to_and_left(app: AppView, key: Key, player: PlayerStateView)
    requires
        at_the_tags(app),
    ensures
        key.code == KeyCode::Char('a') ==> app.handle_key(key, player) == (
            AppView { mode: ModeView::AddTag(Seq::empty()), ..app },
            EffectView::Idle,
        ),
        key.code == KeyCode::Char('t') ==> app.handle_key(key, player) == (
            AppView { show_tags: false, ..app },
            EffectView::Idle,
        ),
        key.code == KeyCode::Esc && !app.show_help ==> app.handle_key(key, player) == (
            AppView { show_tags: false, ..app },
            EffectView::Idle,
        ),
{
    reveal(AppView::songs_key);
}

/// "d" asks the server to take the selected tag from the selected track where a user put it
/// there, and says that it can not where none did.
pub proof fn d_removes_the_selected_tag(
    app: AppView,
    key: Key,
    player: PlayerStateView,
    i: usize,
    id: i64,
)
    requires
        at_the_tags(app),
        key.code == KeyCode::Char('d'),
    ensures
        !(app.tags_state.selected matches Some(k) && k < app.current_tags.len())
            ==> app.handle_key(key, player) == (app, EffectView::Idle),
        app.tags_state.selected == Some(i) && i < app.current_tags.len() ==> {
            let tag = app.current_tags[i as int];
            let label = tag.namespace + ":"@ + tag.value;
            &&& tag.source == "user"@ && is_the_selected_track(app, id) ==> app.handle_key(
                key,
                player,
            ) == (
                app,
                EffectView::Call((CallView::RemoveUserTag { track: id, tag: tag.tag_id, label })),
            )
            &&& tag.source == "user"@ && no_track_is_selected(app) ==> app.handle_key(key, player)
                == (app, EffectView::Idle)
            &&& tag.source != "user"@ ==> app.handle_key(key, player) == (
                AppView { status_msg: "can't remove non-user tag "@ + label, ..app },
                EffectView::Idle,
            )
        },
{
    reveal(AppView::songs_key);
}

/// The state with another tag selected, and nothing to do.
pub open spec fn on_tag(app: AppView, i: int) -> (AppView, EffectView) {
    (
        AppView {
            tags_state: ListState { selected: Some(i as usize), ..app.tags_state },
            ..app
        },
        EffectView::Idle,
    )
}

/// "j" and "k" go one tag down and up, "g" and "G" to the first and the last.
pub proof fn keys_move_along_the_tags(app: AppView, key: Key, player: PlayerStateView)
    requires
        at_the_tags(app),
    ensures
        ({
            let len = app.current_tags.len();
            let i: int = match app.tags_state.selected {
                Some(i) => i as int,
                None => 0,
            };
            let r = app.handle_key(key, player);
            let down = key.code == KeyCode::Char('j') || key.code == KeyCode::Down;
            let up = key.code == KeyCode::Char('k') || key.code == KeyCode::Up;
            let top = key.code == KeyCode::Char('g') || key.code == KeyCode::Home;
            let bottom = key.code == KeyCode::Char('G') || key.code == KeyCode::End;
            &&& len > 0 && down ==> r == on_tag(app, songs::between(i + 1, len))
            &&& len > 0 && up ==> r == on_tag(app, songs::between(i - 1, len))
            &&& len > 0 && top ==> r == on_tag(app, 0)
            &&& len > 0 && bottom ==> r == on_tag(app, len - 1)
            &&& len == 0 && (down || up || top || bottom) ==> r == (app, EffectView::Idle)
        }),
{
    reveal(AppView::songs_key);
}

/// The tags that the server tells are those of the track that was asked for; the selected
/// line stays where it is as long as there is a tag on it, else the last tag is selected,
/// and the first where none was. A failure leaves no tags, and is told.
pub proof fn told_tags_are_kept(
    app: AppView,
    id: i64,
    tags: Seq<TrackTagView>,
    e: Seq<char>,
    next: TagsNext,
)
    requires
        tags.len() <= usize::MAX,
    ensures
        app.track_tags_loaded(id, Ok(tags), next) == (
            AppView {
                current_tags: tags,
                current_tags_for: Some(id),
                tags_state: if tags.len() == 0 {
                    ListState { offset: 0, selected: None }
                } else {
                    ListState {
                        selected: match app.tags_state.selected {
                            None => Some(0),
                            Some(i) => if i < tags.len() {
                                Some(i)
                            } else {
                                Some((tags.len() - 1) as usize)
                            },
                        },
                        ..app.tags_state
                    }
                },
                show_tags: app.show_tags || next == TagsNext::Show,
                ..app
            },
            EffectView::Idle,
        ),
        app.track_tags_loaded(id, Err(e), next) == (
            AppView {
                current_tags: Seq::empty(),
                current_tags_for: Some(id),
                tags_state: ListState { offset: 0, selected: None },
                show_tags: app.show_tags || next == TagsNext::Show,
                status_msg: "tag fetch failed: "@ + e,
                ..app
            },
            EffectView::Idle,
        ),
{
}

/// After a tag was added or removed, the tags of the selected track are asked for anew, and
/// the tag is named; a failure is told, and changes nothing else.
pub proof fn changed_tags_are_asked_for_anew(
    app: AppView,
    id: i64,
    namespace: Seq<char>,
    value: Seq<char>,
    label: Seq<char>,
    e: Seq<char>,
)
    ensures
        is_the_selected_track(app, id) ==> app.user_tag_added(namespace, value, Ok(())) == (
            AppView {
                current_tags_for: None,
                status_msg: "added "@ + (namespace + ":"@ + value),
                ..app
            },
            EffectView::Call(CallView::TrackTags(id, TagsNext::Rest)),
        ),
        is_the_selected_track(app, id) ==> app.user_tag_removed(label, Ok(())) == (
            AppView { current_tags_for: None, status_msg: "removed "@ + label, ..app },
            EffectView::Call(CallView::TrackTags(id, TagsNext::KeepInRange)),
        ),
        app.user_tag_added(namespace, value, Err(e)) == (
            AppView { status_msg: "add tag failed: "@ + e, ..app },
            EffectView::Idle,
        ),
        app.user_tag_removed(label, Err(e)) == (
            AppView { status_msg: "remove tag failed: "@ + e, ..app },
            EffectView::Idle,
        ),
{
}

/// Without a selected track there are no tags, once they are asked for anew, and none of them
/// is selected where one had to be.
pub proof fn without_a_track_there_are_no_tags(
    app: AppView,
    namespace: Seq<char>,
    value: Seq<char>,
    label: Seq<char>,
)
    requires
        no_track_is_selected(app),
    ensures
        app.user_tag_added(namespace, value, Ok(())) == (
            AppView {
                current_tags: Seq::empty(),
                current_tags_for: None,
                status_msg: "added "@ + (namespace + ":"@ + value),
                ..app
            },
            EffectView::Idle,
        ),
        app.user_tag_removed(label, Ok(())) == (
            AppView {
                current_tags: Seq::empty(),
                current_tags_for: None,
                tags_state: ListState { offset: 0, selected: None },
                status_msg: "removed "@ + label,
                ..app
            },
            EffectView::Idle,
        ),
{
}

/// Tags that are there are not asked for again: where they are to be shown they are, and a
/// selection behind the last of them goes to the last.
pub proof fn tags_that_are_there_are_not_asked_for(app: AppView, id: i64, next: TagsNext, i: usize)
    requires
        is_the_selected_track(app, id),
        app.current_tags_for == Some(id),
        app.tags_state.selected == Some(i),
        0 < app.current_tags.len() <= usize::MAX,
    ensures
        app.refresh_tags(next) == (
            AppView {
                show_tags: app.show_tags || next == TagsNext::Show,
                tags_state: ListState {
                    selected: if next == TagsNext::KeepInRange && i >= app.current_tags.len() {
                        Some((app.current_tags.len() - 1) as usize)
                    } else {
                        Some(i)
                    },
                    ..app.tags_state
                },
                ..app
            },
            EffectView::Idle,
        ),
{
}

} // verus!
