//! Which keys do nothing.

use crate::keys::{Key, KeyCode};
use crate::laws::playlists;
use crate::laws::server;
use crate::laws::songs;
use crate::laws::tags;
use crate::model::AppView;
use crate::mpv::PlayerStateView;
use crate::state::{EffectView, ModeView, Tab};
use vstd::prelude::*;

verus! {

/// Whether a key acts on every tab.
pub open spec fn acts_everywhere(app: AppView, key: Key) -> bool {
    match key.code {
        KeyCode::Char(c) => ('1' <= c <= '4') || c == 'q' || (c == 'c' && key.control) || c == ' '
            || c == 'n' || c == 'p' || c == '?' || c == 'S' || c == 'R' || c == 'F',
        KeyCode::Esc => app.show_help || app.show_tags,
        _ => false,
    }
}

/// Whether a key goes along a list.
pub open spec fn goes_along(code: KeyCode) -> bool {
    match code {
        KeyCode::Char(c) => c == 'j' || c == 'k' || c == 'g' || c == 'G',
        KeyCode::Down | KeyCode::Up | KeyCode::Home | KeyCode::End => true,
        _ => false,
    }
}

/// Whether a key means something in the list of songs.
pub open spec fn means_something_to_songs(code: KeyCode) -> bool {
    goes_along(code) || match code {
        KeyCode::Char(c) => c == 'a' || c == 'E' || c == 'A' || c == '/' || c == 'T' || c == 't'
            || c == 's',
        KeyCode::PageDown | KeyCode::PageUp | KeyCode::Enter | KeyCode::Esc => true,
        _ => false,
    }
}

/// A key that means nothing to the list of songs does nothing there.
pub proof fn other_keys_leave_the_songs(app: AppView, key: Key, player: PlayerStateView)
    requires
        songs::at_the_songs(app),
        !acts_everywhere(app, key),
        !means_something_to_songs(key.code),
    ensures
        app.handle_key(key, player) == (app, EffectView::Idle),
{
    reveal(AppView::songs_key);
}

/// A key that means nothing to the tags does nothing there.
pub proof fn other_keys_leave_the_tags(app: AppView, key: Key, player: PlayerStateView)
    requires
        tags::at_the_tags(app),
        !acts_everywhere(app, key),
        !goes_along(key.code),
        key.code != KeyCode::Char('a'),
        key.code != KeyCode::Char('d'),
        key.code != KeyCode::Char('t'),
    ensures
        app.handle_key(key, player) == (app, EffectView::Idle),
{
    reveal(AppView::songs_key);
}

/// A key that means nothing to the playlists does nothing there.
pub proof fn other_keys_leave_the_playlists(app: AppView, key: Key, player: PlayerStateView)
    requires
        playlists::at_the_playlists(app),
        !acts_everywhere(app, key),
        !goes_along(key.code),
        key.code != KeyCode::Tab,
        key.code != KeyCode::Enter,
        key.code != KeyCode::Char('N'),
        key.code != KeyCode::Char('r'),
        key.code != KeyCode::Char('D'),
        key.code != KeyCode::Char('P'),
    ensures
        app.handle_key(key, player) == (app, EffectView::Idle),
{
    reveal(AppView::playlists_key);
}

/// A key that means nothing to the tracks of a playlist does nothing there.
pub proof fn other_keys_leave_the_tracks(app: AppView, key: Key, player: PlayerStateView)
    requires
        playlists::at_the_tracks(app),
        !acts_everywhere(app, key),
        !goes_along(key.code),
        key.code != KeyCode::Tab,
        key.code != KeyCode::Esc,
        key.code != KeyCode::Enter,
        key.code != KeyCode::Char('a'),
        key.code != KeyCode::Char('d'),
        key.code != KeyCode::Char('J'),
        key.code != KeyCode::Char('K'),
    ensures
        app.handle_key(key, player) == (app, EffectView::Idle),
{
    reveal(AppView::playlists_key);
}

/// A key that means nothing to the queue does nothing there.
pub proof fn other_keys_leave_the_queue(app: AppView, key: Key, player: PlayerStateView)
    requires
        app.mode == ModeView::Normal,
        app.tab == Tab::Queue,
        !acts_everywhere(app, key),
        !goes_along(key.code),
        key.code != KeyCode::Enter,
        key.code != KeyCode::Char('d'),
        key.code != KeyCode::Char('J'),
        key.code != KeyCode::Char('K'),
    ensures
        app.handle_key(key, player) == (app, EffectView::Idle),
{
    reveal(AppView::queue_key);
}

/// A key that means nothing to the settings does nothing there.
pub proof fn other_keys_leave_the_settings(app: AppView, key: Key, player: PlayerStateView)
    requires
        server::at_the_settings(app),
        !acts_everywhere(app, key),
        key.code != KeyCode::Char('j'),
        key.code != KeyCode::Down,
        key.code != KeyCode::Char('k'),
        key.code != KeyCode::Up,
        key.code != KeyCode::Enter,
        key.code != KeyCode::Char('e'),
        key.code != KeyCode::Char('s'),
        key.code != KeyCode::Char('r'),
        key.code != KeyCode::Esc,
    ensures
        app.handle_key(key, player) == (app, EffectView::Idle),
{
    reveal(AppView::settings_key);
}

/// A key that means nothing to a picker does nothing there.
pub proof fn other_keys_leave_the_pickers(app: AppView, key: Key, player: PlayerStateView)
    requires
        app.mode is PickPlaylist || app.mode is SortPicker,
        key.code != KeyCode::Char('j'),
        key.code != KeyCode::Down,
        key.code != KeyCode::Char('k'),
        key.code != KeyCode::Up,
        key.code != KeyCode::Enter,
        key.code != KeyCode::Esc,
    ensures
        app.handle_key(key, player) == (app, EffectView::Idle),
{
}

/// A key that is no character and means nothing else does nothing while something is typed.
pub proof fn other_keys_leave_what_is_typed(app: AppView, key: Key, player: PlayerStateView)
    requires
        server::is_typing(app.mode),
        !(key.code is Char),
        key.code != KeyCode::Backspace || server::typed_text(app.mode).len() == 0,
        key.code != KeyCode::Enter,
        key.code != KeyCode::Esc,
    ensures
        app.handle_key(key, player) == (app, EffectView::Idle),
{
    reveal(AppView::typing_key);
}

} // verus!
