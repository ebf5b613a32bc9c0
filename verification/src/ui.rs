//! What the screen shows.

use crate::api::{PlaylistTrackView, PlaylistView, TrackTagView, TrackView};
use crate::api::{Playlist, PlaylistTrack, Track, TrackTag};
use crate::app::App;
use crate::lists;
use crate::lists::ListState;
use crate::model::AppView;
use crate::mpv::{PlayerState, PlayerStateView, PlaylistEntry, PlaylistEntryView};
use crate::order;
use crate::order::SortKey;
use crate::parse;
use crate::state;
use crate::state::{Mode, ModeView, PlaylistsFocus, SettingsField, Tab};
use crate::text;
use vstd::prelude::*;

verus! {

// ---------------------------------------------------------------------------
// Lines
// ---------------------------------------------------------------------------

/// How a text looks.
#[derive(Debug, Clone, Copy, PartialEq, Eq, Structural)]
pub enum Style {
    Plain,
    Bold,
    Dim,
    ReversedBold,
    Green,
    Yellow,
    YellowBold,
    Cyan,
    CyanBold,
}

/// A text that looks the same all over.
#[derive(Debug)]
pub struct Span {
    pub text: String,
    pub style: Style,
}

/// A `Span`, with its text as characters.
pub struct SpanView {
    pub text: Seq<char>,
    pub style: Style,
}

impl View for Span {
    type V = SpanView;

    open spec fn view(&self) -> SpanView {
        SpanView { text: self.text@, style: self.style }
    }
}

/// A line: spans in a row.
#[derive(Debug)]
pub struct Line {
    pub spans: Vec<Span>,
}

impl View for Line {
    type V = Seq<SpanView>;

    open spec fn view(&self) -> Seq<SpanView> {
        lists::views(self.spans@)
    }
}

/// A span.
pub open spec fn span(text: Seq<char>, style: Style) -> SpanView {
    SpanView { text, style }
}

impl Line {
    /// An empty line.
    pub fn new() -> (r: Self)
        ensures
            r@ == Seq::<SpanView>::empty(),
    {
        let r = Line { spans: Vec::new() };
        assert(r@ =~= Seq::empty());
        r
    }

    /// The line with one more span.
    pub fn with(self, text: &str, style: Style) -> (r: Self)
        ensures
            r@ == self@.push(span(text@, style)),
    {
        let mut spans = self.spans;
        let s = Span { text: text::copy(text), style };
        spans.push(s);
        let r = Line { spans };
        assert(r@ =~= self@.push(s@));
        r
    }
}

/// Adds a line.
fn push_line(lines: &mut Vec<Line>, line: Line)
    ensures
        lists::views(final(lines)@) == lists::views(old(lines)@).push(line@),
{
    lines.push(line);
    assert(lists::views(lines@) =~= lists::views(old(lines)@).push(line@));
}

/// No lines yet.
fn no_lines() -> (r: Vec<Line>)
    ensures
        lists::views(r@) == Seq::<Seq<SpanView>>::empty(),
{
    let r: Vec<Line> = Vec::new();
    assert(lists::views(r@) =~= Seq::empty());
    r
}

/// A frame with a title.
#[derive(Debug)]
pub struct Block {
    pub title: String,
    pub border: Style,
}

/// A `Block`, with its title as characters.
pub struct BlockView {
    pub title: Seq<char>,
    pub border: Style,
}

impl View for Block {
    type V = BlockView;

    open spec fn view(&self) -> BlockView {
        BlockView { title: self.title@, border: self.border }
    }
}

/// The frame of a pane: it stands out where the pane takes the keys.
pub open spec fn pane(title: Seq<char>, focused: bool) -> BlockView {
    BlockView {
        title,
        border: if focused {
            Style::Yellow
        } else {
            Style::Plain
        },
    }
}

/// The frame of a pane.
pub fn pane_block(title: String, focused: bool) -> (r: Block)
    ensures
        r@ == pane(title@, focused),
{
    Block {
        title,
        border: if focused {
            Style::Yellow
        } else {
            Style::Plain
        },
    }
}

/// A list in a frame. Where it has a state, the selected item is kept in sight; where it
/// is highlighted, that item is reversed.
#[derive(Debug)]
pub struct ListPane {
    pub block: Block,
    pub items: Vec<Line>,
    pub state: Option<ListState>,
    pub highlight: bool,
}

/// A `ListPane`, with its texts as characters.
pub struct ListPaneView {
    pub block: BlockView,
    pub items: Seq<Seq<SpanView>>,
    pub state: Option<ListState>,
    pub highlight: bool,
}

impl View for ListPane {
    type V = ListPaneView;

    open spec fn view(&self) -> ListPaneView {
        ListPaneView {
            block: self.block@,
            items: lists::views(self.items@),
            state: self.state,
            highlight: self.highlight,
        }
    }
}

/// Lines in a frame.
#[derive(Debug)]
pub struct TextPane {
    pub block: Block,
    pub lines: Vec<Line>,
}

/// A `TextPane`, with its texts as characters.
pub struct TextPaneView {
    pub block: BlockView,
    pub lines: Seq<Seq<SpanView>>,
}

impl View for TextPane {
    type V = TextPaneView;

    open spec fn view(&self) -> TextPaneView {
        TextPaneView { block: self.block@, lines: lists::views(self.lines@) }
    }
}

// ---------------------------------------------------------------------------
// Tabs
// ---------------------------------------------------------------------------

/// One tab of the line of tabs.
pub open spec fn tab_span(tab: Tab, i: int, active: Tab) -> SpanView {
    span(
        " "@ + text::decimal((i + 1) as nat) + " "@ + tab.label_text() + " "@,
        if tab == active {
            Style::ReversedBold
        } else {
            Style::Dim
        },
    )
}

/// The line of tabs, up to the tab at `n`.
pub open spec fn tabs_line(active: Tab, n: nat) -> Seq<SpanView>
    decreases n,
{
    if n == 0 {
        seq![span(" "@, Style::Plain)]
    } else {
        let front = tabs_line(active, (n - 1) as nat);
        let spaced = if n > 1 {
            front.push(span("   "@, Style::Plain))
        } else {
            front
        };
        spaced.push(tab_span(state::tabs()[n - 1], n - 1, active))
    }
}

/// The line of tabs.
pub fn render_tabs(active: Tab) -> (r: Line)
    ensures
        r@ == tabs_line(active, state::tabs().len()),
{
    let tabs = Tab::all();
    let mut r = Line::new().with(" ", Style::Plain);
    for i in 0..tabs.len()
        invariant
            tabs@ == state::tabs(),
            r@ == tabs_line(active, i as nat),
    {
        if i > 0 {
            r = r.with("   ", Style::Plain);
        }
        let style = if tabs[i] == active {
            Style::ReversedBold
        } else {
            Style::Dim
        };
        let number = text::show((i + 1) as u64);
        let mut s = text::cat3(" ", number.as_str(), " ");
        s.append(tabs[i].label());
        s.append(" ");
        r = r.with(s.as_str(), style);
    }
    r
}

// ---------------------------------------------------------------------------
// Help
// ---------------------------------------------------------------------------

/// A heading of the help.
pub open spec fn heading(s: Seq<char>) -> Seq<SpanView> {
    seq![span(s, Style::YellowBold)]
}

/// A key of the help, and what it does.
pub open spec fn help_item(key: Seq<char>, does: Seq<char>) -> Seq<SpanView> {
    seq![
        span("  "@, Style::Plain),
        span(text::left_aligned(key, 16), Style::Green),
        span(does, Style::Plain),
    ]
}

/// The help on the keys that work everywhere.
pub open spec fn global_help() -> Seq<Seq<SpanView>> {
    seq![
        heading("Global"@),
        help_item("q / Ctrl+C"@, "quit"@),
        help_item("space"@, "play / pause"@),
        help_item("n / p"@, "next / previous"@),
        help_item("S"@, "shuffle queue"@),
        help_item("R"@, "cycle repeat (off/all/one)"@),
        help_item("F"@, "rescan library"@),
        help_item("?"@, "toggle this help"@),
        help_item("1-4"@, "switch tabs"@),
        Seq::empty(),
    ]
}

/// The help on the keys of what the screen shows.
pub open spec fn tab_help(tab: Tab, show_tags: bool, focus: PlaylistsFocus) -> Seq<Seq<SpanView>> {
    match tab {
        Tab::Songs => if show_tags {
            seq![
                heading("Songs — tags popup"@),
                help_item("j/k"@, "navigate tags"@),
                help_item("g / G"@, "top / bottom"@),
                help_item("a"@, "add tag"@),
                help_item("d"@, "remove user tag"@),
                help_item("t / Esc"@, "close tags popup"@),
            ]
        } else {
            seq![
                heading("Songs"@),
                help_item("j/k, PgUp/Dn"@, "move selection"@),
                help_item("g / G"@, "top / bottom"@),
                help_item("⏎"@, "play selected"@),
                help_item("a"@, "queue selected"@),
                help_item("E"@, "queue all (filtered)"@),
                help_item("A"@, "add to playlist"@),
                help_item("t"@, "show tags for selected"@),
                help_item("/"@, "filter"@),
                help_item("T"@, "tag search"@),
                help_item("s"@, "sort by…"@),
                help_item("Esc"@, "clear filter"@),
            ]
        },
        Tab::Playlists => match focus {
            PlaylistsFocus::List => seq![
                heading("Playlists"@),
                help_item("j/k"@, "navigate"@),
                help_item("⏎"@, "open playlist"@),
                help_item("P"@, "play playlist"@),
                help_item("N"@, "new playlist"@),
                help_item("r"@, "rename"@),
                help_item("D"@, "delete"@),
                help_item("⇥"@, "tracks pane"@),
            ],
            PlaylistsFocus::Tracks => seq![
                heading("Playlist tracks"@),
                help_item("j/k"@, "navigate"@),
                help_item("J / K"@, "reorder down / up"@),
                help_item("⏎"@, "play from here"@),
                help_item("a"@, "queue track"@),
                help_item("d"@, "remove from playlist"@),
                help_item("⇥ / Esc"@, "back to playlists"@),
            ],
        },
        Tab::Queue => seq![
            heading("Queue"@),
            help_item("j/k"@, "navigate"@),
            help_item("g / G"@, "top / bottom"@),
            help_item("J / K"@, "reorder down / up"@),
            help_item("⏎"@, "jump to track"@),
            help_item("d"@, "remove from queue"@),
        ],
        Tab::Settings => seq![
            heading("Settings"@),
            help_item("j/k"@, "navigate fields"@),
            help_item("⏎ / e"@, "edit field"@),
            help_item("s"@, "save changes"@),
            help_item("r / Esc"@, "revert"@),
        ],
    }
}

/// The help.
pub open spec fn help(tab: Tab, show_tags: bool, focus: PlaylistsFocus) -> TextPaneView {
    TextPaneView {
        block: BlockView { title: " Help (? to close) "@, border: Style::Cyan },
        lines: global_help() + tab_help(tab, show_tags, focus),
    }
}

/// Adds a heading of the help.
fn push_heading(lines: &mut Vec<Line>, s: &str)
    ensures
        lists::views(final(lines)@) == lists::views(old(lines)@).push(heading(s@)),
{
    push_line(lines, Line::new().with(s, Style::YellowBold));
}

/// Adds a key of the help.
fn push_item(lines: &mut Vec<Line>, key: &str, does: &str)
    ensures
        lists::views(final(lines)@) == lists::views(old(lines)@).push(help_item(key@, does@)),
{
    let padded = text::pad_right(key, 16);
    let line = Line::new().with("  ", Style::Plain).with(padded.as_str(), Style::Green).with(
        does,
        Style::Plain,
    );
    assert(line@ =~= help_item(key@, does@));
    push_line(lines, line);
}

/// The help on the keys that work everywhere.
fn render_global_help() -> (r: Vec<Line>)
    ensures
        lists::views(r@) == global_help(),
{
    let mut lines = no_lines();
    push_heading(&mut lines, "Global");
    push_item(&mut lines, "q / Ctrl+C", "quit");
    push_item(&mut lines, "space", "play / pause");
    push_item(&mut lines, "n / p", "next / previous");
    push_item(&mut lines, "S", "shuffle queue");
    push_item(&mut lines, "R", "cycle repeat (off/all/one)");
    push_item(&mut lines, "F", "rescan library");
    push_item(&mut lines, "?", "toggle this help");
    push_item(&mut lines, "1-4", "switch tabs");
    push_line(&mut lines, Line::new());
    lines
}

/// The help on the keys of what the screen shows.
fn render_tab_help(tab: Tab, show_tags: bool, focus: PlaylistsFocus) -> (r: Vec<Line>)
    ensures
        lists::views(r@) == tab_help(tab, show_tags, focus),
{
    let mut lines = no_lines();
    match tab {
        Tab::Songs => {
            if show_tags {
                push_heading(&mut lines, "Songs — tags popup");
                push_item(&mut lines, "j/k", "navigate tags");
                push_item(&mut lines, "g / G", "top / bottom");
                push_item(&mut lines, "a", "add tag");
                push_item(&mut lines, "d", "remove user tag");
                push_item(&mut lines, "t / Esc", "close tags popup");
            } else {
                push_heading(&mut lines, "Songs");
                push_item(&mut lines, "j/k, PgUp/Dn", "move selection");
                push_item(&mut lines, "g / G", "top / bottom");
                push_item(&mut lines, "⏎", "play selected");
                push_item(&mut lines, "a", "queue selected");
                push_item(&mut lines, "E", "queue all (filtered)");
                push_item(&mut lines, "A", "add to playlist");
                push_item(&mut lines, "t", "show tags for selected");
                push_item(&mut lines, "/", "filter");
                push_item(&mut lines, "T", "tag search");
                push_item(&mut lines, "s", "sort by…");
                push_item(&mut lines, "Esc", "clear filter");
            }
        },
        Tab::Playlists => match focus {
            PlaylistsFocus::List => {
                push_heading(&mut lines, "Playlists");
                push_item(&mut lines, "j/k", "navigate");
                push_item(&mut lines, "⏎", "open playlist");
                push_item(&mut lines, "P", "play playlist");
                push_item(&mut lines, "N", "new playlist");
                push_item(&mut lines, "r", "rename");
                push_item(&mut lines, "D", "delete");
                push_item(&mut lines, "⇥", "tracks pane");
            },
            PlaylistsFocus::Tracks => {
                push_heading(&mut lines, "Playlist tracks");
                push_item(&mut lines, "j/k", "navigate");
                push_item(&mut lines, "J / K", "reorder down / up");
                push_item(&mut lines, "⏎", "play from here");
                push_item(&mut lines, "a", "queue track");
                push_item(&mut lines, "d", "remove from playlist");
                push_item(&mut lines, "⇥ / Esc", "back to playlists");
            },
        },
        Tab::Queue => {
            push_heading(&mut lines, "Queue");
            push_item(&mut lines, "j/k", "navigate");
            push_item(&mut lines, "g / G", "top / bottom");
            push_item(&mut lines, "J / K", "reorder down / up");
            push_item(&mut lines, "⏎", "jump to track");
            push_item(&mut lines, "d", "remove from queue");
        },
        Tab::Settings => {
            push_heading(&mut lines, "Settings");
            push_item(&mut lines, "j/k", "navigate fields");
            push_item(&mut lines, "⏎ / e", "edit field");
            push_item(&mut lines, "s", "save changes");
            push_item(&mut lines, "r / Esc", "revert");
        },
    }
    lines
}

/// The help.
pub fn render_help_overlay(tab: Tab, show_tags: bool, focus: PlaylistsFocus) -> (r: TextPane)
    ensures
        r@ == help(tab, show_tags, focus),
{
    let mut lines = render_global_help();
    let mut more = render_tab_help(tab, show_tags, focus);
    let ghost a = lines@;
    let ghost b = more@;
    lines.append(&mut more);
    assert(lists::views(a + b) =~= lists::views(a) + lists::views(b));
    let block = Block { title: text::copy(" Help (? to close) "), border: Style::Cyan };
    TextPane { block, lines }
}

// ---------------------------------------------------------------------------
// Playlists
// ---------------------------------------------------------------------------

/// A playlist in the list of playlists.
pub open spec fn playlist_line(p: PlaylistView) -> Seq<SpanView> {
    seq![
        span(p.name, Style::Bold),
        span("  ("@ + text::decimal_int(p.track_count as int) + ")"@, Style::Dim),
    ]
}

/// A track in the list of the tracks of a playlist.
pub open spec fn playlist_track_line(t: PlaylistTrackView) -> Seq<SpanView> {
    seq![
        span(text::right_aligned(text::decimal_int(t.position + 1), 3) + ". "@, Style::Dim),
        span(t.display_artist(), Style::Bold),
        span("  "@, Style::Plain),
        span(t.display_title(), Style::Plain),
    ]
}

/// The pane with the playlists.
pub open spec fn playlists_pane(app: AppView) -> ListPaneView {
    let focused = app.playlists_focus == PlaylistsFocus::List;
    ListPaneView {
        block: pane(" Playlists ("@ + text::decimal(app.playlists.len()) + ") "@, focused),
        items: app.playlists.map_values(|p: PlaylistView| playlist_line(p)),
        state: Some(app.playlists_state),
        highlight: focused,
    }
}

/// The title of the pane with the tracks of a playlist.
pub open spec fn playlist_tracks_title(app: AppView) -> Seq<char> {
    let name = match app.selected_playlist() {
        Some(p) => p.name,
        None => Seq::empty(),
    };
    if name.len() == 0 {
        " Tracks "@
    } else {
        " "@ + name + " ("@ + text::decimal(app.playlist_tracks.len()) + ") "@
    }
}

/// The pane with the tracks of a playlist.
pub open spec fn playlist_tracks_pane(app: AppView) -> ListPaneView {
    let focused = app.playlists_focus == PlaylistsFocus::Tracks;
    ListPaneView {
        block: pane(playlist_tracks_title(app), focused),
        items: app.playlist_tracks.map_values(|t: PlaylistTrackView| playlist_track_line(t)),
        state: Some(app.playlist_tracks_state),
        highlight: focused,
    }
}

/// A playlist in the list of playlists.
fn render_playlist(p: &Playlist) -> (r: Line)
    ensures
        r@ == playlist_line(p@),
{
    let count = text::cat3("  (", text::show_int(p.track_count).as_str(), ")");
    let r = Line::new().with(p.name.as_str(), Style::Bold).with(count.as_str(), Style::Dim);
    assert(r@ =~= playlist_line(p@));
    r
}

/// A track in the list of the tracks of a playlist.
fn render_playlist_track(t: &PlaylistTrack) -> (r: Line)
    ensures
        r@ == playlist_track_line(t@),
{
    let number = text::pad_left(text::show_successor(t.position).as_str(), 3);
    let number = text::cat(number.as_str(), ". ");
    let r = Line::new().with(number.as_str(), Style::Dim).with(
        t.display_artist(),
        Style::Bold,
    ).with("  ", Style::Plain).with(t.display_title(), Style::Plain);
    assert(r@ =~= playlist_track_line(t@));
    r
}

/// The pane with the playlists.
pub fn render_playlists_pane(app: &App) -> (r: ListPane)
    ensures
        r@ == playlists_pane(app@),
{
    let focused = app.playlists_focus == PlaylistsFocus::List;
    let ghost wanted = playlists_pane(app@).items;
    let mut items = no_lines();
    for i in 0..app.playlists.len()
        invariant
            wanted == playlists_pane(app@).items,
            lists::views(items@) =~= wanted.take(i as int),
    {
        let line = render_playlist(&app.playlists[i]);
        assert(wanted.take(i + 1) =~= wanted.take(i as int).push(line@));
        push_line(&mut items, line);
    }
    let count = text::show(app.playlists.len() as u64);
    let title = text::cat3(" Playlists (", count.as_str(), ") ");
    let r = ListPane {
        block: pane_block(title, focused),
        items,
        state: Some(app.playlists_state),
        highlight: focused,
    };
    assert(r@.items =~= wanted);
    r
}

/// The pane with the tracks of a playlist.
pub fn render_playlist_tracks_pane(app: &App) -> (r: ListPane)
    ensures
        r@ == playlist_tracks_pane(app@),
{
    let focused = app.playlists_focus == PlaylistsFocus::Tracks;
    let ghost wanted = playlist_tracks_pane(app@).items;
    let mut items = no_lines();
    for i in 0..app.playlist_tracks.len()
        invariant
            wanted == playlist_tracks_pane(app@).items,
            lists::views(items@) =~= wanted.take(i as int),
    {
        let line = render_playlist_track(&app.playlist_tracks[i]);
        assert(wanted.take(i + 1) =~= wanted.take(i as int).push(line@));
        push_line(&mut items, line);
    }
    let name = match app.selected_playlist() {
        Some(p) => p.name.clone(),
        None => String::new(),
    };
    let title = if name.as_str().is_empty() {
        text::copy(" Tracks ")
    } else {
        let count = text::show(app.playlist_tracks.len() as u64);
        let mut s = text::cat3(" ", name.as_str(), " (");
        s.append(count.as_str());
        s.append(") ");
        s
    };
    let r = ListPane {
        block: pane_block(title, focused),
        items,
        state: Some(app.playlist_tracks_state),
        highlight: focused,
    };
    assert(r@.items =~= wanted);
    r
}

// ---------------------------------------------------------------------------
// Pickers
// ---------------------------------------------------------------------------

/// What stands before an item of a picker.
pub open spec fn cursor(here: bool) -> Seq<char> {
    if here {
        "> "@
    } else {
        "  "@
    }
}

/// A playlist in the playlist picker.
pub open spec fn pick_line(p: PlaylistView, here: bool) -> Seq<SpanView> {
    seq![
        span(
            cursor(here) + p.name + "  ("@ + text::decimal_int(p.track_count as int) + ")"@,
            if here {
                Style::ReversedBold
            } else {
                Style::Plain
            },
        ),
    ]
}

/// The playlist picker.
pub open spec fn pick_pane(playlists: Seq<PlaylistView>, index: usize) -> ListPaneView {
    ListPaneView {
        block: BlockView {
            title: " add to playlist  (j/k, ⏎ confirm, Esc cancel) "@,
            border: Style::Cyan,
        },
        items: playlists.map(|i: int, p: PlaylistView| pick_line(p, i == index)),
        state: None,
        highlight: false,
    }
}

/// A key in the sort picker.
pub open spec fn sort_line(key: SortKey, here: bool, active: bool) -> Seq<SpanView> {
    seq![
        span(
            cursor(here) + key.label_text() + if active {
                " *"@
            } else {
                ""@
            },
            if here {
                Style::ReversedBold
            } else if active {
                Style::Green
            } else {
                Style::Plain
            },
        ),
    ]
}

/// The sort picker.
pub open spec fn sort_pane(sort_key: SortKey, index: usize) -> ListPaneView {
    ListPaneView {
        block: BlockView {
            title: " Sort by  (j/k, ⏎ confirm, Esc cancel) "@,
            border: Style::Cyan,
        },
        items: order::sort_keys().map(|i: int, k: SortKey| sort_line(k, i == index, k == sort_key)),
        state: None,
        highlight: false,
    }
}

/// The playlist picker.
pub fn render_pick_playlist_overlay(playlists: &Vec<Playlist>, index: usize) -> (r: ListPane)
    ensures
        r@ == pick_pane(lists::views(playlists@), index),
{
    let ghost wanted = pick_pane(lists::views(playlists@), index).items;
    let mut items = no_lines();
    for i in 0..playlists.len()
        invariant
            wanted == pick_pane(lists::views(playlists@), index).items,
            lists::views(items@) =~= wanted.take(i as int),
    {
        let p = &playlists[i];
        let (prefix, style) = if i == index {
            ("> ", Style::ReversedBold)
        } else {
            ("  ", Style::Plain)
        };
        let mut s = text::cat3(prefix, p.name.as_str(), "  (");
        s.append(text::show_int(p.track_count).as_str());
        s.append(")");
        let line = Line::new().with(s.as_str(), style);
        assert(line@ =~= wanted[i as int]);
        assert(wanted.take(i + 1) =~= wanted.take(i as int).push(line@));
        push_line(&mut items, line);
    }
    let block = Block {
        title: text::copy(" add to playlist  (j/k, ⏎ confirm, Esc cancel) "),
        border: Style::Cyan,
    };
    let r = ListPane { block, items, state: None, highlight: false };
    assert(r@.items =~= wanted);
    r
}

/// The sort picker.
pub fn render_sort_picker_overlay(sort_key: SortKey, index: usize) -> (r: ListPane)
    ensures
        r@ == sort_pane(sort_key, index),
{
    let all = SortKey::all();
    let ghost wanted = sort_pane(sort_key, index).items;
    let mut items = no_lines();
    for i in 0..all.len()
        invariant
            all@ == order::sort_keys(),
            wanted == sort_pane(sort_key, index).items,
            lists::views(items@) =~= wanted.take(i as int),
    {
        let here = i == index;
        let active = all[i] == sort_key;
        let prefix = if here {
            "> "
        } else {
            "  "
        };
        let marker = if active {
            " *"
        } else {
            ""
        };
        let style = if here {
            Style::ReversedBold
        } else if active {
            Style::Green
        } else {
            Style::Plain
        };
        let s = text::cat3(prefix, all[i].label(), marker);
        let line = Line::new().with(s.as_str(), style);
        assert(line@ =~= wanted[i as int]);
        assert(wanted.take(i + 1) =~= wanted.take(i as int).push(line@));
        push_line(&mut items, line);
    }
    let block = Block {
        title: text::copy(" Sort by  (j/k, ⏎ confirm, Esc cancel) "),
        border: Style::Cyan,
    };
    let r = ListPane { block, items, state: None, highlight: false };
    assert(r@.items =~= wanted);
    r
}

// ---------------------------------------------------------------------------
// Settings
// ---------------------------------------------------------------------------

/// The line of a field of the settings.
pub open spec fn field_line(app: AppView, field: SettingsField) -> Seq<SpanView> {
    let selected = app.settings_field == field;
    let typed = match app.mode {
        ModeView::EditSetting(f, buf) => if f == field {
            Some(buf)
        } else {
            None
        },
        _ => None,
    };
    seq![
        span(cursor(selected), Style::Plain),
        span(
            text::left_aligned(field.label_text(), 12),
            if selected {
                Style::Bold
            } else {
                Style::Plain
            },
        ),
        span("  "@, Style::Plain),
        match typed {
            Some(buf) => span(buf + "_"@, Style::Yellow),
            None => span(
                app.field_text(field),
                if selected {
                    Style::Plain
                } else {
                    Style::Dim
                },
            ),
        },
    ]
}

/// The last line of the settings: whether they are saved, and where.
pub open spec fn saved_line(app: AppView, config: Seq<char>) -> Seq<SpanView> {
    if app.settings == app.saved_settings {
        seq![span("  config: "@ + config, Style::Dim)]
    } else {
        seq![span("  unsaved changes — 's' save, 'r'/Esc revert"@, Style::Yellow)]
    }
}

/// The settings.
pub open spec fn settings_pane(app: AppView, config: Seq<char>) -> TextPaneView {
    TextPaneView {
        block: BlockView { title: " Settings "@, border: Style::Plain },
        lines: seq![
            Seq::empty(),
            field_line(app, SettingsField::ServerUrl),
            Seq::empty(),
            field_line(app, SettingsField::AuthToken),
            Seq::empty(),
            saved_line(app, config),
        ],
    }
}

/// The line of a field of the settings.
fn render_field(app: &App, field: SettingsField) -> (r: Line)
    ensures
        r@ == field_line(app@, field),
{
    let selected = app.settings_field == field;
    let (prefix, label_style) = if selected {
        ("> ", Style::Bold)
    } else {
        ("  ", Style::Plain)
    };
    let label = text::pad_right(field.label(), 12);
    let r = Line::new().with(prefix, Style::Plain).with(label.as_str(), label_style).with(
        "  ",
        Style::Plain,
    );
    if let Mode::EditSetting(f, buf) = &app.mode {
        if *f == field {
            let s = text::cat(buf.as_str(), "_");
            let r = r.with(s.as_str(), Style::Yellow);
            assert(r@ =~= field_line(app@, field));
            return r;
        }
    }
    let value = match field {
        SettingsField::ServerUrl => app.settings.server_url.as_str(),
        SettingsField::AuthToken => app.settings.auth_token.as_str(),
    };
    let style = if selected {
        Style::Plain
    } else {
        Style::Dim
    };
    let r = r.with(value, style);
    assert(r@ =~= field_line(app@, field));
    r
}

/// The settings, where `config` is the file that holds them.
pub fn render_settings(app: &App, config: &str) -> (r: TextPane)
    ensures
        r@ == settings_pane(app@, config@),
{
    let mut lines = no_lines();
    push_line(&mut lines, Line::new());
    push_line(&mut lines, render_field(app, SettingsField::ServerUrl));
    push_line(&mut lines, Line::new());
    push_line(&mut lines, render_field(app, SettingsField::AuthToken));
    push_line(&mut lines, Line::new());
    let last = if app.settings.same(&app.saved_settings) {
        let s = text::cat("  config: ", config);
        Line::new().with(s.as_str(), Style::Dim)
    } else {
        Line::new().with("  unsaved changes — 's' save, 'r'/Esc revert", Style::Yellow)
    };
    push_line(&mut lines, last);
    assert(lists::views(lines@) =~= settings_pane(app@, config@).lines);
    TextPane { block: Block { title: text::copy(" Settings "), border: Style::Plain }, lines }
}

// ---------------------------------------------------------------------------
// Tracks and the queue
// ---------------------------------------------------------------------------

/// The numbers of tracks.
pub open spec fn numbers(tracks: Seq<TrackView>) -> Seq<i64> {
    tracks.map_values(|t: TrackView| t.id)
}

/// The track that an address names, if it is one of these.
pub open spec fn named_track(tracks: Seq<TrackView>, url: Seq<char>) -> Option<TrackView> {
    match parse::id_in_url(url) {
        Some(id) => match lists::place_of(numbers(tracks), id as i64) {
            Some(i) => Some(tracks[i as int]),
            None => None,
        },
        None => None,
    }
}

/// A track in one line.
pub open spec fn track_label(t: TrackView) -> Seq<char> {
    t.display_artist() + " — "@ + t.display_title()
}

/// What an address is shown as: the track that it names, or the address itself.
pub open spec fn url_label(tracks: Seq<TrackView>, url: Seq<char>) -> Seq<char> {
    match named_track(tracks, url) {
        Some(t) => track_label(t),
        None => url,
    }
}

/// What stands before a track: whether it plays or pauses.
pub open spec fn mark(current: bool, paused: bool) -> Seq<char> {
    if !current {
        "  "@
    } else if paused {
        "‖ "@
    } else {
        "▶ "@
    }
}

/// An entry of the queue.
pub open spec fn entry_line(tracks: Seq<TrackView>, e: PlaylistEntryView, paused: bool) -> Seq<
    SpanView,
> {
    seq![
        span(
            mark(e.current, paused) + url_label(tracks, e.url),
            if e.current {
                Style::Bold
            } else {
                Style::Plain
            },
        ),
    ]
}

/// The queue.
pub open spec fn queue_pane(app: AppView, player: PlayerStateView) -> ListPaneView {
    ListPaneView {
        block: BlockView {
            title: " Queue ("@ + text::decimal(player.playlist.len()) + ") "@,
            border: Style::Plain,
        },
        items: player.playlist.map_values(
            |e: PlaylistEntryView| entry_line(app.tracks, e, player.paused),
        ),
        state: Some(app.queue_state),
        highlight: true,
    }
}

/// The number of the track that plays.
pub open spec fn playing_id(player: PlayerStateView) -> Option<int> {
    match player.current_path {
        Some(url) => parse::id_in_url(url),
        None => None,
    }
}

/// A track in the list of tracks.
pub open spec fn song_line(t: TrackView, player: PlayerStateView) -> Seq<SpanView> {
    seq![
        span(mark(playing_id(player) == Some(t.id as int), player.paused), Style::Plain),
        span(t.display_artist(), Style::Bold),
        span("  "@, Style::Plain),
        span(t.display_title(), Style::Plain),
        span("  "@, Style::Plain),
        span("["@ + t.display_album() + "]"@, Style::Dim),
    ]
}

/// The list of tracks.
pub open spec fn songs_pane(app: AppView, player: PlayerStateView) -> ListPaneView {
    ListPaneView {
        block: pane(
            " muserv — "@ + text::decimal(app.filtered.len()) + " / "@ + text::decimal(
                app.tracks.len(),
            ) + " "@,
            true,
        ),
        items: app.filtered.map_values(|i: usize| song_line(app.tracks[i as int], player)),
        state: Some(app.list_state),
        highlight: true,
    }
}

/// The track that an address names, if it is one of these.
fn find_named<'a>(tracks: &'a Vec<Track>, url: &str) -> (r: Option<&'a Track>)
    ensures
        match r {
            Some(t) => named_track(lists::views(tracks@), url@) == Some(t@),
            None => named_track(lists::views(tracks@), url@) is None,
        },
{
    let id: i64 = match parse::track_id_from_url(url) {
        Some(id) => id,
        None => return None,
    };
    let ghost ids = numbers(lists::views(tracks@));
    for i in 0..tracks.len()
        invariant
            ids == numbers(lists::views(tracks@)),
            lists::place_from(ids, id, 0) == lists::place_from(ids, id, i as int),
            parse::id_in_url(url@) == Some(id as int),
    {
        if tracks[i].id == id {
            return Some(&tracks[i]);
        }
    }
    None
}

/// A track in one line.
fn label_track(t: &Track) -> (r: String)
    ensures
        r@ == track_label(t@),
{
    text::cat3(t.display_artist(), " — ", t.display_title())
}

/// What an address is shown as.
fn label_url(tracks: &Vec<Track>, url: &str) -> (r: String)
    ensures
        r@ == url_label(lists::views(tracks@), url@),
{
    match find_named(tracks, url) {
        Some(t) => label_track(t),
        None => text::copy(url),
    }
}

/// What stands before a track.
fn mark_text(current: bool, paused: bool) -> (r: &'static str)
    ensures
        r@ == mark(current, paused),
{
    if !current {
        "  "
    } else if paused {
        "‖ "
    } else {
        "▶ "
    }
}

/// An entry of the queue.
fn render_entry(tracks: &Vec<Track>, e: &PlaylistEntry, paused: bool) -> (r: Line)
    ensures
        r@ == entry_line(lists::views(tracks@), e@, paused),
{
    let label = label_url(tracks, e.url.as_str());
    let s = text::cat(mark_text(e.current, paused), label.as_str());
    let style = if e.current {
        Style::Bold
    } else {
        Style::Plain
    };
    Line::new().with(s.as_str(), style)
}

/// The queue.
pub fn render_queue(app: &App, player: &PlayerState) -> (r: ListPane)
    ensures
        r@ == queue_pane(app@, player@),
{
    let ghost wanted = queue_pane(app@, player@).items;
    let mut items = no_lines();
    for i in 0..player.playlist.len()
        invariant
            wanted == queue_pane(app@, player@).items,
            lists::views(items@) =~= wanted.take(i as int),
    {
        let line = render_entry(&app.tracks, &player.playlist[i], player.paused);
        assert(player@.playlist[i as int] == player.playlist@[i as int]@);
        assert(wanted.take(i + 1) =~= wanted.take(i as int).push(line@));
        push_line(&mut items, line);
    }
    let count = text::show(player.playlist.len() as u64);
    let block = Block {
        title: text::cat3(" Queue (", count.as_str(), ") "),
        border: Style::Plain,
    };
    let r = ListPane { block, items, state: Some(app.queue_state), highlight: true };
    assert(r@.items =~= wanted);
    r
}

/// The list of tracks.
pub fn render_list(app: &App, player: &PlayerState) -> (r: ListPane)
    requires
        app@.wf(),
    ensures
        r@ == songs_pane(app@, player@),
{
    let now: Option<i64> = match &player.current_path {
        Some(url) => parse::track_id_from_url(url.as_str()),
        None => None,
    };
    let ghost wanted = songs_pane(app@, player@).items;
    let mut items = no_lines();
    for i in 0..app.filtered.len()
        invariant
            app@.wf(),
            parse::number(now) == playing_id(player@),
            wanted == songs_pane(app@, player@).items,
            lists::views(items@) =~= wanted.take(i as int),
    {
        assert(app@.filtered[i as int] < app@.tracks.len());
        let t = &app.tracks[app.filtered[i]];
        assert(t@ == app@.tracks[app@.filtered[i as int] as int]);
        let current = match now {
            Some(id) => id == t.id,
            None => false,
        };
        let album = text::cat3("[", t.display_album(), "]");
        let line = Line::new().with(mark_text(current, player.paused), Style::Plain).with(
            t.display_artist(),
            Style::Bold,
        ).with("  ", Style::Plain).with(t.display_title(), Style::Plain).with(
            "  ",
            Style::Plain,
        ).with(album.as_str(), Style::Dim);
        assert(line@ =~= song_line(t@, player@));
        assert(wanted.take(i + 1) =~= wanted.take(i as int).push(line@));
        push_line(&mut items, line);
    }
    let mut title = text::cat3(
        " muserv — ",
        text::show(app.filtered.len() as u64).as_str(),
        " / ",
    );
    title.append(text::show(app.tracks.len() as u64).as_str());
    title.append(" ");
    let r = ListPane {
        block: pane_block(title, true),
        items,
        state: Some(app.list_state),
        highlight: true,
    };
    assert(r@.items =~= wanted);
    r
}

// ---------------------------------------------------------------------------
// Tags
// ---------------------------------------------------------------------------

/// A tag in the list of tags.
pub open spec fn tag_line(t: TrackTagView) -> Seq<SpanView> {
    seq![
        span(
            t.display() + if t.is_user() {
                " *"@
            } else {
                ""@
            },
            if t.is_user() {
                Style::Green
            } else {
                Style::Dim
            },
        ),
    ]
}

/// The tags of the selected track.
pub open spec fn tags_pane(app: AppView) -> ListPaneView {
    let label = match app.selected_track() {
        Some(t) => track_label(t),
        None => "no track"@,
    };
    ListPaneView {
        block: BlockView {
            title: " Tags — "@ + label + " ("@ + text::decimal(app.current_tags.len()) + ") "@,
            border: Style::Cyan,
        },
        items: app.current_tags.map_values(|t: TrackTagView| tag_line(t)),
        state: Some(app.tags_state),
        highlight: true,
    }
}

/// A tag in the list of tags.
fn render_tag(t: &TrackTag) -> (r: Line)
    ensures
        r@ == tag_line(t@),
{
    let label = t.display();
    let (badge, style) = if t.is_user() {
        (" *", Style::Green)
    } else {
        ("", Style::Dim)
    };
    let s = text::cat(label.as_str(), badge);
    Line::new().with(s.as_str(), style)
}

/// The tags of the selected track.
pub fn render_tags_overlay(app: &App) -> (r: ListPane)
    ensures
        r@ == tags_pane(app@),
{
    let ghost wanted = tags_pane(app@).items;
    let mut items = no_lines();
    for i in 0..app.current_tags.len()
        invariant
            wanted == tags_pane(app@).items,
            lists::views(items@) =~= wanted.take(i as int),
    {
        let line = render_tag(&app.current_tags[i]);
        assert(wanted.take(i + 1) =~= wanted.take(i as int).push(line@));
        push_line(&mut items, line);
    }
    let label = match app.selected_track() {
        Some(t) => label_track(t),
        None => text::copy("no track"),
    };
    let mut title = text::cat3(" Tags — ", label.as_str(), " (");
    title.append(text::show(app.current_tags.len() as u64).as_str());
    title.append(") ");
    let block = Block { title, border: Style::Cyan };
    let r = ListPane { block, items, state: Some(app.tags_state), highlight: true };
    assert(r@.items =~= wanted);
    r
}

// ---------------------------------------------------------------------------
// Footer
// ---------------------------------------------------------------------------

/// A time, or a dash where it is not known.
pub open spec fn time_or_dash(t: Option<u64>) -> Seq<char> {
    match t {
        Some(s) => parse::time_text(s as nat),
        None => "—"@,
    }
}

/// What plays.
pub open spec fn playing_line(app: AppView, player: PlayerStateView) -> Seq<SpanView> {
    if player.stopped() {
        seq![span("■ stopped"@, Style::Bold)]
    } else {
        let glyph = if player.paused {
            "‖"@
        } else {
            "▶"@
        };
        let front = seq![
            span(glyph + " "@, Style::Bold),
            span(url_label(app.tracks, player.current_path->0), Style::Plain),
            span(
                "   "@ + time_or_dash(player.time_pos) + " / "@ + time_or_dash(player.duration),
                Style::Dim,
            ),
        ];
        let repeat = app.repeat.label_text();
        if repeat.len() == 0 {
            front
        } else {
            front.push(span("   "@ + repeat, Style::Cyan))
        }
    }
}

/// What is being typed or picked.
pub open spec fn prompt_line(mode: ModeView) -> Seq<SpanView> {
    match mode {
        ModeView::Filter(buf) => seq![
            span("/"@, Style::Bold),
            span(buf, Style::Plain),
            span("_"@, Style::Plain),
        ],
        ModeView::TagSearch(buf) => seq![
            span("T"@, Style::CyanBold),
            span(" tag: "@, Style::Plain),
            span(buf, Style::Plain),
            span("_"@, Style::Plain),
        ],
        ModeView::AddTag(buf) => seq![
            span("+tag "@, Style::Green),
            span(buf, Style::Plain),
            span("_"@, Style::Plain),
        ],
        ModeView::EditSetting(field, _) => seq![
            span("editing "@ + field.label_text() + ": "@, Style::Yellow),
            span("⏎ commit  Esc cancel"@, Style::Dim),
        ],
        ModeView::NewPlaylist(buf) => seq![
            span("new playlist "@, Style::Green),
            span(buf, Style::Plain),
            span("_"@, Style::Plain),
        ],
        ModeView::RenamePlaylist(_, buf) => seq![
            span("rename "@, Style::Yellow),
            span(buf, Style::Plain),
            span("_"@, Style::Plain),
        ],
        ModeView::PickPlaylist { .. } => seq![
            span("pick playlist (j/k, ⏎ confirm, Esc cancel)"@, Style::Cyan),
        ],
        ModeView::SortPicker { .. } => seq![
            span("sort songs (j/k, ⏎ confirm, Esc cancel)"@, Style::Cyan),
        ],
        ModeView::Normal => Seq::empty(),
    }
}

/// A time, or a dash where it is not known.
fn show_time(t: Option<u64>) -> (r: String)
    ensures
        r@ == time_or_dash(t),
{
    match t {
        Some(s) => parse::fmt_time(s),
        None => text::copy("—"),
    }
}

/// What plays.
pub fn now_playing_line(app: &App, player: &PlayerState) -> (r: Line)
    ensures
        r@ == playing_line(app@, player@),
{
    if player.is_stopped() {
        return Line::new().with("■ stopped", Style::Bold);
    }
    let glyph = if player.paused {
        "‖"
    } else {
        "▶"
    };
    let glyph = text::cat(glyph, " ");
    let label = match &player.current_path {
        Some(url) => label_url(&app.tracks, url.as_str()),
        None => String::new(),
    };
    let mut time = text::cat3("   ", show_time(player.time_pos).as_str(), " / ");
    time.append(show_time(player.duration).as_str());
    let r = Line::new().with(glyph.as_str(), Style::Bold).with(label.as_str(), Style::Plain).with(
        time.as_str(),
        Style::Dim,
    );
    let repeat = app.repeat.label();
    let r = if repeat.is_empty() {
        r
    } else {
        let s = text::cat("   ", repeat);
        r.with(s.as_str(), Style::Cyan)
    };
    assert(r@ =~= playing_line(app@, player@));
    r
}

/// A line with a start, a text being typed, and a cursor.
fn typing_line(start: &str, style: Style, buf: &str) -> (r: Line)
    ensures
        r@ == seq![span(start@, style), span(buf@, Style::Plain), span("_"@, Style::Plain)],
{
    let r = Line::new().with(start, style).with(buf, Style::Plain).with("_", Style::Plain);
    assert(r@ =~= seq![span(start@, style), span(buf@, Style::Plain), span("_"@, Style::Plain)]);
    r
}

/// What is being typed or picked.
pub fn prompt_or_hints_line(mode: &Mode) -> (r: Line)
    ensures
        r@ == prompt_line(mode@),
{
    let r = match mode {
        Mode::Filter(buf) => typing_line("/", Style::Bold, buf.as_str()),
        Mode::TagSearch(buf) => Line::new().with("T", Style::CyanBold).with(
            " tag: ",
            Style::Plain,
        ).with(buf.as_str(), Style::Plain).with("_", Style::Plain),
        Mode::AddTag(buf) => typing_line("+tag ", Style::Green, buf.as_str()),
        Mode::EditSetting(field, _) => {
            let s = text::cat3("editing ", field.label(), ": ");
            Line::new().with(s.as_str(), Style::Yellow).with("⏎ commit  Esc cancel", Style::Dim)
        },
        Mode::NewPlaylist(buf) => typing_line("new playlist ", Style::Green, buf.as_str()),
        Mode::RenamePlaylist(_, buf) => typing_line("rename ", Style::Yellow, buf.as_str()),
        Mode::PickPlaylist { .. } => Line::new().with(
            "pick playlist (j/k, ⏎ confirm, Esc cancel)",
            Style::Cyan,
        ),
        Mode::SortPicker { .. } => Line::new().with(
            "sort songs (j/k, ⏎ confirm, Esc cancel)",
            Style::Cyan,
        ),
        Mode::Normal => Line::new(),
    };
    assert(r@ =~= prompt_line(mode@));
    r
}

// ---------------------------------------------------------------------------
// The screen
// ---------------------------------------------------------------------------

/// What stands between the tabs and the footer.
#[derive(Debug)]
pub enum Body {
    Songs(ListPane),
    Playlists(ListPane, ListPane),
    Queue(ListPane),
    Settings(TextPane),
}

/// A `Body`, with its texts as characters.
pub enum BodyView {
    Songs(ListPaneView),
    Playlists(ListPaneView, ListPaneView),
    Queue(ListPaneView),
    Settings(TextPaneView),
}

impl View for Body {
    type V = BodyView;

    open spec fn view(&self) -> BodyView {
        match self {
            Body::Songs(p) => BodyView::Songs(p@),
            Body::Playlists(p, q) => BodyView::Playlists(p@, q@),
            Body::Queue(p) => BodyView::Queue(p@),
            Body::Settings(p) => BodyView::Settings(p@),
        }
    }
}

/// What stands in the middle of the screen, over everything else.
#[derive(Debug)]
pub enum Overlay {
    Tags(ListPane),
    Help(TextPane),
    PickPlaylist(ListPane),
    SortPicker(ListPane),
}

/// An `Overlay`, with its texts as characters.
pub enum OverlayView {
    Tags(ListPaneView),
    Help(TextPaneView),
    PickPlaylist(ListPaneView),
    SortPicker(ListPaneView),
}

impl View for Overlay {
    type V = OverlayView;

    open spec fn view(&self) -> OverlayView {
        match self {
            Overlay::Tags(p) => OverlayView::Tags(p@),
            Overlay::Help(p) => OverlayView::Help(p@),
            Overlay::PickPlaylist(p) => OverlayView::PickPlaylist(p@),
            Overlay::SortPicker(p) => OverlayView::SortPicker(p@),
        }
    }
}

impl Overlay {
    /// How wide and how high the overlay is, in percent of the screen.
    pub fn size(&self) -> (r: (u16, u16))
        ensures
            r.0 <= 100,
            r.1 <= 100,
            r == match self@ {
                OverlayView::Tags(_) => (60u16, 70u16),
                OverlayView::Help(_) => (70u16, 80u16),
                OverlayView::PickPlaylist(_) => (60u16, 60u16),
                OverlayView::SortPicker(_) => (50u16, 50u16),
            },
    {
        match self {
            Overlay::Tags(_) => (60, 70),
            Overlay::Help(_) => (70, 80),
            Overlay::PickPlaylist(_) => (60, 60),
            Overlay::SortPicker(_) => (50, 50),
        }
    }
}

/// What the screen shows. The prompt is there where something is typed or picked.
#[derive(Debug)]
pub struct Screen {
    pub tabs: Line,
    pub body: Body,
    pub playing: Line,
    pub status: Line,
    pub status_width: u16,
    pub prompt: Option<Line>,
    pub overlays: Vec<Overlay>,
}

/// A `Screen`, with its texts as characters.
#[verifier::ext_equal]
pub struct ScreenView {
    pub tabs: Seq<SpanView>,
    pub body: BodyView,
    pub playing: Seq<SpanView>,
    pub status: Seq<SpanView>,
    pub status_width: u16,
    pub prompt: Option<Seq<SpanView>>,
    pub overlays: Seq<OverlayView>,
}

impl View for Screen {
    type V = ScreenView;

    open spec fn view(&self) -> ScreenView {
        ScreenView {
            tabs: self.tabs@,
            body: self.body@,
            playing: self.playing@,
            status: self.status@,
            status_width: self.status_width,
            prompt: match self.prompt {
                Some(l) => Some(l@),
                None => None,
            },
            overlays: lists::views(self.overlays@),
        }
    }
}

/// What stands between the tabs and the footer.
pub open spec fn body(app: AppView, player: PlayerStateView, config: Seq<char>) -> BodyView {
    match app.tab {
        Tab::Songs => BodyView::Songs(songs_pane(app, player)),
        Tab::Playlists => BodyView::Playlists(playlists_pane(app), playlist_tracks_pane(app)),
        Tab::Queue => BodyView::Queue(queue_pane(app, player)),
        Tab::Settings => BodyView::Settings(settings_pane(app, config)),
    }
}

/// Nothing, or one overlay.
pub open spec fn where_shown(shown: bool, overlay: OverlayView) -> Seq<OverlayView> {
    if shown {
        seq![overlay]
    } else {
        Seq::empty()
    }
}

/// What stands over everything else: the tags, the help, and what is picked.
pub open spec fn overlays(app: AppView) -> Seq<OverlayView> {
    where_shown(app.tab == Tab::Songs && app.show_tags, OverlayView::Tags(tags_pane(app)))
        + where_shown(
        app.show_help,
        OverlayView::Help(help(app.tab, app.show_tags, app.playlists_focus)),
    ) + match app.mode {
        ModeView::PickPlaylist { index, .. } => seq![
            OverlayView::PickPlaylist(pick_pane(app.playlists, index)),
        ],
        ModeView::SortPicker { index } => seq![
            OverlayView::SortPicker(sort_pane(app.sort_key, index)),
        ],
        _ => Seq::empty(),
    }
}

/// What the screen shows.
pub open spec fn screen(app: AppView, player: PlayerStateView, config: Seq<char>) -> ScreenView {
    ScreenView {
        tabs: tabs_line(app.tab, state::tabs().len()),
        body: body(app, player, config),
        playing: playing_line(app, player),
        status: seq![span(app.status_msg, Style::Yellow)],
        status_width: app.status_msg.len() as u16,
        prompt: if app.mode == ModeView::Normal {
            None
        } else {
            Some(prompt_line(app.mode))
        },
        overlays: overlays(app),
    }
}

/// The client before it is drawn: the selections in the queue and in the tags are brought
/// into their lists where these are in sight.
pub open spec fn before_drawing(app: AppView, player: PlayerStateView) -> AppView {
    let queue = if app.tab == Tab::Queue {
        app.with_entry(lists::in_range(app.queue_state.selected, player.playlist.len()))
    } else {
        app
    };
    if app.tab == Tab::Songs && app.show_tags && app.tags_state.selected is None
        && app.current_tags.len() > 0 {
        queue.with_tag(Some(0))
    } else {
        queue
    }
}

/// Adds an overlay.
fn push_overlay(overlays: &mut Vec<Overlay>, overlay: Overlay)
    ensures
        lists::views(final(overlays)@) == lists::views(old(overlays)@).push(overlay@),
{
    overlays.push(overlay);
    assert(lists::views(overlays@) =~= lists::views(old(overlays)@).push(overlay@));
}

/// What stands between the tabs and the footer.
fn render_body(app: &App, player: &PlayerState, config: &str) -> (r: Body)
    requires
        app@.wf(),
    ensures
        r@ == body(app@, player@, config@),
{
    match app.tab {
        Tab::Songs => Body::Songs(render_list(app, player)),
        Tab::Playlists => Body::Playlists(
            render_playlists_pane(app),
            render_playlist_tracks_pane(app),
        ),
        Tab::Queue => Body::Queue(render_queue(app, player)),
        Tab::Settings => Body::Settings(render_settings(app, config)),
    }
}

/// What stands over everything else.
fn render_overlays(app: &App) -> (r: Vec<Overlay>)
    ensures
        lists::views(r@) == overlays(app@),
{
    let mut r: Vec<Overlay> = Vec::new();
    assert(lists::views(r@) =~= Seq::empty());
    if app.tab == Tab::Songs && app.show_tags {
        push_overlay(&mut r, Overlay::Tags(render_tags_overlay(app)));
    }
    if app.show_help {
        let pane = render_help_overlay(app.tab, app.show_tags, app.playlists_focus);
        push_overlay(&mut r, Overlay::Help(pane));
    }
    if let Mode::PickPlaylist { index, .. } = &app.mode {
        let pane = render_pick_playlist_overlay(&app.playlists, *index);
        push_overlay(&mut r, Overlay::PickPlaylist(pane));
    }
    if let Mode::SortPicker { index } = &app.mode {
        let pane = render_sort_picker_overlay(app.sort_key, *index);
        push_overlay(&mut r, Overlay::SortPicker(pane));
    }
    assert(lists::views(r@) =~= overlays(app@));
    r
}

/// A list on the screen whose selection is kept.
#[derive(Debug, Clone, Copy, PartialEq, Eq, Structural)]
pub enum Pane {
    Songs,
    Playlists,
    PlaylistTracks,
    Queue,
    Tags,
}

/// A state of a list with its selection brought into the list.
pub open spec fn kept(state: ListState, len: nat) -> ListState {
    ListState {
        offset: state.offset,
        selected: match state.selected {
            Some(i) => if i < len {
                Some(i)
            } else {
                lists::last(len)
            },
            None => None,
        },
    }
}

/// A state of a list with its selection brought into the list.
fn keep(state: ListState, len: usize) -> (r: ListState)
    ensures
        r == kept(state, len as nat),
{
    let selected = match state.selected {
        Some(i) => if i < len {
            Some(i)
        } else {
            lists::last_of(len)
        },
        None => None,
    };
    ListState { offset: state.offset, selected }
}

/// The client after a list has been drawn, which scrolls it to its selected item.
pub open spec fn after_drawing(app: AppView, pane: Pane, state: ListState) -> AppView {
    match pane {
        Pane::Songs => AppView {
            list_state: ListState {
                offset: state.offset,
                selected: lists::in_range(state.selected, app.filtered.len()),
            },
            ..app
        },
        Pane::Playlists => AppView { playlists_state: kept(state, app.playlists.len()), ..app },
        Pane::PlaylistTracks => AppView {
            playlist_tracks_state: kept(state, app.playlist_tracks.len()),
            ..app
        },
        Pane::Queue => AppView { queue_state: state, ..app },
        Pane::Tags => AppView { tags_state: state, ..app },
    }
}

impl App {
    /// What the screen shows, where `config` is the file that holds the settings.
    pub fn render(&mut self, player: &PlayerState, config: &str) -> (r: Screen)
        requires
            old(self)@.wf(),
        ensures
            final(self)@ == before_drawing(old(self)@, player@),
            r@ == screen(final(self)@, player@, config@),
            final(self)@.wf(),
    {
        if self.tab == Tab::Queue {
            self.queue_state.select(
                lists::bring_in_range(self.queue_state.selected, player.playlist.len()),
            );
        }
        if self.tab == Tab::Songs && self.show_tags && self.tags_state.selected.is_none()
            && self.current_tags.len() > 0 {
            self.tags_state.select(Some(0));
        }
        let prompt = match &self.mode {
            Mode::Normal => None,
            mode => Some(prompt_or_hints_line(mode)),
        };
        let r = Screen {
            tabs: render_tabs(self.tab),
            body: render_body(self, player, config),
            playing: now_playing_line(self, player),
            status: Line::new().with(self.status_msg.as_str(), Style::Yellow),
            status_width: self.status_msg.as_str().unicode_len() as u16,
            prompt,
            overlays: render_overlays(self),
        };
        assert(r@ =~= screen(self@, player@, config@));
        r
    }

    /// Takes in the state of a list after it has been drawn.
    pub fn drawn(&mut self, pane: Pane, state: ListState)
        requires
            old(self)@.wf(),
        ensures
            final(self)@ == after_drawing(old(self)@, pane, state),
            final(self)@.wf(),
    {
        match pane {
            Pane::Songs => {
                let selected = lists::bring_in_range(state.selected, self.filtered.len());
                self.list_state = ListState { offset: state.offset, selected };
            },
            Pane::Playlists => {
                self.playlists_state = keep(state, self.playlists.len());
            },
            Pane::PlaylistTracks => {
                self.playlist_tracks_state = keep(state, self.playlist_tracks.len());
            },
            Pane::Queue => {
                self.queue_state = state;
            },
            Pane::Tags => {
                self.tags_state = state;
            },
        }
    }
}

} // verus!
