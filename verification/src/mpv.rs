//! The player: what it reports, and what it is told.

use crate::json;
use crate::json::{Arg, ArgView, Node, NodeView};
use crate::lists;
use crate::shuffle;
use crate::text;
use vstd::prelude::*;

verus! {

// ---------------------------------------------------------------------------
// What the player reports
// ---------------------------------------------------------------------------

/// An entry of the player's queue.
#[derive(Debug)]
pub struct PlaylistEntry {
    pub url: String,
    pub current: bool,
}

/// A `PlaylistEntry`, with its address as characters.
pub struct PlaylistEntryView {
    pub url: Seq<char>,
    pub current: bool,
}

impl View for PlaylistEntry {
    type V = PlaylistEntryView;

    open spec fn view(&self) -> PlaylistEntryView {
        PlaylistEntryView { url: self.url@, current: self.current }
    }
}

impl Clone for PlaylistEntry {
    fn clone(&self) -> (r: Self)
        ensures
            r == *self,
    {
        PlaylistEntry { url: self.url.clone(), current: self.current }
    }
}

/// What is known of the player. Times are whole seconds.
#[derive(Debug)]
pub struct PlayerState {
    pub time_pos: Option<u64>,
    pub duration: Option<u64>,
    pub paused: bool,
    pub idle_active: bool,
    pub current_path: Option<String>,
    pub playlist: Vec<PlaylistEntry>,
}

/// A `PlayerState`, with its texts as characters.
#[verifier::ext_equal]
pub struct PlayerStateView {
    pub time_pos: Option<u64>,
    pub duration: Option<u64>,
    pub paused: bool,
    pub idle_active: bool,
    pub current_path: Option<Seq<char>>,
    pub playlist: Seq<PlaylistEntryView>,
}

impl View for PlayerState {
    type V = PlayerStateView;

    open spec fn view(&self) -> PlayerStateView {
        PlayerStateView {
            time_pos: self.time_pos,
            duration: self.duration,
            paused: self.paused,
            idle_active: self.idle_active,
            current_path: text::opt(self.current_path),
            playlist: lists::views(self.playlist@),
        }
    }
}

/// An item of an array that the player reports: what its two fields hold, where they are
/// a text and a truth value.
#[derive(Debug)]
pub struct Item {
    pub filename: Option<String>,
    pub current: Option<bool>,
}

/// An `Item`, with its text as characters.
pub struct ItemView {
    pub filename: Option<Seq<char>>,
    pub current: Option<bool>,
}

impl View for Item {
    type V = ItemView;

    open spec fn view(&self) -> ItemView {
        ItemView { filename: text::opt(self.filename), current: self.current }
    }
}

/// A line from the player: which event it tells of, the name of a property, what the
/// property is now, and its items where it is an array.
#[derive(Debug)]
pub struct Report {
    pub event: Option<String>,
    pub name: Option<String>,
    pub data: Option<Node>,
    pub items: Vec<Item>,
}

/// A `Report`, with its texts as characters.
#[verifier::ext_equal]
pub struct ReportView {
    pub event: Option<Seq<char>>,
    pub name: Option<Seq<char>>,
    pub data: Option<NodeView>,
    pub items: Seq<ItemView>,
}

impl View for Report {
    type V = ReportView;

    open spec fn view(&self) -> ReportView {
        ReportView {
            event: text::opt(self.event),
            name: text::opt(self.name),
            data: json::opt_node(self.data),
            items: lists::views(self.items@),
        }
    }
}

/// A node where it is a text.
pub open spec fn as_text(node: Option<NodeView>) -> Option<Seq<char>> {
    match node {
        Some(NodeView::Text(s)) => Some(s),
        _ => None,
    }
}

/// A node where it is a truth value.
pub open spec fn as_flag(node: Option<NodeView>) -> Option<bool> {
    match node {
        Some(NodeView::Bool(b)) => Some(b),
        _ => None,
    }
}

/// A node where it is a number.
pub open spec fn as_seconds(node: Option<NodeView>) -> Option<u64> {
    match node {
        Some(NodeView::Number(n)) => n,
        _ => None,
    }
}

/// Where the field of an item stands.
pub open spec fn item_pointer(i: nat, field: Seq<char>) -> Seq<char> {
    "/data/"@ + text::decimal(i) + field
}

/// How many items a property has.
pub open spec fn item_count(data: Option<NodeView>) -> nat {
    match data {
        Some(NodeView::Array(n)) => n,
        _ => 0,
    }
}

/// The report that a document is.
pub open spec fn report(nodes: Map<Seq<char>, NodeView>) -> ReportView {
    ReportView {
        event: as_text(nodes.get("/event"@)),
        name: as_text(nodes.get("/name"@)),
        data: nodes.get("/data"@),
        items: Seq::new(
            item_count(nodes.get("/data"@)),
            |i: int|
                ItemView {
                    filename: as_text(nodes.get(item_pointer(i as nat, "/filename"@))),
                    current: as_flag(nodes.get(item_pointer(i as nat, "/current"@))),
                },
        ),
    }
}

/// The entries that items are: those with an address, current where they say so.
pub open spec fn entries(items: Seq<ItemView>) -> Seq<PlaylistEntryView>
    decreases items.len(),
{
    if items.len() == 0 {
        Seq::empty()
    } else {
        let front = entries(items.drop_last());
        match items.last().filename {
            Some(url) => front.push(
                PlaylistEntryView { url, current: items.last().current == Some(true) },
            ),
            None => front,
        }
    }
}

impl PlayerStateView {
    /// Nothing known yet.
    pub open spec fn unknown() -> PlayerStateView {
        PlayerStateView {
            time_pos: None,
            duration: None,
            paused: false,
            idle_active: false,
            current_path: None,
            playlist: Seq::empty(),
        }
    }

    /// What is known after a report: only the change of a property that is watched counts.
    pub open spec fn after(self, r: ReportView) -> PlayerStateView {
        if r.event != Some("property-change"@) || r.name is None {
            self
        } else {
            let name = r.name->0;
            if name == "time-pos"@ {
                PlayerStateView { time_pos: as_seconds(r.data), ..self }
            } else if name == "duration"@ {
                PlayerStateView { duration: as_seconds(r.data), ..self }
            } else if name == "pause"@ {
                PlayerStateView { paused: as_flag(r.data) == Some(true), ..self }
            } else if name == "idle-active"@ {
                PlayerStateView { idle_active: as_flag(r.data) == Some(true), ..self }
            } else if name == "path"@ {
                PlayerStateView { current_path: as_text(r.data), ..self }
            } else if name == "playlist"@ {
                PlayerStateView { playlist: entries(r.items), ..self }
            } else {
                self
            }
        }
    }

    /// Whether nothing is being played.
    pub open spec fn stopped(self) -> bool {
        self.idle_active || self.current_path is None
    }
}

/// A node where it is a text.
fn node_text(node: Option<Node>) -> (r: Option<String>)
    ensures
        text::opt(r) == as_text(json::opt_node(node)),
{
    match node {
        Some(Node::Text(s)) => Some(s),
        _ => None,
    }
}

/// A node where it is a truth value.
fn node_flag(node: Option<Node>) -> (r: Option<bool>)
    ensures
        r == as_flag(json::opt_node(node)),
{
    match node {
        Some(Node::Bool(b)) => Some(b),
        _ => None,
    }
}

/// A node where it is a number.
fn node_seconds(node: Option<Node>) -> (r: Option<u64>)
    ensures
        r == as_seconds(json::opt_node(node)),
{
    match node {
        Some(Node::Number(n)) => n,
        _ => None,
    }
}

/// Reads a report from a document.
pub fn read_report(document: &serde_json::Value) -> (r: Report)
    ensures
        r@ == report(json::nodes(*document)),
{
    let ghost nodes = json::nodes(*document);
    let data = json::node_at(document, "/data");
    let count: usize = match &data {
        Some(Node::Array(n)) => *n,
        _ => 0,
    };
    let mut items: Vec<Item> = Vec::new();
    for i in 0..count
        invariant
            nodes == json::nodes(*document),
            count == report(nodes).items.len(),
            lists::views(items@) =~= report(nodes).items.take(i as int),
    {
        let place = text::cat("/data/", text::show(i as u64).as_str());
        let filename = json::node_at(document, text::cat(place.as_str(), "/filename").as_str());
        let current = json::node_at(document, text::cat(place.as_str(), "/current").as_str());
        let item = Item { filename: node_text(filename), current: node_flag(current) };
        let ghost before = lists::views(items@);
        assert(item@ == report(nodes).items[i as int]);
        items.push(item);
        assert(lists::views(items@) =~= before.push(item@));
        assert(before.push(item@) =~= report(nodes).items.take(i + 1));
    }
    Report {
        event: node_text(json::node_at(document, "/event")),
        name: node_text(json::node_at(document, "/name")),
        data,
        items,
    }
}

impl Default for PlayerState {
    /// Nothing known yet.
    fn default() -> (r: Self)
        ensures
            r@ == PlayerStateView::unknown(),
    {
        PlayerState::new()
    }
}

impl Clone for PlayerState {
    fn clone(&self) -> (r: Self)
        ensures
            r@ == self@,
    {
        self.snapshot()
    }
}

impl PlayerState {
    /// Nothing known yet.
    pub fn new() -> (r: Self)
        ensures
            r@ == PlayerStateView::unknown(),
    {
        let r = PlayerState {
            time_pos: None,
            duration: None,
            paused: false,
            idle_active: false,
            current_path: None,
            playlist: Vec::new(),
        };
        assert(r@ =~= PlayerStateView::unknown());
        r
    }

    /// A copy of what is known.
    pub fn snapshot(&self) -> (r: Self)
        ensures
            r@ == self@,
    {
        let mut playlist: Vec<PlaylistEntry> = Vec::new();
        for i in 0..self.playlist.len()
            invariant
                playlist@ == self.playlist@.take(i as int),
        {
            playlist.push(self.playlist[i].clone());
            assert(playlist@ =~= self.playlist@.take(i + 1));
        }
        assert(playlist@ =~= self.playlist@);
        PlayerState {
            time_pos: self.time_pos,
            duration: self.duration,
            paused: self.paused,
            idle_active: self.idle_active,
            current_path: text::copy_opt(&self.current_path),
            playlist,
        }
    }

    /// Whether nothing is being played.
    pub fn is_stopped(&self) -> (r: bool)
        ensures
            r == self@.stopped(),
    {
        self.idle_active || self.current_path.is_none()
    }

    /// Takes in a report.
    pub fn apply(&mut self, r: Report)
        ensures
            final(self)@ == old(self)@.after(r@),
    {
        let changed = match &r.event {
            Some(e) => text::same(e.as_str(), "property-change"),
            None => false,
        };
        if !changed {
            return;
        }
        let name = match &r.name {
            Some(n) => n.as_str(),
            None => return,
        };
        if text::same(name, "time-pos") {
            self.time_pos = node_seconds(r.data);
        } else if text::same(name, "duration") {
            self.duration = node_seconds(r.data);
        } else if text::same(name, "pause") {
            self.paused = node_flag(r.data).unwrap_or(false);
        } else if text::same(name, "idle-active") {
            self.idle_active = node_flag(r.data).unwrap_or(false);
        } else if text::same(name, "path") {
            self.current_path = node_text(r.data);
        } else if text::same(name, "playlist") {
            self.playlist = read_entries(&r.items);
        }
        assert(self@ =~= old(self)@.after(r@));
    }

    /// Takes in a line from the player. A line that is no document says nothing.
    pub fn apply_line(&mut self, line: &str)
        ensures
            final(self)@ == match json::parsed(line@) {
                Some(nodes) => old(self)@.after(report(nodes)),
                None => old(self)@,
            },
    {
        match json::parse(line) {
            Ok(document) => {
                let r = read_report(&document);
                self.apply(r);
            },
            Err(_) => {},
        }
    }
}

/// The entries that items are.
fn read_entries(items: &Vec<Item>) -> (r: Vec<PlaylistEntry>)
    ensures
        lists::views(r@) == entries(lists::views(items@)),
{
    let ghost all = lists::views(items@);
    let mut r: Vec<PlaylistEntry> = Vec::new();
    assert(lists::views(r@) =~= Seq::<PlaylistEntryView>::empty());
    for i in 0..items.len()
        invariant
            all == lists::views(items@),
            lists::views(r@) == entries(all.take(i as int)),
    {
        let ghost before = lists::views(r@);
        assert(all.take(i + 1).drop_last() =~= all.take(i as int));
        assert(all.take(i + 1).last() == items@[i as int]@);
        match &items[i].filename {
            Some(url) => {
                let current = items[i].current.unwrap_or(false);
                let entry = PlaylistEntry { url: url.clone(), current };
                r.push(entry);
                assert(lists::views(r@) =~= before.push(entry@));
            },
            None => {},
        }
    }
    assert(all.take(all.len() as int) =~= all);
    r
}

// ---------------------------------------------------------------------------
// What the player is told
// ---------------------------------------------------------------------------

/// A command to the player.
#[derive(Debug)]
pub enum PlayerCommand {
    /// Play a stream, and forget the queue.
    Load(String),
    /// Put a stream at the end of the queue, and play it where nothing plays.
    Enqueue(String),
    /// Take an entry out of the queue.
    RemoveIndex(i64),
    /// Play an entry of the queue.
    PlayIndex(i64),
    /// Put the entry at one index before the entry at another.
    Move { from: i64, to: i64 },
    /// Play the next entry.
    Next,
    /// Play the entry before.
    Prev,
    /// Put the queue in some order.
    Shuffle,
    /// Whether to play the queue again from its start: `inf` or `no`.
    LoopPlaylist(String),
    /// Whether to play an entry again: `inf` or `no`.
    LoopFile(String),
    /// Pause, or go on.
    SetPause(bool),
    /// The headers to send when a stream is opened.
    HttpHeaders(Vec<String>),
    /// Report a property whenever it changes.
    Observe { id: i64, property: String },
    /// End the player.
    Quit,
}

/// A `PlayerCommand`, with its texts as characters.
pub enum PlayerCommandView {
    Load(Seq<char>),
    Enqueue(Seq<char>),
    RemoveIndex(i64),
    PlayIndex(i64),
    Move { from: i64, to: i64 },
    Next,
    Prev,
    Shuffle,
    LoopPlaylist(Seq<char>),
    LoopFile(Seq<char>),
    SetPause(bool),
    HttpHeaders(Seq<Seq<char>>),
    Observe { id: i64, property: Seq<char> },
    Quit,
}

impl View for PlayerCommand {
    type V = PlayerCommandView;

    open spec fn view(&self) -> PlayerCommandView {
        match self {
            PlayerCommand::Load(url) => PlayerCommandView::Load(url@),
            PlayerCommand::Enqueue(url) => PlayerCommandView::Enqueue(url@),
            PlayerCommand::RemoveIndex(i) => PlayerCommandView::RemoveIndex(*i),
            PlayerCommand::PlayIndex(i) => PlayerCommandView::PlayIndex(*i),
            PlayerCommand::Move { from, to } => PlayerCommandView::Move { from: *from, to: *to },
            PlayerCommand::Next => PlayerCommandView::Next,
            PlayerCommand::Prev => PlayerCommandView::Prev,
            PlayerCommand::Shuffle => PlayerCommandView::Shuffle,
            PlayerCommand::LoopPlaylist(v) => PlayerCommandView::LoopPlaylist(v@),
            PlayerCommand::LoopFile(v) => PlayerCommandView::LoopFile(v@),
            PlayerCommand::SetPause(b) => PlayerCommandView::SetPause(*b),
            PlayerCommand::HttpHeaders(h) => PlayerCommandView::HttpHeaders(text::texts(h@)),
            PlayerCommand::Observe { id, property } => PlayerCommandView::Observe {
                id: *id,
                property: property@,
            },
            PlayerCommand::Quit => PlayerCommandView::Quit,
        }
    }
}

impl PlayerCommandView {
    /// The words of the command.
    pub open spec fn words(self) -> Seq<ArgView> {
        match self {
            PlayerCommandView::Load(url) => seq![
                ArgView::Text("loadfile"@),
                ArgView::Text(url),
                ArgView::Text("replace"@),
            ],
            PlayerCommandView::Enqueue(url) => seq![
                ArgView::Text("loadfile"@),
                ArgView::Text(url),
                ArgView::Text("append-play"@),
            ],
            PlayerCommandView::RemoveIndex(i) => seq![
                ArgView::Text("playlist-remove"@),
                ArgView::Int(i),
            ],
            PlayerCommandView::PlayIndex(i) => seq![
                ArgView::Text("playlist-play-index"@),
                ArgView::Int(i),
            ],
            PlayerCommandView::Move { from, to } => seq![
                ArgView::Text("playlist-move"@),
                ArgView::Int(from),
                ArgView::Int(to),
            ],
            PlayerCommandView::Next => seq![ArgView::Text("playlist-next"@)],
            PlayerCommandView::Prev => seq![ArgView::Text("playlist-prev"@)],
            PlayerCommandView::Shuffle => seq![ArgView::Text("playlist-shuffle"@)],
            PlayerCommandView::LoopPlaylist(v) => seq![
                ArgView::Text("set_property"@),
                ArgView::Text("loop-playlist"@),
                ArgView::Text(v),
            ],
            PlayerCommandView::LoopFile(v) => seq![
                ArgView::Text("set_property"@),
                ArgView::Text("loop-file"@),
                ArgView::Text(v),
            ],
            PlayerCommandView::SetPause(b) => seq![
                ArgView::Text("set_property"@),
                ArgView::Text("pause"@),
                ArgView::Flag(b),
            ],
            PlayerCommandView::HttpHeaders(h) => seq![
                ArgView::Text("set_property"@),
                ArgView::Text("http-header-fields"@),
                ArgView::List(h),
            ],
            PlayerCommandView::Observe { id, property } => seq![
                ArgView::Text("observe_property"@),
                ArgView::Int(id),
                ArgView::Text(property),
            ],
            PlayerCommandView::Quit => seq![ArgView::Text("quit"@)],
        }
    }
}

/// A text as a word of a command.
fn word(s: &str) -> (r: Arg)
    ensures
        r@ == ArgView::Text(s@),
{
    Arg::Text(text::copy(s))
}

/// The words of a command.
fn words(command: PlayerCommand) -> (r: Vec<Arg>)
    ensures
        lists::views(r@) == command@.words(),
{
    let ghost wanted = command@.words();
    let r = match command {
        PlayerCommand::Load(url) => vec![word("loadfile"), Arg::Text(url), word("replace")],
        PlayerCommand::Enqueue(url) => vec![word("loadfile"), Arg::Text(url), word("append-play")],
        PlayerCommand::RemoveIndex(i) => vec![word("playlist-remove"), Arg::Int(i)],
        PlayerCommand::PlayIndex(i) => vec![word("playlist-play-index"), Arg::Int(i)],
        PlayerCommand::Move { from, to } => vec![
            word("playlist-move"),
            Arg::Int(from),
            Arg::Int(to),
        ],
        PlayerCommand::Next => vec![word("playlist-next")],
        PlayerCommand::Prev => vec![word("playlist-prev")],
        PlayerCommand::Shuffle => vec![word("playlist-shuffle")],
        PlayerCommand::LoopPlaylist(v) => vec![
            word("set_property"),
            word("loop-playlist"),
            Arg::Text(v),
        ],
        PlayerCommand::LoopFile(v) => vec![word("set_property"), word("loop-file"), Arg::Text(v)],
        PlayerCommand::SetPause(b) => vec![word("set_property"), word("pause"), Arg::Flag(b)],
        PlayerCommand::HttpHeaders(h) => vec![
            word("set_property"),
            word("http-header-fields"),
            Arg::List(h),
        ],
        PlayerCommand::Observe { id, property } => vec![
            word("observe_property"),
            Arg::Int(id),
            Arg::Text(property),
        ],
        PlayerCommand::Quit => vec![word("quit")],
    };
    assert(lists::views(r@) =~= wanted);
    r
}

/// A command that cannot be written as JSON.
#[derive(Debug, Clone, Copy, PartialEq, Eq, Structural)]
pub struct EncodeError;

/// The player: the number of the last command, and what it reported.
#[derive(Debug)]
pub struct Mpv {
    pub request_id: u64,
    pub state: PlayerState,
}

/// The line that carries a command under its number: one JSON object and a line feed,
/// which stands nowhere else in it.
pub open spec fn is_line(line: Seq<u8>, command: PlayerCommandView, id: u64) -> bool {
    &&& line.len() > 0
    &&& line.last() == 10
    &&& !line.drop_last().contains(10)
    &&& json::written("command"@, command.words(), "request_id"@, id) == Some(line.drop_last())
}

/// What sending a command comes to: the next number is used up, and the line under that
/// number is given, or an error where it cannot be written.
pub open spec fn sent(
    before: Mpv,
    after: Mpv,
    command: PlayerCommandView,
    r: Result<Vec<u8>, EncodeError>,
) -> bool {
    &&& after.request_id == before.request_id + 1
    &&& after.state == before.state
    &&& match r {
        Ok(line) => is_line(line@, command, after.request_id),
        Err(_) => json::written("command"@, command.words(), "request_id"@, after.request_id)
            is None,
    }
}

impl Mpv {
    /// A player that has been told nothing, and that has reported nothing.
    pub fn new() -> (r: Self)
        ensures
            r.request_id == 0,
            r.state@ == PlayerStateView::unknown(),
    {
        Mpv { request_id: 0, state: PlayerState::new() }
    }

    /// The line that carries a command.
    pub fn send(&mut self, command: PlayerCommand) -> (r: Result<Vec<u8>, EncodeError>)
        requires
            old(self).request_id < u64::MAX,
        ensures
            sent(*old(self), *final(self), command@, r),
    {
        self.request_id = self.request_id + 1;
        let list = words(command);
        match json::write_object("command", &list, "request_id", self.request_id) {
            Ok(bytes) => {
                let mut line = bytes;
                line.push(10u8);
                assert(line@.drop_last() =~= bytes@);
                Ok(line)
            },
            Err(_) => Err(EncodeError),
        }
    }

    /// Plays a stream, and forgets the queue.
    pub fn load(&mut self, url: &str) -> (r: Result<Vec<u8>, EncodeError>)
        requires
            old(self).request_id < u64::MAX,
        ensures
            sent(*old(self), *final(self), PlayerCommandView::Load(url@), r),
    {
        self.send(PlayerCommand::Load(text::copy(url)))
    }

    /// Puts a stream at the end of the queue.
    pub fn enqueue(&mut self, url: &str) -> (r: Result<Vec<u8>, EncodeError>)
        requires
            old(self).request_id < u64::MAX,
        ensures
            sent(*old(self), *final(self), PlayerCommandView::Enqueue(url@), r),
    {
        self.send(PlayerCommand::Enqueue(text::copy(url)))
    }

    /// Takes an entry out of the queue.
    pub fn playlist_remove_index(&mut self, index: i64) -> (r: Result<Vec<u8>, EncodeError>)
        requires
            old(self).request_id < u64::MAX,
        ensures
            sent(*old(self), *final(self), PlayerCommandView::RemoveIndex(index), r),
    {
        self.send(PlayerCommand::RemoveIndex(index))
    }

    /// Plays an entry of the queue.
    pub fn playlist_play_index(&mut self, index: i64) -> (r: Result<Vec<u8>, EncodeError>)
        requires
            old(self).request_id < u64::MAX,
        ensures
            sent(*old(self), *final(self), PlayerCommandView::PlayIndex(index), r),
    {
        self.send(PlayerCommand::PlayIndex(index))
    }

    /// Puts the entry at one index before the entry at another.
    pub fn playlist_move(&mut self, from: i64, to: i64) -> (r: Result<Vec<u8>, EncodeError>)
        requires
            old(self).request_id < u64::MAX,
        ensures
            sent(*old(self), *final(self), (PlayerCommandView::Move { from, to }), r),
    {
        self.send(PlayerCommand::Move { from, to })
    }

    /// Plays the next entry.
    pub fn next(&mut self) -> (r: Result<Vec<u8>, EncodeError>)
        requires
            old(self).request_id < u64::MAX,
        ensures
            sent(*old(self), *final(self), PlayerCommandView::Next, r),
    {
        self.send(PlayerCommand::Next)
    }

    /// Plays the entry before.
    pub fn prev(&mut self) -> (r: Result<Vec<u8>, EncodeError>)
        requires
            old(self).request_id < u64::MAX,
        ensures
            sent(*old(self), *final(self), PlayerCommandView::Prev, r),
    {
        self.send(PlayerCommand::Prev)
    }

    /// The commands that shuffle the queue while the track that plays comes first. Where
    /// nothing plays, the player shuffles the whole queue itself. The clock gives the
    /// nanoseconds since 1970, if it is not set before.
    pub fn shuffle(&self, clock: Option<u64>) -> (r: Vec<PlayerCommand>)
        ensures
            lists::views(r@) == shuffle::plan(self.state@.playlist, clock),
    {
        shuffle::plan_shuffle(&self.state.playlist, clock)
    }

    /// Whether to play the queue again from its start.
    pub fn set_loop_playlist(&mut self, value: &str) -> (r: Result<Vec<u8>, EncodeError>)
        requires
            old(self).request_id < u64::MAX,
        ensures
            sent(*old(self), *final(self), PlayerCommandView::LoopPlaylist(value@), r),
    {
        self.send(PlayerCommand::LoopPlaylist(text::copy(value)))
    }

    /// Whether to play an entry again.
    pub fn set_loop_file(&mut self, value: &str) -> (r: Result<Vec<u8>, EncodeError>)
        requires
            old(self).request_id < u64::MAX,
        ensures
            sent(*old(self), *final(self), PlayerCommandView::LoopFile(value@), r),
    {
        self.send(PlayerCommand::LoopFile(text::copy(value)))
    }

    /// Pauses, or goes on.
    pub fn set_pause(&mut self, paused: bool) -> (r: Result<Vec<u8>, EncodeError>)
        requires
            old(self).request_id < u64::MAX,
        ensures
            sent(*old(self), *final(self), PlayerCommandView::SetPause(paused), r),
    {
        self.send(PlayerCommand::SetPause(paused))
    }

    /// Sets the headers to send when a stream is opened.
    pub fn set_http_headers(&mut self, headers: Vec<String>) -> (r: Result<Vec<u8>, EncodeError>)
        requires
            old(self).request_id < u64::MAX,
        ensures
            sent(
                *old(self),
                *final(self),
                PlayerCommandView::HttpHeaders(text::texts(headers@)),
                r,
            ),
    {
        self.send(PlayerCommand::HttpHeaders(headers))
    }

    /// A copy of what is known of the player.
    pub fn snapshot(&self) -> (r: PlayerState)
        ensures
            r@ == self.state@,
    {
        self.state.snapshot()
    }

    /// Takes in a line from the player.
    pub fn receive(&mut self, line: &str)
        ensures
            final(self).request_id == old(self).request_id,
            final(self).state@ == match json::parsed(line@) {
                Some(nodes) => old(self).state@.after(report(nodes)),
                None => old(self).state@,
            },
    {
        self.state.apply_line(line);
    }
}

// ---------------------------------------------------------------------------
// Starting the player
// ---------------------------------------------------------------------------

/// The properties that the player is asked to report.
pub open spec fn watched() -> Seq<Seq<char>> {
    seq!["time-pos"@, "duration"@, "pause"@, "idle-active"@, "path"@, "playlist"@]
}

/// The commands that ask for reports of properties, numbered from one on.
pub open spec fn observe(properties: Seq<Seq<char>>) -> Seq<PlayerCommandView> {
    properties.map(
        |i: int, p: Seq<char>| PlayerCommandView::Observe { id: (i + 1) as i64, property: p },
    )
}

/// The commands that a new player is given: the headers, if any, and what to report.
pub open spec fn greeting(headers: Seq<Seq<char>>) -> Seq<PlayerCommandView> {
    if headers.len() == 0 {
        observe(watched())
    } else {
        seq![PlayerCommandView::HttpHeaders(headers)] + observe(watched())
    }
}

/// Where the script that lets desktop controls reach the player may be.
pub open spec fn script_places() -> Seq<Seq<char>> {
    seq![
        "/usr/lib/mpv/scripts/mpris.so"@,
        "/usr/lib/mpv-mpris/mpris.so"@,
        "/usr/lib/x86_64-linux-gnu/mpv/scripts/mpris.so"@,
    ]
}

/// The options that every player is started with.
pub open spec fn plain_options(socket: Seq<char>) -> Seq<Seq<char>> {
    seq![
        "--idle=yes"@,
        "--no-video"@,
        "--no-terminal"@,
        "--really-quiet"@,
        "--audio-display=no"@,
        "--input-ipc-server="@ + socket,
    ]
}

/// The options to start a player with, where `script` is where its script was found.
pub open spec fn options(socket: Seq<char>, script: Option<Seq<char>>) -> Seq<Seq<char>> {
    match script {
        Some(s) => plain_options(socket).push("--script="@ + s),
        None => plain_options(socket),
    }
}

/// The first place from `from` on of a script that is there; their number where none is.
pub open spec fn place_there(there: Seq<bool>, from: int) -> int
    decreases there.len() - from,
{
    if from >= there.len() || there[from] {
        from
    } else {
        place_there(there, from + 1)
    }
}

/// The script that is used, where `there` says of each place whether a script is there:
/// that of the first place that has one.
pub open spec fn used_script(there: Seq<bool>) -> Option<Seq<char>> {
    let i = place_there(there, 0);
    if i < there.len() {
        Some(script_places()[i])
    } else {
        None
    }
}

/// How long to wait for the player's socket, in nanoseconds.
pub const PATIENCE: u64 = 5_000_000_000;

/// How long to wait before the next look for the socket, in milliseconds.
pub const PAUSE: u64 = 50;

impl Mpv {
    /// A new player, and the commands that it is given first.
    pub fn spawn(http_headers: Vec<String>) -> (r: (Mpv, Vec<PlayerCommand>))
        ensures
            r.0.request_id == 0,
            r.0.state@ == PlayerStateView::unknown(),
            lists::views(r.1@) == greeting(text::texts(http_headers@)),
    {
        let ghost headers = text::texts(http_headers@);
        let mut r: Vec<PlayerCommand> = Vec::new();
        if http_headers.len() > 0 {
            r.push(PlayerCommand::HttpHeaders(http_headers));
        }
        r.push(PlayerCommand::Observe { id: 1, property: text::copy("time-pos") });
        r.push(PlayerCommand::Observe { id: 2, property: text::copy("duration") });
        r.push(PlayerCommand::Observe { id: 3, property: text::copy("pause") });
        r.push(PlayerCommand::Observe { id: 4, property: text::copy("idle-active") });
        r.push(PlayerCommand::Observe { id: 5, property: text::copy("path") });
        r.push(PlayerCommand::Observe { id: 6, property: text::copy("playlist") });
        assert(lists::views(r@) =~= greeting(headers));
        (Mpv::new(), r)
    }

    /// The name of the socket of the player that a process started.
    pub fn socket_name(process: u32) -> (r: String)
        ensures
            r@ == "mutui-mpv-"@ + text::decimal(process as nat) + ".sock"@,
    {
        text::cat3("mutui-mpv-", text::show(process as u64).as_str(), ".sock")
    }

    /// Where the script that lets desktop controls reach the player may be.
    pub fn scripts() -> (r: Vec<String>)
        ensures
            text::texts(r@) == script_places(),
    {
        let r = vec![
            text::copy("/usr/lib/mpv/scripts/mpris.so"),
            text::copy("/usr/lib/mpv-mpris/mpris.so"),
            text::copy("/usr/lib/x86_64-linux-gnu/mpv/scripts/mpris.so"),
        ];
        assert(text::texts(r@) =~= script_places());
        r
    }

    /// The script that is used, where `there` says of each place whether a script is there:
    /// that of the first place that has one, and none where no place has.
    pub fn script(there: &Vec<bool>) -> (r: Option<String>)
        requires
            there@.len() == script_places().len(),
        ensures
            text::opt(r) == used_script(there@),
    {
        let places = Mpv::scripts();
        for i in 0..there.len()
            invariant
                text::texts(places@) == script_places(),
                there@.len() == script_places().len(),
                place_there(there@, 0) == place_there(there@, i as int),
        {
            if there[i] {
                assert(text::texts(places@)[i as int] == places@[i as int]@);
                return Some(places[i].clone());
            }
        }
        None
    }

    /// The options to start a player with.
    pub fn options(socket: &str, script: Option<String>) -> (r: Vec<String>)
        ensures
            text::texts(r@) == options(socket@, text::opt(script)),
    {
        let ghost wanted = options(socket@, text::opt(script));
        let mut r = vec![
            text::copy("--idle=yes"),
            text::copy("--no-video"),
            text::copy("--no-terminal"),
            text::copy("--really-quiet"),
            text::copy("--audio-display=no"),
            text::cat("--input-ipc-server=", socket),
        ];
        if let Some(s) = script {
            r.push(text::cat("--script=", s.as_str()));
        }
        assert(text::texts(r@) =~= wanted);
        r
    }

    /// What to do where the socket is not there yet: wait for the given milliseconds and
    /// look again, or give up.
    pub fn socket_missing(waited: u64, socket: &str) -> (r: Result<u64, String>)
        ensures
            waited < PATIENCE ==> r == Ok::<u64, String>(PAUSE),
            waited >= PATIENCE ==> r is Err && r->Err_0@ == "mpv ipc socket "@ + socket@
                + " did not appear"@,
    {
        if waited >= PATIENCE {
            Err(text::cat3("mpv ipc socket ", socket, " did not appear"))
        } else {
            Ok(PAUSE)
        }
    }
}

/// Whether an option names a script.
pub open spec fn names_script(option: Seq<char>) -> bool {
    option.len() >= "--script="@.len() && option.take("--script="@.len() as int) == "--script="@
}

proof fn lemma_place_there(there: Seq<bool>, from: int)
    requires
        0 <= from <= there.len(),
    ensures
        from <= place_there(there, from) <= there.len(),
        place_there(there, from) < there.len() ==> there[place_there(there, from)],
        forall|k: int| from <= k < place_there(there, from) ==> !there[k],
    decreases there.len() - from,
{
    if from < there.len() && !there[from] {
        lemma_place_there(there, from + 1);
    }
}

/// A player is started with the script of the first place that has one, and with no other;
/// where no place has one it is started without a script.
pub proof fn the_first_script_is_used(socket: Seq<char>, there: Seq<bool>)
    requires
        there.len() == script_places().len(),
    ensures
        ({
            let started = options(socket, used_script(there));
            &&& forall|k: int|
                0 <= k < there.len() && there[k] && (forall|j: int| 0 <= j < k ==> !there[j])
                    ==> started == plain_options(socket).push(
                    "--script="@ + #[trigger] script_places()[k],
                )
            &&& (forall|k: int| 0 <= k < there.len() ==> !there[k]) ==> started == plain_options(
                socket,
            )
            &&& forall|i: int|
                0 <= i < plain_options(socket).len() ==> !names_script(
                    #[trigger] plain_options(socket)[i],
                )
        }),
{
    lemma_place_there(there, 0);
    let i = place_there(there, 0);
    assert forall|k: int|
        0 <= k < there.len() && there[k] && (forall|j: int| 0 <= j < k ==> !there[j]) implies options(
        socket,
        used_script(there),
    ) == plain_options(socket).push("--script="@ + #[trigger] script_places()[k]) by {
        assert(i <= k);
        assert(i == k);
    }
    reveal_strlit("--script=");
    reveal_strlit("--idle=yes");
    reveal_strlit("--no-video");
    reveal_strlit("--no-terminal");
    reveal_strlit("--really-quiet");
    reveal_strlit("--audio-display=no");
    reveal_strlit("--input-ipc-server=");
    assert forall|i: int| 0 <= i < plain_options(socket).len() implies !names_script(
        #[trigger] plain_options(socket)[i],
    ) by {
        let option = plain_options(socket)[i];
        assert(option[2] != 's');
        if names_script(option) {
            assert(option.take(9)[2] == "--script="@[2]);
        }
    }
}

} // verus!
