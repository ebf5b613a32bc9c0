//! What is told to the player and by it, on the fields of the state.

use crate::json;
use crate::json::{ArgView, NodeView};
use crate::keys::{Key, KeyCode};
use crate::laws::songs;
use crate::lists;
use crate::lists::ListState;
use crate::model::AppView;
use crate::mpv;
use crate::mpv::{ItemView, Mpv, PlayerCommandView, PlayerStateView, PlaylistEntryView, ReportView};
use crate::shuffle;
use crate::state::{CallView, EffectView, ModeView, RepeatMode, Tab};
use crate::text;
use vstd::prelude::*;

verus! {

/// The only command that an effect gives the player.
pub open spec fn tells(effect: EffectView, command: PlayerCommandView) -> bool {
    effect matches EffectView::Player(commands) && commands.len() == 1 && commands[0] == command
}

/// The space bar pauses what plays and goes on with what is paused; where nothing plays it
/// does nothing.
pub proof fn space_pauses_and_goes_on(app: AppView, key: Key, player: PlayerStateView)
    requires
        app.mode == ModeView::Normal,
        key.code == KeyCode::Char(' '),
    ensures
        app.handle_key(key, player).0 == app,
        player.current_path is Some && !player.idle_active ==> tells(
            app.handle_key(key, player).1,
            PlayerCommandView::SetPause(!player.paused),
        ),
        player.current_path is None || player.idle_active ==> app.handle_key(key, player).1
            == EffectView::Idle,
{
}

/// "n" goes to the next track of the queue, "p" to the one before, "S" shuffles the queue,
/// and "F" asks the server to look for music; on every tab.
pub proof fn some_keys_act_on_every_tab(app: AppView, key: Key, player: PlayerStateView)
    requires
        app.mode == ModeView::Normal,
    ensures
        key.code == KeyCode::Char('n') ==> app.handle_key(key, player).0 == app && tells(
            app.handle_key(key, player).1,
            PlayerCommandView::Next,
        ),
        key.code == KeyCode::Char('p') ==> app.handle_key(key, player).0 == app && tells(
            app.handle_key(key, player).1,
            PlayerCommandView::Prev,
        ),
        key.code == KeyCode::Char('S') ==> app.handle_key(key, player) == (
            AppView { status_msg: "shuffled queue"@, ..app },
            EffectView::Shuffle,
        ),
        key.code == KeyCode::Char('F') ==> app.handle_key(key, player) == (
            app,
            EffectView::Call(CallView::TriggerScan),
        ),
        key.code == KeyCode::Char('q') || (key.code == KeyCode::Char('c') && key.control)
            ==> app.handle_key(key, player) == (
            AppView { should_quit: true, ..app },
            EffectView::Idle,
        ),
        key.code == KeyCode::Char('?') ==> app.handle_key(key, player) == (
            AppView { show_help: !app.show_help, ..app },
            EffectView::Idle,
        ),
        key.code == KeyCode::Esc && app.show_help ==> app.handle_key(key, player) == (
            AppView { show_help: false, ..app },
            EffectView::Idle,
        ),
        key.code == KeyCode::Char('1') ==> app.handle_key(key, player) == (
            AppView { tab: Tab::Songs, show_tags: false, ..app },
            EffectView::Idle,
        ),
        key.code == KeyCode::Char('2') ==> app.handle_key(key, player) == (
            AppView { tab: Tab::Playlists, show_tags: false, ..app },
            EffectView::Idle,
        ),
        key.code == KeyCode::Char('3') ==> app.handle_key(key, player) == (
            AppView { tab: Tab::Queue, show_tags: false, ..app },
            EffectView::Idle,
        ),
        key.code == KeyCode::Char('4') ==> app.handle_key(key, player) == (
            AppView { tab: Tab::Settings, show_tags: false, ..app },
            EffectView::Idle,
        ),
{
}

/// A key that goes up does nothing; a key that goes down acts.
pub proof fn only_keys_that_go_down_act(app: AppView, key: Key, player: PlayerStateView)
    ensures
        !key.press ==> app.handle_event(key, player) == (app, EffectView::Idle),
        key.press ==> app.handle_event(key, player) == app.handle_key(key, player),
{
}

/// "R" goes from no repeating to the whole queue, from there to one track, and back. The
/// player plays the queue again, or the track, or neither, and which is told.
pub proof fn repeating_is_told_to_the_player(app: AppView, key: Key, player: PlayerStateView)
    requires
        app.mode == ModeView::Normal,
        key.code == KeyCode::Char('R'),
    ensures
        ({
            let (after, effect) = app.handle_key(key, player);
            let (repeat, said, queue, track) = match app.repeat {
                RepeatMode::Off => (RepeatMode::All, "repeat all"@, "inf"@, "no"@),
                RepeatMode::All => (RepeatMode::One, "repeat one"@, "no"@, "inf"@),
                RepeatMode::One => (RepeatMode::Off, "repeat off"@, "no"@, "no"@),
            };
            &&& after == (AppView { repeat, status_msg: said, ..app })
            &&& effect matches EffectView::Player(commands)
            &&& commands.len() == 2
            &&& commands[0] == PlayerCommandView::LoopPlaylist(queue)
            &&& commands[1] == PlayerCommandView::LoopFile(track)
        }),
{
}

/// Whether the keys act on the queue.
pub open spec fn at_the_queue(app: AppView) -> bool {
    app.mode == ModeView::Normal && app.tab == Tab::Queue
}

/// Enter plays the selected entry of the queue, and "d" takes it out.
pub proof fn entries_are_played_and_taken_out(
    app: AppView,
    key: Key,
    player: PlayerStateView,
    i: usize,
)
    requires
        at_the_queue(app),
        key.code == KeyCode::Enter || key.code == KeyCode::Char('d'),
    ensures
        app.handle_key(key, player).0 == app,
        app.queue_state.selected == Some(i) && key.code == KeyCode::Enter ==> tells(
            app.handle_key(key, player).1,
            PlayerCommandView::PlayIndex(i as i64),
        ),
        app.queue_state.selected == Some(i) && key.code == KeyCode::Char('d') ==> tells(
            app.handle_key(key, player).1,
            PlayerCommandView::RemoveIndex(i as i64),
        ),
        app.queue_state.selected is None ==> app.handle_key(key, player).1 == EffectView::Idle,
{
    reveal(AppView::queue_key);
}

/// "J" and "K" put the selected entry of the queue one place down and up: once the player has
/// moved it, it has changed places with its neighbour, and it stays selected. At the end of
/// the queue nothing happens.
pub proof fn capital_j_and_k_move_the_selected_entry(
    app: AppView,
    key: Key,
    player: PlayerStateView,
    i: usize,
)
    requires
        at_the_queue(app),
        key.code == KeyCode::Char('J') || key.code == KeyCode::Char('K'),
        app.queue_state.selected == Some(i),
        i < player.playlist.len() < i64::MAX,
    ensures
        ({
            let new: int = if key.code == KeyCode::Char('J') {
                i + 1
            } else {
                i - 1
            };
            let n = player.playlist.len();
            let (after, effect) = app.handle_key(key, player);
            &&& !(0 <= new < n) ==> (after, effect) == (app, EffectView::Idle)
            &&& 0 <= new < n ==> {
                &&& after == (AppView {
                    queue_state: ListState { selected: Some(new as usize), ..app.queue_state },
                    ..app
                })
                &&& effect matches EffectView::Player(commands)
                &&& commands.len() == 1
                &&& commands[0] matches PlayerCommandView::Move { from, to }
                &&& from == i
                &&& to == if new > i {
                    i + 2
                } else {
                    i - 1
                }
                &&& player.playlist.remove(from as int).insert(
                    if from < to {
                        to - 1
                    } else {
                        to as int
                    },
                    player.playlist[from as int],
                ) == player.playlist.update(i as int, player.playlist[new]).update(
                    new,
                    player.playlist[i as int],
                )
            }
        }),
{
    reveal(AppView::queue_key);
}

/// The state with another entry of the queue selected, and nothing to do.
pub open spec fn on_entry(app: AppView, i: int) -> (AppView, EffectView) {
    (
        AppView {
            queue_state: ListState { selected: Some(i as usize), ..app.queue_state },
            ..app
        },
        EffectView::Idle,
    )
}

/// "j" and "k" go one entry of the queue down and up, "g" and "G" to the first and the last.
pub proof fn keys_move_along_the_queue(app: AppView, key: Key, player: PlayerStateView)
    requires
        at_the_queue(app),
        app.queue_state.selected matches Some(i) ==> i < player.playlist.len(),
    ensures
        ({
            let len = player.playlist.len();
            let i: int = match app.queue_state.selected {
                Some(i) => i as int,
                None => 0,
            };
            let r = app.handle_key(key, player);
            let down = key.code == KeyCode::Char('j') || key.code == KeyCode::Down;
            let up = key.code == KeyCode::Char('k') || key.code == KeyCode::Up;
            let top = key.code == KeyCode::Char('g') || key.code == KeyCode::Home;
            let bottom = key.code == KeyCode::Char('G') || key.code == KeyCode::End;
            &&& len > 0 && down ==> r == on_entry(app, songs::between(i + 1, len))
            &&& len > 0 && up ==> r == on_entry(app, songs::between(i - 1, len))
            &&& len > 0 && top ==> r == on_entry(app, 0)
            &&& len > 0 && bottom ==> r == on_entry(app, len - 1)
            &&& len == 0 && (down || up || top || bottom) ==> r == (app, EffectView::Idle)
        }),
{
    reveal(AppView::queue_key);
}

/// What a report says of a property is what is known of it then; where it does not say it in
/// the right form, nothing is known, or it is false.
pub proof fn a_report_tells_a_property(
    player: PlayerStateView,
    data: Option<NodeView>,
    items: Seq<ItemView>,
    name: Seq<char>,
)
    ensures
        ({
            let after = player.after(
                ReportView {
                    event: Some("property-change"@),
                    name: Some(name),
                    data,
                    items,
                },
            );
            let seconds = match data {
                Some(NodeView::Number(n)) => n,
                _ => None,
            };
            let told = data == Some(NodeView::Bool(true));
            let words = match data {
                Some(NodeView::Text(s)) => Some(s),
                _ => None,
            };
            &&& name == "time-pos"@ ==> after == (PlayerStateView { time_pos: seconds, ..player })
            &&& name == "duration"@ ==> after == (PlayerStateView { duration: seconds, ..player })
            &&& name == "pause"@ ==> after == (PlayerStateView { paused: told, ..player })
            &&& name == "idle-active"@ ==> after == (PlayerStateView {
                idle_active: told,
                ..player
            })
            &&& name == "path"@ ==> after == (PlayerStateView { current_path: words, ..player })
            &&& name == "playlist"@ ==> after == (PlayerStateView {
                playlist: mpv::entries(items),
                ..player
            })
        }),
{
    reveal_strlit("time-pos");
    reveal_strlit("duration");
    reveal_strlit("pause");
    reveal_strlit("idle-active");
    reveal_strlit("path");
    reveal_strlit("playlist");
    assert("time-pos"@[0] == 't' && "duration"@[0] == 'd' && "playlist"@[0] == 'p');
    assert("time-pos"@.len() == 8 && "duration"@.len() == 8 && "playlist"@.len() == 8);
    assert("pause"@.len() == 5 && "idle-active"@.len() == 11 && "path"@.len() == 4);
}

/// A line that tells of no change of a property changes nothing.
pub proof fn other_reports_tell_nothing(player: PlayerStateView, r: ReportView)
    requires
        r.event != Some("property-change"@) || r.name is None,
    ensures
        player.after(r) == player,
{
}

/// The queue has an entry for each item that has an address, in their order; an entry plays
/// where its item says so.
pub proof fn items_become_entries(items: Seq<ItemView>, item: ItemView)
    ensures
        mpv::entries(Seq::empty()).len() == 0,
        item.filename matches Some(url) ==> mpv::entries(items.push(item)) == mpv::entries(
            items,
        ).push(PlaylistEntryView { url, current: item.current == Some(true) }),
        item.filename is None ==> mpv::entries(items.push(item)) == mpv::entries(items),
{
    assert(items.push(item).drop_last() =~= items);
}

/// Where the parts of a report stand in its document.
pub proof fn reports_are_read_from_their_documents(
    nodes: Map<Seq<char>, NodeView>,
    n: nat,
    i: nat,
)
    ensures
        mpv::report(nodes).data == nodes.get("/data"@),
        mpv::report(nodes).event == match nodes.get("/event"@) {
            Some(NodeView::Text(s)) => Some(s),
            _ => None,
        },
        mpv::report(nodes).name == match nodes.get("/name"@) {
            Some(NodeView::Text(s)) => Some(s),
            _ => None,
        },
        nodes.get("/data"@) == Some(NodeView::Array(n)) ==> mpv::report(nodes).items.len() == n,
        nodes.get("/data"@) == Some(NodeView::Array(n)) && i < n ==> {
            let item = mpv::report(nodes).items[i as int];
            &&& item.filename == match nodes.get(
                "/data/"@ + text::decimal(i) + "/filename"@,
            ) {
                Some(NodeView::Text(s)) => Some(s),
                _ => None,
            }
            &&& item.current == match nodes.get("/data/"@ + text::decimal(i) + "/current"@) {
                Some(NodeView::Bool(b)) => Some(b),
                _ => None,
            }
        },
{
}

/// Each command is sent under the number after the last one, as one line of JSON with a line
/// feed at its end and nowhere else, and changes nothing of what is known of the player.
pub proof fn commands_are_numbered_lines(
    before: Mpv,
    after: Mpv,
    command: PlayerCommandView,
    line: Vec<u8>,
)
    requires
        mpv::sent(before, after, command, Ok(line)),
    ensures
        after.request_id == before.request_id + 1,
        after.state == before.state,
        line@.len() > 0,
        line@[line@.len() - 1] == '\n' as u8,
        forall|i: int| 0 <= i < line@.len() - 1 ==> #[trigger] line@[i] != '\n' as u8,
        json::written("command"@, command.words(), "request_id"@, after.request_id) == Some(
            line@.take(line@.len() - 1),
        ),
{
    assert(line@.take(line@.len() - 1) =~= line@.drop_last());
    assert forall|i: int| 0 <= i < line@.len() - 1 implies #[trigger] line@[i] != 10 by {
        assert(line@.drop_last()[i] == line@[i]);
        if line@[i] == 10 {
            assert(line@.drop_last().contains(10));
        }
    }
}

/// Whether words are a name and further words.
pub open spec fn says(words: Seq<ArgView>, name: Seq<char>, more: Seq<ArgView>) -> bool {
    words =~= seq![ArgView::Text(name)] + more
}

/// How the commands are told to the player.
pub proof fn commands_have_their_words(
    url: Seq<char>,
    i: i64,
    j: i64,
    yes: bool,
    list: Seq<Seq<char>>,
)
    ensures
        says(
            PlayerCommandView::Load(url).words(),
            "loadfile"@,
            seq![ArgView::Text(url), ArgView::Text("replace"@)],
        ),
        says(
            PlayerCommandView::Enqueue(url).words(),
            "loadfile"@,
            seq![ArgView::Text(url), ArgView::Text("append-play"@)],
        ),
        says(PlayerCommandView::RemoveIndex(i).words(), "playlist-remove"@, seq![ArgView::Int(i)]),
        says(
            PlayerCommandView::PlayIndex(i).words(),
            "playlist-play-index"@,
            seq![ArgView::Int(i)],
        ),
        says(
            (PlayerCommandView::Move { from: i, to: j }).words(),
            "playlist-move"@,
            seq![ArgView::Int(i), ArgView::Int(j)],
        ),
        says(PlayerCommandView::Next.words(), "playlist-next"@, seq![]),
        says(PlayerCommandView::Prev.words(), "playlist-prev"@, seq![]),
        says(PlayerCommandView::Shuffle.words(), "playlist-shuffle"@, seq![]),
        says(PlayerCommandView::Quit.words(), "quit"@, seq![]),
        says(
            PlayerCommandView::LoopPlaylist(url).words(),
            "set_property"@,
            seq![ArgView::Text("loop-playlist"@), ArgView::Text(url)],
        ),
        says(
            PlayerCommandView::LoopFile(url).words(),
            "set_property"@,
            seq![ArgView::Text("loop-file"@), ArgView::Text(url)],
        ),
        says(
            PlayerCommandView::SetPause(yes).words(),
            "set_property"@,
            seq![ArgView::Text("pause"@), ArgView::Flag(yes)],
        ),
        says(
            PlayerCommandView::HttpHeaders(list).words(),
            "set_property"@,
            seq![ArgView::Text("http-header-fields"@), ArgView::List(list)],
        ),
        says(
            (PlayerCommandView::Observe { id: i, property: url }).words(),
            "observe_property"@,
            seq![ArgView::Int(i), ArgView::Text(url)],
        ),
{
}

/// A new player is told the headers, if there are any, and then to report six properties,
/// each under a number of its own.
pub proof fn a_new_player_is_told_what_to_report(headers: Seq<Seq<char>>)
    ensures
        ({
            let told = mpv::greeting(headers);
            let first: int = if headers.len() == 0 {
                0
            } else {
                1
            };
            let asks = |k: int, property: Seq<char>|
                told[first + k] == (PlayerCommandView::Observe {
                    id: (k + 1) as i64,
                    property,
                });
            &&& told.len() == first + 6
            &&& headers.len() > 0 ==> told[0] == PlayerCommandView::HttpHeaders(headers)
            &&& asks(0, "time-pos"@)
            &&& asks(1, "duration"@)
            &&& asks(2, "pause"@)
            &&& asks(3, "idle-active"@)
            &&& asks(4, "path"@)
            &&& asks(5, "playlist"@)
        }),
{
}

/// A player is started idle, without picture and without words, listening at its socket.
pub proof fn a_player_is_started_with_its_options(socket: Seq<char>, script: Seq<char>)
    ensures
        mpv::options(socket, None).len() == 6,
        mpv::options(socket, None)[0] == "--idle=yes"@,
        mpv::options(socket, None)[1] == "--no-video"@,
        mpv::options(socket, None)[2] == "--no-terminal"@,
        mpv::options(socket, None)[3] == "--really-quiet"@,
        mpv::options(socket, None)[4] == "--audio-display=no"@,
        mpv::options(socket, None)[5] == "--input-ipc-server="@ + socket,
        mpv::options(socket, Some(script)) == mpv::options(socket, None).push(
            "--script="@ + script,
        ),
        mpv::script_places().len() == 3,
        mpv::script_places()[0] == "/usr/lib/mpv/scripts/mpris.so"@,
        mpv::script_places()[1] == "/usr/lib/mpv-mpris/mpris.so"@,
        mpv::script_places()[2] == "/usr/lib/x86_64-linux-gnu/mpv/scripts/mpris.so"@,
{
}

/// A queue of fewer than two entries is left as it is, and where nothing plays the player
/// shuffles it.
pub proof fn some_queues_need_no_plan(playlist: Seq<PlaylistEntryView>, clock: Option<u64>)
    ensures
        playlist.len() < 2 ==> shuffle::plan(playlist, clock).len() == 0,
        playlist.len() >= 2 && (forall|i: int|
            0 <= i < playlist.len() ==> !(#[trigger] playlist[i]).current) ==> shuffle::plan(
            playlist,
            clock,
        ) == seq![PlayerCommandView::Shuffle],
{
    lemma_current(playlist, 0);
}

proof fn lemma_current(playlist: Seq<PlaylistEntryView>, from: int)
    requires
        0 <= from <= playlist.len(),
    ensures
        shuffle::current_from(playlist, from) < playlist.len() ==> 0 <= shuffle::current_from(
            playlist,
            from,
        ) && playlist[shuffle::current_from(playlist, from)].current,
    decreases playlist.len() - from,
{
    if from < playlist.len() && !playlist[from].current {
        lemma_current(playlist, from + 1);
    }
}

/// Where an entry plays, the moves of a shuffle put it first, and behind it the addresses of
/// the others in the order of the generator.
pub proof fn a_shuffle_begins_with_what_plays(
    playlist: Seq<PlaylistEntryView>,
    clock: Option<u64>,
    i: int,
)
    requires
        0 <= i < playlist.len() <= i64::MAX,
        playlist[i].current,
        forall|j: int| 0 <= j < i ==> !(#[trigger] playlist[j]).current,
    ensures
        ({
            let after = shuffle::after_moves(playlist, shuffle::plan(playlist, clock));
            let addresses = Seq::new(playlist.len(), |k: int| playlist[k].url);
            &&& after[0] == playlist[i]
            &&& after.to_multiset() == playlist.to_multiset()
            &&& after.len() == playlist.len()
            &&& forall|k: int|
                0 < k < playlist.len() ==> (#[trigger] after[k]).url == shuffle::shuffled(
                    addresses.remove(i),
                    clock,
                )[k - 1]
        }),
{
    lemma_current(playlist, 0);
    lemma_first_current(playlist, 0, i);
    shuffle::shuffle_keeps_the_current_first(playlist, clock);
    let after = shuffle::after_moves(playlist, shuffle::plan(playlist, clock));
    let addresses = Seq::new(playlist.len(), |k: int| playlist[k].url);
    let urls = shuffle::urls(playlist);
    assert(addresses =~= urls);
    let rest = shuffle::shuffled(urls.remove(i), clock);
    shuffle::shuffle_permutes(urls.remove(i), clock);
    assert(shuffle::urls(after).len() == playlist.len());
    assert forall|k: int| 0 < k < playlist.len() implies (#[trigger] after[k]).url == rest[k
        - 1] by {
        assert(shuffle::urls(after)[k] == after[k].url);
        assert((seq![urls[i]] + rest)[k] == rest[k - 1]);
    }
}

proof fn lemma_first_current(playlist: Seq<PlaylistEntryView>, from: int, i: int)
    requires
        0 <= from <= i < playlist.len(),
        playlist[i].current,
        forall|j: int| 0 <= j < i ==> !(#[trigger] playlist[j]).current,
    ensures
        shuffle::current_from(playlist, from) == i,
    decreases i - from,
{
    if from < i {
        lemma_first_current(playlist, from + 1, i);
    }
}

/// One step of a shuffle: the last item is exchanged with the one that the next number of the
/// generator picks, and stays there, and the items before it are shuffled with that number.
pub proof fn a_shuffle_fills_the_last_place<T>(v: Seq<T>, n: u64)
    requires
        n != 0,
        v.len() > 1,
    ensures
        ({
            let a: u64 = n ^ (n << 13);
            let b: u64 = a ^ (a >> 7);
            let s: u64 = b ^ (b << 17);
            let last: int = v.len() - 1;
            let j: int = (s as usize) as int % v.len() as int;
            let w = v.update(last, v[j]).update(j, v[last]);
            shuffle::shuffled(v, Some(n)) == shuffle::shuffled(w.drop_last(), Some(s)).push(
                w.last(),
            )
        }),
{
    let a: u64 = n ^ (n << 13);
    let b: u64 = a ^ (a >> 7);
    let s: u64 = b ^ (b << 17);
    assert(n != 0 ==> ({
        let a: u64 = n ^ (n << 13);
        let b: u64 = a ^ (a >> 7);
        (b ^ (b << 17)) != 0
    })) by (bit_vector);
    assert(s != 0);
    let last: int = v.len() - 1;
    let j: int = (s as usize) as int % v.len() as int;
    let w = lists::swapped(v, last, j);
    assert(0 <= j < v.len()) by {
        vstd::arithmetic::div_mod::lemma_mod_bound((s as usize) as int, v.len() as int);
    }
    assert(shuffle::pick(s, last as nat) == j);
    lemma_shuffling_the_front(w.drop_last(), w.last(), (last - 1) as nat, s);
    assert(w.drop_last().push(w.last()) =~= w);
    assert(w =~= v.update(last, v[j]).update(j, v[last]));
}

/// Shuffling the items before the last leaves the last one where it is.
proof fn lemma_shuffling_the_front<T>(v: Seq<T>, x: T, i: nat, state: u64)
    requires
        i < v.len(),
    ensures
        shuffle::shuffled_down(v.push(x), i, state) == shuffle::shuffled_down(v, i, state).push(x),
    decreases i,
{
    if i > 0 {
        let s: u64 = shuffle::next_state(state);
        let j: int = shuffle::pick(s, i);
        assert(0 <= j <= i) by {
            vstd::arithmetic::div_mod::lemma_mod_bound((s as usize) as int, i as int + 1);
        }
        assert(lists::swapped(v.push(x), i as int, j) =~= lists::swapped(v, i as int, j).push(x));
        lemma_shuffling_the_front(lists::swapped(v, i as int, j), x, (i - 1) as nat, s);
    }
}

/// The clock seeds the generator; without one, and at zero, a fixed number does.
pub proof fn the_clock_seeds_a_shuffle<T>(v: Seq<T>)
    ensures
        shuffle::shuffled(v, None) == shuffle::shuffled(v, Some(0xdead_beef)),
        shuffle::shuffled(v, Some(0)) == shuffle::shuffled(v, Some(0xdead_beef)),
        v.len() < 2 ==> shuffle::shuffled(v, None) == v,
{
}

} // verus!
