use mutui::mpv::{EncodeError, Mpv, PlayerCommand, PlayerState, PlaylistEntry};
use mutui::shuffle::{plan_shuffle, shuffle_in_place};

fn text(line: Result<Vec<u8>, EncodeError>) -> String {
    String::from_utf8(line.unwrap()).unwrap()
}

fn change(name: &str, data: &str) -> String {
    format!("{{\"event\":\"property-change\",\"id\":1,\"name\":\"{name}\",\"data\":{data}}}")
}

fn queue(urls: &[&str], current: Option<usize>) -> Vec<PlaylistEntry> {
    urls.iter()
        .enumerate()
        .map(|(i, u)| PlaylistEntry { url: u.to_string(), current: Some(i) == current })
        .collect()
}

#[test]
fn nothing_is_known_of_a_new_player() {
    let s = PlayerState::default();
    assert_eq!(s.time_pos, None);
    assert!(!s.paused);
    assert!(s.playlist.is_empty());
    assert!(s.is_stopped());
}

#[test]
fn times_are_cut_to_whole_seconds() {
    let mut s = PlayerState::new();
    s.apply_line(&change("time-pos", "61.9"));
    s.apply_line(&change("duration", "240"));
    assert_eq!(s.time_pos, Some(61));
    assert_eq!(s.duration, Some(240));
    s.apply_line(&change("time-pos", "-0.5"));
    assert_eq!(s.time_pos, Some(0));
    s.apply_line(&change("time-pos", "null"));
    assert_eq!(s.time_pos, None);
    s.apply_line(&change("duration", "\"240\""));
    assert_eq!(s.duration, None);
}

#[test]
fn flags_are_off_where_they_are_no_flags() {
    let mut s = PlayerState::new();
    s.apply_line(&change("pause", "true"));
    s.apply_line(&change("idle-active", "true"));
    assert!(s.paused && s.idle_active);
    s.apply_line(&change("pause", "1"));
    s.apply_line("{\"event\":\"property-change\",\"name\":\"idle-active\"}");
    assert!(!s.paused && !s.idle_active);
}

#[test]
fn the_path_is_a_text_or_none() {
    let mut s = PlayerState::new();
    s.apply_line(&change("path", "\"http://x/\\u00e9\""));
    assert_eq!(s.current_path.as_deref(), Some("http://x/é"));
    assert!(!s.is_stopped());
    s.apply_line(&change("path", "null"));
    assert_eq!(s.current_path, None);
}

#[test]
fn the_queue_holds_the_entries_with_an_address() {
    let mut s = PlayerState::new();
    s.apply_line(&change(
        "playlist",
        "[{\"filename\":\"a\"},{\"filename\":\"b\",\"current\":true},{\"title\":\"c\"},7,\
         {\"filename\":5},{\"filename\":\"d\",\"current\":\"yes\"}]",
    ));
    let got: Vec<(&str, bool)> = s.playlist.iter().map(|e| (e.url.as_str(), e.current)).collect();
    assert_eq!(got, vec![("a", false), ("b", true), ("d", false)]);
    s.apply_line(&change("playlist", "{\"0\":{\"filename\":\"a\"}}"));
    assert!(s.playlist.is_empty());
}

#[test]
fn other_lines_say_nothing() {
    let mut s = PlayerState::new();
    s.apply_line(&change("pause", "true"));
    for line in [
        "", "not json", "{", "[]", "{\"event\":\"idle\"}", "{\"request_id\":1,\"error\":\"success\"}",
        "{\"event\":\"property-change\",\"name\":\"volume\",\"data\":false}",
        "{\"event\":\"property-change\",\"data\":false}",
        "{\"event\":\"end-file\",\"name\":\"pause\",\"data\":false}",
    ] {
        s.apply_line(line);
        assert!(s.paused, "{line}");
    }
}

#[test]
fn commands_are_lines_of_json_with_rising_numbers() {
    let mut m = Mpv::new();
    assert_eq!(text(m.load("http://x")), "{\"command\":[\"loadfile\",\"http://x\",\"replace\"],\"request_id\":1}\n");
    assert_eq!(text(m.enqueue("a\n\"b")), "{\"command\":[\"loadfile\",\"a\\n\\\"b\",\"append-play\"],\"request_id\":2}\n");
    assert_eq!(text(m.playlist_remove_index(4)), "{\"command\":[\"playlist-remove\",4],\"request_id\":3}\n");
    assert_eq!(text(m.playlist_play_index(-1)), "{\"command\":[\"playlist-play-index\",-1],\"request_id\":4}\n");
    assert_eq!(text(m.playlist_move(3, 0)), "{\"command\":[\"playlist-move\",3,0],\"request_id\":5}\n");
    assert_eq!(text(m.next()), "{\"command\":[\"playlist-next\"],\"request_id\":6}\n");
    assert_eq!(text(m.prev()), "{\"command\":[\"playlist-prev\"],\"request_id\":7}\n");
    assert_eq!(text(m.set_loop_playlist("inf")), "{\"command\":[\"set_property\",\"loop-playlist\",\"inf\"],\"request_id\":8}\n");
    assert_eq!(text(m.set_loop_file("no")), "{\"command\":[\"set_property\",\"loop-file\",\"no\"],\"request_id\":9}\n");
    assert_eq!(text(m.set_pause(true)), "{\"command\":[\"set_property\",\"pause\",true],\"request_id\":10}\n");
    assert_eq!(
        text(m.set_http_headers(vec!["A: b".to_string()])),
        "{\"command\":[\"set_property\",\"http-header-fields\",[\"A: b\"]],\"request_id\":11}\n"
    );
    assert_eq!(text(m.send(PlayerCommand::Shuffle)), "{\"command\":[\"playlist-shuffle\"],\"request_id\":12}\n");
    assert_eq!(text(m.send(PlayerCommand::Quit)), "{\"command\":[\"quit\"],\"request_id\":13}\n");
    assert_eq!(m.request_id, 13);
}

#[test]
fn a_new_player_is_greeted() {
    let (mut m, commands) = Mpv::spawn(Vec::new());
    assert_eq!(commands.len(), 6);
    let lines: Vec<String> = commands.into_iter().map(|c| text(m.send(c))).collect();
    assert_eq!(lines[0], "{\"command\":[\"observe_property\",1,\"time-pos\"],\"request_id\":1}\n");
    assert_eq!(lines[5], "{\"command\":[\"observe_property\",6,\"playlist\"],\"request_id\":6}\n");
    let (mut m, commands) = Mpv::spawn(vec!["Authorization: Bearer t".to_string()]);
    assert_eq!(commands.len(), 7);
    let first = commands.into_iter().next().unwrap();
    assert_eq!(
        text(m.send(first)),
        "{\"command\":[\"set_property\",\"http-header-fields\",[\"Authorization: Bearer t\"]],\"request_id\":1}\n"
    );
}

#[test]
fn a_player_is_started_with_its_options() {
    assert_eq!(Mpv::socket_name(4711), "mutui-mpv-4711.sock");
    let plain = Mpv::options("/tmp/s", None);
    assert_eq!(
        plain,
        vec!["--idle=yes", "--no-video", "--no-terminal", "--really-quiet", "--audio-display=no", "--input-ipc-server=/tmp/s"]
    );
    let with = Mpv::options("/tmp/s", Some(Mpv::scripts()[1].clone()));
    assert_eq!(with[6], "--script=/usr/lib/mpv-mpris/mpris.so");
    assert_eq!(Mpv::scripts().len(), 3);
}

#[test]
fn the_socket_is_waited_for() {
    assert_eq!(Mpv::socket_missing(0, "s"), Ok(50));
    assert_eq!(Mpv::socket_missing(4_999_999_999, "s"), Ok(50));
    assert_eq!(Mpv::socket_missing(5_000_000_000, "s"), Err("mpv ipc socket s did not appear".to_string()));
}

#[test]
fn reports_reach_the_snapshot() {
    let mut m = Mpv::new();
    m.receive(&change("pause", "true"));
    m.receive(&change("path", "\"p\""));
    m.receive("noise");
    let s = m.snapshot();
    assert!(s.paused);
    assert_eq!(s.current_path.as_deref(), Some("p"));
    assert_eq!(m.request_id, 0);
}

#[test]
fn a_shuffle_follows_its_generator() {
    for seed in [None, Some(0), Some(1), Some(0x1234_5678_9abc_def0)] {
        let mut expected: Vec<u32> = (0..20).collect();
        let mut state: u64 = match seed {
            None | Some(0) => 0xdead_beef,
            Some(n) => n,
        };
        for i in (1..expected.len()).rev() {
            state ^= state << 13;
            state ^= state >> 7;
            state ^= state << 17;
            expected.swap(i, (state as usize) % (i + 1));
        }
        let mut v: Vec<u32> = (0..20).collect();
        shuffle_in_place(&mut v, seed);
        assert_eq!(v, expected);
        v.sort();
        assert_eq!(v, (0..20).collect::<Vec<u32>>());
    }
    let mut three = vec!['a', 'b', 'c'];
    shuffle_in_place(&mut three, Some(1));
    assert_eq!(three, vec!['c', 'b', 'a']);
    let mut none: Vec<u8> = Vec::new();
    shuffle_in_place(&mut none, Some(1));
    assert!(none.is_empty());
}

#[test]
fn short_and_silent_queues_are_no_work_for_moves() {
    assert!(plan_shuffle(&queue(&[], None), Some(1)).is_empty());
    assert!(plan_shuffle(&queue(&["a"], Some(0)), Some(1)).is_empty());
    let plan = plan_shuffle(&queue(&["a", "b"], None), Some(1));
    assert!(matches!(plan[..], [PlayerCommand::Shuffle]));
}

#[test]
fn a_shuffle_puts_the_current_track_first() {
    let urls = ["a", "b", "c", "d", "e", "f", "c"];
    for current in 0..urls.len() {
        for clock in [Some(1), Some(77), Some(123_456_789), None] {
            let entries = queue(&urls, Some(current));
            let mut others: Vec<&str> = urls.to_vec();
            others.remove(current);
            shuffle_in_place(&mut others, clock);
            let mut target = vec![urls[current]];
            target.extend(others);
            let mut playing: Vec<(usize, &str)> = urls.iter().copied().enumerate().collect();
            for command in plan_shuffle(&entries, clock) {
                match command {
                    PlayerCommand::Move { from, to } => {
                        let (from, to) = (from as usize, to as usize);
                        let e = playing.remove(from);
                        playing.insert(if from < to { to - 1 } else { to }, e);
                    }
                    other => panic!("{other:?}"),
                }
            }
            let order: Vec<&str> = playing.iter().map(|e| e.1).collect();
            assert_eq!(order, target);
            assert_eq!(playing[0].0, current);
        }
    }
}

#[test]
fn of_two_copies_the_one_that_plays_goes_first() {
    let plan = plan_shuffle(&queue(&["a", "a"], Some(1)), Some(1));
    assert!(matches!(plan[..], [PlayerCommand::Move { from: 1, to: 0 }]));
    assert!(plan_shuffle(&queue(&["a", "a"], Some(0)), Some(1)).is_empty());
}

#[test]
fn the_first_script_that_is_there_is_used() {
    let places = Mpv::scripts();
    for n in 0..8u8 {
        let there: Vec<bool> = (0..3).map(|i| n & (1 << i) != 0).collect();
        let first = there.iter().position(|t| *t).map(|i| places[i].clone());
        let script = Mpv::script(&there);
        assert_eq!(script, first);
        let options = Mpv::options("s", script);
        let named = options.iter().filter(|o| o.starts_with("--script=")).count();
        assert_eq!(named, if n == 0 { 0 } else { 1 });
    }
}

#[test]
fn the_player_shuffles_its_own_queue() {
    let mut m = Mpv::new();
    m.receive(&change("playlist", "[{\"filename\":\"a\"},{\"filename\":\"b\",\"current\":true}]"));
    let plan = m.shuffle(Some(5));
    assert!(matches!(plan[..], [PlayerCommand::Move { from: 1, to: 0 }]));
}
