use mutui::api::{fmt_tag, Client};
use mutui::parse::{fmt_time, parse_tag_input, track_id_from_url};

fn pair(a: &str, b: &str) -> Option<(String, String)> {
    Some((a.to_string(), b.to_string()))
}

#[test]
fn a_tag_has_a_namespace_or_none() {
    assert_eq!(parse_tag_input("mood:calm"), pair("mood", "calm"));
    assert_eq!(parse_tag_input("  mood :  calm "), pair("mood", "calm"));
    assert_eq!(parse_tag_input("calm"), pair("", "calm"));
    assert_eq!(parse_tag_input(":calm"), pair("", "calm"));
    assert_eq!(parse_tag_input("a:b:c"), pair("a", "b:c"));
}

#[test]
fn a_tag_without_a_value_is_none() {
    assert_eq!(parse_tag_input(""), None);
    assert_eq!(parse_tag_input("   "), None);
    assert_eq!(parse_tag_input("mood:"), None);
    assert_eq!(parse_tag_input("mood:  "), None);
    assert_eq!(parse_tag_input(":"), None);
}

#[test]
fn a_tag_is_read_back_as_it_is_written() {
    for (ns, val) in [("mood", "calm"), ("", "calm"), ("a b", "x:y")] {
        assert_eq!(parse_tag_input(&fmt_tag(ns, val)), pair(ns, val));
    }
    assert_eq!(fmt_tag("", "calm"), ":calm");
    assert_eq!(fmt_tag("mood", "calm"), "mood:calm");
}

#[test]
fn a_stream_address_names_its_track() {
    for base in ["http://127.0.0.1:7700", "https://music.example/lib/"] {
        for id in [0, 1, 42, -5, i64::MAX, i64::MIN] {
            let client = Client::new(base.to_string(), None);
            assert_eq!(track_id_from_url(&client.stream_url(id)), Some(id));
        }
    }
}

#[test]
fn other_addresses_name_no_track() {
    assert_eq!(track_id_from_url("http://x/api/tracks/seven/stream"), None);
    assert_eq!(track_id_from_url("http://x/api/tracks"), None);
    assert_eq!(track_id_from_url("http://x/tracks/api/tracks/3"), None);
    assert_eq!(track_id_from_url(""), None);
    assert_eq!(track_id_from_url("tracks/12"), Some(12));
}

#[test]
fn times_are_minutes_and_seconds() {
    assert_eq!(fmt_time(0), "0:00");
    assert_eq!(fmt_time(9), "0:09");
    assert_eq!(fmt_time(65), "1:05");
    assert_eq!(fmt_time(3599), "59:59");
    assert_eq!(fmt_time(3600), "1:00:00");
    assert_eq!(fmt_time(36_061), "10:01:01");
}
