use mutui::api::{
    ensure_ok, is_success, percent_encode, scan_answer, scan_refusal, Body, Client, Method, PlaylistTrack, Request,
    ScanAnswer, Track, TrackPages, TrackTag, PAGE,
};

fn client() -> Client {
    Client::new("http://host:1//".to_string(), Some("secret".to_string()))
}

fn track(id: i64) -> Track {
    Track {
        id,
        path: "music/a/b.mp3".to_string(),
        title: None,
        album: None,
        artist: None,
        album_artist: None,
        track_no: None,
        disc_no: None,
        duration_ms: None,
        year: None,
        added_at: 0,
    }
}

fn is(r: &Request, method: Method, url: &str, context: &str, decode: &str) {
    assert_eq!(r.method, method);
    assert_eq!(r.url, url);
    assert_eq!(r.context, context);
    assert_eq!(r.decode_context, decode);
    assert_eq!(r.authorization.as_deref(), Some("Bearer secret"));
}

#[test]
fn slashes_at_the_end_of_a_server_do_not_count() {
    assert_eq!(client().base, "http://host:1");
    assert_eq!(Client::new("///".to_string(), None).base, "");
    assert_eq!(client().url("/x"), "http://host:1/x");
}

#[test]
fn without_a_token_nothing_is_shown() {
    let c = Client::new("http://h".to_string(), None);
    assert_eq!(c.auth_header(), None);
    assert!(c.list_playlists().authorization.is_none());
}

#[test]
fn reading_requests() {
    let c = client();
    is(&c.search("a b&ü"), Method::Get, "http://host:1/api/search?q=a%20b%26%C3%BC", "GET /api/search", "decode search");
    is(&c.list_tracks(0), Method::Get, "http://host:1/api/tracks?limit=1000&offset=0", "GET /api/tracks", "decode tracks");
    is(&c.list_tracks(2000), Method::Get, "http://host:1/api/tracks?limit=1000&offset=2000", "GET /api/tracks", "decode tracks");
    is(&c.list_track_tags(7), Method::Get, "http://host:1/api/tracks/7/tags", "GET tags", "decode tags");
    is(&c.list_playlists(), Method::Get, "http://host:1/api/playlists", "GET playlists", "decode playlists");
    is(&c.get_playlist_tracks(3), Method::Get, "http://host:1/api/playlists/3/tracks", "GET playlist tracks", "decode playlist tracks");
    is(&c.scan_status(), Method::Get, "http://host:1/api/scans", "GET /api/scans", "decode scan state");
    assert_eq!(c.stream_url(-4), "http://host:1/api/tracks/-4/stream");
}

#[test]
fn writing_requests() {
    let c = client();
    let r = c.add_user_tag(7, "mood", "calm");
    is(&r, Method::Post, "http://host:1/api/tracks/7/tags", "POST tag", "decode added tag");
    assert!(matches!(r.body, Body::Tag { ref namespace, ref value } if namespace == "mood" && value == "calm"));
    let r = c.remove_user_tag(7, 9);
    is(&r, Method::Delete, "http://host:1/api/tracks/7/tags/9", "DELETE tag", "");
    assert!(matches!(r.body, Body::Empty));
    let r = c.create_playlist("mix");
    is(&r, Method::Post, "http://host:1/api/playlists", "POST playlist", "decode playlist");
    assert!(matches!(r.body, Body::Name(ref n) if n == "mix"));
    let r = c.rename_playlist(3, "new");
    is(&r, Method::Patch, "http://host:1/api/playlists/3", "PATCH playlist", "decode playlist");
    assert!(matches!(r.body, Body::Name(ref n) if n == "new"));
    is(&c.delete_playlist(3), Method::Delete, "http://host:1/api/playlists/3", "DELETE playlist", "");
    let r = c.add_to_playlist(3, 8);
    is(&r, Method::Post, "http://host:1/api/playlists/3/tracks", "POST playlist track", "");
    assert!(matches!(r.body, Body::TrackId(8)));
    let r = c.set_playlist_tracks(3, vec![5, 4]);
    is(&r, Method::Put, "http://host:1/api/playlists/3/tracks", "PUT playlist tracks", "");
    assert!(matches!(r.body, Body::TrackIds(ref v) if *v == vec![5, 4]));
    is(&c.remove_from_playlist(3, 8), Method::Delete, "http://host:1/api/playlists/3/tracks/8", "DELETE playlist track", "");
    let r = c.trigger_scan();
    is(&r, Method::Post, "http://host:1/api/scans", "POST /api/scans", "decode scan state");
    assert!(matches!(r.body, Body::Empty));
}

#[test]
fn percent_encoding_keeps_the_unreserved() {
    assert_eq!(percent_encode("AZaz09-_.~"), "AZaz09-_.~");
    assert_eq!(percent_encode("a/b c%"), "a%2Fb%20c%25");
    assert_eq!(percent_encode("é\n"), "%C3%A9%0A");
    assert_eq!(percent_encode(""), "");
}

#[test]
fn percent_encoding_can_be_read_back() {
    for q in ["mood:calm", "100% ü?", "日本", "%41"] {
        let mut bytes = Vec::new();
        let encoded = percent_encode(q).into_bytes();
        let mut i = 0;
        while i < encoded.len() {
            if encoded[i] == b'%' {
                let hex = std::str::from_utf8(&encoded[i + 1..i + 3]).unwrap();
                bytes.push(u8::from_str_radix(hex, 16).unwrap());
                i += 3;
            } else {
                bytes.push(encoded[i]);
                i += 1;
            }
        }
        assert_eq!(String::from_utf8(bytes).unwrap(), q);
    }
}

#[test]
fn a_track_shows_what_it_has() {
    let mut t = track(1);
    assert_eq!(t.display_title(), "b.mp3");
    assert_eq!(t.display_artist(), "—");
    assert_eq!(t.display_album(), "—");
    t.album_artist = Some("AA".to_string());
    assert_eq!(t.display_artist(), "AA");
    t.artist = Some("A".to_string());
    t.title = Some("T".to_string());
    t.album = Some("L".to_string());
    assert_eq!(t.display_artist(), "A");
    assert_eq!(t.display_title(), "T");
    assert_eq!(t.display_album(), "L");
}

#[test]
fn a_playlist_track_shows_what_it_has() {
    let mut t = PlaylistTrack {
        track_id: 1,
        position: 0,
        added_at: 0,
        title: None,
        album: None,
        artist: None,
        album_artist: None,
        duration_ms: None,
    };
    assert_eq!(t.display_title(), "(untitled)");
    assert_eq!(t.display_artist(), "—");
    t.album_artist = Some("AA".to_string());
    assert_eq!(t.display_artist(), "AA");
    t.title = Some("T".to_string());
    assert_eq!(t.display_title(), "T");
}

#[test]
fn a_tag_shows_its_namespace_and_its_value() {
    let mut t = TrackTag {
        tag_id: 1,
        namespace: String::new(),
        value: "calm".to_string(),
        source: "user".to_string(),
    };
    assert_eq!(t.display(), ":calm");
    assert!(t.is_user());
    t.namespace = "mood".to_string();
    t.source = "file".to_string();
    assert_eq!(t.display(), "mood:calm");
    assert!(!t.is_user());
}

#[test]
fn a_status_is_a_success_or_not() {
    assert!(is_success(200));
    assert!(is_success(299));
    assert!(!is_success(199));
    assert!(!is_success(300));
    assert_eq!(ensure_ok(204, "ignored"), Ok(()));
    assert_eq!(ensure_ok(404, "no such track"), Err("status 404: no such track".to_string()));
}

#[test]
fn a_scan_runs_already_or_not() {
    assert!(matches!(scan_answer(409), ScanAnswer::Running { unreadable } if unreadable == "already running"));
    assert!(matches!(scan_answer(500), ScanAnswer::Refused));
    assert_eq!(scan_refusal("broken"), "server: broken");
    assert!(matches!(scan_answer(202), ScanAnswer::State));
}

#[test]
fn pages_are_fetched_until_one_is_not_full() {
    let mut pages = TrackPages::new();
    assert!(pages.add_page((0..PAGE as i64).map(track).collect()));
    assert_eq!(pages.tracks.len(), 1000);
    assert!(!pages.add_page(vec![track(1000), track(1001)]));
    assert_eq!(pages.tracks.len(), 1002);
    assert_eq!(pages.tracks[1001].id, 1001);
    assert!(!TrackPages::new().add_page(Vec::new()));
}
