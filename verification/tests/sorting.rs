use mutui::api::Track;
use mutui::order::{cmp_tracks, SortKey};
use mutui::sort::sort_places;
use std::cmp::Ordering;

fn track(id: i64, title: &str) -> Track {
    Track {
        id,
        path: format!("x/{title}.ogg"),
        title: Some(title.to_string()),
        album: None,
        artist: None,
        album_artist: None,
        track_no: None,
        disc_no: None,
        duration_ms: None,
        year: None,
        added_at: 0,
    }
}

fn some(s: &str) -> Option<String> {
    Some(s.to_string())
}

#[test]
fn titles_are_sorted_whatever_their_case() {
    let tracks = vec![track(0, "banana"), track(1, "Apple"), track(2, "ÉCLAIR"), track(3, "éclaid")];
    assert_eq!(sort_places(&tracks, SortKey::Title, &vec![0, 1, 2, 3]), vec![1, 0, 3, 2]);
}

#[test]
fn equal_tracks_keep_their_order() {
    let tracks = vec![track(0, "b"), track(1, "A"), track(2, "a"), track(3, "B")];
    assert_eq!(sort_places(&tracks, SortKey::Title, &vec![3, 2, 1, 0]), vec![2, 1, 3, 0]);
    assert_eq!(sort_places(&tracks, SortKey::AddedAt, &vec![3, 1, 0, 2]), vec![3, 1, 0, 2]);
}

#[test]
fn the_default_order_is_album_artist_album_disc_number_title() {
    let mut a = track(0, "z");
    a.album_artist = some("Beta");
    let mut b = track(1, "y");
    b.album_artist = some("alpha");
    b.album = some("two");
    let mut c = b.clone();
    c.album = some("One");
    c.disc_no = Some(2);
    let mut d = c.clone();
    d.disc_no = Some(1);
    d.track_no = Some(9);
    let mut e = d.clone();
    e.track_no = Some(3);
    let mut f = e.clone();
    f.title = some("a");
    let g = track(2, "no artist");
    let tracks = vec![a, b, c, d, e, f, g];
    let places = vec![0, 1, 2, 3, 4, 5, 6];
    assert_eq!(sort_places(&tracks, SortKey::Default, &places), vec![6, 5, 4, 3, 2, 1, 0]);
}

#[test]
fn artists_and_albums_are_sorted_by_what_is_shown() {
    let mut a = track(0, "1");
    a.artist = some("Zed");
    let mut b = track(1, "2");
    b.album_artist = some("abba");
    b.album = some("b");
    let mut c = track(2, "3");
    c.artist = some("ABBA");
    c.album = some("A");
    let tracks = vec![a, b, c];
    assert_eq!(sort_places(&tracks, SortKey::Artist, &vec![0, 1, 2]), vec![2, 1, 0]);
    assert_eq!(sort_places(&tracks, SortKey::Album, &vec![0, 1, 2]), vec![2, 1, 0]);
}

#[test]
fn durations_go_up_and_years_and_dates_go_down() {
    let mut a = track(0, "a");
    a.duration_ms = Some(100);
    a.year = Some(1990);
    a.added_at = 5;
    let mut b = track(1, "b");
    b.duration_ms = Some(50);
    b.year = Some(2001);
    b.added_at = 9;
    let c = track(2, "c");
    let tracks = vec![a, b, c];
    let places = vec![0, 1, 2];
    assert_eq!(sort_places(&tracks, SortKey::Duration, &places), vec![1, 0, 2]);
    assert_eq!(sort_places(&tracks, SortKey::Year, &places), vec![1, 0, 2]);
    assert_eq!(sort_places(&tracks, SortKey::AddedAt, &places), vec![1, 0, 2]);
}

#[test]
fn the_order_of_two_tracks_turns_round() {
    let a = track(0, "a");
    let b = track(1, "B");
    for key in SortKey::all() {
        assert_eq!(cmp_tracks(&a, &b, key), cmp_tracks(&b, &a, key).reverse());
        assert_eq!(cmp_tracks(&a, &a, key), Ordering::Equal);
    }
    assert_eq!(cmp_tracks(&a, &b, SortKey::Title), Ordering::Less);
}

#[test]
fn sort_keys_have_their_names() {
    let all = SortKey::all();
    assert_eq!(all.len(), 7);
    for (i, key) in all.iter().enumerate() {
        assert_eq!(key.index(), i);
    }
    assert_eq!(SortKey::Default.label(), "Default (artist / album / track)");
    assert_eq!(SortKey::AddedAt.label(), "Date added (newest first)");
    assert_eq!(SortKey::AddedAt.short_label(), "added");
}
