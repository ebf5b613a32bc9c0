use mutui::layout::{
    centered_rect, footer_rows, playlist_panes, screen_rows, status_columns, Area,
};

fn area(x: u16, y: u16, width: u16, height: u16) -> Area {
    Area { x, y, width, height }
}

#[test]
fn the_screen_has_tabs_a_body_and_a_footer() {
    let (tabs, body, footer) = screen_rows(area(0, 0, 80, 24), true);
    assert_eq!(tabs, area(0, 0, 80, 1));
    assert_eq!(body, area(0, 1, 80, 20));
    assert_eq!(footer, area(0, 21, 80, 3));
    let (_, body, footer) = screen_rows(area(0, 0, 80, 24), false);
    assert_eq!(body, area(0, 1, 80, 19));
    assert_eq!(footer, area(0, 20, 80, 4));
}

#[test]
fn the_footer_has_one_row_or_two() {
    let (first, second) = footer_rows(area(0, 21, 80, 3), true);
    assert_eq!(first, area(1, 22, 78, 1));
    assert_eq!(second, None);
    let (first, second) = footer_rows(area(0, 20, 80, 4), false);
    assert_eq!(first, area(1, 21, 78, 1));
    assert_eq!(second, Some(area(1, 22, 78, 1)));
}

#[test]
fn a_frame_fits_into_the_smallest_area() {
    let (first, _) = footer_rows(area(5, 7, 0, 0), true);
    assert_eq!(first, area(5, 7, 0, 0));
    let (first, _) = footer_rows(area(5, 7, 1, 1), true);
    assert_eq!((first.x, first.width), (6, 0));
}

#[test]
fn what_is_said_stands_on_the_right() {
    let (playing, said) = status_columns(area(1, 22, 78, 1), 10);
    assert_eq!(playing, area(1, 22, 68, 1));
    assert_eq!(said, area(69, 22, 10, 1));
}

#[test]
fn the_panes_of_the_playlists_share_an_area() {
    let (left, right) = playlist_panes(area(0, 1, 100, 20));
    assert_eq!(left, area(0, 1, 35, 20));
    assert_eq!(right, area(35, 1, 65, 20));
}

#[test]
fn an_overlay_stands_in_the_middle() {
    assert_eq!(centered_rect(60, 70, area(0, 0, 100, 100)), area(20, 15, 60, 70));
    assert_eq!(centered_rect(50, 50, area(10, 20, 100, 100)), area(35, 45, 50, 50));
}
