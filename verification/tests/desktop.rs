use firmium::desktop::{apply_rating, TrackRating};
use firmium::desktop::{
    recap_next, recap_prev, toggle_panel, toggle_rating_filter, Navigation, Panel, RecapRange, View, RECAP_CARDS,
};

#[test]
fn view_titles() {
    assert_eq!(View::Home.title(), "Home");
    assert_eq!(View::AlbumDetail("x".to_string()).title(), "Album");
    assert_eq!(View::GenreDetail("Jazz".to_string()).title(), "Genre");
    assert_eq!(View::PodcastDetail("p".to_string()).title(), "Podcast");
    assert_eq!(View::Recap.title(), "Recap");
}

#[test]
fn same_view_compares_payloads() {
    assert!(View::AlbumDetail("a".to_string()).same_as(&View::AlbumDetail("a".to_string())));
    assert!(!View::AlbumDetail("a".to_string()).same_as(&View::AlbumDetail("b".to_string())));
    assert!(!View::AlbumDetail("a".to_string()).same_as(&View::ArtistDetail("a".to_string())));
    assert!(View::Mix.same_as(&View::Mix));
}

#[test]
fn navigate_then_back_returns() {
    let mut nav = Navigation::new();
    nav.navigate(View::Albums);
    nav.navigate(View::AlbumDetail("42".to_string()));
    assert_eq!(nav.nav_stack.len(), 2);
    nav.navigate(View::AlbumDetail("42".to_string()));
    assert_eq!(nav.nav_stack.len(), 2);
    nav.back();
    assert!(nav.view.same_as(&View::Albums));
    nav.back();
    assert!(nav.view.same_as(&View::Home));
    nav.back();
    assert!(nav.view.same_as(&View::Home));
    assert!(nav.nav_stack.is_empty());
    nav.navigate(View::Search);
    nav.reset();
    assert!(nav.view.same_as(&View::Home));
    assert!(nav.nav_stack.is_empty());
}

#[test]
fn recap_windows() {
    let now = 1_700_000_000;
    assert_eq!(RecapRange::Week.from_ts(now), now - 7 * 86_400);
    assert_eq!(RecapRange::Month.from_ts(now), now - 30 * 86_400);
    assert_eq!(RecapRange::ThreeMonths.from_ts(now), now - 90 * 86_400);
    assert_eq!(RecapRange::Year.from_ts(now), now - 365 * 86_400);
    assert_eq!(RecapRange::All.from_ts(now), 0);
    assert_eq!(RecapRange::Week.label(), "7 days");
    assert_eq!(RecapRange::ThreeMonths.label(), "3 months");
    assert_eq!(RecapRange::All.label(), "All time");
}

#[test]
fn recap_cards_stay_in_range() {
    assert_eq!(recap_next(0), 1);
    assert_eq!(recap_next(RECAP_CARDS - 1), RECAP_CARDS - 1);
    assert_eq!(recap_prev(0), 0);
    assert_eq!(recap_prev(recap_next(3)), 3);
}

#[test]
fn panels_toggle() {
    assert_eq!(toggle_panel(None, Panel::Lyrics), Some(Panel::Lyrics));
    assert_eq!(toggle_panel(Some(Panel::Lyrics), Panel::Lyrics), None);
    assert_eq!(toggle_panel(Some(Panel::Queue), Panel::Lyrics), Some(Panel::Lyrics));
}

#[test]
fn rating_filter_toggles() {
    assert_eq!(toggle_rating_filter(0, 4), 4);
    assert_eq!(toggle_rating_filter(4, 4), 0);
    assert_eq!(toggle_rating_filter(3, 4), 4);
}

#[test]
fn views_compare_by_kind_and_payload() {
    assert_eq!(View::ArtistDetail("a".to_string()), View::ArtistDetail("a".to_string()));
    assert_ne!(View::ArtistDetail("a".to_string()), View::ArtistDetail("b".to_string()));
    assert_ne!(View::Home, View::Albums);
}

#[test]
fn ratings_show_at_once_on_every_entry_of_the_track() {
    let mut list = vec![
        TrackRating { id: "a".to_string(), user_rating: Some(2) },
        TrackRating { id: "b".to_string(), user_rating: None },
        TrackRating { id: "a".to_string(), user_rating: None },
    ];
    apply_rating(&mut list, "a", 4);
    let got: Vec<(String, Option<u32>)> = list.iter().map(|t| (t.id.clone(), t.user_rating)).collect();
    assert_eq!(got, vec![("a".to_string(), Some(4)), ("b".to_string(), None), ("a".to_string(), Some(4))]);
    apply_rating(&mut list, "a", 4);
    let again: Vec<(String, Option<u32>)> = list.iter().map(|t| (t.id.clone(), t.user_rating)).collect();
    assert_eq!(got, again);
    apply_rating(&mut list, "zz", 1);
    assert_eq!(list[1].user_rating, None);
}
