use firmium::covers::{
    concat_present_ids, cover_requests, first_screen_cover_ids, present_ids, scrolled_cover_ids, CoverSource,
    FIRST_SCREEN_ALBUMS, SCROLL_WINDOW_ROWS,
};
use firmium::library::CoverCache;

fn ids(v: &[&str]) -> Vec<String> {
    v.iter().map(|s| s.to_string()).collect()
}

#[test]
fn present_ids_keep_order_and_skip_missing() {
    let list = vec![Some("a".to_string()), None, Some("b".to_string()), Some("a".to_string())];
    assert_eq!(present_ids(&list), ids(&["a", "b", "a"]));
    assert!(present_ids(&[]).is_empty());
    let second = vec![None, Some("c".to_string())];
    assert_eq!(concat_present_ids(&list, &second), ids(&["a", "b", "a", "c"]));
}

#[test]
fn first_screen_takes_twenty_four_rows() {
    let list: Vec<Option<String>> = (0..30).map(|i| if i % 5 == 0 { None } else { Some(format!("c{i}")) }).collect();
    let r = first_screen_cover_ids(&list);
    let expected: Vec<String> = (0..FIRST_SCREEN_ALBUMS).filter(|i| i % 5 != 0).map(|i| format!("c{i}")).collect();
    assert_eq!(r, expected);
    let short = vec![Some("x".to_string())];
    assert_eq!(first_screen_cover_ids(&short), ids(&["x"]));
}

#[test]
fn scrolling_loads_the_rows_in_view() {
    let list: Vec<Option<String>> = (0..20).map(|i| Some(format!("c{i}"))).collect();
    let r = scrolled_cover_ids(&list, 2);
    let expected: Vec<String> = (2..2 + SCROLL_WINDOW_ROWS).map(|i| format!("c{i}")).collect();
    assert_eq!(r, expected);
    assert_eq!(scrolled_cover_ids(&list, 10), (10..20).map(|i| format!("c{i}")).collect::<Vec<_>>());
    assert!(scrolled_cover_ids(&list, 25).is_empty());
    assert_eq!(scrolled_cover_ids(&list, 4).len(), 16);
}

#[test]
fn cover_loads_skip_cached_ids() {
    let mut cache: CoverCache<u8> = CoverCache::new();
    cache.insert("have".to_string(), 1);
    let plan = cover_requests(&cache, ids(&["have", "local:al-1", "srv-2", "local", "srv-2"]));
    let got: Vec<(String, CoverSource)> = plan.into_iter().map(|r| (r.id, r.source)).collect();
    assert_eq!(
        got,
        vec![
            ("local:al-1".to_string(), CoverSource::Local),
            ("srv-2".to_string(), CoverSource::Server),
            ("local".to_string(), CoverSource::Server),
            ("srv-2".to_string(), CoverSource::Server),
        ]
    );
}
