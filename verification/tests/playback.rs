use firmium::playback::{accepts_result, cycle_repeat, track_fetch, PlayerFocus, TrackFetch};

#[test]
fn repeat_cycles_off_all_one_off() {
    assert_eq!(cycle_repeat(false, false), (false, true));
    assert_eq!(cycle_repeat(false, true), (true, false));
    assert_eq!(cycle_repeat(true, false), (false, false));
    assert_eq!(cycle_repeat(true, true), (true, false));
    let mut s = (true, false);
    for _ in 0..3 {
        s = cycle_repeat(s.0, s.1);
    }
    assert_eq!(s, (true, false));
}

#[test]
fn focus_follows_the_player_that_starts() {
    let mut f = PlayerFocus::new();
    let a = "a".to_string();
    let b = "b".to_string();
    assert!(!f.state_changed(&a, false));
    assert!(f.current.is_none());
    assert!(f.state_changed(&a, true));
    assert!(f.position_shown(&a));
    assert!(!f.position_shown(&b));
    assert!(!f.state_changed(&b, false));
    assert_eq!(f.current.as_deref(), Some("a"));
    assert!(f.state_changed(&b, true));
    assert!(!f.position_shown(&a));
    f.queue_changed(None);
    assert!(!f.position_shown(&b));
}

#[test]
fn panels_fetch_once_per_track() {
    let mut last: Option<String> = None;
    let t1 = "t1".to_string();
    let t2 = "t2".to_string();
    assert_eq!(track_fetch(false, Some(&t1), &mut last), TrackFetch::Skip);
    assert_eq!(last, None);
    assert_eq!(track_fetch(true, Some(&t1), &mut last), TrackFetch::Fetch);
    assert_eq!(last.as_deref(), Some("t1"));
    assert_eq!(track_fetch(true, Some(&t1), &mut last), TrackFetch::Skip);
    assert_eq!(track_fetch(true, Some(&t2), &mut last), TrackFetch::Fetch);
    assert_eq!(last.as_deref(), Some("t2"));
    assert_eq!(track_fetch(true, None, &mut last), TrackFetch::Clear);
    assert_eq!(last, None);
}

#[test]
fn late_answers_are_dropped() {
    let mut last: Option<String> = None;
    let t1 = "t1".to_string();
    let t2 = "t2".to_string();
    track_fetch(true, Some(&t1), &mut last);
    track_fetch(true, Some(&t2), &mut last);
    assert!(!accepts_result(&last, &t1));
    assert!(accepts_result(&last, &t2));
    assert!(!accepts_result(&None, &t2));
}
