use firmium::toasts::{Toast, ToastStack, MAX_TOASTS, TOAST_LIFETIME_MS};

fn ids(s: &ToastStack) -> Vec<u64> {
    s.toasts.iter().map(|t| t.id).collect()
}

#[test]
fn toasts_coalesce_by_category() {
    let mut s = ToastStack::new();
    s.show("network".to_string(), "Network down".to_string(), false, 100);
    s.show("network".to_string(), "Network down again".to_string(), false, 900);
    assert_eq!(s.toasts.len(), 1);
    assert_eq!(s.toasts[0].id, 0);
    assert_eq!(s.toasts[0].text, "Network down");
    assert_eq!(s.toasts[0].spawned_ms, 900);
    assert_eq!(s.next_id, 1);
}

#[test]
fn toasts_keep_the_newest_three() {
    let mut s = ToastStack::new();
    for (i, c) in ["a", "b", "c", "d", "e"].iter().enumerate() {
        s.show(c.to_string(), format!("error {c}"), false, i as u64);
    }
    assert_eq!(s.toasts.len(), MAX_TOASTS);
    assert_eq!(ids(&s), vec![2, 3, 4]);
    let cats: Vec<&str> = s.toasts.iter().map(|t| t.category.as_str()).collect();
    assert_eq!(cats, vec!["c", "d", "e"]);
    assert_eq!(s.next_id, 5);
}

#[test]
fn expired_session_is_not_toasted() {
    let mut s = ToastStack::new();
    s.show("session".to_string(), "Session expired".to_string(), true, 10);
    assert!(s.toasts.is_empty());
    assert_eq!(s.next_id, 0);
}

#[test]
fn dismiss_removes_only_that_toast() {
    let mut s = ToastStack::new();
    s.show("a".to_string(), "A".to_string(), false, 0);
    s.show("b".to_string(), "B".to_string(), false, 0);
    s.show("c".to_string(), "C".to_string(), false, 0);
    s.dismiss(1);
    assert_eq!(ids(&s), vec![0, 2]);
    s.dismiss(7);
    assert_eq!(ids(&s), vec![0, 2]);
}

#[test]
fn dismissing_a_fresh_toast_restores_the_stack() {
    let mut s = ToastStack::new();
    s.show("a".to_string(), "A".to_string(), false, 0);
    let before: Vec<(u64, String)> = s.toasts.iter().map(|t| (t.id, t.category.clone())).collect();
    s.show("b".to_string(), "B".to_string(), false, 5);
    let new_id = s.next_id - 1;
    s.dismiss(new_id);
    let after: Vec<(u64, String)> = s.toasts.iter().map(|t| (t.id, t.category.clone())).collect();
    assert_eq!(before, after);
}

#[test]
fn toasts_expire_after_five_seconds() {
    let mut s = ToastStack::new();
    s.show("a".to_string(), "A".to_string(), false, 1_000);
    s.show("b".to_string(), "B".to_string(), false, 3_000);
    s.expire(1_000 + TOAST_LIFETIME_MS - 1);
    assert_eq!(ids(&s), vec![0, 1]);
    s.expire(1_000 + TOAST_LIFETIME_MS);
    assert_eq!(ids(&s), vec![1]);
    s.expire(1_000 + TOAST_LIFETIME_MS);
    assert_eq!(ids(&s), vec![1]);
    s.expire(8_000);
    assert!(s.toasts.is_empty());
}

#[test]
fn stamps_ahead_of_the_clock_count_as_new() {
    let mut s = ToastStack::new();
    s.show("a".to_string(), "A".to_string(), false, 9_000);
    s.expire(100);
    assert_eq!(ids(&s), vec![0]);
}

#[test]
fn notices_are_pushed_without_coalescing() {
    let mut s = ToastStack::new();
    for _ in 0..5 {
        s.push_notice("unknown".to_string(), "Server URL and username are required".to_string(), 0);
    }
    assert_eq!(ids(&s), vec![0, 1, 2, 3, 4]);
    let t: &Toast = &s.toasts[4];
    assert_eq!(t.text, "Server URL and username are required");
}
