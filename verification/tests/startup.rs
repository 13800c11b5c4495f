use firmium::startup::startup_plan;

#[test]
fn saved_login_is_prefilled_and_reused() {
    let p = startup_plan(Some("https://m.example".to_string()), Some("alice".to_string()), Some("nord".to_string()));
    assert_eq!(p.server_input, "https://m.example");
    assert_eq!(p.username_input, "alice");
    assert_eq!(p.theme_id, "nord");
    assert!(p.auto_login);
}

#[test]
fn partial_login_is_not_prefilled() {
    let p = startup_plan(Some("https://m.example".to_string()), None, None);
    assert_eq!(p.server_input, "");
    assert_eq!(p.username_input, "");
    assert_eq!(p.theme_id, "firmium");
    assert!(!p.auto_login);
}

#[test]
fn empty_saved_fields_do_not_log_in() {
    let p = startup_plan(Some(String::new()), Some("bob".to_string()), None);
    assert_eq!(p.server_input, "");
    assert_eq!(p.username_input, "bob");
    assert!(!p.auto_login);
}
