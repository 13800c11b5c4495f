use firmium::keymap::{
    action_name, default_key_for, parse_key_string, Action, KeyCode, KeyEvent, KeyEventKind, Keymap, RawKeymap,
    NO_MODIFIERS, SHIFT,
};

fn key(c: char) -> KeyEvent {
    KeyEvent::new(KeyCode::Char(c), NO_MODIFIERS)
}

fn from_file(raw: RawKeymap) -> (Keymap, Vec<String>) {
    Keymap::from_raw_with_warnings(&raw)
}

#[test]
fn default_keymap_resolves_play_pause() {
    let km = from_file(RawKeymap::default()).0;
    assert_eq!(km.resolve(key(' ')), Some(Action::PlayPause));
}

#[test]
fn default_keymap_resolves_vim_nav() {
    let km = from_file(RawKeymap::default()).0;
    assert_eq!(km.resolve(key('j')), Some(Action::NavDown));
    assert_eq!(km.resolve(key('k')), Some(Action::NavUp));
    assert_eq!(km.resolve(key('h')), Some(Action::NavLeft));
    assert_eq!(km.resolve(key('l')), Some(Action::NavRight));
}

#[test]
fn user_override_replaces_default_binding() {
    // next_track = "l"
    let km = from_file(RawKeymap { next_track: Some("l".to_string()), ..RawKeymap::default() }).0;
    assert_eq!(km.resolve(key('l')), Some(Action::NextTrack));
    assert_eq!(km.resolve(key('n')), None);
}

#[test]
fn invalid_key_string_falls_back_to_default_and_reports_warning() {
    // quit = "not-a-real-key"
    let (km, warnings) = from_file(RawKeymap { quit: Some("not-a-real-key".to_string()), ..RawKeymap::default() });
    assert_eq!(km.resolve(key('q')), Some(Action::Quit));
    assert_eq!(warnings.len(), 1);
    assert!(warnings[0].contains("quit"));
    assert_eq!(
        warnings[0],
        "termium_keymap.toml: invalid key 'not-a-real-key' for 'quit', using default"
    );
}

#[test]
fn arrow_keys_work_as_alt_nav_binding() {
    let km = from_file(RawKeymap::default()).0;
    assert_eq!(km.resolve(KeyEvent::new(KeyCode::Down, NO_MODIFIERS)), Some(Action::NavDown));
    assert_eq!(km.resolve(KeyEvent::new(KeyCode::Up, NO_MODIFIERS)), Some(Action::NavUp));
    assert_eq!(km.resolve(KeyEvent::new(KeyCode::Left, NO_MODIFIERS)), Some(Action::NavLeft));
    assert_eq!(km.resolve(KeyEvent::new(KeyCode::Right, NO_MODIFIERS)), Some(Action::NavRight));
}

#[test]
fn default_keymap_resolves_activate_to_enter() {
    let km = from_file(RawKeymap::default()).0;
    assert_eq!(km.resolve(KeyEvent::new(KeyCode::Enter, NO_MODIFIERS)), Some(Action::Activate));
}

#[test]
fn default_keymap_binds_every_action_to_its_default_key() {
    let km = from_file(RawKeymap::default()).0;
    let all = [
        Action::PlayPause,
        Action::NextTrack,
        Action::PrevTrack,
        Action::NavDown,
        Action::NavUp,
        Action::NavLeft,
        Action::NavRight,
        Action::Search,
        Action::Activate,
        Action::Quit,
    ];
    for a in all {
        assert_eq!(km.resolve(default_key_for(a)), Some(a));
    }
    assert_eq!(km.resolve(key('x')), None);
}

#[test]
fn user_arrow_binding_beats_fallback() {
    // quit = "down"
    let km = from_file(RawKeymap { quit: Some("down".to_string()), ..RawKeymap::default() }).0;
    assert_eq!(km.resolve(KeyEvent::new(KeyCode::Down, NO_MODIFIERS)), Some(Action::Quit));
    assert_eq!(km.resolve(key('q')), None);
}

#[test]
fn later_override_wins_a_shared_key() {
    let km = from_file(RawKeymap {
        play_pause: Some("x".to_string()),
        quit: Some("x".to_string()),
        ..RawKeymap::default()
    })
    .0;
    assert_eq!(km.resolve(key('x')), Some(Action::Quit));
}

#[test]
fn named_keys_parse() {
    assert_eq!(parse_key_string("space"), Some(key(' ')));
    assert_eq!(parse_key_string("enter"), Some(KeyEvent::new(KeyCode::Enter, NO_MODIFIERS)));
    assert_eq!(parse_key_string("esc"), Some(KeyEvent::new(KeyCode::Esc, NO_MODIFIERS)));
    assert_eq!(parse_key_string("up"), Some(KeyEvent::new(KeyCode::Up, NO_MODIFIERS)));
    assert_eq!(parse_key_string("x"), Some(key('x')));
    assert_eq!(parse_key_string("é"), Some(key('é')));
    assert_eq!(parse_key_string(""), None);
    assert_eq!(parse_key_string("ctrl-x"), None);
}

#[test]
fn upper_case_letters_match_shifted_presses() {
    let km = from_file(RawKeymap { search: Some("Q".to_string()), ..RawKeymap::default() }).0;
    assert_eq!(km.resolve(KeyEvent::new(KeyCode::Char('q'), SHIFT)), Some(Action::Search));
    assert_eq!(km.resolve(KeyEvent::new(KeyCode::Char('Q'), SHIFT)), Some(Action::Search));
    assert_eq!(km.resolve(key('q')), Some(Action::Quit));
    let press = KeyEvent::new(KeyCode::Char('a'), SHIFT);
    assert!(press.same_key(&KeyEvent::new(KeyCode::Char('A'), NO_MODIFIERS)));
    let release = KeyEvent { kind: KeyEventKind::Release, ..key('q') };
    assert_eq!(km.resolve(release), None);
}

#[test]
fn raw_keymap_get_by_name() {
    let raw = RawKeymap { nav_up: Some("w".to_string()), ..RawKeymap::default() };
    assert_eq!(raw.get("nav_up"), Some("w"));
    assert_eq!(raw.get("nav_down"), None);
    assert_eq!(raw.get("volume"), None);
    assert_eq!(action_name(Action::NavUp), "nav_up");
}
