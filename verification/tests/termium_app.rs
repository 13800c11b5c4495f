use firmium::keymap::{Action, KeyCode, KeyEvent, Keymap, RawKeymap, NO_MODIFIERS};
use firmium::termium::{handle_key, Album, App, AppEvent, Artist, BackendEvent, SideEffect, View};

type TestApp = App<u32, String>;

fn test_album(id: &str, name: &str) -> Album {
    Album {
        id: id.to_string(),
        name: name.to_string(),
        album_artist: "Someone".to_string(),
        artist_id: None,
        cover_art_id: None,
        song_count: None,
        release_type: "album".to_string(),
        year: None,
        is_compilation: false,
        starred: false,
    }
}

fn test_artist(id: &str) -> Artist {
    Artist { id: id.to_string(), name: format!("Artist {id}"), album_count: 1 }
}

#[test]
fn quit_action_sets_should_quit() {
    let mut app: TestApp = App::new_for_test();
    app.update(AppEvent::Key(Action::Quit));
    assert!(app.should_quit);
}

#[test]
fn nav_down_in_album_list_advances_selection() {
    let mut app: TestApp = App::new_for_test();
    app.view = View::Albums;
    app.albums = vec![test_album("1", "First"), test_album("2", "Second")];
    app.selected_index = 0;
    app.update(AppEvent::Key(Action::NavDown));
    assert_eq!(app.selected_index, 1);
}

#[test]
fn nav_down_at_end_of_list_does_not_overflow() {
    let mut app: TestApp = App::new_for_test();
    app.view = View::Albums;
    app.albums = vec![test_album("1", "Only")];
    app.selected_index = 0;
    app.update(AppEvent::Key(Action::NavDown));
    assert_eq!(app.selected_index, 0);
}

#[test]
fn new_app_starts_logged_out_on_login_screen() {
    let app: TestApp = App::new();
    assert_eq!(app.view, View::Login);
    assert!(app.backend.is_none());
    assert_eq!(app.queue_idx, -1);
    assert_eq!(app.login_field_focus, 0);
}

#[test]
fn typing_fills_focused_login_field_and_backspace_removes() {
    let mut app: TestApp = App::new();
    app.update(AppEvent::CharInput('h'));
    app.update(AppEvent::CharInput('i'));
    assert_eq!(app.login_server, "hi");
    app.update(AppEvent::LoginFieldNext);
    app.update(AppEvent::CharInput('u'));
    assert_eq!(app.login_username, "u");
    app.update(AppEvent::LoginFieldNext);
    app.update(AppEvent::CharInput('p'));
    app.update(AppEvent::CharInput('w'));
    app.update(AppEvent::Backspace);
    assert_eq!(app.login_password, "p");
    app.update(AppEvent::LoginFieldNext);
    assert_eq!(app.login_field_focus, 0);
    app.update(AppEvent::Backspace);
    assert_eq!(app.login_server, "h");
}

#[test]
fn backspace_on_empty_field_changes_nothing() {
    let mut app: TestApp = App::new();
    app.update(AppEvent::Backspace);
    assert_eq!(app.login_server, "");
}

#[test]
fn login_submit_hands_back_credentials() {
    let mut app: TestApp = App::new();
    app.login_server = "http://srv".to_string();
    app.login_username = "me".to_string();
    app.login_password = "pw".to_string();
    match app.update(AppEvent::LoginSubmit) {
        Some(SideEffect::Login { server, username, password }) => {
            assert_eq!(server, "http://srv");
            assert_eq!(username, "me");
            assert_eq!(password, "pw");
        }
        _ => panic!("expected a login request"),
    }
}

#[test]
fn login_success_goes_home_and_loads_albums() {
    let mut app: TestApp = App::new();
    app.status_message = Some("bad password".to_string());
    let effect = app.update(AppEvent::LoginResult(Ok(7)));
    assert!(matches!(effect, Some(SideEffect::LoadHomeAlbums)));
    assert_eq!(app.backend, Some(7));
    assert_eq!(app.view, View::Home);
    assert!(app.status_message.is_none());
}

#[test]
fn login_failure_shows_message() {
    let mut app: TestApp = App::new();
    let effect = app.update(AppEvent::LoginResult(Err("denied".to_string())));
    assert!(effect.is_none());
    assert_eq!(app.status_message.as_deref(), Some("denied"));
    assert_eq!(app.view, View::Login);
}

#[test]
fn loading_a_list_resets_selection() {
    let mut app: TestApp = App::new();
    app.selected_index = 4;
    app.update(AppEvent::AlbumsLoaded(Ok(vec![test_album("a", "A")])));
    assert_eq!(app.selected_index, 0);
    assert_eq!(app.albums.len(), 1);
    app.update(AppEvent::ArtistsLoaded(Err("offline".to_string())));
    assert_eq!(app.status_message.as_deref(), Some("offline"));
}

#[test]
fn nav_up_stops_at_top() {
    let mut app: TestApp = App::new();
    app.view = View::Albums;
    app.albums = vec![test_album("1", "A"), test_album("2", "B")];
    app.selected_index = 1;
    app.update(AppEvent::Key(Action::NavUp));
    assert_eq!(app.selected_index, 0);
    app.update(AppEvent::Key(Action::NavUp));
    assert_eq!(app.selected_index, 0);
}

#[test]
fn tabs_cycle_and_request_missing_lists() {
    let mut app: TestApp = App::new();
    app.view = View::Home;
    assert!(app.update(AppEvent::Key(Action::NavRight)).is_none());
    assert_eq!(app.view, View::Albums);
    let effect = app.update(AppEvent::Key(Action::NavRight));
    assert_eq!(app.view, View::Artists);
    assert!(matches!(effect, Some(SideEffect::LoadArtists)));
    app.artists = vec![test_artist("1")];
    assert!(app.update(AppEvent::Key(Action::NavLeft)).is_none());
    assert_eq!(app.view, View::Albums);
    app.update(AppEvent::Key(Action::NavLeft));
    assert_eq!(app.view, View::Home);
    let effect = app.update(AppEvent::Key(Action::NavLeft));
    assert_eq!(app.view, View::Playlists);
    assert!(matches!(effect, Some(SideEffect::LoadPlaylists)));
    app.update(AppEvent::Key(Action::NavRight));
    assert_eq!(app.view, View::Home);
}

#[test]
fn tabs_do_nothing_on_login_screen() {
    let mut app: TestApp = App::new();
    assert!(app.update(AppEvent::Key(Action::NavRight)).is_none());
    assert_eq!(app.view, View::Login);
}

#[test]
fn search_flow_runs_query_and_plays_result() {
    let mut app: TestApp = App::new();
    app.view = View::Home;
    app.update(AppEvent::Key(Action::Search));
    assert_eq!(app.view, View::Search);
    assert!(app.update(AppEvent::SearchSubmit).is_none());
    assert!(app.search_submitted);
    app.search_submitted = false;
    app.update(AppEvent::CharInput('a'));
    app.update(AppEvent::CharInput('b'));
    match app.update(AppEvent::SearchSubmit) {
        Some(SideEffect::RunSearch(q)) => assert_eq!(q, "ab"),
        _ => panic!("expected a search"),
    }
    app.update(AppEvent::CharInput('z'));
    assert_eq!(app.search_query, "ab");
    app.update(AppEvent::SearchResultsLoaded(Ok(vec!["s1".to_string(), "s2".to_string()])));
    app.update(AppEvent::Key(Action::NavDown));
    match app.update(AppEvent::Key(Action::Activate)) {
        Some(SideEffect::PlaySongs(songs)) => assert_eq!(songs, vec!["s2".to_string()]),
        _ => panic!("expected playback"),
    }
    app.update(AppEvent::SearchCancel);
    assert_eq!(app.view, View::Home);
    assert_eq!(app.search_query, "");
    assert!(app.search_results_songs.is_empty());
    assert!(!app.search_submitted);
}

#[test]
fn activate_plays_selected_album_and_playlist() {
    let mut app: TestApp = App::new();
    app.view = View::Albums;
    app.albums = vec![test_album("a1", "A"), test_album("a2", "B")];
    app.selected_index = 1;
    match app.update(AppEvent::Key(Action::Activate)) {
        Some(SideEffect::PlayAlbum(id)) => assert_eq!(id, "a2"),
        _ => panic!("expected album playback"),
    }
    app.view = View::Playlists;
    app.playlists = vec![("p1".to_string(), "Mix".to_string())];
    app.selected_index = 0;
    match app.update(AppEvent::Key(Action::Activate)) {
        Some(SideEffect::PlayPlaylist(id)) => assert_eq!(id, "p1"),
        _ => panic!("expected playlist playback"),
    }
    app.view = View::Home;
    assert!(app.update(AppEvent::Key(Action::Activate)).is_none());
}

#[test]
fn transport_keys_request_backend_calls() {
    let mut app: TestApp = App::new();
    assert!(matches!(app.update(AppEvent::Key(Action::PlayPause)), Some(SideEffect::TogglePlay)));
    assert!(matches!(app.update(AppEvent::Key(Action::NextTrack)), Some(SideEffect::NextTrack)));
    assert!(matches!(app.update(AppEvent::Key(Action::PrevTrack)), Some(SideEffect::PrevTrack)));
}

#[test]
fn backend_events_mirror_playback_and_queue() {
    let mut app: TestApp = App::new();
    app.update(AppEvent::Backend(BackendEvent::PlaybackStateChanged { playing: true }));
    assert!(app.is_playing);
    app.update(AppEvent::Backend(BackendEvent::PlaybackFinished));
    assert!(!app.is_playing);
    app.update(AppEvent::Backend(BackendEvent::QueueStateChanged {
        queue: vec!["x".to_string(), "y".to_string()],
        queue_idx: 1,
    }));
    assert_eq!(app.now_playing.as_deref(), Some("y"));
    assert_eq!(app.queue_idx, 1);
    app.update(AppEvent::Backend(BackendEvent::QueueStateChanged { queue: vec![], queue_idx: -1 }));
    assert!(app.now_playing.is_none());
    app.backend = Some(3);
    app.view = View::Albums;
    app.update(AppEvent::Backend(BackendEvent::SessionExpired));
    assert!(app.backend.is_none());
    assert_eq!(app.view, View::Login);
    assert_eq!(app.status_message.as_deref(), Some("Session expired. Please log in again."));
}

#[test]
fn keys_route_to_text_fields_while_typing() {
    let keymap = Keymap::from_raw_with_warnings(&RawKeymap::default()).0;
    let mut app: TestApp = App::new();
    handle_key(&mut app, &keymap, KeyEvent::new(KeyCode::Char('q'), NO_MODIFIERS));
    assert!(!app.should_quit);
    assert_eq!(app.login_server, "q");
    handle_key(&mut app, &keymap, KeyEvent::new(KeyCode::Tab, NO_MODIFIERS));
    assert_eq!(app.login_field_focus, 1);
    let effect = handle_key(&mut app, &keymap, KeyEvent::new(KeyCode::Enter, NO_MODIFIERS));
    assert!(matches!(effect, Some(SideEffect::Login { .. })));
    app.view = View::Home;
    handle_key(&mut app, &keymap, KeyEvent::new(KeyCode::Char('q'), NO_MODIFIERS));
    assert!(app.should_quit);
}

#[test]
fn unbound_key_outside_text_fields_does_nothing() {
    let keymap = Keymap::from_raw_with_warnings(&RawKeymap::default()).0;
    let mut app: TestApp = App::new();
    app.view = View::Home;
    let effect = handle_key(&mut app, &keymap, KeyEvent::new(KeyCode::Char('z'), NO_MODIFIERS));
    assert!(effect.is_none());
    assert_eq!(app.view, View::Home);
}

#[test]
fn quitting_is_final() {
    let mut app: TestApp = App::new();
    app.view = View::Home;
    app.update(AppEvent::Key(Action::Quit));
    app.update(AppEvent::Key(Action::NavRight));
    app.update(AppEvent::LoginResult(Ok(1)));
    app.update(AppEvent::Backend(BackendEvent::SessionExpired));
    assert!(app.should_quit);
}

#[test]
fn backspace_takes_back_typed_search_character() {
    let mut app: TestApp = App::new();
    app.view = View::Search;
    app.search_query = "ab".to_string();
    app.update(AppEvent::CharInput('c'));
    assert_eq!(app.search_query, "abc");
    app.update(AppEvent::Backspace);
    assert_eq!(app.search_query, "ab");
    assert_eq!(app.login_server, "");
}

#[test]
fn escape_cancels_search_while_typing() {
    let keymap = Keymap::from_raw_with_warnings(&RawKeymap::default()).0;
    let mut app: TestApp = App::new();
    app.view = View::Search;
    handle_key(&mut app, &keymap, KeyEvent::new(KeyCode::Char('x'), NO_MODIFIERS));
    assert_eq!(app.search_query, "x");
    handle_key(&mut app, &keymap, KeyEvent::new(KeyCode::Esc, NO_MODIFIERS));
    assert_eq!(app.view, View::Home);
    assert_eq!(app.search_query, "");
    app.view = View::Search;
    let effect = handle_key(&mut app, &keymap, KeyEvent::new(KeyCode::Tab, NO_MODIFIERS));
    assert!(effect.is_none());
    assert_eq!(app.view, View::Search);
}
