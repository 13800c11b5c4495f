use firmium::playlist_sync::{
    adopt_or_retry, delete_local, find_local, move_track, record_create_failure, record_create_success,
    remove_track_at, LocalPlaylist, ServerPlaylist,
};

fn local(id: &str, name: &str, server_id: Option<&str>, pending: bool, attempts: u32) -> LocalPlaylist {
    LocalPlaylist {
        id: id.to_string(),
        name: name.to_string(),
        track_ids: vec![format!("{id}-t1"), format!("{id}-t2")],
        server_id: server_id.map(|s| s.to_string()),
        create_pending: pending,
        create_attempts: attempts,
    }
}

fn server(id: Option<&str>, name: Option<&str>) -> ServerPlaylist {
    ServerPlaylist { id: id.map(|s| s.to_string()), name: name.map(|s| s.to_string()) }
}

#[test]
fn unsynced_playlists_adopt_same_named_server_playlists() {
    let mut ls = vec![
        local("l1", "Road", None, true, 0),
        local("l2", "Gym", None, true, 1),
        local("l3", "Old", Some("s9"), false, 0),
        local("l4", "Tired", None, true, 3),
        local("l5", "Idle", None, false, 0),
    ];
    let sv = vec![server(Some("s1"), Some("Road")), server(Some("s2"), Some("Road")), server(None, None)];
    let retry = adopt_or_retry(&mut ls, &sv, 3);
    assert_eq!(retry, vec![1]);
    assert_eq!(ls[0].server_id.as_deref(), Some("s1"));
    assert!(!ls[0].create_pending);
    assert_eq!(ls[0].track_ids, vec!["l1-t1".to_string(), "l1-t2".to_string()]);
    assert_eq!(ls[1].server_id, None);
    assert!(ls[1].create_pending);
    assert_eq!(ls[2].server_id.as_deref(), Some("s9"));
    assert_eq!(ls[3].server_id, None);
    assert!(ls[3].create_pending);
    assert!(!ls[4].create_pending);
    let again = adopt_or_retry(&mut ls, &sv, 3);
    assert_eq!(again, vec![1]);
    assert_eq!(ls[0].server_id.as_deref(), Some("s1"));
}

#[test]
fn adopting_a_server_playlist_without_id_stops_waiting() {
    let mut ls = vec![local("l1", "Road", None, true, 0)];
    let sv = vec![server(None, Some("Road"))];
    assert!(adopt_or_retry(&mut ls, &sv, 3).is_empty());
    assert_eq!(ls[0].server_id, None);
    assert!(!ls[0].create_pending);
}

#[test]
fn create_answers_are_recorded() {
    let mut ls = vec![local("l1", "A", None, true, 0), local("l2", "B", None, true, 0)];
    record_create_success(&mut ls, "l2", Some("s2".to_string()));
    assert_eq!(ls[1].server_id.as_deref(), Some("s2"));
    assert!(!ls[1].create_pending);
    assert!(ls[0].create_pending);
    record_create_failure(&mut ls, "l1", 2);
    assert_eq!(ls[0].create_attempts, 1);
    assert!(ls[0].create_pending);
    record_create_failure(&mut ls, "l1", 2);
    assert_eq!(ls[0].create_attempts, 2);
    assert!(!ls[0].create_pending);
    assert!(adopt_or_retry(&mut ls, &Vec::new(), 2).is_empty());
    record_create_failure(&mut ls, "nope", 2);
    record_create_success(&mut ls, "nope", None);
    assert_eq!(ls[0].create_attempts, 2);
    assert_eq!(find_local(&ls, "l2"), Some(1));
    assert_eq!(find_local(&ls, "nope"), None);
}

#[test]
fn deleting_returns_the_server_copy() {
    let mut ls = vec![local("l1", "A", Some("s1"), false, 0), local("l2", "B", None, true, 0)];
    assert_eq!(delete_local(&mut ls, "l1"), Some("s1".to_string()));
    assert_eq!(ls.len(), 1);
    assert_eq!(ls[0].id, "l2");
    assert_eq!(delete_local(&mut ls, "l2"), None);
    assert!(ls.is_empty());
    assert_eq!(delete_local(&mut ls, "l2"), None);
}

#[test]
fn server_tracks_move_and_back() {
    let mut t = vec!["a", "b", "c", "d"];
    assert!(move_track(&mut t, 0, 2));
    assert_eq!(t, vec!["b", "c", "a", "d"]);
    assert!(move_track(&mut t, 2, 0));
    assert_eq!(t, vec!["a", "b", "c", "d"]);
    assert!(move_track(&mut t, 3, 1));
    assert_eq!(t, vec!["a", "d", "b", "c"]);
    assert!(!move_track(&mut t, 1, 1));
    assert!(!move_track(&mut t, 4, 0));
    assert!(!move_track(&mut t, 0, 4));
    assert_eq!(t, vec!["a", "d", "b", "c"]);
}

#[test]
fn server_tracks_remove() {
    let mut t = vec![1, 2, 3];
    assert!(remove_track_at(&mut t, 1));
    assert_eq!(t, vec![1, 3]);
    assert!(!remove_track_at(&mut t, 2));
    assert_eq!(t, vec![1, 3]);
}
