use firmium::library::other_accounts;
use firmium::desktop::Energy;
use firmium::library::{
    filter_energy, playlist_list_items, queue_current, recent_artists, remember_account, resume_start_index,
    CoverCache, PlaylistListItem, RecentPlay, SavedAccount, MAX_COVER_HANDLES,
};

#[test]
fn accounts_are_remembered_once() {
    let mut accounts = Vec::new();
    remember_account(&mut accounts, Some("s".to_string()), Some("u".to_string()));
    remember_account(&mut accounts, Some("s".to_string()), Some("u".to_string()));
    remember_account(&mut accounts, Some("s".to_string()), None);
    remember_account(&mut accounts, Some("s".to_string()), Some("v".to_string()));
    assert_eq!(
        accounts,
        vec![
            SavedAccount { server: "s".to_string(), username: "u".to_string() },
            SavedAccount { server: "s".to_string(), username: "v".to_string() },
        ]
    );
}

#[test]
fn cover_cache_reads_back_and_evicts_oldest() {
    let mut cache: CoverCache<u32> = CoverCache::new();
    cache.insert("a".to_string(), 1);
    assert_eq!(cache.get("a"), Some(&1));
    cache.insert("a".to_string(), 2);
    assert_eq!(cache.get("a"), Some(&2));
    assert_eq!(cache.len(), 1);
    for i in 0..MAX_COVER_HANDLES {
        cache.insert(format!("c{i}"), i as u32);
    }
    assert_eq!(cache.len(), MAX_COVER_HANDLES);
    assert!(!cache.contains_key("a"));
    assert!(cache.contains_key("c0"));
    assert_eq!(cache.get(&format!("c{}", MAX_COVER_HANDLES - 1)), Some(&((MAX_COVER_HANDLES - 1) as u32)));
    cache.clear();
    assert_eq!(cache.len(), 0);
}

#[test]
fn playlist_rows_skip_mirrored_server_playlists() {
    let local = vec![Some("s2".to_string()), None];
    let server = vec!["s1".to_string(), "s2".to_string(), "s3".to_string()];
    assert_eq!(
        playlist_list_items(&local, &server),
        vec![
            PlaylistListItem::Local(0),
            PlaylistListItem::Local(1),
            PlaylistListItem::ServerOnly(0),
            PlaylistListItem::ServerOnly(2),
        ]
    );
}

fn play(id: Option<&str>, name: Option<&str>, cover: Option<&str>) -> RecentPlay {
    RecentPlay {
        artist_id: id.map(str::to_string),
        artist_name: name.map(str::to_string),
        cover_art_id: cover.map(str::to_string),
    }
}

#[test]
fn recent_artists_keep_first_play_of_each() {
    let plays = vec![
        play(Some("a"), Some("A"), Some("c1")),
        play(Some("b"), None, None),
        play(Some("a"), Some("A"), Some("c2")),
        play(Some("b"), Some("B"), None),
    ];
    assert_eq!(
        recent_artists(&plays),
        vec![
            ("a".to_string(), "A".to_string(), Some("c1".to_string())),
            ("b".to_string(), "B".to_string(), None),
        ]
    );
}

#[test]
fn mood_mix_keeps_band_when_enough_are_tagged() {
    let songs: Vec<u32> = (0..30).collect();
    let bands: Vec<Option<Energy>> =
        (0..30).map(|i| if i % 2 == 0 { Some(Energy::Chill) } else { Some(Energy::High) }).collect();
    let mix = filter_energy(songs.clone(), &bands, Energy::Chill);
    assert_eq!(mix, (0..30).filter(|i| i % 2 == 0).collect::<Vec<u32>>());
    let none = filter_energy(songs.clone(), &bands, Energy::Mid);
    assert_eq!(none, songs);
    let big: Vec<u32> = (0..100).collect();
    let big_bands = vec![None; 100];
    assert_eq!(filter_energy(big, &big_bands, Energy::High).len(), 60);
}

#[test]
fn queue_position() {
    let q = vec!["x", "y"];
    assert_eq!(queue_current(&q, 1), Some(&"y"));
    assert_eq!(queue_current(&q, -1), None);
    assert_eq!(queue_current(&q, 2), None);
}

#[test]
fn resume_index() {
    let ids = vec!["a".to_string(), "b".to_string(), "b".to_string()];
    assert_eq!(resume_start_index(&ids, Some("b")), 1);
    assert_eq!(resume_start_index(&ids, Some("z")), 0);
    assert_eq!(resume_start_index(&ids, None), 0);
}

#[test]
fn switcher_offers_the_other_accounts() {
    let acct = |s: &str, u: &str| SavedAccount { server: s.to_string(), username: u.to_string() };
    let accounts = vec![acct("s1", "u"), acct("s2", "u"), acct("s1", "v"), acct("s1", "u")];
    assert_eq!(other_accounts(&accounts, "s1", "u"), vec![acct("s2", "u"), acct("s1", "v")]);
    assert_eq!(other_accounts(&accounts, "", ""), accounts);
    assert!(other_accounts(&Vec::new(), "s1", "u").is_empty());
}
