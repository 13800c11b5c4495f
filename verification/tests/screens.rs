use firmium::desktop::View;
use firmium::screens::{screen_load, DetailIds, LoadKind};

fn empty() -> DetailIds {
    DetailIds::new()
}

#[test]
fn album_details_load_once_per_id() {
    let mut d = empty();
    let r = screen_load(&View::AlbumDetail("al-1".to_string()), &mut d, false, false);
    assert_eq!(r.kind, LoadKind::ServerAlbum);
    assert_eq!(r.id, "al-1");
    assert_eq!(d.album.as_deref(), Some("al-1"));
    let again = screen_load(&View::AlbumDetail("al-1".to_string()), &mut d, false, false);
    assert_eq!(again.kind, LoadKind::Nothing);
    assert_eq!(again.id, "");
    let local = screen_load(&View::AlbumDetail("local:al-2".to_string()), &mut d, false, false);
    assert_eq!(local.kind, LoadKind::LocalAlbum);
    assert_eq!(local.id, "local:al-2");
}

#[test]
fn artist_and_genre_details() {
    let mut d = empty();
    assert_eq!(screen_load(&View::ArtistDetail("ar".to_string()), &mut d, false, false).kind, LoadKind::ServerArtist);
    assert_eq!(
        screen_load(&View::ArtistDetail("local:ar".to_string()), &mut d, false, false).kind,
        LoadKind::LocalArtist
    );
    let g = screen_load(&View::GenreDetail("Jazz".to_string()), &mut d, false, false);
    assert_eq!((g.kind, g.id.as_str()), (LoadKind::GenreSongs, "Jazz"));
    assert_eq!(screen_load(&View::GenreDetail("Jazz".to_string()), &mut d, false, false).kind, LoadKind::Nothing);
    assert_eq!(d.album, None);
    assert_eq!(d.artist.as_deref(), Some("local:ar"));
}

#[test]
fn playlist_details_split_server_and_local() {
    let mut d = empty();
    let s = screen_load(&View::PlaylistDetail("server-42".to_string()), &mut d, false, false);
    assert_eq!((s.kind, s.id.as_str()), (LoadKind::ServerPlaylist, "42"));
    assert_eq!(d.playlist.as_deref(), Some("server-42"));
    let l = screen_load(&View::PlaylistDetail("pl-7".to_string()), &mut d, false, false);
    assert_eq!((l.kind, l.id.as_str()), (LoadKind::LocalPlaylist, "pl-7"));
}

#[test]
fn list_screens() {
    let mut d = empty();
    assert_eq!(screen_load(&View::Artists, &mut d, true, false).kind, LoadKind::Artists);
    assert_eq!(screen_load(&View::Artists, &mut d, false, false).kind, LoadKind::Nothing);
    assert_eq!(screen_load(&View::Playlists, &mut d, false, false).kind, LoadKind::Playlists);
    assert_eq!(screen_load(&View::Recap, &mut d, false, false).kind, LoadKind::Recap);
    assert_eq!(screen_load(&View::Settings, &mut d, false, false).kind, LoadKind::HistorySummary);
    assert_eq!(screen_load(&View::Podcasts, &mut d, false, false).kind, LoadKind::PodcastChannels);
    let p = screen_load(&View::PodcastDetail("ch".to_string()), &mut d, false, false);
    assert_eq!((p.kind, p.id.as_str()), (LoadKind::PodcastEpisodes, "ch"));
    assert_eq!(screen_load(&View::Home, &mut d, false, true).kind, LoadKind::HomeWithAlbums);
    assert_eq!(screen_load(&View::Home, &mut d, false, false).kind, LoadKind::Home);
    assert_eq!(screen_load(&View::Search, &mut d, true, true).kind, LoadKind::Nothing);
    assert_eq!(screen_load(&View::Albums, &mut d, true, true).kind, LoadKind::Nothing);
    assert_eq!(screen_load(&View::Mix, &mut d, true, true).kind, LoadKind::Nothing);
}
