//! What the desktop client loads when a screen is opened: detail screens
//! load their album, artist, playlist or genre once per id, from the
//! on-disk library for `local:` ids and from the server otherwise; list
//! screens refresh or load what they lack.

use vstd::prelude::*;
use crate::covers::is_local_id;
use crate::desktop::View;
use crate::forms::{has_prefix, starts_with};
use crate::text::{opt_view, str_eq};
use vstd::view::View as _;

verus! {

/// The ids (for a genre, the name) whose detail screens hold loaded
/// content.
#[derive(Debug)]
pub struct DetailIds {
    pub album: Option<String>,
    pub artist: Option<String>,
    pub playlist: Option<String>,
    pub genre: Option<String>,
}

impl DetailIds {
    /// Nothing loaded (at start-up and after switching accounts).
    pub fn new() -> (r: DetailIds)
        ensures
            r.album is None && r.artist is None && r.playlist is None && r.genre is None,
    {
        DetailIds { album: None, artist: None, playlist: None, genre: None }
    }
}

/// The characters of the ids of [`DetailIds`].
pub struct DetailKeys {
    pub album: Option<Seq<char>>,
    pub artist: Option<Seq<char>>,
    pub playlist: Option<Seq<char>>,
    pub genre: Option<Seq<char>>,
}

/// The characters of the ids of `d`.
pub open spec fn detail_keys(d: DetailIds) -> DetailKeys {
    DetailKeys {
        album: opt_view(d.album),
        artist: opt_view(d.artist),
        playlist: opt_view(d.playlist),
        genre: opt_view(d.genre),
    }
}

/// What a screen loads when it is opened.
#[derive(Debug, Clone, Copy, PartialEq, Eq, Structural)]
pub enum LoadKind {
    Nothing,
    /// An album's tracks from the on-disk library.
    LocalAlbum,
    /// An album's tracks from the server.
    ServerAlbum,
    /// An artist's albums from the on-disk library.
    LocalArtist,
    /// An artist's albums, biography and similar artists from the server.
    ServerArtist,
    /// A server playlist's tracks.
    ServerPlaylist,
    /// A local playlist, shown from memory.
    LocalPlaylist,
    /// The artist list.
    Artists,
    /// The server's playlists.
    Playlists,
    /// The listening recap.
    Recap,
    /// The songs of a genre.
    GenreSongs,
    /// The play-history summary of the settings screen.
    HistorySummary,
    /// The podcast channels.
    PodcastChannels,
    /// The episodes of a podcast channel.
    PodcastEpisodes,
    /// The recent plays and their covers, with the home album rows.
    HomeWithAlbums,
    /// The recent plays and their covers.
    Home,
}

/// A load: its kind and the id it is for (empty for kinds without one).
#[derive(Debug)]
pub struct ScreenLoad {
    pub kind: LoadKind,
    pub id: String,
}

/// The prefix of the ids of server playlists in the playlist list.
pub open spec fn server_playlist_prefix() -> Seq<char> {
    "server-"@
}

/// The loaded ids and the load, as (kind, id), when screen `v` opens with
/// loaded ids `d`; `artists_empty` and `newest_empty` tell whether the
/// artist list and the home screen's newest albums are still empty.
pub open spec fn screen_load_step(v: View, d: DetailKeys, artists_empty: bool, newest_empty: bool) -> (
    DetailKeys,
    LoadKind,
    Seq<char>,
) {
    match v {
        View::AlbumDetail(id) => if d.album != Some(id@) {
            (
                DetailKeys { album: Some(id@), ..d },
                if is_local_id(id@) { LoadKind::LocalAlbum } else { LoadKind::ServerAlbum },
                id@,
            )
        } else {
            (d, LoadKind::Nothing, Seq::empty())
        },
        View::ArtistDetail(id) => if d.artist != Some(id@) {
            (
                DetailKeys { artist: Some(id@), ..d },
                if is_local_id(id@) { LoadKind::LocalArtist } else { LoadKind::ServerArtist },
                id@,
            )
        } else {
            (d, LoadKind::Nothing, Seq::empty())
        },
        View::PlaylistDetail(id) => if d.playlist != Some(id@) {
            if has_prefix(id@, server_playlist_prefix()) {
                (
                    DetailKeys { playlist: Some(id@), ..d },
                    LoadKind::ServerPlaylist,
                    id@.skip(server_playlist_prefix().len() as int),
                )
            } else {
                (DetailKeys { playlist: Some(id@), ..d }, LoadKind::LocalPlaylist, id@)
            }
        } else {
            (d, LoadKind::Nothing, Seq::empty())
        },
        View::GenreDetail(name) => if d.genre != Some(name@) {
            (DetailKeys { genre: Some(name@), ..d }, LoadKind::GenreSongs, name@)
        } else {
            (d, LoadKind::Nothing, Seq::empty())
        },
        View::Artists => (d, if artists_empty { LoadKind::Artists } else { LoadKind::Nothing }, Seq::empty()),
        View::Playlists => (d, LoadKind::Playlists, Seq::empty()),
        View::Recap => (d, LoadKind::Recap, Seq::empty()),
        View::Settings => (d, LoadKind::HistorySummary, Seq::empty()),
        View::Podcasts => (d, LoadKind::PodcastChannels, Seq::empty()),
        View::PodcastDetail(id) => (d, LoadKind::PodcastEpisodes, id@),
        View::Home => (d, if newest_empty { LoadKind::HomeWithAlbums } else { LoadKind::Home }, Seq::empty()),
        _ => (d, LoadKind::Nothing, Seq::empty()),
    }
}

fn holds_id(o: &Option<String>, id: &String) -> (r: bool)
    ensures
        r == (opt_view(*o) == Some(id@)),
{
    match o {
        Some(x) => str_eq(x.as_str(), id.as_str()),
        None => false,
    }
}

fn nothing() -> (r: ScreenLoad)
    ensures
        r.kind == LoadKind::Nothing,
        r.id@ == Seq::<char>::empty(),
{
    ScreenLoad { kind: LoadKind::Nothing, id: String::new() }
}

fn plain(kind: LoadKind) -> (r: ScreenLoad)
    ensures
        r.kind == kind,
        r.id@ == Seq::<char>::empty(),
{
    ScreenLoad { kind, id: String::new() }
}

/// Decides what opening screen `view` loads, and records in `loaded` the
/// detail id it loads for (see [`screen_load_step`]).
pub fn screen_load(view: &View, loaded: &mut DetailIds, artists_empty: bool, newest_empty: bool) -> (r: ScreenLoad)
    ensures
        (detail_keys(*final(loaded)), r.kind, r.id@) == screen_load_step(
            *view,
            detail_keys(*old(loaded)),
            artists_empty,
            newest_empty,
        ),
{
    proof {
        reveal_strlit("local:");
        reveal_strlit("server-");
    }
    match view {
        View::AlbumDetail(id) => {
            if holds_id(&loaded.album, id) {
                return nothing();
            }
            loaded.album = Some(id.clone());
            let kind = if starts_with(id.as_str(), "local:") { LoadKind::LocalAlbum } else { LoadKind::ServerAlbum };
            ScreenLoad { kind, id: id.clone() }
        },
        View::ArtistDetail(id) => {
            if holds_id(&loaded.artist, id) {
                return nothing();
            }
            loaded.artist = Some(id.clone());
            let kind = if starts_with(id.as_str(), "local:") { LoadKind::LocalArtist } else { LoadKind::ServerArtist };
            ScreenLoad { kind, id: id.clone() }
        },
        View::PlaylistDetail(id) => {
            if holds_id(&loaded.playlist, id) {
                return nothing();
            }
            loaded.playlist = Some(id.clone());
            if starts_with(id.as_str(), "server-") {
                let n = id.as_str().unicode_len();
                let server_id = id.as_str().substring_char(7, n).to_owned();
                assert(server_id@ =~= id@.skip(server_playlist_prefix().len() as int));
                ScreenLoad { kind: LoadKind::ServerPlaylist, id: server_id }
            } else {
                ScreenLoad { kind: LoadKind::LocalPlaylist, id: id.clone() }
            }
        },
        View::GenreDetail(name) => {
            if holds_id(&loaded.genre, name) {
                return nothing();
            }
            loaded.genre = Some(name.clone());
            ScreenLoad { kind: LoadKind::GenreSongs, id: name.clone() }
        },
        View::Artists => {
            if artists_empty {
                plain(LoadKind::Artists)
            } else {
                nothing()
            }
        },
        View::Playlists => plain(LoadKind::Playlists),
        View::Recap => plain(LoadKind::Recap),
        View::Settings => plain(LoadKind::HistorySummary),
        View::Podcasts => plain(LoadKind::PodcastChannels),
        View::PodcastDetail(id) => ScreenLoad { kind: LoadKind::PodcastEpisodes, id: id.clone() },
        View::Home => {
            if newest_empty {
                plain(LoadKind::HomeWithAlbums)
            } else {
                plain(LoadKind::Home)
            }
        },
        _ => nothing(),
    }
}

/// A detail screen loads its content once: opening it again for the same
/// id loads nothing and leaves the loaded ids as they are.
pub proof fn law_detail_loads_once(v: View, d: DetailKeys, artists_empty: bool, newest_empty: bool)
    requires
        v is AlbumDetail || v is ArtistDetail || v is PlaylistDetail || v is GenreDetail,
    ensures
        ({
            let (d1, _, _) = screen_load_step(v, d, artists_empty, newest_empty);
            let (d2, k2, _) = screen_load_step(v, d1, artists_empty, newest_empty);
            k2 == LoadKind::Nothing && d2 == d1
        }),
{
}

/// Opening one detail screen only records its own id: the loaded ids of
/// the other detail screens stay as they were.
pub proof fn law_other_details_untouched(id: String, d: DetailKeys, artists_empty: bool, newest_empty: bool)
    ensures
        ({
            let (d1, _, _) = screen_load_step(View::AlbumDetail(id), d, artists_empty, newest_empty);
            d1.artist == d.artist && d1.playlist == d.playlist && d1.genre == d.genre
        }),
        ({
            let (d1, _, _) = screen_load_step(View::ArtistDetail(id), d, artists_empty, newest_empty);
            d1.album == d.album && d1.playlist == d.playlist && d1.genre == d.genre
        }),
{
}

/// A detail screen loads, if anything, exactly what it shows: an album,
/// artist or genre screen loads its own id (from the on-disk library
/// exactly when the id starts with `local:`), a playlist screen loads a
/// server playlist by its id without `server-` or else the local playlist
/// by its id, and a podcast screen loads its channel's episodes; the list
/// screens load nothing by id.
pub proof fn law_load_is_for_the_opened_screen(v: View, d: DetailKeys, artists_empty: bool, newest_empty: bool)
    ensures
        ({
            let (_, k, id) = screen_load_step(v, d, artists_empty, newest_empty);
            &&& v matches View::AlbumDetail(a) ==> (k == LoadKind::Nothing || id == a@) && (k == LoadKind::LocalAlbum
                <==> (k != LoadKind::Nothing && a@.len() >= 6 && a@.take(6) == "local:"@)) && (k == LoadKind::Nothing || k
                == LoadKind::LocalAlbum || k == LoadKind::ServerAlbum)
            &&& v matches View::ArtistDetail(a) ==> (k == LoadKind::Nothing || id == a@) && (k == LoadKind::LocalArtist
                <==> (k != LoadKind::Nothing && a@.len() >= 6 && a@.take(6) == "local:"@)) && (k == LoadKind::Nothing || k
                == LoadKind::LocalArtist || k == LoadKind::ServerArtist)
            &&& v matches View::GenreDetail(a) ==> (k == LoadKind::Nothing || (k == LoadKind::GenreSongs && id == a@))
            &&& v matches View::PlaylistDetail(a) ==> (k == LoadKind::Nothing || (k == LoadKind::ServerPlaylist
                && "server-"@ + id == a@) || (k == LoadKind::LocalPlaylist && id == a@ && !(a@.len() >= 7 && a@.take(7)
                == "server-"@)))
            &&& v matches View::PodcastDetail(a) ==> k == LoadKind::PodcastEpisodes && id == a@
            &&& !(v is AlbumDetail || v is ArtistDetail || v is GenreDetail || v is PlaylistDetail
                || v is PodcastDetail) ==> id.len() == 0
        }),
        ({
            let (_, k, _) = screen_load_step(v, d, artists_empty, newest_empty);
            &&& v matches View::AlbumDetail(a) ==> (k == LoadKind::Nothing <==> d.album == Some(a@))
            &&& v matches View::ArtistDetail(a) ==> (k == LoadKind::Nothing <==> d.artist == Some(a@))
            &&& v matches View::GenreDetail(a) ==> (k == LoadKind::Nothing <==> d.genre == Some(a@))
            &&& v matches View::PlaylistDetail(a) ==> (k == LoadKind::Nothing <==> d.playlist == Some(a@))
        }),
{
    reveal_strlit("local:");
    reveal_strlit("server-");
    match v {
        View::PlaylistDetail(a) => {
            let (_, k, id) = screen_load_step(v, d, artists_empty, newest_empty);
            if k == LoadKind::ServerPlaylist {
                assert("server-"@ + id =~= a@);
            }
        },
        View::AlbumDetail(a) => {
            if a@.len() >= 6 {
                assert(a@.subrange(0, 6) == a@.take(6));
            }
        },
        _ => {},
    }
}

} // verus!
