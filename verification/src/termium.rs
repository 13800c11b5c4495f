//! The terminal client's state machine. Every input (a key, a finished
//! backend call, a player notification, a clock tick) is an [`AppEvent`];
//! [`App::update`] applies it to the state and hands back the backend call,
//! if any, that the event loop must perform ([`SideEffect`]).
//!
//! `B` is the handle of a logged-in backend session and `S` a song; the state
//! machine never looks inside either.

use vstd::prelude::*;
use crate::keymap::{Action, KeyCode, KeyEvent, Keymap};
use crate::text::{pop_char, push_char};
use vstd::view::View as _;

verus! {

/// The screen the terminal client shows.
#[derive(Debug, Clone, Copy, PartialEq, Eq, Structural)]
pub enum View {
    Login,
    Home,
    Albums,
    Artists,
    Search,
    Playlists,
}

/// An album as the terminal client lists it.
pub struct Album {
    pub id: String,
    pub name: String,
    pub album_artist: String,
    pub artist_id: Option<String>,
    pub cover_art_id: Option<String>,
    pub song_count: Option<u32>,
    pub release_type: String,
    pub year: Option<u32>,
    pub is_compilation: bool,
    pub starred: bool,
}

/// An artist as the terminal client lists it.
pub struct Artist {
    pub id: String,
    pub name: String,
    pub album_count: u32,
}

/// A notification from the audio backend. Position updates carry only
/// fractional seconds, which the event loop keeps itself.
pub enum BackendEvent<S> {
    PlaybackStateChanged { playing: bool },
    PlaybackPosition,
    PlaybackFinished,
    QueueStateChanged { queue: Vec<S>, queue_idx: i32 },
    QueueExhausted,
    SessionExpired,
}

/// An input to the state machine.
pub enum AppEvent<B, S> {
    Key(Action),
    CharInput(char),
    Backspace,
    LoginFieldNext,
    LoginSubmit,
    SearchSubmit,
    SearchCancel,
    LoginResult(Result<B, String>),
    AlbumsLoaded(Result<Vec<Album>, String>),
    ArtistsLoaded(Result<Vec<Artist>, String>),
    SearchResultsLoaded(Result<Vec<S>, String>),
    PlaylistsLoaded(Result<Vec<(String, String)>, String>),
    Backend(BackendEvent<S>),
    Tick,
}

/// A backend call that the event loop performs after an update.
pub enum SideEffect<S> {
    Login { server: String, username: String, password: String },
    TogglePlay,
    NextTrack,
    PrevTrack,
    LoadHomeAlbums,
    LoadArtists,
    LoadPlaylists,
    RunSearch(String),
    PlayAlbum(String),
    PlaySongs(Vec<S>),
    PlayPlaylist(String),
}

/// The state of the terminal client.
pub struct App<B, S> {
    /// The backend session; `None` until a login succeeds.
    pub backend: Option<B>,
    pub view: View,
    pub should_quit: bool,
    pub status_message: Option<String>,
    pub login_server: String,
    pub login_username: String,
    pub login_password: String,
    /// The focused login field: 0 = server, 1 = username, 2 = password.
    pub login_field_focus: u8,
    pub albums: Vec<Album>,
    pub artists: Vec<Artist>,
    pub selected_index: usize,
    pub search_query: String,
    pub search_submitted: bool,
    pub search_results_songs: Vec<S>,
    /// (id, name) of each playlist.
    pub playlists: Vec<(String, String)>,
    pub now_playing: Option<S>,
    pub is_playing: bool,
    pub queue: Vec<S>,
    pub queue_idx: i32,
}

/// The browse views that the left and right keys cycle through, in order.
pub open spec fn tab_at(i: int) -> View {
    if i == 0 {
        View::Home
    } else if i == 1 {
        View::Albums
    } else if i == 2 {
        View::Artists
    } else {
        View::Playlists
    }
}

/// The position of a view in the tab cycle (views outside it count as the
/// first).
pub open spec fn tab_index(v: View) -> int {
    match v {
        View::Albums => 1,
        View::Artists => 2,
        View::Playlists => 3,
        _ => 0,
    }
}

/// A string with its last character removed, if it has one.
pub open spec fn without_last(s: Seq<char>) -> Seq<char> {
    if s.len() == 0 {
        s
    } else {
        s.drop_last()
    }
}

/// The status message shown after the backend reports an expired session.
pub open spec fn session_expired_text() -> Seq<char> {
    "Session expired. Please log in again."@
}

impl<B, S: Clone> App<B, S> {
    /// The length of the list that the current view shows.
    pub open spec fn list_len(&self) -> nat {
        match self.view {
            View::Albums => self.albums@.len(),
            View::Artists => self.artists@.len(),
            View::Search => self.search_results_songs@.len(),
            View::Playlists => self.playlists@.len(),
            _ => 0,
        }
    }

    /// Whether keys go into a text field rather than through the keymap:
    /// on the login screen, and on the search screen before the search runs.
    pub open spec fn is_typing(&self) -> bool {
        self.view == View::Login || (self.view == View::Search && !self.search_submitted)
    }

    /// What a typed character does: it extends the focused login field, or
    /// the search query while the search is not yet submitted.
    pub open spec fn char_step(pre: Self, post: Self, c: char) -> bool {
        match pre.view {
            View::Login => if pre.login_field_focus == 0 {
                post.login_server@ == pre.login_server@.push(c)
                    && post == App { login_server: post.login_server, ..pre }
            } else if pre.login_field_focus == 1 {
                post.login_username@ == pre.login_username@.push(c)
                    && post == App { login_username: post.login_username, ..pre }
            } else {
                post.login_password@ == pre.login_password@.push(c)
                    && post == App { login_password: post.login_password, ..pre }
            },
            View::Search => if !pre.search_submitted {
                post.search_query@ == pre.search_query@.push(c)
                    && post == App { search_query: post.search_query, ..pre }
            } else {
                post == pre
            },
            _ => post == pre,
        }
    }

    /// What Backspace does: it removes the last character of the field that
    /// a typed character would extend.
    pub open spec fn backspace_step(pre: Self, post: Self) -> bool {
        match pre.view {
            View::Login => if pre.login_field_focus == 0 {
                post.login_server@ == without_last(pre.login_server@)
                    && post == App { login_server: post.login_server, ..pre }
            } else if pre.login_field_focus == 1 {
                post.login_username@ == without_last(pre.login_username@)
                    && post == App { login_username: post.login_username, ..pre }
            } else {
                post.login_password@ == without_last(pre.login_password@)
                    && post == App { login_password: post.login_password, ..pre }
            },
            View::Search => if !pre.search_submitted {
                post.search_query@ == without_last(pre.search_query@)
                    && post == App { search_query: post.search_query, ..pre }
            } else {
                post == pre
            },
            _ => post == pre,
        }
    }

    /// What an action does to the state and which backend call it asks for.
    pub open spec fn action_step(pre: Self, post: Self, action: Action, r: Option<SideEffect<S>>) -> bool {
        match action {
            Action::Quit => post == App { should_quit: true, ..pre } && r is None,
            Action::NavDown => r is None && if pre.selected_index + 1 < pre.list_len() {
                post == App { selected_index: (pre.selected_index + 1) as usize, ..pre }
            } else {
                post == pre
            },
            Action::NavUp => r is None && if pre.selected_index > 0 {
                post == App { selected_index: (pre.selected_index - 1) as usize, ..pre }
            } else {
                post == pre
            },
            Action::NavLeft | Action::NavRight => if pre.view != View::Login && (pre.view
                != View::Search || pre.search_submitted) {
                let next = if action == Action::NavRight {
                    (tab_index(pre.view) + 1) % 4
                } else {
                    (tab_index(pre.view) + 3) % 4
                };
                &&& post == App { view: tab_at(next), selected_index: 0, ..pre }
                &&& r == if tab_at(next) == View::Artists && pre.artists@.len() == 0 {
                    Some(SideEffect::<S>::LoadArtists)
                } else if tab_at(next) == View::Playlists && pre.playlists@.len() == 0 {
                    Some(SideEffect::<S>::LoadPlaylists)
                } else {
                    None
                }
            } else {
                post == pre && r is None
            },
            Action::PlayPause => post == pre && r == Some(SideEffect::<S>::TogglePlay),
            Action::NextTrack => post == pre && r == Some(SideEffect::<S>::NextTrack),
            Action::PrevTrack => post == pre && r == Some(SideEffect::<S>::PrevTrack),
            Action::Search => {
                &&& post.search_query@.len() == 0
                &&& post == App {
                    view: View::Search,
                    selected_index: 0,
                    search_query: post.search_query,
                    search_submitted: false,
                    ..pre
                }
                &&& r is None
            },
            Action::Activate => post == pre && match pre.view {
                View::Albums => if pre.selected_index < pre.albums@.len() {
                    r == Some(SideEffect::<S>::PlayAlbum(pre.albums@[pre.selected_index as int].id))
                } else {
                    r is None
                },
                View::Search => if pre.search_submitted && pre.selected_index
                    < pre.search_results_songs@.len() {
                    match r {
                        Some(SideEffect::PlaySongs(v)) => v@.len() == 1 && cloned(
                            pre.search_results_songs@[pre.selected_index as int],
                            v@[0],
                        ),
                        _ => false,
                    }
                } else {
                    r is None
                },
                View::Playlists => if pre.selected_index < pre.playlists@.len() {
                    r == Some(SideEffect::<S>::PlayPlaylist(pre.playlists@[pre.selected_index as int].0))
                } else {
                    r is None
                },
                _ => r is None,
            },
        }
    }

    /// What a backend notification does: the playing flag, the queue mirror
    /// and the current song follow the backend; an expired session logs out.
    pub open spec fn backend_step(pre: Self, post: Self, ev: BackendEvent<S>) -> bool {
        match ev {
            BackendEvent::PlaybackStateChanged { playing } => post == App { is_playing: playing, ..pre },
            BackendEvent::PlaybackPosition => post == pre,
            BackendEvent::PlaybackFinished => post == App { is_playing: false, ..pre },
            BackendEvent::QueueStateChanged { queue, queue_idx } => {
                &&& post == App { queue, queue_idx, now_playing: post.now_playing, ..pre }
                &&& match post.now_playing {
                    Some(s) => 0 <= queue_idx < queue@.len() && cloned(queue@[queue_idx as int], s),
                    None => !(0 <= queue_idx < queue@.len()),
                }
            },
            BackendEvent::QueueExhausted => post == pre,
            BackendEvent::SessionExpired => {
                &&& post.status_message matches Some(m) && m@ == session_expired_text()
                &&& post == App {
                    backend: None,
                    view: View::Login,
                    status_message: post.status_message,
                    ..pre
                }
            },
        }
    }

    /// What an event does to the state and which backend call it asks for.
    pub open spec fn step(pre: Self, post: Self, event: AppEvent<B, S>, r: Option<SideEffect<S>>) -> bool {
        match event {
            AppEvent::Key(a) => Self::action_step(pre, post, a, r),
            AppEvent::CharInput(c) => Self::char_step(pre, post, c) && r is None,
            AppEvent::Backspace => Self::backspace_step(pre, post) && r is None,
            AppEvent::LoginFieldNext => post == App {
                login_field_focus: ((pre.login_field_focus + 1) % 3) as u8,
                ..pre
            } && r is None,
            AppEvent::LoginSubmit => post == pre && r == Some(
                SideEffect::<S>::Login {
                    server: pre.login_server,
                    username: pre.login_username,
                    password: pre.login_password,
                },
            ),
            AppEvent::SearchSubmit => {
                &&& post == App { search_submitted: true, ..pre }
                &&& r == if pre.search_query@.len() != 0 {
                    Some(SideEffect::<S>::RunSearch(pre.search_query))
                } else {
                    None
                }
            },
            AppEvent::SearchCancel => {
                &&& post.search_query@.len() == 0
                &&& post.search_results_songs@.len() == 0
                &&& post == App {
                    view: View::Home,
                    search_query: post.search_query,
                    search_submitted: false,
                    search_results_songs: post.search_results_songs,
                    ..pre
                }
                &&& r is None
            },
            AppEvent::LoginResult(Ok(b)) => post == App {
                backend: Some(b),
                view: View::Home,
                status_message: None,
                ..pre
            } && r == Some(SideEffect::<S>::LoadHomeAlbums),
            AppEvent::LoginResult(Err(e)) => post == App { status_message: Some(e), ..pre } && r is None,
            AppEvent::AlbumsLoaded(Ok(v)) => post == App { albums: v, selected_index: 0, ..pre } && r is None,
            AppEvent::AlbumsLoaded(Err(e)) => post == App { status_message: Some(e), ..pre } && r is None,
            AppEvent::ArtistsLoaded(Ok(v)) => post == App { artists: v, selected_index: 0, ..pre } && r is None,
            AppEvent::ArtistsLoaded(Err(e)) => post == App { status_message: Some(e), ..pre } && r is None,
            AppEvent::SearchResultsLoaded(Ok(v)) => post == App {
                search_results_songs: v,
                selected_index: 0,
                ..pre
            } && r is None,
            AppEvent::SearchResultsLoaded(Err(e)) => post == App { status_message: Some(e), ..pre } && r is None,
            AppEvent::PlaylistsLoaded(Ok(v)) => post == App { playlists: v, selected_index: 0, ..pre } && r is None,
            AppEvent::PlaylistsLoaded(Err(e)) => post == App { status_message: Some(e), ..pre } && r is None,
            AppEvent::Backend(ev) => Self::backend_step(pre, post, ev) && r is None,
            AppEvent::Tick => post == pre && r is None,
        }
    }

    /// The state of a fresh client: on the login screen, logged out, with
    /// empty fields and lists, nothing playing and no queue position.
    pub open spec fn is_initial(&self) -> bool {
        &&& self.backend is None
        &&& self.view == View::Login
        &&& !self.should_quit
        &&& self.status_message is None
        &&& self.login_server@.len() == 0
        &&& self.login_username@.len() == 0
        &&& self.login_password@.len() == 0
        &&& self.login_field_focus == 0
        &&& self.albums@.len() == 0
        &&& self.artists@.len() == 0
        &&& self.selected_index == 0
        &&& self.search_query@.len() == 0
        &&& !self.search_submitted
        &&& self.search_results_songs@.len() == 0
        &&& self.playlists@.len() == 0
        &&& self.now_playing is None
        &&& !self.is_playing
        &&& self.queue@.len() == 0
        &&& self.queue_idx == -1
    }

    /// A fresh client (see [`App::is_initial`]).
    pub fn new() -> (r: Self)
        ensures
            r.is_initial(),
    {
        App {
            backend: None,
            view: View::Login,
            should_quit: false,
            status_message: None,
            login_server: String::new(),
            login_username: String::new(),
            login_password: String::new(),
            login_field_focus: 0,
            albums: Vec::new(),
            artists: Vec::new(),
            selected_index: 0,
            search_query: String::new(),
            search_submitted: false,
            search_results_songs: Vec::new(),
            playlists: Vec::new(),
            now_playing: None,
            is_playing: false,
            queue: Vec::new(),
            queue_idx: -1,
        }
    }

    /// A fresh client, for tests.
    pub fn new_for_test() -> (r: Self)
        ensures
            r.is_initial(),
    {
        Self::new()
    }

    /// The length of the list that the current view shows.
    fn current_list_len(&self) -> (n: usize)
        ensures
            n == self.list_len(),
    {
        match self.view {
            View::Albums => self.albums.len(),
            View::Artists => self.artists.len(),
            View::Search => self.search_results_songs.len(),
            View::Playlists => self.playlists.len(),
            _ => 0,
        }
    }

    fn handle_char_input(&mut self, c: char)
        ensures
            Self::char_step(*old(self), *final(self), c),
    {
        match self.view {
            View::Login => {
                if self.login_field_focus == 0 {
                    push_char(&mut self.login_server, c);
                } else if self.login_field_focus == 1 {
                    push_char(&mut self.login_username, c);
                } else {
                    push_char(&mut self.login_password, c);
                }
            },
            View::Search => {
                if !self.search_submitted {
                    push_char(&mut self.search_query, c);
                }
            },
            _ => {},
        }
    }

    fn handle_backspace(&mut self)
        ensures
            Self::backspace_step(*old(self), *final(self)),
    {
        match self.view {
            View::Login => {
                if self.login_field_focus == 0 {
                    pop_char(&mut self.login_server);
                } else if self.login_field_focus == 1 {
                    pop_char(&mut self.login_username);
                } else {
                    pop_char(&mut self.login_password);
                }
            },
            View::Search => {
                if !self.search_submitted {
                    pop_char(&mut self.search_query);
                }
            },
            _ => {},
        }
    }

    fn handle_action(&mut self, action: Action) -> (r: Option<SideEffect<S>>)
        ensures
            Self::action_step(*old(self), *final(self), action, r),
    {
        match action {
            Action::Quit => {
                self.should_quit = true;
                None
            },
            Action::NavDown => {
                let len = self.current_list_len();
                if len > 0 && self.selected_index < len - 1 {
                    self.selected_index = self.selected_index + 1;
                }
                None
            },
            Action::NavUp => {
                if self.selected_index > 0 {
                    self.selected_index = self.selected_index - 1;
                }
                None
            },
            Action::NavLeft | Action::NavRight => {
                if self.view != View::Login && (self.view != View::Search || self.search_submitted) {
                    let idx: usize = match self.view {
                        View::Albums => 1,
                        View::Artists => 2,
                        View::Playlists => 3,
                        _ => 0,
                    };
                    let next: usize = match action {
                        Action::NavRight => (idx + 1) % 4,
                        _ => (idx + 3) % 4,
                    };
                    self.view = if next == 0 {
                        View::Home
                    } else if next == 1 {
                        View::Albums
                    } else if next == 2 {
                        View::Artists
                    } else {
                        View::Playlists
                    };
                    self.selected_index = 0;
                    match self.view {
                        View::Artists => if self.artists.len() == 0 {
                            Some(SideEffect::LoadArtists)
                        } else {
                            None
                        },
                        View::Playlists => if self.playlists.len() == 0 {
                            Some(SideEffect::LoadPlaylists)
                        } else {
                            None
                        },
                        _ => None,
                    }
                } else {
                    None
                }
            },
            Action::PlayPause => Some(SideEffect::TogglePlay),
            Action::NextTrack => Some(SideEffect::NextTrack),
            Action::PrevTrack => Some(SideEffect::PrevTrack),
            Action::Search => {
                self.view = View::Search;
                self.selected_index = 0;
                self.search_query = String::new();
                self.search_submitted = false;
                None
            },
            Action::Activate => match self.view {
                View::Albums => {
                    if self.selected_index < self.albums.len() {
                        Some(SideEffect::PlayAlbum(self.albums[self.selected_index].id.clone()))
                    } else {
                        None
                    }
                },
                View::Search => {
                    if self.search_submitted && self.selected_index < self.search_results_songs.len() {
                        let song = self.search_results_songs[self.selected_index].clone();
                        Some(SideEffect::PlaySongs(vec![song]))
                    } else {
                        None
                    }
                },
                View::Playlists => {
                    if self.selected_index < self.playlists.len() {
                        Some(SideEffect::PlayPlaylist(self.playlists[self.selected_index].0.clone()))
                    } else {
                        None
                    }
                },
                _ => None,
            },
        }
    }

    fn handle_backend_event(&mut self, event: BackendEvent<S>)
        ensures
            Self::backend_step(*old(self), *final(self), event),
    {
        match event {
            BackendEvent::PlaybackStateChanged { playing } => {
                self.is_playing = playing;
            },
            BackendEvent::PlaybackPosition => {},
            BackendEvent::PlaybackFinished => {
                self.is_playing = false;
            },
            BackendEvent::QueueStateChanged { queue, queue_idx } => {
                self.queue = queue;
                self.queue_idx = queue_idx;
                self.now_playing = if queue_idx >= 0 && (queue_idx as usize) < self.queue.len() {
                    Some(self.queue[queue_idx as usize].clone())
                } else {
                    None
                };
            },
            BackendEvent::QueueExhausted => {},
            BackendEvent::SessionExpired => {
                self.backend = None;
                self.view = View::Login;
                self.status_message = Some("Session expired. Please log in again.".to_owned());
            },
        }
    }

    /// Applies one event (see [`App::step`]) and returns the backend call it
    /// asks for.
    pub fn update(&mut self, event: AppEvent<B, S>) -> (r: Option<SideEffect<S>>)
        requires
            event is LoginFieldNext ==> old(self).login_field_focus < u8::MAX,
        ensures
            Self::step(*old(self), *final(self), event, r),
    {
        match event {
            AppEvent::Key(action) => {
                return self.handle_action(action);
            },
            AppEvent::CharInput(c) => self.handle_char_input(c),
            AppEvent::Backspace => self.handle_backspace(),
            AppEvent::LoginFieldNext => {
                self.login_field_focus = (self.login_field_focus + 1) % 3;
            },
            AppEvent::LoginSubmit => {
                return Some(
                    SideEffect::Login {
                        server: self.login_server.clone(),
                        username: self.login_username.clone(),
                        password: self.login_password.clone(),
                    },
                );
            },
            AppEvent::SearchSubmit => {
                self.search_submitted = true;
                if !self.search_query.as_str().is_empty() {
                    return Some(SideEffect::RunSearch(self.search_query.clone()));
                }
            },
            AppEvent::SearchCancel => {
                self.view = View::Home;
                self.search_query = String::new();
                self.search_submitted = false;
                self.search_results_songs.clear();
            },
            AppEvent::LoginResult(Ok(backend)) => {
                self.backend = Some(backend);
                self.view = View::Home;
                self.status_message = None;
                return Some(SideEffect::LoadHomeAlbums);
            },
            AppEvent::LoginResult(Err(e)) => {
                self.status_message = Some(e);
            },
            AppEvent::AlbumsLoaded(Ok(albums)) => {
                self.albums = albums;
                self.selected_index = 0;
            },
            AppEvent::AlbumsLoaded(Err(e)) => self.status_message = Some(e),
            AppEvent::ArtistsLoaded(Ok(artists)) => {
                self.artists = artists;
                self.selected_index = 0;
            },
            AppEvent::ArtistsLoaded(Err(e)) => self.status_message = Some(e),
            AppEvent::SearchResultsLoaded(Ok(songs)) => {
                self.search_results_songs = songs;
                self.selected_index = 0;
            },
            AppEvent::SearchResultsLoaded(Err(e)) => self.status_message = Some(e),
            AppEvent::PlaylistsLoaded(Ok(playlists)) => {
                self.playlists = playlists;
                self.selected_index = 0;
            },
            AppEvent::PlaylistsLoaded(Err(e)) => self.status_message = Some(e),
            AppEvent::Backend(evt) => self.handle_backend_event(evt),
            AppEvent::Tick => {},
        }
        None
    }
}


/// What a key press does in the terminal client: while typing, characters,
/// Backspace, Tab (login), Enter and Esc (search) edit, move or submit the
/// text fields and every other key is ignored; elsewhere the key goes
/// through the keymap and its action, if any, is applied.
pub open spec fn key_step<B, S: Clone>(
    pre: App<B, S>,
    post: App<B, S>,
    keymap: Keymap,
    key: KeyEvent,
    r: Option<SideEffect<S>>,
) -> bool {
    if pre.is_typing() {
        match key.code {
            KeyCode::Char(c) => App::step(pre, post, AppEvent::CharInput(c), r),
            KeyCode::Backspace => App::step(pre, post, AppEvent::Backspace, r),
            KeyCode::Tab => if pre.view == View::Login {
                App::step(pre, post, AppEvent::LoginFieldNext, r)
            } else {
                post == pre && r is None
            },
            KeyCode::Enter => if pre.view == View::Login {
                App::step(pre, post, AppEvent::LoginSubmit, r)
            } else {
                App::step(pre, post, AppEvent::SearchSubmit, r)
            },
            KeyCode::Esc => if pre.view == View::Search {
                App::step(pre, post, AppEvent::SearchCancel, r)
            } else {
                post == pre && r is None
            },
            _ => post == pre && r is None,
        }
    } else {
        match keymap.resolves(key) {
            Some(a) => App::action_step(pre, post, a, r),
            None => post == pre && r is None,
        }
    }
}

/// Routes one key press (see [`key_step`]) and returns the backend call it
/// asks for.
pub fn handle_key<B, S: Clone>(app: &mut App<B, S>, keymap: &Keymap, key: KeyEvent) -> (r: Option<SideEffect<S>>)
    requires
        old(app).view == View::Login && key.code == KeyCode::Tab ==> old(app).login_field_focus < u8::MAX,
    ensures
        key_step(*old(app), *final(app), *keymap, key, r),
{
    let typing_mode = app.view == View::Login || (app.view == View::Search && !app.search_submitted);
    if typing_mode {
        match key.code {
            KeyCode::Char(c) => return app.update(AppEvent::CharInput(c)),
            KeyCode::Backspace => return app.update(AppEvent::Backspace),
            KeyCode::Tab => {
                if app.view == View::Login {
                    return app.update(AppEvent::LoginFieldNext);
                }
                return None;
            },
            KeyCode::Enter => {
                if app.view == View::Login {
                    return app.update(AppEvent::LoginSubmit);
                }
                return app.update(AppEvent::SearchSubmit);
            },
            KeyCode::Esc => {
                if app.view == View::Search {
                    return app.update(AppEvent::SearchCancel);
                }
                return None;
            },
            _ => return None,
        }
    }
    match keymap.resolve(key) {
        Some(action) => app.update(AppEvent::Key(action)),
        None => None,
    }
}

/// Once the client is asked to quit it stays so: no event clears the flag.
pub proof fn law_quit_is_final<B, S: Clone>(
    pre: App<B, S>,
    post: App<B, S>,
    event: AppEvent<B, S>,
    r: Option<SideEffect<S>>,
)
    requires
        App::step(pre, post, event, r),
        pre.should_quit,
    ensures
        post.should_quit,
{
}

/// Three presses of Tab on the login screen bring the focus back to the
/// field it started on.
pub proof fn law_login_focus_cycles<B, S: Clone>(
    s0: App<B, S>,
    s1: App<B, S>,
    s2: App<B, S>,
    s3: App<B, S>,
    r1: Option<SideEffect<S>>,
    r2: Option<SideEffect<S>>,
    r3: Option<SideEffect<S>>,
)
    requires
        s0.login_field_focus < 3,
        App::step(s0, s1, AppEvent::LoginFieldNext, r1),
        App::step(s1, s2, AppEvent::LoginFieldNext, r2),
        App::step(s2, s3, AppEvent::LoginFieldNext, r3),
    ensures
        s3 == s0,
        s1.login_field_focus < 3,
{
}

/// In a browse view, moving right then left returns to the same view, with
/// the selection at the top.
pub proof fn law_tab_right_then_left<B, S: Clone>(
    s0: App<B, S>,
    s1: App<B, S>,
    s2: App<B, S>,
    r1: Option<SideEffect<S>>,
    r2: Option<SideEffect<S>>,
)
    requires
        s0.view == View::Home || s0.view == View::Albums || s0.view == View::Artists || s0.view
            == View::Playlists,
        App::step(s0, s1, AppEvent::Key(Action::NavRight), r1),
        App::step(s1, s2, AppEvent::Key(Action::NavLeft), r2),
    ensures
        s2 == (App { selected_index: 0, ..s0 }),
{
}

/// Moving the selection up or down keeps it inside the shown list.
pub proof fn law_selection_stays_in_list<B, S: Clone>(
    pre: App<B, S>,
    post: App<B, S>,
    a: Action,
    r: Option<SideEffect<S>>,
)
    requires
        a == Action::NavDown || a == Action::NavUp,
        App::step(pre, post, AppEvent::Key(a), r),
        pre.selected_index < pre.list_len(),
    ensures
        post.selected_index < post.list_len(),
        post.list_len() == pre.list_len(),
{
}

/// While typing, Backspace takes back the character just typed.
pub proof fn law_backspace_undoes_typing<B, S: Clone>(
    s0: App<B, S>,
    s1: App<B, S>,
    s2: App<B, S>,
    c: char,
    r1: Option<SideEffect<S>>,
    r2: Option<SideEffect<S>>,
)
    requires
        s0.is_typing(),
        App::step(s0, s1, AppEvent::CharInput(c), r1),
        App::step(s1, s2, AppEvent::Backspace, r2),
    ensures
        s2.login_server@ == s0.login_server@,
        s2.login_username@ == s0.login_username@,
        s2.login_password@ == s0.login_password@,
        s2.search_query@ == s0.search_query@,
        s2 == (App {
            login_server: s2.login_server,
            login_username: s2.login_username,
            login_password: s2.login_password,
            search_query: s2.search_query,
            ..s0
        }),
{
    assert(s0.login_server@.push(c).drop_last() =~= s0.login_server@);
    assert(s0.login_username@.push(c).drop_last() =~= s0.login_username@);
    assert(s0.login_password@.push(c).drop_last() =~= s0.login_password@);
    assert(s0.search_query@.push(c).drop_last() =~= s0.search_query@);
}

/// A successful load replaces the list it loaded: afterwards the client
/// shows exactly the loaded albums, artists, search results or playlists,
/// with the selection at the top, and asks for nothing more.
pub proof fn law_loaded_lists_are_shown<B, S: Clone>(
    pre: App<B, S>,
    post: App<B, S>,
    event: AppEvent<B, S>,
    r: Option<SideEffect<S>>,
)
    requires
        App::step(pre, post, event, r),
    ensures
        event matches AppEvent::PlaylistsLoaded(Ok(v)) ==> post.playlists@ == v@ && post.selected_index == 0
            && r is None,
        event matches AppEvent::AlbumsLoaded(Ok(v)) ==> post.albums@ == v@ && post.selected_index == 0 && r is None,
        event matches AppEvent::ArtistsLoaded(Ok(v)) ==> post.artists@ == v@ && post.selected_index == 0
            && r is None,
        event matches AppEvent::SearchResultsLoaded(Ok(v)) ==> post.search_results_songs@ == v@
            && post.selected_index == 0 && r is None,
{
}

/// What Enter plays right after a list has loaded is the first loaded
/// entry: the first loaded playlist on the playlists screen, the first
/// loaded album on the albums screen.
pub proof fn law_activate_plays_loaded_entry<B, S: Clone>(
    s0: App<B, S>,
    s1: App<B, S>,
    s2: App<B, S>,
    event: AppEvent<B, S>,
    r1: Option<SideEffect<S>>,
    r2: Option<SideEffect<S>>,
)
    requires
        App::step(s0, s1, event, r1),
        App::step(s1, s2, AppEvent::Key(Action::Activate), r2),
    ensures
        event matches AppEvent::PlaylistsLoaded(Ok(v)) ==> (s0.view == View::Playlists && v@.len() > 0 ==> r2
            == Some(SideEffect::<S>::PlayPlaylist(v@[0].0))),
        event matches AppEvent::AlbumsLoaded(Ok(v)) ==> (s0.view == View::Albums && v@.len() > 0 ==> r2 == Some(
            SideEffect::<S>::PlayAlbum(v@[0].id),
        )),
{
}

/// Right cycles the browse screens Home, Albums, Artists, Playlists and
/// back to Home (left goes the other way), with the selection at the top;
/// arriving at an empty artist or playlist list asks to load it.
pub proof fn law_tab_order<B, S: Clone>(pre: App<B, S>, post: App<B, S>, r: Option<SideEffect<S>>)
    requires
        App::step(pre, post, AppEvent::Key(Action::NavRight), r),
    ensures
        pre.view == View::Home ==> post.view == View::Albums && r is None,
        pre.view == View::Albums ==> post.view == View::Artists && (r == if pre.artists@.len() == 0 {
            Some(SideEffect::<S>::LoadArtists)
        } else {
            None
        }),
        pre.view == View::Artists ==> post.view == View::Playlists && (r == if pre.playlists@.len() == 0 {
            Some(SideEffect::<S>::LoadPlaylists)
        } else {
            None
        }),
        pre.view == View::Playlists ==> post.view == View::Home && r is None,
        (pre.view == View::Home || pre.view == View::Albums || pre.view == View::Artists || pre.view
            == View::Playlists) ==> post.selected_index == 0,
        pre.view == View::Login ==> post == pre && r is None,
{
}

/// The transport keys ask the backend to play or pause and to skip, and
/// change nothing in the client; each screen's list is the one its
/// selection moves in.
pub proof fn law_transport_keys_and_lists<B, S: Clone>(
    pre: App<B, S>,
    post: App<B, S>,
    a: Action,
    r: Option<SideEffect<S>>,
)
    requires
        App::step(pre, post, AppEvent::Key(a), r),
    ensures
        a == Action::PlayPause ==> post == pre && r == Some(SideEffect::<S>::TogglePlay),
        a == Action::NextTrack ==> post == pre && r == Some(SideEffect::<S>::NextTrack),
        a == Action::PrevTrack ==> post == pre && r == Some(SideEffect::<S>::PrevTrack),
        pre.view == View::Albums ==> pre.list_len() == pre.albums@.len(),
        pre.view == View::Artists ==> pre.list_len() == pre.artists@.len(),
        pre.view == View::Playlists ==> pre.list_len() == pre.playlists@.len(),
        pre.view == View::Search ==> pre.list_len() == pre.search_results_songs@.len(),
        pre.view == View::Home || pre.view == View::Login ==> pre.list_len() == 0,
{
}

} // verus!
