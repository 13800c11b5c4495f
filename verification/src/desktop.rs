//! Screens, panels and navigation of the desktop client.

use vstd::prelude::*;
use crate::text::str_eq;
use vstd::view::View as _;

verus! {

/// A screen of the desktop client; detail screens carry the id (or, for a
/// genre, the name) of what they show.
#[derive(Debug, Clone)]
pub enum View {
    Home,
    Albums,
    AlbumDetail(String),
    Artists,
    ArtistDetail(String),
    Playlists,
    PlaylistDetail(String),
    Search,
    Mix,
    GenreDetail(String),
    Recap,
    Settings,
    Podcasts,
    PodcastDetail(String),
}

/// What identifies a screen: its kind and the characters of its payload.
pub open spec fn view_key(v: View) -> (int, Seq<char>) {
    match v {
        View::Home => (0, Seq::empty()),
        View::Albums => (1, Seq::empty()),
        View::AlbumDetail(s) => (2, s@),
        View::Artists => (3, Seq::empty()),
        View::ArtistDetail(s) => (4, s@),
        View::Playlists => (5, Seq::empty()),
        View::PlaylistDetail(s) => (6, s@),
        View::Search => (7, Seq::empty()),
        View::Mix => (8, Seq::empty()),
        View::GenreDetail(s) => (9, s@),
        View::Recap => (10, Seq::empty()),
        View::Settings => (11, Seq::empty()),
        View::Podcasts => (12, Seq::empty()),
        View::PodcastDetail(s) => (13, s@),
    }
}

/// The title of each kind of screen.
pub open spec fn view_title(v: View) -> Seq<char> {
    match v {
        View::Home => "Home"@,
        View::Albums => "Albums"@,
        View::AlbumDetail(_) => "Album"@,
        View::Artists => "Artists"@,
        View::ArtistDetail(_) => "Artist"@,
        View::Playlists => "Playlists"@,
        View::PlaylistDetail(_) => "Playlist"@,
        View::Search => "Search"@,
        View::Mix => "Mix"@,
        View::GenreDetail(_) => "Genre"@,
        View::Recap => "Recap"@,
        View::Settings => "Settings"@,
        View::Podcasts => "Podcasts"@,
        View::PodcastDetail(_) => "Podcast"@,
    }
}

impl View {
    /// The screen's title.
    pub fn title(&self) -> (r: &'static str)
        ensures
            r@ == view_title(*self),
    {
        match self {
            View::Home => "Home",
            View::Albums => "Albums",
            View::AlbumDetail(_) => "Album",
            View::Artists => "Artists",
            View::ArtistDetail(_) => "Artist",
            View::Playlists => "Playlists",
            View::PlaylistDetail(_) => "Playlist",
            View::Search => "Search",
            View::Mix => "Mix",
            View::GenreDetail(_) => "Genre",
            View::Recap => "Recap",
            View::Settings => "Settings",
            View::Podcasts => "Podcasts",
            View::PodcastDetail(_) => "Podcast",
        }
    }

    /// Whether two screens are the same screen (same kind, same payload).
    pub fn same_as(&self, other: &View) -> (r: bool)
        ensures
            r == (view_key(*self) == view_key(*other)),
    {
        match (self, other) {
            (View::Home, View::Home) => true,
            (View::Albums, View::Albums) => true,
            (View::AlbumDetail(a), View::AlbumDetail(b)) => str_eq(a.as_str(), b.as_str()),
            (View::Artists, View::Artists) => true,
            (View::ArtistDetail(a), View::ArtistDetail(b)) => str_eq(a.as_str(), b.as_str()),
            (View::Playlists, View::Playlists) => true,
            (View::PlaylistDetail(a), View::PlaylistDetail(b)) => str_eq(a.as_str(), b.as_str()),
            (View::Search, View::Search) => true,
            (View::Mix, View::Mix) => true,
            (View::GenreDetail(a), View::GenreDetail(b)) => str_eq(a.as_str(), b.as_str()),
            (View::Recap, View::Recap) => true,
            (View::Settings, View::Settings) => true,
            (View::Podcasts, View::Podcasts) => true,
            (View::PodcastDetail(a), View::PodcastDetail(b)) => str_eq(a.as_str(), b.as_str()),
            _ => false,
        }
    }
}

impl PartialEq for View {
    fn eq(&self, other: &Self) -> (r: bool) {
        self.same_as(other)
    }
}

impl vstd::std_specs::cmp::PartialEqSpecImpl for View {
    open spec fn obeys_eq_spec() -> bool {
        true
    }

    open spec fn eq_spec(&self, other: &Self) -> bool {
        view_key(*self) == view_key(*other)
    }
}

/// The current screen and the screens to go back to, most recent last.
pub struct Navigation {
    pub view: View,
    pub nav_stack: Vec<View>,
}

/// Opening `view`: the current screen is remembered for going back unless
/// it is the same screen, in which case nothing changes.
pub open spec fn navigated(pre: Navigation, view: View, post: Navigation) -> bool {
    if view_key(view) != view_key(pre.view) {
        &&& post.view == view
        &&& post.nav_stack@ == pre.nav_stack@.push(pre.view)
    } else {
        post == pre
    }
}

/// Going back: the most recently remembered screen is shown again and
/// forgotten; with none remembered nothing changes.
pub open spec fn went_back(pre: Navigation, post: Navigation) -> bool {
    if pre.nav_stack@.len() > 0 {
        &&& post.view == pre.nav_stack@.last()
        &&& post.nav_stack@ == pre.nav_stack@.drop_last()
    } else {
        &&& post.view == pre.view
        &&& post.nav_stack@ == pre.nav_stack@
    }
}

impl Navigation {
    /// Starts on the home screen with nothing to go back to.
    pub fn new() -> (r: Navigation)
        ensures
            r.view == View::Home,
            r.nav_stack@.len() == 0,
    {
        Navigation { view: View::Home, nav_stack: Vec::new() }
    }

    /// Opens `view` (see [`navigated`]).
    pub fn navigate(&mut self, view: View)
        ensures
            navigated(*old(self), view, *final(self)),
    {
        if !view.same_as(&self.view) {
            let mut prev = view;
            std::mem::swap(&mut self.view, &mut prev);
            self.nav_stack.push(prev);
        }
    }

    /// Returns to the most recently remembered screen (see [`went_back`]).
    pub fn back(&mut self)
        ensures
            went_back(*old(self), *final(self)),
    {
        if let Some(view) = self.nav_stack.pop() {
            self.view = view;
        }
    }

    /// Forgets the remembered screens and shows the home screen (when the
    /// user switches account).
    pub fn reset(&mut self)
        ensures
            final(self).view == View::Home,
            final(self).nav_stack@.len() == 0,
    {
        self.view = View::Home;
        self.nav_stack.clear();
    }
}

/// Going back right after opening another screen returns to the screen one
/// came from, with the same screens remembered as before.
pub proof fn law_back_undoes_navigate(s0: Navigation, s1: Navigation, s2: Navigation, v: View)
    requires
        view_key(v) != view_key(s0.view),
        navigated(s0, v, s1),
        went_back(s1, s2),
    ensures
        s2.view == s0.view,
        s2.nav_stack@ == s0.nav_stack@,
{
    assert(s0.nav_stack@.push(s0.view).drop_last() =~= s0.nav_stack@);
}

/// Seconds in a day.
pub const DAY_SECS: i64 = 86_400;

/// The time window of the listening recap.
#[derive(Debug, Clone, Copy, PartialEq, Eq, Structural)]
pub enum RecapRange {
    Week,
    Month,
    ThreeMonths,
    Year,
    All,
}

/// The length in days of each recap window other than `All`.
pub open spec fn recap_days(r: RecapRange) -> int {
    match r {
        RecapRange::Week => 7,
        RecapRange::Month => 30,
        RecapRange::ThreeMonths => 90,
        RecapRange::Year => 365,
        RecapRange::All => 0,
    }
}

/// The label of each recap window.
pub open spec fn recap_label(r: RecapRange) -> Seq<char> {
    match r {
        RecapRange::Week => "7 days"@,
        RecapRange::Month => "30 days"@,
        RecapRange::ThreeMonths => "3 months"@,
        RecapRange::Year => "1 year"@,
        RecapRange::All => "All time"@,
    }
}

impl RecapRange {
    /// The first second (unix time) inside the window that ends at `now`:
    /// `now` minus the window's days, or 0 for all time.
    pub fn from_ts(self, now: i64) -> (r: i64)
        requires
            now - recap_days(self) * DAY_SECS >= i64::MIN,
        ensures
            r == if self == RecapRange::All { 0 } else { now - recap_days(self) * DAY_SECS },
    {
        let day: i64 = DAY_SECS;
        match self {
            RecapRange::Week => now - 7 * day,
            RecapRange::Month => now - 30 * day,
            RecapRange::ThreeMonths => now - 90 * day,
            RecapRange::Year => now - 365 * day,
            RecapRange::All => 0,
        }
    }

    /// The window's label.
    pub fn label(self) -> (r: &'static str)
        ensures
            r@ == recap_label(self),
    {
        match self {
            RecapRange::Week => "7 days",
            RecapRange::Month => "30 days",
            RecapRange::ThreeMonths => "3 months",
            RecapRange::Year => "1 year",
            RecapRange::All => "All time",
        }
    }
}

/// Number of recap cards.
pub const RECAP_CARDS: usize = 9;

/// The card after `card`, stopping at the last one.
pub open spec fn next_card(card: int) -> int {
    if card + 1 < RECAP_CARDS { card + 1 } else { RECAP_CARDS - 1 }
}

/// The card before `card`, stopping at the first one.
pub open spec fn prev_card(card: int) -> int {
    if card > 0 { card - 1 } else { 0 }
}

/// The next recap card, stopping at the last one.
pub fn recap_next(card: usize) -> (r: usize)
    ensures
        r == next_card(card as int),
{
    if card < RECAP_CARDS - 1 {
        card + 1
    } else {
        RECAP_CARDS - 1
    }
}

/// The previous recap card, stopping at the first one.
pub fn recap_prev(card: usize) -> (r: usize)
    ensures
        r == prev_card(card as int),
{
    if card > 0 {
        card - 1
    } else {
        0
    }
}

/// Stepping through the recap cards never leaves them, and going back after
/// going forward from any card but the last returns to it.
pub proof fn law_recap_cards(card: int)
    requires
        0 <= card < RECAP_CARDS,
    ensures
        0 <= next_card(card) < RECAP_CARDS,
        0 <= prev_card(card) < RECAP_CARDS,
        card + 1 < RECAP_CARDS ==> prev_card(next_card(card)) == card,
{
}

/// The collapsible panel on the right of the desktop client; at most one is
/// open.
#[derive(Debug, Clone, Copy, PartialEq, Eq, Structural)]
pub enum Panel {
    Visualizer,
    Queue,
    Lyrics,
    Equalizer,
    AudioStats,
    Similar,
}

/// The open panel after the button of `p` is pressed: `p` closes when it is
/// open, else it replaces whatever is open.
pub open spec fn toggled(open: Option<Panel>, p: Panel) -> Option<Panel> {
    if open == Some(p) { None } else { Some(p) }
}

/// The open panel after the button of `p` is pressed (see [`toggled`]).
pub fn toggle_panel(open: Option<Panel>, p: Panel) -> (r: Option<Panel>)
    ensures
        r == toggled(open, p),
{
    if open == Some(p) {
        None
    } else {
        Some(p)
    }
}

/// Pressing a panel's button twice restores a state in which that panel or
/// no panel was open.
pub proof fn law_toggle_panel_twice(open: Option<Panel>, p: Panel)
    requires
        open is None || open == Some(p),
    ensures
        toggled(toggled(open, p), p) == open,
        toggled(open, p) is None || toggled(open, p) == Some(p),
{
}

/// The settings category shown in the two-column settings screen.
#[derive(Debug, Clone, Copy, PartialEq, Eq, Structural)]
pub enum SettingsCategory {
    Appearance,
    Playback,
    Equalizer,
    Downloads,
    Services,
    Account,
    Debug,
}

/// An album section of the home screen.
#[derive(Debug, Clone, Copy, PartialEq, Eq, Structural)]
pub enum HomeSection {
    Recent,
    Newest,
    Random,
}

/// The energy band of the mood mix.
#[derive(Debug, Clone, Copy, PartialEq, Eq, Structural)]
pub enum Energy {
    Chill,
    Mid,
    High,
}

/// The rating filter of the search screen after the user picks `n` stars:
/// picking the active filter again clears it (0).
pub open spec fn rating_filter_after(current: u32, n: u32) -> u32 {
    if current == n { 0 } else { n }
}

/// Picking the same star count twice, starting without a filter, leaves no
/// filter; picking it once sets it.
pub proof fn law_rating_filter_twice(n: u32)
    requires
        n != 0,
    ensures
        rating_filter_after(0, n) == n,
        rating_filter_after(rating_filter_after(0, n), n) == 0,
{
}

/// Sets or clears the search screen's rating filter (see
/// [`rating_filter_after`]).
pub fn toggle_rating_filter(current: u32, n: u32) -> (r: u32)
    ensures
        r == rating_filter_after(current, n),
{
    if current == n {
        0
    } else {
        n
    }
}

/// A track of a visible list with the user's star rating.
#[derive(Debug)]
pub struct TrackRating {
    pub id: String,
    pub user_rating: Option<u32>,
}

/// The ratings of a list after the user gives `rating` stars to track
/// `id`: every entry of that track shows the new rating at once.
pub open spec fn rated(ts: Seq<TrackRating>, id: Seq<char>, rating: u32) -> Seq<(Seq<char>, Option<u32>)> {
    ts.map_values(|t: TrackRating| (t.id@, if t.id@ == id { Some(rating) } else { t.user_rating }))
}

/// Shows a new star rating of track `id` in a visible list, before the
/// server has stored it.
pub fn apply_rating(tracks: &mut Vec<TrackRating>, id: &str, rating: u32)
    ensures
        final(tracks)@.map_values(|t: TrackRating| (t.id@, t.user_rating)) == rated(old(tracks)@, id@, rating),
{
    let ghost before = tracks@;
    let n = tracks.len();
    let mut i: usize = 0;
    while i < n
        invariant
            n == before.len(),
            tracks@.len() == n,
            i <= n,
            forall|j: int| 0 <= j < i ==> (#[trigger] tracks@[j]).id@ == before[j].id@ && tracks@[j].user_rating == (
                if before[j].id@ == id@ { Some(rating) } else { before[j].user_rating }),
            forall|j: int| i <= j < n ==> #[trigger] tracks@[j] == before[j],
        decreases n - i,
    {
        if str_eq(tracks[i].id.as_str(), id) {
            let t = TrackRating { id: tracks[i].id.clone(), user_rating: Some(rating) };
            tracks.set(i, t);
        }
        i = i + 1;
    }
    assert(tracks@.map_values(|t: TrackRating| (t.id@, t.user_rating)) =~= rated(before, id@, rating));
}

/// Giving a rating that the list already shows for that track changes
/// nothing, so giving the same rating twice shows what giving it once
/// shows.
pub proof fn law_rating_idempotent(ts: Seq<TrackRating>, id: Seq<char>, rating: u32)
    requires
        forall|i: int| 0 <= i < ts.len() && (#[trigger] ts[i]).id@ == id ==> ts[i].user_rating == Some(rating),
    ensures
        rated(ts, id, rating) == ts.map_values(|t: TrackRating| (t.id@, t.user_rating)),
{
    assert(rated(ts, id, rating) =~= ts.map_values(|t: TrackRating| (t.id@, t.user_rating)));
}

/// The title of every screen; a detail screen's title does not depend on
/// what it shows.
pub proof fn law_view_titles(s: String)
    ensures
        view_title(View::Home) == "Home"@,
        view_title(View::Albums) == "Albums"@,
        view_title(View::AlbumDetail(s)) == "Album"@,
        view_title(View::Artists) == "Artists"@,
        view_title(View::ArtistDetail(s)) == "Artist"@,
        view_title(View::Playlists) == "Playlists"@,
        view_title(View::PlaylistDetail(s)) == "Playlist"@,
        view_title(View::Search) == "Search"@,
        view_title(View::Mix) == "Mix"@,
        view_title(View::GenreDetail(s)) == "Genre"@,
        view_title(View::Recap) == "Recap"@,
        view_title(View::Settings) == "Settings"@,
        view_title(View::Podcasts) == "Podcasts"@,
        view_title(View::PodcastDetail(s)) == "Podcast"@,
{
}

/// Each recap window spans the days its label names, the windows grow from
/// a week to a year, and "All time" starts at the epoch.
pub proof fn law_recap_windows()
    ensures
        recap_days(RecapRange::Week) == 7 && recap_label(RecapRange::Week) == "7 days"@,
        recap_days(RecapRange::Month) == 30 && recap_label(RecapRange::Month) == "30 days"@,
        recap_days(RecapRange::ThreeMonths) == 90 && recap_label(RecapRange::ThreeMonths) == "3 months"@,
        recap_days(RecapRange::Year) == 365 && recap_label(RecapRange::Year) == "1 year"@,
        recap_label(RecapRange::All) == "All time"@,
        recap_days(RecapRange::Week) < recap_days(RecapRange::Month) < recap_days(RecapRange::ThreeMonths)
            < recap_days(RecapRange::Year),
        DAY_SECS == 86400,
{
}

} // verus!
