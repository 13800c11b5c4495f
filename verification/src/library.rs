//! Library bookkeeping of the desktop client: saved accounts, the bounded
//! cache of decoded covers, the merged playlist list, the recent-artists
//! strip, the mood mix and the play-queue position.

use vstd::prelude::*;
use crate::desktop::Energy;
use crate::text::str_eq;
use crate::seq_facts::{lemma_filter_step, lemma_take_all};

verus! {

/// A server and user name that the user has logged into (the password lives
/// in the OS keyring, never here).
#[derive(Debug, Clone)]
pub struct SavedAccount {
    pub server: String,
    pub username: String,
}

impl PartialEq for SavedAccount {
    fn eq(&self, other: &Self) -> (r: bool) {
        str_eq(self.server.as_str(), other.server.as_str()) && str_eq(
            self.username.as_str(),
            other.username.as_str(),
        )
    }
}

impl vstd::std_specs::cmp::PartialEqSpecImpl for SavedAccount {
    open spec fn obeys_eq_spec() -> bool {
        true
    }

    open spec fn eq_spec(&self, other: &Self) -> bool {
        self.server@ == other.server@ && self.username@ == other.username@
    }
}

/// Whether `accounts` holds an account with this server and user name.
pub open spec fn has_account(accounts: Seq<SavedAccount>, server: Seq<char>, username: Seq<char>) -> bool {
    exists|i: int| 0 <= i < accounts.len() && #[trigger] accounts[i].server@ == server && accounts[i].username@ == username
}

/// Whether no two accounts of `accounts` have the same server and user name.
pub open spec fn accounts_distinct(accounts: Seq<SavedAccount>) -> bool {
    forall|i: int, j: int| 0 <= i < j < accounts.len() ==> !(#[trigger] accounts[i].server@ == #[trigger] accounts[j].server@
        && accounts[i].username@ == accounts[j].username@)
}

/// The saved accounts after the active connection is remembered: it is
/// added at the end unless an account with the same server and user name is
/// there; nothing changes when the server or the user name is unknown.
pub open spec fn remembered(
    accounts: Seq<SavedAccount>,
    server: Option<String>,
    username: Option<String>,
) -> Seq<SavedAccount> {
    match (server, username) {
        (Some(s), Some(u)) => if has_account(accounts, s@, u@) {
            accounts
        } else {
            accounts.push(SavedAccount { server: s, username: u })
        },
        _ => accounts,
    }
}

/// Remembers the active connection in the saved accounts (see
/// [`remembered`]).
pub fn remember_account(accounts: &mut Vec<SavedAccount>, server: Option<String>, username: Option<String>)
    ensures
        final(accounts)@ == remembered(old(accounts)@, server, username),
{
    match (server, username) {
        (Some(server), Some(username)) => {
            let acct = SavedAccount { server, username };
            let mut found = false;
            let mut i: usize = 0;
            while i < accounts.len()
                invariant
                    i <= accounts@.len(),
                    accounts@ == old(accounts)@,
                    found == has_account(accounts@.take(i as int), acct.server@, acct.username@),
                decreases accounts@.len() - i,
            {
                let same = accounts[i] == acct;
                assert(same == (accounts@[i as int].server@ == acct.server@ && accounts@[i as int].username@
                    == acct.username@));
                if same {
                    found = true;
                }
                proof {
                    let t0 = accounts@.take(i as int);
                    let t1 = accounts@.take(i + 1);
                    let (sv, uv) = (acct.server@, acct.username@);
                    if same {
                        assert(t1[i as int].server@ == sv && t1[i as int].username@ == uv);
                    }
                    if has_account(t0, sv, uv) {
                        let j = choose|j: int| 0 <= j < t0.len() && #[trigger] t0[j].server@ == sv && t0[j].username@ == uv;
                        assert(t1[j] == t0[j]);
                        assert(t1[j].server@ == sv);
                    }
                    if has_account(t1, sv, uv) && !same {
                        let j = choose|j: int| 0 <= j < t1.len() && #[trigger] t1[j].server@ == sv && t1[j].username@ == uv;
                        assert(j != i);
                        assert(t0[j] == t1[j]);
                        assert(t0[j].server@ == sv);
                    }
                }
                i = i + 1;
            }
            assert(accounts@.take(i as int) =~= accounts@);
            if !found {
                accounts.push(acct);
            }
        },
        _ => {},
    }
}

/// Remembering accounts keeps them distinct, the remembered account is
/// then among them, and remembering it a second time changes nothing.
pub proof fn law_remember_account(accounts: Seq<SavedAccount>, s: String, u: String, s2: String, u2: String)
    requires
        accounts_distinct(accounts),
        s2@ == s@,
        u2@ == u@,
    ensures
        accounts_distinct(remembered(accounts, Some(s), Some(u))),
        has_account(remembered(accounts, Some(s), Some(u)), s@, u@),
        remembered(remembered(accounts, Some(s), Some(u)), Some(s2), Some(u2)) == remembered(
            accounts,
            Some(s),
            Some(u),
        ),
{
    let after = remembered(accounts, Some(s), Some(u));
    if !has_account(accounts, s@, u@) {
        assert(after[accounts.len() as int].server@ == s@);
    }
}

/// The saved accounts other than the connected one (`server`, `username`),
/// in order: those the account switcher offers.
pub open spec fn others(accounts: Seq<SavedAccount>, server: Seq<char>, username: Seq<char>) -> Seq<SavedAccount> {
    accounts.filter(|a: SavedAccount| !(a.server@ == server && a.username@ == username))
}

/// The saved accounts the switcher offers besides the connected one.
pub fn other_accounts(accounts: &Vec<SavedAccount>, server: &str, username: &str) -> (r: Vec<SavedAccount>)
    ensures
        r@ == others(accounts@, server@, username@),
{
    let ghost pred = |a: SavedAccount| !(a.server@ == server@ && a.username@ == username@);
    let mut out: Vec<SavedAccount> = Vec::new();
    let n = accounts.len();
    let mut i: usize = 0;
    while i < n
        invariant
            n == accounts@.len(),
            i <= n,
            pred == (|a: SavedAccount| !(a.server@ == server@ && a.username@ == username@)),
            out@ == accounts@.take(i as int).filter(pred),
        decreases n - i,
    {
        proof {
            lemma_filter_step(accounts@, i as int, pred);
        }
        let a = &accounts[i];
        if !(str_eq(a.server.as_str(), server) && str_eq(a.username.as_str(), username)) {
            out.push(SavedAccount { server: a.server.clone(), username: a.username.clone() });
        }
        i = i + 1;
    }
    proof {
        lemma_take_all(accounts@);
    }
    out
}

/// How many decoded covers the desktop client keeps in memory.
pub const MAX_COVER_HANDLES: usize = 512;

/// Decoded covers by cover id, oldest first; once more than
/// [`MAX_COVER_HANDLES`] are held the oldest is dropped.
pub struct CoverCache<H> {
    entries: Vec<(String, H)>,
}

/// The handle stored under key `k` in `s`, if any.
pub open spec fn cache_lookup<H>(s: Seq<(Seq<char>, H)>, k: Seq<char>) -> Option<H> {
    if exists|i: int| 0 <= i < s.len() && s[i].0 == k {
        Some(s[choose|i: int| 0 <= i < s.len() && s[i].0 == k].1)
    } else {
        None
    }
}

/// Whether the keys of `s` are distinct.
pub open spec fn keys_distinct<H>(s: Seq<(Seq<char>, H)>) -> bool {
    forall|i: int, j: int| 0 <= i < j < s.len() ==> #[trigger] s[i].0 != #[trigger] s[j].0
}

/// The entries of a cache after `handle` is stored under `k`: an existing
/// entry for `k` keeps its place and gets the new handle; otherwise the entry
/// is added last and, if that makes one too many, the oldest is dropped.
pub open spec fn cache_insert<H>(s: Seq<(Seq<char>, H)>, k: Seq<char>, handle: H) -> Seq<(Seq<char>, H)> {
    if exists|i: int| 0 <= i < s.len() && s[i].0 == k {
        s.update(choose|i: int| 0 <= i < s.len() && s[i].0 == k, (k, handle))
    } else if s.len() + 1 > MAX_COVER_HANDLES {
        s.push((k, handle)).drop_first()
    } else {
        s.push((k, handle))
    }
}

impl<H> View for CoverCache<H> {
    type V = Seq<(Seq<char>, H)>;

    closed spec fn view(&self) -> Seq<(Seq<char>, H)> {
        self.entries@.map_values(|e: (String, H)| (e.0@, e.1))
    }
}

impl<H> CoverCache<H> {
    /// Whether the cache is well formed: distinct keys, within its bound.
    pub open spec fn wf(&self) -> bool {
        keys_distinct(self@) && self@.len() <= MAX_COVER_HANDLES
    }

    /// An empty cache.
    pub fn new() -> (r: Self)
        ensures
            r.wf(),
            r@.len() == 0,
    {
        let r = CoverCache { entries: Vec::new() };
        assert(r@ =~= Seq::<(Seq<char>, H)>::empty());
        r
    }

    fn find(&self, id: &str) -> (r: Option<usize>)
        ensures
            match r {
                Some(i) => i < self@.len() && self@[i as int].0 == id@,
                None => forall|j: int| 0 <= j < self@.len() ==> self@[j].0 != id@,
            },
    {
        let mut i: usize = 0;
        while i < self.entries.len()
            invariant
                i <= self.entries@.len(),
                self@.len() == self.entries@.len(),
                forall|j: int| 0 <= j < i ==> self@[j].0 != id@,
            decreases self.entries@.len() - i,
        {
            if str_eq(self.entries[i].0.as_str(), id) {
                return Some(i);
            }
            i = i + 1;
        }
        None
    }

    /// Whether a handle is stored under `id`.
    pub fn contains_key(&self, id: &str) -> (r: bool)
        ensures
            r == cache_lookup(self@, id@) is Some,
    {
        self.find(id).is_some()
    }

    /// The handle stored under `id`, if any.
    pub fn get(&self, id: &str) -> (r: Option<&H>)
        requires
            self.wf(),
        ensures
            match r {
                Some(h) => cache_lookup(self@, id@) == Some(*h),
                None => cache_lookup(self@, id@) is None,
            },
    {
        match self.find(id) {
            Some(i) => {
                proof {
                    let c = choose|c: int| 0 <= c < self@.len() && self@[c].0 == id@;
                    assert(c == i as int);
                }
                Some(&self.entries[i].1)
            },
            None => None,
        }
    }

    /// The number of cached handles.
    pub fn len(&self) -> (r: usize)
        ensures
            r == self@.len(),
    {
        self.entries.len()
    }

    /// Drops every handle (when the user switches account).
    pub fn clear(&mut self)
        ensures
            final(self).wf(),
            final(self)@.len() == 0,
    {
        self.entries.clear();
        assert(self@ =~= Seq::<(Seq<char>, H)>::empty());
    }

    /// Stores `handle` under `id` (see [`cache_insert`]).
    pub fn insert(&mut self, id: String, handle: H)
        requires
            old(self).wf(),
        ensures
            final(self).wf(),
            final(self)@ == cache_insert(old(self)@, id@, handle),
    {
        let ghost s0 = self@;
        let ghost k = id@;
        match self.find(id.as_str()) {
            Some(i) => {
                self.entries.set(i, (id, handle));
                proof {
                    let c = choose|c: int| 0 <= c < s0.len() && s0[c].0 == k;
                    assert(c == i as int);
                    assert(self@ =~= s0.update(i as int, (k, handle)));
                }
            },
            None => {
                self.entries.push((id, handle));
                assert(self@ =~= s0.push((k, handle)));
                if self.entries.len() > MAX_COVER_HANDLES {
                    self.entries.remove(0);
                    assert(self@ =~= s0.push((k, handle)).drop_first());
                }
            },
        }
    }
}

/// A read after a write gives back what was written, the cache never holds
/// more than its bound, and every other cover stays except the oldest one
/// when the cache was full.
pub proof fn law_cover_cache_insert<H>(s: Seq<(Seq<char>, H)>, k: Seq<char>, handle: H, other: Seq<char>)
    requires
        keys_distinct(s),
        s.len() <= MAX_COVER_HANDLES,
        other != k,
    ensures
        cache_lookup(cache_insert(s, k, handle), k) == Some(handle),
        cache_insert(s, k, handle).len() <= MAX_COVER_HANDLES,
        keys_distinct(cache_insert(s, k, handle)),
        cache_lookup(cache_insert(s, k, handle), other) == cache_lookup(s, other) || (s.len()
            == MAX_COVER_HANDLES && s[0].0 == other && cache_lookup(
            cache_insert(s, k, handle),
            other,
        ) is None),
{
    let t = cache_insert(s, k, handle);
    if exists|i: int| 0 <= i < s.len() && s[i].0 == k {
        let i = choose|i: int| 0 <= i < s.len() && s[i].0 == k;
        assert(t[i].0 == k);
        let c = choose|c: int| 0 <= c < t.len() && t[c].0 == k;
        assert(c == i);
        if exists|j: int| 0 <= j < s.len() && s[j].0 == other {
            let j = choose|j: int| 0 <= j < s.len() && s[j].0 == other;
            assert(t[j] == s[j]);
            let d = choose|d: int| 0 <= d < t.len() && t[d].0 == other;
            assert(d == j);
        } else {
            assert forall|j: int| 0 <= j < t.len() implies t[j].0 != other by {
                if j != i {
                    assert(t[j] == s[j]);
                }
            }
        }
    } else {
        let p = s.push((k, handle));
        assert(keys_distinct(p)) by {
            assert forall|i: int, j: int| 0 <= i < j < p.len() implies #[trigger] p[i].0 != #[trigger] p[j].0 by {
                if j == s.len() {
                    assert(p[i] == s[i]);
                }
            }
        }
        if p.len() > MAX_COVER_HANDLES {
            assert(t[t.len() - 1].0 == k);
            let c = choose|c: int| 0 <= c < t.len() && t[c].0 == k;
            assert(c == t.len() - 1);
            if exists|j: int| 0 <= j < s.len() && s[j].0 == other {
                let j = choose|j: int| 0 <= j < s.len() && s[j].0 == other;
                if j > 0 {
                    assert(t[j - 1] == s[j]);
                    let d = choose|d: int| 0 <= d < t.len() && t[d].0 == other;
                    assert(d == j - 1);
                } else {
                    assert forall|d: int| 0 <= d < t.len() implies t[d].0 != other by {
                        assert(t[d] == p[d + 1]);
                    }
                }
            } else {
                assert forall|d: int| 0 <= d < t.len() implies t[d].0 != other by {
                    assert(t[d] == p[d + 1]);
                }
            }
        } else {
            assert(t[s.len() as int].0 == k);
            let c = choose|c: int| 0 <= c < t.len() && t[c].0 == k;
            assert(c == s.len());
            if exists|j: int| 0 <= j < s.len() && s[j].0 == other {
                let j = choose|j: int| 0 <= j < s.len() && s[j].0 == other;
                assert(t[j] == s[j]);
                let d = choose|d: int| 0 <= d < t.len() && t[d].0 == other;
                assert(d == j);
            } else {
                assert forall|d: int| 0 <= d < t.len() implies t[d].0 != other by {
                    if d < s.len() {
                        assert(t[d] == s[d]);
                    }
                }
            }
        }
    }
}


/// A row of the merged playlist list: a local playlist (by index in the
/// local list) or a server playlist that no local playlist mirrors (by index
/// in the server list).
#[derive(Debug, Clone, Copy, PartialEq, Eq, Structural)]
pub enum PlaylistListItem {
    Local(usize),
    ServerOnly(usize),
}

/// Whether a local playlist with server id `server_id` mirrors the server
/// playlist with id `id`.
pub open spec fn mirrors(server_id: Option<String>, id: Seq<char>) -> bool {
    match server_id {
        Some(s) => s@ == id,
        None => false,
    }
}

/// Whether some local playlist mirrors the server playlist with id `id`.
pub open spec fn claimed(local_server_ids: Seq<Option<String>>, id: Seq<char>) -> bool {
    exists|i: int| 0 <= i < local_server_ids.len() && #[trigger] mirrors(local_server_ids[i], id)
}

/// The server-only rows for the first `m` server playlists.
pub open spec fn server_only_rows(
    local_server_ids: Seq<Option<String>>,
    server_ids: Seq<String>,
    m: int,
) -> Seq<PlaylistListItem>
    decreases m,
{
    if m <= 0 {
        Seq::empty()
    } else {
        let prev = server_only_rows(local_server_ids, server_ids, m - 1);
        if claimed(local_server_ids, server_ids[m - 1]@) {
            prev
        } else {
            prev.push(PlaylistListItem::ServerOnly((m - 1) as usize))
        }
    }
}

/// The merged playlist list: every local playlist in order, then every
/// server playlist whose id is not the server id of a local playlist.
pub open spec fn playlist_rows(local_server_ids: Seq<Option<String>>, server_ids: Seq<String>) -> Seq<PlaylistListItem> {
    Seq::new(local_server_ids.len(), |i: int| PlaylistListItem::Local(i as usize)) + server_only_rows(
        local_server_ids,
        server_ids,
        server_ids.len() as int,
    )
}

fn is_claimed(local_server_ids: &Vec<Option<String>>, id: &String) -> (r: bool)
    ensures
        r == claimed(local_server_ids@, id@),
{
    let mut i: usize = 0;
    while i < local_server_ids.len()
        invariant
            i <= local_server_ids@.len(),
            forall|j: int| 0 <= j < i ==> !#[trigger] mirrors(local_server_ids@[j], id@),
        decreases local_server_ids@.len() - i,
    {
        if let Some(s) = &local_server_ids[i] {
            if str_eq(s.as_str(), id.as_str()) {
                assert(mirrors(local_server_ids@[i as int], id@));
                return true;
            }
        }
        i = i + 1;
    }
    false
}

/// Builds the merged playlist list (see [`playlist_rows`]) from the server
/// id of each local playlist and the id of each server playlist.
pub fn playlist_list_items(local_server_ids: &Vec<Option<String>>, server_ids: &Vec<String>) -> (r: Vec<PlaylistListItem>)
    ensures
        r@ == playlist_rows(local_server_ids@, server_ids@),
{
    let mut items: Vec<PlaylistListItem> = Vec::new();
    let n = local_server_ids.len();
    let mut i: usize = 0;
    while i < n
        invariant
            n == local_server_ids@.len(),
            i <= n,
            items@ =~= Seq::new(i as nat, |k: int| PlaylistListItem::Local(k as usize)),
        decreases n - i,
    {
        items.push(PlaylistListItem::Local(i));
        i = i + 1;
    }
    let ghost locals = items@;
    let mut j: usize = 0;
    while j < server_ids.len()
        invariant
            j <= server_ids@.len(),
            items@ == locals + server_only_rows(local_server_ids@, server_ids@, j as int),
        decreases server_ids@.len() - j,
    {
        if !is_claimed(local_server_ids, &server_ids[j]) {
            items.push(PlaylistListItem::ServerOnly(j));
            assert(items@ =~= locals + server_only_rows(local_server_ids@, server_ids@, j + 1));
        }
        j = j + 1;
    }
    items
}

/// A recently played track, as far as the recent-artists strip reads it.
pub struct RecentPlay {
    pub artist_id: Option<String>,
    pub artist_name: Option<String>,
    pub cover_art_id: Option<String>,
}

/// Whether `rows` has a row for the artist with id `id`.
pub open spec fn has_artist(rows: Seq<(String, String, Option<String>)>, id: Seq<char>) -> bool {
    exists|i: int| 0 <= i < rows.len() && #[trigger] rows[i].0@ == id
}

/// The recent-artists strip for the first `n` plays: (artist id, name,
/// cover id) of each play that names its artist, first play of an artist
/// only.
pub open spec fn recent_artist_rows(plays: Seq<RecentPlay>, n: int) -> Seq<(String, String, Option<String>)>
    decreases n,
{
    if n <= 0 {
        Seq::empty()
    } else {
        let prev = recent_artist_rows(plays, n - 1);
        let p = plays[n - 1];
        match (p.artist_id, p.artist_name) {
            (Some(id), Some(name)) => if has_artist(prev, id@) {
                prev
            } else {
                prev.push((id, name, p.cover_art_id))
            },
            _ => prev,
        }
    }
}

fn clone_opt(o: &Option<String>) -> (r: Option<String>)
    ensures
        r == *o,
{
    match o {
        Some(s) => Some(s.clone()),
        None => None,
    }
}

/// The recent-artists strip of the home screen (see [`recent_artist_rows`]).
pub fn recent_artists(plays: &Vec<RecentPlay>) -> (r: Vec<(String, String, Option<String>)>)
    ensures
        r@ == recent_artist_rows(plays@, plays@.len() as int),
{
    let mut rows: Vec<(String, String, Option<String>)> = Vec::new();
    let mut i: usize = 0;
    while i < plays.len()
        invariant
            i <= plays@.len(),
            rows@ == recent_artist_rows(plays@, i as int),
        decreases plays@.len() - i,
    {
        let p = &plays[i];
        if let (Some(id), Some(name)) = (&p.artist_id, &p.artist_name) {
            let mut seen = false;
            let mut j: usize = 0;
            while j < rows.len()
                invariant
                    j <= rows@.len(),
                    seen == exists|k: int| 0 <= k < j && #[trigger] rows@[k].0@ == id@,
                decreases rows@.len() - j,
            {
                if str_eq(rows[j].0.as_str(), id.as_str()) {
                    seen = true;
                }
                j = j + 1;
            }
            if !seen {
                rows.push((id.clone(), name.clone(), clone_opt(&p.cover_art_id)));
            }
        }
        i = i + 1;
    }
    rows
}

/// Fewest tagged songs for the mood mix to keep only its energy band.
pub const MIX_MIN_TAGGED: usize = 10;

/// Most songs in a mood mix.
pub const MIX_MAX_TRACKS: usize = 60;

/// The songs among the first `n` whose band is `e`.
pub open spec fn songs_in_band<T>(songs: Seq<T>, bands: Seq<Option<Energy>>, e: Energy, n: int) -> Seq<T>
    decreases n,
{
    if n <= 0 {
        Seq::empty()
    } else {
        let prev = songs_in_band(songs, bands, e, n - 1);
        if bands[n - 1] == Some(e) {
            prev.push(songs[n - 1])
        } else {
            prev
        }
    }
}

/// The at most `MIX_MAX_TRACKS` first songs of `songs`.
pub open spec fn mix_cap<T>(songs: Seq<T>) -> Seq<T> {
    songs.take(if songs.len() < MIX_MAX_TRACKS { songs.len() as int } else { MIX_MAX_TRACKS as int })
}

/// The mood mix for energy band `e`, where `bands[i]` is the band of song
/// `i` by its BPM (`None` without BPM): the songs of that band when there are
/// at least [`MIX_MIN_TAGGED`], else the whole pool; at most
/// [`MIX_MAX_TRACKS`] songs either way.
pub fn filter_energy<T>(songs: Vec<T>, bands: &Vec<Option<Energy>>, e: Energy) -> (r: Vec<T>)
    requires
        bands@.len() == songs@.len(),
    ensures
        ({
            let f = songs_in_band(songs@, bands@, e, songs@.len() as int);
            r@ == mix_cap(if f.len() >= MIX_MIN_TAGGED { f } else { songs@ })
        }),
{
    let ghost all = songs@;
    let n = songs.len();
    let mut count: usize = 0;
    let mut i: usize = 0;
    while i < n
        invariant
            n == all.len(),
            bands@.len() == n,
            i <= n,
            count == songs_in_band(all, bands@, e, i as int).len(),
            count <= i,
        decreases n - i,
    {
        if bands[i] == Some(e) {
            count = count + 1;
        }
        i = i + 1;
    }
    let mut out = if count >= MIX_MIN_TAGGED {
        let mut rest = songs;
        let mut picked: Vec<T> = Vec::new();
        let mut k: usize = 0;
        while k < n
            invariant
                n == all.len(),
                bands@.len() == n,
                k <= n,
                rest@ == all.skip(k as int),
                picked@ == songs_in_band(all, bands@, e, k as int),
            decreases n - k,
        {
            let x = rest.remove(0);
            assert(x == all[k as int]);
            if bands[k] == Some(e) {
                picked.push(x);
            }
            assert(rest@ =~= all.skip(k + 1));
            k = k + 1;
        }
        picked
    } else {
        songs
    };
    out.truncate(MIX_MAX_TRACKS);
    out
}

/// The entry of `queue` at position `idx`, when `idx` is a position of it
/// (a negative position means nothing is current).
pub fn queue_current<T>(queue: &Vec<T>, idx: i32) -> (r: Option<&T>)
    ensures
        r == if 0 <= idx < queue@.len() { Some(&queue@[idx as int]) } else { None },
{
    if idx >= 0 && (idx as usize) < queue.len() {
        Some(&queue[idx as usize])
    } else {
        None
    }
}

/// The first position in `ids` of the id `current`, if any.
pub open spec fn first_position(ids: Seq<String>, current: Seq<char>) -> Option<int> {
    if exists|i: int| is_first_position(ids, current, i) {
        Some(choose|i: int| is_first_position(ids, current, i))
    } else {
        None
    }
}

/// Whether `i` is the first position in `ids` of the id `current`.
pub open spec fn is_first_position(ids: Seq<String>, current: Seq<char>, i: int) -> bool {
    &&& 0 <= i < ids.len()
    &&& ids[i]@ == current
    &&& forall|j: int| 0 <= j < i ==> ids[j]@ != current
}

/// Where a resumed play queue starts: the first entry whose id is the
/// saved current entry, else the first entry.
pub fn resume_start_index(entry_ids: &Vec<String>, current: Option<&str>) -> (r: usize)
    ensures
        match current {
            Some(c) => r == match first_position(entry_ids@, c@) {
                Some(i) => i,
                None => 0,
            },
            None => r == 0,
        },
{
    match current {
        Some(c) => {
            let mut found = false;
            let mut pos: usize = 0;
            let mut i: usize = 0;
            while i < entry_ids.len()
                invariant
                    i <= entry_ids@.len(),
                    !found ==> forall|j: int| 0 <= j < i ==> entry_ids@[j]@ != c@,
                    found ==> is_first_position(entry_ids@, c@, pos as int),
                decreases entry_ids@.len() - i,
            {
                if !found && str_eq(entry_ids[i].as_str(), c) {
                    found = true;
                    pos = i;
                }
                i = i + 1;
            }
            proof {
                if found {
                    let w = choose|k: int| is_first_position(entry_ids@, c@, k);
                    if w < pos {
                        assert(entry_ids@[w]@ != c@);
                    } else if w > pos {
                        assert(entry_ids@[pos as int]@ != c@);
                    }
                } else {
                    assert(!exists|k: int| is_first_position(entry_ids@, c@, k));
                }
            }
            if found {
                pos
            } else {
                0
            }
        },
        None => 0,
    }
}

/// The recent-artists strip lists each artist once, every row is the
/// artist id and name of some play (with that play's cover), and every
/// artist that a play names is in the strip.
pub proof fn law_recent_artists_once_each(plays: Seq<RecentPlay>, n: int)
    requires
        0 <= n <= plays.len(),
    ensures
        forall|i: int, j: int|
            0 <= i < j < recent_artist_rows(plays, n).len() ==> #[trigger] recent_artist_rows(plays, n)[i].0@
                != #[trigger] recent_artist_rows(plays, n)[j].0@,
        forall|i: int|
            0 <= i < recent_artist_rows(plays, n).len() ==> exists|k: int|
                0 <= k < n && plays[k].artist_id == Some(#[trigger] recent_artist_rows(plays, n)[i].0)
                    && plays[k].artist_name == Some(recent_artist_rows(plays, n)[i].1) && plays[k].cover_art_id
                    == recent_artist_rows(plays, n)[i].2,
        forall|k: int|
            0 <= k < n && #[trigger] plays[k].artist_id is Some && plays[k].artist_name is Some ==> has_artist(
                recent_artist_rows(plays, n),
                plays[k].artist_id->0@,
            ),
    decreases n,
{
    if n > 0 {
        law_recent_artists_once_each(plays, n - 1);
        let prev = recent_artist_rows(plays, n - 1);
        let rows = recent_artist_rows(plays, n);
        let p = plays[n - 1];
        assert forall|i: int| 0 <= i < rows.len() implies exists|k: int|
            0 <= k < n && plays[k].artist_id == Some(#[trigger] rows[i].0) && plays[k].artist_name == Some(rows[i].1)
                && plays[k].cover_art_id == rows[i].2 by {
            if i < prev.len() {
                assert(rows[i] == prev[i]);
                let k = choose|k: int|
                    0 <= k < n - 1 && plays[k].artist_id == Some(#[trigger] prev[i].0) && plays[k].artist_name == Some(
                        prev[i].1,
                    ) && plays[k].cover_art_id == prev[i].2;
            } else {
                assert(plays[n - 1].artist_id == Some(rows[i].0));
            }
        }
        assert forall|k: int| 0 <= k < n && #[trigger] plays[k].artist_id is Some && plays[k].artist_name is Some implies has_artist(
            rows,
            plays[k].artist_id->0@,
        ) by {
            if k < n - 1 {
                assert(has_artist(prev, plays[k].artist_id->0@));
                let j = choose|j: int| 0 <= j < prev.len() && #[trigger] prev[j].0@ == plays[k].artist_id->0@;
                assert(rows[j] == prev[j]);
            } else {
                if !has_artist(prev, p.artist_id->0@) {
                    assert(rows[prev.len() as int].0@ == p.artist_id->0@);
                }
            }
        }
    }
}

/// The merged playlist list shows every local playlist first, in order,
/// then the server playlists that no local playlist mirrors, each once and
/// in server order; a mirrored server playlist is never listed twice.
pub proof fn law_playlist_rows(local_server_ids: Seq<Option<String>>, server_ids: Seq<String>, m: int)
    requires
        0 <= m <= server_ids.len(),
        server_ids.len() <= usize::MAX,
    ensures
        forall|i: int|
            0 <= i < server_only_rows(local_server_ids, server_ids, m).len() ==> ((#[trigger] server_only_rows(
                local_server_ids,
                server_ids,
                m,
            )[i]) matches PlaylistListItem::ServerOnly(k) && k < m && !claimed(local_server_ids, server_ids[k as int]@)),
        forall|i: int, j: int|
            0 <= i < j < server_only_rows(local_server_ids, server_ids, m).len() ==> (#[trigger] server_only_rows(
                local_server_ids,
                server_ids,
                m,
            )[i])->ServerOnly_0 < (#[trigger] server_only_rows(local_server_ids, server_ids, m)[j])->ServerOnly_0,
        forall|k: int|
            0 <= k < m && !claimed(local_server_ids, #[trigger] server_ids[k]@) ==> server_only_rows(
                local_server_ids,
                server_ids,
                m,
            ).contains(PlaylistListItem::ServerOnly(k as usize)),
        m == server_ids.len() ==> forall|i: int|
            0 <= i < local_server_ids.len() ==> #[trigger] playlist_rows(local_server_ids, server_ids)[i]
                == PlaylistListItem::Local(i as usize),
    decreases m,
{
    if m > 0 {
        law_playlist_rows(local_server_ids, server_ids, m - 1);
        let prev = server_only_rows(local_server_ids, server_ids, m - 1);
        let rows = server_only_rows(local_server_ids, server_ids, m);
        assert forall|i: int| 0 <= i < rows.len() implies ((#[trigger] rows[i]) matches PlaylistListItem::ServerOnly(k)
            && k < m && !claimed(local_server_ids, server_ids[k as int]@)) by {
            if i < prev.len() {
                assert(rows[i] == prev[i]);
            }
        }
        assert forall|i: int, j: int| 0 <= i < j < rows.len() implies (#[trigger] rows[i])->ServerOnly_0 < (
        #[trigger] rows[j])->ServerOnly_0 by {
            assert(rows[i] == prev[i]);
            if j < prev.len() {
                assert(rows[j] == prev[j]);
            } else {
                assert(prev[i] matches PlaylistListItem::ServerOnly(k) && k < m - 1);
            }
        }
        assert forall|k: int| 0 <= k < m && !claimed(local_server_ids, #[trigger] server_ids[k]@) implies rows.contains(
            PlaylistListItem::ServerOnly(k as usize),
        ) by {
            if k < m - 1 {
                let j = choose|j: int| 0 <= j < prev.len() && prev[j] == PlaylistListItem::ServerOnly(k as usize);
                assert(rows[j] == prev[j]);
            } else {
                assert(rows[prev.len() as int] == PlaylistListItem::ServerOnly(k as usize));
            }
        }
    }
}

} // verus!
