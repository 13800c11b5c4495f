//! Local-first playlists of the desktop client and their mirror on the
//! server: which unsynced playlists adopt a server playlist of the same name
//! and which are created again, how a create attempt's answer is recorded,
//! and the edits of a server playlist's tracks.

use vstd::prelude::*;
use crate::text::{opt_view, str_eq};
use crate::seq_facts::{lemma_filter_step, lemma_take_all};

verus! {

/// A playlist kept on this machine, with what the sync logic reads of it.
#[derive(Debug)]
pub struct LocalPlaylist {
    pub id: String,
    pub name: String,
    pub track_ids: Vec<String>,
    /// The id of its copy on the server, once it has one.
    pub server_id: Option<String>,
    /// Whether creating it on the server is still to be done.
    pub create_pending: bool,
    /// How many create attempts have failed.
    pub create_attempts: u32,
}

/// A playlist as the server lists it; either field may be missing.
#[derive(Debug)]
pub struct ServerPlaylist {
    pub id: Option<String>,
    pub name: Option<String>,
}

/// What the sync logic reads of a local playlist.
pub struct PlaylistState {
    pub id: Seq<char>,
    pub name: Seq<char>,
    pub server_id: Option<Seq<char>>,
    pub create_pending: bool,
    pub create_attempts: u32,
}

impl View for LocalPlaylist {
    type V = PlaylistState;

    open spec fn view(&self) -> PlaylistState {
        PlaylistState {
            id: self.id@,
            name: self.name@,
            server_id: opt_view(self.server_id),
            create_pending: self.create_pending,
            create_attempts: self.create_attempts,
        }
    }
}

/// The first position in `sv` of a server playlist named `name`, or -1.
pub open spec fn name_index(sv: Seq<ServerPlaylist>, name: Seq<char>) -> int
    decreases sv.len(),
{
    if sv.len() == 0 {
        -1
    } else if opt_view(sv[0].name) == Some(name) {
        0
    } else {
        let k = name_index(sv.drop_first(), name);
        if k < 0 { -1 } else { k + 1 }
    }
}

/// Whether playlist `p` still waits for its first copy on the server and
/// may be tried again (fewer than `cap` failed attempts).
pub open spec fn awaiting_create(p: PlaylistState, cap: u32) -> bool {
    p.server_id is None && p.create_pending && p.create_attempts < cap
}

/// Whether `p` is created on the server again once the server's playlists
/// `sv` are known: it awaits creation and no server playlist has its name.
pub open spec fn needs_retry(p: PlaylistState, sv: Seq<ServerPlaylist>, cap: u32) -> bool {
    awaiting_create(p, cap) && name_index(sv, p.name) < 0
}

/// Playlist `p` once the server's playlists `sv` are known: one that awaits
/// creation and shares its name with a server playlist adopts that
/// playlist's id and stops waiting; every other stays as it is.
pub open spec fn reconciled(p: PlaylistState, sv: Seq<ServerPlaylist>, cap: u32) -> PlaylistState {
    if awaiting_create(p, cap) && name_index(sv, p.name) >= 0 {
        PlaylistState { server_id: opt_view(sv[name_index(sv, p.name)].id), create_pending: false, ..p }
    } else {
        p
    }
}

/// The positions, in order, of the playlists among the first `n` of `ls`
/// that are created again.
pub open spec fn retry_positions(ls: Seq<PlaylistState>, sv: Seq<ServerPlaylist>, cap: u32, n: int) -> Seq<usize>
    decreases n,
{
    if n <= 0 {
        Seq::empty()
    } else {
        let r = retry_positions(ls, sv, cap, n - 1);
        if needs_retry(ls[n - 1], sv, cap) { r.push((n - 1) as usize) } else { r }
    }
}

/// The views of a list of local playlists.
pub open spec fn states(ls: Seq<LocalPlaylist>) -> Seq<PlaylistState> {
    ls.map_values(|p: LocalPlaylist| p@)
}

proof fn lemma_name_index(sv: Seq<ServerPlaylist>, name: Seq<char>, i: int)
    requires
        0 <= i <= sv.len(),
        forall|j: int| 0 <= j < i ==> opt_view(#[trigger] sv[j].name) != Some(name),
    ensures
        i < sv.len() && opt_view(sv[i].name) == Some(name) ==> name_index(sv, name) == i,
        i == sv.len() ==> name_index(sv, name) == -1,
    decreases i,
{
    if i > 0 {
        let rest = sv.drop_first();
        assert forall|j: int| 0 <= j < i - 1 implies opt_view(#[trigger] rest[j].name) != Some(name) by {
            assert(rest[j] == sv[j + 1]);
        }
        lemma_name_index(rest, name, i - 1);
        if i < sv.len() {
            assert(rest[i - 1] == sv[i]);
        }
    }
}

proof fn lemma_name_index_bounds(sv: Seq<ServerPlaylist>, name: Seq<char>)
    ensures
        -1 <= name_index(sv, name) < sv.len(),
    decreases sv.len(),
{
    if sv.len() > 0 {
        lemma_name_index_bounds(sv.drop_first(), name);
    }
}

fn opt_str_eq(o: &Option<String>, s: &String) -> (r: bool)
    ensures
        r == (opt_view(*o) == Some(s@)),
{
    match o {
        Some(x) => str_eq(x.as_str(), s.as_str()),
        None => false,
    }
}

fn clone_opt(o: &Option<String>) -> (r: Option<String>)
    ensures
        r == *o,
{
    match o {
        Some(x) => Some(x.clone()),
        None => None,
    }
}

/// The position of the first server playlist named `name`, if any.
fn find_by_name(sv: &Vec<ServerPlaylist>, name: &String) -> (r: Option<usize>)
    ensures
        match r {
            Some(k) => name_index(sv@, name@) == k as int && k < sv@.len(),
            None => name_index(sv@, name@) == -1,
        },
{
    let n = sv.len();
    let mut k: usize = 0;
    while k < n
        invariant
            n == sv@.len(),
            k <= n,
            forall|j: int| 0 <= j < k ==> opt_view(#[trigger] sv@[j].name) != Some(name@),
        decreases n - k,
    {
        if opt_str_eq(&sv[k].name, name) {
            proof {
                lemma_name_index(sv@, name@, k as int);
            }
            return Some(k);
        }
        k = k + 1;
    }
    proof {
        lemma_name_index(sv@, name@, n as int);
    }
    None
}

/// Takes in the server's playlists `sv`: each local playlist that awaits
/// creation (fewer than `cap` failed attempts) adopts the first server
/// playlist with its name; the positions of those that found none, and are
/// created again, are returned in order.
pub fn adopt_or_retry(locals: &mut Vec<LocalPlaylist>, sv: &Vec<ServerPlaylist>, cap: u32) -> (retry: Vec<usize>)
    ensures
        final(locals)@.len() == old(locals)@.len(),
        forall|i: int|
            0 <= i < old(locals)@.len() ==> #[trigger] final(locals)@[i]@ == reconciled(old(locals)@[i]@, sv@, cap),
        forall|i: int|
            0 <= i < old(locals)@.len() ==> (#[trigger] final(locals)@[i]).track_ids@ == old(locals)@[i].track_ids@,
        retry@ == retry_positions(states(old(locals)@), sv@, cap, old(locals)@.len() as int),
{
    let ghost before = locals@;
    let n = locals.len();
    let mut retry: Vec<usize> = Vec::new();
    let mut i: usize = 0;
    while i < n
        invariant
            n == before.len(),
            locals@.len() == n,
            i <= n,
            forall|j: int| 0 <= j < i ==> #[trigger] locals@[j]@ == reconciled(before[j]@, sv@, cap),
            forall|j: int| i <= j < n ==> #[trigger] locals@[j] == before[j],
            forall|j: int| 0 <= j < n ==> (#[trigger] locals@[j]).track_ids@ == before[j].track_ids@,
            retry@ == retry_positions(states(before), sv@, cap, i as int),
        decreases n - i,
    {
        let p = &locals[i];
        assert(states(before)[i as int] == before[i as int]@);
        if p.server_id.is_none() && p.create_pending && p.create_attempts < cap {
            match find_by_name(sv, &p.name) {
                Some(k) => {
                    proof {
                        lemma_name_index_bounds(sv@, p.name@);
                    }
                    let q = LocalPlaylist {
                        id: p.id.clone(),
                        name: p.name.clone(),
                        track_ids: p.track_ids.clone(),
                        server_id: clone_opt(&sv[k].id),
                        create_pending: false,
                        create_attempts: p.create_attempts,
                    };
                    locals.set(i, q);
                },
                None => {
                    retry.push(i);
                },
            }
        }
        i = i + 1;
    }
    retry
}

/// The position of the first local playlist with id `id`, or -1.
pub open spec fn id_index(ls: Seq<LocalPlaylist>, id: Seq<char>) -> int
    decreases ls.len(),
{
    if ls.len() == 0 {
        -1
    } else if ls[0].id@ == id {
        0
    } else {
        let k = id_index(ls.drop_first(), id);
        if k < 0 { -1 } else { k + 1 }
    }
}

proof fn lemma_id_index(ls: Seq<LocalPlaylist>, id: Seq<char>, i: int)
    requires
        0 <= i <= ls.len(),
        forall|j: int| 0 <= j < i ==> (#[trigger] ls[j]).id@ != id,
    ensures
        i < ls.len() && ls[i].id@ == id ==> id_index(ls, id) == i,
        i == ls.len() ==> id_index(ls, id) == -1,
    decreases i,
{
    if i > 0 {
        let rest = ls.drop_first();
        assert forall|j: int| 0 <= j < i - 1 implies (#[trigger] rest[j]).id@ != id by {
            assert(rest[j] == ls[j + 1]);
        }
        lemma_id_index(rest, id, i - 1);
        if i < ls.len() {
            assert(rest[i - 1] == ls[i]);
        }
    }
}

/// The position of the first local playlist with id `id`, if any.
pub fn find_local(locals: &Vec<LocalPlaylist>, id: &str) -> (r: Option<usize>)
    ensures
        match r {
            Some(k) => id_index(locals@, id@) == k as int && k < locals@.len(),
            None => id_index(locals@, id@) == -1,
        },
{
    let n = locals.len();
    let mut k: usize = 0;
    while k < n
        invariant
            n == locals@.len(),
            k <= n,
            forall|j: int| 0 <= j < k ==> (#[trigger] locals@[j]).id@ != id@,
        decreases n - k,
    {
        if str_eq(locals[k].id.as_str(), id) {
            proof {
                lemma_id_index(locals@, id@, k as int);
            }
            return Some(k);
        }
        k = k + 1;
    }
    proof {
        lemma_id_index(locals@, id@, n as int);
    }
    None
}

/// The server answered a create of playlist `local_id` with `server_id`:
/// the first playlist with that id records it and stops waiting; nothing
/// else changes.
pub fn record_create_success(locals: &mut Vec<LocalPlaylist>, local_id: &str, server_id: Option<String>)
    ensures
        final(locals)@.len() == old(locals)@.len(),
        forall|i: int|
            0 <= i < old(locals)@.len() && i != id_index(old(locals)@, local_id@) ==> #[trigger] final(locals)@[i]
                == old(locals)@[i],
        id_index(old(locals)@, local_id@) >= 0 ==> ({
            let k = id_index(old(locals)@, local_id@);
            &&& final(locals)@[k]@ == PlaylistState {
                server_id: opt_view(server_id),
                create_pending: false,
                ..old(locals)@[k]@
            }
            &&& final(locals)@[k].track_ids@ == old(locals)@[k].track_ids@
        }),
{
    if let Some(k) = find_local(locals, local_id) {
        let p = &locals[k];
        let q = LocalPlaylist {
            id: p.id.clone(),
            name: p.name.clone(),
            track_ids: p.track_ids.clone(),
            server_id,
            create_pending: false,
            create_attempts: p.create_attempts,
        };
        locals.set(k, q);
    }
}

/// A create of playlist `local_id` failed: the first playlist with that id
/// counts one more failed attempt and keeps waiting only while it has had
/// fewer than `cap`; nothing else changes.
pub fn record_create_failure(locals: &mut Vec<LocalPlaylist>, local_id: &str, cap: u32)
    requires
        forall|i: int| 0 <= i < old(locals)@.len() ==> (#[trigger] old(locals)@[i]).create_attempts < u32::MAX,
    ensures
        final(locals)@.len() == old(locals)@.len(),
        forall|i: int|
            0 <= i < old(locals)@.len() && i != id_index(old(locals)@, local_id@) ==> #[trigger] final(locals)@[i]
                == old(locals)@[i],
        id_index(old(locals)@, local_id@) >= 0 ==> ({
            let k = id_index(old(locals)@, local_id@);
            let attempts = (old(locals)@[k].create_attempts + 1) as u32;
            &&& final(locals)@[k]@ == PlaylistState {
                create_attempts: attempts,
                create_pending: attempts < cap,
                ..old(locals)@[k]@
            }
            &&& final(locals)@[k].track_ids@ == old(locals)@[k].track_ids@
        }),
{
    if let Some(k) = find_local(locals, local_id) {
        let p = &locals[k];
        let attempts = p.create_attempts + 1;
        let q = LocalPlaylist {
            id: p.id.clone(),
            name: p.name.clone(),
            track_ids: p.track_ids.clone(),
            server_id: clone_opt(&p.server_id),
            create_pending: attempts < cap,
            create_attempts: attempts,
        };
        locals.set(k, q);
    }
}

/// Deletes the playlists with id `local_id` and returns the server id of
/// the first of them, whose server copy is deleted too.
pub fn delete_local(locals: &mut Vec<LocalPlaylist>, local_id: &str) -> (server_id: Option<String>)
    ensures
        final(locals)@ == old(locals)@.filter(|p: LocalPlaylist| p.id@ != local_id@),
        id_index(old(locals)@, local_id@) >= 0 ==> opt_view(server_id) == old(locals)@[id_index(
            old(locals)@,
            local_id@,
        )]@.server_id,
        id_index(old(locals)@, local_id@) < 0 ==> server_id is None,
{
    let server_id = match find_local(locals, local_id) {
        Some(k) => clone_opt(&locals[k].server_id),
        None => None,
    };
    let ghost before = locals@;
    let ghost pred = |p: LocalPlaylist| p.id@ != local_id@;
    let ghost mut j: int = 0;
    let mut i: usize = 0;
    while i < locals.len()
        invariant
            0 <= j <= before.len(),
            pred == (|p: LocalPlaylist| p.id@ != local_id@),
            i == before.take(j).filter(pred).len(),
            locals@ == before.take(j).filter(pred) + before.skip(j),
        decreases locals@.len() - i,
    {
        proof {
            lemma_filter_step(before, j, pred);
            assert(locals@[i as int] == before[j]);
        }
        if str_eq(locals[i].id.as_str(), local_id) {
            locals.remove(i);
        } else {
            i = i + 1;
        }
        proof {
            assert(before.skip(j) =~= seq![before[j]] + before.skip(j + 1));
            j = j + 1;
            assert(locals@ =~= before.take(j).filter(pred) + before.skip(j));
        }
    }
    proof {
        assert(before.skip(j).len() == 0);
        lemma_take_all(before);
        assert(locals@ =~= before.filter(pred));
    }
    server_id
}

/// Reconciling a second time, with the same server playlists, changes
/// nothing: adopted playlists stop waiting, the others are left as they
/// were.
pub proof fn law_reconcile_idempotent(p: PlaylistState, sv: Seq<ServerPlaylist>, cap: u32)
    ensures
        reconciled(reconciled(p, sv, cap), sv, cap) == reconciled(p, sv, cap),
        needs_retry(reconciled(p, sv, cap), sv, cap) == needs_retry(p, sv, cap),
{
}

/// A playlist that has a server copy, or has failed `cap` times, is never
/// created again and is left as it is.
pub proof fn law_synced_or_exhausted_untouched(p: PlaylistState, sv: Seq<ServerPlaylist>, cap: u32)
    requires
        p.server_id is Some || p.create_attempts >= cap || !p.create_pending,
    ensures
        !needs_retry(p, sv, cap),
        reconciled(p, sv, cap) == p,
{
}

/// Once a failed attempt brings a playlist to `cap` failures it no longer
/// waits, so it is never created again.
pub proof fn law_failures_reach_cap(p: PlaylistState, sv: Seq<ServerPlaylist>, cap: u32)
    requires
        p.create_attempts < u32::MAX,
        p.create_attempts + 1 >= cap,
    ensures
        !needs_retry(
            PlaylistState {
                create_attempts: (p.create_attempts + 1) as u32,
                create_pending: p.create_attempts + 1 < cap,
                ..p
            },
            sv,
            cap,
        ),
{
}

/// Moves the track at `from` to position `to` of a server playlist's
/// tracks, when both are positions of the list and differ; returns whether
/// it moved.
pub fn move_track<T>(tracks: &mut Vec<T>, from: usize, to: usize) -> (moved: bool)
    ensures
        moved == (from < old(tracks)@.len() && to < old(tracks)@.len() && from != to),
        moved ==> final(tracks)@ == old(tracks)@.remove(from as int).insert(to as int, old(tracks)@[from as int]),
        !moved ==> final(tracks)@ == old(tracks)@,
{
    let n = tracks.len();
    if from >= n || to >= n || from == to {
        return false;
    }
    let t = tracks.remove(from);
    tracks.insert(to, t);
    true
}

/// Removes the track at `index` of a server playlist's tracks, when there
/// is one; returns whether it did.
pub fn remove_track_at<T>(tracks: &mut Vec<T>, index: usize) -> (removed: bool)
    ensures
        removed == (index < old(tracks)@.len()),
        removed ==> final(tracks)@ == old(tracks)@.remove(index as int),
        !removed ==> final(tracks)@ == old(tracks)@,
{
    if index >= tracks.len() {
        return false;
    }
    tracks.remove(index);
    true
}

/// Moving a track back to where it came from restores the list.
pub proof fn law_move_back_restores<T>(s: Seq<T>, from: int, to: int)
    requires
        0 <= from < s.len(),
        0 <= to < s.len(),
        from != to,
    ensures
        ({
            let moved = s.remove(from).insert(to, s[from]);
            moved.remove(to).insert(from, moved[to]) == s
        }),
{
    let moved = s.remove(from).insert(to, s[from]);
    assert(moved[to] == s[from]);
    assert(moved.remove(to) =~= s.remove(from));
    assert(s.remove(from).insert(from, s[from]) =~= s);
}

proof fn lemma_name_index_meaning(sv: Seq<ServerPlaylist>, name: Seq<char>)
    ensures
        name_index(sv, name) >= 0 ==> name_index(sv, name) < sv.len() && opt_view(sv[name_index(sv, name)].name)
            == Some(name) && forall|j: int| 0 <= j < name_index(sv, name) ==> opt_view(#[trigger] sv[j].name) != Some(name),
        name_index(sv, name) < 0 ==> forall|j: int| 0 <= j < sv.len() ==> opt_view(#[trigger] sv[j].name) != Some(name),
    decreases sv.len(),
{
    if sv.len() > 0 && opt_view(sv[0].name) != Some(name) {
        let rest = sv.drop_first();
        lemma_name_index_meaning(rest, name);
        let k = name_index(rest, name);
        if k >= 0 {
            assert(sv[k + 1] == rest[k]);
            assert forall|j: int| 0 <= j < k + 1 implies opt_view(#[trigger] sv[j].name) != Some(name) by {
                if j > 0 {
                    assert(sv[j] == rest[j - 1]);
                }
            }
        } else {
            assert forall|j: int| 0 <= j < sv.len() implies opt_view(#[trigger] sv[j].name) != Some(name) by {
                if j > 0 {
                    assert(sv[j] == rest[j - 1]);
                }
            }
        }
    }
}

/// A playlist that awaits creation adopts the id of the first server
/// playlist with its name and stops waiting; when no server playlist has
/// its name it is created again; its id, name and attempt count never
/// change.
pub proof fn law_adoption_by_name(p: PlaylistState, sv: Seq<ServerPlaylist>, cap: u32)
    requires
        awaiting_create(p, cap),
    ensures
        reconciled(p, sv, cap).id == p.id && reconciled(p, sv, cap).name == p.name && reconciled(
            p,
            sv,
            cap,
        ).create_attempts == p.create_attempts,
        (exists|k: int| 0 <= k < sv.len() && opt_view(#[trigger] sv[k].name) == Some(p.name)) ==> exists|k: int|
            0 <= k < sv.len() && opt_view(#[trigger] sv[k].name) == Some(p.name) && (forall|j: int|
                0 <= j < k ==> opt_view(#[trigger] sv[j].name) != Some(p.name)) && reconciled(p, sv, cap).server_id
                == opt_view(sv[k].id) && !reconciled(p, sv, cap).create_pending && !needs_retry(p, sv, cap),
        (forall|k: int| 0 <= k < sv.len() ==> opt_view(#[trigger] sv[k].name) != Some(p.name)) ==> needs_retry(
            p,
            sv,
            cap,
        ) && reconciled(p, sv, cap) == p,
{
    lemma_name_index_meaning(sv, p.name);
    let k = name_index(sv, p.name);
    if k >= 0 {
        assert(opt_view(sv[k].name) == Some(p.name));
    } else {
        assert forall|j: int| 0 <= j < sv.len() implies opt_view(#[trigger] sv[j].name) != Some(p.name) by {}
    }
}

} // verus!
