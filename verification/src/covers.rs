//! Which cover images the desktop client loads: the cover ids that a list
//! of albums or songs names, the rows of the album list in view, and the
//! loads still to start for ids that are not cached yet.

use vstd::prelude::*;
use crate::forms::{has_prefix, starts_with};
use crate::library::{cache_lookup, CoverCache};

verus! {

/// The present entries of `list`, in order.
pub open spec fn present(list: Seq<Option<String>>) -> Seq<String> {
    list.filter_map(|o: Option<String>| o)
}

/// The cover ids that the entries of a list name (entries without a cover
/// are skipped), in order.
pub fn present_ids(list: &[Option<String>]) -> (r: Vec<String>)
    ensures
        r@ == present(list@),
{
    let mut out: Vec<String> = Vec::new();
    let n = list.len();
    let mut i: usize = 0;
    while i < n
        invariant
            n == list@.len(),
            i <= n,
            out@ == present(list@.take(i as int)),
        decreases n - i,
    {
        assert(list@.take(i + 1).drop_last() =~= list@.take(i as int));
        assert(list@.take(i + 1).last() == list@[i as int]);
        match &list[i] {
            Some(id) => {
                out.push(id.clone());
                assert(out@ =~= present(list@.take(i + 1)));
            },
            None => {},
        }
        i = i + 1;
    }
    assert(list@.take(n as int) =~= list@);
    out
}

/// The cover ids that two lists name, those of the first list first (the
/// albums, then the songs, of a search; an album's own cover, then its
/// tracks').
pub fn concat_present_ids(first: &[Option<String>], second: &[Option<String>]) -> (r: Vec<String>)
    ensures
        r@ == present(first@) + present(second@),
{
    let mut r = present_ids(first);
    let mut rest = present_ids(second);
    r.append(&mut rest);
    r
}

/// How many album rows get their covers loaded up front.
pub const FIRST_SCREEN_ALBUMS: usize = 24;

/// How many album rows from the first one in view get their covers loaded
/// as the list scrolls.
pub const SCROLL_WINDOW_ROWS: usize = 16;

/// The cover ids of the albums on the first screen of the album list.
pub fn first_screen_cover_ids(covers: &Vec<Option<String>>) -> (r: Vec<String>)
    ensures
        r@ == present(
            if covers@.len() > FIRST_SCREEN_ALBUMS { covers@.take(FIRST_SCREEN_ALBUMS as int) } else { covers@ },
        ),
{
    let end = if covers.len() > FIRST_SCREEN_ALBUMS { FIRST_SCREEN_ALBUMS } else { covers.len() };
    let s = covers.as_slice();
    let r = present_ids(&s[0..end]);
    assert(s@.subrange(0, end as int) =~= (if covers@.len() > FIRST_SCREEN_ALBUMS {
        covers@.take(FIRST_SCREEN_ALBUMS as int)
    } else {
        covers@
    }));
    r
}

/// The album rows `first..end` whose covers load when the list scrolls to
/// row `first_row`: from that row (clamped to the list) up to
/// `SCROLL_WINDOW_ROWS` rows further, within the list.
pub open spec fn scroll_window(first_row: int, len: int) -> (int, int) {
    let first = if first_row < len { first_row } else { len };
    let end = if first + SCROLL_WINDOW_ROWS < len { first + SCROLL_WINDOW_ROWS } else { len };
    (first, end)
}

/// The cover ids of the album rows that come into view when the album list
/// scrolls to row `first_row`.
pub fn scrolled_cover_ids(covers: &Vec<Option<String>>, first_row: usize) -> (r: Vec<String>)
    ensures
        r@ == present(
            covers@.subrange(
                scroll_window(first_row as int, covers@.len() as int).0,
                scroll_window(first_row as int, covers@.len() as int).1,
            ),
        ),
{
    let len = covers.len();
    let first = if first_row < len { first_row } else { len };
    let end = if len - first > SCROLL_WINDOW_ROWS { first + SCROLL_WINDOW_ROWS } else { len };
    let s = covers.as_slice();
    present_ids(&s[first..end])
}

/// Where a cover comes from: the on-disk library or the server.
#[derive(Debug, Clone, Copy, PartialEq, Eq, Structural)]
pub enum CoverSource {
    Local,
    Server,
}

/// One cover load to start.
#[derive(Debug, Clone)]
pub struct CoverRequest {
    pub id: String,
    pub source: CoverSource,
}

/// Whether `id` names an item (an album, an artist, a cover) of the
/// on-disk library rather than of the server.
pub open spec fn is_local_id(id: Seq<char>) -> bool {
    has_prefix(id, "local:"@)
}

/// The loads to start for the cover ids `ids`, in order: one for each id
/// that is not in the cache, from the on-disk library for `local:` ids and
/// from the server for the others.
pub open spec fn cover_plan<H>(cache: Seq<(Seq<char>, H)>, ids: Seq<String>) -> Seq<CoverRequest>
    decreases ids.len(),
{
    if ids.len() == 0 {
        Seq::empty()
    } else {
        let rest = cover_plan(cache, ids.drop_last());
        let id = ids.last();
        if cache_lookup(cache, id@) is Some {
            rest
        } else {
            rest.push(
                CoverRequest { id, source: if is_local_id(id@) { CoverSource::Local } else { CoverSource::Server } },
            )
        }
    }
}

/// Plans the cover loads for `ids` against what `cache` holds.
pub fn cover_requests<H>(cache: &CoverCache<H>, ids: Vec<String>) -> (r: Vec<CoverRequest>)
    ensures
        r@ == cover_plan(cache@, ids@),
{
    let mut out: Vec<CoverRequest> = Vec::new();
    let n = ids.len();
    let mut i: usize = 0;
    while i < n
        invariant
            n == ids@.len(),
            i <= n,
            out@ == cover_plan(cache@, ids@.take(i as int)),
        decreases n - i,
    {
        assert(ids@.take(i + 1).drop_last() =~= ids@.take(i as int));
        assert(ids@.take(i + 1).last() == ids@[i as int]);
        let id = &ids[i];
        if !cache.contains_key(id.as_str()) {
            proof {
                reveal_strlit("local:");
            }
            let source = if starts_with(id.as_str(), "local:") { CoverSource::Local } else { CoverSource::Server };
            out.push(CoverRequest { id: id.clone(), source });
        }
        i = i + 1;
    }
    assert(ids@.take(n as int) =~= ids@);
    out
}

/// No load is planned for a cover that the cache holds, every planned load
/// is for one of the given ids, and `local:` ids load from the on-disk
/// library.
pub proof fn law_cached_covers_not_reloaded<H>(cache: Seq<(Seq<char>, H)>, ids: Seq<String>)
    ensures
        forall|k: int|
            0 <= k < cover_plan(cache, ids).len() ==> cache_lookup(cache, (#[trigger] cover_plan(cache, ids)[k]).id@) is None
                && ids.contains(cover_plan(cache, ids)[k].id) && (cover_plan(cache, ids)[k].source == CoverSource::Local
                <==> is_local_id(cover_plan(cache, ids)[k].id@)),
    decreases ids.len(),
{
    if ids.len() > 0 {
        let rest = ids.drop_last();
        law_cached_covers_not_reloaded(cache, rest);
        let p = cover_plan(cache, ids);
        let q = cover_plan(cache, rest);
        assert forall|k: int| 0 <= k < p.len() implies cache_lookup(cache, (#[trigger] p[k]).id@) is None && ids.contains(
            p[k].id,
        ) && (p[k].source == CoverSource::Local <==> is_local_id(p[k].id@)) by {
            if k < q.len() {
                assert(p[k] == q[k]);
                let j = choose|j: int| 0 <= j < rest.len() && rest[j] == q[k].id;
                assert(ids[j] == rest[j]);
            } else {
                assert(ids[ids.len() - 1] == ids.last());
            }
        }
    }
}

/// The scroll window starts at the row scrolled to (or the end of the
/// list), lies within the list, and covers `SCROLL_WINDOW_ROWS` rows, or as
/// many as are left.
pub proof fn law_scroll_window(first_row: int, len: int)
    requires
        0 <= first_row,
        0 <= len,
    ensures
        ({
            let (first, end) = scroll_window(first_row, len);
            &&& 0 <= first <= end <= len
            &&& first == if first_row < len { first_row } else { len }
            &&& end - first == if len - first < 16 { len - first } else { 16 }
        }),
{
}

} // verus!
