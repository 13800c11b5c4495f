//! The desktop client's error toasts: a small stack of notices that
//! coalesces repeats of one error category, keeps at most three visible
//! (dropping the oldest) and lets each one expire after five seconds.
//!
//! Times are milliseconds on a monotonic clock chosen by the caller; the
//! stack itself never reads a clock.

use vstd::prelude::*;
use crate::text::str_eq;
use crate::seq_facts::{lemma_filter_all, lemma_filter_step};

verus! {

/// How many toasts are visible at most.
pub const MAX_TOASTS: usize = 3;

/// How long a toast stays up, in milliseconds.
pub const TOAST_LIFETIME_MS: u64 = 5000;

/// One visible notice. `category` names the kind of error it reports: two
/// toasts with equal categories report the same error.
#[derive(Debug, Clone)]
pub struct Toast {
    pub id: u64,
    pub category: String,
    pub text: String,
    pub spawned_ms: u64,
}

/// The visible toasts, oldest first, and the id the next one will get.
#[derive(Debug)]
pub struct ToastStack {
    pub toasts: Vec<Toast>,
    pub next_id: u64,
}

/// The first position of a toast of category `c` in `ts`, or -1.
pub open spec fn category_index(ts: Seq<Toast>, c: Seq<char>) -> int
    decreases ts.len(),
{
    if ts.len() == 0 {
        -1
    } else if ts[0].category@ == c {
        0
    } else {
        let k = category_index(ts.drop_first(), c);
        if k < 0 { -1 } else { k + 1 }
    }
}

/// The newest `MAX_TOASTS` toasts of `ts`.
pub open spec fn keep_newest(ts: Seq<Toast>) -> Seq<Toast> {
    if ts.len() > MAX_TOASTS {
        ts.subrange(ts.len() - MAX_TOASTS, ts.len() as int)
    } else {
        ts
    }
}

/// The toasts and next id after an error of `category` is reported at
/// `now`: nothing happens for an expired session; a visible toast of the
/// same category is re-stamped; otherwise a new toast gets the next id and
/// the oldest toasts beyond `MAX_TOASTS` are dropped.
pub open spec fn after_show(
    ts: Seq<Toast>,
    next_id: u64,
    category: String,
    text: String,
    session_expired: bool,
    now: u64,
) -> (Seq<Toast>, u64) {
    if session_expired {
        (ts, next_id)
    } else {
        let i = category_index(ts, category@);
        if i >= 0 {
            (ts.update(i, Toast { id: ts[i].id, category: ts[i].category, text: ts[i].text, spawned_ms: now }), next_id)
        } else {
            (keep_newest(ts.push(Toast { id: next_id, category, text, spawned_ms: now })), (next_id + 1) as u64)
        }
    }
}

/// How long ago, in milliseconds, toast `t` appeared, seen at `now` (zero
/// for a stamp that lies ahead of `now`).
pub open spec fn age(t: Toast, now: u64) -> int {
    if now >= t.spawned_ms { now - t.spawned_ms } else { 0 }
}

/// Whether toast `t` is still up at `now`.
pub open spec fn alive(t: Toast, now: u64) -> bool {
    age(t, now) < TOAST_LIFETIME_MS
}

/// The toasts that remain after the one with `id` is dismissed.
pub open spec fn without_id(ts: Seq<Toast>, id: u64) -> Seq<Toast> {
    ts.filter(|t: Toast| t.id != id)
}

/// The toasts that remain up at `now`.
pub open spec fn alive_at(ts: Seq<Toast>, now: u64) -> Seq<Toast> {
    ts.filter(|t: Toast| alive(t, now))
}

/// Whether no two toasts of `ts` have the same category.
pub open spec fn categories_distinct(ts: Seq<Toast>) -> bool {
    forall|i: int, j: int| 0 <= i < j < ts.len() ==> #[trigger] ts[i].category@ != #[trigger] ts[j].category@
}

/// Whether the ids of `ts` increase from oldest to newest and all lie below
/// `next_id`.
pub open spec fn ids_ordered_below(ts: Seq<Toast>, next_id: u64) -> bool {
    &&& forall|i: int, j: int| 0 <= i < j < ts.len() ==> #[trigger] ts[i].id < #[trigger] ts[j].id
    &&& forall|i: int| 0 <= i < ts.len() ==> #[trigger] ts[i].id < next_id
}

proof fn lemma_category_index(ts: Seq<Toast>, c: Seq<char>, i: int)
    requires
        0 <= i <= ts.len(),
        forall|j: int| 0 <= j < i ==> #[trigger] ts[j].category@ != c,
    ensures
        i < ts.len() && ts[i].category@ == c ==> category_index(ts, c) == i,
        i == ts.len() ==> category_index(ts, c) == -1,
    decreases i,
{
    if i > 0 {
        let rest = ts.drop_first();
        assert forall|j: int| 0 <= j < i - 1 implies #[trigger] rest[j].category@ != c by {
            assert(rest[j] == ts[j + 1]);
        }
        lemma_category_index(rest, c, i - 1);
        if i < ts.len() {
            assert(rest[i - 1] == ts[i]);
        }
    }
}

proof fn lemma_category_index_bounds(ts: Seq<Toast>, c: Seq<char>)
    ensures
        -1 <= category_index(ts, c) < ts.len(),
        category_index(ts, c) >= 0 ==> ts[category_index(ts, c)].category@ == c,
        category_index(ts, c) < 0 ==> forall|j: int| 0 <= j < ts.len() ==> #[trigger] ts[j].category@ != c,
    decreases ts.len(),
{
    if ts.len() > 0 && ts[0].category@ != c {
        let rest = ts.drop_first();
        lemma_category_index_bounds(rest, c);
        let k = category_index(rest, c);
        if k >= 0 {
            assert(ts[k + 1] == rest[k]);
        } else {
            assert forall|j: int| 0 <= j < ts.len() implies #[trigger] ts[j].category@ != c by {
                if j > 0 {
                    assert(ts[j] == rest[j - 1]);
                }
            }
        }
    }
}

proof fn lemma_filter_keeps_order(ts: Seq<Toast>, pred: spec_fn(Toast) -> bool)
    requires
        forall|i: int, j: int| 0 <= i < j < ts.len() ==> #[trigger] ts[i].id < #[trigger] ts[j].id,
    ensures
        forall|i: int, j: int|
            0 <= i < j < ts.filter(pred).len() ==> #[trigger] ts.filter(pred)[i].id < #[trigger] ts.filter(pred)[j].id,
        forall|i: int| 0 <= i < ts.filter(pred).len() ==> ts.contains(#[trigger] ts.filter(pred)[i]),
        forall|i: int| 0 <= i < ts.filter(pred).len() ==> pred(#[trigger] ts.filter(pred)[i]),
    decreases ts.len(),
{
    reveal(Seq::filter);
    if ts.len() > 0 {
        let rest = ts.drop_last();
        assert forall|i: int, j: int| 0 <= i < j < rest.len() implies #[trigger] rest[i].id < #[trigger] rest[j].id by {
            assert(rest[i] == ts[i] && rest[j] == ts[j]);
        }
        lemma_filter_keeps_order(rest, pred);
        let f = rest.filter(pred);
        assert forall|i: int| 0 <= i < f.len() implies ts.contains(#[trigger] f[i]) by {
            let k = choose|k: int| 0 <= k < rest.len() && rest[k] == f[i];
            assert(ts[k] == rest[k]);
        }
        if pred(ts.last()) {
            let g = f.push(ts.last());
            assert forall|i: int| 0 <= i < g.len() implies ts.contains(#[trigger] g[i]) by {
                if i == f.len() {
                    assert(ts[ts.len() - 1] == g[i]);
                }
            }
            assert forall|i: int, j: int| 0 <= i < j < g.len() implies #[trigger] g[i].id < #[trigger] g[j].id by {
                if j == f.len() {
                    assert(ts.contains(g[i]));
                    let k = choose|k: int| 0 <= k < ts.len() && ts[k] == g[i];
                    assert(rest.contains(f[i]));
                    let m = choose|m: int| 0 <= m < rest.len() && rest[m] == f[i];
                    assert(ts[m] == rest[m]);
                    assert(ts[m].id < ts[ts.len() - 1].id);
                }
            }
        }
    }
}

impl ToastStack {
    /// An empty stack whose first toast gets id 0.
    pub fn new() -> (r: ToastStack)
        ensures
            r.toasts@.len() == 0,
            r.next_id == 0,
    {
        ToastStack { toasts: Vec::new(), next_id: 0 }
    }

    /// Reports an error of `category` with message `text` at `now_ms`:
    /// suppressed for an expired session, coalesced with a visible toast of
    /// the same category (which is re-stamped), else pushed with the next id,
    /// keeping only the newest `MAX_TOASTS`.
    pub fn show(&mut self, category: String, text: String, session_expired: bool, now_ms: u64)
        requires
            old(self).next_id < u64::MAX,
        ensures
            final(self).toasts@ == after_show(old(self).toasts@, old(self).next_id, category, text, session_expired, now_ms).0,
            final(self).next_id == after_show(old(self).toasts@, old(self).next_id, category, text, session_expired, now_ms).1,
    {
        if session_expired {
            return;
        }
        let n = self.toasts.len();
        let mut i: usize = 0;
        while i < n
            invariant
                n == self.toasts@.len(),
                i <= n,
                self.toasts@ == old(self).toasts@,
                self.next_id == old(self).next_id,
                !session_expired,
                forall|j: int| 0 <= j < i ==> #[trigger] self.toasts@[j].category@ != category@,
            decreases n - i,
        {
            if str_eq(self.toasts[i].category.as_str(), category.as_str()) {
                proof {
                    lemma_category_index(self.toasts@, category@, i as int);
                }
                let t = Toast {
                    id: self.toasts[i].id,
                    category: self.toasts[i].category.clone(),
                    text: self.toasts[i].text.clone(),
                    spawned_ms: now_ms,
                };
                self.toasts.set(i, t);
                assert(self.toasts@ =~= after_show(old(self).toasts@, old(self).next_id, category, text, session_expired, now_ms).0);
                return;
            }
            i = i + 1;
        }
        proof {
            lemma_category_index(self.toasts@, category@, n as int);
        }
        let ghost pushed = self.toasts@.push(Toast { id: self.next_id, category, text, spawned_ms: now_ms });
        self.toasts.push(Toast { id: self.next_id, category, text, spawned_ms: now_ms });
        self.next_id = self.next_id + 1;
        let ghost mut dropped: int = 0;
        while self.toasts.len() > MAX_TOASTS
            invariant
                0 <= dropped <= pushed.len(),
                !session_expired,
                self.next_id == old(self).next_id + 1,
                self.toasts@ == pushed.subrange(dropped, pushed.len() as int),
                pushed.len() > MAX_TOASTS ==> dropped <= pushed.len() - MAX_TOASTS,
                pushed.len() <= MAX_TOASTS ==> dropped == 0,
            decreases self.toasts@.len(),
        {
            self.toasts.remove(0);
            proof {
                dropped = dropped + 1;
            }
        }
        assert(self.toasts@ =~= keep_newest(pushed));
    }

    /// Pushes a toast with the next id as it is, with no coalescing and no
    /// cap (the notice of a refused login form).
    pub fn push_notice(&mut self, category: String, text: String, now_ms: u64)
        requires
            old(self).next_id < u64::MAX,
        ensures
            final(self).toasts@ == old(self).toasts@.push(
                Toast { id: old(self).next_id, category, text, spawned_ms: now_ms },
            ),
            final(self).next_id == old(self).next_id + 1,
    {
        self.toasts.push(Toast { id: self.next_id, category, text, spawned_ms: now_ms });
        self.next_id = self.next_id + 1;
    }

    /// Dismisses the toast with `id`; the others stay in order.
    pub fn dismiss(&mut self, id: u64)
        ensures
            final(self).toasts@ == without_id(old(self).toasts@, id),
            final(self).next_id == old(self).next_id,
    {
        let ghost pred = |t: Toast| t.id != id;
        let mut kept: Vec<Toast> = Vec::new();
        let n = self.toasts.len();
        let mut i: usize = 0;
        while i < n
            invariant
                n == self.toasts@.len(),
                i <= n,
                pred == (|t: Toast| t.id != id),
                kept@ == self.toasts@.take(i as int).filter(pred),
            decreases n - i,
        {
            proof {
                lemma_filter_step(self.toasts@, i as int, pred);
            }
            if self.toasts[i].id != id {
                let t = Toast {
                    id: self.toasts[i].id,
                    category: self.toasts[i].category.clone(),
                    text: self.toasts[i].text.clone(),
                    spawned_ms: self.toasts[i].spawned_ms,
                };
                kept.push(t);
            }
            i = i + 1;
        }
        assert(self.toasts@.take(n as int) =~= self.toasts@);
        self.toasts = kept;
    }

    /// Drops the toasts that have been up for `TOAST_LIFETIME_MS` or longer
    /// at `now_ms`; the others stay in order.
    pub fn expire(&mut self, now_ms: u64)
        ensures
            final(self).toasts@ == alive_at(old(self).toasts@, now_ms),
            final(self).next_id == old(self).next_id,
    {
        let ghost pred = |t: Toast| alive(t, now_ms);
        let mut kept: Vec<Toast> = Vec::new();
        let n = self.toasts.len();
        let mut i: usize = 0;
        while i < n
            invariant
                n == self.toasts@.len(),
                i <= n,
                pred == (|t: Toast| alive(t, now_ms)),
                kept@ == self.toasts@.take(i as int).filter(pred),
            decreases n - i,
        {
            proof {
                lemma_filter_step(self.toasts@, i as int, pred);
            }
            let spawned = self.toasts[i].spawned_ms;
            let elapsed = if now_ms >= spawned { now_ms - spawned } else { 0 };
            if elapsed < TOAST_LIFETIME_MS {
                let t = Toast {
                    id: self.toasts[i].id,
                    category: self.toasts[i].category.clone(),
                    text: self.toasts[i].text.clone(),
                    spawned_ms: spawned,
                };
                kept.push(t);
            }
            i = i + 1;
        }
        assert(self.toasts@.take(n as int) =~= self.toasts@);
        self.toasts = kept;
    }
}

/// Reporting an error never leaves more than `MAX_TOASTS` toasts up, when
/// no more were up before.
pub proof fn law_show_caps_stack(
    ts: Seq<Toast>,
    next_id: u64,
    category: String,
    text: String,
    session_expired: bool,
    now: u64,
)
    requires
        ts.len() <= MAX_TOASTS,
    ensures
        after_show(ts, next_id, category, text, session_expired, now).0.len() <= MAX_TOASTS,
{
    lemma_category_index_bounds(ts, category@);
}

/// Reporting an error never makes two visible toasts share a category: the
/// stack shows each error category at most once.
pub proof fn law_show_coalesces(
    ts: Seq<Toast>,
    next_id: u64,
    category: String,
    text: String,
    session_expired: bool,
    now: u64,
)
    requires
        categories_distinct(ts),
    ensures
        categories_distinct(after_show(ts, next_id, category, text, session_expired, now).0),
{
    lemma_category_index_bounds(ts, category@);
    let i = category_index(ts, category@);
    if !session_expired {
        if i >= 0 {
            let r = after_show(ts, next_id, category, text, session_expired, now).0;
            assert forall|a: int, b: int| 0 <= a < b < r.len() implies #[trigger] r[a].category@ != #[trigger] r[b].category@ by {
                assert(r[a].category == ts[a].category && r[b].category == ts[b].category);
            }
        } else {
            let p = ts.push(Toast { id: next_id, category, text, spawned_ms: now });
            assert forall|a: int, b: int| 0 <= a < b < p.len() implies #[trigger] p[a].category@ != #[trigger] p[b].category@ by {
                if b == ts.len() {
                    assert(p[a] == ts[a]);
                } else {
                    assert(p[a] == ts[a] && p[b] == ts[b]);
                }
            }
            let r = keep_newest(p);
            assert forall|a: int, b: int| 0 <= a < b < r.len() implies #[trigger] r[a].category@ != #[trigger] r[b].category@ by {
                let off = p.len() - r.len();
                assert(r[a] == p[a + off] && r[b] == p[b + off]);
            }
        }
    }
}

/// Toast ids are handed out in increasing order and stay below the next id,
/// whatever is reported, dismissed or expired.
pub proof fn law_ids_ordered(
    ts: Seq<Toast>,
    next_id: u64,
    category: String,
    text: String,
    session_expired: bool,
    now: u64,
    id: u64,
)
    requires
        ids_ordered_below(ts, next_id),
        next_id < u64::MAX,
    ensures
        ids_ordered_below(
            after_show(ts, next_id, category, text, session_expired, now).0,
            after_show(ts, next_id, category, text, session_expired, now).1,
        ),
        ids_ordered_below(without_id(ts, id), next_id),
        ids_ordered_below(alive_at(ts, now), next_id),
{
    lemma_category_index_bounds(ts, category@);
    let i = category_index(ts, category@);
    if !session_expired {
        if i >= 0 {
            let r = after_show(ts, next_id, category, text, session_expired, now).0;
            assert forall|a: int| 0 <= a < r.len() implies r[a].id == #[trigger] ts[a].id by {}
        } else {
            let p = ts.push(Toast { id: next_id, category, text, spawned_ms: now });
            assert forall|a: int, b: int| 0 <= a < b < p.len() implies #[trigger] p[a].id < #[trigger] p[b].id by {
                assert(p[a] == ts[a]);
                if b < ts.len() {
                    assert(p[b] == ts[b]);
                }
            }
            let r = keep_newest(p);
            assert forall|a: int, b: int| 0 <= a < b < r.len() implies #[trigger] r[a].id < #[trigger] r[b].id by {
                let off = p.len() - r.len();
                assert(r[a] == p[a + off] && r[b] == p[b + off]);
            }
            assert forall|a: int| 0 <= a < r.len() implies #[trigger] r[a].id < next_id + 1 by {
                let off = p.len() - r.len();
                assert(r[a] == p[a + off]);
                if a + off < ts.len() {
                    assert(p[a + off] == ts[a + off]);
                }
            }
        }
    }
    let pd = |t: Toast| t.id != id;
    let pa = |t: Toast| alive(t, now);
    lemma_filter_keeps_order(ts, pd);
    lemma_filter_keeps_order(ts, pa);
    let fd = ts.filter(pd);
    let fa = ts.filter(pa);
    assert forall|a: int| 0 <= a < fd.len() implies #[trigger] fd[a].id < next_id by {
        assert(ts.contains(fd[a]));
    }
    assert forall|a: int| 0 <= a < fa.len() implies #[trigger] fa[a].id < next_id by {
        assert(ts.contains(fa[a]));
    }
}

/// Dismissing a freshly reported toast takes the stack back to where it
/// was, when that report neither coalesced nor pushed an older toast out.
pub proof fn law_dismiss_undoes_show(ts: Seq<Toast>, next_id: u64, category: String, text: String, now: u64)
    requires
        ids_ordered_below(ts, next_id),
        next_id < u64::MAX,
        ts.len() < MAX_TOASTS,
        forall|j: int| 0 <= j < ts.len() ==> #[trigger] ts[j].category@ != category@,
    ensures
        after_show(ts, next_id, category, text, false, now).1 == next_id + 1,
        without_id(after_show(ts, next_id, category, text, false, now).0, next_id) == ts,
{
    lemma_category_index(ts, category@, ts.len() as int);
    let t = Toast { id: next_id, category, text, spawned_ms: now };
    let p = ts.push(t);
    let pd = |u: Toast| u.id != next_id;
    assert(keep_newest(p) == p);
    reveal(Seq::filter);
    assert(p.drop_last() =~= ts);
    assert(p.filter(pd) == ts.filter(pd));
    lemma_filter_all(ts, pd);
}

/// Expiring twice at the same moment is expiring once, and every toast that
/// remains is still up.
pub proof fn law_expire_idempotent(ts: Seq<Toast>, now: u64)
    ensures
        alive_at(alive_at(ts, now), now) == alive_at(ts, now),
        forall|i: int| 0 <= i < alive_at(ts, now).len() ==> alive(#[trigger] alive_at(ts, now)[i], now),
{
    let pa = |t: Toast| alive(t, now);
    let f = ts.filter(pa);
    assert forall|i: int| 0 <= i < f.len() implies pa(#[trigger] f[i]) by {
        ts.lemma_filter_pred(pa, i);
    }
    lemma_filter_all(f, pa);
}

/// A report of a category that is not up adds one toast at the end: it has
/// the next id, the report's category and text and the time of the report,
/// and the ids go up by one.
pub proof fn law_new_toast_is_newest(ts: Seq<Toast>, next_id: u64, category: String, text: String, now: u64)
    requires
        forall|j: int| 0 <= j < ts.len() ==> #[trigger] ts[j].category@ != category@,
    ensures
        ({
            let (r, n) = after_show(ts, next_id, category, text, false, now);
            &&& r.len() >= 1
            &&& r.last() == (Toast { id: next_id, category, text, spawned_ms: now })
            &&& n == next_id + 1 || next_id == u64::MAX
            &&& r.len() == if ts.len() + 1 > 3 { 3 } else { ts.len() + 1 }
        }),
{
    lemma_category_index(ts, category@, ts.len() as int);
}

/// A repeated report leaves the stack's ids, texts and order as they were
/// and only moves the toast's time to the report's.
pub proof fn law_repeat_restamps(ts: Seq<Toast>, next_id: u64, category: String, text: String, now: u64, i: int)
    requires
        0 <= i < ts.len(),
        ts[i].category@ == category@,
        categories_distinct(ts),
    ensures
        ({
            let (r, n) = after_show(ts, next_id, category, text, false, now);
            &&& n == next_id
            &&& r.len() == ts.len()
            &&& r[i].spawned_ms == now && r[i].id == ts[i].id && r[i].text == ts[i].text
            &&& forall|j: int| 0 <= j < ts.len() && j != i ==> #[trigger] r[j] == ts[j]
        }),
{
    lemma_category_index_bounds(ts, category@);
    let k = category_index(ts, category@);
    assert(k == i) by {
        if k != i {
            assert(ts[k].category@ == category@);
        }
    }
}

/// A toast is up for exactly five seconds after it appears.
pub proof fn law_lifetime(t: Toast, now: u64)
    requires
        now >= t.spawned_ms,
    ensures
        alive(t, now) <==> now - t.spawned_ms < 5000,
{
}

} // verus!
