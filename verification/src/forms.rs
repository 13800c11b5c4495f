//! What the desktop client's text fields hand on: trimmed names, the
//! server and user of the login form, and the short form of a server
//! address shown in the account switcher.

use vstd::prelude::*;
use crate::text::{trim, trim_spec};

verus! {

/// `s` trimmed, when anything is left of it.
pub open spec fn nonblank(s: Seq<char>) -> Option<Seq<char>> {
    if trim_spec(s).len() == 0 { None } else { Some(trim_spec(s)) }
}

/// The trimmed text of a name or query field, or `None` when it holds only
/// white space (search queries, playlist and equalizer profile names).
pub fn trimmed_nonempty(s: &str) -> (r: Option<String>)
    ensures
        match r {
            Some(t) => nonblank(s@) == Some(t@),
            None => nonblank(s@) is None,
        },
{
    let t = trim(s);
    if t.unicode_len() == 0 {
        None
    } else {
        Some(t.to_owned())
    }
}

/// `s` without the characters `c` at its end.
pub open spec fn without_trailing(s: Seq<char>, c: char) -> Seq<char>
    decreases s.len(),
{
    if s.len() > 0 && s.last() == c {
        without_trailing(s.drop_last(), c)
    } else {
        s
    }
}

/// `str::trim_end_matches` with one character: `s` without the
/// characters `c` at its end.
pub fn trim_end_char(s: &str, c: char) -> (r: &str)
    ensures
        r@ == without_trailing(s@, c),
{
    let mut k: usize = s.unicode_len();
    assert(s@.subrange(0, k as int) =~= s@);
    while k > 0 && s.get_char(k - 1) == c
        invariant
            k <= s@.len(),
            without_trailing(s@.subrange(0, k as int), c) == without_trailing(s@, c),
        decreases k,
    {
        assert(s@.subrange(0, k as int).drop_last() =~= s@.subrange(0, k - 1));
        k = k - 1;
    }
    s.substring_char(0, k)
}

/// Whether `s` begins with `p`.
pub open spec fn has_prefix(s: Seq<char>, p: Seq<char>) -> bool {
    p.len() <= s.len() && s.subrange(0, p.len() as int) == p
}

/// `s` without the copies of `p` at its start.
pub open spec fn without_leading(s: Seq<char>, p: Seq<char>) -> Seq<char>
    decreases s.len(),
{
    if p.len() > 0 && has_prefix(s, p) {
        without_leading(s.subrange(p.len() as int, s.len() as int), p)
    } else {
        s
    }
}

pub(crate) fn starts_with(s: &str, p: &str) -> (r: bool)
    ensures
        r == has_prefix(s@, p@),
{
    let n = s.unicode_len();
    let m = p.unicode_len();
    if m > n {
        return false;
    }
    let mut i: usize = 0;
    while i < m
        invariant
            m == p@.len(),
            n == s@.len(),
            m <= n,
            i <= m,
            forall|j: int| 0 <= j < i ==> s@[j] == p@[j],
        decreases m - i,
    {
        if s.get_char(i) != p.get_char(i) {
            assert(s@.subrange(0, m as int)[i as int] != p@[i as int]);
            return false;
        }
        i = i + 1;
    }
    assert(s@.subrange(0, m as int) =~= p@);
    true
}

/// `str::trim_start_matches` with a non-empty string pattern: `s` without
/// the copies of `p` at its start.
pub fn trim_start_str<'a>(s: &'a str, p: &str) -> (r: &'a str)
    requires
        p@.len() > 0,
    ensures
        r@ == without_leading(s@, p@),
{
    let m = p.unicode_len();
    let mut rest: &str = s;
    while starts_with(rest, p)
        invariant
            m == p@.len(),
            m > 0,
            without_leading(rest@, p@) == without_leading(s@, p@),
        decreases rest@.len(),
    {
        let n = rest.unicode_len();
        rest = rest.substring_char(m, n);
    }
    rest
}

/// The server and user name that the login form connects with: the server
/// field trimmed and without trailing slashes, the user field trimmed; `None`
/// when either is then empty.
pub open spec fn connect_target_spec(server: Seq<char>, username: Seq<char>) -> Option<(Seq<char>, Seq<char>)> {
    let sv = without_trailing(trim_spec(server), '/');
    let us = trim_spec(username);
    if sv.len() == 0 || us.len() == 0 { None } else { Some((sv, us)) }
}

/// Reads the login form: the server address and user name to connect
/// with, or `None` when one of them is missing.
pub fn connect_target(server_input: &str, username_input: &str) -> (r: Option<(String, String)>)
    ensures
        match r {
            Some((sv, us)) => connect_target_spec(server_input@, username_input@) == Some((sv@, us@)),
            None => connect_target_spec(server_input@, username_input@) is None,
        },
{
    let server = trim_end_char(trim(server_input), '/');
    let user = trim(username_input);
    if server.unicode_len() == 0 || user.unicode_len() == 0 {
        None
    } else {
        Some((server.to_owned(), user.to_owned()))
    }
}

/// A server address as the account switcher shows it: without its
/// `https://` and `http://` scheme and without trailing slashes.
pub open spec fn server_display_spec(server: Seq<char>) -> Seq<char> {
    without_trailing(without_leading(without_leading(server, "https://"@), "http://"@), '/')
}

/// The short form of a server address shown beside a saved account.
pub fn server_display(server: &str) -> (r: String)
    ensures
        r@ == server_display_spec(server@),
{
    proof {
        reveal_strlit("https://");
        reveal_strlit("http://");
    }
    let a = trim_start_str(server, "https://");
    let b = trim_start_str(a, "http://");
    trim_end_char(b, '/').to_owned()
}

/// Trimming a character from the end leaves a prefix that does not end in
/// it, and only copies of that character were removed.
pub proof fn law_without_trailing(s: Seq<char>, c: char)
    ensures
        without_trailing(s, c).len() <= s.len(),
        s.subrange(0, without_trailing(s, c).len() as int) == without_trailing(s, c),
        without_trailing(s, c).len() > 0 ==> without_trailing(s, c).last() != c,
        forall|i: int| without_trailing(s, c).len() <= i < s.len() ==> #[trigger] s[i] == c,
    decreases s.len(),
{
    if s.len() > 0 && s.last() == c {
        law_without_trailing(s.drop_last(), c);
        let r = without_trailing(s, c);
        assert(s.subrange(0, r.len() as int) =~= s.drop_last().subrange(0, r.len() as int));
        assert forall|i: int| r.len() <= i < s.len() implies #[trigger] s[i] == c by {
            if i < s.len() - 1 {
                assert(s[i] == s.drop_last()[i]);
            }
        }
    } else {
        assert(s.subrange(0, s.len() as int) =~= s);
    }
}

/// Trimming a pattern from the start leaves a suffix that does not begin
/// with it, and what was removed is copies of the pattern.
pub proof fn law_without_leading(s: Seq<char>, p: Seq<char>)
    requires
        p.len() > 0,
    ensures
        without_leading(s, p).len() <= s.len(),
        s.subrange(s.len() - without_leading(s, p).len(), s.len() as int) == without_leading(s, p),
        !has_prefix(without_leading(s, p), p),
        (s.len() - without_leading(s, p).len()) % (p.len() as int) == 0,
    decreases s.len(),
{
    if has_prefix(s, p) {
        let rest = s.subrange(p.len() as int, s.len() as int);
        law_without_leading(rest, p);
        let r = without_leading(s, p);
        assert(s.subrange(s.len() - r.len(), s.len() as int) =~= rest.subrange(rest.len() - r.len(), rest.len() as int));
        assert(s.len() - r.len() == (rest.len() - r.len()) + p.len());
        let a: int = rest.len() - r.len();
        let n: int = p.len() as int;
        assert((a + n) % n == 0) by (nonlinear_arith)
            requires
                a % n == 0,
                n > 0,
        ;
        assert(s.len() - r.len() == a + n);
    } else {
        assert(s.subrange(0, s.len() as int) =~= s);
        let n: int = p.len() as int;
        assert(0int % n == 0) by (nonlinear_arith)
            requires
                n > 0,
        ;
    }
}

} // verus!
