//! The one-shot command line of the desktop client (`firmium play-pause`):
//! the reply line it prints and the exit code it ends with.

use vstd::prelude::*;
use crate::forms::{has_prefix, starts_with};
use crate::text::{is_whitespace, trim_end_spec};

verus! {

/// The reply of the running instance as printed: the line it sent without
/// trailing white space (its line break among it).
pub fn reply_line(raw: &str) -> (r: String)
    ensures
        r@ == trim_end_spec(raw@),
{
    let mut k: usize = raw.unicode_len();
    assert(raw@.subrange(0, k as int) =~= raw@);
    while k > 0 && is_whitespace(raw.get_char(k - 1))
        invariant
            k <= raw@.len(),
            trim_end_spec(raw@.subrange(0, k as int)) == trim_end_spec(raw@),
        decreases k,
    {
        assert(raw@.subrange(0, k as int).drop_last() =~= raw@.subrange(0, k - 1));
        k = k - 1;
    }
    raw.substring_char(0, k).to_owned()
}

/// The exit code for a command's reply: 1 when there was no reply (the
/// instance could not be reached) or the reply reports an error, else 0.
pub open spec fn exit_code(reply: Option<Seq<char>>) -> i32 {
    match reply {
        Some(r) => if has_prefix(r, "error"@) { 1 } else { 0 },
        None => 1,
    }
}

/// The exit code of the command line for `reply` (see [`exit_code`]).
pub fn cli_exit_code(reply: Option<&str>) -> (code: i32)
    ensures
        code == exit_code(
            match reply {
                Some(r) => Some(r@),
                None => None,
            },
        ),
{
    match reply {
        Some(r) => {
            proof {
                reveal_strlit("error");
            }
            if starts_with(r, "error") { 1 } else { 0 }
        },
        None => 1,
    }
}

/// The command fails (exit code 1) exactly when the instance could not be
/// reached or its reply begins with the five letters `error`; it succeeds
/// (0) otherwise.
pub proof fn law_exit_code(reply: Option<Seq<char>>)
    ensures
        exit_code(reply) == 0 || exit_code(reply) == 1,
        exit_code(reply) == 1 <==> (reply is None || (reply->0.len() >= 5 && reply->0.take(5) == seq![
            'e',
            'r',
            'r',
            'o',
            'r',
        ])),
{
    reveal_strlit("error");
    assert("error"@ =~= seq!['e', 'r', 'r', 'o', 'r']);
    if let Some(r) = reply {
        if r.len() >= 5 {
            assert(r.subrange(0, 5) =~= r.take(5));
        }
    }
}

} // verus!
