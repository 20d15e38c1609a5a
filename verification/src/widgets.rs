//! Text helpers of the screens: fixed-width columns, the tail of a long text,
//! the completion hint of the client field, and how long ago something happened.
use vstd::prelude::*;
use crate::dates::{seconds_since, spec_parses_rfc3339};
use crate::models::Client;
use crate::text::{byte_len, byte_suffix, char_boundary, chars_of, i64_text, int_text, is_char_boundary, lowercase_chars, owned, push_char, spec_to_lowercase, string_of_range, suffix_bytes, utf8_bytes};
use crate::updates::{client_by_prefix, find_client_by_prefix};

verus! {

/// `k` spaces.
pub open spec fn spaces(k: nat) -> Seq<char> {
    Seq::new(k, |i: int| ' ')
}

/// `s` cut to at most `n` characters, then padded with spaces to exactly `n`.
pub open spec fn column(s: Seq<char>, n: nat) -> Seq<char> {
    if s.len() >= n {
        s.take(n as int)
    } else {
        s + spaces((n - s.len()) as nat)
    }
}

/// Truncates `s` to at most `n` characters, then pads it with spaces to exactly `n`.
pub fn col(s: &str, n: usize) -> (r: String)
    ensures
        r@ == column(s@, n as nat),
{
    let v = chars_of(s);
    let take = if v.len() < n { v.len() } else { n };
    let mut out = string_of_range(&v, 0, take);
    let mut k: usize = take;
    while k < n
        invariant
            take <= k <= n,
            take == (if v@.len() < n { v@.len() } else { n as nat }),
            out@ == v@.subrange(0, take as int) + spaces((k - take) as nat),
        decreases n - k,
    {
        push_char(&mut out, ' ');
        k = k + 1;
        assert(out@ =~= v@.subrange(0, take as int) + spaces((k - take) as nat));
    }
    assert(out@ =~= column(s@, n as nat));
    out
}

/// The last `n` characters of `s` (all of it when shorter).
pub open spec fn tail(s: Seq<char>, n: nat) -> Seq<char> {
    if s.len() <= n { s } else { s.skip(s.len() - n) }
}

/// The last `n` characters of `s` (all of `s` when it is shorter).
pub fn tail_chars(s: &str, n: usize) -> (r: String)
    ensures
        r@ == tail(s@, n as nat),
{
    let v = chars_of(s);
    let len = v.len();
    if len <= n {
        string_of_range(&v, 0, len)
    } else {
        string_of_range(&v, len - n, len)
    }
}

/// The completion shown after the typed client name: the rest (from the typed
/// byte length on) of the first client whose lower-cased name begins with the
/// lower-cased text.
pub open spec fn ghost_text(typed: Seq<char>, clients: Seq<Client>) -> Seq<char> {
    if typed.len() == 0 {
        Seq::empty()
    } else {
        match client_by_prefix(clients, spec_to_lowercase(typed)) {
            Some(c) => byte_suffix(c.name@, utf8_bytes(typed).len() as int),
            None => Seq::empty(),
        }
    }
}

/// The completion can be cut from the matching name: its typed byte length falls
/// on a character boundary of the name.
pub open spec fn ghost_cut_ok(typed: Seq<char>, clients: Seq<Client>) -> bool {
    typed.len() > 0 ==> match client_by_prefix(clients, spec_to_lowercase(typed)) {
        Some(c) => utf8_bytes(typed).len() <= utf8_bytes(c.name@).len() && char_boundary(
            c.name@,
            utf8_bytes(typed).len() as int,
        ),
        None => true,
    }
}

/// The completion hint for the client field holding `typed`.
pub fn client_ghost(typed: &str, clients: &Vec<Client>) -> (r: String)
    requires
        ghost_cut_ok(typed@, clients@),
    ensures
        r@ == ghost_text(typed@, clients@),
{
    if typed.unicode_len() == 0 {
        return String::new();
    }
    let lower = lowercase_chars(typed);
    match find_client_by_prefix(clients, &lower) {
        Some(c) => owned(suffix_bytes(c.name.as_str(), byte_len(typed))),
        None => String::new(),
    }
}

/// Whether the completion hint for `typed` can be cut from the matching name.
pub fn client_ghost_fits(typed: &str, clients: &Vec<Client>) -> (b: bool)
    ensures
        b == ghost_cut_ok(typed@, clients@),
{
    if typed.unicode_len() == 0 {
        return true;
    }
    let lower = lowercase_chars(typed);
    match find_client_by_prefix(clients, &lower) {
        Some(c) => {
            let n = byte_len(typed);
            n <= byte_len(c.name.as_str()) && is_char_boundary(c.name.as_str(), n)
        },
        None => true,
    }
}

/// How long ago something happened, `secs` seconds back: seconds below a minute,
/// then minutes, hours, `yesterday` (under two days) and days.
pub open spec fn relative_text(secs: int) -> Seq<char> {
    if secs < 60 {
        int_text(secs) + "s"@
    } else if secs < 3600 {
        int_text(secs / 60) + "min"@
    } else if secs < 86400 {
        int_text(secs / 3600) + "h"@
    } else if secs < 172800 {
        "yesterday"@
    } else {
        int_text(secs / 86400) + "d"@
    }
}

/// Writes an age of `secs` seconds as `relative_text` does.
pub fn relative_age(secs: i64) -> (r: String)
    ensures
        r@ == relative_text(secs as int),
{
    let mut r;
    if secs < 60 {
        r = i64_text(secs);
        r.append("s");
    } else if secs < 3600 {
        r = i64_text(secs / 60);
        r.append("min");
    } else if secs < 86400 {
        r = i64_text(secs / 3600);
        r.append("h");
    } else if secs < 172800 {
        r = owned("yesterday");
    } else {
        r = i64_text(secs / 86400);
        r.append("d");
    }
    r
}

/// How long ago the RFC 3339 time `iso` was, or `iso` itself when it does not
/// parse.
pub fn relative_time(iso: &str) -> (r: String)
    ensures
        spec_parses_rfc3339(iso@) ==> exists|secs: i64| r@ == relative_text(secs as int),
        !spec_parses_rfc3339(iso@) ==> r@ == iso@,
{
    match seconds_since(iso) {
        Some(secs) => relative_age(secs),
        None => owned(iso),
    }
}

} // verus!
