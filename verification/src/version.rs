//! Release version comparison, used to tell whether a published release is newer
//! than the running one.
use vstd::prelude::*;
use crate::text::chars_of;

verus! {

/// `s` without any leading `'v'` characters (`trim_start_matches('v')`).
pub open spec fn strip_leading_v(s: Seq<char>) -> Seq<char>
    decreases s.len(),
{
    if s.len() > 0 && s[0] == 'v' {
        strip_leading_v(s.drop_first())
    } else {
        s
    }
}

/// The pieces of `s` between `'.'` separators, the current piece being `acc`
/// (`split('.')` on `acc + s`).
pub open spec fn split_dots_from(acc: Seq<char>, s: Seq<char>) -> Seq<Seq<char>>
    decreases s.len(),
{
    if s.len() == 0 {
        seq![acc]
    } else if s[0] == '.' {
        seq![acc] + split_dots_from(Seq::empty(), s.drop_first())
    } else {
        split_dots_from(acc.push(s[0]), s.drop_first())
    }
}

/// The pieces of `s` between `'.'` separators (`s.split('.')`).
pub open spec fn split_dots(s: Seq<char>) -> Seq<Seq<char>> {
    split_dots_from(Seq::empty(), s)
}

pub open spec fn is_digit(c: char) -> bool {
    0x30 <= (c as u32) <= 0x39
}

pub open spec fn all_digits(s: Seq<char>) -> bool {
    forall|i: int| 0 <= i < s.len() ==> is_digit(#[trigger] s[i])
}

/// The number written by the decimal digits `s`.
pub open spec fn digits_value(s: Seq<char>) -> nat
    decreases s.len(),
{
    if s.len() == 0 {
        0
    } else {
        digits_value(s.drop_last()) * 10 + ((s.last() as u32) - 0x30) as nat
    }
}

/// What `str::parse::<u32>` gives: an optional single `'+'`, then at least one
/// decimal digit, and a value that fits in 32 bits.
pub open spec fn parse_u32(s: Seq<char>) -> Option<u32> {
    let d = if s.len() >= 2 && s[0] == '+' { s.drop_first() } else { s };
    if d.len() > 0 && all_digits(d) && digits_value(d) <= u32::MAX {
        Some(digits_value(d) as u32)
    } else {
        None
    }
}

/// Each piece parsed as a `u32`; `None` as soon as one fails.
pub open spec fn parse_all(pieces: Seq<Seq<char>>) -> Option<Seq<u32>>
    decreases pieces.len(),
{
    if pieces.len() == 0 {
        Some(Seq::empty())
    } else {
        match parse_all(pieces.drop_last()) {
            Some(v) => match parse_u32(pieces.last()) {
                Some(x) => Some(v.push(x)),
                None => None,
            },
            None => None,
        }
    }
}

/// The first (at most) three dot-separated numbers of a version string.
pub open spec fn version_parts(s: Seq<char>) -> Option<Seq<u32>> {
    let pieces = split_dots(strip_leading_v(s));
    let k = if pieces.len() < 3 { pieces.len() } else { 3 };
    parse_all(pieces.take(k as int))
}

/// Lexicographic order on number sequences, a proper prefix coming first.
pub open spec fn seq_lt(a: Seq<u32>, b: Seq<u32>) -> bool
    decreases a.len(),
{
    if a.len() == 0 {
        b.len() > 0
    } else if b.len() == 0 {
        false
    } else if a[0] < b[0] {
        true
    } else if a[0] > b[0] {
        false
    } else {
        seq_lt(a.drop_first(), b.drop_first())
    }
}

/// `Some(remote > local)` when both versions parse, `None` otherwise.
pub open spec fn spec_is_newer(local: Seq<char>, remote: Seq<char>) -> Option<bool> {
    match (version_parts(remote), version_parts(local)) {
        (Some(r), Some(l)) => Some(seq_lt(l, r)),
        _ => None,
    }
}

proof fn lemma_split_dots_from_nonempty(acc: Seq<char>, s: Seq<char>)
    ensures
        split_dots_from(acc, s).len() >= 1,
    decreases s.len(),
{
    if s.len() > 0 {
        if s[0] == '.' {
            lemma_split_dots_from_nonempty(Seq::empty(), s.drop_first());
        } else {
            lemma_split_dots_from_nonempty(acc.push(s[0]), s.drop_first());
        }
    }
}

fn strip_v(v: &Vec<char>) -> (start: usize)
    ensures
        start <= v@.len(),
        v@.subrange(start as int, v@.len() as int) == strip_leading_v(v@),
{
    let n = v.len();
    let mut i: usize = 0;
    assert(v@.subrange(0, n as int) =~= v@);
    while i < n && v[i] == 'v'
        invariant
            i <= n == v@.len(),
            strip_leading_v(v@) == strip_leading_v(v@.subrange(i as int, n as int)),
        decreases n - i,
    {
        assert(v@.subrange(i as int, n as int).drop_first() =~= v@.subrange(i + 1, n as int));
        i = i + 1;
    }
    i
}

/// Splits `v[start..]` at every `'.'`.
fn split_dots_exec(v: &Vec<char>, start: usize) -> (pieces: Vec<Vec<char>>)
    requires
        start <= v@.len(),
    ensures
        pieces@.map_values(|p: Vec<char>| p@) == split_dots(v@.subrange(start as int, v@.len() as int)),
{
    let n = v.len();
    let ghost s = v@.subrange(start as int, n as int);
    let mut pieces: Vec<Vec<char>> = Vec::new();
    let mut cur: Vec<char> = Vec::new();
    let mut i = start;
    assert(s.subrange(0, s.len() as int) =~= s);
    while i < n
        invariant
            start <= i <= n == v@.len(),
            s == v@.subrange(start as int, n as int),
            pieces@.map_values(|p: Vec<char>| p@) + split_dots_from(
                cur@,
                v@.subrange(i as int, n as int),
            ) == split_dots(s),
        decreases n - i,
    {
        let ghost rest = v@.subrange(i as int, n as int);
        assert(rest.drop_first() =~= v@.subrange(i + 1, n as int));
        let c = v[i];
        if c == '.' {
            let ghost before = pieces@.map_values(|p: Vec<char>| p@);
            let done = cur;
            pieces.push(done);
            cur = Vec::new();
            assert(pieces@.map_values(|p: Vec<char>| p@) =~= before.push(done@));
            assert(seq![done@] + split_dots_from(Seq::empty(), rest.drop_first()) == split_dots_from(
                done@,
                rest,
            ));
            assert(before + (seq![done@] + split_dots_from(Seq::empty(), rest.drop_first()))
                =~= before.push(done@) + split_dots_from(Seq::empty(), rest.drop_first()));
            assert(cur@ =~= Seq::<char>::empty());
        } else {
            cur.push(c);
        }
        i = i + 1;
    }
    let ghost before = pieces@.map_values(|p: Vec<char>| p@);
    let last = cur;
    pieces.push(last);
    assert(v@.subrange(n as int, n as int) =~= Seq::<char>::empty());
    assert(pieces@.map_values(|p: Vec<char>| p@) =~= before + seq![last@]);
    pieces
}

/// The number `d` holds when it is a decimal digit.
fn digit_value(c: char) -> (r: Option<u64>)
    ensures
        r is Some <==> is_digit(c),
        r matches Some(d) ==> d == (c as u32) - 0x30 && d < 10,
{
    let u = c as u32;
    if 0x30 <= u && u <= 0x39 {
        Some((u - 0x30) as u64)
    } else {
        None
    }
}

/// `str::parse::<u32>` on the characters `s`.
pub fn parse_u32_chars(s: &Vec<char>) -> (r: Option<u32>)
    ensures
        r == parse_u32(s@),
{
    let n = s.len();
    let start: usize = if n >= 2 && s[0] == '+' { 1 } else { 0 };
    let ghost d = if s@.len() >= 2 && s@[0] == '+' { s@.drop_first() } else { s@ };
    assert(d =~= s@.subrange(start as int, n as int));
    if start == n {
        return None;
    }
    let mut value: u64 = 0;
    let mut over = false;
    let mut i = start;
    assert(d.take(0) =~= Seq::<char>::empty());
    while i < n
        invariant
            start <= i <= n == s@.len(),
            d == s@.subrange(start as int, n as int),
            d == (if s@.len() >= 2 && s@[0] == '+' { s@.drop_first() } else { s@ }),
            all_digits(d.take(i - start)),
            over ==> digits_value(d.take(i - start)) > u32::MAX,
            !over ==> value == digits_value(d.take(i - start)) && value <= u32::MAX,
        decreases n - i,
    {
        let k = i - start;
        let ghost pre = d.take(k as int);
        let ghost nxt = d.take(k + 1);
        assert(nxt.drop_last() =~= pre);
        assert(nxt.last() == s@[i as int]);
        match digit_value(s[i]) {
            None => {
                assert(!all_digits(d)) by {
                    assert(!is_digit(d[k as int]));
                }
                return None;
            },
            Some(dv) => {
                assert forall|j: int| 0 <= j < nxt.len() implies is_digit(#[trigger] nxt[j]) by {
                    if j < k {
                        assert(nxt[j] == pre[j]);
                    }
                }
                if !over {
                    let next = value * 10 + dv;
                    if next > 4294967295 {
                        over = true;
                    } else {
                        value = next;
                    }
                }
            },
        }
        i = i + 1;
    }
    assert(d.take(n - start) =~= d);
    if over {
        None
    } else {
        Some(value as u32)
    }
}

/// Parses the first (at most) three pieces; `None` when any of them fails.
fn parse_first_three(pieces: &Vec<Vec<char>>) -> (r: Option<Vec<u32>>)
    ensures
        ({
            let ps = pieces@.map_values(|p: Vec<char>| p@);
            let k = if ps.len() < 3 { ps.len() } else { 3 };
            match r {
                Some(v) => parse_all(ps.take(k as int)) == Some(v@),
                None => parse_all(ps.take(k as int)) is None,
            }
        }),
{
    let ghost ps = pieces@.map_values(|p: Vec<char>| p@);
    let k: usize = if pieces.len() < 3 { pieces.len() } else { 3 };
    assert(ps.len() == pieces@.len());
    let mut out: Vec<u32> = Vec::new();
    let mut i: usize = 0;
    assert(ps.take(0) =~= Seq::<Seq<char>>::empty());
    while i < k
        invariant
            k <= pieces@.len(),
            ps == pieces@.map_values(|p: Vec<char>| p@),
            k == (if ps.len() < 3 { ps.len() } else { 3 }),
            i <= k,
            parse_all(ps.take(i as int)) == Some(out@),
        decreases k - i,
    {
        assert(ps.take(i + 1).drop_last() =~= ps.take(i as int));
        assert(ps.take(i + 1).last() == pieces@[i as int]@);
        match parse_u32_chars(&pieces[i]) {
            Some(x) => {
                out.push(x);
            },
            None => {
                proof {
                    assert(parse_all(ps.take(i + 1)) is None);
                    lemma_parse_all_extend_none(ps, i as int, k as int);
                }
                return None;
            },
        }
        i = i + 1;
    }
    Some(out)
}

proof fn lemma_parse_all_extend_none(ps: Seq<Seq<char>>, i: int, k: int)
    requires
        0 <= i < k <= ps.len(),
        parse_all(ps.take(i + 1)) is None,
    ensures
        parse_all(ps.take(k)) is None,
    decreases k - i,
{
    if k > i + 1 {
        lemma_parse_all_extend_none(ps, i, k - 1);
        assert(ps.take(k).drop_last() =~= ps.take(k - 1));
    }
}

/// The version's first three numbers, when they parse.
fn version_parts_exec(s: &str) -> (r: Option<Vec<u32>>)
    ensures
        match r {
            Some(v) => version_parts(s@) == Some(v@),
            None => version_parts(s@) is None,
        },
{
    let v = chars_of(s);
    let start = strip_v(&v);
    let pieces = split_dots_exec(&v, start);
    parse_first_three(&pieces)
}

/// `a < b` in lexicographic order.
fn lex_less(a: &Vec<u32>, b: &Vec<u32>) -> (r: bool)
    ensures
        r == seq_lt(a@, b@),
{
    let mut i: usize = 0;
    assert(a@.skip(0) =~= a@);
    assert(b@.skip(0) =~= b@);
    while i < a.len() && i < b.len() && a[i] == b[i]
        invariant
            i <= a@.len(),
            i <= b@.len(),
            seq_lt(a@, b@) == seq_lt(a@.skip(i as int), b@.skip(i as int)),
        decreases a.len() - i,
    {
        assert(a@.skip(i as int).drop_first() =~= a@.skip(i + 1));
        assert(b@.skip(i as int).drop_first() =~= b@.skip(i + 1));
        i = i + 1;
    }
    if i == a.len() {
        i < b.len()
    } else if i == b.len() {
        false
    } else {
        assert(a@.skip(i as int)[0] == a@[i as int]);
        assert(b@.skip(i as int)[0] == b@[i as int]);
        a[i] < b[i]
    }
}

/// Whether release `remote` is newer than `local`: each is read as up to three
/// dot-separated numbers after any leading `v`s; `None` when either does not parse.
pub fn is_newer(local: &str, remote: &str) -> (r: Option<bool>)
    ensures
        r == spec_is_newer(local@, remote@),
{
    let rp = version_parts_exec(remote);
    let rp = match rp {
        Some(x) => x,
        None => return None,
    };
    let lp = version_parts_exec(local);
    let lp = match lp {
        Some(x) => x,
        None => return None,
    };
    Some(lex_less(&lp, &rp))
}

proof fn lemma_seq_lt_asym(a: Seq<u32>, b: Seq<u32>)
    ensures
        !(seq_lt(a, b) && seq_lt(b, a)),
    decreases a.len(),
{
    if a.len() > 0 && b.len() > 0 && a[0] == b[0] {
        lemma_seq_lt_asym(a.drop_first(), b.drop_first());
    }
}

proof fn lemma_seq_lt_irrefl(a: Seq<u32>)
    ensures
        !seq_lt(a, a),
    decreases a.len(),
{
    if a.len() > 0 {
        lemma_seq_lt_irrefl(a.drop_first());
    }
}

proof fn lemma_seq_lt_trans(a: Seq<u32>, b: Seq<u32>, c: Seq<u32>)
    requires
        seq_lt(a, b),
        seq_lt(b, c),
    ensures
        seq_lt(a, c),
    decreases a.len(),
{
    if a.len() > 0 && b.len() > 0 && c.len() > 0 && a[0] == b[0] && b[0] == c[0] {
        lemma_seq_lt_trans(a.drop_first(), b.drop_first(), c.drop_first());
    }
}

/// The notice shown when release `tag` is newer than the running version `local`.
pub fn update_notice(local: &str, tag: &str) -> (r: Option<String>)
    ensures
        r is Some <==> spec_is_newer(local@, tag@) == Some(true),
        r matches Some(m) ==> m@ == "update available → "@ + tag@,
{
    match is_newer(local, tag) {
        Some(true) => {
            let mut m = String::from_str("update available → ");
            m.append(tag);
            Some(m)
        },
        _ => None,
    }
}

/// A version is never newer than itself.
pub proof fn law_is_newer_irreflexive(v: Seq<char>)
    ensures
        spec_is_newer(v, v) != Some(true),
{
    if let Some(p) = version_parts(v) {
        lemma_seq_lt_irrefl(p);
    }
}

/// If `b` is newer than `a`, then `a` is not newer than `b`.
pub proof fn law_is_newer_asymmetric(a: Seq<char>, b: Seq<char>)
    requires
        spec_is_newer(a, b) == Some(true),
    ensures
        spec_is_newer(b, a) == Some(false),
{
    lemma_seq_lt_asym(version_parts(a).unwrap(), version_parts(b).unwrap());
}

/// Newer-than is transitive: `c` newer than `b` newer than `a` makes `c` newer than `a`.
pub proof fn law_is_newer_transitive(a: Seq<char>, b: Seq<char>, c: Seq<char>)
    requires
        spec_is_newer(a, b) == Some(true),
        spec_is_newer(b, c) == Some(true),
    ensures
        spec_is_newer(a, c) == Some(true),
{
    lemma_seq_lt_trans(version_parts(a).unwrap(), version_parts(b).unwrap(), version_parts(c).unwrap());
}

} // verus!
