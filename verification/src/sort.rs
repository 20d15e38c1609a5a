//! Stable ordering of records by a text key, in the order `String`'s `Ord` gives:
//! byte order of UTF-8, which is the order of the characters' code points.
use vstd::prelude::*;

verus! {

/// `a` comes strictly before `b` in code-point lexicographic order.
pub open spec fn text_lt(a: Seq<char>, b: Seq<char>) -> bool
    decreases a.len(),
{
    if a.len() == 0 {
        b.len() > 0
    } else if b.len() == 0 {
        false
    } else if (a[0] as int) < (b[0] as int) {
        true
    } else if (a[0] as int) > (b[0] as int) {
        false
    } else {
        text_lt(a.drop_first(), b.drop_first())
    }
}

/// Key `a` goes strictly before key `b`: ascending, or descending when `desc`.
pub open spec fn goes_before(a: Seq<char>, b: Seq<char>, desc: bool) -> bool {
    if desc { text_lt(b, a) } else { text_lt(a, b) }
}

/// `p` lists each of `0..n` exactly once.
pub open spec fn is_permutation(p: Seq<usize>, n: nat) -> bool {
    &&& p.len() == n
    &&& forall|i: int| 0 <= i < n ==> #[trigger] p[i] < n
    &&& forall|i: int, j: int| 0 <= i < j < n ==> p[i] != p[j]
}

/// `p` orders `keys` (ascending, or descending when `desc`), and records with
/// equal keys keep the order they came in.
pub open spec fn is_stable_order(keys: Seq<Seq<char>>, p: Seq<usize>, desc: bool) -> bool {
    &&& is_permutation(p, keys.len())
    &&& forall|i: int, j: int|
        0 <= i < j < p.len() ==> !goes_before(keys[p[j] as int], keys[p[i] as int], desc)
    &&& forall|i: int, j: int|
        0 <= i < j < p.len() && keys[p[i] as int] == keys[p[j] as int] ==> p[i] < p[j]
}

/// The records of `items` taken in the order `p`.
pub open spec fn permuted<T>(items: Seq<T>, p: Seq<usize>) -> Seq<T> {
    p.map_values(|i: usize| items[i as int])
}

proof fn lemma_text_lt_irrefl(a: Seq<char>)
    ensures
        !text_lt(a, a),
    decreases a.len(),
{
    if a.len() > 0 {
        lemma_text_lt_irrefl(a.drop_first());
    }
}

proof fn lemma_text_lt_trans(a: Seq<char>, b: Seq<char>, c: Seq<char>)
    requires
        text_lt(a, b),
        text_lt(b, c),
    ensures
        text_lt(a, c),
    decreases a.len(),
{
    if a.len() > 0 && b.len() > 0 && c.len() > 0 && a[0] == b[0] && b[0] == c[0] {
        lemma_text_lt_trans(a.drop_first(), b.drop_first(), c.drop_first());
    }
}

proof fn lemma_text_lt_total(a: Seq<char>, b: Seq<char>)
    ensures
        a == b || text_lt(a, b) || text_lt(b, a),
    decreases a.len(),
{
    if a.len() > 0 && b.len() > 0 && a[0] == b[0] {
        lemma_text_lt_total(a.drop_first(), b.drop_first());
        if a.drop_first() == b.drop_first() {
            assert(a =~= seq![a[0]] + a.drop_first());
            assert(b =~= seq![b[0]] + b.drop_first());
        }
    } else if a.len() == 0 && b.len() == 0 {
        assert(a =~= b);
    }
}

proof fn lemma_text_lt_asym(a: Seq<char>, b: Seq<char>)
    ensures
        !(text_lt(a, b) && text_lt(b, a)),
{
    if text_lt(a, b) && text_lt(b, a) {
        lemma_text_lt_trans(a, b, a);
        lemma_text_lt_irrefl(a);
    }
}

/// Not going before is transitive: `a ≤ b ≤ c` gives `a ≤ c`.
proof fn lemma_not_before_trans(a: Seq<char>, b: Seq<char>, c: Seq<char>, desc: bool)
    requires
        !goes_before(b, a, desc),
        !goes_before(c, b, desc),
    ensures
        !goes_before(c, a, desc),
{
    if desc {
        if text_lt(a, c) {
            lemma_text_lt_total(b, c);
            if b != c {
                lemma_text_lt_trans(a, c, b);
            }
        }
    } else {
        if text_lt(c, a) {
            lemma_text_lt_total(a, b);
            if a != b {
                lemma_text_lt_trans(c, a, b);
            }
        }
    }
}

/// Whether `a` comes strictly before `b` in code-point order.
pub fn text_less(a: &Vec<char>, b: &Vec<char>) -> (r: bool)
    ensures
        r == text_lt(a@, b@),
{
    let mut i: usize = 0;
    assert(a@.skip(0) =~= a@);
    assert(b@.skip(0) =~= b@);
    while i < a.len() && i < b.len() && a[i] == b[i]
        invariant
            i <= a@.len(),
            i <= b@.len(),
            text_lt(a@, b@) == text_lt(a@.skip(i as int), b@.skip(i as int)),
        decreases a.len() - i,
    {
        assert(a@.skip(i as int).drop_first() =~= a@.skip(i + 1));
        assert(b@.skip(i as int).drop_first() =~= b@.skip(i + 1));
        i = i + 1;
    }
    if i == a.len() {
        i < b.len()
    } else if i == b.len() {
        false
    } else {
        assert(a@.skip(i as int)[0] == a@[i as int]);
        assert(b@.skip(i as int)[0] == b@[i as int]);
        a[i] < b[i]
    }
}

fn before_exec(a: &Vec<char>, b: &Vec<char>, desc: bool) -> (r: bool)
    ensures
        r == goes_before(a@, b@, desc),
{
    if desc {
        text_less(b, a)
    } else {
        text_less(a, b)
    }
}

/// The views of a list of character vectors.
pub open spec fn keys_view(keys: Seq<Vec<char>>) -> Seq<Seq<char>> {
    keys.map_values(|k: Vec<char>| k@)
}

/// The stable order of `keys`: ascending, or descending when `desc`.
pub fn stable_order(keys: &Vec<Vec<char>>, desc: bool) -> (p: Vec<usize>)
    ensures
        is_stable_order(keys_view(keys@), p@, desc),
{
    let ghost ks = keys_view(keys@);
    let n = keys.len();
    let mut order: Vec<usize> = Vec::new();
    let mut k = n;
    while k > 0
        invariant
            n == keys@.len() == ks.len(),
            ks == keys_view(keys@),
            k <= n,
            order@.len() == n - k,
            forall|i: int| 0 <= i < order@.len() ==> k <= #[trigger] order@[i] < n,
            forall|i: int, j: int| 0 <= i < j < order@.len() ==> order@[i] != order@[j],
            forall|i: int, j: int|
                0 <= i < j < order@.len() ==> !goes_before(
                    ks[order@[j] as int],
                    ks[order@[i] as int],
                    desc,
                ),
            forall|i: int, j: int|
                0 <= i < j < order@.len() && ks[order@[i] as int] == ks[order@[j] as int]
                    ==> order@[i] < order@[j],
        decreases k,
    {
        k = k - 1;
        let mut p: usize = 0;
        while p < order.len() && before_exec(&keys[order[p]], &keys[k], desc)
            invariant
                n == keys@.len() == ks.len(),
                ks == keys_view(keys@),
                k < n,
                p <= order@.len(),
                forall|i: int| 0 <= i < order@.len() ==> k < #[trigger] order@[i] < n,
                forall|i: int| 0 <= i < p ==> goes_before(ks[order@[i] as int], ks[k as int], desc),
            decreases order.len() - p,
        {
            p = p + 1;
        }
        let ghost old_order = order@;
        proof {
            if p < old_order.len() {
                assert(!goes_before(ks[old_order[p as int] as int], ks[k as int], desc));
                assert forall|j: int| p <= j < old_order.len() implies !goes_before(
                    ks[old_order[j] as int],
                    ks[k as int],
                    desc,
                ) by {
                    if j > p {
                        lemma_not_before_trans(
                            ks[k as int],
                            ks[old_order[p as int] as int],
                            ks[old_order[j] as int],
                            desc,
                        );
                    }
                }
            }
        }
        order.insert(p, k);
        proof {
            let o = order@;
            assert(o =~= old_order.insert(p as int, k));
            assert forall|i: int, j: int| 0 <= i < j < o.len() implies !goes_before(
                ks[o[j] as int],
                ks[o[i] as int],
                desc,
            ) by {
                if i == p {
                    assert(o[j] == old_order[j - 1]);
                } else if j == p {
                    assert(o[i] == old_order[i]);
                    lemma_text_lt_asym(ks[o[i] as int], ks[k as int]);
                } else if i < p && j < p {
                    assert(o[i] == old_order[i] && o[j] == old_order[j]);
                } else if i < p {
                    assert(o[i] == old_order[i] && o[j] == old_order[j - 1]);
                } else {
                    assert(o[i] == old_order[i - 1] && o[j] == old_order[j - 1]);
                }
            }
            assert forall|i: int, j: int|
                0 <= i < j < o.len() && ks[o[i] as int] == ks[o[j] as int] implies o[i] < o[j] by {
                if i == p {
                    assert(o[j] == old_order[j - 1]);
                } else if j == p {
                    assert(o[i] == old_order[i]);
                    lemma_text_lt_irrefl(ks[k as int]);
                } else if i < p && j < p {
                    assert(o[i] == old_order[i] && o[j] == old_order[j]);
                } else if i < p {
                    assert(o[i] == old_order[i] && o[j] == old_order[j - 1]);
                } else {
                    assert(o[i] == old_order[i - 1] && o[j] == old_order[j - 1]);
                }
            }
            assert forall|i: int, j: int| 0 <= i < j < o.len() implies o[i] != o[j] by {
                if i == p {
                    assert(o[j] == old_order[j - 1]);
                } else if j == p {
                    assert(o[i] == old_order[i]);
                } else if i < p && j < p {
                    assert(o[i] == old_order[i] && o[j] == old_order[j]);
                } else if i < p {
                    assert(o[i] == old_order[i] && o[j] == old_order[j - 1]);
                } else {
                    assert(o[i] == old_order[i - 1] && o[j] == old_order[j - 1]);
                }
            }
            assert forall|i: int| 0 <= i < o.len() implies k <= #[trigger] o[i] < n by {
                if i < p {
                    assert(o[i] == old_order[i]);
                } else if i > p {
                    assert(o[i] == old_order[i - 1]);
                }
            }
        }
    }
    order
}

/// Moves the records of `items` into the order `p`.
pub fn apply_order<T>(items: Vec<T>, p: &Vec<usize>) -> (out: Vec<T>)
    requires
        is_permutation(p@, items@.len()),
    ensures
        out@ == permuted(items@, p@),
{
    let ghost orig = items@;
    let n = items.len();
    let mut slots: Vec<Option<T>> = Vec::new();
    let mut items = items;
    // Fill `slots` with `Some` of each item, in the incoming order.
    let mut rev: Vec<T> = Vec::new();
    while items.len() > 0
        invariant
            items@.len() + rev@.len() == n == orig.len(),
            forall|i: int| 0 <= i < items@.len() ==> #[trigger] items@[i] == orig[i],
            forall|i: int|
                0 <= i < rev@.len() ==> #[trigger] rev@[i] == orig[n - 1 - i],
        decreases items.len(),
    {
        let x = items.pop().unwrap();
        rev.push(x);
    }
    while rev.len() > 0
        invariant
            rev@.len() + slots@.len() == n == orig.len(),
            forall|i: int|
                0 <= i < rev@.len() ==> #[trigger] rev@[i] == orig[n - 1 - i],
            forall|i: int| 0 <= i < slots@.len() ==> #[trigger] slots@[i] == Some(orig[i]),
        decreases rev.len(),
    {
        let x = rev.pop().unwrap();
        slots.push(Some(x));
    }
    let mut out: Vec<T> = Vec::new();
    let mut k: usize = 0;
    while k < n
        invariant
            is_permutation(p@, n as nat),
            slots@.len() == n == orig.len(),
            k <= n,
            out@ == permuted(orig, p@).take(k as int),
            forall|i: int|
                0 <= i < n ==> (#[trigger] slots@[i] == Some(orig[i]) || exists|j: int|
                    0 <= j < k && p@[j] == i),
            forall|j: int| 0 <= j < n && k <= j ==> #[trigger] slots@[p@[j] as int] == Some(
                orig[p@[j] as int],
            ),
        decreases n - k,
    {
        let idx = p[k];
        let slot = slots.remove(idx);
        slots.insert(idx, None);
        let x = slot.unwrap();
        out.push(x);
        proof {
            assert forall|j: int| 0 <= j < n && k + 1 <= j implies #[trigger] slots@[p@[j] as int]
                == Some(orig[p@[j] as int]) by {
                assert(p@[j] != p@[k as int]);
            }
            assert forall|i: int|
                0 <= i < n implies (#[trigger] slots@[i] == Some(orig[i]) || exists|j: int|
                    0 <= j < k + 1 && p@[j] == i) by {
                if i == idx as int {
                    assert(p@[k as int] == i);
                }
            }
        }
        k = k + 1;
        assert(out@ =~= permuted(orig, p@).take(k as int));
    }
    assert(permuted(orig, p@).take(n as int) =~= permuted(orig, p@));
    out
}

} // verus!
