//! The order in which a folder's images are listed: by file name, or by a
//! number read from each file (time or size), ascending or descending.

use vstd::prelude::*;
use crate::library::{SortKey, SortPlan};

verus! {

/// `a` comes before `b` byte by byte: at the first byte where they differ
/// `a`'s is smaller, or `a` is a proper prefix of `b`. This is how file
/// names of one folder compare.
pub open spec fn bytes_lt(a: Seq<u8>, b: Seq<u8>) -> bool
    decreases a.len(),
{
    if a.len() == 0 {
        b.len() > 0
    } else if b.len() == 0 {
        false
    } else if a[0] != b[0] {
        a[0] < b[0]
    } else {
        bytes_lt(a.drop_first(), b.drop_first())
    }
}

proof fn lemma_bytes_lt_transitive(a: Seq<u8>, b: Seq<u8>, c: Seq<u8>)
    requires
        bytes_lt(a, b),
        bytes_lt(b, c),
    ensures
        bytes_lt(a, c),
    decreases a.len(),
{
    if a.len() > 0 && b.len() > 0 && c.len() > 0 && a[0] == b[0] && b[0] == c[0] {
        lemma_bytes_lt_transitive(a.drop_first(), b.drop_first(), c.drop_first());
    }
}

proof fn lemma_bytes_lt_total(a: Seq<u8>, b: Seq<u8>)
    ensures
        a == b || bytes_lt(a, b) || bytes_lt(b, a),
    decreases a.len(),
{
    if a.len() > 0 && b.len() > 0 && a[0] == b[0] {
        lemma_bytes_lt_total(a.drop_first(), b.drop_first());
        if a.drop_first() == b.drop_first() {
            assert(a =~= seq![a[0]] + a.drop_first());
            assert(b =~= seq![b[0]] + b.drop_first());
        }
    } else if a.len() == 0 && b.len() == 0 {
        assert(a =~= b);
    }
}

/// Whether `a` comes before `b` byte by byte.
fn bytes_less(a: &Vec<u8>, b: &Vec<u8>) -> (r: bool)
    ensures
        r == bytes_lt(a@, b@),
{
    let mut i: usize = 0;
    assert(a@.skip(0) =~= a@ && b@.skip(0) =~= b@);
    while i < a.len() && i < b.len() && a[i] == b[i]
        invariant
            i <= a@.len(),
            i <= b@.len(),
            bytes_lt(a@, b@) == bytes_lt(a@.skip(i as int), b@.skip(i as int)),
        decreases a@.len() - i,
    {
        proof {
            assert(a@.skip(i as int).drop_first() =~= a@.skip(i as int + 1));
            assert(b@.skip(i as int).drop_first() =~= b@.skip(i as int + 1));
        }
        i = i + 1;
    }
    proof {
        if i < a@.len() && i < b@.len() {
            assert(a@.skip(i as int)[0] == a@[i as int]);
            assert(b@.skip(i as int)[0] == b@[i as int]);
        }
    }
    if i == a.len() {
        i < b.len()
    } else if i == b.len() {
        false
    } else {
        a[i] < b[i]
    }
}

/// The byte strings of a list of names.
pub open spec fn byte_texts(v: Seq<Vec<u8>>) -> Seq<Seq<u8>> {
    v.map_values(|b: Vec<u8>| b@)
}

/// Entry `a` of the listing is placed before entry `b`: by name when
/// `by_name`, else by key; entries that tie keep the order they were read in.
pub open spec fn comes_before(names: Seq<Seq<u8>>, keys: Seq<i128>, by_name: bool, a: int, b: int) -> bool {
    if by_name {
        bytes_lt(names[a], names[b]) || (names[a] == names[b] && a < b)
    } else {
        keys[a] < keys[b] || (keys[a] == keys[b] && a < b)
    }
}

/// `order` lists every position `0..n` once.
pub open spec fn permutes(order: Seq<usize>, n: int) -> bool {
    &&& order.len() == n
    &&& forall|p: int| 0 <= p < n ==> #[trigger] order[p] < n
    &&& forall|p: int, q: int| 0 <= p < q < n ==> #[trigger] order[p] != #[trigger] order[q]
}

/// Every entry of `order` is placed before the entries after it.
pub open spec fn ascending(order: Seq<usize>, names: Seq<Seq<u8>>, keys: Seq<i128>, by_name: bool) -> bool {
    forall|p: int, q: int|
        0 <= p < q < order.len() ==> comes_before(names, keys, by_name, #[trigger] order[p] as int, #[trigger] order[q] as int)
}

proof fn lemma_comes_before_transitive(names: Seq<Seq<u8>>, keys: Seq<i128>, by_name: bool, a: int, b: int, c: int)
    requires
        comes_before(names, keys, by_name, a, b),
        comes_before(names, keys, by_name, b, c),
    ensures
        comes_before(names, keys, by_name, a, c),
{
    if by_name {
        if bytes_lt(names[a], names[b]) && bytes_lt(names[b], names[c]) {
            lemma_bytes_lt_transitive(names[a], names[b], names[c]);
        }
    }
}

proof fn lemma_comes_before_total(names: Seq<Seq<u8>>, keys: Seq<i128>, by_name: bool, a: int, b: int)
    requires
        a != b,
    ensures
        comes_before(names, keys, by_name, a, b) || comes_before(names, keys, by_name, b, a),
{
    if by_name {
        lemma_bytes_lt_total(names[a], names[b]);
    }
}

/// Whether entry `a` is placed before entry `b`.
fn comes_first(names: &Vec<Vec<u8>>, keys: &Vec<i128>, by_name: bool, a: usize, b: usize) -> (r: bool)
    requires
        a < names@.len(),
        b < names@.len(),
        names@.len() == keys@.len(),
    ensures
        r == comes_before(byte_texts(names@), keys@, by_name, a as int, b as int),
{
    if by_name {
        let na = &names[a];
        let nb = &names[b];
        proof {
            assert(byte_texts(names@)[a as int] == na@);
            assert(byte_texts(names@)[b as int] == nb@);
        }
        if bytes_less(na, nb) {
            true
        } else if bytes_less(nb, na) {
            false
        } else {
            proof {
                lemma_bytes_lt_total(na@, nb@);
            }
            a < b
        }
    } else {
        keys[a] < keys[b] || (keys[a] == keys[b] && a < b)
    }
}

/// The positions `0..n` in order.
fn positions(n: usize) -> (r: Vec<usize>)
    ensures
        r@.len() == n,
        forall|p: int| 0 <= p < n ==> #[trigger] r@[p] == p,
{
    let mut r: Vec<usize> = Vec::new();
    let mut i: usize = 0;
    while i < n
        invariant
            i <= n,
            r@.len() == i,
            forall|p: int| 0 <= p < i ==> #[trigger] r@[p] == p,
        decreases n - i,
    {
        r.push(i);
        i = i + 1;
    }
    r
}

/// The order in which a folder's entries are listed, as positions in the
/// order they were read: sorted by file name (byte by byte) when the plan's
/// key is the name, else by `keys` (a time or a size per entry), keeping
/// entries that tie in the order they were read; then turned around when the
/// plan is descending.
pub fn sort_listing(names: &Vec<Vec<u8>>, keys: &Vec<i128>, plan: SortPlan) -> (r: Vec<usize>)
    requires
        names@.len() == keys@.len(),
    ensures
        permutes(r@, names@.len() as int),
        !plan.descending ==> ascending(r@, byte_texts(names@), keys@, plan.key == SortKey::Name),
        plan.descending ==> ascending(r@.reverse(), byte_texts(names@), keys@, plan.key == SortKey::Name),
{
    let by_name = match plan.key {
        SortKey::Name => true,
        _ => false,
    };
    let ghost nm = byte_texts(names@);
    let ghost ks = keys@;
    let n = names.len();
    let mut order = positions(n);
    let mut i: usize = 1;
    while i < n
        invariant
            n == names@.len(),
            n == keys@.len(),
            nm == byte_texts(names@),
            ks == keys@,
            1 <= i,
            i <= n || n == 0,
            permutes(order@, n as int),
            forall|p: int, q: int|
                0 <= p < q < i && q < n ==> comes_before(nm, ks, by_name, #[trigger] order@[p] as int, #[trigger] order@[q] as int),
        decreases n - i,
    {
        let mut j: usize = i;
        while j > 0 && comes_first(names, keys, by_name, order[j], order[j - 1])
            invariant
                n == names@.len(),
                n == keys@.len(),
                nm == byte_texts(names@),
                ks == keys@,
                0 <= j <= i < n,
                permutes(order@, n as int),
                forall|p: int, q: int|
                    0 <= p < q <= i && p != j && q != j ==> comes_before(
                        nm,
                        ks,
                        by_name,
                        #[trigger] order@[p] as int,
                        #[trigger] order@[q] as int,
                    ),
                forall|q: int| j < q <= i ==> comes_before(nm, ks, by_name, order@[j as int] as int, #[trigger] order@[q] as int),
            decreases j,
        {
            let a = order[j - 1];
            let b = order[j];
            let ghost before = order@;
            order.set(j - 1, b);
            order.set(j, a);
            proof {
                assert(order@ == before.update(j - 1, b).update(j as int, a));
                assert forall|p: int, q: int| 0 <= p < q < n implies #[trigger] order@[p] != #[trigger] order@[q] by {
                    let pp = if p == j - 1 { j as int } else if p == j { j - 1 } else { p };
                    let qq = if q == j - 1 { j as int } else if q == j { j - 1 } else { q };
                    assert(order@[p] == before[pp]);
                    assert(order@[q] == before[qq]);
                    if pp < qq {
                        assert(before[pp] != before[qq]);
                    } else {
                        assert(before[qq] != before[pp]);
                    }
                }
                assert forall|p: int| 0 <= p < n implies #[trigger] order@[p] < n by {
                    let pp = if p == j - 1 { j as int } else if p == j { j - 1 } else { p };
                    assert(order@[p] == before[pp]);
                }
                assert forall|p: int, q: int|
                    0 <= p < q <= i && p != j - 1 && q != j - 1 implies comes_before(
                        nm,
                        ks,
                        by_name,
                        #[trigger] order@[p] as int,
                        #[trigger] order@[q] as int,
                    ) by {
                    let pp = if p == j { j - 1 } else { p };
                    let qq = if q == j { j - 1 } else { q };
                    assert(order@[p] == before[pp]);
                    assert(order@[q] == before[qq]);
                }
                assert forall|q: int| j - 1 < q <= i implies comes_before(
                    nm,
                    ks,
                    by_name,
                    order@[j - 1] as int,
                    #[trigger] order@[q] as int,
                ) by {
                    assert(order@[j - 1] == before[j as int]);
                    if q == j {
                        assert(order@[q] == before[j - 1]);
                    } else {
                        assert(order@[q] == before[q]);
                    }
                }
            }
            j = j - 1;
        }
        proof {
            if j > 0 {
                lemma_comes_before_total(nm, ks, by_name, order@[j as int] as int, order@[j - 1] as int);
            }
            assert forall|p: int, q: int|
                0 <= p < q < i + 1 && q < n implies comes_before(
                    nm,
                    ks,
                    by_name,
                    #[trigger] order@[p] as int,
                    #[trigger] order@[q] as int,
                ) by {
                if q == j && p < j - 1 {
                    lemma_comes_before_transitive(
                        nm,
                        ks,
                        by_name,
                        order@[p] as int,
                        order@[j - 1] as int,
                        order@[j as int] as int,
                    );
                }
            }
        }
        i = i + 1;
    }
    if plan.descending {
        let mut rev: Vec<usize> = Vec::new();
        let mut k: usize = n;
        while k > 0
            invariant
                k <= n,
                n == order@.len(),
                rev@.len() == n - k,
                forall|p: int| 0 <= p < n - k ==> #[trigger] rev@[p] == order@[n - 1 - p],
            decreases k,
        {
            rev.push(order[k - 1]);
            k = k - 1;
        }
        proof {
            assert(rev@.reverse() =~= order@);
            assert forall|p: int| 0 <= p < n implies #[trigger] rev@[p] < n by {
                assert(rev@[p] == order@[n - 1 - p]);
            }
            assert forall|p: int, q: int| 0 <= p < q < n implies #[trigger] rev@[p] != #[trigger] rev@[q] by {
                assert(rev@[p] == order@[n - 1 - p]);
                assert(rev@[q] == order@[n - 1 - q]);
            }
        }
        rev
    } else {
        order
    }
}

} // verus!
