//! The listing of readings that still wait for delivery, oldest first.
use vstd::prelude::*;
use crate::store::{DBData, listed_before, is_pending_listing};

verus! {

/// Whether one of the first `i` rows is `r`.
pub open spec fn seen(rows: Seq<DBData>, i: int, r: DBData) -> bool {
    exists|k: int| 0 <= k < i && rows[k] == r
}

/// Whether no two rows share an identifier.
pub open spec fn distinct_ids(rows: Seq<DBData>) -> bool {
    forall|i: int, j: int|
        0 <= i < rows.len() && 0 <= j < rows.len() && i != j ==> (#[trigger] rows[i]).id != (
        #[trigger] rows[j]).id
}

/// Whether `s` is in listing order.
pub open spec fn in_listing_order(s: Seq<DBData>) -> bool {
    forall|i: int, j: int| 0 <= i < j < s.len() ==> listed_before(s[i], s[j])
}

/// Whether `a` is listed before `b`.
pub fn comes_before(a: &DBData, b: &DBData) -> (r: bool)
    ensures
        r == listed_before(*a, *b),
{
    a.timestamp < b.timestamp || (a.timestamp == b.timestamp && a.id < b.id)
}

/// Inserting a row adds that row to what a sequence contains, and nothing else.
pub proof fn lemma_insert_contains(s: Seq<DBData>, p: int, r: DBData, x: DBData)
    requires
        0 <= p <= s.len(),
    ensures
        s.insert(p, r).contains(x) <==> (s.contains(x) || x == r),
{
    let t = s.insert(p, r);
    if t.contains(x) {
        let i = choose|i: int| 0 <= i < t.len() && t[i] == x;
        if i < p {
            assert(s[i] == x);
        } else if i > p {
            assert(s[i - 1] == x);
        }
    }
    if s.contains(x) {
        let i = choose|i: int| 0 <= i < s.len() && s[i] == x;
        if i < p {
            assert(t[i] == x);
        } else {
            assert(t[i + 1] == x);
        }
    }
    if x == r {
        assert(t[p] == x);
    }
}

/// Two sequences in listing order that contain the same rows are the same
/// sequence.
pub proof fn lemma_listing_order_is_unique(a: Seq<DBData>, b: Seq<DBData>)
    requires
        in_listing_order(a),
        in_listing_order(b),
        forall|x: DBData| a.contains(x) <==> b.contains(x),
    ensures
        a == b,
    decreases a.len(),
{
    if a.len() == 0 {
        if b.len() > 0 {
            assert(b.contains(b[0]));
            assert(a.contains(b[0]));
        }
        assert(a =~= b);
    } else {
        let la = a.last();
        assert(a.contains(la));
        assert(b.contains(la));
        let lb = b.last();
        assert(b.contains(lb));
        assert(a.contains(lb));
        let j = choose|j: int| 0 <= j < b.len() && b[j] == la;
        let i = choose|i: int| 0 <= i < a.len() && a[i] == lb;
        if j < b.len() - 1 {
            assert(listed_before(b[j], b[b.len() - 1]));
            if i < a.len() - 1 {
                assert(listed_before(a[i], a[a.len() - 1]));
            }
        }
        assert(la == lb);
        let fa = a.drop_last();
        let fb = b.drop_last();
        assert forall|x: DBData| fa.contains(x) <==> fb.contains(x) by {
            if fa.contains(x) {
                let k = choose|k: int| 0 <= k < fa.len() && fa[k] == x;
                assert(a[k] == x);
                assert(listed_before(a[k], a[a.len() - 1]));
                assert(a.contains(x));
                let m = choose|m: int| 0 <= m < b.len() && b[m] == x;
                assert(m < b.len() - 1);
                assert(fb[m] == x);
            }
            if fb.contains(x) {
                let k = choose|k: int| 0 <= k < fb.len() && fb[k] == x;
                assert(b[k] == x);
                assert(listed_before(b[k], b[b.len() - 1]));
                assert(b.contains(x));
                let m = choose|m: int| 0 <= m < a.len() && a[m] == x;
                assert(m < a.len() - 1);
                assert(fa[m] == x);
            }
        }
        assert forall|p: int, q: int| 0 <= p < q < fa.len() implies listed_before(fa[p], fa[q]) by {
            assert(listed_before(a[p], a[q]));
        }
        assert forall|p: int, q: int| 0 <= p < q < fb.len() implies listed_before(fb[p], fb[q]) by {
            assert(listed_before(b[p], b[q]));
        }
        lemma_listing_order_is_unique(fa, fb);
        assert(a =~= fa.push(la));
        assert(b =~= fb.push(lb));
    }
}

/// Lists the readings of `rows` that are not acknowledged, by capture time
/// and, among equal times, by identifier.
pub fn pending_oldest_first(rows: &Vec<DBData>) -> (out: Vec<DBData>)
    requires
        distinct_ids(rows@),
    ensures
        is_pending_listing(rows@, out@),
{
    let mut out: Vec<DBData> = Vec::new();
    let mut i: usize = 0;
    while i < rows.len()
        invariant
            i <= rows.len(),
            distinct_ids(rows@),
            in_listing_order(out@),
            forall|r: DBData| out@.contains(r) <==> (seen(rows@, i as int, r) && !r.synced),
        decreases rows.len() - i,
    {
        let r: DBData = rows[i];
        if !r.synced {
            let mut p: usize = 0;
            while p < out.len() && comes_before(&out[p], &r)
                invariant
                    p <= out.len(),
                    forall|j: int| 0 <= j < p ==> listed_before(out@[j], r),
                decreases out.len() - p,
            {
                p += 1;
            }
            proof {
                assert forall|j: int| p <= j < out@.len() implies listed_before(r, out@[j]) by {
                    assert(out@.contains(out@[j]));
                    let k = choose|k: int| 0 <= k < i && rows@[k] == out@[j];
                    assert(rows@[k].id != rows@[i as int].id);
                    assert(out@.contains(out@[p as int]));
                    let kp = choose|k: int| 0 <= k < i && rows@[k] == out@[p as int];
                    assert(rows@[kp].id != rows@[i as int].id);
                    if j > p {
                        assert(listed_before(out@[p as int], out@[j]));
                    }
                }
                let t = out@.insert(p as int, r);
                assert forall|a: int, b: int| 0 <= a < b < t.len() implies listed_before(
                    t[a],
                    t[b],
                ) by {
                    if b < p {
                        assert(t[a] == out@[a] && t[b] == out@[b]);
                    } else if b == p {
                        assert(t[a] == out@[a]);
                    } else if a < p {
                        assert(t[a] == out@[a] && t[b] == out@[b - 1]);
                    } else if a == p {
                        assert(t[b] == out@[b - 1]);
                    } else {
                        assert(t[a] == out@[a - 1] && t[b] == out@[b - 1]);
                    }
                }
                assert forall|x: DBData| t.contains(x) <==> (seen(rows@, i + 1, x) && !x.synced) by {
                    lemma_insert_contains(out@, p as int, r, x);
                    if seen(rows@, i + 1, x) {
                        let k = choose|k: int| 0 <= k < i + 1 && rows@[k] == x;
                        if k < i {
                            assert(seen(rows@, i as int, x));
                        }
                    }
                    if seen(rows@, i as int, x) {
                        let k = choose|k: int| 0 <= k < i && rows@[k] == x;
                        assert(0 <= k < i + 1 && rows@[k] == x);
                    }
                    if x == r {
                        assert(rows@[i as int] == x);
                    }
                }
            }
            out.insert(p, r);
        } else {
            proof {
                assert forall|x: DBData| out@.contains(x) <==> (seen(rows@, i + 1, x) && !x.synced) by {
                    if seen(rows@, i + 1, x) && !x.synced {
                        let k = choose|k: int| 0 <= k < i + 1 && rows@[k] == x;
                        assert(k < i);
                        assert(seen(rows@, i as int, x));
                    }
                    if seen(rows@, i as int, x) {
                        let k = choose|k: int| 0 <= k < i && rows@[k] == x;
                        assert(0 <= k < i + 1 && rows@[k] == x);
                    }
                }
            }
        }
        i += 1;
    }
    proof {
        assert forall|x: DBData| out@.contains(x) <==> (rows@.contains(x) && !x.synced) by {
            if rows@.contains(x) {
                let k = choose|k: int| 0 <= k < rows@.len() && rows@[k] == x;
                assert(seen(rows@, i as int, x));
            }
            if seen(rows@, i as int, x) {
                let k = choose|k: int| 0 <= k < i && rows@[k] == x;
                assert(rows@[k] == x);
            }
        }
    }
    out
}

} // verus!
