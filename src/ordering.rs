//! Ordering of simplex vertices by their objective values.
//!
//! A value reaches this module as an unsigned key whose integer order is the
//! order of the values (see `order_key`), so that the vertex order can be
//! stated and proved over integers.
use vstd::prelude::*;

verus! {

/// The sign bit of a 64-bit IEEE-754 pattern.
pub const SIGN_BIT: u64 = 0x8000_0000_0000_0000;

/// The key of a 64-bit IEEE-754 bit pattern: negative patterns (sign bit set)
/// are mirrored below every non-negative one, so that a larger magnitude gives
/// a smaller key, and non-negative patterns keep their order above them.
pub open spec fn key_of(bits: u64) -> int {
    if bits >= SIGN_BIT {
        u64::MAX - bits
    } else {
        bits + SIGN_BIT
    }
}

/// Keys follow sign-magnitude order: among non-negative patterns a larger
/// pattern has a larger key, among negative ones a larger pattern (a larger
/// magnitude) has a smaller key, and every negative pattern is below every
/// non-negative one.
pub proof fn lemma_key_order(a: u64, b: u64)
    ensures
        a < SIGN_BIT && b < SIGN_BIT ==> (a < b <==> key_of(a) < key_of(b)),
        a >= SIGN_BIT && b >= SIGN_BIT ==> (a < b <==> key_of(b) < key_of(a)),
        a >= SIGN_BIT && b < SIGN_BIT ==> key_of(a) < key_of(b),
{
}

/// The order key of the bit pattern `bits`.
pub fn order_key(bits: u64) -> (r: u64)
    ensures
        r == key_of(bits),
{
    if bits & SIGN_BIT != 0 {
        assert(bits & 0x8000_0000_0000_0000u64 != 0 ==> !bits == 0xffff_ffff_ffff_ffffu64 - bits)
            by (bit_vector);
        assert(bits & 0x8000_0000_0000_0000u64 != 0 ==> bits >= 0x8000_0000_0000_0000u64)
            by (bit_vector);
        !bits
    } else {
        assert(bits & 0x8000_0000_0000_0000u64 == 0 ==> (bits | 0x8000_0000_0000_0000u64)
            == bits + 0x8000_0000_0000_0000u64 && bits < 0x8000_0000_0000_0000u64) by (bit_vector);
        bits | SIGN_BIT
    }
}

/// Vertex `a` comes before vertex `b`: a lower key, or an equal key and a
/// lower index, so that equal values keep the order they had.
pub open spec fn precedes(keys: Seq<u64>, a: int, b: int) -> bool {
    keys[a] < keys[b] || (keys[a] == keys[b] && a < b)
}

/// `r` lists every vertex index of `keys` once, ascending by key, ties in
/// index order.
pub open spec fn is_vertex_order(keys: Seq<u64>, r: Seq<usize>) -> bool {
    &&& r.len() == keys.len()
    &&& forall|i: int| 0 <= i < r.len() ==> #[trigger] r[i] < keys.len()
    &&& forall|j: usize| j < keys.len() ==> #[trigger] r.contains(j)
    &&& forall|i: int, j: int|
        0 <= i < j < r.len() ==> precedes(keys, #[trigger] r[i] as int, #[trigger] r[j] as int)
}

/// The indices of the vertices, sorted ascending by key; a stable sort.
pub fn vertex_order(keys: &Vec<u64>) -> (r: Vec<usize>)
    ensures
        is_vertex_order(keys@, r@),
{
    let n: usize = keys.len();
    let mut r: Vec<usize> = Vec::new();
    let mut k: usize = 0;
    while k < n
        invariant
            k <= n,
            n == keys.len(),
            r.len() == k,
            forall|i: int| 0 <= i < r.len() ==> #[trigger] r[i] < k,
            forall|j: usize| j < k ==> #[trigger] r@.contains(j),
            forall|i: int, j: int|
                0 <= i < j < r.len() ==> precedes(keys@, #[trigger] r[i] as int, #[trigger] r[j] as int),
        decreases n - k,
    {
        let mut p: usize = 0;
        while p < r.len() && keys[r[p]] <= keys[k]
            invariant
                p <= r.len(),
                k < n,
                n == keys.len(),
                forall|i: int| 0 <= i < r.len() ==> #[trigger] r[i] < k,
                forall|i: int| 0 <= i < p ==> keys@[#[trigger] r[i] as int] <= keys@[k as int],
            decreases r.len() - p,
        {
            p = p + 1;
        }
        let ghost old_r = r@;
        assert forall|i: int| p <= i < old_r.len() implies keys@[#[trigger] old_r[i] as int]
            > keys@[k as int] by {
            if i > p {
                assert(precedes(keys@, old_r[p as int] as int, old_r[i] as int));
            }
        }
        r.insert(p, k);
        assert forall|j: usize| j <= k implies #[trigger] r@.contains(j) by {
            if j < k {
                assert(old_r.contains(j));
                let m = choose|m: int| 0 <= m < old_r.len() && old_r[m] == j;
                if m < p {
                    assert(r@[m] == j);
                } else {
                    assert(r@[m + 1] == j);
                }
            } else {
                assert(r@[p as int] == k);
            }
        }
        assert forall|i: int, j: int| 0 <= i < j < r.len() implies precedes(
            keys@,
            #[trigger] r[i] as int,
            #[trigger] r[j] as int,
        ) by {
            if j < p {
                assert(precedes(keys@, old_r[i] as int, old_r[j] as int));
            } else if j == p {
                assert(r[i] == old_r[i]);
            } else if i == p {
                assert(r[j] == old_r[j - 1]);
            } else if i < p {
                assert(precedes(keys@, old_r[i] as int, old_r[j - 1] as int));
            } else {
                assert(precedes(keys@, old_r[i - 1] as int, old_r[j - 1] as int));
            }
        }
        k = k + 1;
    }
    r
}

/// The vertex order is fixed by the keys alone: any two orders of the same
/// keys are equal, so sorting identical values always gives identical results.
pub proof fn lemma_vertex_order_unique(keys: Seq<u64>, r1: Seq<usize>, r2: Seq<usize>)
    requires
        is_vertex_order(keys, r1),
        is_vertex_order(keys, r2),
    ensures
        r1 == r2,
{
    lemma_orders_agree_below(keys, r1, r2, r1.len() as int);
    assert(r1 =~= r2);
}

/// Two orders of the same keys agree on their first `i` entries.
proof fn lemma_orders_agree_below(keys: Seq<u64>, r1: Seq<usize>, r2: Seq<usize>, i: int)
    requires
        is_vertex_order(keys, r1),
        is_vertex_order(keys, r2),
        0 <= i <= r1.len(),
    ensures
        forall|m: int| 0 <= m < i ==> r1[m] == r2[m],
    decreases i,
{
    if i > 0 {
        lemma_orders_agree_below(keys, r1, r2, i - 1);
        let t = i - 1;
        let a = r1[t];
        let b = r2[t];
        if a != b {
            assert(r1[t] < keys.len());
            assert(r2[t] < keys.len());
            assert(r2.contains(a));
            assert(r1.contains(b));
            let q = choose|q: int| 0 <= q < r2.len() && r2[q] == a;
            let m = choose|m: int| 0 <= m < r1.len() && r1[m] == b;
            if q < t {
                assert(r1[q] == r2[q]);
                assert(precedes(keys, r1[q] as int, r1[t] as int));
            }
            if m < t {
                assert(r2[m] == r1[m]);
                assert(precedes(keys, r2[m] as int, r2[t] as int));
            }
            assert(precedes(keys, r2[t] as int, r2[q] as int));
            assert(precedes(keys, r1[t] as int, r1[m] as int));
        }
    }
}

} // verus!
