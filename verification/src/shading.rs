//! Bookkeeping for per-vertex tangent averaging: how many triangle corners
//! of an indexed mesh land on each vertex.

use vstd::prelude::*;

verus! {

/// Number of entries of `s` equal to `v`.
pub open spec fn occurrences(s: Seq<u32>, v: int) -> nat
    decreases s.len(),
{
    if s.len() == 0 {
        0
    } else {
        occurrences(s.drop_last(), v) + if s.last() == v {
            1nat
        } else {
            0nat
        }
    }
}

/// Sum of the entries of `s`.
pub open spec fn seq_sum(s: Seq<u32>) -> int
    decreases s.len(),
{
    if s.len() == 0 {
        0
    } else {
        seq_sum(s.drop_last()) + s.last()
    }
}

/// `idx` is a well-formed triangle list over `vertex_count` vertices.
pub open spec fn is_triangle_list(idx: Seq<u32>, vertex_count: nat) -> bool {
    &&& idx.len() % 3 == 0
    &&& forall|k: int| 0 <= k < idx.len() ==> #[trigger] idx[k] < vertex_count
}

/// `counts` holds, for each of `vertex_count` vertices, how many corners of
/// the triangle list `idx` refer to it.
pub open spec fn is_corner_count(counts: Seq<u32>, idx: Seq<u32>, vertex_count: nat) -> bool {
    &&& counts.len() == vertex_count
    &&& forall|v: int| 0 <= v < vertex_count ==> #[trigger] counts[v] == occurrences(idx, v)
}

pub proof fn lemma_occurrences_bound(s: Seq<u32>, v: int)
    ensures
        occurrences(s, v) <= s.len(),
    decreases s.len(),
{
    if s.len() > 0 {
        lemma_occurrences_bound(s.drop_last(), v);
    }
}

/// For every vertex, the number of triangle corners (entries of `indices`)
/// that refer to it; a triangle that names a vertex twice counts twice.
/// These are the divisors by which accumulated tangents are averaged.
pub fn triangles_per_vertex(indices: &Vec<u32>, vertex_count: usize) -> (counts: Vec<u32>)
    requires
        is_triangle_list(indices@, vertex_count as nat),
        indices@.len() <= u32::MAX,
    ensures
        is_corner_count(counts@, indices@, vertex_count as nat),
        forall|v: int|
            0 <= v < vertex_count && v <= u32::MAX ==> #[trigger] counts@[v] == indices@.filter(
                |x: u32| x == v as u32,
            ).len(),
{
    let mut counts: Vec<u32> = Vec::new();
    let mut v: usize = 0;
    while v < vertex_count
        invariant
            v <= vertex_count,
            counts@.len() == v,
            forall|w: int| 0 <= w < v ==> #[trigger] counts@[w] == 0,
        decreases vertex_count - v,
    {
        counts.push(0);
        v = v + 1;
    }
    assert(indices@.take(0) =~= Seq::<u32>::empty());
    let n = indices.len();
    let mut k: usize = 0;
    while k < n
        invariant
            n == indices@.len(),
            k <= n,
            n <= u32::MAX,
            is_triangle_list(indices@, vertex_count as nat),
            counts@.len() == vertex_count,
            forall|w: int|
                0 <= w < vertex_count ==> #[trigger] counts@[w] == occurrences(
                    indices@.take(k as int),
                    w,
                ),
        decreases n - k,
    {
        let c: usize = indices[k] as usize;
        let ghost prefix = indices@.take(k as int);
        proof {
            lemma_occurrences_bound(prefix, c as int);
            assert(indices@.take(k + 1).drop_last() =~= prefix);
        }
        let old: u32 = counts[c];
        counts.set(c, old + 1);
        k = k + 1;
    }
    assert(indices@.take(n as int) =~= indices@);
    assert forall|v: int| 0 <= v < vertex_count && v <= u32::MAX implies #[trigger] counts@[v] == indices@.filter(
        |x: u32| x == v as u32,
    ).len() by {
        lemma_occurrences_are_matches(indices@, v);
    }
    counts
}

/// The count of a vertex is the number of entries of the list equal to it.
pub proof fn lemma_occurrences_are_matches(s: Seq<u32>, v: int)
    requires
        0 <= v <= u32::MAX,
    ensures
        occurrences(s, v) == s.filter(|x: u32| x == v as u32).len(),
    decreases s.len(),
{
    reveal(Seq::filter);
    if s.len() > 0 {
        lemma_occurrences_are_matches(s.drop_last(), v);
    }
}

/// Adding one to entry `e` adds one to the sum.
proof fn lemma_sum_bump(s: Seq<u32>, e: int)
    requires
        0 <= e < s.len(),
        s[e] < u32::MAX,
    ensures
        seq_sum(s.update(e, (s[e] + 1) as u32)) == seq_sum(s) + 1,
    decreases s.len(),
{
    let t = s.update(e, (s[e] + 1) as u32);
    if e == s.len() - 1 {
        assert(t.drop_last() =~= s.drop_last());
    } else {
        lemma_sum_bump(s.drop_last(), e);
        assert(t.drop_last() =~= s.drop_last().update(e, (s[e] + 1) as u32));
    }
}

/// Every corner of a triangle list is counted exactly once: the corner
/// counts of all vertices add up to the length of the index list.
pub proof fn lemma_corner_counts_sum(counts: Seq<u32>, idx: Seq<u32>, vertex_count: nat)
    requires
        is_corner_count(counts, idx, vertex_count),
        forall|k: int| 0 <= k < idx.len() ==> #[trigger] idx[k] < vertex_count,
    ensures
        seq_sum(counts) == idx.len(),
    decreases idx.len(),
{
    if idx.len() == 0 {
        lemma_sum_zero(counts);
    } else {
        let prev = idx.drop_last();
        let e = idx.last() as int;
        let prev_counts = counts.update(e, (counts[e] - 1) as u32);
        assert forall|v: int| 0 <= v < vertex_count implies #[trigger] prev_counts[v]
            == occurrences(prev, v) by {
        }
        assert forall|k: int| 0 <= k < prev.len() implies #[trigger] prev[k] < vertex_count by {
            assert(prev[k] == idx[k]);
        }
        lemma_corner_counts_sum(prev_counts, prev, vertex_count);
        lemma_occurrences_bound(prev, e);
        lemma_sum_bump(prev_counts, e);
        assert(prev_counts.update(e, (prev_counts[e] + 1) as u32) =~= counts);
    }
}

proof fn lemma_sum_zero(s: Seq<u32>)
    requires
        forall|v: int| 0 <= v < s.len() ==> #[trigger] s[v] == 0,
    ensures
        seq_sum(s) == 0,
    decreases s.len(),
{
    if s.len() > 0 {
        lemma_sum_zero(s.drop_last());
    }
}

/// A vertex's count is zero exactly when no corner refers to it.
pub proof fn lemma_zero_count_iff_unreferenced(idx: Seq<u32>, v: u32)
    ensures
        occurrences(idx, v as int) == 0 <==> !idx.contains(v),
    decreases idx.len(),
{
    if idx.len() > 0 {
        lemma_zero_count_iff_unreferenced(idx.drop_last(), v);
        if idx.contains(v) {
            let k = choose|k: int| 0 <= k < idx.len() && idx[k] == v;
            if k < idx.len() - 1 {
                assert(idx.drop_last()[k] == v);
            }
        }
        if idx.drop_last().contains(v) {
            let k = choose|k: int| 0 <= k < idx.len() - 1 && idx.drop_last()[k] == v;
            assert(idx[k] == v);
        }
    }
}

} // verus!
