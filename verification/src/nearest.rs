//! Picking the hit: which root of a sphere's quadratic counts, and which of
//! several candidate hits is the nearest. Distances are given by their keys,
//! which are ordered as the distances are.
use vstd::prelude::*;

verus! {

/// Whether `t` lies in the closed range from `t_min` to `t_max`.
pub open spec fn in_range(t: u64, t_min: u64, t_max: u64) -> bool {
    t_min <= t <= t_max
}

/// The root that counts: the nearer one if it is in range, else the farther
/// one if that is in range, else none.
pub open spec fn chosen_root(near: u64, far: u64, t_min: u64, t_max: u64) -> Option<u64> {
    if in_range(near, t_min, t_max) {
        Some(near)
    } else if in_range(far, t_min, t_max) {
        Some(far)
    } else {
        None
    }
}

/// Chooses between the two roots of a sphere's quadratic, the nearer first.
pub fn select_root(near: u64, far: u64, t_min: u64, t_max: u64) -> (root: Option<u64>)
    ensures
        root == chosen_root(near, far, t_min, t_max),
{
    if t_min <= near && near <= t_max {
        Some(near)
    } else if t_min <= far && far <= t_max {
        Some(far)
    } else {
        None
    }
}

/// With the roots in order, the chosen root is the least root in range, and
/// there is none exactly when no root is in range.
pub proof fn lemma_chosen_root_is_least(near: u64, far: u64, t_min: u64, t_max: u64)
    requires
        near <= far,
    ensures
        match chosen_root(near, far, t_min, t_max) {
            Some(t) => in_range(t, t_min, t_max) && (t == near || t == far) && (in_range(
                near,
                t_min,
                t_max,
            ) ==> t <= near) && (in_range(far, t_min, t_max) ==> t <= far),
            None => !in_range(near, t_min, t_max) && !in_range(far, t_min, t_max),
        },
{
}

/// Whether the candidate at `i` is the nearest hit: no candidate is nearer,
/// and none after it is as near.
pub open spec fn is_nearest(hits: Seq<Option<u64>>, i: int) -> bool {
    &&& 0 <= i < hits.len()
    &&& hits[i] is Some
    &&& forall|j: int|
        0 <= j < hits.len() && (#[trigger] hits[j]) is Some ==> hits[i].unwrap()
            <= hits[j].unwrap()
    &&& forall|j: int|
        i < j < hits.len() && (#[trigger] hits[j]) is Some ==> hits[i].unwrap()
            < hits[j].unwrap()
}

/// Whether no candidate is a hit.
pub open spec fn all_miss(hits: Seq<Option<u64>>) -> bool {
    forall|j: int| 0 <= j < hits.len() ==> (#[trigger] hits[j]) is None
}

/// The index of the nearest hit among the candidates, each `None` for a miss
/// or the key of its distance. Of several hits at the same least distance the
/// last one wins. `None` exactly when every candidate is a miss.
pub fn nearest(hits: &Vec<Option<u64>>) -> (best: Option<usize>)
    ensures
        match best {
            Some(i) => is_nearest(hits@, i as int),
            None => all_miss(hits@),
        },
{
    let mut best: Option<usize> = None;
    let mut closest_so_far: u64 = u64::MAX;
    let mut k: usize = 0;
    while k < hits.len()
        invariant
            k <= hits.len(),
            match best {
                Some(i) => i < k && is_nearest(hits@.take(k as int), i as int) && hits@[i as int]
                    == Some(closest_so_far),
                None => all_miss(hits@.take(k as int)),
            },
        decreases hits.len() - k,
    {
        let ghost seen = hits@.take(k as int);
        let ghost more = hits@.take(k + 1);
        assert(forall|j: int| 0 <= j < k ==> more[j] == seen[j]);
        match hits[k] {
            Some(t) => {
                if best.is_none() || t <= closest_so_far {
                    best = Some(k);
                    closest_so_far = t;
                }
            },
            None => {},
        }
        k += 1;
    }
    assert(hits@.take(hits.len() as int) =~= hits@);
    best
}

/// The candidates have at most one nearest hit.
pub proof fn lemma_nearest_is_unique(hits: Seq<Option<u64>>, i: int, j: int)
    requires
        is_nearest(hits, i),
        is_nearest(hits, j),
    ensures
        i == j,
{
    if i < j {
        assert(hits[j] is Some);
    } else if j < i {
        assert(hits[i] is Some);
    }
}

/// The distance of the nearest hit does not depend on the order of the
/// candidates: two lists with the same candidates, in whatever order, have
/// their nearest hits at the same distance.
pub proof fn lemma_nearest_ignores_order(a: Seq<Option<u64>>, b: Seq<Option<u64>>, i: int, j: int)
    requires
        a.to_multiset() == b.to_multiset(),
        is_nearest(a, i),
        is_nearest(b, j),
    ensures
        a[i] == b[j],
{
    a.to_multiset_ensures();
    b.to_multiset_ensures();
    assert(a.contains(a[i]));
    assert(b.to_multiset().count(a[i]) > 0);
    assert(b.contains(b[j]));
    assert(a.to_multiset().count(b[j]) > 0);
}

/// A list with the same candidates as one without a hit has no hit either.
pub proof fn lemma_all_miss_ignores_order(a: Seq<Option<u64>>, b: Seq<Option<u64>>)
    requires
        a.to_multiset() == b.to_multiset(),
        all_miss(a),
    ensures
        all_miss(b),
{
    a.to_multiset_ensures();
    b.to_multiset_ensures();
    assert forall|j: int| 0 <= j < b.len() implies (#[trigger] b[j]) is None by {
        assert(b.contains(b[j]));
        assert(a.to_multiset().count(b[j]) > 0);
    }
}

} // verus!
