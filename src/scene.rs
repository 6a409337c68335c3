use vstd::prelude::*;

verus! {

/// `k` holds the nearest hit of `hits`: a hit whose key is no larger than any
/// other's, and strictly smaller than that of every hit before it.
pub open spec fn is_nearest(hits: Seq<Option<u64>>, k: int) -> bool {
    &&& 0 <= k < hits.len()
    &&& hits[k] is Some
    &&& forall|i: int| 0 <= i < hits.len() && hits[i] is Some ==> hits[k]->0 <= hits[i]->0
    &&& forall|i: int| 0 <= i < k && hits[i] is Some ==> hits[k]->0 < hits[i]->0
}

/// Picks, among the answers of the surfaces of a scene in scan order, the surface
/// whose hit is nearest along the ray. Each answer is `None` for a miss, or the
/// hit's distance as a key that orders as the distances do. On equal keys the
/// surface scanned first wins. `None` when every surface missed.
pub fn nearest_hit(hits: &Vec<Option<u64>>) -> (r: Option<usize>)
    ensures
        r is None <==> forall|i: int| 0 <= i < hits@.len() ==> hits@[i] is None,
        r matches Some(k) ==> is_nearest(hits@, k as int),
{
    let mut best: Option<usize> = None;
    let mut k: usize = 0;
    while k < hits.len()
        invariant
            k <= hits@.len(),
            best is None <==> forall|i: int| 0 <= i < k ==> hits@[i] is None,
            best matches Some(b) ==> is_nearest(hits@.subrange(0, k as int), b as int),
        decreases hits@.len() - k,
    {
        if let Some(t) = hits[k] {
            let closer = match best {
                None => true,
                Some(b) => match hits[b] {
                    Some(tb) => t < tb,
                    None => true,
                },
            };
            if closer {
                best = Some(k);
            }
        }
        proof {
            let prev = hits@.subrange(0, k as int);
            let next = hits@.subrange(0, k + 1);
            assert(forall|i: int| 0 <= i < k ==> next[i] == prev[i]);
            assert(next[k as int] == hits@[k as int]);
        }
        k = k + 1;
    }
    assert(hits@.subrange(0, hits@.len() as int) =~= hits@);
    best
}

} // verus!
