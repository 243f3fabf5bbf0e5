use vstd::prelude::*;

verus! {

/// `i` holds a distance, no entry holds a smaller one, and every entry before `i`
/// holds a greater one or none.
pub open spec fn is_nearest(keys: Seq<Option<u32>>, i: int) -> bool {
    &&& 0 <= i < keys.len()
    &&& keys[i] is Some
    &&& forall|j: int|
        0 <= j < keys.len() && (#[trigger] keys[j]) is Some ==> keys[i]->0 <= keys[j]->0
    &&& forall|j: int| 0 <= j < i && (#[trigger] keys[j]) is Some ==> keys[i]->0 < keys[j]->0
}

/// Index of the nearest of the candidate hits, each given by an order key of its
/// distance (`None` where the primitive was missed); among equal keys the first
/// wins. `None` when every candidate missed.
pub fn nearest_hit(keys: &Vec<Option<u32>>) -> (r: Option<usize>)
    ensures
        r is None <==> forall|j: int| 0 <= j < keys@.len() ==> (#[trigger] keys@[j]) is None,
        r matches Some(i) ==> is_nearest(keys@, i as int),
{
    let mut best: Option<usize> = None;
    let mut i: usize = 0;
    while i < keys.len()
        invariant
            i <= keys@.len(),
            best is None <==> forall|j: int| 0 <= j < i ==> (#[trigger] keys@[j]) is None,
            best matches Some(b) ==> b < i && is_nearest(keys@.take(i as int), b as int),
        decreases keys@.len() - i,
    {
        let ghost prev = keys@.take(i as int);
        let ghost next = keys@.take(i + 1);
        assert(forall|j: int| 0 <= j < i ==> next[j] == prev[j]);
        if let Some(k) = keys[i] {
            match best {
                None => {
                    best = Some(i);
                },
                Some(b) => {
                    if let Some(kb) = keys[b] {
                        if k < kb {
                            best = Some(i);
                        }
                    }
                },
            }
        }
        i = i + 1;
    }
    assert(keys@.take(keys@.len() as int) =~= keys@);
    best
}

/// The nearest distance does not depend on the order of the candidates: two
/// candidate lists that hold the same keys, in any order, have the same nearest
/// distance.
pub proof fn lemma_nearest_ignores_order(a: Seq<Option<u32>>, b: Seq<Option<u32>>, i: int, j: int)
    requires
        a.to_multiset() == b.to_multiset(),
        is_nearest(a, i),
        is_nearest(b, j),
    ensures
        a[i] == b[j],
{
    broadcast use vstd::seq_lib::group_to_multiset_ensures;

    assert(a.contains(a[i]));
    assert(b.to_multiset().count(a[i]) > 0);
    let jb = choose|k: int| 0 <= k < b.len() && b[k] == a[i];
    assert(b[jb] is Some);
    assert(b.contains(b[j]));
    assert(a.to_multiset().count(b[j]) > 0);
    let ia = choose|k: int| 0 <= k < a.len() && a[k] == b[j];
    assert(a[ia] is Some);
}

} // verus!
