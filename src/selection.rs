use vstd::prelude::*;

verus! {

// An interaction test yields `None` when the obstacle does not touch the
// feeler, or `Some(key)` with a ranking key: a distance along the feeler, or
// a time to collision, mapped to an integer whose order is that of the
// quantity it ranks.

/// `i` is the index of the nearest interaction: its key is present, no
/// present key is smaller, and every earlier present key is larger (the
/// first of equal keys wins).
pub open spec fn is_nearest(keys: Seq<Option<u64>>, i: int) -> bool {
    &&& 0 <= i < keys.len()
    &&& keys[i] is Some
    &&& forall|j: int| 0 <= j < keys.len() && #[trigger] keys[j] is Some ==> keys[i]->0 <= keys[j]->0
    &&& forall|j: int| 0 <= j < i && #[trigger] keys[j] is Some ==> keys[i]->0 < keys[j]->0
}

/// No test produced an interaction.
pub open spec fn all_absent(keys: Seq<Option<u64>>) -> bool {
    forall|j: int| 0 <= j < keys.len() ==> #[trigger] keys[j] is None
}

/// Number of tests that produced an interaction.
pub open spec fn num_present(keys: Seq<Option<u64>>) -> nat
    decreases keys.len(),
{
    if keys.len() == 0 {
        0
    } else {
        num_present(keys.drop_last()) + if keys.last() is Some { 1nat } else { 0nat }
    }
}

/// An avoidance force is produced exactly when at least one interaction is
/// counted: a nearest interaction exists if and only if the count is not
/// zero, and the count is zero if and only if no test produced one.
pub proof fn lemma_force_iff_counted(keys: Seq<Option<u64>>)
    ensures
        num_present(keys) > 0 <==> exists|i: int| is_nearest(keys, i),
        num_present(keys) == 0 <==> all_absent(keys),
    decreases keys.len(),
{
    if keys.len() == 0 {
        assert(!exists|i: int| is_nearest(keys, i));
    } else {
        let prefix = keys.drop_last();
        let n = keys.len() - 1;
        lemma_force_iff_counted(prefix);
        assert forall|j: int| 0 <= j < n implies #[trigger] keys[j] == prefix[j] by {}
        if all_absent(prefix) {
            if keys[n] is Some {
                assert(is_nearest(keys, n));
            } else {
                assert(all_absent(keys));
                assert(!exists|i: int| is_nearest(keys, i));
            }
        } else {
            let i0 = choose|i: int| is_nearest(prefix, i);
            assert(keys[i0] == prefix[i0]);
            if keys[n] is Some && keys[n]->0 < keys[i0]->0 {
                assert(is_nearest(keys, n));
            } else {
                assert(is_nearest(keys, i0));
            }
            assert(!all_absent(keys)) by {
                assert(keys[i0] is Some);
            }
        }
    }
}

/// Returns the index of the nearest interaction, or `None` when there is
/// none.
pub fn nearest(keys: &Vec<Option<u64>>) -> (r: Option<usize>)
    ensures
        match r {
            None => all_absent(keys@),
            Some(i) => is_nearest(keys@, i as int),
        },
{
    let mut best: Option<usize> = None;
    let mut best_key: u64 = 0;
    let mut i: usize = 0;
    while i < keys.len()
        invariant
            i <= keys.len(),
            match best {
                None => forall|j: int| 0 <= j < i ==> #[trigger] keys@[j] is None,
                Some(b) => {
                    &&& b < i
                    &&& keys@[b as int] == Some(best_key)
                    &&& forall|j: int| 0 <= j < i && #[trigger] keys@[j] is Some ==> best_key <= keys@[j]->0
                    &&& forall|j: int| 0 <= j < b && #[trigger] keys@[j] is Some ==> best_key < keys@[j]->0
                },
            },
        decreases keys.len() - i,
    {
        if let Some(k) = keys[i] {
            let closer = match best {
                None => true,
                Some(_) => k < best_key,
            };
            if closer {
                best = Some(i);
                best_key = k;
            }
        }
        i = i + 1;
    }
    best
}

/// Returns how many tests produced an interaction.
pub fn count_interactions(keys: &Vec<Option<u64>>) -> (r: usize)
    ensures
        r == num_present(keys@),
{
    let mut count: usize = 0;
    let mut i: usize = 0;
    while i < keys.len()
        invariant
            i <= keys.len(),
            count == num_present(keys@.subrange(0, i as int)),
            count <= i,
        decreases keys.len() - i,
    {
        assert(keys@.subrange(0, i + 1).drop_last() =~= keys@.subrange(0, i as int));
        if keys[i].is_some() {
            count = count + 1;
        }
        i = i + 1;
    }
    assert(keys@.subrange(0, keys.len() as int) =~= keys@);
    count
}

} // verus!
