use vstd::prelude::*;

use crate::track::{TrackModel, TrackRef};

verus! {

/// Index of the first entry of `q` whose id is `id`; `q.len()` when no
/// entry matches.
pub open spec fn index_of_id(q: Seq<TrackModel>, id: Seq<char>) -> int
    decreases q.len(),
{
    if q.len() == 0 {
        0
    } else if q[0].id == id {
        0
    } else {
        1 + index_of_id(q.skip(1), id)
    }
}

/// Position the queue advances to when the track `id` ends: the entry
/// immediately after the first occurrence of `id`, if the queue has one.
pub open spec fn next_index(q: Seq<TrackModel>, id: Seq<char>) -> Option<int> {
    if index_of_id(q, id) + 1 < q.len() {
        Some(index_of_id(q, id) + 1)
    } else {
        None
    }
}

/// `index_of_id` is the first occurrence of `id`: every entry before it
/// carries another id, the entry at it (when it is in range) carries `id`,
/// and it is out of range exactly when no entry carries `id`.
pub proof fn lemma_index_of_id(q: Seq<TrackModel>, id: Seq<char>)
    ensures
        0 <= index_of_id(q, id) <= q.len(),
        index_of_id(q, id) < q.len() ==> q[index_of_id(q, id)].id == id,
        forall|j: int| 0 <= j < index_of_id(q, id) ==> q[j].id != id,
    decreases q.len(),
{
    if q.len() != 0 && q[0].id != id {
        lemma_index_of_id(q.skip(1), id);
        assert forall|j: int| 0 <= j < index_of_id(q, id) implies q[j].id != id by {
            if j > 0 {
                assert(q.skip(1)[j - 1] == q[j]);
            }
        }
        if index_of_id(q, id) < q.len() {
            assert(q.skip(1)[index_of_id(q.skip(1), id)] == q[index_of_id(q, id)]);
        }
    }
}

/// Queue Advancer: the entry immediately following the first occurrence of
/// `current_id` in `queue`, or `None` when `current_id` is last or absent.
/// Absence is the defined "queue exhausted" outcome, not an error. The
/// function reads the queue and builds its result; it changes nothing.
pub fn next(current_id: &String, queue: &Vec<TrackRef>) -> (r: Option<TrackRef>)
    ensures
        (r is Some) == (next_index(queue.deep_view(), current_id@) is Some),
        r is Some ==> r->Some_0@ == queue.deep_view()[next_index(
            queue.deep_view(),
            current_id@,
        )->Some_0],
{
    let ghost q = queue.deep_view();
    proof {
        lemma_index_of_id(q, current_id@);
    }
    let n = queue.len();
    let mut i: usize = 0;
    while i < n
        invariant
            n == queue.len(),
            q == queue.deep_view(),
            i <= n,
            forall|j: int| 0 <= j < i ==> q[j].id != current_id@,
        decreases n - i,
    {
        if queue[i].id == *current_id {
            proof {
                lemma_index_of_id(q, current_id@);
                assert(q[i as int].id == queue@[i as int].id@);
                let idx = index_of_id(q, current_id@);
                if idx < i as int {
                    assert(q[idx].id == current_id@);
                }
                if (i as int) < idx {
                    assert(q[i as int].id != current_id@);
                }
                assert(idx == i as int);
            }
            if i + 1 < n {
                return Some(queue[i + 1].duplicate());
            }
            return None;
        }
        i = i + 1;
    }
    proof {
        lemma_index_of_id(q, current_id@);
        assert(index_of_id(q, current_id@) == q.len());
    }
    None
}

/// The Queue Advancer law: the advancer points at exactly the entry
/// immediately after the first occurrence of `id`, and at nothing when the
/// first occurrence is the last entry or when `id` is absent.
pub proof fn lemma_queue_advancer(q: Seq<TrackModel>, id: Seq<char>)
    ensures
        next_index(q, id) is Some ==> {
            let i = index_of_id(q, id);
            &&& 0 <= i && i + 1 < q.len()
            &&& q[i].id == id
            &&& (forall|j: int| 0 <= j < i ==> q[j].id != id)
            &&& next_index(q, id) == Some(i + 1)
        },
        next_index(q, id) is None ==> forall|j: int|
            (0 <= j < q.len() && #[trigger] q[j].id == id && (forall|k: int|
                0 <= k < j ==> q[k].id != id)) ==> j == q.len() - 1,
{
    lemma_index_of_id(q, id);
    if next_index(q, id) is None {
        assert forall|j: int|
            (0 <= j < q.len() && #[trigger] q[j].id == id && (forall|k: int|
                0 <= k < j ==> q[k].id != id)) implies j == q.len() - 1 by {
            let i = index_of_id(q, id);
            assert(!(j < i));
            assert(!(i < j));
        }
    }
}

} // verus!
