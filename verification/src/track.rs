use vstd::prelude::*;

verus! {

/// One entry of a playback queue: a stable track identifier, the name shown
/// to the user, and the track's length in whole seconds. Entries are
/// immutable once placed in a queue; insertion order is playback order.
pub struct TrackRef {
    pub id: String,
    pub display_name: String,
    pub duration: u64,
}

/// Mathematical image of a `TrackRef`: the two strings as character
/// sequences, the duration unchanged.
#[verifier::ext_equal]
pub struct TrackModel {
    pub id: Seq<char>,
    pub display_name: Seq<char>,
    pub duration: u64,
}

impl View for TrackRef {
    type V = TrackModel;

    open spec fn view(&self) -> TrackModel {
        TrackModel { id: self.id@, display_name: self.display_name@, duration: self.duration }
    }
}

impl DeepView for TrackRef {
    type V = TrackModel;

    open spec fn deep_view(&self) -> TrackModel {
        self.view()
    }
}

impl TrackRef {
    /// An owned copy of the entry, equal to it at the model level.
    pub fn duplicate(&self) -> (r: TrackRef)
        ensures
            r@ == self@,
    {
        TrackRef {
            id: self.id.clone(),
            display_name: self.display_name.clone(),
            duration: self.duration,
        }
    }
}

/// An owned copy of a whole queue, equal to it at the model level.
pub fn duplicate_queue(q: &Vec<TrackRef>) -> (r: Vec<TrackRef>)
    ensures
        r.deep_view() == q.deep_view(),
{
    let mut r: Vec<TrackRef> = Vec::new();
    let mut i: usize = 0;
    while i < q.len()
        invariant
            i <= q.len(),
            r@.len() == i,
            forall|k: int| 0 <= k < i ==> #[trigger] r.deep_view()[k] == q.deep_view()[k],
        decreases q.len() - i,
    {
        let d = q[i].duplicate();
        let ghost dm = d@;
        let ghost prev = r@;
        let ghost prev_deep = r.deep_view();
        r.push(d);
        proof {
            assert forall|k: int| 0 <= k < i + 1 implies #[trigger] r.deep_view()[k]
                == q.deep_view()[k] by {
                if k < i {
                    assert(r@[k] == prev[k]);
                    assert(prev_deep[k] == q.deep_view()[k]);
                } else {
                    assert(r@[k]@ == dm);
                    assert(dm == q@[k]@);
                }
            }
        }
        i = i + 1;
    }
    proof {
        assert(r.deep_view() =~= q.deep_view());
    }
    r
}

} // verus!
