//! Laws of the repository model: what a create leaves retrievable, what
//! it leaves untouched, and what a batch of creates under distinct
//! identifiers adds up to.

use vstd::prelude::*;
use crate::repo::{
    contains_vehicle_id, spec_create, spec_get, spec_stored, wf_records,
    lemma_create_preserves_wf,
};
use crate::vehicle::VehicleView;

verus! {

/// Under the repository invariant at most one record matches an
/// identifier, so any matching record is the one fetched.
pub proof fn lemma_spec_get_unique(s: Seq<VehicleView>, id: Seq<char>)
    requires
        wf_records(s),
    ensures
        forall|i: int|
            0 <= i < s.len() && (#[trigger] s[i]).id == Some(id) ==> spec_get(s, id) == Some(s[i]),
{
    assert forall|i: int|
        0 <= i < s.len() && (#[trigger] s[i]).id == Some(id) implies spec_get(s, id) == Some(
        s[i],
    ) by {
        assert(contains_vehicle_id(s, id));
        let k = choose|k: int| 0 <= k < s.len() && (#[trigger] s[k]).id == Some(id);
        if k != i {
            assert(s[k].id != s[i].id);
        }
    }
}

/// Round-trip: after a create under an identifier, fetching by that
/// identifier yields exactly the stored record — the submitted fields
/// under the returned identifier.
pub proof fn lemma_create_then_get(s: Seq<VehicleView>, id: Seq<char>, v: VehicleView)
    requires
        wf_records(s),
        id.len() > 0,
    ensures
        spec_get(spec_create(s, id, v), id) == Some(spec_stored(id, v)),
{
    let stored = spec_stored(id, v);
    let t = spec_create(s, id, v);
    lemma_create_preserves_wf(s, id, v);
    lemma_spec_get_unique(t, id);
    if contains_vehicle_id(s, id) {
        let k = choose|k: int| 0 <= k < s.len() && (#[trigger] s[k]).id == Some(id);
        assert(t[k] == stored);
        assert(contains_vehicle_id(t, id));
    } else {
        assert(t[s.len() as int] == stored);
        assert(contains_vehicle_id(t, id));
    }
}

/// Frame rule: a create under one identifier leaves what any other
/// identifier fetches unchanged.
pub proof fn lemma_create_frame(
    s: Seq<VehicleView>,
    id: Seq<char>,
    v: VehicleView,
    other: Seq<char>,
)
    requires
        wf_records(s),
        id.len() > 0,
        other != id,
    ensures
        spec_get(spec_create(s, id, v), other) == spec_get(s, other),
{
    let t = spec_create(s, id, v);
    let stored = spec_stored(id, v);
    lemma_create_preserves_wf(s, id, v);
    if contains_vehicle_id(s, id) {
        let k = choose|k: int| 0 <= k < s.len() && (#[trigger] s[k]).id == Some(id);
        if contains_vehicle_id(t, other) {
            let i = choose|i: int| 0 <= i < t.len() && (#[trigger] t[i]).id == Some(other);
            assert(i != k);
            assert(s[i] == t[i]);
            assert(contains_vehicle_id(s, other));
        }
        if contains_vehicle_id(s, other) {
            let i = choose|i: int| 0 <= i < s.len() && (#[trigger] s[i]).id == Some(other);
            assert(i != k);
            assert(t[i] == s[i]);
            lemma_spec_get_unique(s, other);
            lemma_spec_get_unique(t, other);
            assert(spec_get(s, other) == Some(s[i]));
            assert(spec_get(t, other) == Some(t[i]));
        }
    } else {
        if contains_vehicle_id(t, other) {
            let i = choose|i: int| 0 <= i < t.len() && (#[trigger] t[i]).id == Some(other);
            assert(i != s.len());
            assert(s[i] == t[i]);
            assert(contains_vehicle_id(s, other));
        }
        if contains_vehicle_id(s, other) {
            let i = choose|i: int| 0 <= i < s.len() && (#[trigger] s[i]).id == Some(other);
            assert(t[i] == s[i]);
            lemma_spec_get_unique(s, other);
            lemma_spec_get_unique(t, other);
            assert(spec_get(s, other) == Some(s[i]));
            assert(spec_get(t, other) == Some(t[i]));
        }
    }
}

/// Uniqueness: two creates under distinct identifiers leave both records
/// independently retrievable, each under its own identifier.
pub proof fn lemma_distinct_creates(
    s: Seq<VehicleView>,
    id1: Seq<char>,
    v1: VehicleView,
    id2: Seq<char>,
    v2: VehicleView,
)
    requires
        wf_records(s),
        id1.len() > 0,
        id2.len() > 0,
        id1 != id2,
    ensures
        spec_get(spec_create(spec_create(s, id1, v1), id2, v2), id1) == Some(spec_stored(id1, v1)),
        spec_get(spec_create(spec_create(s, id1, v1), id2, v2), id2) == Some(spec_stored(id2, v2)),
{
    let s1 = spec_create(s, id1, v1);
    lemma_create_then_get(s, id1, v1);
    lemma_create_preserves_wf(s, id1, v1);
    lemma_create_frame(s1, id2, v2, id1);
    lemma_create_then_get(s1, id2, v2);
}

/// The repository state after a batch of creates, applied in order.
pub open spec fn spec_create_all(
    s: Seq<VehicleView>,
    batch: Seq<(Seq<char>, VehicleView)>,
) -> Seq<VehicleView>
    decreases batch.len(),
{
    if batch.len() == 0 {
        s
    } else {
        spec_create_all(spec_create(s, batch[0].0, batch[0].1), batch.drop_first())
    }
}

/// A batch of creates under identifiers other than `other` leaves what
/// `other` fetches unchanged.
pub proof fn lemma_create_all_frame(
    s: Seq<VehicleView>,
    batch: Seq<(Seq<char>, VehicleView)>,
    other: Seq<char>,
)
    requires
        wf_records(s),
        forall|k: int| 0 <= k < batch.len() ==> (#[trigger] batch[k]).0.len() > 0,
        forall|k: int| 0 <= k < batch.len() ==> (#[trigger] batch[k]).0 != other,
    ensures
        spec_get(spec_create_all(s, batch), other) == spec_get(s, other),
        wf_records(spec_create_all(s, batch)),
    decreases batch.len(),
{
    if batch.len() > 0 {
        let s1 = spec_create(s, batch[0].0, batch[0].1);
        lemma_create_frame(s, batch[0].0, batch[0].1, other);
        lemma_create_preserves_wf(s, batch[0].0, batch[0].1);
        let rest = batch.drop_first();
        assert(forall|k: int| 0 <= k < rest.len() ==> rest[k] == batch[k + 1]);
        lemma_create_all_frame(s1, rest, other);
    }
}

/// Serialized creates under pairwise-distinct fresh identifiers add
/// exactly one record each: afterwards the store holds exactly
/// `batch.len()` more records, and each submitted record is retrievable
/// under its own identifier, none lost or overwritten.
pub proof fn lemma_batch_creates(s: Seq<VehicleView>, batch: Seq<(Seq<char>, VehicleView)>)
    requires
        wf_records(s),
        forall|k: int| 0 <= k < batch.len() ==> (#[trigger] batch[k]).0.len() > 0,
        forall|k: int| 0 <= k < batch.len() ==> !contains_vehicle_id(s, (#[trigger] batch[k]).0),
        forall|k: int, l: int|
            0 <= k < batch.len() && 0 <= l < batch.len() && k != l ==> (#[trigger] batch[k]).0 != (
            #[trigger] batch[l]).0,
    ensures
        wf_records(spec_create_all(s, batch)),
        spec_create_all(s, batch).len() == s.len() + batch.len(),
        forall|k: int|
            0 <= k < batch.len() ==> spec_get(spec_create_all(s, batch), (#[trigger] batch[k]).0)
                == Some(spec_stored(batch[k].0, batch[k].1)),
    decreases batch.len(),
{
    if batch.len() > 0 {
        let id0 = batch[0].0;
        let v0 = batch[0].1;
        let s1 = spec_create(s, id0, v0);
        lemma_create_preserves_wf(s, id0, v0);
        lemma_create_then_get(s, id0, v0);
        assert(s1 == s.push(spec_stored(id0, v0)));
        let rest = batch.drop_first();
        assert(forall|k: int| 0 <= k < rest.len() ==> rest[k] == batch[k + 1]);
        assert forall|k: int| 0 <= k < rest.len() implies !contains_vehicle_id(
            s1,
            (#[trigger] rest[k]).0,
        ) by {
            assert(rest[k] == batch[k + 1]);
            assert(batch[k + 1].0 != id0);
            assert(!contains_vehicle_id(s, batch[k + 1].0));
            if contains_vehicle_id(s1, rest[k].0) {
                let i = choose|i: int|
                    0 <= i < s1.len() && (#[trigger] s1[i]).id == Some(rest[k].0);
                if i < s.len() {
                    assert(s[i] == s1[i]);
                    assert(contains_vehicle_id(s, rest[k].0));
                } else {
                    assert(s1[i] == spec_stored(id0, v0));
                }
            }
        }
        lemma_batch_creates(s1, rest);
        let t = spec_create_all(s1, rest);
        assert(spec_create_all(s, batch) == t);
        lemma_create_all_frame(s1, rest, id0);
        assert forall|k: int| 0 <= k < batch.len() implies spec_get(t, (#[trigger] batch[k]).0)
            == Some(spec_stored(batch[k].0, batch[k].1)) by {
            if k == 0 {
                assert(spec_get(t, id0) == spec_get(s1, id0));
            } else {
                assert(batch[k] == rest[k - 1]);
            }
        }
    }
}

} // verus!
