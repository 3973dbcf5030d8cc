//! The in-memory vehicle repository: a volatile store of vehicle records
//! keyed by generated identifiers, exposing create, fetch-one and
//! fetch-all.

use vstd::prelude::*;
use crate::vehicle::{Vehicle, VehicleId, VehicleView};

verus! {

/// A record as the repository stores it: the identifier is present,
/// non-empty, and serves as the storage key.
pub open spec fn stored_record_ok(v: VehicleView) -> bool {
    match v.id {
        Some(id) => id.len() > 0,
        None => false,
    }
}

/// The repository's internal invariant over its sequence of records:
/// every record carries a non-empty identifier, and no two records share
/// one.
pub open spec fn wf_records(s: Seq<VehicleView>) -> bool {
    &&& forall|i: int| 0 <= i < s.len() ==> stored_record_ok(#[trigger] s[i])
    &&& forall|i: int, j: int|
        0 <= i < s.len() && 0 <= j < s.len() && i != j ==> (#[trigger] s[i]).id != (
        #[trigger] s[j]).id
}

/// True when some stored record carries the given identifier.
pub open spec fn contains_vehicle_id(s: Seq<VehicleView>, id: Seq<char>) -> bool {
    exists|i: int| 0 <= i < s.len() && (#[trigger] s[i]).id == Some(id)
}

/// The record stored under the given identifier, if any.
pub open spec fn spec_get(s: Seq<VehicleView>, id: Seq<char>) -> Option<VehicleView> {
    if contains_vehicle_id(s, id) {
        Some(s[choose|i: int| 0 <= i < s.len() && (#[trigger] s[i]).id == Some(id)])
    } else {
        None
    }
}

/// The record that a create with the given identifier stores: the
/// submitted fields, any client-supplied identifier discarded in favour
/// of the generated one.
pub open spec fn spec_stored(id: Seq<char>, v: VehicleView) -> VehicleView {
    VehicleView { id: Some(id), manufacturer: v.manufacturer, model: v.model, year: v.year }
}

/// What a create does to the stored records: the new record replaces any
/// record already under the identifier, and is appended otherwise.
pub open spec fn spec_create(s: Seq<VehicleView>, id: Seq<char>, v: VehicleView) -> Seq<
    VehicleView,
> {
    if contains_vehicle_id(s, id) {
        s.update(
            choose|i: int| 0 <= i < s.len() && (#[trigger] s[i]).id == Some(id),
            spec_stored(id, v),
        )
    } else {
        s.push(spec_stored(id, v))
    }
}

/// Relies on uuid::Uuid::now_v7 and uuid's Display implementation: the
/// hyphenated text form of a UUID is exactly 36 characters.
#[verifier::external_body]
fn generate_id() -> (r: String)
    ensures
        r@.len() == 36,
{
    uuid::Uuid::now_v7().to_string()
}

/// The concurrent-safe in-memory vehicle store; callers share one
/// instance behind a single coarse lock for its whole lifetime.
pub struct InMemoryVehicleRepo {
    vehicles: Vec<Vehicle>,
}

impl View for InMemoryVehicleRepo {
    type V = Seq<VehicleView>;

    closed spec fn view(&self) -> Seq<VehicleView> {
        self.vehicles.deep_view()
    }
}

impl Default for InMemoryVehicleRepo {
    /// A fresh repository holds no records.
    fn default() -> (r: Self)
        ensures
            r@ == Seq::<VehicleView>::empty(),
            r.wf(),
    {
        let r = InMemoryVehicleRepo { vehicles: Vec::new() };
        assert(r@ =~= Seq::<VehicleView>::empty());
        r
    }
}

impl InMemoryVehicleRepo {
    /// The repository's invariant: see [`wf_records`].
    pub open spec fn wf(&self) -> bool {
        wf_records(self@)
    }

    /// A fresh, empty repository.
    pub fn new() -> (r: Self)
        ensures
            r@ == Seq::<VehicleView>::empty(),
            r.wf(),
    {
        let r = InMemoryVehicleRepo { vehicles: Vec::new() };
        assert(r@ =~= Seq::<VehicleView>::empty());
        r
    }

    /// The position of the record stored under `id`, if any.
    fn find_index(&self, id: &String) -> (r: Option<usize>)
        ensures
            r is Some <==> contains_vehicle_id(self@, id@),
            r matches Some(i) ==> 0 <= i < self@.len() && self@[i as int].id == Some(id@),
    {
        let n = self.vehicles.len();
        let mut i: usize = 0;
        while i < n
            invariant
                n == self@.len(),
                0 <= i <= n,
                forall|j: int| 0 <= j < i ==> (#[trigger] self@[j]).id != Some(id@),
            decreases n - i,
        {
            assert(self@[i as int] == self.vehicles@[i as int].deep_view());
            let matches_here = match &self.vehicles[i].id {
                Some(s) => *s == *id,
                None => false,
            };
            if matches_here {
                return Some(i);
            }
            i += 1;
        }
        None
    }

    /// Fetch-one: a cloned copy of the record stored under `id`, or
    /// nothing when no record carries that identifier.
    pub fn get_vehicle(&self, id: &String) -> (r: Option<Vehicle>)
        requires
            self.wf(),
        ensures
            r.deep_view() == spec_get(self@, id@),
            r is Some <==> contains_vehicle_id(self@, id@),
    {
        match self.find_index(id) {
            Some(i) => {
                let v = self.vehicles[i].clone();
                proof {
                    let k = choose|k: int|
                        0 <= k < self@.len() && (#[trigger] self@[k]).id == Some(id@);
                    assert(self@[k].id == self@[i as int].id);
                    assert(k == i as int);
                }
                Some(v)
            },
            None => None,
        }
    }

    /// Fetch-all: a cloned snapshot of every stored record; later changes
    /// to the returned sequence leave the repository untouched, and later
    /// changes to the repository leave the returned sequence untouched.
    pub fn get_vehicles(&self) -> (r: Vec<Vehicle>)
        ensures
            r.deep_view() == self@,
    {
        let n = self.vehicles.len();
        let mut out: Vec<Vehicle> = Vec::new();
        let mut i: usize = 0;
        while i < n
            invariant
                n == self@.len(),
                0 <= i <= n,
                out.deep_view() =~= self@.take(i as int),
            decreases n - i,
        {
            let ghost prev = out.deep_view();
            let copy = self.vehicles[i].clone();
            proof {
                assert(copy.deep_view() == self@[i as int]);
            }
            out.push(copy);
            proof {
                assert(out.deep_view() =~= prev.push(self@[i as int]));
                assert(out.deep_view() =~= self@.take(i as int + 1));
            }
            i += 1;
        }
        assert(out.deep_view() =~= self@);
        out
    }

    /// Create: assigns a freshly generated identifier, discards any
    /// client-supplied one, stores an immutable copy of the submitted
    /// fields under that identifier, and returns the identifier. The
    /// operation always succeeds.
    pub fn post_vehicle(&mut self, vehicle: Vehicle) -> (r: Option<VehicleId>)
        requires
            old(self).wf(),
        ensures
            final (self).wf(),
            r is Some,
            r matches Some(vid) ==> vid.id@.len() == 36 && final (self)@ == spec_create(
                old(self)@,
                vid.id@,
                vehicle.deep_view(),
            ),
    {
        let id = generate_id();
        let stored = Vehicle {
            id: Some(id.clone()),
            manufacturer: vehicle.manufacturer,
            model: vehicle.model,
            year: vehicle.year,
        };
        match self.find_index(&id) {
            Some(i) => {
                self.vehicles[i] = stored;
                assert(final(self)@ =~= spec_create(old(self)@, id@, vehicle.deep_view())) by {
                    let k = choose|k: int|
                        0 <= k < old(self)@.len() && (#[trigger] old(self)@[k]).id == Some(id@);
                    assert(old(self)@[k].id == old(self)@[i as int].id);
                    assert(k == i as int);
                }
            },
            None => {
                self.vehicles.push(stored);
                assert(final(self)@ =~= spec_create(old(self)@, id@, vehicle.deep_view()));
            },
        }
        proof {
            lemma_create_preserves_wf(old(self)@, id@, vehicle.deep_view());
        }
        Some(VehicleId { id })
    }
}

/// Creating under a non-empty identifier preserves the repository
/// invariant.
pub proof fn lemma_create_preserves_wf(s: Seq<VehicleView>, id: Seq<char>, v: VehicleView)
    requires
        wf_records(s),
        id.len() > 0,
    ensures
        wf_records(spec_create(s, id, v)),
{
    if contains_vehicle_id(s, id) {
        let k = choose|i: int| 0 <= i < s.len() && (#[trigger] s[i]).id == Some(id);
        let t = s.update(k, spec_stored(id, v));
        assert forall|i: int, j: int|
            0 <= i < t.len() && 0 <= j < t.len() && i != j implies (#[trigger] t[i]).id != (
        #[trigger] t[j]).id by {
            if i == k {
                assert(s[j].id != s[k].id);
            } else if j == k {
                assert(s[i].id != s[k].id);
            }
        }
    }
}

} // verus!
