//! The resource join engine.
//!
//! Given the device snapshot and one sensor-reading collection from the
//! same tick, the join resolves each reading to the device whose
//! identifier equals the reading's owner-reference identifier (exact
//! match, first match wins) and yields the (reading, device) pairs in the
//! readings' original order. A reading whose owner identifier is absent
//! from the snapshot is dropped silently: no pair, no fault. Inputs are
//! never mutated.

use vstd::prelude::*;

use crate::devices::Device;
use crate::light_level::LightLevel;
use crate::response::{find_by_id, GenericResponse, GetById};
use crate::temperature::Temperature;

verus! {

/// A sensor reading that points back at its owning device.
pub trait Owned {
    /// The owner reference's resource identifier, in specification form.
    spec fn spec_owner_rid(&self) -> Seq<char>;

    /// The owner reference's resource identifier.
    fn owner_rid(&self) -> (r: &String)
        ensures
            r@ == self.spec_owner_rid(),
    ;
}

impl Owned for Temperature {
    open spec fn spec_owner_rid(&self) -> Seq<char> {
        self.owner.rid@
    }

    fn owner_rid(&self) -> (r: &String) {
        &self.owner.rid
    }
}

impl Owned for LightLevel {
    open spec fn spec_owner_rid(&self) -> Seq<char> {
        self.owner.rid@
    }

    fn owner_rid(&self) -> (r: &String) {
        &self.owner.rid
    }
}

/// Whether a reading's owner identifier resolves to some device of the
/// snapshot.
pub open spec fn owner_resolves<R: Owned>(devices: Seq<Device>, reading: R) -> bool {
    find_by_id(devices, reading.spec_owner_rid()) is Some
}

/// The join of a reading collection against the device snapshot: one
/// (reading, device) pair per reading whose owner identifier resolves,
/// in the readings' original order; unresolvable readings are dropped.
pub open spec fn join_spec<R: Owned>(devices: Seq<Device>, readings: Seq<R>) -> Seq<(R, Device)>
    decreases readings.len(),
{
    if readings.len() == 0 {
        Seq::empty()
    } else {
        let rest = join_spec(devices, readings.drop_last());
        match find_by_id(devices, readings.last().spec_owner_rid()) {
            Some(d) => rest.push((readings.last(), d)),
            None => rest,
        }
    }
}

/// Resolves each reading to its owning device.
///
/// The result holds, pair for pair, the value of `join_spec` on the two
/// data lists: exactly the readings whose owner identifier appears in the
/// device snapshot, each beside the first device carrying that
/// identifier, in the readings' original order.
pub fn join<'a, R: Owned>(
    devices: &'a GenericResponse<Device>,
    readings: &'a GenericResponse<R>,
) -> (out: Vec<(&'a R, &'a Device)>)
    ensures
        out@.len() == join_spec(devices.data@, readings.data@).len(),
        forall|k: int| #![trigger out@[k]]
            0 <= k < out@.len() ==> *out@[k].0 == join_spec(devices.data@, readings.data@)[k].0
                && *out@[k].1 == join_spec(devices.data@, readings.data@)[k].1,
{
    let ghost devs = devices.data@;
    let mut out: Vec<(&'a R, &'a Device)> = Vec::new();
    let n: usize = readings.data.len();
    let mut i: usize = 0;
    while i < n
        invariant
            n == readings.data@.len(),
            0 <= i <= n,
            devs == devices.data@,
            out@.len() == join_spec(devs, readings.data@.subrange(0, i as int)).len(),
            forall|k: int| #![trigger out@[k]]
                0 <= k < out@.len() ==> *out@[k].0 == join_spec(
                    devs,
                    readings.data@.subrange(0, i as int),
                )[k].0 && *out@[k].1 == join_spec(devs, readings.data@.subrange(0, i as int))[k].1,
        decreases n - i,
    {
        let reading: &R = &readings.data[i];
        proof {
            let prefix = readings.data@.subrange(0, i as int);
            let grown = readings.data@.subrange(0, i + 1 as int);
            assert(grown.drop_last() =~= prefix);
            assert(grown.last() == readings.data@[i as int]);
        }
        match devices.get_by_id(reading.owner_rid()) {
            Some(device) => {
                out.push((reading, device));
            },
            None => {},
        }
        i += 1;
    }
    proof {
        assert(readings.data@.subrange(0, n as int) =~= readings.data@);
    }
    out
}

/// Join correctness: the readings that come out of the join are exactly
/// those whose owner identifier appears in the device snapshot, in their
/// original relative order, and each is paired with the device its owner
/// identifier resolves to.
pub proof fn lemma_join_correctness<R: Owned>(devices: Seq<Device>, readings: Seq<R>)
    ensures
        join_spec(devices, readings).map_values(|p: (R, Device)| p.0) == readings.filter(
            |r: R| owner_resolves(devices, r),
        ),
        forall|k: int|
            0 <= k < join_spec(devices, readings).len() ==> find_by_id(
                devices,
                (#[trigger] join_spec(devices, readings)[k]).0.spec_owner_rid(),
            ) == Some(join_spec(devices, readings)[k].1),
    decreases readings.len(),
{
    reveal(Seq::filter);
    let pred = |r: R| owner_resolves(devices, r);
    let first = |p: (R, Device)| p.0;
    if readings.len() == 0 {
        assert(join_spec(devices, readings).map_values(first) =~= readings.filter(pred));
    } else {
        let rest = readings.drop_last();
        lemma_join_correctness(devices, rest);
        assert(join_spec(devices, rest).map_values(first) == rest.filter(pred));
        match find_by_id(devices, readings.last().spec_owner_rid()) {
            Some(d) => {
                assert(join_spec(devices, readings) == join_spec(devices, rest).push(
                    (readings.last(), d),
                ));
                assert(join_spec(devices, readings).map_values(first) =~= join_spec(
                    devices,
                    rest,
                ).map_values(first).push(readings.last()));
                assert(readings.filter(pred) == rest.filter(pred).push(readings.last()));
            },
            None => {
                assert(join_spec(devices, readings) == join_spec(devices, rest));
                assert(readings.filter(pred) == rest.filter(pred));
            },
        }
    }
}

/// Drop-on-miss: where a reading's owner identifier is absent from the
/// device snapshot, no pair of the join carries that identifier.
pub proof fn lemma_drop_on_miss<R: Owned>(devices: Seq<Device>, readings: Seq<R>, i: int)
    requires
        0 <= i < readings.len(),
        !owner_resolves(devices, readings[i]),
    ensures
        forall|k: int|
            0 <= k < join_spec(devices, readings).len() ==> (
            #[trigger] join_spec(devices, readings)[k]).0.spec_owner_rid()
                != readings[i].spec_owner_rid(),
{
    lemma_join_correctness(devices, readings);
}

/// The join never yields more pairs than there are readings.
pub proof fn lemma_join_len<R: Owned>(devices: Seq<Device>, readings: Seq<R>)
    ensures
        join_spec(devices, readings).len() <= readings.len(),
    decreases readings.len(),
{
    if readings.len() > 0 {
        lemma_join_len(devices, readings.drop_last());
    }
}

} // verus!
