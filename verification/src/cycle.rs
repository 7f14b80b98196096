//! The cycle body's record building: join, then convert, per reading.
//!
//! One tick fetches the device snapshot and both reading collections,
//! joins each reading collection against the snapshot, and converts every
//! joined pair into a metric record. A conversion failure skips that one
//! record and is counted; it never aborts the cycle. Join misses are
//! counted per collection for operational visibility.

use vstd::prelude::*;

use crate::convert::{
    convert_light_level, convert_temperature, spec_convert_light_level, spec_convert_temperature,
};
use crate::devices::Device;
use crate::join::{join, join_spec, lemma_join_len, Owned};
use crate::light_level::LightLevel;
use crate::metrics::MetricRecord;
use crate::response::GenericResponse;
use crate::temperature::Temperature;

verus! {

/// The records the joined temperature pairs convert to, in order,
/// skipping pairs whose conversion fails.
pub open spec fn temperature_records(pairs: Seq<(Temperature, Device)>) -> Seq<MetricRecord>
    decreases pairs.len(),
{
    if pairs.len() == 0 {
        Seq::empty()
    } else {
        let rest = temperature_records(pairs.drop_last());
        match spec_convert_temperature(pairs.last().0, pairs.last().1) {
            Ok(m) => rest.push(MetricRecord::Temperature(m)),
            Err(_) => rest,
        }
    }
}

/// The records the joined light-level pairs convert to, in order,
/// skipping pairs whose conversion fails.
pub open spec fn light_level_records(pairs: Seq<(LightLevel, Device)>) -> Seq<MetricRecord>
    decreases pairs.len(),
{
    if pairs.len() == 0 {
        Seq::empty()
    } else {
        let rest = light_level_records(pairs.drop_last());
        match spec_convert_light_level(pairs.last().0, pairs.last().1) {
            Ok(m) => rest.push(MetricRecord::LightLevel(m)),
            Err(_) => rest,
        }
    }
}

/// Everything one tick emits: the converted temperature records followed
/// by the converted light-level records.
pub open spec fn cycle_records(
    devices: Seq<Device>,
    temperatures: Seq<Temperature>,
    light_levels: Seq<LightLevel>,
) -> Seq<MetricRecord> {
    temperature_records(join_spec(devices, temperatures)) + light_level_records(
        join_spec(devices, light_levels),
    )
}

/// Conversion skips pairs, it never adds records.
pub proof fn lemma_temperature_records_len(pairs: Seq<(Temperature, Device)>)
    ensures
        temperature_records(pairs).len() <= pairs.len(),
    decreases pairs.len(),
{
    if pairs.len() > 0 {
        lemma_temperature_records_len(pairs.drop_last());
    }
}

/// Conversion skips pairs, it never adds records.
pub proof fn lemma_light_level_records_len(pairs: Seq<(LightLevel, Device)>)
    ensures
        light_level_records(pairs).len() <= pairs.len(),
    decreases pairs.len(),
{
    if pairs.len() > 0 {
        lemma_light_level_records_len(pairs.drop_last());
    }
}

/// Counts kept per cycle: readings dropped because their owner identifier
/// did not resolve, pairs skipped because conversion failed, and the
/// submission outcomes.
#[derive(Debug, Clone, Copy, PartialEq, Eq, Structural)]
pub struct CycleStats {
    /// Temperature readings whose owner identifier was absent from the
    /// device snapshot.
    pub temperature_misses: usize,
    /// Light-level readings whose owner identifier was absent from the
    /// device snapshot.
    pub light_level_misses: usize,
    /// Joined temperature pairs skipped by a conversion failure.
    pub temperature_conversion_failures: usize,
    /// Joined light-level pairs skipped by a conversion failure.
    pub light_level_conversion_failures: usize,
    /// Records accepted by the sink so far this cycle.
    pub submitted: usize,
    /// Records the sink refused so far this cycle; each was skipped.
    pub submission_failures: usize,
}

/// Whether the record's two labels are those of some device of the
/// snapshot: its identifier and its display name.
pub open spec fn labels_resolve(devices: Seq<Device>, record: MetricRecord) -> bool {
    exists|d: Device|
        devices.contains(d) && record.spec_device_id() == d.id@ && record.spec_device()
            == d.metadata.name@
}

proof fn lemma_temperature_records_labels(devices: Seq<Device>, pairs: Seq<(Temperature, Device)>)
    requires
        forall|i: int| 0 <= i < pairs.len() ==> devices.contains((#[trigger] pairs[i]).1),
    ensures
        forall|k: int|
            0 <= k < temperature_records(pairs).len() ==> labels_resolve(
                devices,
                #[trigger] temperature_records(pairs)[k],
            ),
    decreases pairs.len(),
{
    if pairs.len() > 0 {
        let rest = pairs.drop_last();
        assert(forall|i: int| 0 <= i < rest.len() ==> devices.contains((#[trigger] rest[i]).1));
        lemma_temperature_records_labels(devices, rest);
        let recs = temperature_records(pairs);
        let rest_recs = temperature_records(rest);
        assert forall|k: int| 0 <= k < recs.len() implies labels_resolve(
            devices,
            #[trigger] recs[k],
        ) by {
            match spec_convert_temperature(pairs.last().0, pairs.last().1) {
                Ok(m) => {
                    if k < rest_recs.len() {
                        assert(recs[k] == rest_recs[k]);
                    } else {
                        let owner = pairs.last().1;
                        assert(devices.contains(owner));
                        assert(recs[k] == MetricRecord::Temperature(m));
                        assert(recs[k].spec_device_id() == owner.id@ && recs[k].spec_device()
                            == owner.metadata.name@);
                    }
                },
                Err(_) => {
                    assert(recs[k] == rest_recs[k]);
                },
            }
        }
    }
}

proof fn lemma_light_level_records_labels(devices: Seq<Device>, pairs: Seq<(LightLevel, Device)>)
    requires
        forall|i: int| 0 <= i < pairs.len() ==> devices.contains((#[trigger] pairs[i]).1),
    ensures
        forall|k: int|
            0 <= k < light_level_records(pairs).len() ==> labels_resolve(
                devices,
                #[trigger] light_level_records(pairs)[k],
            ),
    decreases pairs.len(),
{
    if pairs.len() > 0 {
        let rest = pairs.drop_last();
        assert(forall|i: int| 0 <= i < rest.len() ==> devices.contains((#[trigger] rest[i]).1));
        lemma_light_level_records_labels(devices, rest);
        let recs = light_level_records(pairs);
        let rest_recs = light_level_records(rest);
        assert forall|k: int| 0 <= k < recs.len() implies labels_resolve(
            devices,
            #[trigger] recs[k],
        ) by {
            match spec_convert_light_level(pairs.last().0, pairs.last().1) {
                Ok(m) => {
                    if k < rest_recs.len() {
                        assert(recs[k] == rest_recs[k]);
                    } else {
                        let owner = pairs.last().1;
                        assert(devices.contains(owner));
                        assert(recs[k] == MetricRecord::LightLevel(m));
                        assert(recs[k].spec_device_id() == owner.id@ && recs[k].spec_device()
                            == owner.metadata.name@);
                    }
                },
                Err(_) => {
                    assert(recs[k] == rest_recs[k]);
                },
            }
        }
    }
}

/// Every record of a cycle carries the labels of a device present in the
/// same tick's device snapshot; a reading whose owner does not resolve
/// never becomes a record, so no record goes out with missing labels.
pub proof fn lemma_cycle_records_labels(
    devices: Seq<Device>,
    temperatures: Seq<Temperature>,
    light_levels: Seq<LightLevel>,
)
    ensures
        forall|k: int|
            0 <= k < cycle_records(devices, temperatures, light_levels).len() ==> labels_resolve(
                devices,
                #[trigger] cycle_records(devices, temperatures, light_levels)[k],
            ),
{
    let jt = join_spec(devices, temperatures);
    let jl = join_spec(devices, light_levels);
    crate::join::lemma_join_correctness(devices, temperatures);
    crate::join::lemma_join_correctness(devices, light_levels);
    assert forall|i: int| 0 <= i < jt.len() implies devices.contains((#[trigger] jt[i]).1) by {
        crate::response::lemma_find_by_id_present(devices, jt[i].0.spec_owner_rid());
    }
    assert forall|i: int| 0 <= i < jl.len() implies devices.contains((#[trigger] jl[i]).1) by {
        crate::response::lemma_find_by_id_present(devices, jl[i].0.spec_owner_rid());
    }
    lemma_temperature_records_labels(devices, jt);
    lemma_light_level_records_labels(devices, jl);
    assert forall|k: int|
        0 <= k < cycle_records(devices, temperatures, light_levels).len() implies labels_resolve(
        devices,
        #[trigger] cycle_records(devices, temperatures, light_levels)[k],
    ) by {
        let full = cycle_records(devices, temperatures, light_levels);
        let firsts = temperature_records(jt);
        let seconds = light_level_records(jl);
        if k < firsts.len() {
            assert(full[k] == firsts[k]);
        } else {
            assert(full[k] == seconds[k - firsts.len()]);
        }
    }
}

/// The counts a cycle starts emitting with: the join misses and
/// conversion failures of the two reading collections, and no submission
/// outcomes yet.
pub open spec fn initial_cycle_stats(
    devices: Seq<Device>,
    temperatures: Seq<Temperature>,
    light_levels: Seq<LightLevel>,
) -> CycleStats {
    CycleStats {
        temperature_misses: (temperatures.len() - join_spec(devices, temperatures).len()) as usize,
        light_level_misses: (light_levels.len() - join_spec(devices, light_levels).len()) as usize,
        temperature_conversion_failures: (join_spec(devices, temperatures).len()
            - temperature_records(join_spec(devices, temperatures)).len()) as usize,
        light_level_conversion_failures: (join_spec(devices, light_levels).len()
            - light_level_records(join_spec(devices, light_levels)).len()) as usize,
        submitted: 0,
        submission_failures: 0,
    }
}

/// The counts after one more submission outcome: accepted increments
/// `submitted`, refused increments `submission_failures`.
pub open spec fn after_submission(stats: CycleStats, accepted: bool) -> CycleStats {
    if accepted {
        CycleStats { submitted: (stats.submitted + 1) as usize, ..stats }
    } else {
        CycleStats { submission_failures: (stats.submission_failures + 1) as usize, ..stats }
    }
}

/// Joins both reading collections against the device snapshot and
/// converts every joined pair, skipping and counting the pairs whose
/// conversion fails.
pub fn build_records(
    devices: &GenericResponse<Device>,
    temperatures: &GenericResponse<Temperature>,
    light_levels: &GenericResponse<LightLevel>,
) -> (r: (Vec<MetricRecord>, CycleStats))
    ensures
        r.0@ == cycle_records(devices.data@, temperatures.data@, light_levels.data@),
        r.1 == initial_cycle_stats(devices.data@, temperatures.data@, light_levels.data@),
{
    let ghost devs = devices.data@;
    let ghost jt = join_spec(devices.data@, temperatures.data@);
    let ghost jl = join_spec(devices.data@, light_levels.data@);
    proof {
        lemma_join_len(devs, temperatures.data@);
        lemma_join_len(devs, light_levels.data@);
        lemma_temperature_records_len(jt);
        lemma_light_level_records_len(jl);
    }
    let temperature_pairs = join(devices, temperatures);
    let light_level_pairs = join(devices, light_levels);

    let mut records: Vec<MetricRecord> = Vec::new();
    let tn: usize = temperature_pairs.len();
    let mut i: usize = 0;
    while i < tn
        invariant
            tn == temperature_pairs@.len(),
            0 <= i <= tn,
            jt == join_spec(devices.data@, temperatures.data@),
            temperature_pairs@.len() == jt.len(),
            forall|k: int| #![trigger temperature_pairs@[k]]
                0 <= k < jt.len() ==> *temperature_pairs@[k].0 == jt[k].0
                    && *temperature_pairs@[k].1 == jt[k].1,
            records@ == temperature_records(jt.subrange(0, i as int)),
        decreases tn - i,
    {
        proof {
            let prefix = jt.subrange(0, i as int);
            let grown = jt.subrange(0, i + 1 as int);
            assert(grown.drop_last() =~= prefix);
            assert(grown.last() == jt[i as int]);
        }
        let pair = temperature_pairs[i];
        match convert_temperature(pair.0, pair.1) {
            Ok(m) => records.push(MetricRecord::Temperature(m)),
            Err(_) => {},
        }
        i += 1;
    }
    proof {
        assert(jt.subrange(0, jt.len() as int) =~= jt);
        lemma_temperature_records_len(jt);
    }
    let temperature_count: usize = records.len();

    let ln: usize = light_level_pairs.len();
    let mut j: usize = 0;
    while j < ln
        invariant
            ln == light_level_pairs@.len(),
            0 <= j <= ln,
            jl == join_spec(devices.data@, light_levels.data@),
            light_level_pairs@.len() == jl.len(),
            forall|k: int| #![trigger light_level_pairs@[k]]
                0 <= k < jl.len() ==> *light_level_pairs@[k].0 == jl[k].0
                    && *light_level_pairs@[k].1 == jl[k].1,
            records@ == temperature_records(jt) + light_level_records(jl.subrange(0, j as int)),
        decreases ln - j,
    {
        proof {
            let prefix = jl.subrange(0, j as int);
            let grown = jl.subrange(0, j + 1 as int);
            assert(grown.drop_last() =~= prefix);
            assert(grown.last() == jl[j as int]);
        }
        let pair = light_level_pairs[j];
        match convert_light_level(pair.0, pair.1) {
            Ok(m) => {
                records.push(MetricRecord::LightLevel(m));
                proof {
                    assert(records@ =~= temperature_records(jt) + light_level_records(
                        jl.subrange(0, j + 1 as int),
                    ));
                }
            },
            Err(_) => {},
        }
        j += 1;
    }
    proof {
        assert(jl.subrange(0, jl.len() as int) =~= jl);
        lemma_light_level_records_len(jl);
    }

    let stats = CycleStats {
        temperature_misses: temperatures.data.len() - tn,
        light_level_misses: light_levels.data.len() - ln,
        temperature_conversion_failures: tn - temperature_count,
        light_level_conversion_failures: ln - (records.len() - temperature_count),
        submitted: 0,
        submission_failures: 0,
    };
    (records, stats)
}

} // verus!
