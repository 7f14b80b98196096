//! Sink-ready metric records.
//!
//! A metric record is the unit submitted to the metric sink: a
//! kind-tagged structure carrying one converted numeric value and two
//! identifying labels, the owning device's display name and identifier.
//! Both labels must come from a device present in the same tick's
//! snapshot.

use vstd::prelude::*;

use crate::number::WireNumber;

verus! {

/// A converted temperature metric. The decimal payload is carried as the
/// tagged wire number it arrived as; the sink boundary reinterprets it as
/// a 64-bit floating-point value.
#[derive(Debug, PartialEq, Eq, Hash)]
pub struct TemperatureMetric {
    pub temperature: WireNumber,
    pub device: String,
    pub device_id: String,
}

/// A converted ambient light level metric.
#[derive(Debug, PartialEq, Eq, Hash)]
pub struct LightLevelMetric {
    pub light_level: i64,
    pub device: String,
    pub device_id: String,
}

/// One record of either metric kind, as queued for submission.
#[derive(Debug, PartialEq, Eq, Hash)]
pub enum MetricRecord {
    Temperature(TemperatureMetric),
    LightLevel(LightLevelMetric),
}

impl MetricRecord {
    /// The device display-name label of the record.
    pub open spec fn spec_device(self) -> Seq<char> {
        match self {
            MetricRecord::Temperature(m) => m.device@,
            MetricRecord::LightLevel(m) => m.device@,
        }
    }

    /// The device identifier label of the record.
    pub open spec fn spec_device_id(self) -> Seq<char> {
        match self {
            MetricRecord::Temperature(m) => m.device_id@,
            MetricRecord::LightLevel(m) => m.device_id@,
        }
    }
}

impl Clone for TemperatureMetric {
    fn clone(&self) -> (r: Self)
        ensures
            r == *self,
    {
        TemperatureMetric {
            temperature: self.temperature,
            device: self.device.clone(),
            device_id: self.device_id.clone(),
        }
    }
}

impl Clone for LightLevelMetric {
    fn clone(&self) -> (r: Self)
        ensures
            r == *self,
    {
        LightLevelMetric {
            light_level: self.light_level,
            device: self.device.clone(),
            device_id: self.device_id.clone(),
        }
    }
}

impl Clone for MetricRecord {
    fn clone(&self) -> (r: Self)
        ensures
            r == *self,
    {
        match self {
            MetricRecord::Temperature(m) => MetricRecord::Temperature(m.clone()),
            MetricRecord::LightLevel(m) => MetricRecord::LightLevel(m.clone()),
        }
    }
}

} // verus!
