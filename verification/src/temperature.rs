//! Temperature sensor readings.
//!
//! A temperature reading carries a decimal payload; conversion requires
//! the payload to be interpretable as a 64-bit floating-point value. The
//! validity flag is carried but not consulted by conversion.

use vstd::prelude::*;

use crate::devices::ResourceIdentifier;
use crate::number::WireNumber;

verus! {

/// Request marker: fetch the full temperature-reading collection.
#[derive(Debug, Clone, Copy, PartialEq, Eq, Hash, Structural)]
pub struct TemperaturesRequest {}

/// Request marker: fetch one temperature reading by identifier.
#[derive(Debug, Clone, PartialEq, Eq, Hash)]
pub struct TemperatureRequest {
    pub id: String,
}

/// The last temperature report of a sensor.
#[derive(Debug, Clone, PartialEq, Eq, Hash)]
pub struct TemperatureReport {
    pub changed: String,
    pub temperature: WireNumber,
}

/// The temperature state of a sensor.
#[derive(Debug, Clone, PartialEq, Eq, Hash)]
pub struct TemperatureData {
    pub temperature: WireNumber,
    pub temperature_valid: bool,
    pub temperature_report: TemperatureReport,
}

/// A temperature reading with its owner reference.
#[derive(Debug, Clone, PartialEq, Eq, Hash)]
pub struct Temperature {
    pub device_type: String,
    pub id: String,
    pub id_v1: Option<String>,
    pub owner: ResourceIdentifier,
    pub enabled: bool,
    pub temperature: TemperatureData,
}

impl TemperaturesRequest {
    /// The resource path the temperature collection is fetched from.
    pub fn endpoint(&self) -> (r: String)
        ensures
            r@ == "/clip/v2/resource/temperature"@,
    {
        String::from_str("/clip/v2/resource/temperature")
    }
}

impl TemperatureRequest {
    /// The resource path of the one requested temperature reading.
    pub fn endpoint(&self) -> (r: String)
        ensures
            r@ == "/clip/v2/resource/temperature/"@ + self.id@,
    {
        String::from_str("/clip/v2/resource/temperature/").concat(self.id.as_str())
    }
}

} // verus!
