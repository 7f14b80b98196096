//! Ambient light level sensor readings.
//!
//! A light-level reading carries an integer payload on a logarithmic
//! sensor scale; conversion requires the payload to be an exact signed
//! 64-bit integer. The validity flag is carried but not consulted by
//! conversion.

use vstd::prelude::*;

use crate::devices::ResourceIdentifier;
use crate::number::WireNumber;

verus! {

/// Request: fetch the full light-level collection, or one reading by
/// identifier.
#[derive(Debug, Clone, PartialEq, Eq, Hash)]
pub struct LightLevelRequest {
    pub id: Option<String>,
}

/// The last light-level report of a sensor.
#[derive(Debug, Clone, PartialEq, Eq, Hash)]
pub struct LightLevelReport {
    pub changed: String,
    pub light_level: WireNumber,
}

/// The light-level state of a sensor.
#[derive(Debug, Clone, PartialEq, Eq, Hash)]
pub struct LightLevelData {
    pub light_level: WireNumber,
    pub light_level_valid: bool,
    pub light_level_report: LightLevelReport,
}

/// A light-level reading with its owner reference.
#[derive(Debug, Clone, PartialEq, Eq, Hash)]
pub struct LightLevel {
    pub device_type: String,
    pub id: String,
    pub id_v1: Option<String>,
    pub owner: ResourceIdentifier,
    pub enabled: bool,
    pub light: LightLevelData,
}

impl LightLevelRequest {
    /// The resource path: the whole collection without an identifier, one
    /// reading with one.
    pub fn endpoint(&self) -> (r: String)
        ensures
            self.id matches Some(entity_id) ==> r@ == "/clip/v2/resource/light_level/"@
                + entity_id@,
            self.id is None ==> r@ == "/clip/v2/resource/light_level"@,
    {
        match &self.id {
            None => String::from_str("/clip/v2/resource/light_level"),
            Some(entity_id) => String::from_str("/clip/v2/resource/light_level/").concat(
                entity_id.as_str(),
            ),
        }
    }
}

impl Default for LightLevelRequest {
    /// The default request fetches the whole collection.
    fn default() -> (r: Self)
        ensures
            r.id is None,
    {
        LightLevelRequest { id: None }
    }
}

} // verus!
