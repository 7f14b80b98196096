//! Metric conversion: raw sensor payloads to typed metric records.
//!
//! One function per reading kind. Temperature requires a numeric payload;
//! light level requires an exact signed 64-bit integer payload. No unit
//! conversion, scaling or validity-flag filtering happens here: callers
//! may consult the readings' validity flags, conversion does not.

use vstd::prelude::*;

use crate::devices::Device;
use crate::error::ConversionError;
use crate::light_level::LightLevel;
use crate::metrics::{LightLevelMetric, TemperatureMetric};
use crate::number::WireNumber;
use crate::temperature::Temperature;

verus! {

/// What converting a temperature reading yields: the payload unchanged
/// under the device's labels, or `NotNumeric` where the payload carries
/// no numeric value.
pub open spec fn spec_convert_temperature(reading: Temperature, device: Device) -> Result<
    TemperatureMetric,
    ConversionError,
> {
    if reading.temperature.temperature.is_numeric() {
        Ok(
            (TemperatureMetric {
                temperature: reading.temperature.temperature,
                device: device.metadata.name,
                device_id: device.id,
            }),
        )
    } else {
        Err(ConversionError::NotNumeric)
    }
}

/// What converting a light-level reading yields: the integer payload
/// under the device's labels, or a conversion error where the payload is
/// not an exact signed 64-bit integer.
pub open spec fn spec_convert_light_level(reading: LightLevel, device: Device) -> Result<
    LightLevelMetric,
    ConversionError,
> {
    match reading.light.light_level {
        WireNumber::Int(i) => Ok(
            (LightLevelMetric { light_level: i, device: device.metadata.name, device_id: device.id }),
        ),
        WireNumber::NonNumeric => Err(ConversionError::NotNumeric),
        _ => Err(ConversionError::NotInteger),
    }
}

/// Converts one temperature reading joined with its owning device.
///
/// Succeeds exactly on numeric payloads; the record carries the payload
/// unchanged and the device's display name and identifier as labels.
pub fn convert_temperature(reading: &Temperature, device: &Device) -> (r: Result<
    TemperatureMetric,
    ConversionError,
>)
    ensures
        r == spec_convert_temperature(*reading, *device),
        r is Ok <==> reading.temperature.temperature.is_numeric(),
{
    if reading.temperature.temperature.numeric() {
        Ok(
            TemperatureMetric {
                temperature: reading.temperature.temperature,
                device: device.metadata.name.clone(),
                device_id: device.id.clone(),
            },
        )
    } else {
        Err(ConversionError::NotNumeric)
    }
}

/// Converts one light-level reading joined with its owning device.
///
/// Succeeds exactly on payloads that are exact signed 64-bit integers;
/// the record carries that integer and the device's display name and
/// identifier as labels.
pub fn convert_light_level(reading: &LightLevel, device: &Device) -> (r: Result<
    LightLevelMetric,
    ConversionError,
>)
    ensures
        r == spec_convert_light_level(*reading, *device),
        r is Ok <==> reading.light.light_level.is_integer(),
{
    match reading.light.light_level.as_integer() {
        Some(i) => Ok(
            LightLevelMetric {
                light_level: i,
                device: device.metadata.name.clone(),
                device_id: device.id.clone(),
            },
        ),
        None => {
            if reading.light.light_level.numeric() {
                Err(ConversionError::NotInteger)
            } else {
                Err(ConversionError::NotNumeric)
            }
        },
    }
}

} // verus!
