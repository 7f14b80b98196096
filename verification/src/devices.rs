//! Devices: the owned resources readings are joined against.
//!
//! A device is a read-only snapshot fetched fresh every tick. Its
//! identifier is the join key: every sensor reading carries an owner
//! reference whose `rid` must match a device identifier from the same
//! tick's snapshot before a metric may be emitted.

use vstd::prelude::*;

use crate::response::Id;

verus! {

/// Request marker: fetch the full device collection.
#[derive(Debug, Clone, Copy, PartialEq, Eq, Hash, Structural)]
pub struct DevicesRequest {}

/// Request marker: fetch one device by identifier.
#[derive(Debug, Clone, PartialEq, Eq, Hash)]
pub struct DeviceRequest {
    pub id: String,
}

/// Manufacturing data reported for a device.
#[derive(Debug, Clone, PartialEq, Eq, Hash)]
pub struct ProductData {
    pub model_id: String,
    pub manufacturer_name: String,
    pub product_name: String,
    pub product_archetype: String,
    pub certified: bool,
    pub software_version: String,
    pub hardware_platform_type: Option<String>,
}

/// Display metadata of a device; `name` labels every emitted metric.
#[derive(Debug, Clone, PartialEq, Eq, Hash)]
pub struct MetaData {
    pub name: String,
    pub archetype: String,
}

/// State of a device's user test mode.
#[derive(Debug, Clone, PartialEq, Eq, Hash)]
pub struct Usertest {
    pub status: String,
    pub usertest: bool,
}

/// Tag for the device mode value.
#[derive(Debug, Clone, Copy, PartialEq, Eq, Hash, Structural)]
pub struct DeviceModeType {}

/// Mode a device currently runs in.
#[derive(Debug, Clone, PartialEq, Eq, Hash)]
pub struct DeviceMode {
    pub status: String,
    pub mode: DeviceModeType,
}

/// Marker for a device's identify capability.
#[derive(Debug, Clone, Copy, PartialEq, Eq, Hash, Structural)]
pub struct Identify {}

/// A (resource-id, resource-type) pair pointing at another resource.
#[derive(Debug, Clone, PartialEq, Eq, Hash)]
pub struct ResourceIdentifier {
    pub rid: String,
    pub rtype: String,
}

/// A physical endpoint owning sensor services.
#[derive(Debug, Clone, PartialEq, Eq, Hash)]
pub struct Device {
    pub device_type: String,
    pub id: String,
    pub id_v1: Option<String>,
    pub product_data: ProductData,
    pub metadata: MetaData,
    pub identify: Option<Identify>,
    pub usertest: Option<Usertest>,
    pub device_mode: Option<DeviceMode>,
    pub services: Vec<ResourceIdentifier>,
}

impl DevicesRequest {
    /// The resource path the device collection is fetched from.
    pub fn endpoint(&self) -> (r: String)
        ensures
            r@ == "/clip/v2/resource/device"@,
    {
        String::from_str("/clip/v2/resource/device")
    }
}

impl DeviceRequest {
    /// The resource path of the one requested device.
    pub fn endpoint(&self) -> (r: String)
        ensures
            r@ == "/clip/v2/resource/device/"@ + self.id@,
    {
        String::from_str("/clip/v2/resource/device/").concat(self.id.as_str())
    }
}

impl Id for Device {
    open spec fn spec_id(&self) -> Seq<char> {
        self.id@
    }

    fn id(&self) -> (r: &String) {
        &self.id
    }
}

} // verus!
