use vstd::prelude::*;

verus! {

/// A resolved device handle, the unit of output of the bridge.
///
/// The bridge never looks inside a handle: it only obtains one from the OS
/// resolution step and passes it on, unchanged, to the consumer's callback.
/// The handle is therefore modelled by the opaque key under which the OS
/// knows the device.
#[derive(Clone, Copy, Debug, PartialEq, Eq, Structural)]
pub struct DeviceHandle {
    pub key: u64,
}

/// A raw over-the-air BLE advertisement event as surfaced by the OS.
///
/// The bridge consumes exactly one field of such an event: the advertiser's
/// 48-bit hardware address, used for resolution only.
#[derive(Clone, Copy, Debug, PartialEq, Eq, Structural)]
pub struct AdvertisementEvent {
    pub address: u64,
}

/// An OS device-information event for an already-connected device.
///
/// The bridge consumes exactly one field: the stable device identifier
/// string, used for resolution only.
#[derive(Clone, Debug, PartialEq, Eq)]
pub struct DeviceInformationEvent {
    pub id: String,
}

} // verus!
