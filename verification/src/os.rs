use vstd::prelude::*;
use crate::device::DeviceHandle;

verus! {

/// The error value the OS subsystem reports for a failed call, reduced to
/// what the bridge reads of it: its diagnostic text.
#[derive(Clone, Debug, PartialEq, Eq)]
pub struct OsError {
    pub message: String,
}

/// The OS calls the bridge makes over the lifetime of one instance. An
/// [`Error`](crate::error::Error) names the call it came from, so a caller
/// can tell which OS call failed.
#[derive(Clone, Copy, Debug, PartialEq, Eq, Structural)]
pub enum OsCall {
    /// Creating the advertisement watcher object.
    CreateAdvertisementWatcher,
    /// Creating the connected-device-information watcher object.
    CreateDeviceWatcher,
    /// Starting advertisement scanning.
    StartAdvertisementScan,
    /// Starting connected-device-information watching.
    StartDeviceWatch,
    /// Stopping advertisement scanning.
    StopAdvertisementScan,
    /// Stopping connected-device-information watching.
    StopDeviceWatch,
}

/// A scripted model of the OS Bluetooth subsystem, as one plain value.
///
/// Each field gives the outcome the OS would report for the corresponding
/// call, and the two tables give which addresses and which stable device
/// identifiers the OS can resolve into device handles. The bridge consults
/// this value wherever the real system would call into the OS, so its
/// whole lifecycle and delivery logic is verified for every scripted
/// environment; a simulated environment for a test is just such a value.
pub struct OsEnv {
    /// Outcome of creating the advertisement watcher object.
    pub create_advertisement_watcher: Result<(), OsError>,
    /// Outcome of creating the device-information watcher object.
    pub create_device_watcher: Result<(), OsError>,
    /// Outcome of activating advertisement scanning.
    pub start_advertisement_scan: Result<(), OsError>,
    /// Outcome of activating device-information watching.
    pub start_device_watch: Result<(), OsError>,
    /// Outcome of deactivating advertisement scanning.
    pub stop_advertisement_scan: Result<(), OsError>,
    /// Outcome of deactivating device-information watching.
    pub stop_device_watch: Result<(), OsError>,
    /// Which advertiser hardware addresses resolve, and to which handle.
    pub devices_by_address: Vec<(u64, DeviceHandle)>,
    /// Which stable device identifiers resolve, and to which handle.
    pub devices_by_id: Vec<(String, DeviceHandle)>,
}

/// What the OS asynchronous lookup returns for a hardware address: the
/// handle of the first table entry for that address, or nothing when the
/// device cannot be resolved (for example, it vanished between the event
/// and the lookup).
pub open spec fn spec_resolve_address(
    table: Seq<(u64, DeviceHandle)>,
    address: u64,
) -> Option<DeviceHandle>
    decreases table.len(),
{
    if table.len() == 0 {
        None
    } else if table[0].0 == address {
        Some(table[0].1)
    } else {
        spec_resolve_address(table.drop_first(), address)
    }
}

/// What the OS asynchronous lookup returns for a stable device identifier.
pub open spec fn spec_resolve_id(
    table: Seq<(String, DeviceHandle)>,
    id: Seq<char>,
) -> Option<DeviceHandle>
    decreases table.len(),
{
    if table.len() == 0 {
        None
    } else if table[0].0@ == id {
        Some(table[0].1)
    } else {
        spec_resolve_id(table.drop_first(), id)
    }
}

impl OsEnv {
    /// The OS asynchronous lookup from an advertiser's hardware address to
    /// a full device handle.
    pub fn resolve_address(&self, address: u64) -> (r: Option<DeviceHandle>)
        ensures
            r == spec_resolve_address(self.devices_by_address@, address),
    {
        let table = &self.devices_by_address;
        let n = table.len();
        let mut i: usize = 0;
        proof {
            assert(table@.skip(0) =~= table@);
        }
        while i < n
            invariant
                table == &self.devices_by_address,
                n == table@.len(),
                i <= n,
                spec_resolve_address(table@, address) == spec_resolve_address(
                    table@.skip(i as int),
                    address,
                ),
            decreases n - i,
        {
            proof {
                assert(table@.skip(i as int).len() == n - i);
                assert(table@.skip(i as int)[0] == table@[i as int]);
                assert(table@.skip(i as int).drop_first() =~= table@.skip(i as int + 1));
            }
            if table[i].0 == address {
                proof {
                    assert(spec_resolve_address(table@.skip(i as int), address) == Some(
                        table@[i as int].1,
                    ));
                }
                return Some(table[i].1);
            }
            i = i + 1;
        }
        None
    }

    /// The OS asynchronous lookup from a stable device identifier to a
    /// full device handle.
    pub fn resolve_id(&self, id: &String) -> (r: Option<DeviceHandle>)
        ensures
            r == spec_resolve_id(self.devices_by_id@, id@),
    {
        let table = &self.devices_by_id;
        let n = table.len();
        let mut i: usize = 0;
        proof {
            assert(table@.skip(0) =~= table@);
        }
        while i < n
            invariant
                table == &self.devices_by_id,
                n == table@.len(),
                i <= n,
                spec_resolve_id(table@, id@) == spec_resolve_id(table@.skip(i as int), id@),
            decreases n - i,
        {
            proof {
                assert(table@.skip(i as int).len() == n - i);
                assert(table@.skip(i as int)[0] == table@[i as int]);
                assert(table@.skip(i as int).drop_first() =~= table@.skip(i as int + 1));
            }
            if table[i].0 == *id {
                proof {
                    assert(spec_resolve_id(table@.skip(i as int), id@) == Some(
                        table@[i as int].1,
                    ));
                }
                return Some(table[i].1);
            }
            i = i + 1;
        }
        None
    }

    /// The OS accepts both watcher-object creations: a radio is present
    /// and both sub-watchers can be constructed.
    pub open spec fn construction_ok(self) -> bool {
        self.create_advertisement_watcher is Ok && self.create_device_watcher is Ok
    }

    /// The OS accepts both subscription activations.
    pub open spec fn activation_ok(self) -> bool {
        self.start_advertisement_scan is Ok && self.start_device_watch is Ok
    }

    /// The OS accepts both subscription deactivations.
    pub open spec fn deactivation_ok(self) -> bool {
        self.stop_advertisement_scan is Ok && self.stop_device_watch is Ok
    }
}

} // verus!
