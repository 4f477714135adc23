use vstd::prelude::*;
use crate::device::AdvertisementEvent;
use crate::device::DeviceHandle;
use crate::device::DeviceInformationEvent;
use crate::error::Error;
use crate::os::OsCall;
use crate::os::OsEnv;

verus! {

/// The lifecycle of one sub-watcher's OS subscription. A bridge instance
/// is single-use: a subscription never returns from `Unsubscribed` to an
/// earlier state.
#[derive(Clone, Copy, Debug, PartialEq, Eq, Structural)]
pub enum WatcherState {
    /// The subscription object exists but is not active.
    Created,
    /// The subscription is active: the OS delivers events.
    Subscribed,
    /// The subscription has been deactivated.
    Unsubscribed,
}

/// The scanning mode of the advertisement watcher. `start` switches the
/// watcher to `Active` scanning explicitly, because passive scanning
/// misses scannable-advertisement data needed to resolve some devices.
#[derive(Clone, Copy, Debug, PartialEq, Eq, Structural)]
pub enum ScanningMode {
    /// Listen only; the OS default after construction.
    Passive,
    /// Actively request scan responses.
    Active,
}

/// The device-discovered callback the caller supplies to `start`.
///
/// It is invoked zero or more times, possibly concurrently from several
/// threads, once per successfully resolved event, for the lifetime between
/// `start` and `stop`; an invocation already in flight when `stop` returns
/// may still be delivered. Implementations must therefore be safely
/// callable through a shared reference from multiple threads at once.
pub trait DeviceDiscoveredCallback {
    /// Receives ownership of one resolved device handle.
    fn on_device_discovered(&self, device: DeviceHandle);
}

/// The discovery bridge: two sub-watchers over the OS Bluetooth subsystem
/// sharing one device-discovered callback.
///
/// The advertisement watcher resolves the advertiser address of every raw
/// advertisement into a device handle; the device-information watcher does
/// the same with the stable identifier of every connected-device event, to
/// catch devices that reconnect without a fresh advertisement. Both hand
/// every successfully resolved handle to the callback and drop the event
/// silently when resolution fails.
pub struct BLEWatcher<C> {
    /// Subscription state of the advertisement sub-watcher.
    pub ad_state: WatcherState,
    /// Subscription state of the device-information sub-watcher.
    pub dev_state: WatcherState,
    /// Scanning mode configured on the advertisement watcher.
    pub scanning_mode: ScanningMode,
    /// The shared callback, registered by a successful `start` and from
    /// then on invoked by both sub-watchers.
    pub callback: Option<C>,
}

impl<C: DeviceDiscoveredCallback> BLEWatcher<C> {
    /// The bridge as construction leaves it: both subscriptions inert, no
    /// callback registered, scanning mode still the OS default. `start`
    /// accepts a bridge exactly in this state.
    pub open spec fn inert(self) -> bool {
        &&& self.ad_state is Created
        &&& self.dev_state is Created
        &&& self.scanning_mode is Passive
        &&& self.callback is None
    }

    /// The bridge as a successful `start` leaves it: both subscriptions
    /// active, the callback registered, active scanning configured.
    pub open spec fn started(self) -> bool {
        &&& self.ad_state is Subscribed
        &&& self.dev_state is Subscribed
        &&& self.scanning_mode is Active
        &&& self.callback is Some
    }

    /// The error a failed construction surfaces: the first watcher-object
    /// creation the OS refused, with the OS's own diagnostic text.
    pub open spec fn spec_construction_error(env: OsEnv) -> Error {
        if env.create_advertisement_watcher is Err {
            Error::Construction(
                OsCall::CreateAdvertisementWatcher,
                env.create_advertisement_watcher->Err_0.message,
            )
        } else {
            Error::Construction(
                OsCall::CreateDeviceWatcher,
                env.create_device_watcher->Err_0.message,
            )
        }
    }

    /// Constructs the bridge: both sub-watcher subscription objects are
    /// created in an inert, non-subscribed state, the device-information
    /// watcher filtered to devices whose connection status is "connected".
    ///
    /// Fails with a [`Error::Construction`] error exactly when the OS
    /// refuses to create either watcher object (for example, no Bluetooth
    /// radio is available).
    pub fn new(env: &OsEnv) -> (r: Result<Self, Error>)
        ensures
            env.construction_ok() ==> (r matches Ok(w) && w.inert()),
            !env.construction_ok() ==> r == Err::<Self, Error>(Self::spec_construction_error(*env)),
    {
        if let Err(os) = &env.create_advertisement_watcher {
            return Err(Error::Construction(
                OsCall::CreateAdvertisementWatcher,
                os.message.clone(),
            ));
        }
        if let Err(os) = &env.create_device_watcher {
            return Err(Error::Construction(OsCall::CreateDeviceWatcher, os.message.clone()));
        }
        Ok(BLEWatcher {
            ad_state: WatcherState::Created,
            dev_state: WatcherState::Created,
            scanning_mode: ScanningMode::Passive,
            callback: None,
        })
    }

    /// Registers the callback on both sub-watchers, switches the
    /// advertisement watcher to active scanning, and activates both OS
    /// subscriptions, advertisement scanning first.
    ///
    /// Exactly one of the following happens:
    /// - the bridge is not in its inert, just-constructed state: the call
    ///   is rejected with [`Error::AlreadyStarted`] without touching the
    ///   OS, so a redundant `start` can never double-subscribe;
    /// - both activations succeed: the bridge is started and from then on
    ///   every event the OS delivers is handed to the callback once its
    ///   resolution succeeds;
    /// - advertisement scanning cannot be activated: the bridge is left
    ///   exactly as it was, and the failure is surfaced as a typed
    ///   [`Error::Activation`];
    /// - advertisement scanning was activated but device-information
    ///   watching cannot be: activation is rolled back by deactivating
    ///   advertisement scanning again before the [`Error::Activation`] is
    ///   surfaced. Only when that rollback itself fails is the
    ///   advertisement subscription left running (and the callback left
    ///   registered, since the OS may keep delivering to it).
    pub fn start(&mut self, env: &OsEnv, callback: C) -> (r: Result<(), Error>)
        ensures
            !old(self).inert() ==> {
                &&& r == Err::<(), Error>(Error::AlreadyStarted)
                &&& *final(self) == *old(self)
            },
            old(self).inert() && env.activation_ok() ==> {
                &&& r is Ok
                &&& final(self).started()
                &&& final(self).callback == Some(callback)
            },
            old(self).inert() ==> (env.start_advertisement_scan matches Err(os) ==> {
                &&& r == Err::<(), Error>(
                    Error::Activation(OsCall::StartAdvertisementScan, os.message),
                )
                &&& *final(self) == *old(self)
            }),
            old(self).inert() && env.start_advertisement_scan is Ok ==> (
            env.start_device_watch matches Err(os) ==> r == Err::<(), Error>(
                Error::Activation(OsCall::StartDeviceWatch, os.message),
            )),
            old(self).inert() && env.start_advertisement_scan is Ok
                && env.start_device_watch is Err && env.stop_advertisement_scan is Ok
                ==> *final(self) == *old(self),
            old(self).inert() && env.start_advertisement_scan is Ok
                && env.start_device_watch is Err && env.stop_advertisement_scan is Err ==> {
                &&& final(self).ad_state is Subscribed
                &&& final(self).dev_state is Created
                &&& final(self).scanning_mode is Active
                &&& final(self).callback == Some(callback)
            },
    {
        match (self.ad_state, self.dev_state, &self.scanning_mode, &self.callback) {
            (WatcherState::Created, WatcherState::Created, ScanningMode::Passive, None) => {}
            _ => {
                return Err(Error::AlreadyStarted);
            }
        }
        // Explicit mode choice: active scanning requests scan responses,
        // which passive listening would miss for some devices.
        self.scanning_mode = ScanningMode::Active;
        // Registering the handlers on both sub-watchers: from here on the
        // OS may deliver events to them.
        self.callback = Some(callback);
        if let Err(os) = &env.start_advertisement_scan {
            // Nothing was activated; undo the registration and the mode so
            // the bridge is exactly as construction left it.
            self.callback = None;
            self.scanning_mode = ScanningMode::Passive;
            return Err(Error::Activation(OsCall::StartAdvertisementScan, os.message.clone()));
        }
        self.ad_state = WatcherState::Subscribed;
        if let Err(os) = &env.start_device_watch {
            // Partial activation: roll the advertisement subscription back
            // before surfacing the activation failure.
            if env.stop_advertisement_scan.is_ok() {
                self.ad_state = WatcherState::Created;
                self.callback = None;
                self.scanning_mode = ScanningMode::Passive;
            }
            return Err(Error::Activation(OsCall::StartDeviceWatch, os.message.clone()));
        }
        self.dev_state = WatcherState::Subscribed;
        Ok(())
    }

    /// Both deactivations the bridge still owes succeed under `env`: what
    /// `stop` needs from the OS to return without error. A subscription
    /// that was never activated, or is already deactivated, owes nothing.
    pub open spec fn stop_succeeds(self, env: OsEnv) -> bool {
        &&& self.ad_state is Subscribed ==> env.stop_advertisement_scan is Ok
        &&& self.dev_state is Subscribed ==> env.stop_device_watch is Ok
    }

    /// Deactivates both OS subscriptions.
    ///
    /// Each sub-watcher is deactivated only if it is currently subscribed,
    /// so `stop` is safe to call on a bridge that was never started, was
    /// only partially started, or was already stopped: it then simply does
    /// nothing for that sub-watcher. A deactivation failure is surfaced as
    /// a typed [`Error::Deactivation`], but never prevents the other
    /// subscription from being stopped as well; when both fail, the
    /// advertisement-side failure is the one surfaced.
    ///
    /// `stop` does not unregister the callback: a resolution already in
    /// flight when `stop` returns may still complete and be delivered.
    pub fn stop(&mut self, env: &OsEnv) -> (r: Result<(), Error>)
        ensures
            final(self).callback == old(self).callback,
            final(self).scanning_mode == old(self).scanning_mode,
            final(self).ad_state == (if old(self).ad_state is Subscribed
                && env.stop_advertisement_scan is Ok {
                WatcherState::Unsubscribed
            } else {
                old(self).ad_state
            }),
            final(self).dev_state == (if old(self).dev_state is Subscribed
                && env.stop_device_watch is Ok {
                WatcherState::Unsubscribed
            } else {
                old(self).dev_state
            }),
            r is Ok <==> old(self).stop_succeeds(*env),
            old(self).ad_state is Subscribed ==> (env.stop_advertisement_scan matches Err(os)
                ==> r == Err::<(), Error>(
                Error::Deactivation(OsCall::StopAdvertisementScan, os.message),
            )),
            (old(self).ad_state is Subscribed ==> env.stop_advertisement_scan is Ok) && old(
                self,
            ).dev_state is Subscribed ==> (env.stop_device_watch matches Err(os) ==> r
                == Err::<(), Error>(Error::Deactivation(OsCall::StopDeviceWatch, os.message))),
    {
        let mut first_error: Option<Error> = None;
        if let WatcherState::Subscribed = self.ad_state {
            match &env.stop_advertisement_scan {
                Ok(_) => {
                    self.ad_state = WatcherState::Unsubscribed;
                }
                Err(os) => {
                    first_error = Some(
                        Error::Deactivation(OsCall::StopAdvertisementScan, os.message.clone()),
                    );
                }
            }
        }
        if let WatcherState::Subscribed = self.dev_state {
            match &env.stop_device_watch {
                Ok(_) => {
                    self.dev_state = WatcherState::Unsubscribed;
                }
                Err(os) => {
                    if first_error.is_none() {
                        first_error = Some(
                            Error::Deactivation(OsCall::StopDeviceWatch, os.message.clone()),
                        );
                    }
                }
            }
        }
        match first_error {
            None => Ok(()),
            Some(e) => Err(e),
        }
    }

    /// What the advertisement handler delivers to the callback for one
    /// event: the handle the OS resolves the advertiser's address to, or
    /// nothing when resolution fails or no callback was ever registered.
    pub open spec fn spec_handle_advertisement(
        self,
        env: OsEnv,
        event: AdvertisementEvent,
    ) -> Option<DeviceHandle> {
        if self.callback is Some {
            crate::os::spec_resolve_address(env.devices_by_address@, event.address)
        } else {
            None
        }
    }

    /// What the device-information handler delivers to the callback for
    /// one event.
    pub open spec fn spec_handle_device_information(
        self,
        env: OsEnv,
        event: DeviceInformationEvent,
    ) -> Option<DeviceHandle> {
        if self.callback is Some {
            crate::os::spec_resolve_id(env.devices_by_id@, event.id@)
        } else {
            None
        }
    }

    /// The advertisement handler: what the OS subsystem runs, on a thread
    /// of its own choosing, for every raw advertisement received.
    ///
    /// The handler reads only the advertiser's hardware address, resolves
    /// it through the OS lookup, and on success invokes the shared
    /// callback exactly once with the resolved handle, which it also
    /// returns. On resolution failure the event is dropped silently:
    /// nothing is delivered and no error is surfaced anywhere.
    ///
    /// The handler takes the bridge by shared reference and touches no
    /// mutable state, so any number of invocations may run concurrently;
    /// one that is still in flight when `stop` returns will still deliver.
    pub fn handle_advertisement(&self, env: &OsEnv, event: &AdvertisementEvent) -> (delivered:
        Option<DeviceHandle>)
        ensures
            delivered == self.spec_handle_advertisement(*env, *event),
    {
        match &self.callback {
            Some(callback) => {
                match env.resolve_address(event.address) {
                    Some(device) => {
                        callback.on_device_discovered(device);
                        Some(device)
                    }
                    None => None,
                }
            }
            None => None,
        }
    }

    /// The device-information handler: what the OS subsystem runs for
    /// every connected-device-information event, to catch devices that
    /// reconnect without emitting a fresh advertisement.
    ///
    /// The handler reads only the stable device identifier and otherwise
    /// behaves exactly as [`Self::handle_advertisement`]: resolve, deliver
    /// once on success, drop silently on failure.
    pub fn handle_device_information(
        &self,
        env: &OsEnv,
        event: &DeviceInformationEvent,
    ) -> (delivered: Option<DeviceHandle>)
        ensures
            delivered == self.spec_handle_device_information(*env, *event),
    {
        match &self.callback {
            Some(callback) => {
                match env.resolve_id(&event.id) {
                    Some(device) => {
                        callback.on_device_discovered(device);
                        Some(device)
                    }
                    None => None,
                }
            }
            None => None,
        }
    }
}

/// On a started bridge, every advertisement whose address the OS can
/// resolve is delivered: the handler hands the callback exactly one
/// invocation, carrying exactly the handle the address resolves to.
pub proof fn lemma_resolvable_advertisement_is_delivered<C: DeviceDiscoveredCallback>(
    watcher: BLEWatcher<C>,
    env: OsEnv,
    event: AdvertisementEvent,
    handle: DeviceHandle,
)
    requires
        watcher.started(),
        crate::os::spec_resolve_address(env.devices_by_address@, event.address) == Some(handle),
    ensures
        watcher.spec_handle_advertisement(env, event) == Some(handle),
{
}

/// On a started bridge, every device-information event whose identifier
/// the OS can resolve is likewise delivered, carrying exactly the handle
/// the identifier resolves to.
pub proof fn lemma_resolvable_device_information_is_delivered<C: DeviceDiscoveredCallback>(
    watcher: BLEWatcher<C>,
    env: OsEnv,
    event: DeviceInformationEvent,
    handle: DeviceHandle,
)
    requires
        watcher.started(),
        crate::os::spec_resolve_id(env.devices_by_id@, event.id@) == Some(handle),
    ensures
        watcher.spec_handle_device_information(env, event) == Some(handle),
{
}

/// An event whose resolution fails produces no callback invocation at
/// all, on either path; and since the handlers return only the delivered
/// handle, never an error value, nothing is surfaced to anyone.
pub proof fn lemma_unresolvable_event_is_dropped<C: DeviceDiscoveredCallback>(
    watcher: BLEWatcher<C>,
    env: OsEnv,
    ad_event: AdvertisementEvent,
    info_event: DeviceInformationEvent,
)
    requires
        crate::os::spec_resolve_address(env.devices_by_address@, ad_event.address) is None,
        crate::os::spec_resolve_id(env.devices_by_id@, info_event.id@) is None,
    ensures
        watcher.spec_handle_advertisement(env, ad_event) is None,
        watcher.spec_handle_device_information(env, info_event) is None,
{
}

/// Deliveries running concurrently cannot corrupt one another: what one
/// handler invocation delivers is a function of the environment and of
/// its own event alone, so no event's resolved handle is ever delivered
/// in place of another's, whatever threads the OS runs the handlers on.
pub proof fn lemma_concurrent_deliveries_are_independent<C: DeviceDiscoveredCallback>(
    watcher: BLEWatcher<C>,
    env: OsEnv,
    first: AdvertisementEvent,
    second: AdvertisementEvent,
)
    requires
        watcher.started(),
    ensures
        watcher.spec_handle_advertisement(env, first) == crate::os::spec_resolve_address(
            env.devices_by_address@,
            first.address,
        ),
        watcher.spec_handle_advertisement(env, second) == crate::os::spec_resolve_address(
            env.devices_by_address@,
            second.address,
        ),
{
}

/// After a successful `start`, `stop` under an OS that accepts both
/// deactivations returns without error; and on a bridge whose
/// subscriptions were never activated, `stop` returns without error under
/// every environment, since it has nothing to deactivate.
pub proof fn lemma_stop_is_safe<C: DeviceDiscoveredCallback>(
    started_watcher: BLEWatcher<C>,
    inert_watcher: BLEWatcher<C>,
    env: OsEnv,
)
    requires
        started_watcher.started(),
        env.deactivation_ok(),
        inert_watcher.ad_state !is Subscribed,
        inert_watcher.dev_state !is Subscribed,
    ensures
        started_watcher.stop_succeeds(env),
        inert_watcher.stop_succeeds(env),
{
}

/// Construction on an environment with no working Bluetooth radio fails
/// with a construction error, distinguishable from every activation and
/// deactivation error; resolution failures are not errors at all.
pub proof fn lemma_failed_construction_is_distinguishable<C: DeviceDiscoveredCallback>(
    env: OsEnv,
)
    requires
        !env.construction_ok(),
    ensures
        BLEWatcher::<C>::spec_construction_error(env) is Construction,
{
}

} // verus!
