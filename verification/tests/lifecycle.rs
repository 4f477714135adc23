use std::sync::Arc;
use std::sync::Mutex;

use ble_bridge::device::DeviceHandle;
use ble_bridge::error::Error;
use ble_bridge::os::OsCall;
use ble_bridge::os::OsEnv;
use ble_bridge::os::OsError;
use ble_bridge::watcher::BLEWatcher;
use ble_bridge::watcher::DeviceDiscoveredCallback;
use ble_bridge::watcher::ScanningMode;
use ble_bridge::watcher::WatcherState;

struct Recorder {
    log: Arc<Mutex<Vec<u64>>>,
}

impl DeviceDiscoveredCallback for Recorder {
    fn on_device_discovered(&self, device: DeviceHandle) {
        self.log.lock().unwrap().push(device.key);
    }
}

fn recorder() -> (Recorder, Arc<Mutex<Vec<u64>>>) {
    let log = Arc::new(Mutex::new(Vec::new()));
    (Recorder { log: log.clone() }, log)
}

fn healthy_env() -> OsEnv {
    OsEnv {
        create_advertisement_watcher: Ok(()),
        create_device_watcher: Ok(()),
        start_advertisement_scan: Ok(()),
        start_device_watch: Ok(()),
        stop_advertisement_scan: Ok(()),
        stop_device_watch: Ok(()),
        devices_by_address: Vec::new(),
        devices_by_id: Vec::new(),
    }
}

fn os_err(message: &str) -> OsError {
    OsError { message: message.to_string() }
}

#[test]
fn construction_succeeds_on_healthy_env() {
    let env = healthy_env();
    let w = BLEWatcher::<Recorder>::new(&env).unwrap();
    assert_eq!(w.ad_state, WatcherState::Created);
    assert_eq!(w.dev_state, WatcherState::Created);
    assert_eq!(w.scanning_mode, ScanningMode::Passive);
    assert!(w.callback.is_none());
}

#[test]
fn construction_fails_without_radio() {
    let mut env = healthy_env();
    env.create_advertisement_watcher = Err(os_err("no Bluetooth radio is available"));
    let r = BLEWatcher::<Recorder>::new(&env);
    match r {
        Err(Error::Construction(call, message)) => {
            assert_eq!(call, OsCall::CreateAdvertisementWatcher);
            assert_eq!(message, "no Bluetooth radio is available");
        }
        Err(other) => panic!("expected a construction error, got {:?}", other),
        Ok(_) => panic!("expected a construction error, got a bridge"),
    }
}

#[test]
fn construction_fails_on_device_watcher_creation() {
    let mut env = healthy_env();
    env.create_device_watcher = Err(os_err("device enumeration unavailable"));
    let r = BLEWatcher::<Recorder>::new(&env);
    assert!(matches!(r, Err(Error::Construction(OsCall::CreateDeviceWatcher, _))));
}

#[test]
fn start_activates_both_watchers_with_active_scanning() {
    let env = healthy_env();
    let mut w = BLEWatcher::new(&env).unwrap();
    let (cb, _log) = recorder();
    assert!(w.start(&env, cb).is_ok());
    assert_eq!(w.ad_state, WatcherState::Subscribed);
    assert_eq!(w.dev_state, WatcherState::Subscribed);
    assert_eq!(w.scanning_mode, ScanningMode::Active);
    assert!(w.callback.is_some());
}

#[test]
fn double_start_is_rejected_without_double_subscription() {
    let env = healthy_env();
    let mut w = BLEWatcher::new(&env).unwrap();
    let (cb1, _log1) = recorder();
    let (cb2, _log2) = recorder();
    assert!(w.start(&env, cb1).is_ok());
    let second = w.start(&env, cb2);
    assert_eq!(second, Err(Error::AlreadyStarted));
    assert_eq!(w.ad_state, WatcherState::Subscribed);
    assert_eq!(w.dev_state, WatcherState::Subscribed);
}

#[test]
fn start_surfaces_scan_activation_failure_and_leaves_bridge_inert() {
    let mut env = healthy_env();
    env.start_advertisement_scan = Err(os_err("radio disabled"));
    let mut w = BLEWatcher::new(&env).unwrap();
    let (cb, _log) = recorder();
    let r = w.start(&env, cb);
    match r {
        Err(Error::Activation(call, message)) => {
            assert_eq!(call, OsCall::StartAdvertisementScan);
            assert_eq!(message, "radio disabled");
        }
        other => panic!("expected an activation error, got {:?}", other),
    }
    assert_eq!(w.ad_state, WatcherState::Created);
    assert_eq!(w.dev_state, WatcherState::Created);
    assert_eq!(w.scanning_mode, ScanningMode::Passive);
    assert!(w.callback.is_none());
    // The failure was fatal to that `start` call only: once the OS accepts
    // activation, the same bridge can be started.
    let healthy = healthy_env();
    let (cb2, _log2) = recorder();
    assert!(w.start(&healthy, cb2).is_ok());
}

#[test]
fn partial_activation_is_rolled_back() {
    let mut env = healthy_env();
    env.start_device_watch = Err(os_err("permission denied"));
    let mut w = BLEWatcher::new(&env).unwrap();
    let (cb, _log) = recorder();
    let r = w.start(&env, cb);
    assert!(matches!(r, Err(Error::Activation(OsCall::StartDeviceWatch, _))));
    // The advertisement subscription that had already been activated was
    // deactivated again before the error surfaced.
    assert_eq!(w.ad_state, WatcherState::Created);
    assert_eq!(w.dev_state, WatcherState::Created);
    assert!(w.callback.is_none());
}

#[test]
fn partial_activation_with_failed_rollback_leaves_scan_running() {
    let mut env = healthy_env();
    env.start_device_watch = Err(os_err("permission denied"));
    env.stop_advertisement_scan = Err(os_err("radio wedged"));
    let mut w = BLEWatcher::new(&env).unwrap();
    let (cb, _log) = recorder();
    let r = w.start(&env, cb);
    assert!(matches!(r, Err(Error::Activation(OsCall::StartDeviceWatch, _))));
    assert_eq!(w.ad_state, WatcherState::Subscribed);
    assert_eq!(w.dev_state, WatcherState::Created);
    // A later stop under a healthy OS cleans the leftover subscription up.
    let healthy = healthy_env();
    assert!(w.stop(&healthy).is_ok());
    assert_eq!(w.ad_state, WatcherState::Unsubscribed);
    assert_eq!(w.dev_state, WatcherState::Created);
}

#[test]
fn stop_after_start_succeeds_on_healthy_bridge() {
    let env = healthy_env();
    let mut w = BLEWatcher::new(&env).unwrap();
    let (cb, _log) = recorder();
    assert!(w.start(&env, cb).is_ok());
    assert!(w.stop(&env).is_ok());
    assert_eq!(w.ad_state, WatcherState::Unsubscribed);
    assert_eq!(w.dev_state, WatcherState::Unsubscribed);
}

#[test]
fn stop_on_never_activated_bridge_is_harmless() {
    let env = healthy_env();
    let mut w = BLEWatcher::<Recorder>::new(&env).unwrap();
    assert!(w.stop(&env).is_ok());
    assert_eq!(w.ad_state, WatcherState::Created);
    assert_eq!(w.dev_state, WatcherState::Created);
    // And stopping an already stopped bridge is harmless too.
    let (cb, _log) = recorder();
    assert!(w.start(&env, cb).is_ok());
    assert!(w.stop(&env).is_ok());
    assert!(w.stop(&env).is_ok());
}

#[test]
fn stop_failure_does_not_prevent_stopping_the_other_watcher() {
    let mut env = healthy_env();
    env.stop_advertisement_scan = Err(os_err("radio gone"));
    let mut w = BLEWatcher::new(&env).unwrap();
    let (cb, _log) = recorder();
    assert!(w.start(&env, cb).is_ok());
    let r = w.stop(&env);
    match r {
        Err(Error::Deactivation(call, message)) => {
            assert_eq!(call, OsCall::StopAdvertisementScan);
            assert_eq!(message, "radio gone");
        }
        other => panic!("expected a deactivation error, got {:?}", other),
    }
    // The device-information subscription was still stopped.
    assert_eq!(w.ad_state, WatcherState::Subscribed);
    assert_eq!(w.dev_state, WatcherState::Unsubscribed);
}

#[test]
fn stop_failure_on_device_watch_is_surfaced() {
    let mut env = healthy_env();
    env.stop_device_watch = Err(os_err("watcher stuck"));
    let mut w = BLEWatcher::new(&env).unwrap();
    let (cb, _log) = recorder();
    assert!(w.start(&env, cb).is_ok());
    let r = w.stop(&env);
    assert!(matches!(r, Err(Error::Deactivation(OsCall::StopDeviceWatch, _))));
    assert_eq!(w.ad_state, WatcherState::Unsubscribed);
    assert_eq!(w.dev_state, WatcherState::Subscribed);
}
