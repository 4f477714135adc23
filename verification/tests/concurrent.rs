use std::sync::Arc;
use std::sync::Mutex;

use ble_bridge::device::AdvertisementEvent;
use ble_bridge::device::DeviceHandle;
use ble_bridge::os::OsEnv;
use ble_bridge::watcher::BLEWatcher;
use ble_bridge::watcher::DeviceDiscoveredCallback;

struct Recorder {
    log: Arc<Mutex<Vec<u64>>>,
}

impl DeviceDiscoveredCallback for Recorder {
    fn on_device_discovered(&self, device: DeviceHandle) {
        self.log.lock().unwrap().push(device.key);
    }
}

#[test]
fn interleaved_deliveries_are_independent() {
    // Two simulated OS threads, each holding its own shared reference to
    // the bridge, deliver their events in interleaved order. The handlers
    // take the bridge by shared reference and touch no mutable state, so
    // each invocation must produce its own callback invocation carrying
    // its own resolved handle, never the other thread's.
    let env = OsEnv {
        create_advertisement_watcher: Ok(()),
        create_device_watcher: Ok(()),
        start_advertisement_scan: Ok(()),
        start_device_watch: Ok(()),
        stop_advertisement_scan: Ok(()),
        stop_device_watch: Ok(()),
        devices_by_address: vec![
            (0xa1, DeviceHandle { key: 1 }),
            (0xa2, DeviceHandle { key: 2 }),
        ],
        devices_by_id: Vec::new(),
    };
    let log = Arc::new(Mutex::new(Vec::new()));
    let mut w = BLEWatcher::new(&env).unwrap();
    assert!(w.start(&env, Recorder { log: log.clone() }).is_ok());
    let shared = Arc::new(w);
    let first_thread = shared.clone();
    let second_thread = shared.clone();

    for _round in 0..50 {
        let delivered_first =
            first_thread.handle_advertisement(&env, &AdvertisementEvent { address: 0xa1 });
        let delivered_second =
            second_thread.handle_advertisement(&env, &AdvertisementEvent { address: 0xa2 });
        assert_eq!(delivered_first, Some(DeviceHandle { key: 1 }));
        assert_eq!(delivered_second, Some(DeviceHandle { key: 2 }));
    }
    let seen = log.lock().unwrap().clone();
    assert_eq!(seen.len(), 100);
    assert!(seen.iter().filter(|k| **k == 1).count() == 50);
    assert!(seen.iter().filter(|k| **k == 2).count() == 50);
}
