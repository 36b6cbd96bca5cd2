use vkrs::instance::debug_instance;
use vkrs::debug::debug_monitor;
use vkrs::device::{Device, QueuePriority};
use vkrs::sys::common::VkResult;

#[test]
fn create_device() {
    // Slightly convoluted, ensures lifetimes are correct
    let instance = debug_instance();
    let dbg = debug_monitor(&instance, true);

    let device = {
        let physical_devices = instance.devices().unwrap();
        let priorities = vec![(0, vec![QueuePriority::from_thousandths_clamped(1000)])];
        Device::new(&physical_devices[0], priorities)
    };
    assert!(device.is_ok());
    assert!(!dbg.triggered());
}

#[test]
fn get_queue() {
    let instance = debug_instance();
    let dbg = debug_monitor(&instance, true);

    let device = {
        let priorities = vec![(0, vec![QueuePriority::from_thousandths_clamped(1000)])];
        Device::new(&instance.devices().unwrap()[0], priorities).unwrap()
    };
    assert!(device.get_queue(0, 0).is_some());
    assert!(!dbg.triggered());
}

#[test]
fn get_invalid_queue() {
    let instance = debug_instance();
    let dbg = debug_monitor(&instance, true);

    let device = {
        let priorities = vec![(0, vec![QueuePriority::from_thousandths_clamped(1000)])];
        Device::new(&instance.devices().unwrap()[0], priorities).unwrap()
    };
    assert!(device.get_queue(0, 1).is_none());
    assert!(device.get_queue(1, 0).is_none());
    assert!(!dbg.triggered());
}

#[test]
fn queue_map_matches_request() {
    let instance = debug_instance();
    let devices = instance.devices().unwrap();
    let priorities = vec![(
        0,
        vec![
            QueuePriority::from_thousandths_clamped(1000),
            QueuePriority::from_thousandths_clamped(500),
        ],
    )];
    let device = Device::new(&devices[0], priorities).unwrap();
    assert!(device.get_queue(0, 0).is_some());
    assert!(device.get_queue(0, 1).is_some());
    assert!(device.get_queue(0, 2).is_none());
    assert!(device.get_queue(7, 0).is_none());
}

#[test]
fn over_request_on_transfer_family_is_rejected() {
    let instance = debug_instance();
    let devices = instance.devices().unwrap();
    // The transfer-only family offers one queue and is not graphics-capable,
    // so asking it for two queues must be refused outright.
    let p = QueuePriority::from_thousandths_clamped(1000);
    let rejected = Device::new(&devices[0], vec![(1, vec![p, p])]);
    match rejected {
        Err(e) => assert_eq!(e, VkResult::VK_ERROR_VALIDATION_FAILED_EXT),
        Ok(_) => panic!("an over-request on a non-graphics family must be refused"),
    }

    // Within its advertised count the same family is fine.
    let device = Device::new(&devices[0], vec![(1, vec![p])]).unwrap();
    assert!(device.get_queue(1, 0).is_some());
    assert!(device.get_queue(1, 1).is_none());
    assert!(device.get_queue(0, 0).is_none());
}

#[test]
fn priority_range() {
    assert!(QueuePriority::from_thousandths(0).is_some());
    assert!(QueuePriority::from_thousandths(1000).is_some());
    assert!(QueuePriority::from_thousandths(1001).is_none());
    assert_eq!(QueuePriority::from_thousandths_clamped(5000).thousandths(), 1000);
    assert_eq!(QueuePriority::from_thousandths_clamped(250).thousandths(), 250);
}
