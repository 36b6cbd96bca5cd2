use vkrs::instance::debug_instance;
use vkrs::debug::debug_monitor;
use vkrs::device::{Device, QueuePriority};
use vkrs::event::Event;

#[test]
fn create_event() {
    let instance = debug_instance();
    let dbg = debug_monitor(&instance, true);
    let device = {
        let priorities = vec![(0, vec![QueuePriority::from_thousandths_clamped(1000)])];
        Device::new(&instance.devices().unwrap()[0], priorities).unwrap()
    };
    Event::new(&device).unwrap();

    assert!(!dbg.triggered());
}

#[test]
fn test_event() {
    let instance = debug_instance();
    let dbg = debug_monitor(&instance, true);
    let device = {
        let priorities = vec![(0, vec![QueuePriority::from_thousandths_clamped(1000)])];
        Device::new(&instance.devices().unwrap()[0], priorities).unwrap()
    };
    let event = Event::new(&device).unwrap();
    assert!(!event.signaled().unwrap());

    assert!(!dbg.triggered());
}

#[test]
fn set_event() {
    let instance = debug_instance();
    let dbg = debug_monitor(&instance, true);
    let device = {
        let priorities = vec![(0, vec![QueuePriority::from_thousandths_clamped(1000)])];
        Device::new(&instance.devices().unwrap()[0], priorities).unwrap()
    };
    let mut event = Event::new(&device).unwrap();
    assert!(!event.signaled().unwrap());
    event.set().unwrap();
    assert!(event.signaled().unwrap());

    assert!(!dbg.triggered());
}

#[test]
fn reset_event() {
    let instance = debug_instance();
    let dbg = debug_monitor(&instance, true);
    let device = {
        let priorities = vec![(0, vec![QueuePriority::from_thousandths_clamped(1000)])];
        Device::new(&instance.devices().unwrap()[0], priorities).unwrap()
    };
    let mut event = Event::new(&device).unwrap();
    assert!(!event.signaled().unwrap());
    event.set().unwrap();
    assert!(event.signaled().unwrap());
    event.reset().unwrap();
    assert!(!event.signaled().unwrap());

    assert!(!dbg.triggered());
}
