use vkrs::instance::debug_instance;
use vkrs::debug::debug_monitor;
use vkrs::device::{Device, QueuePriority};
use vkrs::semaphore::Semaphore;

#[test]
fn create_semaphore() {
    let instance = debug_instance();
    let dbg = debug_monitor(&instance, true);
    let device = {
        let priorities = vec![(0, vec![QueuePriority::from_thousandths_clamped(1000)])];
        Device::new(&instance.devices().unwrap()[0], priorities).unwrap()
    };
    Semaphore::new(&device).unwrap();

    assert!(!dbg.triggered());
}
