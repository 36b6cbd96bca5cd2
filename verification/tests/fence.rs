use vkrs::instance::debug_instance;
use vkrs::debug::debug_monitor;
use vkrs::device::{Device, QueuePriority};
use vkrs::fence::Fence;

#[test]
fn create_fence_unsignaled() {
    let instance = debug_instance();
    // Testing an un-submitted fence is a warning, so ignore those
    let dbg = debug_monitor(&instance, false);
    let device = {
        let priorities = vec![(0, vec![QueuePriority::from_thousandths_clamped(1000)])];
        Device::new(&instance.devices().unwrap()[0], priorities).unwrap()
    };
    let fence = Fence::new(&device, false).unwrap();

    assert!(!fence.signaled().unwrap());
    assert!(!dbg.triggered());
}

#[test]
fn create_fence_signaled() {
    let instance = debug_instance();
    let dbg = debug_monitor(&instance, true);
    let device = {
        let priorities = vec![(0, vec![QueuePriority::from_thousandths_clamped(1000)])];
        Device::new(&instance.devices().unwrap()[0], priorities).unwrap()
    };
    let fence = Fence::new(&device, true).unwrap();

    assert!(fence.signaled().unwrap());
    assert!(!dbg.triggered());
}

#[test]
fn reset_fence() {
    let instance = debug_instance();
    let dbg = debug_monitor(&instance, false);
    let device = {
        let priorities = vec![(0, vec![QueuePriority::from_thousandths_clamped(1000)])];
        Device::new(&instance.devices().unwrap()[0], priorities).unwrap()
    };
    let mut fence = Fence::new(&device, true).unwrap();
    assert!(fence.signaled().unwrap());
    fence.reset().unwrap();
    assert!(!fence.signaled().unwrap());

    assert!(!dbg.triggered());
}

#[test]
fn wait_fence() {
    let instance = debug_instance();
    let dbg = debug_monitor(&instance, false);
    let device = {
        let priorities = vec![(0, vec![QueuePriority::from_thousandths_clamped(1000)])];
        Device::new(&instance.devices().unwrap()[0], priorities).unwrap()
    };
    {
        let fence = Fence::new(&device, true).unwrap();
        assert!(fence.wait(10_000_000).unwrap());
    }
    {
        let fence = Fence::new(&device, false).unwrap();
        assert!(!fence.wait(10_000_000).unwrap());
    }

    assert!(!dbg.triggered());
}

#[test]
fn reset_clears_every_prior_state() {
    let instance = debug_instance();
    let devices = instance.devices().unwrap();
    let priorities = vec![(0, vec![QueuePriority::from_thousandths_clamped(1000)])];
    let device = Device::new(&devices[0], priorities).unwrap();

    let mut signaled = Fence::new(&device, true).unwrap();
    signaled.reset().unwrap();
    assert_eq!(signaled.signaled().unwrap(), false);

    let mut unsignaled = Fence::new(&device, false).unwrap();
    unsignaled.reset().unwrap();
    assert_eq!(unsignaled.signaled().unwrap(), false);
}
