use vkrs::instance::debug_instance;
use vkrs::debug::debug_monitor;
use vkrs::device::{Device, QueuePriority};
use vkrs::command_pool::{CommandPool, CommandPoolResetFlags, SplitCommandPool, UnifiedCommandPool};

#[test]
fn create_command_pool() {
    let instance = debug_instance();
    let dbg = debug_monitor(&instance, true);

    let device = {
        let priorities = vec![(0, vec![QueuePriority::from_thousandths_clamped(1000)])];
        Device::new(&instance.devices().unwrap()[0], priorities).unwrap()
    };
    assert!(SplitCommandPool::new(&device, 0, false).is_ok());
    assert!(!dbg.triggered());
}

#[test]
fn reset_command_pool() {
    let instance = debug_instance();
    let dbg = debug_monitor(&instance, true);

    let device = {
        let priorities = vec![(0, vec![QueuePriority::from_thousandths_clamped(1000)])];
        Device::new(&instance.devices().unwrap()[0], priorities).unwrap()
    };
    let mut cmd_pool = SplitCommandPool::new(&device, 0, false).unwrap();
    cmd_pool.reset(CommandPoolResetFlags::empty()).unwrap();
    assert!(!dbg.triggered());
}

#[test]
fn pool_creation_bitmask() {
    // The capability marker and the transient hint are the only bits that can
    // appear, so exactly four bitmasks are representable.
    assert_eq!(<SplitCommandPool as CommandPool>::create_info(0, false).flags.bits, 2);
    assert_eq!(<SplitCommandPool as CommandPool>::create_info(0, true).flags.bits, 3);
    assert_eq!(<UnifiedCommandPool as CommandPool>::create_info(0, false).flags.bits, 0);
    assert_eq!(<UnifiedCommandPool as CommandPool>::create_info(0, true).flags.bits, 1);
    assert_eq!(<SplitCommandPool as CommandPool>::create_info(3, true).queue_family_index, 3);
}

#[test]
fn pool_kinds_differ_in_capability() {
    assert!(<SplitCommandPool as CommandPool>::supports_buffer_reset());
    assert!(!<UnifiedCommandPool as CommandPool>::supports_buffer_reset());
}
