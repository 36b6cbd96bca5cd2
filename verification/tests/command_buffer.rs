use vkrs::instance::debug_instance;
use vkrs::debug::debug_monitor;
use vkrs::device::{Device, QueuePriority};
use vkrs::command_pool::{CommandPool, SplitCommandPool, UnifiedCommandPool};
use vkrs::command_buffer::{
    CommandBuffer, CommandBufferGroup, CommandBufferResetFlags, PrimaryCommandBuffer,
    ResetableCommandBuffer,
};

#[test]
fn allocate_command_buffer() {
    let instance = debug_instance();
    let dbg = debug_monitor(&instance, true);

    let device = {
        let priorities = vec![(0, vec![QueuePriority::from_thousandths_clamped(1000)])];
        Device::new(&instance.devices().unwrap()[0], priorities).unwrap()
    };
    let cmd_pool = SplitCommandPool::new(&device, 0, false).unwrap();
    assert!(PrimaryCommandBuffer::allocate(&cmd_pool, 1).unwrap().len() > 0);
    assert!(!dbg.triggered());
}

#[test]
fn reset_command_buffer() {
    let instance = debug_instance();
    let dbg = debug_monitor(&instance, true);
    let device = {
        let priorities = vec![(0, vec![QueuePriority::from_thousandths_clamped(1000)])];
        Device::new(&instance.devices().unwrap()[0], priorities).unwrap()
    };
    let cmd_pool = SplitCommandPool::new(&device, 0, false).unwrap();
    let mut bufs = PrimaryCommandBuffer::allocate(&cmd_pool, 1).unwrap();
    let primary_buf = &mut bufs[0];
    primary_buf.reset(CommandBufferResetFlags::empty()).unwrap();
    assert!(!dbg.triggered());
}

#[test]
fn batched_allocation_is_exact_and_distinct() {
    let instance = debug_instance();
    let devices = instance.devices().unwrap();
    let priorities = vec![(0, vec![QueuePriority::from_thousandths_clamped(1000)])];
    let device = Device::new(&devices[0], priorities).unwrap();
    let cmd_pool = UnifiedCommandPool::new(&device, 0, true).unwrap();

    let bufs = PrimaryCommandBuffer::allocate(&cmd_pool, 4).unwrap();
    assert_eq!(bufs.len(), 4);
    for a in 0..bufs.len() {
        assert_ne!(*bufs[a].handle(), 0);
        for b in 0..a {
            assert_ne!(*bufs[a].handle(), *bufs[b].handle());
        }
    }
}

#[test]
fn group_allocation_is_exact_and_distinct() {
    let instance = debug_instance();
    let devices = instance.devices().unwrap();
    let priorities = vec![(0, vec![QueuePriority::from_thousandths_clamped(1000)])];
    let device = Device::new(&devices[0], priorities).unwrap();
    let cmd_pool = SplitCommandPool::new(&device, 0, false).unwrap();

    let group = CommandBufferGroup::allocate(&cmd_pool, 3).unwrap();
    assert_eq!(group.len(), 3);
    let handles = group.handles();
    for a in 0..handles.len() {
        assert_ne!(handles[a], 0);
        for b in 0..a {
            assert_ne!(handles[a], handles[b]);
        }
    }
}
