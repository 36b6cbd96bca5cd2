use vkrs::instance::{Instance, debug_instance};
use vkrs::debug::debug_monitor;

#[test]
fn create_instance() {
    assert!(Instance::new(Vec::new(), Vec::new()).is_ok());
}

#[test]
fn create_layers() {
    let layers = vec!["VK_LAYER_LUNARG_standard_validation".to_owned()];
    assert!(Instance::new(layers, Vec::new()).is_ok());
}

#[test]
fn create_ext() {
    let exts = vec!["VK_EXT_debug_report".to_owned()];
    assert!(Instance::new(Vec::new(), exts).is_ok());
}

#[test]
fn enumerate_devices() {
    let instance = debug_instance();
    let dbg = debug_monitor(&instance, true);
    assert!(instance.devices().unwrap().len() > 0);
    assert!(!dbg.triggered());
}

#[test]
fn queue_family_properties() {
    let instance = debug_instance();
    let dbg = debug_monitor(&instance, true);
    let devices = instance.devices().unwrap();
    let device = &devices[0];
    assert!(device.queue_family_properties().len() > 0);
    assert!(device.queue_family_properties()[0].queue_count > 0);

    assert!(!dbg.triggered());
}

#[test]
fn instance_records_requests() {
    let layers = vec!["VK_LAYER_LUNARG_standard_validation".to_owned()];
    let exts = vec!["VK_EXT_debug_report".to_owned()];
    let instance = Instance::new(layers, exts).unwrap();
    assert!(instance.has_extension(&"VK_EXT_debug_report".to_owned()));
    assert!(!instance.has_extension(&"VK_KHR_surface".to_owned()));
    assert_ne!(*instance.handle(), 0);
}
