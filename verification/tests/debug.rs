use vkrs::instance::{Instance, debug_instance};
use vkrs::debug::{DebugReportCallbackEXT, DebugReportFlagsEXT, debug_monitor};
use vkrs::sys::common::VkResult;
use vkrs::sys::debug::{
    VkDebugReportObjectTypeEXT, VK_DEBUG_REPORT_DEBUG_BIT_EXT, VK_DEBUG_REPORT_ERROR_BIT_EXT,
    VK_DEBUG_REPORT_INFORMATION_BIT_EXT, VK_DEBUG_REPORT_WARNING_BIT_EXT,
};

#[test]
fn create_debug_report() {
    let instance = debug_instance();
    assert!(DebugReportCallbackEXT::new(&instance, DebugReportFlagsEXT::all()).is_ok());
}

#[test]
fn missing_extension() {
    let instance = Instance::new(Vec::new(), Vec::new()).unwrap();
    let registered = DebugReportCallbackEXT::new(&instance, DebugReportFlagsEXT::all());
    assert!(registered.is_err());
    match registered {
        Err(e) => assert_eq!(e, VkResult::VK_ERROR_EXTENSION_NOT_PRESENT),
        Ok(_) => panic!("registration must fail without the extension"),
    }
}

#[test]
fn debug_monitor_ok() {
    let instance = debug_instance();
    let dbg = debug_monitor(&instance, true);
    assert!(!dbg.triggered());
}

#[test]
fn debug_monitor_message() {
    let instance = debug_instance();
    let mut dbg = debug_monitor(&instance, true);
    dbg.message(
        DebugReportFlagsEXT::from_bits(VK_DEBUG_REPORT_ERROR_BIT_EXT),
        VkDebugReportObjectTypeEXT::VK_DEBUG_REPORT_OBJECT_TYPE_DEBUG_REPORT_EXT,
        0,
        0,
        0,
        "",
        "monitor",
    );
    assert!(dbg.triggered());
}

#[test]
fn monitor_filters_severities() {
    let instance = debug_instance();
    let mut dbg = debug_monitor(&instance, true);
    let object = VkDebugReportObjectTypeEXT::VK_DEBUG_REPORT_OBJECT_TYPE_DEBUG_REPORT_EXT;

    // Information and debug chatter are excluded by the monitor's filter.
    dbg.message(DebugReportFlagsEXT::from_bits(VK_DEBUG_REPORT_INFORMATION_BIT_EXT), object, 0, 0, 0, "layer", "info");
    dbg.message(DebugReportFlagsEXT::from_bits(VK_DEBUG_REPORT_DEBUG_BIT_EXT), object, 0, 0, 0, "layer", "debug");
    assert!(!dbg.triggered());
    assert_eq!(dbg.received_count(), 0);

    // Warnings and errors pass the filter.
    dbg.message(DebugReportFlagsEXT::from_bits(VK_DEBUG_REPORT_WARNING_BIT_EXT), object, 0, 0, 0, "layer", "warn");
    dbg.message(DebugReportFlagsEXT::from_bits(VK_DEBUG_REPORT_ERROR_BIT_EXT), object, 1, 2, 3, "layer", "boom");
    assert!(dbg.triggered());
    assert_eq!(dbg.received_count(), 2);
    let received = dbg.received();
    assert_eq!(received[0].message, "warn");
    assert_eq!(received[1].message, "boom");
    assert_eq!(received[1].object, 1);
    assert_eq!(received[1].location, 2);
    assert_eq!(received[1].message_code, 3);
}

#[test]
fn lenient_monitor_records_errors_only() {
    let instance = debug_instance();
    let mut dbg = debug_monitor(&instance, false);
    let object = VkDebugReportObjectTypeEXT::VK_DEBUG_REPORT_OBJECT_TYPE_DEBUG_REPORT_EXT;

    dbg.message(DebugReportFlagsEXT::from_bits(VK_DEBUG_REPORT_WARNING_BIT_EXT), object, 0, 0, 0, "layer", "warn");
    assert!(!dbg.triggered());
    dbg.message(DebugReportFlagsEXT::from_bits(VK_DEBUG_REPORT_ERROR_BIT_EXT), object, 0, 0, 0, "layer", "boom");
    assert!(dbg.triggered());
}
