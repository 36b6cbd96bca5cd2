use vkrs::sys::common::{
    VkResult, completion_outcome, event_status_outcome, fence_status_outcome, wait_outcome,
};
use vkrs::fence::Fence;
use vkrs::sys::fence::VK_FENCE_CREATE_SIGNALED_BIT;
use vkrs::sys::common::{VkBool32, VkStructureType};
use vkrs::sys::command_buffer::VkCommandBufferLevel;
use vkrs::sys::debug::VkDebugReportObjectTypeEXT;

#[test]
fn result_codes_match_the_abi() {
    assert_eq!(VkResult::VK_SUCCESS.code(), 0);
    assert_eq!(VkResult::VK_NOT_READY.code(), 1);
    assert_eq!(VkResult::VK_TIMEOUT.code(), 2);
    assert_eq!(VkResult::VK_EVENT_SET.code(), 3);
    assert_eq!(VkResult::VK_EVENT_RESET.code(), 4);
    assert_eq!(VkResult::VK_ERROR_OUT_OF_HOST_MEMORY.code(), -1);
    assert_eq!(VkResult::VK_ERROR_EXTENSION_NOT_PRESENT.code(), -7);
    assert_eq!(VkResult::VK_ERROR_VALIDATION_FAILED_EXT.code(), -1000011001);
}

#[test]
fn result_codes_round_trip() {
    let all = [
        VkResult::VK_SUCCESS,
        VkResult::VK_NOT_READY,
        VkResult::VK_TIMEOUT,
        VkResult::VK_EVENT_SET,
        VkResult::VK_EVENT_RESET,
        VkResult::VK_INCOMPLETE,
        VkResult::VK_ERROR_OUT_OF_HOST_MEMORY,
        VkResult::VK_ERROR_OUT_OF_DEVICE_MEMORY,
        VkResult::VK_ERROR_INITIALIZATION_FAILED,
        VkResult::VK_ERROR_DEVICE_LOST,
        VkResult::VK_ERROR_MEMORY_MAP_FAILED,
        VkResult::VK_ERROR_LAYER_NOT_PRESENT,
        VkResult::VK_ERROR_EXTENSION_NOT_PRESENT,
        VkResult::VK_ERROR_FEATURE_NOT_PRESENT,
        VkResult::VK_ERROR_INCOMPATIBLE_DRIVER,
        VkResult::VK_ERROR_TOO_MANY_OBJECTS,
        VkResult::VK_ERROR_FORMAT_NOT_SUPPORTED,
        VkResult::VK_ERROR_VALIDATION_FAILED_EXT,
    ];
    for r in all {
        assert_eq!(VkResult::from_code(r.code()), Some(r));
        assert_eq!(r.is_failure(), r.code() < 0);
    }
    assert_eq!(VkResult::from_code(12345), None);
}

#[test]
fn informative_codes_are_not_failures() {
    assert_eq!(fence_status_outcome(VkResult::VK_SUCCESS), Ok(true));
    assert_eq!(fence_status_outcome(VkResult::VK_NOT_READY), Ok(false));
    assert_eq!(
        fence_status_outcome(VkResult::VK_ERROR_DEVICE_LOST),
        Err(VkResult::VK_ERROR_DEVICE_LOST)
    );

    assert_eq!(wait_outcome(VkResult::VK_SUCCESS), Ok(true));
    assert_eq!(wait_outcome(VkResult::VK_TIMEOUT), Ok(false));
    assert_eq!(wait_outcome(VkResult::VK_ERROR_DEVICE_LOST), Err(VkResult::VK_ERROR_DEVICE_LOST));

    assert_eq!(event_status_outcome(VkResult::VK_EVENT_SET), Ok(true));
    assert_eq!(event_status_outcome(VkResult::VK_EVENT_RESET), Ok(false));
    assert_eq!(
        event_status_outcome(VkResult::VK_ERROR_OUT_OF_HOST_MEMORY),
        Err(VkResult::VK_ERROR_OUT_OF_HOST_MEMORY)
    );

    assert_eq!(completion_outcome(VkResult::VK_SUCCESS), Ok(()));
    assert_eq!(
        completion_outcome(VkResult::VK_ERROR_INITIALIZATION_FAILED),
        Err(VkResult::VK_ERROR_INITIALIZATION_FAILED)
    );
}

#[test]
fn structure_tags_match_the_abi() {
    assert_eq!(VkStructureType::VK_STRUCTURE_TYPE_APPLICATION_INFO.code(), 0);
    assert_eq!(VkStructureType::VK_STRUCTURE_TYPE_INSTANCE_CREATE_INFO.code(), 1);
    assert_eq!(VkStructureType::VK_STRUCTURE_TYPE_FENCE_CREATE_INFO.code(), 8);
    assert_eq!(VkStructureType::VK_STRUCTURE_TYPE_COMMAND_POOL_CREATE_INFO.code(), 39);
    assert_eq!(
        VkStructureType::VK_STRUCTURE_TYPE_DEBUG_REPORT_CALLBACK_CREATE_INFO_EXT.code(),
        1000011000
    );
    assert_eq!(VkCommandBufferLevel::VK_COMMAND_BUFFER_LEVEL_PRIMARY.code(), 0);
    assert_eq!(VkCommandBufferLevel::VK_COMMAND_BUFFER_LEVEL_SECONDARY.code(), 1);
    assert_eq!(VkDebugReportObjectTypeEXT::VK_DEBUG_REPORT_OBJECT_TYPE_DEBUG_REPORT_EXT.code(), 28);
    assert_eq!(VkBool32::from_bool(true).code(), 1);
    assert_eq!(VkBool32::from_bool(false).code(), 0);
}

#[test]
fn fence_creation_bitmask() {
    assert_eq!(Fence::create_info(true).flags.bits, VK_FENCE_CREATE_SIGNALED_BIT);
    assert_eq!(Fence::create_info(false).flags.bits, 0);
}
