//! Shared vocabulary of the native surface: result codes, structure tags,
//! 32-bit booleans and flag carriers.
//!
//! Every mutating or creating entry point of the native surface answers with a
//! `VkResult`. A small fixed set of codes are "successful but informative"
//! (not ready, timeout, event set, event reset, incomplete); they are mapped to
//! positive outcomes by the functions at the bottom of this module and are
//! never treated as failures. All remaining non-zero codes are errors and are
//! surfaced verbatim.

use vstd::prelude::*;

verus! {

/// The reserved sentinel: no live object ever carries this handle value.
pub const VK_NULL_HANDLE: usize = 0;

/// Raw bitmask carrier used by every flags type.
pub type VkFlags = u32;

#[derive(Clone, Copy, Debug, PartialEq, Eq, Structural)]
pub enum VkBool32 {
    False,
    True,
}

impl VkBool32 {
    /// The 32-bit encoding the native surface uses for booleans.
    pub fn code(self) -> (c: u32)
        ensures
            c == self.spec_code(),
    {
        match self {
            VkBool32::False => 0,
            VkBool32::True => 1,
        }
    }

    pub open spec fn spec_code(self) -> u32 {
        match self {
            VkBool32::False => 0u32,
            VkBool32::True => 1u32,
        }
    }

    pub fn from_bool(b: bool) -> (v: VkBool32)
        ensures
            v == VkBool32::spec_from_bool(b),
    {
        if b {
            VkBool32::True
        } else {
            VkBool32::False
        }
    }

    pub open spec fn spec_from_bool(b: bool) -> VkBool32 {
        if b {
            VkBool32::True
        } else {
            VkBool32::False
        }
    }
}

#[derive(Clone, Copy, Debug, PartialEq, Eq, Structural)]
pub struct VkExtent3D {
    pub width: u32,
    pub height: u32,
    pub depth: u32,
}

/// Structure tags: every fixed-layout request record leads with one of these,
/// so the native side can identify the record behind a type-erased pointer.
#[derive(Clone, Copy, Debug, PartialEq, Eq, Structural)]
pub enum VkStructureType {
    VK_STRUCTURE_TYPE_APPLICATION_INFO,
    VK_STRUCTURE_TYPE_INSTANCE_CREATE_INFO,
    VK_STRUCTURE_TYPE_DEVICE_QUEUE_CREATE_INFO,
    VK_STRUCTURE_TYPE_DEVICE_CREATE_INFO,
    VK_STRUCTURE_TYPE_FENCE_CREATE_INFO,
    VK_STRUCTURE_TYPE_SEMAPHORE_CREATE_INFO,
    VK_STRUCTURE_TYPE_EVENT_CREATE_INFO,
    VK_STRUCTURE_TYPE_COMMAND_POOL_CREATE_INFO,
    VK_STRUCTURE_TYPE_COMMAND_BUFFER_ALLOCATE_INFO,
    VK_STRUCTURE_TYPE_DEBUG_REPORT_CALLBACK_CREATE_INFO_EXT,
}

impl VkStructureType {
    /// The integer representation fixed by the native ABI.
    pub fn code(self) -> (c: u32)
        ensures
            c == self.spec_code(),
    {
        match self {
            VkStructureType::VK_STRUCTURE_TYPE_APPLICATION_INFO => 0,
            VkStructureType::VK_STRUCTURE_TYPE_INSTANCE_CREATE_INFO => 1,
            VkStructureType::VK_STRUCTURE_TYPE_DEVICE_QUEUE_CREATE_INFO => 2,
            VkStructureType::VK_STRUCTURE_TYPE_DEVICE_CREATE_INFO => 3,
            VkStructureType::VK_STRUCTURE_TYPE_FENCE_CREATE_INFO => 8,
            VkStructureType::VK_STRUCTURE_TYPE_SEMAPHORE_CREATE_INFO => 9,
            VkStructureType::VK_STRUCTURE_TYPE_EVENT_CREATE_INFO => 10,
            VkStructureType::VK_STRUCTURE_TYPE_COMMAND_POOL_CREATE_INFO => 39,
            VkStructureType::VK_STRUCTURE_TYPE_COMMAND_BUFFER_ALLOCATE_INFO => 40,
            VkStructureType::VK_STRUCTURE_TYPE_DEBUG_REPORT_CALLBACK_CREATE_INFO_EXT => 1000011000,
        }
    }

    pub open spec fn spec_code(self) -> u32 {
        match self {
            VkStructureType::VK_STRUCTURE_TYPE_APPLICATION_INFO => 0u32,
            VkStructureType::VK_STRUCTURE_TYPE_INSTANCE_CREATE_INFO => 1u32,
            VkStructureType::VK_STRUCTURE_TYPE_DEVICE_QUEUE_CREATE_INFO => 2u32,
            VkStructureType::VK_STRUCTURE_TYPE_DEVICE_CREATE_INFO => 3u32,
            VkStructureType::VK_STRUCTURE_TYPE_FENCE_CREATE_INFO => 8u32,
            VkStructureType::VK_STRUCTURE_TYPE_SEMAPHORE_CREATE_INFO => 9u32,
            VkStructureType::VK_STRUCTURE_TYPE_EVENT_CREATE_INFO => 10u32,
            VkStructureType::VK_STRUCTURE_TYPE_COMMAND_POOL_CREATE_INFO => 39u32,
            VkStructureType::VK_STRUCTURE_TYPE_COMMAND_BUFFER_ALLOCATE_INFO => 40u32,
            VkStructureType::VK_STRUCTURE_TYPE_DEBUG_REPORT_CALLBACK_CREATE_INFO_EXT => 1000011000u32,
        }
    }
}

/// Result codes of the native surface. Zero is success, positive codes are
/// informative, negative codes are errors.
#[derive(Clone, Copy, Debug, PartialEq, Eq, Structural)]
pub enum VkResult {
    VK_SUCCESS,
    VK_NOT_READY,
    VK_TIMEOUT,
    VK_EVENT_SET,
    VK_EVENT_RESET,
    VK_INCOMPLETE,
    VK_ERROR_OUT_OF_HOST_MEMORY,
    VK_ERROR_OUT_OF_DEVICE_MEMORY,
    VK_ERROR_INITIALIZATION_FAILED,
    VK_ERROR_DEVICE_LOST,
    VK_ERROR_MEMORY_MAP_FAILED,
    VK_ERROR_LAYER_NOT_PRESENT,
    VK_ERROR_EXTENSION_NOT_PRESENT,
    VK_ERROR_FEATURE_NOT_PRESENT,
    VK_ERROR_INCOMPATIBLE_DRIVER,
    VK_ERROR_TOO_MANY_OBJECTS,
    VK_ERROR_FORMAT_NOT_SUPPORTED,
    VK_ERROR_VALIDATION_FAILED_EXT,
}

impl VkResult {
    pub open spec fn spec_code(self) -> i32 {
        match self {
            VkResult::VK_SUCCESS => 0i32,
            VkResult::VK_NOT_READY => 1i32,
            VkResult::VK_TIMEOUT => 2i32,
            VkResult::VK_EVENT_SET => 3i32,
            VkResult::VK_EVENT_RESET => 4i32,
            VkResult::VK_INCOMPLETE => 5i32,
            VkResult::VK_ERROR_OUT_OF_HOST_MEMORY => -1i32,
            VkResult::VK_ERROR_OUT_OF_DEVICE_MEMORY => -2i32,
            VkResult::VK_ERROR_INITIALIZATION_FAILED => -3i32,
            VkResult::VK_ERROR_DEVICE_LOST => -4i32,
            VkResult::VK_ERROR_MEMORY_MAP_FAILED => -5i32,
            VkResult::VK_ERROR_LAYER_NOT_PRESENT => -6i32,
            VkResult::VK_ERROR_EXTENSION_NOT_PRESENT => -7i32,
            VkResult::VK_ERROR_FEATURE_NOT_PRESENT => -8i32,
            VkResult::VK_ERROR_INCOMPATIBLE_DRIVER => -9i32,
            VkResult::VK_ERROR_TOO_MANY_OBJECTS => -10i32,
            VkResult::VK_ERROR_FORMAT_NOT_SUPPORTED => -11i32,
            VkResult::VK_ERROR_VALIDATION_FAILED_EXT => -1000011001i32,
        }
    }

    /// The integer representation fixed by the native ABI.
    pub fn code(self) -> (c: i32)
        ensures
            c == self.spec_code(),
    {
        match self {
            VkResult::VK_SUCCESS => 0,
            VkResult::VK_NOT_READY => 1,
            VkResult::VK_TIMEOUT => 2,
            VkResult::VK_EVENT_SET => 3,
            VkResult::VK_EVENT_RESET => 4,
            VkResult::VK_INCOMPLETE => 5,
            VkResult::VK_ERROR_OUT_OF_HOST_MEMORY => -1,
            VkResult::VK_ERROR_OUT_OF_DEVICE_MEMORY => -2,
            VkResult::VK_ERROR_INITIALIZATION_FAILED => -3,
            VkResult::VK_ERROR_DEVICE_LOST => -4,
            VkResult::VK_ERROR_MEMORY_MAP_FAILED => -5,
            VkResult::VK_ERROR_LAYER_NOT_PRESENT => -6,
            VkResult::VK_ERROR_EXTENSION_NOT_PRESENT => -7,
            VkResult::VK_ERROR_FEATURE_NOT_PRESENT => -8,
            VkResult::VK_ERROR_INCOMPATIBLE_DRIVER => -9,
            VkResult::VK_ERROR_TOO_MANY_OBJECTS => -10,
            VkResult::VK_ERROR_FORMAT_NOT_SUPPORTED => -11,
            VkResult::VK_ERROR_VALIDATION_FAILED_EXT => -1000011001,
        }
    }

    pub open spec fn spec_from_code(c: i32) -> Option<VkResult> {
        if c == 0 {
            Some(VkResult::VK_SUCCESS)
        } else if c == 1 {
            Some(VkResult::VK_NOT_READY)
        } else if c == 2 {
            Some(VkResult::VK_TIMEOUT)
        } else if c == 3 {
            Some(VkResult::VK_EVENT_SET)
        } else if c == 4 {
            Some(VkResult::VK_EVENT_RESET)
        } else if c == 5 {
            Some(VkResult::VK_INCOMPLETE)
        } else if c == -1 {
            Some(VkResult::VK_ERROR_OUT_OF_HOST_MEMORY)
        } else if c == -2 {
            Some(VkResult::VK_ERROR_OUT_OF_DEVICE_MEMORY)
        } else if c == -3 {
            Some(VkResult::VK_ERROR_INITIALIZATION_FAILED)
        } else if c == -4 {
            Some(VkResult::VK_ERROR_DEVICE_LOST)
        } else if c == -5 {
            Some(VkResult::VK_ERROR_MEMORY_MAP_FAILED)
        } else if c == -6 {
            Some(VkResult::VK_ERROR_LAYER_NOT_PRESENT)
        } else if c == -7 {
            Some(VkResult::VK_ERROR_EXTENSION_NOT_PRESENT)
        } else if c == -8 {
            Some(VkResult::VK_ERROR_FEATURE_NOT_PRESENT)
        } else if c == -9 {
            Some(VkResult::VK_ERROR_INCOMPATIBLE_DRIVER)
        } else if c == -10 {
            Some(VkResult::VK_ERROR_TOO_MANY_OBJECTS)
        } else if c == -11 {
            Some(VkResult::VK_ERROR_FORMAT_NOT_SUPPORTED)
        } else if c == -1000011001 {
            Some(VkResult::VK_ERROR_VALIDATION_FAILED_EXT)
        } else {
            None
        }
    }

    /// Decodes a raw code coming back over the ABI; unknown codes yield `None`.
    pub fn from_code(c: i32) -> (r: Option<VkResult>)
        ensures
            r == VkResult::spec_from_code(c),
    {
        if c == 0 {
            Some(VkResult::VK_SUCCESS)
        } else if c == 1 {
            Some(VkResult::VK_NOT_READY)
        } else if c == 2 {
            Some(VkResult::VK_TIMEOUT)
        } else if c == 3 {
            Some(VkResult::VK_EVENT_SET)
        } else if c == 4 {
            Some(VkResult::VK_EVENT_RESET)
        } else if c == 5 {
            Some(VkResult::VK_INCOMPLETE)
        } else if c == -1 {
            Some(VkResult::VK_ERROR_OUT_OF_HOST_MEMORY)
        } else if c == -2 {
            Some(VkResult::VK_ERROR_OUT_OF_DEVICE_MEMORY)
        } else if c == -3 {
            Some(VkResult::VK_ERROR_INITIALIZATION_FAILED)
        } else if c == -4 {
            Some(VkResult::VK_ERROR_DEVICE_LOST)
        } else if c == -5 {
            Some(VkResult::VK_ERROR_MEMORY_MAP_FAILED)
        } else if c == -6 {
            Some(VkResult::VK_ERROR_LAYER_NOT_PRESENT)
        } else if c == -7 {
            Some(VkResult::VK_ERROR_EXTENSION_NOT_PRESENT)
        } else if c == -8 {
            Some(VkResult::VK_ERROR_FEATURE_NOT_PRESENT)
        } else if c == -9 {
            Some(VkResult::VK_ERROR_INCOMPATIBLE_DRIVER)
        } else if c == -10 {
            Some(VkResult::VK_ERROR_TOO_MANY_OBJECTS)
        } else if c == -11 {
            Some(VkResult::VK_ERROR_FORMAT_NOT_SUPPORTED)
        } else if c == -1000011001 {
            Some(VkResult::VK_ERROR_VALIDATION_FAILED_EXT)
        } else {
            None
        }
    }

    pub open spec fn is_success(self) -> bool {
        self is VK_SUCCESS
    }

    /// Positive codes: the call succeeded and the code itself is the answer.
    pub open spec fn is_informative(self) -> bool {
        ||| self is VK_NOT_READY
        ||| self is VK_TIMEOUT
        ||| self is VK_EVENT_SET
        ||| self is VK_EVENT_RESET
        ||| self is VK_INCOMPLETE
    }

    pub open spec fn is_error(self) -> bool {
        !self.is_success() && !self.is_informative()
    }

    pub fn is_failure(self) -> (b: bool)
        ensures
            b == self.is_error(),
    {
        self.code() < 0
    }
}

/// Every result code is exactly one of: success, informative, error; and the
/// three classes coincide with the sign of the ABI code.
pub proof fn lemma_result_taxonomy(r: VkResult)
    ensures
        r.is_success() <==> r.spec_code() == 0,
        r.is_informative() <==> r.spec_code() > 0,
        r.is_error() <==> r.spec_code() < 0,
{
}

/// Decoding is the inverse of encoding: a code that came from a known result
/// decodes to exactly that result.
pub proof fn lemma_result_code_round_trip(r: VkResult)
    ensures
        VkResult::spec_from_code(r.spec_code()) == Some(r),
{
}

/// Outcome of a call that reports nothing beyond completion: every non-success
/// code is surfaced verbatim as an error.
pub open spec fn spec_completion_outcome(code: VkResult) -> Result<(), VkResult> {
    match code {
        VkResult::VK_SUCCESS => Ok(()),
        other => Err(other),
    }
}

pub fn completion_outcome(code: VkResult) -> (r: Result<(), VkResult>)
    ensures
        r == spec_completion_outcome(code),
{
    match code {
        VkResult::VK_SUCCESS => Ok(()),
        other => Err(other),
    }
}

/// Outcome of a fence status query: ready and not-ready are both successes.
pub open spec fn spec_fence_status_outcome(code: VkResult) -> Result<bool, VkResult> {
    match code {
        VkResult::VK_SUCCESS => Ok(true),
        VkResult::VK_NOT_READY => Ok(false),
        other => Err(other),
    }
}

pub fn fence_status_outcome(code: VkResult) -> (r: Result<bool, VkResult>)
    ensures
        r == spec_fence_status_outcome(code),
{
    match code {
        VkResult::VK_SUCCESS => Ok(true),
        VkResult::VK_NOT_READY => Ok(false),
        other => Err(other),
    }
}

/// Outcome of a bounded wait: expiry of the timeout is a success, not an error.
pub open spec fn spec_wait_outcome(code: VkResult) -> Result<bool, VkResult> {
    match code {
        VkResult::VK_SUCCESS => Ok(true),
        VkResult::VK_TIMEOUT => Ok(false),
        other => Err(other),
    }
}

pub fn wait_outcome(code: VkResult) -> (r: Result<bool, VkResult>)
    ensures
        r == spec_wait_outcome(code),
{
    match code {
        VkResult::VK_SUCCESS => Ok(true),
        VkResult::VK_TIMEOUT => Ok(false),
        other => Err(other),
    }
}

/// Outcome of an event status query: both states are successes.
pub open spec fn spec_event_status_outcome(code: VkResult) -> Result<bool, VkResult> {
    match code {
        VkResult::VK_EVENT_SET => Ok(true),
        VkResult::VK_EVENT_RESET => Ok(false),
        other => Err(other),
    }
}

pub fn event_status_outcome(code: VkResult) -> (r: Result<bool, VkResult>)
    ensures
        r == spec_event_status_outcome(code),
{
    match code {
        VkResult::VK_EVENT_SET => Ok(true),
        VkResult::VK_EVENT_RESET => Ok(false),
        other => Err(other),
    }
}

/// Informative codes are never turned into failures by the outcome maps that
/// expect them, and a genuine error code always comes through verbatim.
pub proof fn lemma_informative_codes_not_errors(code: VkResult)
    ensures
        code is VK_NOT_READY ==> spec_fence_status_outcome(code) == Ok::<bool, VkResult>(false),
        code is VK_TIMEOUT ==> spec_wait_outcome(code) == Ok::<bool, VkResult>(false),
        code is VK_EVENT_SET ==> spec_event_status_outcome(code) == Ok::<bool, VkResult>(true),
        code is VK_EVENT_RESET ==> spec_event_status_outcome(code) == Ok::<bool, VkResult>(false),
        code.is_error() ==> spec_completion_outcome(code) == Err::<(), VkResult>(code),
        code.is_error() ==> spec_fence_status_outcome(code) == Err::<bool, VkResult>(code),
        code.is_error() ==> spec_wait_outcome(code) == Err::<bool, VkResult>(code),
        code.is_error() ==> spec_event_status_outcome(code) == Err::<bool, VkResult>(code),
{
}

} // verus!
