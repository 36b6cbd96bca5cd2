//! The callback bridge of the debug-report extension.
//!
//! Registration resolves the extension's entry points by name; they exist
//! exactly when the instance was created with the extension enabled, and a
//! missing entry point fails registration with
//! `VK_ERROR_EXTENSION_NOT_PRESENT`. A registered callback carries the
//! severity filter it was created with; a report is delivered to it exactly
//! when the report's severity intersects that filter. Delivered reports are
//! recorded on the wrapper, the bridge's observable state at this layer.
//!
//! At the ABI the bridge hands the driver a fixed-signature trampoline plus an
//! opaque pointer to the registered closure; the trampoline, its user-data
//! round trip and its unwind barrier are unverified glue with the embedding
//! application.

use vstd::prelude::*;
use vstd::pervasive::unreached;
use crate::driver;
use crate::instance::Instance;
use crate::sys::common::{VkResult, VkStructureType};
use crate::sys::debug::{
    VkDebugReportCallbackEXT, VkDebugReportCallbackCreateInfoEXT, VkDebugReportFlagsEXT,
    VkDebugReportObjectTypeEXT, VK_DEBUG_REPORT_DEBUG_BIT_EXT, VK_DEBUG_REPORT_ERROR_BIT_EXT,
    VK_DEBUG_REPORT_INFORMATION_BIT_EXT, VK_DEBUG_REPORT_PERFORMANCE_WARNING_BIT_EXT,
    VK_DEBUG_REPORT_WARNING_BIT_EXT,
};

verus! {

pub type DebugReportFlagsEXT = VkDebugReportFlagsEXT;

/// One report as a callback receives it.
pub struct DebugMessage {
    pub flags: VkDebugReportFlagsEXT,
    pub object_type: VkDebugReportObjectTypeEXT,
    pub object: u64,
    pub location: usize,
    pub message_code: i32,
    pub layer_prefix: String,
    pub message: String,
}

/// Whether a report of severity `severity` is delivered to a callback
/// registered with `filter`.
pub open spec fn spec_delivered(
    filter: VkDebugReportFlagsEXT,
    severity: VkDebugReportFlagsEXT,
) -> bool {
    filter.spec_intersects(severity)
}

pub struct DebugReportCallbackEXT<'a> {
    handle: VkDebugReportCallbackEXT,
    instance: &'a Instance,
    flags: VkDebugReportFlagsEXT,
    received: Vec<DebugMessage>,
}

impl<'a> DebugReportCallbackEXT<'a> {
    #[verifier::type_invariant]
    spec fn wf(self) -> bool {
        self.handle != 0
    }

    pub closed spec fn spec_handle(&self) -> VkDebugReportCallbackEXT {
        self.handle
    }

    pub closed spec fn spec_instance_handle(&self) -> usize {
        self.instance.spec_handle()
    }

    /// The severity filter this callback was registered with.
    pub closed spec fn spec_filter(&self) -> VkDebugReportFlagsEXT {
        self.flags
    }

    /// The reports delivered to this callback so far, oldest first.
    pub closed spec fn spec_received(&self) -> Seq<DebugMessage> {
        self.received@
    }

    /// Registers a callback with the given severity filter. The extension's
    /// entry points resolve exactly when the instance was created with the
    /// debug-report extension; otherwise registration fails with
    /// `VK_ERROR_EXTENSION_NOT_PRESENT` and nothing is registered.
    pub fn new(instance: &'a Instance, flags: VkDebugReportFlagsEXT) -> (r: Result<
        DebugReportCallbackEXT<'a>,
        VkResult,
    >)
        ensures
            r is Ok <==> instance.spec_has_extension("VK_EXT_debug_report"@),
            r matches Err(e) ==> e == VkResult::VK_ERROR_EXTENSION_NOT_PRESENT,
            r matches Ok(c) ==> {
                &&& c.spec_handle() != 0
                &&& c.spec_instance_handle() == instance.spec_handle()
                &&& c.spec_filter() == flags
                &&& c.spec_received().len() == 0
            },
    {
        // The creation, destruction and message entry points of the extension
        // all resolve by name, and only when the extension was enabled.
        let extension_name = "VK_EXT_debug_report".to_owned();
        if !instance.has_extension(&extension_name) {
            return Err(VkResult::VK_ERROR_EXTENSION_NOT_PRESENT);
        }
        let create_info = VkDebugReportCallbackCreateInfoEXT {
            s_type: VkStructureType::VK_STRUCTURE_TYPE_DEBUG_REPORT_CALLBACK_CREATE_INFO_EXT,
            flags,
        };
        let (code, handle) = driver::create_debug_report_callback(*instance.handle(), &create_info);
        match code {
            VkResult::VK_SUCCESS => Ok(
                DebugReportCallbackEXT {
                    handle,
                    instance,
                    flags: create_info.flags,
                    received: Vec::new(),
                },
            ),
            x => Err(x),
        }
    }

    /// Injects a report. It is delivered to this callback — appended to its
    /// record — exactly when its severity intersects the registered filter;
    /// otherwise the callback is left untouched.
    pub fn message(
        &mut self,
        flags: VkDebugReportFlagsEXT,
        object_type: VkDebugReportObjectTypeEXT,
        object: u64,
        location: usize,
        message_code: i32,
        layer_prefix: &str,
        message: &str,
    )
        ensures
            final(self).spec_handle() == old(self).spec_handle(),
            final(self).spec_instance_handle() == old(self).spec_instance_handle(),
            final(self).spec_filter() == old(self).spec_filter(),
            spec_delivered(old(self).spec_filter(), flags) ==> {
                &&& final(self).spec_received().len() == old(self).spec_received().len() + 1
                &&& final(self).spec_received().drop_last() =~= old(self).spec_received()
                &&& final(self).spec_received().last().flags == flags
                &&& final(self).spec_received().last().object_type == object_type
                &&& final(self).spec_received().last().object == object
                &&& final(self).spec_received().last().location == location
                &&& final(self).spec_received().last().message_code == message_code
                &&& final(self).spec_received().last().layer_prefix@ == layer_prefix@
                &&& final(self).spec_received().last().message@ == message@
            },
            !spec_delivered(old(self).spec_filter(), flags) ==> final(self).spec_received()
                =~= old(self).spec_received(),
    {
        proof {
            use_type_invariant(&*self);
        }
        if self.flags.intersects(flags) {
            let mut delivered: Vec<DebugMessage> = Vec::new();
            std::mem::swap(&mut delivered, &mut self.received);
            delivered.push(DebugMessage {
                flags,
                object_type,
                object,
                location,
                message_code,
                layer_prefix: layer_prefix.to_owned(),
                message: message.to_owned(),
            });
            self.received = delivered;
        }
    }

    /// How many reports have been delivered to this callback.
    pub fn received_count(&self) -> (n: usize)
        ensures
            n == self.spec_received().len(),
    {
        self.received.len()
    }

    /// The reports delivered to this callback, oldest first.
    pub fn received(&self) -> (v: &Vec<DebugMessage>)
        ensures
            v@ =~= self.spec_received(),
    {
        &self.received
    }

    /// Whether any report has been delivered to this callback.
    pub fn triggered(&self) -> (b: bool)
        ensures
            b == (self.spec_received().len() > 0),
    {
        self.received.len() > 0
    }
}

/// The filter a strict monitor registers with: every severity except
/// information and debug chatter.
pub open spec fn spec_monitor_filter() -> VkDebugReportFlagsEXT {
    VkDebugReportFlagsEXT {
        bits: 0x1fu32 ^ VK_DEBUG_REPORT_DEBUG_BIT_EXT ^ VK_DEBUG_REPORT_INFORMATION_BIT_EXT,
    }
}

/// A monitor filtering out information and debug reports still receives
/// error, warning and performance-warning reports, and receives no
/// information or debug report.
pub proof fn lemma_monitor_severity_filter()
    ensures
        spec_delivered(
            spec_monitor_filter(),
            (VkDebugReportFlagsEXT { bits: VK_DEBUG_REPORT_ERROR_BIT_EXT }),
        ),
        spec_delivered(
            spec_monitor_filter(),
            (VkDebugReportFlagsEXT { bits: VK_DEBUG_REPORT_WARNING_BIT_EXT }),
        ),
        spec_delivered(
            spec_monitor_filter(),
            (VkDebugReportFlagsEXT { bits: VK_DEBUG_REPORT_PERFORMANCE_WARNING_BIT_EXT }),
        ),
        !spec_delivered(
            spec_monitor_filter(),
            (VkDebugReportFlagsEXT { bits: VK_DEBUG_REPORT_INFORMATION_BIT_EXT }),
        ),
        !spec_delivered(
            spec_monitor_filter(),
            (VkDebugReportFlagsEXT { bits: VK_DEBUG_REPORT_DEBUG_BIT_EXT }),
        ),
{
    assert(((0x1fu32 ^ 0x10u32 ^ 0x1u32) & 0x8u32) != 0u32) by (bit_vector);
    assert(((0x1fu32 ^ 0x10u32 ^ 0x1u32) & 0x2u32) != 0u32) by (bit_vector);
    assert(((0x1fu32 ^ 0x10u32 ^ 0x1u32) & 0x4u32) != 0u32) by (bit_vector);
    assert(((0x1fu32 ^ 0x10u32 ^ 0x1u32) & 0x1u32) == 0u32) by (bit_vector);
    assert(((0x1fu32 ^ 0x10u32 ^ 0x1u32) & 0x10u32) == 0u32) by (bit_vector);
}

/// Registers a monitor on `instance`: a callback that records every report
/// its filter lets through. A strict monitor filters out only information and
/// debug chatter; a lenient one records errors alone.
pub fn debug_monitor<'a>(instance: &'a Instance, strict: bool) -> (m: DebugReportCallbackEXT<'a>)
    requires
        instance.spec_has_extension("VK_EXT_debug_report"@),
    ensures
        m.spec_instance_handle() == instance.spec_handle(),
        m.spec_received().len() == 0,
        m.spec_filter() == if strict {
            spec_monitor_filter()
        } else {
            (VkDebugReportFlagsEXT { bits: VK_DEBUG_REPORT_ERROR_BIT_EXT })
        },
{
    let flags = if strict {
        let all = VkDebugReportFlagsEXT::all();
        VkDebugReportFlagsEXT::from_bits(
            all.bits ^ VK_DEBUG_REPORT_DEBUG_BIT_EXT ^ VK_DEBUG_REPORT_INFORMATION_BIT_EXT,
        )
    } else {
        VkDebugReportFlagsEXT::from_bits(VK_DEBUG_REPORT_ERROR_BIT_EXT)
    };
    match DebugReportCallbackEXT::new(instance, flags) {
        Ok(monitor) => monitor,
        Err(_) => unreached(),
    }
}

} // verus!
