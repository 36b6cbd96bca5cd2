//! The root of the ownership tree: the instance and the physical devices
//! enumerated from it.
//!
//! An `Instance` is the only ownerless wrapper. Every `PhysicalDevice` carries
//! a borrow of the instance it came from, so the instance cannot be dropped
//! while a physical device is still reachable.
//!
//! The layers and extensions requested at creation are recorded verbatim and
//! decide which extension entry points can later be resolved.

use vstd::prelude::*;
use vstd::pervasive::unreached;
use core::marker::PhantomData;
use crate::driver;
use crate::driver::{adapter_queue_family, adapter_family_count, transfer_queue_family};
use crate::sys::common::{VkResult, VkStructureType, VK_NULL_HANDLE};
use crate::sys::instance::{
    VkInstance, VkPhysicalDevice, VkInstanceCreateFlags, VkInstanceCreateInfo,
    VkQueueFamilyProperties,
};

verus! {

pub struct Instance {
    handle: VkInstance,
    layers: Vec<String>,
    extensions: Vec<String>,
}

impl Instance {
    #[verifier::type_invariant]
    spec fn wf(self) -> bool {
        self.handle != VK_NULL_HANDLE
    }

    pub closed spec fn spec_handle(&self) -> VkInstance {
        self.handle
    }

    pub closed spec fn spec_layers(&self) -> Seq<String> {
        self.layers@
    }

    pub closed spec fn spec_extensions(&self) -> Seq<String> {
        self.extensions@
    }

    /// Whether `name` was among the extensions enabled at creation; extension
    /// entry points resolve exactly when this holds.
    pub open spec fn spec_has_extension(&self, name: Seq<char>) -> bool {
        exists|i: int| 0 <= i < self.spec_extensions().len() && self.spec_extensions()[i]@ == name
    }

    /// Creates the root context. The requested layer and extension names are
    /// recorded verbatim; the modeled driver accepts every request.
    pub fn new(layers: Vec<String>, extensions: Vec<String>) -> (r: Result<Instance, VkResult>)
        requires
            layers@.len() <= u32::MAX,
            extensions@.len() <= u32::MAX,
        ensures
            r matches Ok(i),
            r matches Ok(i) ==> {
                &&& i.spec_handle() != VK_NULL_HANDLE
                &&& i.spec_layers() == layers@
                &&& i.spec_extensions() == extensions@
            },
    {
        let create_info = VkInstanceCreateInfo {
            s_type: VkStructureType::VK_STRUCTURE_TYPE_INSTANCE_CREATE_INFO,
            flags: VkInstanceCreateFlags::Reserved,
            p_application_info: None,
            pp_enabled_layer_names: layers,
            pp_enabled_extension_names: extensions,
        };
        let (code, handle) = driver::create_instance(&create_info);
        match code {
            VkResult::VK_SUCCESS => Ok(Instance {
                handle,
                layers: create_info.pp_enabled_layer_names,
                extensions: create_info.pp_enabled_extension_names,
            }),
            x => Err(x),
        }
    }

    /// Enumerates the physical devices reachable through this instance. The
    /// modeled driver reports exactly one adapter.
    pub fn devices(&self) -> (r: Result<Vec<PhysicalDevice<'_>>, VkResult>)
        ensures
            r matches Ok(v),
            r matches Ok(v) ==> v@.len() == 1 && v@[0].spec_handle() != VK_NULL_HANDLE,
    {
        let (code, handles) = driver::enumerate_physical_devices(self.handle);
        match code {
            VkResult::VK_SUCCESS => {
                let mut devices: Vec<PhysicalDevice<'_>> = Vec::new();
                let mut i: usize = 0;
                while i < handles.len()
                    invariant
                        0 <= i <= handles@.len(),
                        devices@.len() == i,
                        forall|k: int| 0 <= k < handles@.len() ==> #[trigger] handles@[k]
                            != VK_NULL_HANDLE,
                        forall|k: int| 0 <= k < i ==> #[trigger] devices@[k].spec_handle()
                            == handles@[k],
                    decreases handles@.len() - i,
                {
                    devices.push(PhysicalDevice { handle: handles[i], instance: PhantomData });
                    i += 1;
                }
                Ok(devices)
            },
            x => Err(x),
        }
    }

    pub fn handle(&self) -> (h: &VkInstance)
        ensures
            *h == self.spec_handle(),
    {
        &self.handle
    }

    /// Whether the named extension was enabled when this instance was created.
    pub fn has_extension(&self, name: &String) -> (b: bool)
        ensures
            b == self.spec_has_extension(name@),
    {
        let mut i: usize = 0;
        while i < self.extensions.len()
            invariant
                0 <= i <= self.extensions@.len(),
                forall|k: int| 0 <= k < i ==> (#[trigger] self.extensions@[k])@ != name@,
            decreases self.extensions@.len() - i,
        {
            if self.extensions[i] == *name {
                proof {
                    assert(self.spec_extensions()[i as int]@ == name@);
                }
                return true;
            }
            i += 1;
        }
        false
    }
}

pub struct PhysicalDevice<'a> {
    handle: VkPhysicalDevice,
    instance: PhantomData<&'a Instance>,
}

impl<'a> PhysicalDevice<'a> {
    #[verifier::type_invariant]
    spec fn wf(self) -> bool {
        self.handle != VK_NULL_HANDLE
    }

    pub closed spec fn spec_handle(&self) -> VkPhysicalDevice {
        self.handle
    }

    pub fn handle(&self) -> (h: &VkPhysicalDevice)
        ensures
            *h == self.spec_handle(),
    {
        &self.handle
    }

    /// Reports the queue families of this adapter; the modeled driver always
    /// reports the graphics-capable family of [`adapter_queue_family`] and the
    /// transfer-only family of [`transfer_queue_family`].
    pub fn queue_family_properties(&self) -> (v: Vec<VkQueueFamilyProperties>)
        ensures
            v@.len() == adapter_family_count(),
            v@[0] == adapter_queue_family(),
            v@[1] == transfer_queue_family(),
    {
        driver::get_queue_family_properties(self.handle)
    }
}

/// An instance with the standard validation layer and the debug-report
/// extension enabled: the configuration under which the callback bridge can
/// register itself.
pub fn debug_instance() -> (i: Instance)
    ensures
        i.spec_layers().len() == 1,
        i.spec_layers()[0]@ == "VK_LAYER_LUNARG_standard_validation"@,
        i.spec_extensions().len() == 1,
        i.spec_extensions()[0]@ == "VK_EXT_debug_report"@,
        i.spec_has_extension("VK_EXT_debug_report"@),
{
    let exts = vec!["VK_EXT_debug_report".to_owned()];
    let layers = vec!["VK_LAYER_LUNARG_standard_validation".to_owned()];
    match Instance::new(layers, exts) {
        Ok(i) => {
            assert(i.spec_extensions()[0]@ == "VK_EXT_debug_report"@);
            i
        },
        Err(_) => unreached(),
    }
}

} // verus!
