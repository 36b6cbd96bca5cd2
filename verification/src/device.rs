//! The device context: created from a physical device with a queue request,
//! it records how many queues of each family it owns and validates queue
//! acquisition against that record without a further round trip.

use vstd::prelude::*;
use core::marker::PhantomData;
use crate::driver;
use crate::driver::{adapter_queue_family, adapter_family_count, transfer_queue_family};
use crate::instance::PhysicalDevice;
use crate::sys::common::{VkResult, VkStructureType, VK_NULL_HANDLE};
use crate::sys::device::{
    VkDevice, VkQueue, VkDeviceCreateFlags, VkDeviceCreateInfo, VkDeviceQueueCreateFlags,
    VkDeviceQueueCreateInfo, VkPhysicalDeviceFeatures,
};
use crate::sys::instance::{VkQueueFamilyProperties, VK_QUEUE_GRAPHICS_BIT};

verus! {

/// A scheduling priority in the unit interval, carried in thousandths. The
/// ABI transports it as a binary fraction; the conversion is unverified glue
/// and lives with the embedding application.
#[derive(Clone, Copy, Debug, PartialEq, Eq, Structural)]
pub struct QueuePriority {
    thousandths: u32,
}

impl QueuePriority {
    #[verifier::type_invariant]
    spec fn wf(self) -> bool {
        self.thousandths <= 1000
    }

    pub closed spec fn spec_thousandths(&self) -> u32 {
        self.thousandths
    }

    /// Accepts exactly the values inside the unit interval.
    pub fn from_thousandths(t: u32) -> (r: Option<QueuePriority>)
        ensures
            r is Some <==> t <= 1000,
            r matches Some(p) ==> p.spec_thousandths() == t,
    {
        if t <= 1000 {
            Some(QueuePriority { thousandths: t })
        } else {
            None
        }
    }

    /// Clamps out-of-range values to the nearest end of the unit interval.
    pub fn from_thousandths_clamped(t: u32) -> (p: QueuePriority)
        ensures
            p.spec_thousandths() == if t <= 1000 {
                t
            } else {
                1000u32
            },
    {
        if t <= 1000 {
            QueuePriority { thousandths: t }
        } else {
            QueuePriority { thousandths: 1000 }
        }
    }

    pub fn thousandths(&self) -> (t: u32)
        ensures
            t == self.spec_thousandths(),
    {
        self.thousandths
    }
}

/// The map an association list denotes: later entries win, as with repeated
/// insertion.
pub open spec fn spec_queue_counts(s: Seq<(u32, u32)>) -> Map<u32, u32>
    decreases s.len(),
{
    if s.len() == 0 {
        Map::empty()
    } else {
        spec_queue_counts(s.drop_last()).insert(s.last().0, s.last().1)
    }
}

/// No queue family occurs twice in the request.
pub open spec fn spec_distinct_families<T>(s: Seq<(u32, T)>) -> bool {
    forall|i: int, j: int| 0 <= i < j < s.len() ==> (#[trigger] s[i]).0 != (#[trigger] s[j]).0
}

/// The queue map a request denotes: each requested family maps to the number
/// of priorities supplied for it.
pub open spec fn spec_requested_counts(req: Seq<(u32, Vec<QueuePriority>)>) -> Map<u32, u32> {
    spec_queue_counts(req.map_values(|e: (u32, Vec<QueuePriority>)| (e.0, e.1@.len() as u32)))
}

/// On an association list without repeated keys, the denoted map contains
/// exactly the listed keys, each bound to its listed value.
pub proof fn lemma_queue_counts_lookup(s: Seq<(u32, u32)>, fam: u32)
    requires
        spec_distinct_families(s),
    ensures
        spec_queue_counts(s).dom().contains(fam) <==> exists|k: int|
            0 <= k < s.len() && (#[trigger] s[k]).0 == fam,
        forall|k: int|
            0 <= k < s.len() && (#[trigger] s[k]).0 == fam ==> spec_queue_counts(s)[fam] == s[k].1,
    decreases s.len(),
{
    if s.len() > 0 {
        let prefix = s.drop_last();
        assert(spec_distinct_families(prefix)) by {
            assert forall|i: int, j: int| 0 <= i < j < prefix.len() implies (#[trigger] prefix[i]).0
                != (#[trigger] prefix[j]).0 by {
                assert(prefix[i] == s[i]);
                assert(prefix[j] == s[j]);
            }
        }
        lemma_queue_counts_lookup(prefix, fam);
        if s.last().0 == fam {
            assert(s[s.len() - 1].0 == fam);
        } else {
            if exists|k: int| 0 <= k < prefix.len() && (#[trigger] prefix[k]).0 == fam {
                let k = choose|k: int| 0 <= k < prefix.len() && (#[trigger] prefix[k]).0 == fam;
                assert(s[k].0 == fam);
            }
            if exists|k: int| 0 <= k < s.len() && (#[trigger] s[k]).0 == fam {
                let k = choose|k: int| 0 <= k < s.len() && (#[trigger] s[k]).0 == fam;
                assert(k < s.len() - 1);
                assert(prefix[k].0 == fam);
            }
        }
    }
}

/// Whether one requested entry must be refused: it asks for more queues than
/// the family offers while the family is not graphics-capable.
pub open spec fn spec_entry_rejected(
    entry: (u32, Vec<QueuePriority>),
    props: Seq<VkQueueFamilyProperties>,
) -> bool {
    &&& (props[entry.0 as int].queue_count as nat) < entry.1@.len()
    &&& !props[entry.0 as int].queue_flags.spec_contains(VK_QUEUE_GRAPHICS_BIT)
}

/// Whether a queue request must be refused outright.
pub open spec fn spec_request_rejected(
    req: Seq<(u32, Vec<QueuePriority>)>,
    props: Seq<VkQueueFamilyProperties>,
) -> bool {
    exists|i: int| 0 <= i < req.len() && spec_entry_rejected(#[trigger] req[i], props)
}

pub struct Device<'a> {
    handle: VkDevice,
    nqueues: Vec<(u32, u32)>,
    physical_device: PhantomData<&'a PhysicalDevice<'a>>,
}

impl<'a> Device<'a> {
    #[verifier::type_invariant]
    spec fn wf(self) -> bool {
        &&& self.handle != VK_NULL_HANDLE
        &&& spec_distinct_families(self.nqueues@)
    }

    pub closed spec fn spec_handle(&self) -> VkDevice {
        self.handle
    }

    /// The queue allocation this device was created with: family index to
    /// queue count.
    pub closed spec fn spec_queue_map(&self) -> Map<u32, u32> {
        spec_queue_counts(self.nqueues@)
    }

    /// Creates a device owning the queues described by `queue_priorities`:
    /// one entry per family, each carrying the priorities of the queues
    /// requested from that family.
    ///
    /// The request is refused with `VK_ERROR_VALIDATION_FAILED_EXT` exactly
    /// when some entry asks for more queues than its family offers while that
    /// family is not graphics-capable; otherwise the new device's queue map
    /// records every requested family with its requested count.
    pub fn new(
        physical_device: &PhysicalDevice<'a>,
        queue_priorities: Vec<(u32, Vec<QueuePriority>)>,
    ) -> (r: Result<Device<'a>, VkResult>)
        requires
            spec_distinct_families(queue_priorities@),
            forall|i: int|
                0 <= i < queue_priorities@.len() ==> ((#[trigger] queue_priorities@[i]).0 as int)
                    < adapter_family_count(),
            forall|i: int|
                0 <= i < queue_priorities@.len() ==> (#[trigger] queue_priorities@[i]).1@.len()
                    <= u32::MAX,
        ensures
            r is Err <==> spec_request_rejected(
                queue_priorities@,
                seq![adapter_queue_family(), transfer_queue_family()],
            ),
            r matches Err(e) ==> e == VkResult::VK_ERROR_VALIDATION_FAILED_EXT,
            r matches Ok(d) ==> {
                &&& d.spec_handle() != VK_NULL_HANDLE
                &&& d.spec_queue_map() == spec_requested_counts(queue_priorities@)
            },
    {
        let ghost req = queue_priorities@;
        let mut queue_create_infos: Vec<VkDeviceQueueCreateInfo> = Vec::new();
        let mut i: usize = 0;
        while i < queue_priorities.len()
            invariant
                0 <= i <= req.len(),
                queue_priorities@ == req,
                forall|k: int| 0 <= k < req.len() ==> (#[trigger] req[k]).1@.len() <= u32::MAX,
                queue_create_infos@.len() == i,
                forall|k: int|
                    0 <= k < i ==> (#[trigger] queue_create_infos@[k]).queue_family_index
                        == req[k].0 && queue_create_infos@[k].queue_count == req[k].1@.len(),
            decreases req.len() - i,
        {
            queue_create_infos.push(VkDeviceQueueCreateInfo {
                s_type: VkStructureType::VK_STRUCTURE_TYPE_DEVICE_QUEUE_CREATE_INFO,
                flags: VkDeviceQueueCreateFlags::Reserved,
                queue_family_index: queue_priorities[i].0,
                queue_count: queue_priorities[i].1.len() as u32,
            });
            i += 1;
        }
        let create_info = VkDeviceCreateInfo {
            s_type: VkStructureType::VK_STRUCTURE_TYPE_DEVICE_CREATE_INFO,
            flags: VkDeviceCreateFlags::Reserved,
            p_queue_create_infos: queue_create_infos,
            pp_enabled_layer_names: Vec::new(),
            pp_enabled_extension_names: Vec::new(),
            p_enabled_features: VkPhysicalDeviceFeatures::default(),
        };

        let queue_family_properties = physical_device.queue_family_properties();
        let ghost props = queue_family_properties@;
        let mut i: usize = 0;
        while i < queue_priorities.len()
            invariant
                0 <= i <= req.len(),
                queue_priorities@ == req,
                props == queue_family_properties@,
                props =~= seq![adapter_queue_family(), transfer_queue_family()],
                forall|k: int|
                    0 <= k < req.len() ==> ((#[trigger] req[k]).0 as int) < adapter_family_count(),
                forall|k: int| 0 <= k < i ==> !spec_entry_rejected(#[trigger] req[k], props),
            decreases req.len() - i,
        {
            let family = queue_priorities[i].0;
            let count = queue_family_properties[family as usize].queue_count;
            let flags = queue_family_properties[family as usize].queue_flags;
            if (count as usize) < queue_priorities[i].1.len() && !flags.contains(
                VK_QUEUE_GRAPHICS_BIT,
            ) {
                assert(spec_entry_rejected(req[i as int], props));
                return Err(VkResult::VK_ERROR_VALIDATION_FAILED_EXT);
            }
            i += 1;
        }
        assert(!spec_request_rejected(req, seq![adapter_queue_family(), transfer_queue_family()]));

        let mut nqueues: Vec<(u32, u32)> = Vec::new();
        let mut i: usize = 0;
        while i < queue_priorities.len()
            invariant
                0 <= i <= req.len(),
                queue_priorities@ == req,
                forall|k: int| 0 <= k < req.len() ==> (#[trigger] req[k]).1@.len() <= u32::MAX,
                nqueues@.len() == i,
                forall|k: int|
                    0 <= k < i ==> #[trigger] nqueues@[k] == (req[k].0, req[k].1@.len() as u32),
            decreases req.len() - i,
        {
            let family = queue_priorities[i].0;
            let n = queue_priorities[i].1.len() as u32;
            nqueues.push((family, n));
            i += 1;
        }
        proof {
            let mapped = req.map_values(|e: (u32, Vec<QueuePriority>)| (e.0, e.1@.len() as u32));
            assert(nqueues@ =~= mapped);
            assert(spec_distinct_families(nqueues@)) by {
                assert forall|a: int, b: int| 0 <= a < b < nqueues@.len() implies (
                #[trigger] nqueues@[a]).0 != (#[trigger] nqueues@[b]).0 by {
                    assert(nqueues@[a].0 == req[a].0);
                    assert(nqueues@[b].0 == req[b].0);
                }
            }
        }

        let (code, handle) = driver::create_device(*physical_device.handle(), &create_info);
        match code {
            VkResult::VK_SUCCESS => Ok(
                Device { handle, nqueues, physical_device: PhantomData },
            ),
            x => Err(x),
        }
    }

    /// Hands out the `index`-th queue of `family`: a value exactly when the
    /// family was requested at creation and `index` lies below its requested
    /// count.
    pub fn get_queue(&self, family: u32, index: u32) -> (q: Option<Queue<'a>>)
        ensures
            q is Some <==> (self.spec_queue_map().dom().contains(family) && index
                < self.spec_queue_map()[family]),
            q matches Some(qq) ==> qq.spec_handle() != VK_NULL_HANDLE,
    {
        proof {
            use_type_invariant(&*self);
            lemma_queue_counts_lookup(self.nqueues@, family);
        }
        let mut i: usize = 0;
        while i < self.nqueues.len()
            invariant
                0 <= i <= self.nqueues@.len(),
                spec_distinct_families(self.nqueues@),
                forall|k: int| 0 <= k < i ==> (#[trigger] self.nqueues@[k]).0 != family,
            decreases self.nqueues@.len() - i,
        {
            if self.nqueues[i].0 == family {
                proof {
                    lemma_queue_counts_lookup(self.nqueues@, family);
                    assert((self.nqueues@[i as int]).0 == family);
                    assert(exists|k: int|
                        0 <= k < self.nqueues@.len() && (#[trigger] self.nqueues@[k]).0 == family);
                    assert(self.spec_queue_map().dom().contains(family));
                    assert(self.spec_queue_map()[family] == self.nqueues@[i as int].1);
                }
                if index < self.nqueues[i].1 {
                    let handle = driver::get_device_queue(self.handle, family, index);
                    return Some(Queue { queue: handle, device: PhantomData });
                } else {
                    return None;
                }
            }
            i += 1;
        }
        None
    }

    pub fn handle(&self) -> (h: &VkDevice)
        ensures
            *h == self.spec_handle(),
    {
        &self.handle
    }
}

/// For every device created from a queue request: each requested family is
/// present in the device's queue map with exactly the requested number of
/// queues, and no unrequested family is present. Together with the contracts
/// of [`Device::new`] and [`Device::get_queue`], acquisition succeeds for
/// precisely the pairs `(family, index)` with `index` below the requested
/// count of a requested family.
pub proof fn lemma_requested_queues(req: Seq<(u32, Vec<QueuePriority>)>, family: u32)
    requires
        spec_distinct_families(req),
        forall|i: int| 0 <= i < req.len() ==> (#[trigger] req[i]).1@.len() <= u32::MAX,
    ensures
        forall|i: int|
            0 <= i < req.len() && (#[trigger] req[i]).0 == family ==> {
                &&& spec_requested_counts(req).dom().contains(family)
                &&& spec_requested_counts(req)[family] == req[i].1@.len()
            },
        (forall|i: int| 0 <= i < req.len() ==> (#[trigger] req[i]).0 != family)
            ==> !spec_requested_counts(req).dom().contains(family),
{
    let mapped = req.map_values(|e: (u32, Vec<QueuePriority>)| (e.0, e.1@.len() as u32));
    assert(spec_distinct_families(mapped)) by {
        assert forall|a: int, b: int| 0 <= a < b < mapped.len() implies (#[trigger] mapped[a]).0
            != (#[trigger] mapped[b]).0 by {
            assert(mapped[a].0 == req[a].0);
            assert(mapped[b].0 == req[b].0);
        }
    }
    lemma_queue_counts_lookup(mapped, family);
    assert forall|i: int| 0 <= i < req.len() && (#[trigger] req[i]).0 == family implies {
        &&& spec_requested_counts(req).dom().contains(family)
        &&& spec_requested_counts(req)[family] == req[i].1@.len()
    } by {
        assert(mapped[i].0 == family);
        assert(mapped[i].1 == req[i].1@.len() as u32);
    }
    if forall|i: int| 0 <= i < req.len() ==> (#[trigger] req[i]).0 != family {
        assert forall|k: int| 0 <= k < mapped.len() implies (#[trigger] mapped[k]).0 != family by {
            assert(mapped[k].0 == req[k].0);
        }
    }
}

/// A queue handed out by a device; it must not outlive the device it came
/// from. Queue submission is outside this layer.
pub struct Queue<'a> {
    queue: VkQueue,
    device: PhantomData<&'a Device<'a>>,
}

impl<'a> Queue<'a> {
    #[verifier::type_invariant]
    spec fn wf(self) -> bool {
        self.queue != VK_NULL_HANDLE
    }

    pub closed spec fn spec_handle(&self) -> VkQueue {
        self.queue
    }
}

} // verus!
