//! Physical device selection.
//!
//! A candidate is what was queried of one physical device: the extensions it
//! supports, its type, and for each queue family its capabilities and whether
//! it can present to the surface. The choice among candidates is a pure
//! function of that data.

use vstd::prelude::*;
use vulkano::device::DeviceExtensions;
use vulkano::device::QueueFlags;

verus! {

/// vulkano's set of device extensions; opaque here.
#[verifier::external_type_specification]
#[verifier::external_body]
pub struct ExDeviceExtensions(vulkano::device::DeviceExtensions);

/// vulkano's set of queue capability flags; opaque here.
#[verifier::external_type_specification]
#[verifier::external_body]
pub struct ExQueueFlags(vulkano::device::QueueFlags);

/// The Vulkan names of the extensions that are switched on in `extensions`.
pub uninterp spec fn enabled_extensions(extensions: DeviceExtensions) -> Set<Seq<char>>;

/// The single-bit Vulkan flag values that are set in `flags`.
pub uninterp spec fn queue_flag_bits(flags: QueueFlags) -> Set<u32>;

/// The value of Vulkan's graphics queue flag.
pub const QUEUE_GRAPHICS_BIT: u32 = 1;

/// Calls `DeviceExtensions::contains`. Trusted: the call is true exactly when
/// every extension switched on in `required` is switched on in `supported`.
#[verifier::external_body]
fn extensions_contain(supported: &DeviceExtensions, required: &DeviceExtensions) -> (r: bool)
    ensures
        r == enabled_extensions(*required).subset_of(enabled_extensions(*supported)),
{
    supported.contains(required)
}

/// Calls `QueueFlags::contains`. Trusted: the call is true exactly when
/// every flag set in `wanted` is set in `flags`.
#[verifier::external_body]
fn queue_flags_contain(flags: &QueueFlags, wanted: &QueueFlags) -> (r: bool)
    ensures
        r == queue_flag_bits(*wanted).subset_of(queue_flag_bits(*flags)),
{
    flags.contains(*wanted)
}

/// Hands out `QueueFlags::GRAPHICS`. Trusted: it has the graphics flag set
/// and no other.
#[verifier::external_body]
fn graphics_flag() -> (r: QueueFlags)
    ensures
        queue_flag_bits(r) == set![QUEUE_GRAPHICS_BIT],
{
    QueueFlags::GRAPHICS
}

/// The Vulkan name of the swapchain extension.
pub open spec fn swapchain_extension_name() -> Seq<char> {
    "VK_KHR_swapchain"@
}

/// Builds the `DeviceExtensions` value whose only member set is
/// `khr_swapchain`, from `DeviceExtensions::empty`. Trusted: the swapchain
/// extension is switched on in it and no other.
#[verifier::external_body]
fn swapchain_extension() -> (r: DeviceExtensions)
    ensures
        enabled_extensions(r) == set![swapchain_extension_name()],
{
    DeviceExtensions { khr_swapchain: true, ..DeviceExtensions::empty() }
}

/// The kind of a physical device, in order of preference.
#[derive(Clone, Copy, Debug, PartialEq, Eq, Structural)]
pub enum DeviceType {
    DiscreteGpu,
    IntegratedGpu,
    VirtualGpu,
    Cpu,
    Other,
}

impl DeviceType {
    /// The preference rank: lower is preferred.
    pub open spec fn spec_rank(self) -> nat {
        match self {
            DeviceType::DiscreteGpu => 0,
            DeviceType::IntegratedGpu => 1,
            DeviceType::VirtualGpu => 2,
            DeviceType::Cpu => 3,
            DeviceType::Other => 4,
        }
    }

    /// The preference rank: lower is preferred.
    pub fn rank(self) -> (r: u8)
        ensures
            r == self.spec_rank(),
    {
        match self {
            DeviceType::DiscreteGpu => 0,
            DeviceType::IntegratedGpu => 1,
            DeviceType::VirtualGpu => 2,
            DeviceType::Cpu => 3,
            DeviceType::Other => 4,
        }
    }
}

/// One queue family of a physical device.
#[derive(Clone, Copy, Debug)]
pub struct QueueFamily {
    /// What the family can do.
    pub queue_flags: QueueFlags,
    /// Whether the family can present to the surface.
    pub surface_support: bool,
}

impl QueueFamily {
    /// A family is suitable when it does graphics and can present.
    pub open spec fn suitable(self) -> bool {
        queue_flag_bits(self.queue_flags).contains(QUEUE_GRAPHICS_BIT) && self.surface_support
    }

    /// Whether the family does graphics and can present.
    pub fn is_suitable(&self) -> (r: bool)
        ensures
            r == self.suitable(),
    {
        let graphics = graphics_flag();
        queue_flags_contain(&self.queue_flags, &graphics) && self.surface_support
    }
}

/// What was queried of one physical device.
#[derive(Debug)]
pub struct PhysicalDeviceInfo {
    /// The device extensions that the device supports.
    pub supported_extensions: DeviceExtensions,
    /// The kind of device.
    pub device_type: DeviceType,
    /// The device's queue families, by index.
    pub queue_families: Vec<QueueFamily>,
}

/// `q` is the index of the first suitable family of `families`. A queue
/// family index is a `u32`, so families beyond that range cannot be named
/// and are not considered.
pub open spec fn is_first_suitable(families: Seq<QueueFamily>, q: int) -> bool {
    &&& 0 <= q < families.len()
    &&& q <= u32::MAX
    &&& families[q].suitable()
    &&& forall|j: int| 0 <= j < q ==> !(#[trigger] families[j]).suitable()
}

/// No family of `families` that a `u32` can name is suitable.
pub open spec fn no_suitable_family(families: Seq<QueueFamily>) -> bool {
    forall|j: int| 0 <= j < families.len() && j <= u32::MAX ==> !(#[trigger] families[j]).suitable()
}

impl PhysicalDeviceInfo {
    /// The device supports every required extension and has a suitable
    /// queue family.
    pub open spec fn qualifies(self, required: DeviceExtensions) -> bool {
        &&& enabled_extensions(required).subset_of(enabled_extensions(self.supported_extensions))
        &&& !no_suitable_family(self.queue_families@)
    }

    /// The device supports the swapchain extension and has a suitable
    /// queue family.
    pub open spec fn can_present(self) -> bool {
        &&& enabled_extensions(self.supported_extensions).contains(swapchain_extension_name())
        &&& !no_suitable_family(self.queue_families@)
    }
}

/// The index of the first queue family that does graphics and can present.
pub fn find_queue_family(families: &Vec<QueueFamily>) -> (r: Option<u32>)
    ensures
        match r {
            Some(q) => is_first_suitable(families@, q as int),
            None => no_suitable_family(families@),
        },
{
    let n: usize = families.len();
    let mut i: u32 = 0;
    while (i as usize) < n
        invariant
            n == families.len(),
            forall|j: int| 0 <= j < i ==> !(#[trigger] families@[j]).suitable(),
        decreases n - i,
    {
        if families[i as usize].is_suitable() {
            return Some(i);
        }
        if i == u32::MAX {
            return None;
        }
        i = i + 1;
    }
    None
}

/// `(i, q)` is the choice among `candidates`: candidate `i` qualifies, no
/// qualifying candidate has a lower rank, none before `i` has the same rank,
/// and `q` is its first suitable queue family.
pub open spec fn is_choice(
    candidates: Seq<PhysicalDeviceInfo>,
    required: DeviceExtensions,
    i: int,
    q: int,
) -> bool {
    &&& 0 <= i < candidates.len()
    &&& candidates[i].qualifies(required)
    &&& is_first_suitable(candidates[i].queue_families@, q)
    &&& forall|j: int|
        0 <= j < candidates.len() && (#[trigger] candidates[j]).qualifies(required)
            ==> candidates[i].device_type.spec_rank() <= candidates[j].device_type.spec_rank()
    &&& forall|j: int|
        0 <= j < i && (#[trigger] candidates[j]).qualifies(required)
            ==> candidates[i].device_type.spec_rank() < candidates[j].device_type.spec_rank()
}

/// Chooses the physical device to use: among the candidates that support
/// every extension in `required` and have a queue family that does graphics
/// and can present, the first one of the most preferred type. Returns the
/// candidate's index and the index of its first such queue family, or `None`
/// when no candidate qualifies.
pub fn choose_physical_device(
    candidates: &Vec<PhysicalDeviceInfo>,
    required: &DeviceExtensions,
) -> (r: Option<(usize, u32)>)
    ensures
        match r {
            Some((i, q)) => is_choice(candidates@, *required, i as int, q as int),
            None => forall|j: int|
                0 <= j < candidates.len() ==> !(#[trigger] candidates@[j]).qualifies(*required),
        },
{
    let n: usize = candidates.len();
    let mut best: Option<(usize, u32)> = None;
    let mut best_rank: u8 = 0;
    let mut k: usize = 0;
    while k < n
        invariant
            n == candidates.len(),
            k <= n,
            match best {
                Some((i, q)) => {
                    &&& is_choice(candidates@.take(k as int), *required, i as int, q as int)
                    &&& best_rank == candidates@[i as int].device_type.spec_rank()
                },
                None => forall|j: int|
                    0 <= j < k ==> !(#[trigger] candidates@[j]).qualifies(*required),
            },
        decreases n - k,
    {
        let candidate = &candidates[k];
        if extensions_contain(&candidate.supported_extensions, required) {
            match find_queue_family(&candidate.queue_families) {
                Some(q) => {
                    let rank: u8 = candidate.device_type.rank();
                    let better: bool = match best {
                        Some(_) => rank < best_rank,
                        None => true,
                    };
                    if better {
                        best = Some((k, q));
                        best_rank = rank;
                    }
                },
                None => {},
            }
        }
        k = k + 1;
    }
    proof {
        assert(candidates@.take(n as int) =~= candidates@);
    }
    best
}

/// What a logical device is created with.
#[derive(Clone, Copy, Debug)]
pub struct DeviceChoice {
    /// The extensions to enable: the swapchain extension.
    pub device_extensions: DeviceExtensions,
    /// The index of the chosen candidate.
    pub physical_device: usize,
    /// The queue family to create the one queue from.
    pub queue_family_index: u32,
}

/// Decides what the logical device is created with: the swapchain
/// extension is required and enabled, and device and queue family are the
/// choice among `candidates` under that requirement. `None` when no
/// candidate qualifies.
pub fn create_device(candidates: &Vec<PhysicalDeviceInfo>) -> (r: Option<DeviceChoice>)
    ensures
        match r {
            Some(choice) => {
                &&& enabled_extensions(choice.device_extensions) == set![swapchain_extension_name()]
                &&& is_choice(
                    candidates@,
                    choice.device_extensions,
                    choice.physical_device as int,
                    choice.queue_family_index as int,
                )
            },
            None => forall|j: int|
                0 <= j < candidates.len() ==> !(#[trigger] candidates@[j]).can_present(),
        },
{
    let device_extensions = swapchain_extension();
    match choose_physical_device(candidates, &device_extensions) {
        Some((physical_device, queue_family_index)) => Some(
            DeviceChoice { device_extensions, physical_device, queue_family_index },
        ),
        None => None,
    }
}

/// The device that `create_device` settles on supports the swapchain
/// extension.
pub proof fn lemma_created_device_has_swapchain(
    candidates: Seq<PhysicalDeviceInfo>,
    choice: DeviceChoice,
)
    requires
        enabled_extensions(choice.device_extensions) == set![swapchain_extension_name()],
        is_choice(
            candidates,
            choice.device_extensions,
            choice.physical_device as int,
            choice.queue_family_index as int,
        ),
    ensures
        enabled_extensions(
            candidates[choice.physical_device as int].supported_extensions,
        ).contains(swapchain_extension_name()),
{
}

/// The chosen device supports every required extension, and the chosen
/// queue family has the graphics flag and can present to the surface.
pub proof fn lemma_choice_is_capable(
    candidates: Seq<PhysicalDeviceInfo>,
    required: DeviceExtensions,
    i: int,
    q: int,
)
    requires
        is_choice(candidates, required, i, q),
    ensures
        0 <= i < candidates.len(),
        enabled_extensions(required).subset_of(
            enabled_extensions(candidates[i].supported_extensions),
        ),
        0 <= q < candidates[i].queue_families@.len(),
        queue_flag_bits(candidates[i].queue_families@[q].queue_flags).contains(QUEUE_GRAPHICS_BIT),
        candidates[i].queue_families@[q].surface_support,
{
}

/// A discrete GPU that qualifies is never passed over for a device of
/// another type: when one is among the candidates, the chosen device is a
/// discrete GPU.
pub proof fn lemma_discrete_gpu_preferred(
    candidates: Seq<PhysicalDeviceInfo>,
    required: DeviceExtensions,
    i: int,
    q: int,
    d: int,
)
    requires
        is_choice(candidates, required, i, q),
        0 <= d < candidates.len(),
        candidates[d].qualifies(required),
        candidates[d].device_type == DeviceType::DiscreteGpu,
    ensures
        candidates[i].device_type == DeviceType::DiscreteGpu,
{
}

/// The choice is determined by the candidates: two choices among the same
/// candidates are the same device and the same queue family.
pub proof fn lemma_choice_unique(
    candidates: Seq<PhysicalDeviceInfo>,
    required: DeviceExtensions,
    i1: int,
    q1: int,
    i2: int,
    q2: int,
)
    requires
        is_choice(candidates, required, i1, q1),
        is_choice(candidates, required, i2, q2),
    ensures
        i1 == i2,
        q1 == q2,
{
}

} // verus!
