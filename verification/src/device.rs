//! Physical-adapter selection: queue-family resolution and suitability
//! checks, over the properties the host API reports for each adapter.

use vstd::prelude::*;

verus! {

/// Host-API code for a discrete adapter.
pub const DEVICE_TYPE_DISCRETE_GPU: u32 = 2;

/// What one queue family supports, as reported for the target surface.
#[derive(Clone, Copy, Debug, PartialEq, Eq, Structural)]
pub struct QueueFamilyInfo {
    /// The family accepts graphics work.
    pub graphics: bool,
    /// The family can present to the target surface.
    pub present: bool,
}

/// The chosen queue families: one for graphics work, one for presentation.
/// The two may coincide.
#[derive(Clone, Copy, Debug, PartialEq, Eq, Structural)]
pub struct QueueFamilyIndices {
    pub graphics: u32,
    pub present: u32,
}

/// The facts about one physical adapter that the suitability check reads.
#[derive(Clone, Debug)]
pub struct DeviceInfo {
    pub device_type: u32,
    /// The adapter offers geometry shaders.
    pub geometry_shader: bool,
    /// The adapter offers the swapchain presentation extension.
    pub supports_swapchain_ext: bool,
    pub queue_families: Vec<QueueFamilyInfo>,
}

/// An adapter was rejected; the text names the missing capability.
#[derive(Clone, Copy, Debug)]
pub struct SuitabilityError(pub &'static str);

/// There is a queue family accepting graphics work.
pub open spec fn has_graphics_family(qf: Seq<QueueFamilyInfo>) -> bool {
    exists|i: int| 0 <= i < qf.len() && qf[i].graphics
}

/// There is a queue family that can present to the surface.
pub open spec fn has_present_family(qf: Seq<QueueFamilyInfo>) -> bool {
    exists|i: int| 0 <= i < qf.len() && qf[i].present
}

/// The first index of a graphics-capable family.
pub open spec fn first_graphics_family(qf: Seq<QueueFamilyInfo>) -> int {
    choose|i: int| 0 <= i < qf.len() && qf[i].graphics && forall|j: int|
        0 <= j < i ==> !qf[j].graphics
}

/// The resolution rule for queue families: the first graphics-capable index
/// and the first present-capable index.
pub open spec fn queue_indices_correct(qf: Seq<QueueFamilyInfo>, r: QueueFamilyIndices) -> bool {
    &&& 0 <= (r.graphics as int) < qf.len()
    &&& qf[r.graphics as int].graphics
    &&& forall|j: int| 0 <= j < r.graphics ==> !qf[j].graphics
    &&& 0 <= (r.present as int) < qf.len()
    &&& qf[r.present as int].present
    &&& forall|j: int| 0 <= j < r.present ==> !qf[j].present
}

/// Resolves the queue families for an adapter: the first family that accepts
/// graphics work and the first that can present to the surface.  Fails with
/// the missing capability when either does not exist.
pub fn get_queue_family_indices(queue_families: &Vec<QueueFamilyInfo>) -> (r: Result<
    QueueFamilyIndices,
    SuitabilityError,
>)
    requires
        queue_families@.len() <= u32::MAX,
    ensures
        match r {
            Ok(indices) => queue_indices_correct(queue_families@, indices),
            Err(e) => {
                &&& !(has_graphics_family(queue_families@) && has_present_family(
                    queue_families@,
                ))
                &&& e.0@ == "Missing required queue families."@
            },
        },
        r is Ok <==> has_graphics_family(queue_families@) && has_present_family(queue_families@),
{
    let n = queue_families.len();
    let mut graphics: Option<u32> = None;
    let mut present: Option<u32> = None;
    let mut i: usize = 0;
    while i < n
        invariant
            n == queue_families@.len() <= u32::MAX,
            i <= n,
            match graphics {
                Some(g) => {
                    &&& 0 <= (g as int) < i
                    &&& queue_families@[g as int].graphics
                    &&& forall|j: int| 0 <= j < g ==> !queue_families@[j].graphics
                },
                None => forall|j: int| 0 <= j < i ==> !queue_families@[j].graphics,
            },
            match present {
                Some(p) => {
                    &&& 0 <= (p as int) < i
                    &&& queue_families@[p as int].present
                    &&& forall|j: int| 0 <= j < p ==> !queue_families@[j].present
                },
                None => forall|j: int| 0 <= j < i ==> !queue_families@[j].present,
            },
        decreases n - i,
    {
        let fam = queue_families[i];
        if fam.graphics && graphics.is_none() {
            graphics = Some(i as u32);
        }
        if fam.present && present.is_none() {
            present = Some(i as u32);
        }
        i = i + 1;
    }
    match (graphics, present) {
        (Some(g), Some(p)) => Ok(QueueFamilyIndices { graphics: g, present: p }),
        _ => Err(SuitabilityError("Missing required queue families.")),
    }
}

/// The queue families a logical device is created with: the graphics
/// family, and the present family only when it differs.
pub fn unique_queue_indices(indices: QueueFamilyIndices) -> (r: Vec<u32>)
    ensures
        indices.graphics == indices.present ==> r@ == seq![indices.graphics],
        indices.graphics != indices.present ==> r@ == seq![indices.graphics, indices.present],
        r@.contains(indices.graphics),
        r@.contains(indices.present),
        forall|i: int, j: int| 0 <= i < j < r@.len() ==> r@[i] != r@[j],
{
    let mut r: Vec<u32> = Vec::new();
    r.push(indices.graphics);
    if indices.present != indices.graphics {
        r.push(indices.present);
    }
    proof {
        if indices.graphics == indices.present {
            assert(r@ =~= seq![indices.graphics]);
        } else {
            assert(r@ =~= seq![indices.graphics, indices.present]);
        }
        assert(r@[0] == indices.graphics);
    }
    r
}

/// An adapter qualifies when it is discrete, offers geometry shaders and the
/// swapchain extension, and has graphics and present queue families.
pub open spec fn device_suitable(info: DeviceInfo) -> bool {
    &&& info.device_type == DEVICE_TYPE_DISCRETE_GPU
    &&& info.geometry_shader
    &&& info.supports_swapchain_ext
    &&& has_graphics_family(info.queue_families@)
    &&& has_present_family(info.queue_families@)
}

/// Checks one adapter against the application's hard requirements, in order:
/// a discrete adapter, geometry-shader support, the swapchain extension,
/// then the required queue families.  The error names the first missing
/// capability.
pub fn check_physical_device(info: &DeviceInfo) -> (r: Result<
    QueueFamilyIndices,
    SuitabilityError,
>)
    requires
        info.queue_families@.len() <= u32::MAX,
    ensures
        r is Ok <==> device_suitable(*info),
        match r {
            Ok(indices) => queue_indices_correct(info.queue_families@, indices),
            Err(e) => {
                if info.device_type != DEVICE_TYPE_DISCRETE_GPU {
                    e.0@ == "Only discrete GPUs are supported."@
                } else if !info.geometry_shader {
                    e.0@ == "Missing geometry shader support."@
                } else if !info.supports_swapchain_ext {
                    e.0@ == "Missing swapchain extension support."@
                } else {
                    e.0@ == "Missing required queue families."@
                }
            },
        },
{
    if info.device_type != DEVICE_TYPE_DISCRETE_GPU {
        return Err(SuitabilityError("Only discrete GPUs are supported."));
    }
    if !info.geometry_shader {
        return Err(SuitabilityError("Missing geometry shader support."));
    }
    if !info.supports_swapchain_ext {
        return Err(SuitabilityError("Missing swapchain extension support."));
    }
    get_queue_family_indices(&info.queue_families)
}

/// Picks the first qualifying adapter, in enumeration order, and its queue
/// families; fails only when no adapter qualifies.
pub fn pick_physical_device(devices: &Vec<DeviceInfo>) -> (r: Result<
    (usize, QueueFamilyIndices),
    SuitabilityError,
>)
    requires
        forall|i: int|
            0 <= i < devices@.len() ==> #[trigger] devices@[i].queue_families@.len() <= u32::MAX,
    ensures
        match r {
            Ok((i, indices)) => {
                &&& 0 <= (i as int) < devices@.len()
                &&& device_suitable(devices@[i as int])
                &&& forall|j: int| 0 <= j < i ==> !device_suitable(devices@[j])
                &&& queue_indices_correct(devices@[i as int].queue_families@, indices)
            },
            Err(e) => {
                &&& forall|j: int| 0 <= j < devices@.len() ==> !device_suitable(devices@[j])
                &&& e.0@ == "Failed to find suitable physical device."@
            },
        },
{
    let n = devices.len();
    let mut i: usize = 0;
    while i < n
        invariant
            n == devices@.len(),
            i <= n,
            forall|i2: int|
                0 <= i2 < devices@.len() ==> #[trigger] devices@[i2].queue_families@.len()
                    <= u32::MAX,
            forall|j: int| 0 <= j < i ==> !device_suitable(devices@[j]),
        decreases n - i,
    {
        match check_physical_device(&devices[i]) {
            Ok(indices) => {
                return Ok((i, indices));
            },
            Err(_) => {},
        }
        i = i + 1;
    }
    Err(SuitabilityError("Failed to find suitable physical device."))
}

} // verus!
