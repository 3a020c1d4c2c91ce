//! Resource lifecycle ordering: the creation order of the swapchain's
//! dependent resources, the teardown order as its exact reverse, the
//! rebuild plan run on a stale swapchain, and the shutdown plan.
//!
//! Destruction runs strictly leaf first, and every destructive plan begins
//! by waiting for the device to go idle: no queued device work may still
//! reference a resource about to be destroyed.

use vstd::prelude::*;

verus! {

/// A swapchain-dependent resource group, in the granularity the engine
/// creates and destroys them.
#[derive(Clone, Copy, Debug, PartialEq, Eq, Structural)]
pub enum GpuResource {
    Swapchain,
    SwapchainImageViews,
    RenderPass,
    PipelineLayout,
    Pipeline,
    ColorTargets,
    DepthTargets,
    Framebuffers,
    UniformBuffers,
    DescriptorPool,
    DescriptorSets,
    CommandBuffers,
}

/// The order the swapchain's dependent resources are created in: each
/// entry may depend only on entries before it.
pub open spec fn spec_creation_order() -> Seq<GpuResource> {
    seq![
        GpuResource::Swapchain,
        GpuResource::SwapchainImageViews,
        GpuResource::RenderPass,
        GpuResource::PipelineLayout,
        GpuResource::Pipeline,
        GpuResource::ColorTargets,
        GpuResource::DepthTargets,
        GpuResource::Framebuffers,
        GpuResource::UniformBuffers,
        GpuResource::DescriptorPool,
        GpuResource::DescriptorSets,
        GpuResource::CommandBuffers,
    ]
}

/// The creation order as an executable list.
pub fn swapchain_creation_order() -> (r: Vec<GpuResource>)
    ensures
        r@ == spec_creation_order(),
{
    let mut r: Vec<GpuResource> = Vec::new();
    r.push(GpuResource::Swapchain);
    r.push(GpuResource::SwapchainImageViews);
    r.push(GpuResource::RenderPass);
    r.push(GpuResource::PipelineLayout);
    r.push(GpuResource::Pipeline);
    r.push(GpuResource::ColorTargets);
    r.push(GpuResource::DepthTargets);
    r.push(GpuResource::Framebuffers);
    r.push(GpuResource::UniformBuffers);
    r.push(GpuResource::DescriptorPool);
    r.push(GpuResource::DescriptorSets);
    r.push(GpuResource::CommandBuffers);
    proof {
        assert(r@ =~= spec_creation_order());
    }
    r
}

/// The teardown order: the exact reverse of the creation order, so every
/// resource is destroyed before anything it depends on.
pub fn swapchain_teardown_order() -> (r: Vec<GpuResource>)
    ensures
        r@ == spec_creation_order().reverse(),
{
    let mut r: Vec<GpuResource> = Vec::new();
    r.push(GpuResource::CommandBuffers);
    r.push(GpuResource::DescriptorSets);
    r.push(GpuResource::DescriptorPool);
    r.push(GpuResource::UniformBuffers);
    r.push(GpuResource::Framebuffers);
    r.push(GpuResource::DepthTargets);
    r.push(GpuResource::ColorTargets);
    r.push(GpuResource::Pipeline);
    r.push(GpuResource::PipelineLayout);
    r.push(GpuResource::RenderPass);
    r.push(GpuResource::SwapchainImageViews);
    r.push(GpuResource::Swapchain);
    proof {
        assert(r@ =~= spec_creation_order().reverse());
    }
    r
}

/// One step of the swapchain rebuild protocol.
#[derive(Clone, Copy, Debug, PartialEq, Eq, Structural)]
pub enum RecreateStep {
    /// Block until no device work is in flight.
    WaitIdle,
    Destroy(GpuResource),
    Create(GpuResource),
    /// Resize and clear the per-image fence tracking: no fence of the old
    /// swapchain may ever be consulted again.
    ResetImageTracking,
}

/// The rebuild plan: an idle wait, the teardown in reverse-creation order,
/// the rebuild in creation order, then the fence-tracking reset.
pub open spec fn spec_recreate_plan() -> Seq<RecreateStep> {
    seq![RecreateStep::WaitIdle] + Seq::new(
        spec_creation_order().len(),
        |i: int| RecreateStep::Destroy(spec_creation_order().reverse()[i]),
    ) + Seq::new(
        spec_creation_order().len(),
        |i: int| RecreateStep::Create(spec_creation_order()[i]),
    ) + seq![RecreateStep::ResetImageTracking]
}

/// The rebuild plan as an executable list.  The idle wait comes first,
/// every destroy precedes every create, and the fence tracking is reset
/// last.
pub fn swapchain_recreate_plan() -> (r: Vec<RecreateStep>)
    ensures
        r@ == spec_recreate_plan(),
        r@[0] == RecreateStep::WaitIdle,
        forall|i: int, j: int|
            0 <= i < r@.len() && 0 <= j < r@.len() && r@[i] is Destroy && r@[j] is Create ==> i
                < j,
        r@.last() == RecreateStep::ResetImageTracking,
{
    let mut r: Vec<RecreateStep> = Vec::new();
    r.push(RecreateStep::WaitIdle);
    let teardown = swapchain_teardown_order();
    let n = teardown.len();
    let mut i: usize = 0;
    while i < n
        invariant
            n == teardown@.len(),
            teardown@ == spec_creation_order().reverse(),
            i <= n,
            r@.len() == 1 + i,
            r@[0] == RecreateStep::WaitIdle,
            forall|k: int| 0 <= k < i ==> r@[1 + k] == RecreateStep::Destroy(teardown@[k]),
        decreases n - i,
    {
        let step = teardown[i];
        r.push(RecreateStep::Destroy(step));
        i = i + 1;
    }
    let creation = swapchain_creation_order();
    let m = creation.len();
    let mut j: usize = 0;
    while j < m
        invariant
            n == spec_creation_order().len(),
            m == creation@.len(),
            creation@ == spec_creation_order(),
            j <= m,
            r@.len() == 1 + n + j,
            r@[0] == RecreateStep::WaitIdle,
            forall|k: int|
                0 <= k < n ==> r@[1 + k] == RecreateStep::Destroy(
                    spec_creation_order().reverse()[k],
                ),
            forall|k: int| 0 <= k < j ==> r@[1 + n + k] == RecreateStep::Create(creation@[k]),
        decreases m - j,
    {
        let step = creation[j];
        r.push(RecreateStep::Create(step));
        j = j + 1;
    }
    r.push(RecreateStep::ResetImageTracking);
    proof {
        assert(r@ =~= spec_recreate_plan());
    }
    r
}

/// One step of application shutdown.
#[derive(Clone, Copy, Debug, PartialEq, Eq, Structural)]
pub enum ShutdownStep {
    /// Block until no device work is in flight.
    WaitIdle,
    /// The swapchain and its dependents, in reverse-creation order.
    DestroySwapchainResources,
    DestroyPerImageCommandPools,
    /// Every stored texture's sampler, view, image and memory.
    DestroyTextures,
    DestroyDescriptorSetLayout,
    /// Every stored mesh's vertex, index and instance buffers and memory.
    DestroyMeshBuffers,
    DestroyFences,
    DestroySemaphores,
    DestroyCommandPool,
    DestroyDevice,
    DestroySurface,
    DestroyDebugMessenger,
    DestroyInstance,
}

/// The shutdown order: idle wait first, then leaf resources before the
/// device, the device before the surface, and the instance last.  The
/// debug messenger exists only when validation is enabled.
pub open spec fn spec_shutdown_plan(validation_enabled: bool) -> Seq<ShutdownStep> {
    seq![
        ShutdownStep::WaitIdle,
        ShutdownStep::DestroySwapchainResources,
        ShutdownStep::DestroyPerImageCommandPools,
        ShutdownStep::DestroyTextures,
        ShutdownStep::DestroyDescriptorSetLayout,
        ShutdownStep::DestroyMeshBuffers,
        ShutdownStep::DestroyFences,
        ShutdownStep::DestroySemaphores,
        ShutdownStep::DestroyCommandPool,
        ShutdownStep::DestroyDevice,
        ShutdownStep::DestroySurface,
    ] + if validation_enabled {
        seq![ShutdownStep::DestroyDebugMessenger, ShutdownStep::DestroyInstance]
    } else {
        seq![ShutdownStep::DestroyInstance]
    }
}

/// The shutdown plan as an executable list.
pub fn shutdown_plan(validation_enabled: bool) -> (r: Vec<ShutdownStep>)
    ensures
        r@ == spec_shutdown_plan(validation_enabled),
        r@[0] == ShutdownStep::WaitIdle,
        r@.last() == ShutdownStep::DestroyInstance,
{
    let mut r: Vec<ShutdownStep> = Vec::new();
    r.push(ShutdownStep::WaitIdle);
    r.push(ShutdownStep::DestroySwapchainResources);
    r.push(ShutdownStep::DestroyPerImageCommandPools);
    r.push(ShutdownStep::DestroyTextures);
    r.push(ShutdownStep::DestroyDescriptorSetLayout);
    r.push(ShutdownStep::DestroyMeshBuffers);
    r.push(ShutdownStep::DestroyFences);
    r.push(ShutdownStep::DestroySemaphores);
    r.push(ShutdownStep::DestroyCommandPool);
    r.push(ShutdownStep::DestroyDevice);
    r.push(ShutdownStep::DestroySurface);
    if validation_enabled {
        r.push(ShutdownStep::DestroyDebugMessenger);
    }
    r.push(ShutdownStep::DestroyInstance);
    proof {
        assert(r@ =~= spec_shutdown_plan(validation_enabled));
    }
    r
}

} // verus!
