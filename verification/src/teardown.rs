//! Teardown sequencing: every exit path — normal close, device loss, or a
//! construction that failed mid-way — destroys exactly the resources that
//! were created, in strict reverse creation order, and waits for the device
//! to go idle before the first destructive call on a device-owned resource.

use vstd::prelude::*;

verus! {

/// One step of a teardown sequence.
#[derive(Clone, Copy, PartialEq, Eq, Structural, Debug)]
pub enum TeardownStep {
    /// Block until the device has finished all outstanding work.
    WaitDeviceIdle,
    /// Destroy the per-slot semaphores and fences.
    DestroySyncPrimitives,
    /// Destroy the command pool (frees its command buffers).
    DestroyCommandPool,
    /// Destroy the framebuffers.
    DestroyFramebuffers,
    /// Destroy the graphics pipeline.
    DestroyPipeline,
    /// Destroy the pipeline layout.
    DestroyPipelineLayout,
    /// Destroy the render pass.
    DestroyRenderPass,
    /// Destroy the swapchain image views.
    DestroyImageViews,
    /// Destroy the swapchain.
    DestroySwapchain,
    /// Destroy the logical device.
    DestroyDevice,
    /// Destroy the surface.
    DestroySurface,
    /// Destroy the diagnostic messenger.
    DestroyDebugMessenger,
    /// Destroy the instance.
    DestroyInstance,
}

/// Which resources construction has created so far. Construction proceeds
/// top-down, so a partially constructed state sets a prefix of the
/// hierarchy; ownership is strictly hierarchical.
#[derive(Clone, Copy, PartialEq, Eq, Structural, Debug)]
pub struct CreationProgress {
    /// The instance exists.
    pub instance: bool,
    /// The diagnostic messenger exists.
    pub debug_messenger: bool,
    /// The surface exists.
    pub surface: bool,
    /// The logical device exists.
    pub device: bool,
    /// The swapchain exists.
    pub swapchain: bool,
    /// The swapchain image views exist.
    pub image_views: bool,
    /// The render pass exists.
    pub render_pass: bool,
    /// The pipeline layout exists.
    pub pipeline_layout: bool,
    /// The graphics pipeline exists.
    pub pipeline: bool,
    /// The framebuffers exist.
    pub framebuffers: bool,
    /// The command pool exists.
    pub command_pool: bool,
    /// The per-slot semaphores and fences exist.
    pub sync_primitives: bool,
}

impl CreationProgress {
    /// The hierarchy of ownership: nothing exists without what created it.
    pub open spec fn wf(self) -> bool {
        &&& self.debug_messenger ==> self.instance
        &&& self.surface ==> self.instance
        &&& self.device ==> self.instance
        &&& self.swapchain ==> self.device && self.surface
        &&& self.image_views ==> self.swapchain
        &&& self.render_pass ==> self.device
        &&& self.pipeline_layout ==> self.device
        &&& self.pipeline ==> self.pipeline_layout && self.render_pass
        &&& self.framebuffers ==> self.image_views && self.render_pass
        &&& self.command_pool ==> self.device
        &&& self.sync_primitives ==> self.device
    }

    /// A fully constructed device: everything exists.
    pub open spec fn complete(self) -> bool {
        &&& self.instance
        &&& self.debug_messenger
        &&& self.surface
        &&& self.device
        &&& self.swapchain
        &&& self.image_views
        &&& self.render_pass
        &&& self.pipeline_layout
        &&& self.pipeline
        &&& self.framebuffers
        &&& self.command_pool
        &&& self.sync_primitives
    }
}

impl Default for CreationProgress {
    /// The state before construction begins: nothing exists.
    fn default() -> (p: CreationProgress)
        ensures
            p == (CreationProgress {
                instance: false,
                debug_messenger: false,
                surface: false,
                device: false,
                swapchain: false,
                image_views: false,
                render_pass: false,
                pipeline_layout: false,
                pipeline: false,
                framebuffers: false,
                command_pool: false,
                sync_primitives: false,
            }),
            p.wf(),
    {
        CreationProgress {
            instance: false,
            debug_messenger: false,
            surface: false,
            device: false,
            swapchain: false,
            image_views: false,
            render_pass: false,
            pipeline_layout: false,
            pipeline: false,
            framebuffers: false,
            command_pool: false,
            sync_primitives: false,
        }
    }
}

/// Whether a step destroys a resource owned by the logical device — one
/// that in-flight GPU work could still reference.
pub open spec fn destroys_device_resource(s: TeardownStep) -> bool {
    match s {
        TeardownStep::DestroySyncPrimitives => true,
        TeardownStep::DestroyCommandPool => true,
        TeardownStep::DestroyFramebuffers => true,
        TeardownStep::DestroyPipeline => true,
        TeardownStep::DestroyPipelineLayout => true,
        TeardownStep::DestroyRenderPass => true,
        TeardownStep::DestroyImageViews => true,
        TeardownStep::DestroySwapchain => true,
        TeardownStep::DestroyDevice => true,
        _ => false,
    }
}

/// A singleton of `step` when `created`, else nothing.
pub open spec fn piece(created: bool, step: TeardownStep) -> Seq<TeardownStep> {
    if created {
        seq![step]
    } else {
        Seq::empty()
    }
}

/// The teardown sequence for a creation state: a device-idle wait whenever a
/// device exists, then each created resource destroyed in strict reverse
/// creation order.
pub open spec fn spec_teardown_order(p: CreationProgress) -> Seq<TeardownStep> {
    Seq::<TeardownStep>::empty() + piece(p.device, TeardownStep::WaitDeviceIdle) + piece(
        p.sync_primitives,
        TeardownStep::DestroySyncPrimitives,
    ) + piece(p.command_pool, TeardownStep::DestroyCommandPool) + piece(
        p.framebuffers,
        TeardownStep::DestroyFramebuffers,
    ) + piece(p.pipeline, TeardownStep::DestroyPipeline) + piece(
        p.pipeline_layout,
        TeardownStep::DestroyPipelineLayout,
    ) + piece(p.render_pass, TeardownStep::DestroyRenderPass) + piece(
        p.image_views,
        TeardownStep::DestroyImageViews,
    ) + piece(p.swapchain, TeardownStep::DestroySwapchain) + piece(
        p.device,
        TeardownStep::DestroyDevice,
    ) + piece(p.surface, TeardownStep::DestroySurface) + piece(
        p.debug_messenger,
        TeardownStep::DestroyDebugMessenger,
    ) + piece(p.instance, TeardownStep::DestroyInstance)
}

/// The teardown sequence for a creation state, in the order the steps must
/// run. Each destruction is best-effort for the caller: a failing step must
/// not stop the ones after it.
/// Appends `step` to the sequence exactly when `created` holds.
fn push_piece(v: &mut Vec<TeardownStep>, created: bool, step: TeardownStep)
    ensures
        final(v)@ == old(v)@ + piece(created, step),
{
    if created {
        v.push(step);
    }
    proof {
        assert(v@ =~= old(v)@ + piece(created, step));
    }
}

pub fn teardown_plan(p: &CreationProgress) -> (r: Vec<TeardownStep>)
    ensures
        r@ == spec_teardown_order(*p),
{
    let mut v: Vec<TeardownStep> = Vec::new();
    proof {
        assert(v@ =~= Seq::<TeardownStep>::empty());
    }
    push_piece(&mut v, p.device, TeardownStep::WaitDeviceIdle);
    push_piece(&mut v, p.sync_primitives, TeardownStep::DestroySyncPrimitives);
    push_piece(&mut v, p.command_pool, TeardownStep::DestroyCommandPool);
    push_piece(&mut v, p.framebuffers, TeardownStep::DestroyFramebuffers);
    push_piece(&mut v, p.pipeline, TeardownStep::DestroyPipeline);
    push_piece(&mut v, p.pipeline_layout, TeardownStep::DestroyPipelineLayout);
    push_piece(&mut v, p.render_pass, TeardownStep::DestroyRenderPass);
    push_piece(&mut v, p.image_views, TeardownStep::DestroyImageViews);
    push_piece(&mut v, p.swapchain, TeardownStep::DestroySwapchain);
    push_piece(&mut v, p.device, TeardownStep::DestroyDevice);
    push_piece(&mut v, p.surface, TeardownStep::DestroySurface);
    push_piece(&mut v, p.debug_messenger, TeardownStep::DestroyDebugMessenger);
    push_piece(&mut v, p.instance, TeardownStep::DestroyInstance);
    v
}

/// On every exit path, any step that destroys a device-owned resource is
/// preceded by the device-idle wait, which stands first in the sequence and
/// nowhere else. (A path that never created a device has nothing to wait
/// on and no device-owned resource to destroy.)
#[verifier::rlimit(100)]
pub proof fn lemma_idle_wait_precedes_destruction(p: CreationProgress)
    requires
        p.wf(),
    ensures
        p.device ==> spec_teardown_order(p)[0] == TeardownStep::WaitDeviceIdle,
        forall|i: int|
            0 < i < spec_teardown_order(p).len() ==> spec_teardown_order(p)[i]
                != TeardownStep::WaitDeviceIdle,
        forall|i: int|
            0 <= i < spec_teardown_order(p).len() && destroys_device_resource(
                #[trigger] spec_teardown_order(p)[i],
            ) ==> 0 < i && spec_teardown_order(p)[0] == TeardownStep::WaitDeviceIdle,
{
    let t = spec_teardown_order(p);
    if !p.device {
        assert(t =~= piece(p.surface, TeardownStep::DestroySurface) + piece(
            p.debug_messenger,
            TeardownStep::DestroyDebugMessenger,
        ) + piece(p.instance, TeardownStep::DestroyInstance));
        assert forall|i: int| 0 <= i < t.len() implies !destroys_device_resource(t[i])
            && t[i] != TeardownStep::WaitDeviceIdle by {}
    } else {
        assert(t[0] == TeardownStep::WaitDeviceIdle);
        assert forall|i: int| 0 < i < t.len() implies t[i] != TeardownStep::WaitDeviceIdle by {}
    }
}

} // verus!
