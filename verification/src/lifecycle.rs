//! The order in which the renderer's device objects are built and destroyed.
//!
//! An object may be built only once everything it depends on exists, and
//! must be destroyed before anything it depends on. The objects that depend
//! on the swapchain are built last but for the synchronization objects, so
//! that a rebuild of the swapchain is one unbroken run of the shutdown order
//! followed by the same run of the startup order.

use vstd::prelude::*;

verus! {

/// A device object, or a group of objects that are built and destroyed
/// together.
#[derive(Clone, Copy, Debug, PartialEq, Eq)]
pub enum Resource {
    /// The API instance.
    Instance,
    /// The validation messenger.
    DebugMessenger,
    /// The presentation surface of the window.
    Surface,
    /// The logical device and its queues.
    Device,
    /// The command pools.
    CommandPool,
    /// The layout of the descriptor sets.
    DescriptorSetLayout,
    /// The texture: image, memory, view and sampler.
    Texture,
    /// The vertex buffer and its memory.
    VertexBuffer,
    /// The index buffer and its memory.
    IndexBuffer,
    /// The swapchain and its images.
    Swapchain,
    /// One view per swapchain image.
    ImageViews,
    /// The render pass.
    RenderPass,
    /// The graphics pipeline and its layout.
    Pipeline,
    /// The color and depth attachments that are rendered to.
    RenderTargets,
    /// One framebuffer per swapchain image.
    Framebuffers,
    /// One uniform buffer per swapchain image.
    UniformBuffers,
    /// The descriptor pool, sized to the number of swapchain images.
    DescriptorPool,
    /// One descriptor set per swapchain image.
    DescriptorSets,
    /// One recorded command buffer per swapchain image.
    CommandBuffers,
    /// The frame slots' signals and fences.
    SyncObjects,
}

/// One step of a rebuild.
#[derive(Clone, Copy, Debug, PartialEq, Eq)]
pub enum Step {
    Destroy(Resource),
    Create(Resource),
}

/// The number of resources.
pub const RESOURCE_COUNT: usize = 20;

/// The position of the swapchain in the startup order.
pub const FIRST_REBUILT: usize = 9;

/// The number of resources that are rebuilt with the swapchain, the
/// swapchain included.
pub const REBUILT_COUNT: usize = 10;

/// `a` cannot be built unless `b` exists, and `b` cannot be destroyed while
/// `a` exists.
pub open spec fn depends_on(a: Resource, b: Resource) -> bool {
    match a {
        Resource::Instance => false,
        Resource::DebugMessenger => b == Resource::Instance,
        Resource::Surface => b == Resource::Instance,
        Resource::Device => b == Resource::Instance || b == Resource::Surface,
        Resource::CommandPool => b == Resource::Device,
        Resource::DescriptorSetLayout => b == Resource::Device,
        Resource::Texture => b == Resource::Device || b == Resource::CommandPool,
        Resource::VertexBuffer => b == Resource::Device || b == Resource::CommandPool,
        Resource::IndexBuffer => b == Resource::Device || b == Resource::CommandPool,
        Resource::Swapchain => b == Resource::Device || b == Resource::Surface,
        Resource::ImageViews => b == Resource::Swapchain,
        Resource::RenderPass => b == Resource::Swapchain,
        Resource::Pipeline => b == Resource::RenderPass || b == Resource::DescriptorSetLayout
            || b == Resource::Swapchain,
        Resource::RenderTargets => b == Resource::Swapchain,
        Resource::Framebuffers => b == Resource::ImageViews || b == Resource::RenderPass || b
            == Resource::RenderTargets,
        Resource::UniformBuffers => b == Resource::Swapchain,
        Resource::DescriptorPool => b == Resource::Swapchain,
        Resource::DescriptorSets => b == Resource::DescriptorPool || b
            == Resource::DescriptorSetLayout || b == Resource::UniformBuffers || b
            == Resource::Texture,
        Resource::CommandBuffers => b == Resource::CommandPool || b == Resource::Framebuffers
            || b == Resource::Pipeline || b == Resource::DescriptorSets || b
            == Resource::VertexBuffer || b == Resource::IndexBuffer,
        Resource::SyncObjects => b == Resource::Device,
    }
}

/// The position of a resource in the startup order.
pub open spec fn rank(r: Resource) -> int {
    match r {
        Resource::Instance => 0,
        Resource::DebugMessenger => 1,
        Resource::Surface => 2,
        Resource::Device => 3,
        Resource::CommandPool => 4,
        Resource::DescriptorSetLayout => 5,
        Resource::Texture => 6,
        Resource::VertexBuffer => 7,
        Resource::IndexBuffer => 8,
        Resource::Swapchain => 9,
        Resource::ImageViews => 10,
        Resource::RenderPass => 11,
        Resource::Pipeline => 12,
        Resource::RenderTargets => 13,
        Resource::Framebuffers => 14,
        Resource::UniformBuffers => 15,
        Resource::DescriptorPool => 16,
        Resource::DescriptorSets => 17,
        Resource::CommandBuffers => 18,
        Resource::SyncObjects => 19,
    }
}

/// The resource at a position of the startup order.
pub open spec fn resource_at(position: int) -> Resource {
    if position == 0 {
        Resource::Instance
    } else if position == 1 {
        Resource::DebugMessenger
    } else if position == 2 {
        Resource::Surface
    } else if position == 3 {
        Resource::Device
    } else if position == 4 {
        Resource::CommandPool
    } else if position == 5 {
        Resource::DescriptorSetLayout
    } else if position == 6 {
        Resource::Texture
    } else if position == 7 {
        Resource::VertexBuffer
    } else if position == 8 {
        Resource::IndexBuffer
    } else if position == 9 {
        Resource::Swapchain
    } else if position == 10 {
        Resource::ImageViews
    } else if position == 11 {
        Resource::RenderPass
    } else if position == 12 {
        Resource::Pipeline
    } else if position == 13 {
        Resource::RenderTargets
    } else if position == 14 {
        Resource::Framebuffers
    } else if position == 15 {
        Resource::UniformBuffers
    } else if position == 16 {
        Resource::DescriptorPool
    } else if position == 17 {
        Resource::DescriptorSets
    } else if position == 18 {
        Resource::CommandBuffers
    } else {
        Resource::SyncObjects
    }
}

/// The resource is the swapchain or must be rebuilt when the swapchain is.
pub open spec fn swapchain_dependent(r: Resource) -> bool {
    FIRST_REBUILT <= rank(r) < FIRST_REBUILT + REBUILT_COUNT
}

/// Everything, in the order in which it is built at startup.
pub open spec fn startup_sequence() -> Seq<Resource> {
    Seq::new(RESOURCE_COUNT as nat, |i: int| resource_at(i))
}

/// Everything, in the order in which it is destroyed at shutdown: the
/// startup order backwards.
pub open spec fn shutdown_sequence() -> Seq<Resource> {
    Seq::new(RESOURCE_COUNT as nat, |i: int| resource_at(RESOURCE_COUNT - 1 - i))
}

/// The swapchain and what depends on it, in the order in which it is built.
pub open spec fn swapchain_build_sequence() -> Seq<Resource> {
    Seq::new(REBUILT_COUNT as nat, |i: int| resource_at(FIRST_REBUILT + i))
}

/// The swapchain and what depends on it, in the order in which it is
/// destroyed.
pub open spec fn swapchain_teardown_sequence() -> Seq<Resource> {
    Seq::new(REBUILT_COUNT as nat, |i: int| resource_at(FIRST_REBUILT + REBUILT_COUNT - 1 - i))
}

/// The steps of a rebuild: the teardown of the swapchain and its
/// dependents, then their construction.
pub open spec fn rebuild_sequence() -> Seq<Step> {
    Seq::new(
        2 * REBUILT_COUNT as nat,
        |i: int|
            if i < REBUILT_COUNT {
                Step::Destroy(swapchain_teardown_sequence()[i])
            } else {
                Step::Create(swapchain_build_sequence()[i - REBUILT_COUNT])
            },
    )
}

/// Every resource has a position in the startup order, and stands there.
pub proof fn lemma_rank_is_position(r: Resource)
    ensures
        0 <= rank(r) < RESOURCE_COUNT,
        resource_at(rank(r)) == r,
{
}

/// Every position of the startup order holds a resource of that rank: the
/// ranks run from 0 without gaps or repeats.
pub proof fn lemma_position_has_rank(position: int)
    requires
        0 <= position < RESOURCE_COUNT,
    ensures
        rank(resource_at(position)) == position,
{
}

/// A resource is built after everything it depends on.
pub proof fn lemma_dependencies_come_first(a: Resource, b: Resource)
    requires
        depends_on(a, b),
    ensures
        rank(b) < rank(a),
{
}

/// In the startup order every resource occurs exactly once, after all that
/// it depends on.
pub proof fn lemma_startup_respects_dependencies()
    ensures
        forall|r: Resource|
            0 <= rank(r) < startup_sequence().len() && #[trigger] startup_sequence()[rank(r)]
                == r,
        forall|i: int, j: int|
            0 <= i < j < startup_sequence().len() ==> startup_sequence()[i]
                != startup_sequence()[j],
        forall|i: int, j: int|
            0 <= i < startup_sequence().len() && 0 <= j < startup_sequence().len()
                && #[trigger] depends_on(startup_sequence()[i], startup_sequence()[j]) ==> j
                < i,
{
    assert forall|r: Resource|
        0 <= rank(r) < startup_sequence().len() && #[trigger] startup_sequence()[rank(r)]
            == r by {
        lemma_rank_is_position(r);
    }
    assert forall|i: int, j: int|
        0 <= i < j < startup_sequence().len() implies startup_sequence()[i]
            != startup_sequence()[j] by {
        lemma_position_has_rank(i);
        lemma_position_has_rank(j);
    }
    assert forall|i: int, j: int|
        0 <= i < startup_sequence().len() && 0 <= j < startup_sequence().len()
            && #[trigger] depends_on(startup_sequence()[i], startup_sequence()[j]) implies j
            < i by {
        lemma_position_has_rank(i);
        lemma_position_has_rank(j);
        lemma_dependencies_come_first(startup_sequence()[i], startup_sequence()[j]);
    }
}

/// In the shutdown order every resource occurs exactly once, before all
/// that it depends on: nothing is destroyed while something built on it
/// still exists.
pub proof fn lemma_shutdown_respects_dependencies()
    ensures
        forall|r: Resource|
            0 <= RESOURCE_COUNT - 1 - rank(r) < shutdown_sequence().len()
                && #[trigger] shutdown_sequence()[RESOURCE_COUNT - 1 - rank(r)] == r,
        forall|i: int, j: int|
            0 <= i < j < shutdown_sequence().len() ==> shutdown_sequence()[i]
                != shutdown_sequence()[j],
        forall|i: int, j: int|
            0 <= i < shutdown_sequence().len() && 0 <= j < shutdown_sequence().len()
                && #[trigger] depends_on(shutdown_sequence()[i], shutdown_sequence()[j]) ==> i
                < j,
        shutdown_sequence() =~= startup_sequence().reverse(),
{
    assert forall|r: Resource|
        0 <= RESOURCE_COUNT - 1 - rank(r) < shutdown_sequence().len()
            && #[trigger] shutdown_sequence()[RESOURCE_COUNT - 1 - rank(r)] == r by {
        lemma_rank_is_position(r);
    }
    assert forall|i: int, j: int|
        0 <= i < j < shutdown_sequence().len() implies shutdown_sequence()[i]
            != shutdown_sequence()[j] by {
        lemma_position_has_rank(RESOURCE_COUNT - 1 - i);
        lemma_position_has_rank(RESOURCE_COUNT - 1 - j);
    }
    assert forall|i: int, j: int|
        0 <= i < shutdown_sequence().len() && 0 <= j < shutdown_sequence().len()
            && #[trigger] depends_on(shutdown_sequence()[i], shutdown_sequence()[j]) implies i
            < j by {
        lemma_position_has_rank(RESOURCE_COUNT - 1 - i);
        lemma_position_has_rank(RESOURCE_COUNT - 1 - j);
        lemma_dependencies_come_first(shutdown_sequence()[i], shutdown_sequence()[j]);
    }
}

/// What is rebuilt with the swapchain is exactly what rests on it. Whatever
/// depends on a rebuilt resource is rebuilt too; every rebuilt resource but
/// the swapchain itself depends on a rebuilt resource; and nothing that is
/// rebuilt is needed by anything that is kept. The synchronization objects
/// are kept.
pub proof fn lemma_rebuild_is_closed(a: Resource, b: Resource)
    ensures
        swapchain_dependent(Resource::Swapchain),
        !swapchain_dependent(Resource::SyncObjects),
        depends_on(a, b) && swapchain_dependent(b) ==> swapchain_dependent(a),
        swapchain_dependent(a) && a != Resource::Swapchain ==> exists|c: Resource|
            #[trigger] depends_on(a, c) && swapchain_dependent(c),
{
    if swapchain_dependent(a) && a != Resource::Swapchain {
        let c = match a {
            Resource::Framebuffers => Resource::ImageViews,
            Resource::DescriptorSets => Resource::DescriptorPool,
            Resource::CommandBuffers => Resource::Framebuffers,
            Resource::Pipeline => Resource::RenderPass,
            _ => Resource::Swapchain,
        };
        assert(depends_on(a, c) && swapchain_dependent(c));
    }
}

/// The position in a rebuild at which a resource that rests on the
/// swapchain is destroyed.
pub open spec fn destroyed_at(r: Resource) -> int {
    FIRST_REBUILT + REBUILT_COUNT - 1 - rank(r)
}

/// The position in a rebuild at which a resource that rests on the
/// swapchain is built again.
pub open spec fn created_at(r: Resource) -> int {
    REBUILT_COUNT + rank(r) - FIRST_REBUILT
}

/// A rebuild destroys each resource that rests on the swapchain once and
/// then builds each once; it destroys a resource before what it depends on
/// and builds it after; and it touches nothing else.
pub proof fn lemma_rebuild_respects_dependencies()
    ensures
        rebuild_sequence().len() == 2 * REBUILT_COUNT,
        forall|r: Resource| #[trigger]
            swapchain_dependent(r) ==> {
                &&& 0 <= destroyed_at(r) < created_at(r) < rebuild_sequence().len()
                &&& rebuild_sequence()[destroyed_at(r)] == Step::Destroy(r)
                &&& rebuild_sequence()[created_at(r)] == Step::Create(r)
            },
        forall|i: int|
            0 <= i < rebuild_sequence().len() ==> match #[trigger] rebuild_sequence()[i] {
                Step::Destroy(r) => i == destroyed_at(r) && swapchain_dependent(r),
                Step::Create(r) => i == created_at(r) && swapchain_dependent(r),
            },
        forall|a: Resource, b: Resource|
            swapchain_dependent(a) && swapchain_dependent(b) && #[trigger] depends_on(a, b)
                ==> destroyed_at(a) < destroyed_at(b) && created_at(b) < created_at(a),
{
    assert forall|r: Resource| #[trigger] swapchain_dependent(r) implies {
        &&& 0 <= destroyed_at(r) < created_at(r) < rebuild_sequence().len()
        &&& rebuild_sequence()[destroyed_at(r)] == Step::Destroy(r)
        &&& rebuild_sequence()[created_at(r)] == Step::Create(r)
    } by {
        lemma_rank_is_position(r);
    }
    assert forall|i: int| 0 <= i < rebuild_sequence().len() implies match #[trigger] rebuild_sequence()[i] {
        Step::Destroy(r) => i == destroyed_at(r) && swapchain_dependent(r),
        Step::Create(r) => i == created_at(r) && swapchain_dependent(r),
    } by {
        if i < REBUILT_COUNT {
            lemma_position_has_rank(FIRST_REBUILT + REBUILT_COUNT - 1 - i);
        } else {
            lemma_position_has_rank(FIRST_REBUILT + i - REBUILT_COUNT);
        }
    }
    assert forall|a: Resource, b: Resource|
        swapchain_dependent(a) && swapchain_dependent(b) && #[trigger] depends_on(
            a,
            b,
        ) implies destroyed_at(a) < destroyed_at(b) && created_at(b) < created_at(a) by {
        lemma_dependencies_come_first(a, b);
    }
}

/// The resources in the order in which they are built at startup.
pub fn startup_order() -> (order: Vec<Resource>)
    ensures
        order@ == startup_sequence(),
{
    let mut order: Vec<Resource> = Vec::new();
    order.push(Resource::Instance);
    order.push(Resource::DebugMessenger);
    order.push(Resource::Surface);
    order.push(Resource::Device);
    order.push(Resource::CommandPool);
    order.push(Resource::DescriptorSetLayout);
    order.push(Resource::Texture);
    order.push(Resource::VertexBuffer);
    order.push(Resource::IndexBuffer);
    let mut rebuilt = build_order();
    order.append(&mut rebuilt);
    order.push(Resource::SyncObjects);
    order
}

/// The resources in the order in which they are destroyed at shutdown.
pub fn shutdown_order() -> (order: Vec<Resource>)
    ensures
        order@ == shutdown_sequence(),
{
    let mut order: Vec<Resource> = Vec::new();
    order.push(Resource::SyncObjects);
    let mut rebuilt = destroy_swapchain();
    order.append(&mut rebuilt);
    order.push(Resource::IndexBuffer);
    order.push(Resource::VertexBuffer);
    order.push(Resource::Texture);
    order.push(Resource::DescriptorSetLayout);
    order.push(Resource::CommandPool);
    order.push(Resource::Device);
    order.push(Resource::Surface);
    order.push(Resource::DebugMessenger);
    order.push(Resource::Instance);
    order
}

/// The swapchain and what depends on it, in the order in which it is built.
pub fn build_order() -> (order: Vec<Resource>)
    ensures
        order@ == swapchain_build_sequence(),
{
    let mut order: Vec<Resource> = Vec::new();
    order.push(Resource::Swapchain);
    order.push(Resource::ImageViews);
    order.push(Resource::RenderPass);
    order.push(Resource::Pipeline);
    order.push(Resource::RenderTargets);
    order.push(Resource::Framebuffers);
    order.push(Resource::UniformBuffers);
    order.push(Resource::DescriptorPool);
    order.push(Resource::DescriptorSets);
    order.push(Resource::CommandBuffers);
    order
}

/// The swapchain and what depends on it, in the order in which it is
/// destroyed: dependents first, the swapchain last.
pub fn destroy_swapchain() -> (order: Vec<Resource>)
    ensures
        order@ == swapchain_teardown_sequence(),
{
    let mut order: Vec<Resource> = Vec::new();
    order.push(Resource::CommandBuffers);
    order.push(Resource::DescriptorSets);
    order.push(Resource::DescriptorPool);
    order.push(Resource::UniformBuffers);
    order.push(Resource::Framebuffers);
    order.push(Resource::RenderTargets);
    order.push(Resource::Pipeline);
    order.push(Resource::RenderPass);
    order.push(Resource::ImageViews);
    order.push(Resource::Swapchain);
    order
}

/// The steps of a rebuild of the swapchain, to be taken on an idle device:
/// tear down what rests on the swapchain and the swapchain itself, then
/// build the swapchain and what rests on it.
pub fn recreate_swapchain() -> (steps: Vec<Step>)
    ensures
        steps@ == rebuild_sequence(),
{
    let teardown = destroy_swapchain();
    let build = build_order();
    let mut steps: Vec<Step> = Vec::new();
    let mut i: usize = 0;
    while i < teardown.len()
        invariant
            teardown@ == swapchain_teardown_sequence(),
            i <= teardown.len(),
            steps.len() == i,
            forall|k: int| 0 <= k < i ==> steps[k] == Step::Destroy(teardown[k]),
        decreases teardown.len() - i,
    {
        steps.push(Step::Destroy(teardown[i]));
        i += 1;
    }
    let mut j: usize = 0;
    while j < build.len()
        invariant
            teardown@ == swapchain_teardown_sequence(),
            build@ == swapchain_build_sequence(),
            j <= build.len(),
            steps.len() == teardown.len() + j,
            forall|k: int| 0 <= k < teardown.len() ==> steps[k] == Step::Destroy(teardown[k]),
            forall|k: int| 0 <= k < j ==> steps[teardown.len() + k] == Step::Create(build[k]),
        decreases build.len() - j,
    {
        steps.push(Step::Create(build[j]));
        j += 1;
    }
    steps
}

} // verus!
