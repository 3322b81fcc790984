use frame_pacing::lifecycle::Resource::{
    CommandBuffers, CommandPool, DebugMessenger, DescriptorPool, DescriptorSetLayout,
    DescriptorSets, Device, Framebuffers, ImageViews, IndexBuffer, Instance, Pipeline,
    RenderPass, RenderTargets, Surface, Swapchain, SyncObjects, Texture, UniformBuffers,
    VertexBuffer,
};
use frame_pacing::lifecycle::{
    build_order, destroy_swapchain, recreate_swapchain, shutdown_order, startup_order, Resource,
    Step, FIRST_REBUILT, REBUILT_COUNT, RESOURCE_COUNT,
};

/// What each resource is built on.
fn needs(r: Resource) -> Vec<Resource> {
    match r {
        Instance => vec![],
        DebugMessenger => vec![Instance],
        Surface => vec![Instance],
        Device => vec![Instance, Surface],
        CommandPool => vec![Device],
        DescriptorSetLayout => vec![Device],
        Texture => vec![Device, CommandPool],
        VertexBuffer => vec![Device, CommandPool],
        IndexBuffer => vec![Device, CommandPool],
        Swapchain => vec![Device, Surface],
        ImageViews => vec![Swapchain],
        RenderPass => vec![Swapchain],
        Pipeline => vec![RenderPass, DescriptorSetLayout, Swapchain],
        RenderTargets => vec![Swapchain],
        Framebuffers => vec![ImageViews, RenderPass, RenderTargets],
        UniformBuffers => vec![Swapchain],
        DescriptorPool => vec![Swapchain],
        DescriptorSets => vec![DescriptorPool, DescriptorSetLayout, UniformBuffers, Texture],
        CommandBuffers => {
            vec![CommandPool, Framebuffers, Pipeline, DescriptorSets, VertexBuffer, IndexBuffer]
        }
        SyncObjects => vec![Device],
    }
}

fn place(order: &[Resource], r: Resource) -> usize {
    let places: Vec<usize> =
        order.iter().enumerate().filter(|(_, x)| **x == r).map(|(at, _)| at).collect();
    assert_eq!(places.len(), 1, "{:?} occurs once", r);
    places[0]
}

#[test]
fn startup_builds_everything_once_on_what_exists() {
    let order = startup_order();
    assert_eq!(order.len(), RESOURCE_COUNT);
    assert_eq!(order[0], Resource::Instance);
    assert_eq!(order[FIRST_REBUILT], Resource::Swapchain);
    assert_eq!(order[RESOURCE_COUNT - 1], Resource::SyncObjects);
    for r in order.iter() {
        for dependency in needs(*r) {
            assert!(place(&order, dependency) < place(&order, *r));
        }
    }
}

#[test]
fn shutdown_is_startup_backwards() {
    let mut backwards = startup_order();
    backwards.reverse();
    assert_eq!(shutdown_order(), backwards);
    let order = shutdown_order();
    assert_eq!(order[0], Resource::SyncObjects);
    assert_eq!(order[RESOURCE_COUNT - 1], Resource::Instance);
    for r in order.iter() {
        for dependency in needs(*r) {
            assert!(place(&order, *r) < place(&order, dependency));
        }
    }
}

#[test]
fn swapchain_is_torn_down_last_and_built_first() {
    assert_eq!(
        build_order(),
        vec![
            Swapchain,
            ImageViews,
            RenderPass,
            Pipeline,
            RenderTargets,
            Framebuffers,
            UniformBuffers,
            DescriptorPool,
            DescriptorSets,
            CommandBuffers,
        ]
    );
    assert_eq!(
        destroy_swapchain(),
        vec![
            CommandBuffers,
            DescriptorSets,
            DescriptorPool,
            UniformBuffers,
            Framebuffers,
            RenderTargets,
            Pipeline,
            RenderPass,
            ImageViews,
            Swapchain,
        ]
    );
    assert_eq!(build_order().len(), REBUILT_COUNT);
}

#[test]
fn rebuilt_resources_are_one_run_of_both_orders() {
    let startup = startup_order();
    let shutdown = shutdown_order();
    assert_eq!(build_order()[..], startup[FIRST_REBUILT..FIRST_REBUILT + REBUILT_COUNT]);
    assert_eq!(destroy_swapchain()[..], shutdown[1..1 + REBUILT_COUNT]);
}

#[test]
fn rebuild_destroys_then_builds() {
    let steps = recreate_swapchain();
    let mut expected: Vec<Step> = destroy_swapchain().into_iter().map(Step::Destroy).collect();
    expected.extend(build_order().into_iter().map(Step::Create));
    assert_eq!(steps, expected);
    assert_eq!(steps.len(), 2 * REBUILT_COUNT);
    assert_eq!(steps[0], Step::Destroy(Resource::CommandBuffers));
    assert_eq!(steps[9], Step::Destroy(Resource::Swapchain));
    assert_eq!(steps[10], Step::Create(Resource::Swapchain));
    assert_eq!(steps[19], Step::Create(Resource::CommandBuffers));
}

#[test]
fn rebuild_leaves_the_frame_slots_alone() {
    let steps = recreate_swapchain();
    for kept in [
        Resource::SyncObjects,
        Resource::Instance,
        Resource::Surface,
        Resource::Device,
        Resource::CommandPool,
        Resource::DescriptorSetLayout,
        Resource::Texture,
        Resource::VertexBuffer,
        Resource::IndexBuffer,
        Resource::DebugMessenger,
    ] {
        assert!(!steps.contains(&Step::Destroy(kept)));
        assert!(!steps.contains(&Step::Create(kept)));
    }
    // Nothing that is kept is built on anything that is rebuilt.
    let rebuilt = build_order();
    for r in startup_order() {
        if !rebuilt.contains(&r) {
            for dependency in needs(r) {
                assert!(!rebuilt.contains(&dependency));
            }
        }
    }
}
