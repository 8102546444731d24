//! The presentation engine end to end: pool construction, bundle shape,
//! the drawing protocol, and rebuild behaviour.

use present_engine::bundle::{DEPTH_FORMAT, SwapchainBundle};
use present_engine::handles::HandleMint;
use present_engine::pool::{
    MeshData, ResourceCreationError, ResourcePool, SPIRV_MAGIC, ShaderCode,
};
use present_engine::presenter::{
    AcquireOutcome, AppConfig, BundleState, DrawAction, LoopStep, PipelineStage,
    PresentOutcome, Presenter, Version, plan_iteration,
};
use present_engine::surface::{Extent2d, SurfaceCapabilities};

fn spirv(tail: u32) -> ShaderCode {
    ShaderCode { words: vec![SPIRV_MAGIC, 0x0001_0000, tail] }
}

fn boxed_mesh() -> MeshData {
    MeshData {
        vertex_count: 8,
        indices: vec![0, 1, 2, 2, 3, 0, 4, 5, 6, 6, 7, 4],
    }
}

fn caps(min_image_count: u32, max_width: u32, max_height: u32) -> SurfaceCapabilities {
    SurfaceCapabilities {
        min_image_count,
        max_image_count: 0,
        min_extent: Extent2d { width: 1, height: 1 },
        max_extent: Extent2d { width: max_width, height: max_height },
        formats: vec![44, 37],
    }
}

fn config() -> AppConfig {
    AppConfig {
        name: String::from("demo"),
        application_version: Version { major: 1, minor: 0, patch: 0 },
        api_version: Version { major: 1, minor: 0, patch: 0 },
    }
}

fn new_presenter(min_image_count: u32, driver_image_count: u32, requested: Extent2d) -> Presenter {
    Presenter::new(
        config(),
        &caps(min_image_count, 1920, 1080),
        requested,
        driver_image_count,
        spirv(1),
        spirv(2),
        &boxed_mesh(),
    )
    .expect("inputs are valid")
}

fn bundle_of(p: &Presenter) -> &SwapchainBundle {
    match &p.bundle {
        BundleState::Present(b) => b,
        BundleState::Absent => panic!("no bundle held"),
    }
}

#[test]
fn pool_build_records_mesh_and_shaders() {
    let mut mint = HandleMint::new();
    let pool = ResourcePool::build(spirv(1), spirv(2), &boxed_mesh(), &mut mint)
        .expect("inputs are valid");
    assert_eq!(pool.vertex_count, 8);
    assert_eq!(pool.index_count, 12);
    assert_eq!(pool.vert_shader.words[2], 1);
    assert_eq!(pool.frag_shader.words[2], 2);
}

#[test]
fn pool_handles_are_pairwise_distinct() {
    let mut mint = HandleMint::new();
    let pool = ResourcePool::build(spirv(1), spirv(2), &boxed_mesh(), &mut mint)
        .expect("inputs are valid");
    let handles = vec![
        pool.descriptor_set_layout,
        pool.pipeline_layout,
        pool.command_pool,
        pool.descriptor_pool,
        pool.texture_sampler,
        pool.uniform_buffer,
        pool.uniform_buffer_memory,
        pool.vertex_buffer,
        pool.vertex_buffer_memory,
        pool.index_buffer,
        pool.index_buffer_memory,
        pool.texture_image,
        pool.texture_image_memory,
        pool.texture_image_view,
        pool.descriptor_set,
    ];
    for i in 0..handles.len() {
        for j in 0..handles.len() {
            if i != j {
                assert_ne!(handles[i], handles[j]);
            }
        }
    }
}

#[test]
fn pool_rejects_bad_vertex_shader() {
    let mut mint = HandleMint::new();
    let bad = ShaderCode { words: vec![0xdeadbeef, 1] };
    let r = ResourcePool::build(bad, spirv(2), &boxed_mesh(), &mut mint);
    assert_eq!(r.unwrap_err(), ResourceCreationError::BadVertexShader);
}

#[test]
fn pool_rejects_empty_fragment_shader() {
    let mut mint = HandleMint::new();
    let empty = ShaderCode { words: vec![] };
    let r = ResourcePool::build(spirv(1), empty, &boxed_mesh(), &mut mint);
    assert_eq!(r.unwrap_err(), ResourceCreationError::BadFragmentShader);
}

#[test]
fn pool_rejects_empty_mesh() {
    let mut mint = HandleMint::new();
    let mesh = MeshData { vertex_count: 0, indices: vec![0, 1, 2] };
    let r = ResourcePool::build(spirv(1), spirv(2), &mesh, &mut mint);
    assert_eq!(r.unwrap_err(), ResourceCreationError::EmptyMesh);
}

#[test]
fn pool_rejects_partial_triangle() {
    let mut mint = HandleMint::new();
    let mesh = MeshData { vertex_count: 4, indices: vec![0, 1, 2, 3] };
    let r = ResourcePool::build(spirv(1), spirv(2), &mesh, &mut mint);
    assert_eq!(r.unwrap_err(), ResourceCreationError::PartialTriangle);
}

#[test]
fn pool_rejects_out_of_range_index() {
    let mut mint = HandleMint::new();
    let mesh = MeshData { vertex_count: 8, indices: vec![0, 1, 8] };
    let r = ResourcePool::build(spirv(1), spirv(2), &mesh, &mut mint);
    assert_eq!(r.unwrap_err(), ResourceCreationError::IndexOutOfRange);
}

#[test]
fn presenter_new_propagates_pool_failure() {
    let bad = ShaderCode { words: vec![7] };
    let r = Presenter::new(
        config(),
        &caps(2, 1920, 1080),
        Extent2d { width: 800, height: 600 },
        2,
        bad,
        spirv(2),
        &boxed_mesh(),
    );
    assert!(matches!(r, Err(ResourceCreationError::BadVertexShader)));
}

#[test]
fn bundle_has_one_of_each_per_image() {
    let p = new_presenter(3, 3, Extent2d { width: 800, height: 600 });
    let b = bundle_of(&p);
    let n = b.swapchain.image_count as usize;
    assert_eq!(n, 3);
    assert_eq!(b.components.image_views.len(), n);
    assert_eq!(b.components.framebuffers.len(), n);
    assert_eq!(b.command_buffers.len(), n);
}

#[test]
fn bundle_arrays_are_index_aligned() {
    let p = new_presenter(3, 3, Extent2d { width: 800, height: 600 });
    let b = bundle_of(&p);
    for i in 0..b.swapchain.image_count as usize {
        assert_eq!(b.command_buffers[i].framebuffer, b.components.framebuffers[i].handle);
        assert_eq!(b.components.framebuffers[i].color_view, b.components.image_views[i].handle);
        assert_eq!(b.components.framebuffers[i].depth_view, b.depth.view);
    }
}

#[test]
fn bundle_follows_actual_count_not_request() {
    // The engine requests max(min, 2) = 2 images; the driver actually
    // populates the swapchain with 5.  Every per-image array must have 5
    // entries, and the fifth image must be drawable.
    let mut p = new_presenter(2, 5, Extent2d { width: 800, height: 600 });
    let b = bundle_of(&p).clone();
    assert_eq!(b.swapchain.image_count, 5);
    assert_eq!(b.components.image_views.len(), 5);
    assert_eq!(b.components.framebuffers.len(), 5);
    assert_eq!(b.command_buffers.len(), 5);
    assert_eq!(p.image_count(), 5);
    match p.draw_frame(AcquireOutcome::Image(4)) {
        DrawAction::Render(plan) => {
            assert_eq!(plan.image_index, 4);
            assert_eq!(plan.command_buffer, b.command_buffers[4].handle);
        }
        DrawAction::Rebuild => panic!("a healthy acquire must render"),
    }
}

#[test]
fn rebuild_follows_the_driver_count_of_the_new_swapchain() {
    let mut p = new_presenter(2, 2, Extent2d { width: 800, height: 600 });
    p.recreate_swapchain(&caps(2, 1920, 1080), Extent2d { width: 800, height: 600 }, 3);
    let b = bundle_of(&p);
    assert_eq!(b.swapchain.image_count, 3);
    assert_eq!(b.components.image_views.len(), 3);
    assert_eq!(b.components.framebuffers.len(), 3);
    assert_eq!(b.command_buffers.len(), 3);
}

#[test]
fn bundle_handles_are_pairwise_distinct() {
    let p = new_presenter(2, 3, Extent2d { width: 800, height: 600 });
    let b = bundle_of(&p);
    let mut handles = vec![
        b.swapchain.handle,
        b.depth.image,
        b.depth.memory,
        b.depth.view,
        b.components.render_pass.handle,
        b.components.graphics_pipeline.handle,
    ];
    for v in &b.components.image_views {
        handles.push(v.handle);
    }
    for fb in &b.components.framebuffers {
        handles.push(fb.handle);
    }
    for cb in &b.command_buffers {
        handles.push(cb.handle);
    }
    for i in 0..handles.len() {
        assert_ne!(handles[i], 0);
        for j in 0..handles.len() {
            if i != j {
                assert_ne!(handles[i], handles[j]);
            }
        }
    }
}

#[test]
fn bundle_formats_follow_surface_and_depth() {
    let p = new_presenter(2, 2, Extent2d { width: 800, height: 600 });
    let b = bundle_of(&p);
    assert_eq!(b.swapchain.format, 44);
    assert_eq!(b.components.render_pass.color_format, 44);
    assert_eq!(b.components.render_pass.depth_format, DEPTH_FORMAT);
    for v in &b.components.image_views {
        assert_eq!(v.format, 44);
    }
}

#[test]
fn oversized_request_is_clamped_to_max_extent() {
    let p = new_presenter(2, 2, Extent2d { width: 3000, height: 2000 });
    let b = bundle_of(&p);
    assert_eq!(b.swapchain.image_count, 2);
    assert_eq!(b.swapchain.extent, Extent2d { width: 1920, height: 1080 });
}

#[test]
fn framebuffers_report_the_clamped_extent() {
    let p = new_presenter(2, 2, Extent2d { width: 3000, height: 2000 });
    let b = bundle_of(&p);
    let clamped = Extent2d { width: 1920, height: 1080 };
    assert_eq!(p.extent(), clamped);
    for fb in &b.components.framebuffers {
        assert_eq!(fb.extent, clamped);
    }
    assert_eq!(b.components.graphics_pipeline.extent, clamped);
    assert_eq!(b.depth.extent, clamped);
}

#[test]
fn in_bounds_request_is_kept_verbatim() {
    let p = new_presenter(2, 2, Extent2d { width: 1024, height: 768 });
    assert_eq!(p.extent(), Extent2d { width: 1024, height: 768 });
}

#[test]
fn rebuild_at_same_extent_is_idempotent() {
    let mut p = new_presenter(2, 2, Extent2d { width: 800, height: 600 });
    let c = caps(2, 1920, 1080);
    p.recreate_swapchain(&c, Extent2d { width: 800, height: 600 }, 2);
    let count_1 = bundle_of(&p).swapchain.image_count;
    let color_1 = bundle_of(&p).components.render_pass.color_format;
    let depth_1 = bundle_of(&p).components.render_pass.depth_format;
    let extent_1 = bundle_of(&p).swapchain.extent;
    p.recreate_swapchain(&c, Extent2d { width: 800, height: 600 }, 2);
    let b2 = bundle_of(&p);
    assert_eq!(b2.swapchain.image_count, count_1);
    assert_eq!(b2.components.render_pass.color_format, color_1);
    assert_eq!(b2.components.render_pass.depth_format, depth_1);
    assert_eq!(b2.swapchain.extent, extent_1);
}

#[test]
fn rebuild_hands_old_swapchain_to_driver() {
    let mut p = new_presenter(2, 2, Extent2d { width: 800, height: 600 });
    let first = bundle_of(&p).swapchain.handle;
    assert_eq!(bundle_of(&p).swapchain.replaces, None);
    p.recreate_swapchain(&caps(2, 1920, 1080), Extent2d { width: 640, height: 480 }, 2);
    let b = bundle_of(&p);
    assert_eq!(b.swapchain.replaces, Some(first));
    assert_ne!(b.swapchain.handle, first);
}

#[test]
fn rebuild_clamps_oversized_resize() {
    let mut p = new_presenter(2, 2, Extent2d { width: 800, height: 600 });
    p.recreate_swapchain(&caps(2, 1920, 1080), Extent2d { width: 3000, height: 2000 }, 2);
    assert_eq!(p.extent(), Extent2d { width: 1920, height: 1080 });
    let b = bundle_of(&p);
    for fb in &b.components.framebuffers {
        assert_eq!(fb.extent, Extent2d { width: 1920, height: 1080 });
    }
}

#[test]
fn rebuild_leaves_pool_and_semaphores_alone() {
    let mut p = new_presenter(2, 2, Extent2d { width: 800, height: 600 });
    let pool_before = p.pool.clone();
    let sync_before = p.sync;
    p.recreate_swapchain(&caps(2, 1920, 1080), Extent2d { width: 640, height: 480 }, 2);
    assert_eq!(p.pool, pool_before);
    assert_eq!(p.sync, sync_before);
}

#[test]
fn draw_frame_renders_the_acquired_image() {
    let mut p = new_presenter(2, 2, Extent2d { width: 800, height: 600 });
    let b = bundle_of(&p).clone();
    let action = p.draw_frame(AcquireOutcome::Image(1));
    match action {
        DrawAction::Render(plan) => {
            assert_eq!(plan.wait_semaphore, p.sync.image_available);
            assert_eq!(plan.wait_stage, PipelineStage::ColorAttachmentOutput);
            assert_eq!(plan.command_buffer, b.command_buffers[1].handle);
            assert_eq!(plan.signal_semaphore, p.sync.render_finished);
            assert_eq!(plan.swapchain, b.swapchain.handle);
            assert_eq!(plan.image_index, 1);
        },
        DrawAction::Rebuild => panic!("a healthy acquire must render"),
    }
    assert!(!p.needs_rebuild());
}

#[test]
fn out_of_date_acquire_skips_frame_and_keeps_pool() {
    let mut p = new_presenter(2, 2, Extent2d { width: 800, height: 600 });
    let pool_before = p.pool.clone();
    let bundle_before = bundle_of(&p).clone();
    let action = p.draw_frame(AcquireOutcome::OutOfDate);
    assert_eq!(action, DrawAction::Rebuild);
    assert!(p.needs_rebuild());
    assert_eq!(p.pool, pool_before);
    assert_eq!(*bundle_of(&p), bundle_before);
    assert_eq!(p.pool.vertex_buffer, pool_before.vertex_buffer);
    assert_eq!(p.pool.index_buffer, pool_before.index_buffer);
    assert_eq!(p.pool.uniform_buffer, pool_before.uniform_buffer);
}

#[test]
fn consecutive_frames_reuse_pipeline_and_render_pass() {
    let mut p = new_presenter(2, 2, Extent2d { width: 800, height: 600 });
    let pipeline_before = bundle_of(&p).components.graphics_pipeline.handle;
    let render_pass_before = bundle_of(&p).components.render_pass.handle;
    let a1 = p.draw_frame(AcquireOutcome::Image(0));
    p.finish_frame(PresentOutcome::Presented);
    let a2 = p.draw_frame(AcquireOutcome::Image(1));
    p.finish_frame(PresentOutcome::Presented);
    assert!(matches!(a1, DrawAction::Render(_)));
    assert!(matches!(a2, DrawAction::Render(_)));
    assert_eq!(bundle_of(&p).components.graphics_pipeline.handle, pipeline_before);
    assert_eq!(bundle_of(&p).components.render_pass.handle, render_pass_before);
}

#[test]
fn full_image_cycle_reuses_every_framebuffer() {
    let mut p = new_presenter(3, 3, Extent2d { width: 800, height: 600 });
    let framebuffers_before: Vec<u64> = bundle_of(&p)
        .components
        .framebuffers
        .iter()
        .map(|fb| fb.handle)
        .collect();
    let n = p.image_count();
    for i in 0..n {
        let action = p.draw_frame(AcquireOutcome::Image(i));
        assert!(matches!(action, DrawAction::Render(_)));
        p.finish_frame(PresentOutcome::Presented);
    }
    let framebuffers_after: Vec<u64> = bundle_of(&p)
        .components
        .framebuffers
        .iter()
        .map(|fb| fb.handle)
        .collect();
    assert_eq!(framebuffers_after, framebuffers_before);
}

#[test]
fn stale_present_flags_rebuild() {
    let mut p = new_presenter(2, 2, Extent2d { width: 800, height: 600 });
    p.finish_frame(PresentOutcome::Presented);
    assert!(!p.needs_rebuild());
    p.finish_frame(PresentOutcome::Suboptimal);
    assert!(p.needs_rebuild());
    p.recreate_swapchain(&caps(2, 1920, 1080), Extent2d { width: 800, height: 600 }, 2);
    assert!(!p.needs_rebuild());
    p.finish_frame(PresentOutcome::OutOfDate);
    assert!(p.needs_rebuild());
}

#[test]
fn iteration_plan_orders_exit_rebuild_render() {
    assert_eq!(plan_iteration(true, true, true), LoopStep::Exit);
    assert_eq!(plan_iteration(false, true, false), LoopStep::Rebuild);
    assert_eq!(plan_iteration(false, false, true), LoopStep::Rebuild);
    assert_eq!(plan_iteration(false, false, false), LoopStep::Render);
}
