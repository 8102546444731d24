//! The swapchain bundle: the swapchain plus everything whose count or
//! size depends on it — per-image views, the render pass, the graphics
//! pipeline, the depth buffer, per-image framebuffers, and per-image
//! pre-recorded command buffers.  The bundle is destroyed and rebuilt as
//! one unit; no element is ever recreated alone, because render pass,
//! pipeline and framebuffers are mutually format- and extent-dependent.

use vstd::prelude::*;

use crate::handles::HandleMint;
use crate::pool::{ResourcePool, ShaderCode, valid_spirv};
use crate::surface::{
    Extent2d, SurfaceCapabilities, chosen_format, chosen_image_count, clamped_extent,
};

verus! {

/// Format code of the depth attachment (a 32-bit float depth format);
/// fixed, since the depth buffer never leaves the device.
pub const DEPTH_FORMAT: u32 = 126;

/// A view onto one presentable image of the swapchain.
#[derive(Clone, Copy, PartialEq, Eq, Structural, Debug)]
pub struct ImageView {
    pub handle: u64,
    pub format: u32,
}

/// The single-subpass render pass: one color attachment in the surface
/// format, cleared on load, and one depth attachment.
#[derive(Clone, Copy, PartialEq, Eq, Structural, Debug)]
pub struct RenderPass {
    pub handle: u64,
    pub color_format: u32,
    pub depth_format: u32,
}

/// The graphics pipeline, compiled against one render pass with its
/// viewport sized to one extent.
#[derive(Clone, Copy, PartialEq, Eq, Structural, Debug)]
pub struct GraphicsPipeline {
    pub handle: u64,
    pub render_pass: u64,
    pub layout: u64,
    pub extent: Extent2d,
}

/// A binding of one color image view and the shared depth view to the
/// render pass's attachment slots.
#[derive(Clone, Copy, PartialEq, Eq, Structural, Debug)]
pub struct Framebuffer {
    pub handle: u64,
    pub render_pass: u64,
    pub color_view: u64,
    pub depth_view: u64,
    pub extent: Extent2d,
}

/// One pre-recorded command buffer: bind the pipeline, the mesh buffers
/// and the descriptor set, then one indexed draw into one framebuffer.
/// Recorded at bundle build time, never re-recorded per frame.
#[derive(Clone, Copy, PartialEq, Eq, Structural, Debug)]
pub struct CommandBuffer {
    pub handle: u64,
    pub framebuffer: u64,
    pub pipeline: u64,
    pub vertex_buffer: u64,
    pub index_buffer: u64,
    pub descriptor_set: u64,
    pub index_count: u32,
}

/// The swapchain itself: the driver-facing object the images belong to.
/// `image_count` is the number of images the driver actually populated
/// it with — the engine requests a minimum, the driver may create more.
/// `replaces` records the handle of the swapchain this one superseded,
/// when it was created during a rebuild.
#[derive(Clone, Copy, PartialEq, Eq, Structural, Debug)]
pub struct Swapchain {
    pub handle: u64,
    pub format: u32,
    pub extent: Extent2d,
    pub image_count: u32,
    pub replaces: Option<u64>,
}

/// The depth image, its memory, and the view the framebuffers share;
/// sized to the swapchain extent, so rebuilt with the bundle.
#[derive(Clone, Copy, PartialEq, Eq, Structural, Debug)]
pub struct DepthResources {
    pub image: u64,
    pub memory: u64,
    pub view: u64,
    pub extent: Extent2d,
}

/// The swapchain-shaped part of a bundle other than the swapchain and
/// command buffers: views, render pass, pipeline, framebuffers.
#[derive(Clone, PartialEq, Eq, Debug)]
pub struct SwapchainComponents {
    pub image_views: Vec<ImageView>,
    pub render_pass: RenderPass,
    pub graphics_pipeline: GraphicsPipeline,
    pub framebuffers: Vec<Framebuffer>,
}

/// Everything destroyed and rebuilt together when the surface changes.
#[derive(Clone, PartialEq, Eq, Debug)]
pub struct SwapchainBundle {
    pub swapchain: Swapchain,
    pub depth: DepthResources,
    pub components: SwapchainComponents,
    pub command_buffers: Vec<CommandBuffer>,
}

impl SwapchainBundle {
    /// The image count the bundle is shaped by: the swapchain's actual
    /// count, as the driver reported it.
    pub open spec fn image_count(self) -> u32 {
        self.swapchain.image_count
    }

    /// The structural invariant of a bundle.  Every per-image array has
    /// exactly one entry per swapchain image, and entry `i` of each array
    /// belongs to image `i`: command buffer `i` targets framebuffer `i`,
    /// which wraps image view `i` together with the shared depth view.
    /// All of it carries the swapchain's own format and extent.
    pub open spec fn wf(self) -> bool {
        &&& self.swapchain.image_count >= 2
        &&& self.components.image_views.len() == self.swapchain.image_count
        &&& self.components.framebuffers.len() == self.swapchain.image_count
        &&& self.command_buffers.len() == self.swapchain.image_count
        &&& forall|i: int|
            0 <= i < self.components.image_views.len()
                ==> self.components.image_views[i].format == self.swapchain.format
        &&& self.components.render_pass.color_format == self.swapchain.format
        &&& self.components.render_pass.depth_format == DEPTH_FORMAT
        &&& self.components.graphics_pipeline.render_pass == self.components.render_pass.handle
        &&& self.components.graphics_pipeline.extent == self.swapchain.extent
        &&& self.depth.extent == self.swapchain.extent
        &&& forall|i: int|
            0 <= i < self.components.framebuffers.len()
                ==> {
                    &&& self.components.framebuffers[i].render_pass
                        == self.components.render_pass.handle
                    &&& self.components.framebuffers[i].color_view
                        == self.components.image_views[i].handle
                    &&& self.components.framebuffers[i].depth_view == self.depth.view
                    &&& self.components.framebuffers[i].extent == self.swapchain.extent
                }
        &&& forall|i: int|
            0 <= i < self.command_buffers.len()
                ==> {
                    &&& self.command_buffers[i].framebuffer
                        == self.components.framebuffers[i].handle
                    &&& self.command_buffers[i].pipeline
                        == self.components.graphics_pipeline.handle
                }
    }

    /// Where every handle of the bundle sits, relative to the
    /// swapchain's own: the bundle's objects are created in one fixed
    /// order from one mint, so each handle is the swapchain handle plus
    /// a known offset.  This pins the identity of every object — in
    /// particular, all handles are pairwise distinct, and command buffer
    /// `i` is exactly the object at its offset, not some stand-in.
    pub open spec fn handle_layout(self) -> bool {
        let base = self.swapchain.handle as int;
        let n = self.swapchain.image_count as int;
        &&& self.depth.image == base + 1
        &&& self.depth.memory == base + 2
        &&& self.depth.view == base + 3
        &&& forall|i: int|
            0 <= i < self.components.image_views.len()
                ==> self.components.image_views[i].handle == base + 4 + i
        &&& self.components.render_pass.handle == base + 4 + n
        &&& self.components.graphics_pipeline.handle == base + 5 + n
        &&& forall|i: int|
            0 <= i < self.components.framebuffers.len()
                ==> self.components.framebuffers[i].handle == base + 6 + n + i
        &&& forall|i: int|
            0 <= i < self.command_buffers.len()
                ==> self.command_buffers[i].handle == base + 6 + 2 * n + i
    }

    /// What `build` promises about the bundle it returns, as a relation
    /// to the surface snapshot it was built from and the image count the
    /// driver actually created: well-formed, shaped by that actual count
    /// (which is never below the engine's request), format chosen from
    /// the capabilities, extent clamped to them, replacing the given
    /// previous swapchain, every object handle at its fixed offset, and
    /// every command buffer drawing the pool's whole index array with
    /// its buffers and descriptor set.
    pub open spec fn built_from(
        self,
        caps: SurfaceCapabilities,
        requested: Extent2d,
        image_count: u32,
        previous: Option<u64>,
        pool: ResourcePool,
    ) -> bool {
        &&& self.wf()
        &&& self.handle_layout()
        &&& self.swapchain.image_count == image_count
        &&& image_count >= chosen_image_count(caps)
        &&& self.swapchain.format == chosen_format(caps)
        &&& self.swapchain.extent == clamped_extent(requested, caps)
        &&& self.swapchain.replaces == previous
        &&& forall|i: int|
            0 <= i < self.command_buffers.len()
                ==> {
                    &&& self.command_buffers[i].vertex_buffer == pool.vertex_buffer
                    &&& self.command_buffers[i].index_buffer == pool.index_buffer
                    &&& self.command_buffers[i].descriptor_set == pool.descriptor_set
                    &&& self.command_buffers[i].index_count == pool.index_count
                }
    }

    /// How many handles `build` mints for a bundle of `image_count`
    /// images: the swapchain, three depth resources, the render pass,
    /// the pipeline, and one view, one framebuffer and one command
    /// buffer per image.
    pub open spec fn build_handle_cost(image_count: u32) -> int {
        6 + 3 * image_count
    }

    /// Builds a complete bundle from the current surface snapshot.
    ///
    /// `driver_image_count` is the number of presentable images the
    /// driver actually created for the swapchain — reported by the
    /// device after creation, and never below the engine's requested
    /// minimum.  Every per-image array is sized by it, not by the
    /// request.  The caller passes the swapchain handle being replaced,
    /// if any, so the driver can reuse its resources instead of starting
    /// cold.
    pub fn build(
        caps: &SurfaceCapabilities,
        requested: Extent2d,
        driver_image_count: u32,
        previous: Option<u64>,
        pool: &ResourcePool,
        mint: &mut HandleMint,
    ) -> (b: SwapchainBundle)
        requires
            caps.wf(),
            pool.wf(),
            driver_image_count >= chosen_image_count(*caps),
            old(mint).next + SwapchainBundle::build_handle_cost(driver_image_count) < u64::MAX,
        ensures
            b.built_from(*caps, requested, driver_image_count, previous, *pool),
            b.swapchain.handle == old(mint).next,
            final(mint).next == old(mint).next + SwapchainBundle::build_handle_cost(
                driver_image_count,
            ),
    {
        let swapchain = create_swapchain(caps, requested, driver_image_count, previous, mint);
        let depth = create_depth_resources(swapchain.extent, mint);
        let components = create_swapchain_components(
            &swapchain,
            pool.pipeline_layout,
            depth.view,
            &pool.vert_shader,
            &pool.frag_shader,
            swapchain.extent,
            mint,
        );
        let command_buffers = create_command_buffers(
            &components.graphics_pipeline,
            &components.framebuffers,
            pool,
            mint,
        );
        SwapchainBundle { swapchain, depth, components, command_buffers }
    }
}

/// Creates the swapchain record for the surface: format chosen from the
/// capabilities, the requested extent clamped to them, the previous
/// swapchain handed over for the driver to cannibalize, and the image
/// count the driver actually populated it with — at least the engine's
/// requested minimum, possibly more.
pub fn create_swapchain(
    caps: &SurfaceCapabilities,
    requested: Extent2d,
    driver_image_count: u32,
    previous: Option<u64>,
    mint: &mut HandleMint,
) -> (sc: Swapchain)
    requires
        caps.wf(),
        driver_image_count >= chosen_image_count(*caps),
        old(mint).next < u64::MAX,
    ensures
        sc.handle == old(mint).next,
        sc.format == chosen_format(*caps),
        sc.extent == clamped_extent(requested, *caps),
        sc.image_count == driver_image_count,
        sc.image_count >= chosen_image_count(*caps),
        sc.replaces == previous,
        final(mint).next == old(mint).next + 1,
{
    let handle = mint.fresh();
    let format = crate::surface::select_format(caps);
    let extent = crate::surface::clamp_extent(requested, caps);
    Swapchain { handle, format, extent, image_count: driver_image_count, replaces: previous }
}

/// Creates the depth image, its backing memory, and its view, sized to
/// the given extent.
pub fn create_depth_resources(extent: Extent2d, mint: &mut HandleMint) -> (d: DepthResources)
    requires
        old(mint).next + 3 < u64::MAX,
    ensures
        d.extent == extent,
        d.image == old(mint).next,
        d.memory == old(mint).next + 1,
        d.view == old(mint).next + 2,
        final(mint).next == old(mint).next + 3,
{
    let image = mint.fresh();
    let memory = mint.fresh();
    let view = mint.fresh();
    DepthResources { image, memory, view, extent }
}

/// Creates one view per swapchain image, each in the swapchain's format.
pub fn create_image_views(swapchain: &Swapchain, mint: &mut HandleMint) -> (views: Vec<ImageView>)
    requires
        old(mint).next + swapchain.image_count < u64::MAX,
    ensures
        views.len() == swapchain.image_count,
        forall|i: int| 0 <= i < views.len() ==> views[i].format == swapchain.format,
        forall|i: int| 0 <= i < views.len() ==> views[i].handle == old(mint).next + i,
        final(mint).next == old(mint).next + swapchain.image_count,
{
    let n = swapchain.image_count;
    let mut views: Vec<ImageView> = Vec::new();
    let mut k: u32 = 0;
    while k < n
        invariant
            0 <= k <= n,
            old(mint).next + n < u64::MAX,
            mint.next == old(mint).next + k,
            views.len() == k,
            forall|i: int| 0 <= i < k ==> views[i].format == swapchain.format,
            forall|i: int| 0 <= i < k ==> views[i].handle == old(mint).next + i,
        decreases n - k,
    {
        let handle = mint.fresh();
        views.push(ImageView { handle, format: swapchain.format });
        k = k + 1;
    }
    views
}

/// Creates the single-subpass render pass for the given color format,
/// with the fixed depth format.
pub fn create_render_pass(color_format: u32, mint: &mut HandleMint) -> (rp: RenderPass)
    requires
        old(mint).next < u64::MAX,
    ensures
        rp.handle == old(mint).next,
        rp.color_format == color_format,
        rp.depth_format == DEPTH_FORMAT,
        final(mint).next == old(mint).next + 1,
{
    let handle = mint.fresh();
    RenderPass { handle, color_format, depth_format: DEPTH_FORMAT }
}

/// Builds the graphics pipeline against the given render pass, its
/// viewport sized to the given extent.  The shader bytecode must be
/// valid SPIR-V; the pool guarantees that for its stored modules.
pub fn create_graphics_pipeline(
    pipeline_layout: u64,
    render_pass: &RenderPass,
    extent: Extent2d,
    vert_shader_code: &ShaderCode,
    frag_shader_code: &ShaderCode,
    mint: &mut HandleMint,
) -> (p: GraphicsPipeline)
    requires
        valid_spirv(vert_shader_code.words@),
        valid_spirv(frag_shader_code.words@),
        old(mint).next < u64::MAX,
    ensures
        p.handle == old(mint).next,
        p.render_pass == render_pass.handle,
        p.layout == pipeline_layout,
        p.extent == extent,
        final(mint).next == old(mint).next + 1,
{
    let handle = mint.fresh();
    GraphicsPipeline { handle, render_pass: render_pass.handle, layout: pipeline_layout, extent }
}

/// Creates one framebuffer per image view: view `i` in the color slot,
/// the shared depth view in the depth slot.
pub fn create_framebuffers(
    render_pass: &RenderPass,
    image_views: &Vec<ImageView>,
    depth_view: u64,
    extent: Extent2d,
    mint: &mut HandleMint,
) -> (fbs: Vec<Framebuffer>)
    requires
        old(mint).next + image_views.len() < u64::MAX,
    ensures
        fbs.len() == image_views.len(),
        forall|i: int|
            0 <= i < fbs.len()
                ==> {
                    &&& fbs[i].render_pass == render_pass.handle
                    &&& fbs[i].color_view == image_views[i].handle
                    &&& fbs[i].depth_view == depth_view
                    &&& fbs[i].extent == extent
                    &&& fbs[i].handle == old(mint).next + i
                },
        final(mint).next == old(mint).next + image_views.len(),
{
    let n = image_views.len();
    let mut fbs: Vec<Framebuffer> = Vec::new();
    let mut k: usize = 0;
    while k < n
        invariant
            0 <= k <= n,
            n == image_views.len(),
            old(mint).next + n < u64::MAX,
            mint.next == old(mint).next + k,
            fbs.len() == k,
            forall|i: int|
                0 <= i < k
                    ==> {
                        &&& fbs[i].render_pass == render_pass.handle
                        &&& fbs[i].color_view == image_views[i].handle
                        &&& fbs[i].depth_view == depth_view
                        &&& fbs[i].extent == extent
                        &&& fbs[i].handle == old(mint).next + i
                    },
        decreases n - k,
    {
        let handle = mint.fresh();
        fbs.push(
            Framebuffer {
                handle,
                render_pass: render_pass.handle,
                color_view: image_views[k].handle,
                depth_view,
                extent,
            },
        );
        k = k + 1;
    }
    fbs
}

/// Records one command buffer per framebuffer: bind the pipeline, the
/// pool's vertex and index buffers and its descriptor set, then one
/// indexed draw of the pool's whole index array into framebuffer `i`.
pub fn create_command_buffers(
    pipeline: &GraphicsPipeline,
    framebuffers: &Vec<Framebuffer>,
    pool: &ResourcePool,
    mint: &mut HandleMint,
) -> (cbs: Vec<CommandBuffer>)
    requires
        old(mint).next + framebuffers.len() < u64::MAX,
    ensures
        cbs.len() == framebuffers.len(),
        forall|i: int|
            0 <= i < cbs.len()
                ==> {
                    &&& cbs[i].framebuffer == framebuffers[i].handle
                    &&& cbs[i].pipeline == pipeline.handle
                    &&& cbs[i].vertex_buffer == pool.vertex_buffer
                    &&& cbs[i].index_buffer == pool.index_buffer
                    &&& cbs[i].descriptor_set == pool.descriptor_set
                    &&& cbs[i].index_count == pool.index_count
                    &&& cbs[i].handle == old(mint).next + i
                },
        final(mint).next == old(mint).next + framebuffers.len(),
{
    let n = framebuffers.len();
    let mut cbs: Vec<CommandBuffer> = Vec::new();
    let mut k: usize = 0;
    while k < n
        invariant
            0 <= k <= n,
            n == framebuffers.len(),
            old(mint).next + n < u64::MAX,
            mint.next == old(mint).next + k,
            cbs.len() == k,
            forall|i: int|
                0 <= i < k
                    ==> {
                        &&& cbs[i].framebuffer == framebuffers[i].handle
                        &&& cbs[i].pipeline == pipeline.handle
                        &&& cbs[i].vertex_buffer == pool.vertex_buffer
                        &&& cbs[i].index_buffer == pool.index_buffer
                        &&& cbs[i].descriptor_set == pool.descriptor_set
                        &&& cbs[i].index_count == pool.index_count
                        &&& cbs[i].handle == old(mint).next + i
                    },
        decreases n - k,
    {
        let handle = mint.fresh();
        cbs.push(
            CommandBuffer {
                handle,
                framebuffer: framebuffers[k].handle,
                pipeline: pipeline.handle,
                vertex_buffer: pool.vertex_buffer,
                index_buffer: pool.index_buffer,
                descriptor_set: pool.descriptor_set,
                index_count: pool.index_count,
            },
        );
        k = k + 1;
    }
    cbs
}

/// Builds the swapchain-shaped components for an existing swapchain: one
/// view per image, the render pass in the swapchain's format, the
/// pipeline, and one framebuffer per view around the shared depth view.
pub fn create_swapchain_components(
    swapchain: &Swapchain,
    pipeline_layout: u64,
    depth_image_view: u64,
    vert_shader_code: &ShaderCode,
    frag_shader_code: &ShaderCode,
    extent: Extent2d,
    mint: &mut HandleMint,
) -> (c: SwapchainComponents)
    requires
        valid_spirv(vert_shader_code.words@),
        valid_spirv(frag_shader_code.words@),
        extent == swapchain.extent,
        old(mint).next + 2 * swapchain.image_count + 2 < u64::MAX,
    ensures
        c.image_views.len() == swapchain.image_count,
        c.framebuffers.len() == swapchain.image_count,
        forall|i: int|
            0 <= i < c.image_views.len() ==> c.image_views[i].format == swapchain.format,
        c.render_pass.color_format == swapchain.format,
        c.render_pass.depth_format == DEPTH_FORMAT,
        c.graphics_pipeline.render_pass == c.render_pass.handle,
        c.graphics_pipeline.layout == pipeline_layout,
        c.graphics_pipeline.extent == extent,
        forall|i: int|
            0 <= i < c.framebuffers.len()
                ==> {
                    &&& c.framebuffers[i].render_pass == c.render_pass.handle
                    &&& c.framebuffers[i].color_view == c.image_views[i].handle
                    &&& c.framebuffers[i].depth_view == depth_image_view
                    &&& c.framebuffers[i].extent == extent
                },
        forall|i: int|
            0 <= i < c.image_views.len() ==> c.image_views[i].handle == old(mint).next + i,
        c.render_pass.handle == old(mint).next + swapchain.image_count,
        c.graphics_pipeline.handle == old(mint).next + swapchain.image_count + 1,
        forall|i: int|
            0 <= i < c.framebuffers.len()
                ==> c.framebuffers[i].handle == old(mint).next + swapchain.image_count + 2 + i,
        final(mint).next == old(mint).next + 2 * swapchain.image_count + 2,
{
    let image_views = create_image_views(swapchain, mint);
    let render_pass = create_render_pass(swapchain.format, mint);
    let graphics_pipeline = create_graphics_pipeline(
        pipeline_layout,
        &render_pass,
        extent,
        vert_shader_code,
        frag_shader_code,
        mint,
    );
    let framebuffers = create_framebuffers(&render_pass, &image_views, depth_image_view, extent, mint);
    SwapchainComponents { image_views, render_pass, graphics_pipeline, framebuffers }
}

/// Rebuilding at the same surface snapshot and extent is idempotent in
/// observable effect: two bundles built from the same capabilities and
/// the same requested extent — for which the driver populated the same
/// number of images, as it does when nothing about the surface changed —
/// have the same image count, the same per-image array lengths, the same
/// extent, and the same attachment formats, whatever swapchain each
/// replaced.
pub proof fn lemma_rebuild_idempotent(
    b1: SwapchainBundle,
    b2: SwapchainBundle,
    caps: SurfaceCapabilities,
    requested: Extent2d,
    n1: u32,
    n2: u32,
    p1: Option<u64>,
    p2: Option<u64>,
    pool1: ResourcePool,
    pool2: ResourcePool,
)
    requires
        b1.built_from(caps, requested, n1, p1, pool1),
        b2.built_from(caps, requested, n2, p2, pool2),
        n1 == n2,
    ensures
        b1.swapchain.image_count == b2.swapchain.image_count,
        b1.components.image_views.len() == b2.components.image_views.len(),
        b1.components.framebuffers.len() == b2.components.framebuffers.len(),
        b1.command_buffers.len() == b2.command_buffers.len(),
        b1.swapchain.extent == b2.swapchain.extent,
        b1.components.render_pass.color_format == b2.components.render_pass.color_format,
        b1.components.render_pass.depth_format == b2.components.render_pass.depth_format,
{
}

/// Round trip of the requested extent: the extent a built bundle reports
/// — on its swapchain and on every framebuffer — is the requested extent
/// clamped to the surface's bounds, and is the requested extent itself
/// exactly when that was already within bounds.
pub proof fn lemma_extent_round_trip(
    b: SwapchainBundle,
    caps: SurfaceCapabilities,
    requested: Extent2d,
    image_count: u32,
    previous: Option<u64>,
    pool: ResourcePool,
)
    requires
        b.built_from(caps, requested, image_count, previous, pool),
    ensures
        b.swapchain.extent == clamped_extent(requested, caps),
        forall|i: int|
            0 <= i < b.components.framebuffers.len()
                ==> b.components.framebuffers[i].extent == clamped_extent(requested, caps),
        caps.min_extent.width <= requested.width <= caps.max_extent.width
            && caps.min_extent.height <= requested.height <= caps.max_extent.height
            ==> b.swapchain.extent == requested,
{
}

/// Every object of a well-laid-out bundle is its own: the swapchain, the
/// depth resources, the render pass, the pipeline, and every view,
/// framebuffer and command buffer carry pairwise-distinct handles — no
/// aliasing, so tearing the bundle down frees each object exactly once.
pub proof fn lemma_bundle_handles_distinct(b: SwapchainBundle, i: int, j: int)
    requires
        b.wf(),
        b.handle_layout(),
        0 <= i < b.swapchain.image_count,
        0 <= j < b.swapchain.image_count,
    ensures
        i != j ==> b.components.image_views[i].handle != b.components.image_views[j].handle,
        i != j ==> b.components.framebuffers[i].handle != b.components.framebuffers[j].handle,
        i != j ==> b.command_buffers[i].handle != b.command_buffers[j].handle,
        b.components.image_views[i].handle != b.components.framebuffers[j].handle,
        b.components.image_views[i].handle != b.command_buffers[j].handle,
        b.components.framebuffers[i].handle != b.command_buffers[j].handle,
        b.command_buffers[i].handle != b.swapchain.handle,
        b.command_buffers[i].handle != b.depth.image,
        b.command_buffers[i].handle != b.depth.memory,
        b.command_buffers[i].handle != b.depth.view,
        b.command_buffers[i].handle != b.components.render_pass.handle,
        b.command_buffers[i].handle != b.components.graphics_pipeline.handle,
{
}

} // verus!
