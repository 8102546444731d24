//! The presenter: the façade that owns the resource pool, the swapchain
//! bundle and the semaphore pair, and decides each frame what the shell
//! should do on the device — which command buffer to submit for an
//! acquired image, which semaphores order the submission, and when the
//! bundle must be torn down and rebuilt because the surface went stale.
//!
//! The shell performs the device calls and hands their outcomes back;
//! every decision in between is made, and proved, here.

use vstd::prelude::*;

use crate::bundle::SwapchainBundle;
use crate::handles::HandleMint;
use crate::pool::{MeshData, ResourceCreationError, ResourcePool, ShaderCode, pool_build_error};
use crate::surface::{Extent2d, SurfaceCapabilities};

verus! {

/// A version triple of the application or of the API it targets.
#[derive(Clone, Copy, PartialEq, Eq, Structural, Debug)]
pub struct Version {
    pub major: u32,
    pub minor: u32,
    pub patch: u32,
}

/// The configuration the presenter is constructed with — an explicit
/// value, not process-wide state.
#[derive(Clone, PartialEq, Eq, Debug)]
pub struct AppConfig {
    pub name: String,
    pub application_version: Version,
    pub api_version: Version,
}

/// The one semaphore pair ordering every frame: `image_available` is
/// signaled when the acquired image may be rendered into, and
/// `render_finished` when the submitted commands are done.  One pair per
/// presenter — not per image — which bounds the frames in flight to one.
#[derive(Clone, Copy, PartialEq, Eq, Structural, Debug)]
pub struct FrameSynchronizer {
    pub image_available: u64,
    pub render_finished: u64,
}

/// Whether the presenter currently holds a bundle.  The bundle is absent
/// only in the middle of a rebuild; a lifecycle state of its own rather
/// than an optional field doing double duty as a flag.
#[derive(Clone, PartialEq, Eq, Debug)]
pub enum BundleState {
    Absent,
    Present(SwapchainBundle),
}

/// What the driver reported for an image acquisition.  A suboptimal
/// acquire still yields a usable image and is treated as success, as the
/// drawing protocol requires the acquired image to be consumed.
#[derive(Clone, Copy, PartialEq, Eq, Structural, Debug)]
pub enum AcquireOutcome {
    /// The image at this index is acquired; `image_available` will be
    /// signaled when it is ready.
    Image(u32),
    /// The swapchain no longer matches the surface; nothing was acquired.
    OutOfDate,
}

/// What the driver reported for a presentation.
#[derive(Clone, Copy, PartialEq, Eq, Structural, Debug)]
pub enum PresentOutcome {
    Presented,
    Suboptimal,
    OutOfDate,
}

/// The pipeline stage a submission waits at for the acquired image.
#[derive(Clone, Copy, PartialEq, Eq, Structural, Debug)]
pub enum PipelineStage {
    TopOfPipe,
    ColorAttachmentOutput,
    BottomOfPipe,
}

/// One frame's marching orders: submit `command_buffer`, waiting for
/// `wait_semaphore` at `wait_stage` and signaling `signal_semaphore`;
/// then present image `image_index` of `swapchain`, waiting for
/// `signal_semaphore`; then drain the queue, so at most one frame is
/// ever in flight.
#[derive(Clone, Copy, PartialEq, Eq, Structural, Debug)]
pub struct FramePlan {
    pub wait_semaphore: u64,
    pub wait_stage: PipelineStage,
    pub command_buffer: u64,
    pub signal_semaphore: u64,
    pub swapchain: u64,
    pub image_index: u32,
}

/// What the shell must do after asking the presenter about a frame.
#[derive(Clone, Copy, PartialEq, Eq, Structural, Debug)]
pub enum DrawAction {
    /// Render: perform the plan's submission and presentation.
    Render(FramePlan),
    /// The surface is stale: render nothing, rebuild the bundle before
    /// the next frame.
    Rebuild,
}

/// What one loop iteration does, decided from the pumped events and the
/// presenter's staleness.
#[derive(Clone, Copy, PartialEq, Eq, Structural, Debug)]
pub enum LoopStep {
    /// Leave the loop; the application is done.
    Exit,
    /// Rebuild the bundle at the current surface extent; render no frame
    /// this iteration.
    Rebuild,
    /// Update the uniform data and draw a frame.
    Render,
}

/// The presenter: pool, bundle, semaphore pair, the handle mint they all
/// draw from, and the staleness flag the drawing protocol sets.
#[derive(Clone, PartialEq, Eq, Debug)]
pub struct Presenter {
    pub config: AppConfig,
    pub pool: ResourcePool,
    pub sync: FrameSynchronizer,
    pub bundle: BundleState,
    pub mint: HandleMint,
    pub stale: bool,
}

impl Presenter {
    /// The presenter's invariant: a well-formed pool, distinct
    /// semaphores, and — whenever a bundle is held — a well-formed
    /// bundle whose command buffers draw this pool's mesh, whose handles
    /// sit at their fixed offsets, and all of whose handles were minted
    /// (nonzero and below the mint's next value, so anything minted
    /// later is a genuinely new object).
    pub open spec fn wf(self) -> bool {
        &&& self.pool.wf()
        &&& self.sync.image_available != self.sync.render_finished
        &&& 1 <= self.mint.next
        &&& match self.bundle {
            BundleState::Present(b) => {
                &&& b.wf()
                &&& b.handle_layout()
                &&& 1 <= b.swapchain.handle
                &&& b.swapchain.handle + SwapchainBundle::build_handle_cost(
                    b.swapchain.image_count,
                ) <= self.mint.next
                &&& forall|i: int|
                    0 <= i < b.command_buffers.len()
                        ==> {
                            &&& b.command_buffers[i].vertex_buffer == self.pool.vertex_buffer
                            &&& b.command_buffers[i].index_buffer == self.pool.index_buffer
                            &&& b.command_buffers[i].descriptor_set == self.pool.descriptor_set
                            &&& b.command_buffers[i].index_count == self.pool.index_count
                        }
            },
            BundleState::Absent => true,
        }
    }

    /// Whether a bundle is currently held.
    pub open spec fn has_bundle(self) -> bool {
        self.bundle is Present
    }

    /// The held bundle.
    pub open spec fn bundle_of(self) -> SwapchainBundle
        recommends
            self.has_bundle(),
    {
        self.bundle->Present_0
    }

    /// Constructs the presenter: builds the resource pool from the
    /// shader bytecode and the mesh, creates the semaphore pair once,
    /// and builds the first bundle at the requested extent, shaped by
    /// the image count the driver actually created for the swapchain.
    /// Fails exactly when the pool's inputs are invalid; such a failure
    /// is fatal and nothing survives it.
    pub fn new(
        config: AppConfig,
        caps: &SurfaceCapabilities,
        requested_extent: Extent2d,
        driver_image_count: u32,
        vert_shader: ShaderCode,
        frag_shader: ShaderCode,
        mesh: &MeshData,
    ) -> (r: Result<Presenter, ResourceCreationError>)
        requires
            caps.wf(),
            driver_image_count >= crate::surface::chosen_image_count(*caps),
        ensures
            match r {
                Ok(p) => {
                    &&& pool_build_error(vert_shader, frag_shader, *mesh) is None
                    &&& p.wf()
                    &&& p.has_bundle()
                    &&& p.bundle_of().built_from(
                        *caps,
                        requested_extent,
                        driver_image_count,
                        None,
                        p.pool,
                    )
                    &&& !p.stale
                    &&& p.config == config
                    &&& p.pool.vert_shader == vert_shader
                    &&& p.pool.frag_shader == frag_shader
                    &&& p.pool.vertex_count == mesh.vertex_count
                    &&& p.pool.index_count == mesh.indices.len()
                    &&& p.mint.next == 1 + crate::pool::POOL_HANDLE_COUNT + 2
                        + SwapchainBundle::build_handle_cost(driver_image_count)
                },
                Err(e) => pool_build_error(vert_shader, frag_shader, *mesh) == Some(e),
            },
    {
        let mut mint = HandleMint::new();
        let pool = match ResourcePool::build(vert_shader, frag_shader, mesh, &mut mint) {
            Ok(pool) => pool,
            Err(e) => {
                return Err(e);
            },
        };
        let image_available = mint.fresh();
        let render_finished = mint.fresh();
        let sync = FrameSynchronizer { image_available, render_finished };
        let bundle = SwapchainBundle::build(
            caps,
            requested_extent,
            driver_image_count,
            None,
            &pool,
            &mut mint,
        );
        Ok(
            Presenter {
                config,
                pool,
                sync,
                bundle: BundleState::Present(bundle),
                mint,
                stale: false,
            },
        )
    }

    /// The extent the current bundle was built at.
    pub fn extent(&self) -> (e: Extent2d)
        requires
            self.has_bundle(),
        ensures
            e == self.bundle_of().swapchain.extent,
    {
        match &self.bundle {
            BundleState::Present(b) => b.swapchain.extent,
            BundleState::Absent => unreached(),
        }
    }

    /// How many images the current bundle cycles through; acquire
    /// outcomes must index below this.
    pub fn image_count(&self) -> (n: u32)
        requires
            self.has_bundle(),
        ensures
            n == self.bundle_of().image_count(),
    {
        match &self.bundle {
            BundleState::Present(b) => b.swapchain.image_count,
            BundleState::Absent => unreached(),
        }
    }

    /// Whether the drawing protocol has flagged the surface stale, so
    /// the bundle must be rebuilt before the next frame renders.
    pub fn needs_rebuild(&self) -> (r: bool)
        ensures
            r == self.stale,
    {
        self.stale
    }

    /// Whether a bundle is currently held; the shell checks this before
    /// asking for frames.
    pub fn is_ready(&self) -> (r: bool)
        ensures
            r == self.has_bundle(),
    {
        match &self.bundle {
            BundleState::Present(_) => true,
            BundleState::Absent => false,
        }
    }

    /// Drops the whole bundle, leaving the pool and semaphores alone.
    /// The shell must have idled the device first: nothing the bundle
    /// owns may still be executing.
    fn cleanup_swapchain(&mut self)
        ensures
            final(self).bundle is Absent,
            final(self).pool == old(self).pool,
            final(self).sync == old(self).sync,
            final(self).config == old(self).config,
            final(self).mint == old(self).mint,
            final(self).stale == old(self).stale,
    {
        self.bundle = BundleState::Absent;
    }

    /// How many fresh handles a rebuild for `image_count` images needs.
    pub open spec fn rebuild_handle_cost(image_count: u32) -> int {
        SwapchainBundle::build_handle_cost(image_count)
    }

    /// Tears the bundle down and rebuilds it at the requested extent,
    /// handing the old swapchain to the driver so it can reuse its
    /// resources; `driver_image_count` is the image count the driver
    /// actually populated the new swapchain with, and the new per-image
    /// arrays are sized by it.  The pool and the semaphore pair survive
    /// untouched; the staleness flag is cleared; the new swapchain is a
    /// genuinely new object, never the one it replaces.  No partial
    /// rebuild exists: the old bundle is gone as a whole before the new
    /// one is complete.
    pub fn recreate_swapchain(
        &mut self,
        caps: &SurfaceCapabilities,
        requested_extent: Extent2d,
        driver_image_count: u32,
    )
        requires
            old(self).wf(),
            caps.wf(),
            driver_image_count >= crate::surface::chosen_image_count(*caps),
            old(self).mint.next + Presenter::rebuild_handle_cost(driver_image_count) < u64::MAX,
        ensures
            final(self).wf(),
            final(self).has_bundle(),
            final(self).bundle_of().built_from(
                *caps,
                requested_extent,
                driver_image_count,
                match old(self).bundle {
                    BundleState::Present(b) => Some(b.swapchain.handle),
                    BundleState::Absent => None,
                },
                old(self).pool,
            ),
            final(self).bundle_of().swapchain.handle == old(self).mint.next,
            old(self).has_bundle()
                ==> final(self).bundle_of().swapchain.handle
                    != old(self).bundle_of().swapchain.handle,
            final(self).pool == old(self).pool,
            final(self).sync == old(self).sync,
            final(self).config == old(self).config,
            final(self).mint.next == old(self).mint.next + Presenter::rebuild_handle_cost(
                driver_image_count,
            ),
            !final(self).stale,
    {
        let previous = match &self.bundle {
            BundleState::Present(b) => Some(b.swapchain.handle),
            BundleState::Absent => None,
        };
        self.cleanup_swapchain();
        let bundle = SwapchainBundle::build(
            caps,
            requested_extent,
            driver_image_count,
            previous,
            &self.pool,
            &mut self.mint,
        );
        self.bundle = BundleState::Present(bundle);
        self.stale = false;
    }

    /// What `draw_frame` promises, as a relation between the presenter
    /// before and after one call with the given outcome and action.
    /// Nothing the presenter owns changes — not the pool, not the
    /// bundle, not the semaphores; only the staleness flag may move, and
    /// the action is determined by the outcome: a stale acquire orders a
    /// rebuild, an acquired image orders exactly the submission and
    /// presentation of that image's pre-recorded command buffer.
    pub open spec fn draw_frame_spec(
        pre: Presenter,
        post: Presenter,
        acquire: AcquireOutcome,
        action: DrawAction,
    ) -> bool {
        &&& post.config == pre.config
        &&& post.pool == pre.pool
        &&& post.sync == pre.sync
        &&& post.bundle == pre.bundle
        &&& post.mint == pre.mint
        &&& match acquire {
            AcquireOutcome::OutOfDate => {
                &&& action is Rebuild
                &&& post.stale
            },
            AcquireOutcome::Image(i) => {
                &&& post.stale == pre.stale
                &&& action == DrawAction::Render(
                    FramePlan {
                        wait_semaphore: pre.sync.image_available,
                        wait_stage: PipelineStage::ColorAttachmentOutput,
                        command_buffer: pre.bundle_of().command_buffers[i as int].handle,
                        signal_semaphore: pre.sync.render_finished,
                        swapchain: pre.bundle_of().swapchain.handle,
                        image_index: i,
                    },
                )
            },
        }
    }

    /// One `draw_frame` call relates two presenter states when some
    /// acquire outcome and action connect them.
    pub open spec fn draw_frame_step(pre: Presenter, post: Presenter) -> bool {
        exists|acquire: AcquireOutcome, action: DrawAction|
            #[trigger] Presenter::draw_frame_spec(pre, post, acquire, action)
    }

    /// One step of the drawing protocol, after the shell performed the
    /// acquire: decide whether to render this frame and with what.
    ///
    /// On an acquired image, the plan submits that image's pre-recorded
    /// command buffer, waiting for `image_available` at the
    /// color-attachment-output stage and signaling `render_finished`,
    /// then presents the image waiting on `render_finished`.  On an
    /// out-of-date acquire, nothing is submitted and nothing presented
    /// this frame; the presenter is marked stale and the caller's next
    /// iteration rebuilds.  Either way every object the presenter owns —
    /// pool, bundle, semaphores — is left exactly as it was.
    pub fn draw_frame(&mut self, acquire: AcquireOutcome) -> (action: DrawAction)
        requires
            old(self).wf(),
            old(self).has_bundle(),
            acquire matches AcquireOutcome::Image(i)
                ==> (i as int) < old(self).bundle_of().image_count(),
        ensures
            Presenter::draw_frame_spec(*old(self), *final(self), acquire, action),
            final(self).wf(),
    {
        match acquire {
            AcquireOutcome::OutOfDate => {
                self.stale = true;
                DrawAction::Rebuild
            },
            AcquireOutcome::Image(image_index) => {
                let command_buffer = match &self.bundle {
                    BundleState::Present(b) => b.command_buffers[image_index as usize].handle,
                    BundleState::Absent => unreached(),
                };
                let swapchain = match &self.bundle {
                    BundleState::Present(b) => b.swapchain.handle,
                    BundleState::Absent => unreached(),
                };
                DrawAction::Render(
                    FramePlan {
                        wait_semaphore: self.sync.image_available,
                        wait_stage: PipelineStage::ColorAttachmentOutput,
                        command_buffer,
                        signal_semaphore: self.sync.render_finished,
                        swapchain,
                        image_index,
                    },
                )
            },
        }
    }

    /// Notes what presentation reported, after the shell performed the
    /// plan.  A suboptimal or out-of-date present marks the presenter
    /// stale, so the next iteration rebuilds; a clean present changes
    /// nothing.  No owned object is touched either way.
    pub fn finish_frame(&mut self, outcome: PresentOutcome)
        ensures
            final(self).config == old(self).config,
            final(self).pool == old(self).pool,
            final(self).sync == old(self).sync,
            final(self).bundle == old(self).bundle,
            final(self).mint == old(self).mint,
            final(self).stale == (old(self).stale || !(outcome is Presented)),
    {
        match outcome {
            PresentOutcome::Presented => {},
            PresentOutcome::Suboptimal => {
                self.stale = true;
            },
            PresentOutcome::OutOfDate => {
                self.stale = true;
            },
        }
    }
}

/// Decides one loop iteration from the pumped events and the staleness
/// flag: exit when asked to; otherwise rebuild — and skip the frame —
/// when the surface went stale or the platform reported a resize; else
/// render.
pub fn plan_iteration(exit: bool, resized: bool, stale: bool) -> (s: LoopStep)
    ensures
        s == (if exit {
            LoopStep::Exit
        } else if stale || resized {
            LoopStep::Rebuild
        } else {
            LoopStep::Render
        }),
{
    if exit {
        LoopStep::Exit
    } else if stale || resized {
        LoopStep::Rebuild
    } else {
        LoopStep::Render
    }
}

/// Any run of `draw_frame` calls, however long and whatever each acquire
/// reported, leaves the swapchain bundle's identity — and the pool and
/// semaphores with it — exactly as it began: only a rebuild ever
/// replaces the bundle, and `draw_frame` never rebuilds.
///
/// `trace` is the sequence of presenter states, each consecutive pair
/// related by one `draw_frame` call.
pub proof fn lemma_draw_frames_preserve_bundle(trace: Seq<Presenter>)
    requires
        trace.len() >= 1,
        forall|k: int|
            0 <= k < trace.len() - 1
                ==> #[trigger] Presenter::draw_frame_step(trace[k], trace[k + 1]),
    ensures
        trace.last().bundle == trace.first().bundle,
        trace.last().pool == trace.first().pool,
        trace.last().sync == trace.first().sync,
    decreases trace.len(),
{
    if trace.len() > 1 {
        lemma_draw_frames_preserve_bundle(trace.drop_last());
        assert(Presenter::draw_frame_step(trace[trace.len() - 2], trace[trace.len() - 2 + 1]));
        let (acquire, action) = choose|acquire: AcquireOutcome, action: DrawAction|
            #[trigger] Presenter::draw_frame_spec(
                trace[trace.len() - 2],
                trace[trace.len() - 1],
                acquire,
                action,
            );
        assert(Presenter::draw_frame_spec(
            trace[trace.len() - 2],
            trace[trace.len() - 1],
            acquire,
            action,
        ));
        assert(trace.drop_last().last() == trace[trace.len() - 2]);
        assert(trace.drop_last().first() == trace.first());
    }
}

/// Two consecutive rendered frames with no rebuild between them use the
/// same graphics pipeline and the same render pass: the plans both draw
/// command buffers of one and the same bundle.
pub proof fn lemma_two_frames_same_pipeline(
    p0: Presenter,
    p1: Presenter,
    p2: Presenter,
    a1: AcquireOutcome,
    a2: AcquireOutcome,
    act1: DrawAction,
    act2: DrawAction,
)
    requires
        p0.has_bundle(),
        Presenter::draw_frame_spec(p0, p1, a1, act1),
        Presenter::draw_frame_spec(p1, p2, a2, act2),
    ensures
        p2.bundle == p0.bundle,
        p2.bundle_of().components.graphics_pipeline.handle
            == p0.bundle_of().components.graphics_pipeline.handle,
        p2.bundle_of().components.render_pass.handle
            == p0.bundle_of().components.render_pass.handle,
{
}

} // verus!
