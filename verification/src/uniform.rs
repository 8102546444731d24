//! The per-frame uniform data, reduced to what drives it: the scene's
//! model transform is a pure rotation about one fixed axis whose angle
//! grows with elapsed wall-clock time at one radian per second, and the
//! view and projection are recomputed every frame from the current
//! extent's aspect ratio.  The shell turns this into the three matrices
//! the vertex shader reads.

use vstd::prelude::*;

use crate::surface::Extent2d;

verus! {

/// The rotation angle, in nano-radians, after `elapsed_nanos` nanoseconds:
/// one radian per second of wall-clock time.
pub open spec fn model_angle_nanorad(elapsed_nanos: u64) -> u64 {
    elapsed_nanos
}

/// What the engine writes into the uniform buffer each frame, before the
/// matrices are formed: the model rotation angle and the extent whose
/// aspect ratio shapes the projection (with its Y axis flipped to the
/// API's clip-space convention).
#[derive(Clone, Copy, PartialEq, Eq, Structural, Debug)]
pub struct UniformBufferObject {
    pub model_angle_nanorad: u64,
    pub extent: Extent2d,
}

/// Computes the frame's uniform data from the elapsed time and the
/// current swapchain extent.
pub fn update_uniform(elapsed_nanos: u64, extent: Extent2d) -> (u: UniformBufferObject)
    ensures
        u.model_angle_nanorad == model_angle_nanorad(elapsed_nanos),
        u.extent == extent,
{
    UniformBufferObject { model_angle_nanorad: elapsed_nanos, extent }
}

/// The model rotation's angle strictly increases with elapsed time: for
/// any two sample times, the later frame shows the larger angle about
/// the same fixed axis.
pub proof fn lemma_model_angle_strictly_increases(t1: u64, t2: u64)
    requires
        t1 < t2,
    ensures
        model_angle_nanorad(t1) < model_angle_nanorad(t2),
{
}

} // verus!
