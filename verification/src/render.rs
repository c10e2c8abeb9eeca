//! What the renderer works out for a frame: the matrix to draw with, and the
//! count of the frames drawn.

use crate::algebra::{Arithmetic, Matrix4, Scalar};
use crate::render_camera::{is_combined, is_projection, Camera, CameraView};
use crate::spatial::is_model_matrix;
use vstd::prelude::*;

verus! {

/// The bit pattern of the camera's vertical field of view, seventy.
pub const VFOV_BITS: u32 = 0x428C_0000;

pub open spec fn spec_vfov() -> Scalar {
    Scalar { bits: VFOV_BITS }
}

/// The camera's vertical field of view.
#[verifier::when_used_as_spec(spec_vfov)]
pub fn vfov() -> (angle: Scalar)
    ensures
        angle == spec_vfov(),
{
    Scalar { bits: VFOV_BITS }
}

/// The camera, and the frames counted so far: all of them, and those since
/// the count was last reported.
pub struct Renderer {
    pub camera: Camera,
    pub total_frames: i32,
    pub frame_count: i32,
}

/// What one frame is drawn with.
pub struct Frame {
    /// The matrix that takes world coordinates to clip space.
    pub transform: Matrix4,
    /// The number of frames since the last report, where one is due.
    pub frames_per_second: Option<i32>,
}

impl Renderer {
    /// A renderer for a viewport of the given size that has drawn nothing
    /// yet. The aspect ratio of its camera is the width over the height, the
    /// field of view is [`vfov`].
    pub fn init<A: Arithmetic>(arithmetic: &A, width: u32, height: u32) -> (renderer: Renderer)
        ensures
            call_ensures(A::ratio, (arithmetic, width, height), renderer.camera@.aspect_ratio),
            renderer.camera@ == CameraView::fresh(renderer.camera@.aspect_ratio, vfov()),
            renderer.total_frames == 0,
            renderer.frame_count == 0,
    {
        let aspect_ratio = arithmetic.ratio(width, height);
        let camera = Camera::new(aspect_ratio, vfov());
        Renderer { camera, total_frames: 0, frame_count: 0 }
    }

    /// One frame. The transform is the camera's combined matrix, for which
    /// the camera rebuilds what is stale. Where `second_elapsed` says that a
    /// second has gone by since the last report, the frames counted since
    /// then are reported and that count starts again; then this frame is
    /// counted.
    pub fn update<A: Arithmetic>(&mut self, arithmetic: &A, second_elapsed: bool) -> (frame: Frame)
        requires
            old(self).total_frames < i32::MAX,
            old(self).frame_count < i32::MAX,
        ensures
            final(self).camera@ == old(self).camera@.read_projection(
                final(self).camera@.projection,
            ).with_spatial(old(self).camera@.spatial.read(final(self).camera@.spatial.matrix)),
            old(self).camera@.projection_dirty ==> is_projection(
                arithmetic,
                old(self).camera@.aspect_ratio,
                old(self).camera@.vfov,
                final(self).camera@.projection,
            ),
            old(self).camera@.spatial.dirty ==> is_model_matrix(
                arithmetic,
                old(self).camera@.spatial.translation,
                old(self).camera@.spatial.rotation,
                final(self).camera@.spatial.matrix,
            ),
            is_combined(
                arithmetic,
                final(self).camera@.projection,
                final(self).camera@.spatial.matrix,
                frame.transform,
            ),
            old(self).camera@.is_consistent(arithmetic) ==> final(self).camera@.is_consistent(
                arithmetic,
            ),
            frame.frames_per_second == (if second_elapsed {
                Some(old(self).frame_count)
            } else {
                None
            }),
            final(self).frame_count == (if second_elapsed {
                1
            } else {
                old(self).frame_count + 1
            }),
            final(self).total_frames == old(self).total_frames + 1,
    {
        let transform = self.camera.get_combined_matrix(arithmetic);

        let mut frames_per_second = None;
        if second_elapsed {
            frames_per_second = Some(self.frame_count);
            self.frame_count = 0;
        }
        self.frame_count += 1;
        self.total_frames += 1;

        Frame { transform, frames_per_second }
    }
}

} // verus!
