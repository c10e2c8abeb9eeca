//! The camera: a pose, and a perspective projection that is built when it is
//! first asked for.

use crate::algebra::{is_functional, Arithmetic, Matrix4, Scalar, Vector3};
use crate::spatial::{is_model_matrix, Spatial, SpatialView};
use vstd::prelude::*;

verus! {

/// The bit pattern of the distance of the near clipping plane, one tenth.
pub const NEAR_BITS: u32 = 0x3DCC_CCCD;

/// The bit pattern of the distance of the far clipping plane, 4096.
pub const FAR_BITS: u32 = 0x4580_0000;

pub open spec fn spec_near() -> Scalar {
    Scalar { bits: NEAR_BITS }
}

pub open spec fn spec_far() -> Scalar {
    Scalar { bits: FAR_BITS }
}

/// The distance of the near clipping plane.
#[verifier::when_used_as_spec(spec_near)]
pub fn near() -> (distance: Scalar)
    ensures
        distance == spec_near(),
{
    Scalar { bits: NEAR_BITS }
}

/// The distance of the far clipping plane.
#[verifier::when_used_as_spec(spec_far)]
pub fn far() -> (distance: Scalar)
    ensures
        distance == spec_far(),
{
    Scalar { bits: FAR_BITS }
}

/// A pose with the parameters of a perspective projection.
///
/// Two matrices are kept, each with a flag of its own: the model matrix of
/// the pose, which the pose's setters mark as stale, and the projection, which
/// is stale until it is first read and never again, since its parameters are
/// fixed when the camera is made. The view matrix is the inverse of the model
/// matrix and is taken from it at each read.
pub struct Camera {
    spatial: Spatial,
    aspect_ratio: Scalar,
    vfov: Scalar,
    mat_projection: Matrix4,
    mat_projection_dirty: bool,
}

/// What a [`Camera`] holds.
pub struct CameraView {
    pub spatial: SpatialView,
    pub aspect_ratio: Scalar,
    pub vfov: Scalar,
    /// The projection that was built last.
    pub projection: Matrix4,
    /// Whether `projection` has yet to be built.
    pub projection_dirty: bool,
}

impl View for Camera {
    type V = CameraView;

    closed spec fn view(&self) -> CameraView {
        CameraView {
            spatial: self.spatial@,
            aspect_ratio: self.aspect_ratio,
            vfov: self.vfov,
            projection: self.mat_projection,
            projection_dirty: self.mat_projection_dirty,
        }
    }
}

/// `matrix` is the perspective projection for the given aspect ratio and
/// vertical field of view, between the planes at [`near`] and [`far`].
pub open spec fn is_projection<A: Arithmetic>(
    arithmetic: &A,
    aspect_ratio: Scalar,
    vfov: Scalar,
    matrix: Matrix4,
) -> bool {
    call_ensures(A::perspective, (arithmetic, aspect_ratio, vfov, near(), far()), matrix)
}

/// `combined` is what the renderer gets for a projection and a model matrix:
/// the projection times the inverse of the model matrix or, where the model
/// matrix has no inverse, the projection alone.
pub open spec fn is_combined<A: Arithmetic>(
    arithmetic: &A,
    projection: Matrix4,
    model: Matrix4,
    combined: Matrix4,
) -> bool {
    exists|view: Option<Matrix4>| #[trigger]
        call_ensures(A::try_inverse, (arithmetic, &model), view) && match view {
            Some(inverse) => call_ensures(
                A::multiply,
                (arithmetic, &projection, &inverse),
                combined,
            ),
            None => combined == projection,
        }
}

impl CameraView {
    /// A camera at the origin with no rotation, whose model matrix is the
    /// identity and is not stale, and whose projection has yet to be built.
    pub open spec fn fresh(aspect_ratio: Scalar, vfov: Scalar) -> CameraView {
        CameraView {
            spatial: SpatialView::fresh(),
            aspect_ratio,
            vfov,
            projection: Matrix4::identity(),
            projection_dirty: true,
        }
    }

    /// After the pose was replaced by `spatial`: the projection and its flag
    /// are untouched.
    pub open spec fn with_spatial(self, spatial: SpatialView) -> CameraView {
        CameraView { spatial, ..self }
    }

    /// After the projection was read, where a rebuild would give `rebuilt`: a
    /// stale projection is replaced by `rebuilt`, one that is not stale
    /// stays. The pose and its matrix are untouched.
    pub open spec fn read_projection(self, rebuilt: Matrix4) -> CameraView {
        if self.projection_dirty {
            CameraView { projection: rebuilt, projection_dirty: false, ..self }
        } else {
            self
        }
    }

    /// Whether each matrix that is not stale is the one that belongs to what
    /// it was built from.
    pub open spec fn is_consistent<A: Arithmetic>(self, arithmetic: &A) -> bool {
        &&& self.spatial.is_consistent(arithmetic)
        &&& !self.projection_dirty ==> is_projection(
            arithmetic,
            self.aspect_ratio,
            self.vfov,
            self.projection,
        )
    }
}

impl Camera {
    /// A camera at the origin with no rotation. Its model matrix is the
    /// identity and is not stale; its projection has yet to be built.
    pub fn new(aspect_ratio: Scalar, vfov: Scalar) -> (camera: Camera)
        ensures
            camera@ == CameraView::fresh(aspect_ratio, vfov),
    {
        let spatial = Spatial::new();
        let mat_projection = Matrix4::identity();
        Camera { spatial, aspect_ratio, vfov, mat_projection, mat_projection_dirty: true }
    }

    /// The pose of the camera.
    pub fn borrow_spatial(&self) -> (spatial: &Spatial)
        ensures
            spatial@ == self@.spatial,
    {
        &self.spatial
    }

    /// The pose of the camera, to be changed. Whatever is done to it, the
    /// projection and its flag stay as they are.
    pub fn borrow_spatial_mut(&mut self) -> (spatial: &mut Spatial)
        ensures
            spatial@ == old(self)@.spatial,
            final(self)@ == old(self)@.with_spatial(final(spatial)@),
    {
        &mut self.spatial
    }

    /// Replaces the translation and marks the model matrix as stale. The
    /// projection and its flag stay as they are.
    pub fn set_translation(&mut self, translation: &Vector3)
        ensures
            final(self)@ == old(self)@.with_spatial(
                old(self)@.spatial.with_translation(*translation),
            ),
    {
        self.spatial.set_translation(translation);
    }

    /// Replaces the rotation and marks the model matrix as stale. The
    /// projection and its flag stay as they are.
    pub fn set_rotation(&mut self, rotation: &Vector3)
        ensures
            final(self)@ == old(self)@.with_spatial(old(self)@.spatial.with_rotation(*rotation)),
    {
        self.spatial.set_rotation(rotation);
    }

    /// The projection. It is built at the first read and handed out as it is
    /// from then on, without asking `arithmetic`.
    pub fn get_projection<A: Arithmetic>(&mut self, arithmetic: &A) -> (projection: &Matrix4)
        ensures
            final(self)@ == old(self)@.read_projection(*projection),
            *projection == final(self)@.projection,
            old(self)@.projection_dirty ==> is_projection(
                arithmetic,
                old(self)@.aspect_ratio,
                old(self)@.vfov,
                *projection,
            ),
            old(self)@.is_consistent(arithmetic) ==> final(self)@.is_consistent(arithmetic),
    {
        if self.mat_projection_dirty {
            self.rebuild_projection_mat(arithmetic);
            self.mat_projection_dirty = false;
        }
        &self.mat_projection
    }

    fn rebuild_projection_mat<A: Arithmetic>(&mut self, arithmetic: &A)
        ensures
            final(self)@ == (CameraView { projection: final(self)@.projection, ..old(self)@ }),
            is_projection(
                arithmetic,
                old(self)@.aspect_ratio,
                old(self)@.vfov,
                final(self)@.projection,
            ),
    {
        self.mat_projection = arithmetic.perspective(self.aspect_ratio, self.vfov, near(), far());
    }

    /// The view matrix: the inverse of the camera's model matrix, or `None`
    /// where the model matrix has none. A stale model matrix is rebuilt first.
    pub fn get_view_matrix<A: Arithmetic>(&mut self, arithmetic: &A) -> (view: Option<Matrix4>)
        ensures
            final(self)@ == old(self)@.with_spatial(
                old(self)@.spatial.read(final(self)@.spatial.matrix),
            ),
            old(self)@.spatial.dirty ==> is_model_matrix(
                arithmetic,
                old(self)@.spatial.translation,
                old(self)@.spatial.rotation,
                final(self)@.spatial.matrix,
            ),
            call_ensures(A::try_inverse, (arithmetic, &final(self)@.spatial.matrix), view),
            old(self)@.is_consistent(arithmetic) ==> final(self)@.is_consistent(arithmetic),
    {
        let model = self.spatial.get_model_space_matrix(arithmetic);
        arithmetic.try_inverse(model)
    }

    /// The matrix that takes world coordinates to clip space: the projection
    /// times the view matrix. Where the model matrix has no inverse, the view
    /// is left out and the projection is handed out alone. Both matrices are
    /// rebuilt first where they are stale; the product is taken at each call.
    pub fn get_combined_matrix<A: Arithmetic>(&mut self, arithmetic: &A) -> (combined: Matrix4)
        ensures
            final(self)@ == old(self)@.read_projection(final(self)@.projection).with_spatial(
                old(self)@.spatial.read(final(self)@.spatial.matrix),
            ),
            old(self)@.projection_dirty ==> is_projection(
                arithmetic,
                old(self)@.aspect_ratio,
                old(self)@.vfov,
                final(self)@.projection,
            ),
            old(self)@.spatial.dirty ==> is_model_matrix(
                arithmetic,
                old(self)@.spatial.translation,
                old(self)@.spatial.rotation,
                final(self)@.spatial.matrix,
            ),
            is_combined(
                arithmetic,
                final(self)@.projection,
                final(self)@.spatial.matrix,
                combined,
            ),
            old(self)@.is_consistent(arithmetic) ==> final(self)@.is_consistent(arithmetic),
    {
        let projection = *self.get_projection(arithmetic);
        match self.get_view_matrix(arithmetic) {
            Some(view) => arithmetic.multiply(&projection, &view),
            None => projection,
        }
    }
}

/// The two matrices of a camera are kept apart. Setting the pose, by either
/// setter and whatever the value, leaves the projection and its flag as they
/// were; reading the projection leaves the pose, the model matrix and its
/// flag as they were; and the two reads may come in either order.
pub proof fn lemma_pose_and_projection_are_apart(
    camera: CameraView,
    value: Vector3,
    projection: Matrix4,
    model: Matrix4,
)
    ensures
        camera.with_spatial(camera.spatial.with_translation(value)).projection
            == camera.projection,
        camera.with_spatial(camera.spatial.with_translation(value)).projection_dirty
            == camera.projection_dirty,
        camera.with_spatial(camera.spatial.with_rotation(value)).projection == camera.projection,
        camera.with_spatial(camera.spatial.with_rotation(value)).projection_dirty
            == camera.projection_dirty,
        camera.with_spatial(camera.spatial.read(model)).projection == camera.projection,
        camera.with_spatial(camera.spatial.read(model)).projection_dirty
            == camera.projection_dirty,
        camera.read_projection(projection).spatial == camera.spatial,
        camera.read_projection(projection).with_spatial(camera.spatial.read(model))
            == camera.with_spatial(camera.spatial.read(model)).read_projection(projection),
{
}

/// The projection is built once. After the first read it is not stale, and
/// every further read hands out that same matrix, whatever was done to the
/// pose in between and whatever a rebuild would give by then.
pub proof fn lemma_projection_is_built_once(
    camera: CameraView,
    spatial: SpatialView,
    first: Matrix4,
    second: Matrix4,
)
    ensures
        !camera.read_projection(first).projection_dirty,
        camera.read_projection(first).with_spatial(spatial).read_projection(second).projection
            == camera.read_projection(first).projection,
        camera.projection_dirty ==> camera.read_projection(first).projection == first,
{
}

/// Where the arithmetic is a function of its operands, the projection
/// depends on the aspect ratio and the field of view alone.
pub proof fn lemma_projection_depends_on_parameters<A: Arithmetic>(
    arithmetic: &A,
    aspect_ratio: Scalar,
    vfov: Scalar,
    first: Matrix4,
    second: Matrix4,
)
    requires
        is_functional(arithmetic),
        is_projection(arithmetic, aspect_ratio, vfov, first),
        is_projection(arithmetic, aspect_ratio, vfov, second),
    ensures
        first == second,
{
}

} // verus!
