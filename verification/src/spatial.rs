//! A pose, and the model matrix that is rebuilt from it when it is asked for.

use crate::algebra::{is_functional, Arithmetic, Axis, Matrix4, Scalar, Vector3};
use vstd::prelude::*;

verus! {

/// A position and an orientation, with the model matrix last built from them.
///
/// The orientation is three Euler angles in degrees, one for each axis. The
/// setters only mark the matrix as stale; it is rebuilt by the next
/// [`Spatial::get_model_space_matrix`].
pub struct Spatial {
    translation: Vector3,
    rotation: Vector3,
    model_space_matrix: Matrix4,
    model_space_matrix_dirty: bool,
}

/// What a [`Spatial`] holds.
pub struct SpatialView {
    pub translation: Vector3,
    pub rotation: Vector3,
    /// The matrix that was built last.
    pub matrix: Matrix4,
    /// Whether the pose has been set since `matrix` was built.
    pub dirty: bool,
}

impl View for Spatial {
    type V = SpatialView;

    closed spec fn view(&self) -> SpatialView {
        SpatialView {
            translation: self.translation,
            rotation: self.rotation,
            matrix: self.model_space_matrix,
            dirty: self.model_space_matrix_dirty,
        }
    }
}

/// `matrix` is the rotation about `axis` against an angle of `degrees`: the
/// angle was converted to radians, then negated, then made into a rotation.
pub open spec fn is_axis_rotation<A: Arithmetic>(
    arithmetic: &A,
    axis: Axis,
    degrees: Scalar,
    matrix: Matrix4,
) -> bool {
    exists|radians: Scalar, angle: Scalar|
        call_ensures(A::to_radians, (arithmetic, degrees), radians)
            && #[trigger] call_ensures(A::negate, (arithmetic, radians), angle)
            && call_ensures(A::rotation, (arithmetic, axis, angle), matrix)
}

/// `matrix` is the model matrix of the pose: with `Rx`, `Ry` and `Rz` the
/// rotations against the three angles and `T` the translation, it is the
/// product `I * Rz * Rx * Ry * T`, multiplied from the left to the right.
pub open spec fn is_model_matrix<A: Arithmetic>(
    arithmetic: &A,
    translation: Vector3,
    rotation: Vector3,
    matrix: Matrix4,
) -> bool {
    exists|rx: Matrix4, ry: Matrix4, rz: Matrix4, t: Matrix4, m1: Matrix4, m2: Matrix4, m3: Matrix4|
        is_axis_rotation(arithmetic, Axis::X, rotation.x, rx)
            && is_axis_rotation(arithmetic, Axis::Y, rotation.y, ry)
            && is_axis_rotation(arithmetic, Axis::Z, rotation.z, rz)
            && call_ensures(A::translation, (arithmetic, &translation), t)
            && #[trigger] call_ensures(A::multiply, (arithmetic, &Matrix4::identity(), &rz), m1)
            && #[trigger] call_ensures(A::multiply, (arithmetic, &m1, &rx), m2)
            && #[trigger] call_ensures(A::multiply, (arithmetic, &m2, &ry), m3)
            && #[trigger] call_ensures(A::multiply, (arithmetic, &m3, &t), matrix)
}

impl SpatialView {
    /// A pose at the origin that looks along the axes, with the identity as
    /// its matrix, which is not stale.
    pub open spec fn fresh() -> SpatialView {
        SpatialView {
            translation: Vector3::zero(),
            rotation: Vector3::zero(),
            matrix: Matrix4::identity(),
            dirty: false,
        }
    }

    /// After the translation was set: the matrix is stale and otherwise
    /// untouched.
    pub open spec fn with_translation(self, translation: Vector3) -> SpatialView {
        SpatialView { translation, dirty: true, ..self }
    }

    /// After the rotation was set: the matrix is stale and otherwise untouched.
    pub open spec fn with_rotation(self, rotation: Vector3) -> SpatialView {
        SpatialView { rotation, dirty: true, ..self }
    }

    /// After the matrix was read, where a rebuild would give `rebuilt`: a
    /// stale matrix is replaced by `rebuilt`, one that is not stale stays.
    pub open spec fn read(self, rebuilt: Matrix4) -> SpatialView {
        if self.dirty {
            SpatialView { matrix: rebuilt, dirty: false, ..self }
        } else {
            self
        }
    }

    /// Whether a matrix that is not stale is the one that belongs to the
    /// pose: the model matrix that `arithmetic` gave for it or, for a pose
    /// that was never set, the identity.
    pub open spec fn is_consistent<A: Arithmetic>(self, arithmetic: &A) -> bool {
        !self.dirty ==> self == SpatialView::fresh() || is_model_matrix(
            arithmetic,
            self.translation,
            self.rotation,
            self.matrix,
        )
    }
}

/// The rotation about `axis` against an angle of `degrees`.
fn axis_rotation<A: Arithmetic>(arithmetic: &A, axis: Axis, degrees: Scalar) -> (matrix: Matrix4)
    ensures
        is_axis_rotation(arithmetic, axis, degrees, matrix),
{
    let radians = arithmetic.to_radians(degrees);
    let angle = arithmetic.negate(radians);
    arithmetic.rotation(axis, angle)
}

impl Spatial {
    /// A pose at the origin with no rotation. Its matrix is the identity and
    /// is not stale.
    pub fn new() -> (spatial: Spatial)
        ensures
            spatial@ == SpatialView::fresh(),
    {
        let translation = Vector3::zero();
        let rotation = Vector3::zero();
        let model_space_matrix = Matrix4::identity();
        let model_space_matrix_dirty = false;
        Spatial { translation, rotation, model_space_matrix, model_space_matrix_dirty }
    }

    /// The translation that was set last.
    pub fn get_translation(&self) -> (translation: &Vector3)
        ensures
            *translation == self@.translation,
    {
        &self.translation
    }

    /// The rotation that was set last.
    pub fn get_rotation(&self) -> (rotation: &Vector3)
        ensures
            *rotation == self@.rotation,
    {
        &self.rotation
    }

    /// The model matrix of the pose. A stale matrix is rebuilt first, in the
    /// order that [`is_model_matrix`] gives; one that is not stale is handed
    /// out as it is, and `arithmetic` is not asked.
    pub fn get_model_space_matrix<A: Arithmetic>(&mut self, arithmetic: &A) -> (matrix: &Matrix4)
        ensures
            final(self)@ == old(self)@.read(*matrix),
            *matrix == final(self)@.matrix,
            old(self)@.dirty ==> is_model_matrix(
                arithmetic,
                old(self)@.translation,
                old(self)@.rotation,
                *matrix,
            ),
            old(self)@.is_consistent(arithmetic) ==> final(self)@.is_consistent(arithmetic),
    {
        if self.model_space_matrix_dirty {
            let matrix_x_axis = axis_rotation(arithmetic, Axis::X, self.rotation.x);
            let matrix_y_axis = axis_rotation(arithmetic, Axis::Y, self.rotation.y);
            let matrix_z_axis = axis_rotation(arithmetic, Axis::Z, self.rotation.z);

            let matrix_translation = arithmetic.translation(&self.translation);

            self.model_space_matrix = Matrix4::identity();

            // Roll, then pitch, then yaw: the order that a first-person view
            // expects. The translation comes last.
            self.model_space_matrix = arithmetic.multiply(&self.model_space_matrix, &matrix_z_axis);
            self.model_space_matrix = arithmetic.multiply(&self.model_space_matrix, &matrix_x_axis);
            self.model_space_matrix = arithmetic.multiply(&self.model_space_matrix, &matrix_y_axis);
            self.model_space_matrix = arithmetic.multiply(&self.model_space_matrix, &matrix_translation);

            self.model_space_matrix_dirty = false;
        }
        &self.model_space_matrix
    }

    /// Replaces the translation and marks the matrix as stale.
    pub fn set_translation(&mut self, translation: &Vector3)
        ensures
            final(self)@ == old(self)@.with_translation(*translation),
    {
        self.translation = *translation;
        self.model_space_matrix_dirty = true;
    }

    /// Replaces the rotation and marks the matrix as stale.
    pub fn set_rotation(&mut self, rotation: &Vector3)
        ensures
            final(self)@ == old(self)@.with_rotation(*rotation),
    {
        self.rotation = *rotation;
        self.model_space_matrix_dirty = true;
    }
}

/// A read settles the cache. After a setter and one read the matrix is not
/// stale and is the one that this read rebuilt. Every further read hands out
/// that same matrix and changes nothing, whatever a rebuild would give by
/// then: the matrix is rebuilt once and not again until a setter is called.
pub proof fn lemma_read_settles_cache(
    spatial: SpatialView,
    value: Vector3,
    first: Matrix4,
    second: Matrix4,
)
    ensures
        !spatial.read(first).dirty,
        spatial.read(first).read(second) == spatial.read(first),
        spatial.with_translation(value).read(first).matrix == first,
        spatial.with_translation(value).read(first).read(second).matrix == first,
        spatial.with_rotation(value).read(first).matrix == first,
        spatial.with_rotation(value).read(first).read(second).matrix == first,
{
}

/// A setter marks the matrix as stale whatever it is given, so a pose that is
/// set again to the value it has is rebuilt by the next read. Where the
/// arithmetic is a function of its operands, that read gives the matrix that
/// was there before: the model matrix depends on the pose alone.
pub proof fn lemma_model_matrix_depends_on_pose<A: Arithmetic>(
    arithmetic: &A,
    translation: Vector3,
    rotation: Vector3,
    first: Matrix4,
    second: Matrix4,
)
    requires
        is_functional(arithmetic),
        is_model_matrix(arithmetic, translation, rotation, first),
        is_model_matrix(arithmetic, translation, rotation, second),
    ensures
        first == second,
{
}

} // verus!
