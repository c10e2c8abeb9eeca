//! Single-precision values as this crate carries them, and the arithmetic it
//! asks its caller for.
//!
//! Every number is held as its IEEE 754 bit pattern. The crate stores such
//! values, hands them on and decides what is computed from what; it never
//! computes with them itself. Whatever is computed comes from an
//! [`Arithmetic`], and the contracts say which of its operations produced a
//! value, and from which operands.

use vstd::prelude::*;

verus! {

/// The bit pattern of zero.
pub const ZERO_BITS: u32 = 0x0000_0000;

/// The bit pattern of one.
pub const ONE_BITS: u32 = 0x3F80_0000;

/// The bit pattern of minus one.
pub const MINUS_ONE_BITS: u32 = 0xBF80_0000;

/// A single-precision number, held as its IEEE 754 bit pattern.
#[derive(Clone, Copy, Debug, PartialEq, Eq, Structural)]
pub struct Scalar {
    pub bits: u32,
}

impl Scalar {
    pub open spec fn spec_zero() -> Scalar {
        Scalar { bits: ZERO_BITS }
    }

    pub open spec fn spec_one() -> Scalar {
        Scalar { bits: ONE_BITS }
    }

    pub open spec fn spec_minus_one() -> Scalar {
        Scalar { bits: MINUS_ONE_BITS }
    }

    /// Positive zero.
    #[verifier::when_used_as_spec(spec_zero)]
    pub fn zero() -> (s: Scalar)
        ensures
            s == Scalar::spec_zero(),
    {
        Scalar { bits: ZERO_BITS }
    }

    /// One.
    #[verifier::when_used_as_spec(spec_one)]
    pub fn one() -> (s: Scalar)
        ensures
            s == Scalar::spec_one(),
    {
        Scalar { bits: ONE_BITS }
    }

    /// Minus one.
    #[verifier::when_used_as_spec(spec_minus_one)]
    pub fn minus_one() -> (s: Scalar)
        ensures
            s == Scalar::spec_minus_one(),
    {
        Scalar { bits: MINUS_ONE_BITS }
    }
}

/// A vector of three components.
#[derive(Clone, Copy, Debug, PartialEq, Eq, Structural)]
pub struct Vector3 {
    pub x: Scalar,
    pub y: Scalar,
    pub z: Scalar,
}

impl Vector3 {
    pub open spec fn spec_zero() -> Vector3 {
        Vector3 { x: Scalar::zero(), y: Scalar::zero(), z: Scalar::zero() }
    }

    /// The vector with the given components.
    pub fn new(x: Scalar, y: Scalar, z: Scalar) -> (v: Vector3)
        ensures
            v == (Vector3 { x, y, z }),
    {
        Vector3 { x, y, z }
    }

    /// The vector whose components are all positive zero.
    #[verifier::when_used_as_spec(spec_zero)]
    pub fn zero() -> (v: Vector3)
        ensures
            v == Vector3::spec_zero(),
    {
        Vector3 { x: Scalar::zero(), y: Scalar::zero(), z: Scalar::zero() }
    }
}

/// A vector of four components: one column of a [`Matrix4`].
#[derive(Clone, Copy, Debug, PartialEq, Eq, Structural)]
pub struct Vector4 {
    pub x: Scalar,
    pub y: Scalar,
    pub z: Scalar,
    pub w: Scalar,
}

/// A four by four matrix, held by its columns.
#[derive(Clone, Copy, Debug, PartialEq, Eq, Structural)]
pub struct Matrix4 {
    pub c0: Vector4,
    pub c1: Vector4,
    pub c2: Vector4,
    pub c3: Vector4,
}

impl Matrix4 {
    pub open spec fn spec_identity() -> Matrix4 {
        Matrix4 {
            c0: Vector4 { x: Scalar::one(), y: Scalar::zero(), z: Scalar::zero(), w: Scalar::zero() },
            c1: Vector4 { x: Scalar::zero(), y: Scalar::one(), z: Scalar::zero(), w: Scalar::zero() },
            c2: Vector4 { x: Scalar::zero(), y: Scalar::zero(), z: Scalar::one(), w: Scalar::zero() },
            c3: Vector4 { x: Scalar::zero(), y: Scalar::zero(), z: Scalar::zero(), w: Scalar::one() },
        }
    }

    /// The matrix with ones on its diagonal and positive zeros elsewhere.
    #[verifier::when_used_as_spec(spec_identity)]
    pub fn identity() -> (m: Matrix4)
        ensures
            m == Matrix4::spec_identity(),
    {
        let o = Scalar::one();
        let z = Scalar::zero();
        Matrix4 {
            c0: Vector4 { x: o, y: z, z: z, w: z },
            c1: Vector4 { x: z, y: o, z: z, w: z },
            c2: Vector4 { x: z, y: z, z: o, w: z },
            c3: Vector4 { x: z, y: z, z: z, w: o },
        }
    }
}

/// One of the three coordinate axes.
#[derive(Clone, Copy, Debug, PartialEq, Eq, Structural)]
pub enum Axis {
    X,
    Y,
    Z,
}

/// The single-precision operations that the transforms are built from.
///
/// The methods promise nothing: a contract of this crate that speaks of a
/// computed value says that a call of one of these methods, on stated
/// operands, returned it.
pub trait Arithmetic {
    /// An angle given in degrees, in radians.
    fn to_radians(&self, degrees: Scalar) -> Scalar;

    /// The number with the opposite sign.
    fn negate(&self, value: Scalar) -> Scalar;

    /// The quotient of two whole numbers.
    fn ratio(&self, numerator: u32, denominator: u32) -> Scalar;

    /// Whether `left` is greater than `right`.
    fn greater_than(&self, left: Scalar, right: Scalar) -> bool;

    /// The homogeneous matrix that turns by `radians` about `axis`.
    fn rotation(&self, axis: Axis, radians: Scalar) -> Matrix4;

    /// The homogeneous matrix that moves by `offset`.
    fn translation(&self, offset: &Vector3) -> Matrix4;

    /// The perspective projection with the given aspect ratio, vertical field
    /// of view and clipping planes.
    fn perspective(&self, aspect_ratio: Scalar, vfov: Scalar, near: Scalar, far: Scalar) -> Matrix4;

    /// The matrix product `left * right`.
    fn multiply(&self, left: &Matrix4, right: &Matrix4) -> Matrix4;

    /// The inverse of `matrix`, or `None` where it has none.
    fn try_inverse(&self, matrix: &Matrix4) -> Option<Matrix4>;

    /// `vector`, turned by `radians` about `axis`.
    fn rotate(&self, axis: Axis, radians: Scalar, vector: &Vector3) -> Vector3;

    /// The Euclidean length of `vector`.
    fn magnitude(&self, vector: &Vector3) -> Scalar;

    /// `vector`, scaled to unit length.
    fn normalize(&self, vector: &Vector3) -> Vector3;

    /// `vector`, each component multiplied by `factor`.
    fn scale(&self, vector: &Vector3, factor: Scalar) -> Vector3;

    /// The component-wise sum of `left` and `right`.
    fn sum(&self, left: &Vector3, right: &Vector3) -> Vector3;
}

/// Whether each operation of `arithmetic` is a function of its operands: two
/// calls on the same operands return the same value.
pub open spec fn is_functional<A: Arithmetic>(arithmetic: &A) -> bool {
    &&& forall|d: Scalar, r1: Scalar, r2: Scalar|
        call_ensures(A::to_radians, (arithmetic, d), r1) && call_ensures(
            A::to_radians,
            (arithmetic, d),
            r2,
        ) ==> r1 == r2
    &&& forall|v: Scalar, r1: Scalar, r2: Scalar|
        call_ensures(A::negate, (arithmetic, v), r1) && call_ensures(A::negate, (arithmetic, v), r2)
            ==> r1 == r2
    &&& forall|n: u32, d: u32, r1: Scalar, r2: Scalar|
        call_ensures(A::ratio, (arithmetic, n, d), r1) && call_ensures(
            A::ratio,
            (arithmetic, n, d),
            r2,
        ) ==> r1 == r2
    &&& forall|l: Scalar, r: Scalar, r1: bool, r2: bool|
        call_ensures(A::greater_than, (arithmetic, l, r), r1) && call_ensures(
            A::greater_than,
            (arithmetic, l, r),
            r2,
        ) ==> r1 == r2
    &&& forall|x: Axis, v: Scalar, r1: Matrix4, r2: Matrix4|
        call_ensures(A::rotation, (arithmetic, x, v), r1) && call_ensures(
            A::rotation,
            (arithmetic, x, v),
            r2,
        ) ==> r1 == r2
    &&& forall|o: Vector3, r1: Matrix4, r2: Matrix4|
        call_ensures(A::translation, (arithmetic, &o), r1) && call_ensures(
            A::translation,
            (arithmetic, &o),
            r2,
        ) ==> r1 == r2
    &&& forall|a: Scalar, f: Scalar, n: Scalar, z: Scalar, r1: Matrix4, r2: Matrix4|
        call_ensures(A::perspective, (arithmetic, a, f, n, z), r1) && call_ensures(
            A::perspective,
            (arithmetic, a, f, n, z),
            r2,
        ) ==> r1 == r2
    &&& forall|l: Matrix4, r: Matrix4, r1: Matrix4, r2: Matrix4|
        call_ensures(A::multiply, (arithmetic, &l, &r), r1) && call_ensures(
            A::multiply,
            (arithmetic, &l, &r),
            r2,
        ) ==> r1 == r2
    &&& forall|m: Matrix4, r1: Option<Matrix4>, r2: Option<Matrix4>|
        call_ensures(A::try_inverse, (arithmetic, &m), r1) && call_ensures(
            A::try_inverse,
            (arithmetic, &m),
            r2,
        ) ==> r1 == r2
    &&& forall|x: Axis, a: Scalar, v: Vector3, r1: Vector3, r2: Vector3|
        call_ensures(A::rotate, (arithmetic, x, a, &v), r1) && call_ensures(
            A::rotate,
            (arithmetic, x, a, &v),
            r2,
        ) ==> r1 == r2
    &&& forall|v: Vector3, r1: Scalar, r2: Scalar|
        call_ensures(A::magnitude, (arithmetic, &v), r1) && call_ensures(
            A::magnitude,
            (arithmetic, &v),
            r2,
        ) ==> r1 == r2
    &&& forall|v: Vector3, r1: Vector3, r2: Vector3|
        call_ensures(A::normalize, (arithmetic, &v), r1) && call_ensures(
            A::normalize,
            (arithmetic, &v),
            r2,
        ) ==> r1 == r2
    &&& forall|v: Vector3, f: Scalar, r1: Vector3, r2: Vector3|
        call_ensures(A::scale, (arithmetic, &v, f), r1) && call_ensures(
            A::scale,
            (arithmetic, &v, f),
            r2,
        ) ==> r1 == r2
    &&& forall|l: Vector3, r: Vector3, r1: Vector3, r2: Vector3|
        call_ensures(A::sum, (arithmetic, &l, &r), r1) && call_ensures(
            A::sum,
            (arithmetic, &l, &r),
            r2,
        ) ==> r1 == r2
}

} // verus!
