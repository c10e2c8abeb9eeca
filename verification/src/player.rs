//! The player: a pose, and the movement that one tick adds to it.

use crate::algebra::{is_functional, Arithmetic, Axis, Scalar, Vector3};
use crate::spatial::{Spatial, SpatialView};
use vstd::prelude::*;

verus! {

/// The bit pattern of the distance that is moved in one tick, one fifth.
pub const SPEED_BITS: u32 = 0x3E4C_CCCD;

/// The bit pattern of the length, one thousandth, above which a direction is
/// scaled to unit length.
pub const THRESHOLD_BITS: u32 = 0x3A83_126F;

pub open spec fn spec_speed() -> Scalar {
    Scalar { bits: SPEED_BITS }
}

pub open spec fn spec_threshold() -> Scalar {
    Scalar { bits: THRESHOLD_BITS }
}

/// The distance that is moved in one tick.
#[verifier::when_used_as_spec(spec_speed)]
pub fn speed() -> (distance: Scalar)
    ensures
        distance == spec_speed(),
{
    Scalar { bits: SPEED_BITS }
}

/// The length above which a direction is scaled to unit length.
#[verifier::when_used_as_spec(spec_threshold)]
pub fn threshold() -> (length: Scalar)
    ensures
        length == spec_threshold(),
{
    Scalar { bits: THRESHOLD_BITS }
}

/// A pose that is moved, tick by tick, where its controls point.
pub struct Player {
    pub spatial: Spatial,
    /// The movement of the last tick.
    pub velocity: Vector3,
    /// Where the player looks, in degrees. Only the angle about the y axis
    /// bears on the movement.
    pub control_heading: Vector3,
    /// Where the player wants to go, seen from where it looks.
    pub control_vector: Vector3,
}

/// `velocity` is the movement of one tick for the given controls: the control
/// vector, turned about the y axis by the heading's angle about that axis,
/// scaled to unit length where it is longer than [`threshold`] and left as it
/// is where it is not, and then scaled by [`speed`].
pub open spec fn is_velocity<A: Arithmetic>(
    arithmetic: &A,
    control_vector: Vector3,
    control_heading: Vector3,
    velocity: Vector3,
) -> bool {
    exists|radians: Scalar, turned: Vector3, length: Scalar, long: bool, direction: Vector3|
        call_ensures(A::to_radians, (arithmetic, control_heading.y), radians)
            && #[trigger] call_ensures(
            A::rotate,
            (arithmetic, Axis::Y, radians, &control_vector),
            turned,
        ) && call_ensures(A::magnitude, (arithmetic, &turned), length) && #[trigger] call_ensures(
            A::greater_than,
            (arithmetic, length, threshold()),
            long,
        ) && (if long {
            call_ensures(A::normalize, (arithmetic, &turned), direction)
        } else {
            direction == turned
        }) && #[trigger] call_ensures(A::scale, (arithmetic, &direction, speed()), velocity)
}

impl Player {
    /// A player at rest at the origin, with no rotation, no heading and no
    /// wish to move.
    pub fn new() -> (player: Player)
        ensures
            player.spatial@ == SpatialView::fresh(),
            player.velocity == Vector3::zero(),
            player.control_heading == Vector3::zero(),
            player.control_vector == Vector3::zero(),
    {
        let spatial = Spatial::new();
        let velocity = Vector3::zero();
        let control_heading = Vector3::zero();
        let control_vector = Vector3::zero();
        Player { spatial, velocity, control_heading, control_vector }
    }

    /// One tick: works out the velocity from the controls, as
    /// [`is_velocity`] says, and moves the player by it. The controls stay as
    /// they are; the model matrix of the pose is stale afterwards.
    pub fn update<A: Arithmetic>(&mut self, arithmetic: &A)
        ensures
            final(self).control_vector == old(self).control_vector,
            final(self).control_heading == old(self).control_heading,
            is_velocity(
                arithmetic,
                old(self).control_vector,
                old(self).control_heading,
                final(self).velocity,
            ),
            call_ensures(
                A::sum,
                (arithmetic, &old(self).spatial@.translation, &final(self).velocity),
                final(self).spatial@.translation,
            ),
            final(self).spatial@ == old(self).spatial@.with_translation(
                final(self).spatial@.translation,
            ),
    {
        self.velocity = self.control_vector;
        let radians = arithmetic.to_radians(self.control_heading.y);
        self.velocity = arithmetic.rotate(Axis::Y, radians, &self.velocity);
        let length = arithmetic.magnitude(&self.velocity);
        if arithmetic.greater_than(length, threshold()) {
            self.velocity = arithmetic.normalize(&self.velocity);
        }
        self.velocity = arithmetic.scale(&self.velocity, speed());

        let velocity = self.velocity;
        self.move_player(arithmetic, &velocity);
    }

    /// Moves the player by `vector`: the sum of its translation and `vector`
    /// becomes its translation, and the model matrix of the pose is stale
    /// afterwards. Nothing else changes.
    pub fn move_player<A: Arithmetic>(&mut self, arithmetic: &A, vector: &Vector3)
        ensures
            call_ensures(
                A::sum,
                (arithmetic, &old(self).spatial@.translation, vector),
                final(self).spatial@.translation,
            ),
            final(self).spatial@ == old(self).spatial@.with_translation(
                final(self).spatial@.translation,
            ),
            final(self).velocity == old(self).velocity,
            final(self).control_heading == old(self).control_heading,
            final(self).control_vector == old(self).control_vector,
    {
        let translation = arithmetic.sum(self.borrow_spatial().get_translation(), vector);
        self.borrow_spatial_mut().set_translation(&translation);
    }

    /// The pose of the player.
    pub fn borrow_spatial(&self) -> (spatial: &Spatial)
        ensures
            *spatial == self.spatial,
    {
        &self.spatial
    }

    /// The pose of the player, to be changed.
    pub fn borrow_spatial_mut(&mut self) -> (spatial: &mut Spatial)
        ensures
            *spatial == old(self).spatial,
            *final(self) == (Player { spatial: *final(spatial), ..*old(self) }),
    {
        &mut self.spatial
    }

    /// The movement of the last tick.
    pub fn get_velocity(&self) -> (velocity: &Vector3)
        ensures
            *velocity == self.velocity,
    {
        &self.velocity
    }

    /// Where the player looks.
    pub fn get_control_heading(&self) -> (heading: &Vector3)
        ensures
            *heading == self.control_heading,
    {
        &self.control_heading
    }

    /// Where the player wants to go.
    pub fn get_control_vector(&self) -> (vector: &Vector3)
        ensures
            *vector == self.control_vector,
    {
        &self.control_vector
    }

    /// Replaces the velocity. Nothing else changes.
    pub fn set_velocity(&mut self, velocity: &Vector3)
        ensures
            *final(self) == (Player { velocity: *velocity, ..*old(self) }),
    {
        self.velocity = *velocity;
    }

    /// Replaces the heading. Nothing else changes.
    pub fn set_control_heading(&mut self, heading: &Vector3)
        ensures
            *final(self) == (Player { control_heading: *heading, ..*old(self) }),
    {
        self.control_heading = *heading;
    }

    /// Replaces the control vector as it is given, of whatever length.
    /// Nothing else changes.
    pub fn set_control_vector(&mut self, vector: &Vector3)
        ensures
            *final(self) == (Player { control_vector: *vector, ..*old(self) }),
    {
        self.control_vector = *vector;
    }
}

/// Where the arithmetic is a function of its operands, the movement of one
/// tick depends on the control vector and on the heading's angle about the y
/// axis alone: the heading's other two angles do not bear on it.
pub proof fn lemma_velocity_depends_on_yaw<A: Arithmetic>(
    arithmetic: &A,
    control_vector: Vector3,
    first_heading: Vector3,
    second_heading: Vector3,
    first: Vector3,
    second: Vector3,
)
    requires
        is_functional(arithmetic),
        first_heading.y == second_heading.y,
        is_velocity(arithmetic, control_vector, first_heading, first),
        is_velocity(arithmetic, control_vector, second_heading, second),
    ensures
        first == second,
{
}

} // verus!
