//! One pass of the frame loop: from the controls to the matrix to draw with.

use crate::algebra::{Arithmetic, Scalar, Vector3};
use crate::player::{is_velocity, Player};
use crate::render::{Frame, Renderer};
use crate::render_camera::{is_combined, is_projection};
use crate::spatial::{is_model_matrix, SpatialView};
use crate::window::{ControlState, Window};
use vstd::prelude::*;

verus! {

/// The bit pattern of the distance from the origin at which the player
/// starts, three.
pub const START_BITS: u32 = 0x4040_0000;

/// Where the player starts: on the z axis, [`START_BITS`] from the origin.
pub open spec fn spec_start() -> Vector3 {
    Vector3 { x: Scalar::zero(), y: Scalar::zero(), z: Scalar { bits: START_BITS } }
}

/// Where the player starts.
#[verifier::when_used_as_spec(spec_start)]
pub fn start() -> (position: Vector3)
    ensures
        position == spec_start(),
{
    Vector3::new(Scalar::zero(), Scalar::zero(), Scalar { bits: START_BITS })
}

/// What two opposite controls ask for along their axis: one where only the
/// first is held, minus one where only the second is, zero where both are or
/// neither is.
pub open spec fn intent(positive: bool, negative: bool) -> Scalar {
    if positive == negative {
        Scalar::zero()
    } else if positive {
        Scalar::one()
    } else {
        Scalar::minus_one()
    }
}

/// Where the controls point, seen from where the player looks: right and
/// left along x, up and down along y, back and forward along z.
pub open spec fn direction(state: ControlState) -> Vector3 {
    Vector3 {
        x: intent(state.right, state.left),
        y: intent(state.up, state.down),
        z: intent(state.back, state.forward),
    }
}

/// Counts one step along an axis as the number it stands for.
fn steps(count: i8) -> (value: Scalar)
    requires
        -1 <= count <= 1,
    ensures
        value == (if count == 0 {
            Scalar::zero()
        } else if count == 1 {
            Scalar::one()
        } else {
            Scalar::minus_one()
        }),
{
    if count == 0 {
        Scalar::zero()
    } else if count == 1 {
        Scalar::one()
    } else {
        Scalar::minus_one()
    }
}

/// The control vector for the state of the controls.
pub fn control_vector(state: &ControlState) -> (vector: Vector3)
    ensures
        vector == direction(*state),
{
    let mut x: i8 = 0;
    let mut y: i8 = 0;
    let mut z: i8 = 0;
    if state.forward {
        z -= 1;
    }
    if state.back {
        z += 1;
    }
    if state.left {
        x -= 1;
    }
    if state.right {
        x += 1;
    }
    if state.up {
        y += 1;
    }
    if state.down {
        y -= 1;
    }
    Vector3::new(steps(x), steps(y), steps(z))
}

/// The window, the renderer and the player of one session.
pub struct Client {
    pub window: Window,
    pub renderer: Renderer,
    pub player: Player,
}

impl Client {
    /// A session with the given window and renderer, and a player at rest at
    /// [`start`].
    pub fn new(window: Window, renderer: Renderer) -> (client: Client)
        ensures
            client.window == window,
            client.renderer == renderer,
            client.player.spatial@ == SpatialView::fresh().with_translation(start()),
            client.player.velocity == Vector3::zero(),
            client.player.control_heading == Vector3::zero(),
            client.player.control_vector == Vector3::zero(),
    {
        let mut player = Player::new();
        player.spatial.set_translation(&start());
        Client { window, renderer, player }
    }

    /// One pass of the frame loop, in this order: the control vector is taken
    /// from the controls, the player moves for one tick, the camera takes
    /// over the player's pose, and only then are the camera's matrices asked
    /// for. The window stays as it is.
    pub fn tick<A: Arithmetic>(&mut self, arithmetic: &A, second_elapsed: bool) -> (frame: Frame)
        requires
            old(self).renderer.total_frames < i32::MAX,
            old(self).renderer.frame_count < i32::MAX,
        ensures
            final(self).window == old(self).window,
            final(self).player.control_vector == direction(old(self).window.control_state),
            final(self).player.control_heading == old(self).player.control_heading,
            is_velocity(
                arithmetic,
                direction(old(self).window.control_state),
                old(self).player.control_heading,
                final(self).player.velocity,
            ),
            call_ensures(
                A::sum,
                (arithmetic, &old(self).player.spatial@.translation, &final(self).player.velocity),
                final(self).player.spatial@.translation,
            ),
            final(self).player.spatial@ == old(self).player.spatial@.with_translation(
                final(self).player.spatial@.translation,
            ),
            final(self).renderer.camera@ == old(self).renderer.camera@.read_projection(
                final(self).renderer.camera@.projection,
            ).with_spatial(
                SpatialView {
                    translation: final(self).player.spatial@.translation,
                    rotation: final(self).player.spatial@.rotation,
                    matrix: final(self).renderer.camera@.spatial.matrix,
                    dirty: false,
                },
            ),
            old(self).renderer.camera@.projection_dirty ==> is_projection(
                arithmetic,
                old(self).renderer.camera@.aspect_ratio,
                old(self).renderer.camera@.vfov,
                final(self).renderer.camera@.projection,
            ),
            is_model_matrix(
                arithmetic,
                final(self).player.spatial@.translation,
                final(self).player.spatial@.rotation,
                final(self).renderer.camera@.spatial.matrix,
            ),
            is_combined(
                arithmetic,
                final(self).renderer.camera@.projection,
                final(self).renderer.camera@.spatial.matrix,
                frame.transform,
            ),
            old(self).renderer.camera@.is_consistent(arithmetic)
                ==> final(self).renderer.camera@.is_consistent(arithmetic),
            frame.frames_per_second == (if second_elapsed {
                Some(old(self).renderer.frame_count)
            } else {
                None
            }),
            final(self).renderer.frame_count == (if second_elapsed {
                1
            } else {
                old(self).renderer.frame_count + 1
            }),
            final(self).renderer.total_frames == old(self).renderer.total_frames + 1,
    {
        let control_vector = control_vector(&self.window.control_state);

        self.player.set_control_vector(&control_vector);
        self.player.update(arithmetic);

        let camera_spatial = self.renderer.camera.borrow_spatial_mut();
        camera_spatial.set_translation(self.player.spatial.get_translation());
        camera_spatial.set_rotation(self.player.spatial.get_rotation());

        self.renderer.update(arithmetic, second_elapsed)
    }
}

} // verus!
