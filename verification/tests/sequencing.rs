use std::cell::{Cell, RefCell};

use viewer::algebra::{Arithmetic, Axis, Matrix4, Scalar, Vector3, Vector4};
use viewer::client::{control_vector, Client};
use viewer::player::{Player, SPEED_BITS, THRESHOLD_BITS};
use viewer::render::{Renderer, VFOV_BITS};
use viewer::render_camera::{Camera, FAR_BITS, NEAR_BITS};
use viewer::spatial::Spatial;
use viewer::window::{ControlState, Window};

/// One operation that was asked for, with its operands.
#[derive(Clone, Debug, PartialEq)]
enum Call {
    ToRadians(Scalar),
    Negate(Scalar),
    Ratio(u32, u32),
    GreaterThan(Scalar, Scalar),
    Rotation(Axis, Scalar),
    Translation(Vector3),
    Perspective(Scalar, Scalar, Scalar, Scalar),
    Multiply(Matrix4, Matrix4),
    TryInverse(Matrix4),
    Rotate(Axis, Scalar, Vector3),
    Magnitude(Vector3),
    Normalize(Vector3),
    Scale(Vector3, Scalar),
    Sum(Vector3, Vector3),
}

/// An arithmetic that computes nothing: it writes down what it is asked and
/// answers each time with a value that no other call has given.
struct Recorder {
    calls: RefCell<Vec<Call>>,
    next: Cell<u32>,
    long: bool,
    invertible: bool,
}

fn scalar(n: u32) -> Scalar {
    Scalar { bits: n }
}

fn vector(n: u32) -> Vector3 {
    Vector3 { x: scalar(n), y: scalar(0), z: scalar(0) }
}

fn matrix(n: u32) -> Matrix4 {
    let empty = Vector4 { x: scalar(0), y: scalar(0), z: scalar(0), w: scalar(0) };
    Matrix4 { c0: Vector4 { x: scalar(n), ..empty }, c1: empty, c2: empty, c3: empty }
}

fn identity() -> Matrix4 {
    let one = scalar(1.0f32.to_bits());
    let zero = scalar(0.0f32.to_bits());
    Matrix4 {
        c0: Vector4 { x: one, y: zero, z: zero, w: zero },
        c1: Vector4 { x: zero, y: one, z: zero, w: zero },
        c2: Vector4 { x: zero, y: zero, z: one, w: zero },
        c3: Vector4 { x: zero, y: zero, z: zero, w: one },
    }
}

impl Recorder {
    fn new() -> Recorder {
        Recorder { calls: RefCell::new(Vec::new()), next: Cell::new(1000), long: true, invertible: true }
    }

    fn record(&self, call: Call) -> u32 {
        self.calls.borrow_mut().push(call);
        let n = self.next.get();
        self.next.set(n + 1);
        n
    }

    fn take(&self) -> Vec<Call> {
        self.calls.replace(Vec::new())
    }
}

impl Arithmetic for Recorder {
    fn to_radians(&self, degrees: Scalar) -> Scalar {
        scalar(self.record(Call::ToRadians(degrees)))
    }

    fn negate(&self, value: Scalar) -> Scalar {
        scalar(self.record(Call::Negate(value)))
    }

    fn ratio(&self, numerator: u32, denominator: u32) -> Scalar {
        scalar(self.record(Call::Ratio(numerator, denominator)))
    }

    fn greater_than(&self, left: Scalar, right: Scalar) -> bool {
        self.record(Call::GreaterThan(left, right));
        self.long
    }

    fn rotation(&self, axis: Axis, radians: Scalar) -> Matrix4 {
        matrix(self.record(Call::Rotation(axis, radians)))
    }

    fn translation(&self, offset: &Vector3) -> Matrix4 {
        matrix(self.record(Call::Translation(*offset)))
    }

    fn perspective(&self, aspect_ratio: Scalar, vfov: Scalar, near: Scalar, far: Scalar) -> Matrix4 {
        matrix(self.record(Call::Perspective(aspect_ratio, vfov, near, far)))
    }

    fn multiply(&self, left: &Matrix4, right: &Matrix4) -> Matrix4 {
        matrix(self.record(Call::Multiply(*left, *right)))
    }

    fn try_inverse(&self, m: &Matrix4) -> Option<Matrix4> {
        let n = self.record(Call::TryInverse(*m));
        if self.invertible {
            Some(matrix(n))
        } else {
            None
        }
    }

    fn rotate(&self, axis: Axis, radians: Scalar, v: &Vector3) -> Vector3 {
        vector(self.record(Call::Rotate(axis, radians, *v)))
    }

    fn magnitude(&self, v: &Vector3) -> Scalar {
        scalar(self.record(Call::Magnitude(*v)))
    }

    fn normalize(&self, v: &Vector3) -> Vector3 {
        vector(self.record(Call::Normalize(*v)))
    }

    fn scale(&self, v: &Vector3, factor: Scalar) -> Vector3 {
        vector(self.record(Call::Scale(*v, factor)))
    }

    fn sum(&self, left: &Vector3, right: &Vector3) -> Vector3 {
        vector(self.record(Call::Sum(*left, *right)))
    }
}

fn pose() -> (Vector3, Vector3) {
    let translation = Vector3 { x: scalar(1), y: scalar(2), z: scalar(3) };
    let rotation = Vector3 { x: scalar(10), y: scalar(20), z: scalar(30) };
    (translation, rotation)
}

/// The calls that build the model matrix of `pose()`, where the first answer
/// is `first`.
fn model_matrix_calls(first: u32) -> Vec<Call> {
    let (translation, _) = pose();
    vec![
        Call::ToRadians(scalar(10)),
        Call::Negate(scalar(first)),
        Call::Rotation(Axis::X, scalar(first + 1)),
        Call::ToRadians(scalar(20)),
        Call::Negate(scalar(first + 3)),
        Call::Rotation(Axis::Y, scalar(first + 4)),
        Call::ToRadians(scalar(30)),
        Call::Negate(scalar(first + 6)),
        Call::Rotation(Axis::Z, scalar(first + 7)),
        Call::Translation(translation),
        Call::Multiply(identity(), matrix(first + 8)),
        Call::Multiply(matrix(first + 10), matrix(first + 2)),
        Call::Multiply(matrix(first + 11), matrix(first + 5)),
        Call::Multiply(matrix(first + 12), matrix(first + 9)),
    ]
}

#[test]
fn a_new_spatial_is_read_without_arithmetic() {
    let recorder = Recorder::new();
    let mut spatial = Spatial::new();
    assert_eq!(*spatial.get_model_space_matrix(&recorder), identity());
    assert_eq!(recorder.take(), vec![]);
}

#[test]
fn the_getters_give_what_was_set() {
    let (translation, rotation) = pose();
    let mut spatial = Spatial::new();
    assert_eq!(*spatial.get_translation(), vector(0));
    assert_eq!(*spatial.get_rotation(), vector(0));
    spatial.set_translation(&translation);
    assert_eq!(*spatial.get_translation(), translation);
    assert_eq!(*spatial.get_rotation(), vector(0));
    spatial.set_rotation(&rotation);
    assert_eq!(*spatial.get_translation(), translation);
    assert_eq!(*spatial.get_rotation(), rotation);
}

#[test]
fn the_model_matrix_is_roll_pitch_yaw_then_translation() {
    let recorder = Recorder::new();
    let (translation, rotation) = pose();
    let mut spatial = Spatial::new();
    spatial.set_translation(&translation);
    spatial.set_rotation(&rotation);

    let built = *spatial.get_model_space_matrix(&recorder);

    assert_eq!(recorder.take(), model_matrix_calls(1000));
    assert_eq!(built, matrix(1013));
}

#[test]
fn a_setter_does_not_rebuild() {
    let recorder = Recorder::new();
    let (translation, rotation) = pose();
    let mut spatial = Spatial::new();
    spatial.set_translation(&translation);
    spatial.set_rotation(&rotation);
    spatial.set_translation(&translation);
    assert_eq!(recorder.take(), vec![]);
}

#[test]
fn a_second_read_comes_from_the_cache() {
    let recorder = Recorder::new();
    let (translation, rotation) = pose();
    let mut spatial = Spatial::new();
    spatial.set_translation(&translation);
    spatial.set_rotation(&rotation);

    let first = *spatial.get_model_space_matrix(&recorder);
    assert_eq!(recorder.take().len(), 14);

    let second = *spatial.get_model_space_matrix(&recorder);
    let third = *spatial.get_model_space_matrix(&recorder);
    assert_eq!(recorder.take(), vec![]);
    assert_eq!(second, first);
    assert_eq!(third, first);
}

#[test]
fn each_setter_marks_the_matrix_stale() {
    let recorder = Recorder::new();
    let (translation, rotation) = pose();
    let mut spatial = Spatial::new();
    spatial.set_translation(&translation);
    spatial.set_rotation(&rotation);
    spatial.get_model_space_matrix(&recorder);
    recorder.take();

    spatial.set_translation(&translation);
    let again = *spatial.get_model_space_matrix(&recorder);
    assert_eq!(recorder.take(), model_matrix_calls(1014));
    assert_eq!(again, matrix(1027));

    spatial.set_rotation(&rotation);
    let once_more = *spatial.get_model_space_matrix(&recorder);
    assert_eq!(recorder.take(), model_matrix_calls(1028));
    assert_eq!(once_more, matrix(1041));
}

#[test]
fn a_new_camera_is_read_without_arithmetic() {
    let recorder = Recorder::new();
    let mut camera = Camera::new(scalar(7), scalar(8));
    assert_eq!(*camera.borrow_spatial().get_translation(), vector(0));
    assert_eq!(*camera.borrow_spatial().get_rotation(), vector(0));
    assert_eq!(*camera.borrow_spatial_mut().get_model_space_matrix(&recorder), identity());
    assert_eq!(recorder.take(), vec![]);
}

#[test]
fn the_projection_is_built_at_the_first_read_only() {
    let recorder = Recorder::new();
    let mut camera = Camera::new(scalar(7), scalar(8));

    let first = *camera.get_projection(&recorder);
    assert_eq!(
        recorder.take(),
        vec![Call::Perspective(scalar(7), scalar(8), scalar(NEAR_BITS), scalar(FAR_BITS))]
    );
    assert_eq!(first, matrix(1000));

    let second = *camera.get_projection(&recorder);
    assert_eq!(recorder.take(), vec![]);
    assert_eq!(second, first);
}

#[test]
fn setting_the_pose_leaves_the_projection_alone() {
    let recorder = Recorder::new();
    let (translation, rotation) = pose();
    let mut camera = Camera::new(scalar(7), scalar(8));
    let projection = *camera.get_projection(&recorder);
    recorder.take();

    camera.set_translation(&translation);
    camera.set_rotation(&rotation);
    assert_eq!(*camera.get_projection(&recorder), projection);
    assert_eq!(recorder.take(), vec![]);

    camera.borrow_spatial_mut().set_translation(&rotation);
    camera.borrow_spatial_mut().set_rotation(&translation);
    assert_eq!(*camera.get_projection(&recorder), projection);
    assert_eq!(recorder.take(), vec![]);
}

#[test]
fn reading_the_projection_leaves_the_pose_stale() {
    let recorder = Recorder::new();
    let (translation, rotation) = pose();
    let mut camera = Camera::new(scalar(7), scalar(8));
    camera.set_translation(&translation);
    camera.set_rotation(&rotation);
    camera.get_projection(&recorder);
    recorder.take();

    assert_eq!(*camera.borrow_spatial().get_translation(), translation);
    assert_eq!(*camera.borrow_spatial().get_rotation(), rotation);
    camera.borrow_spatial_mut().get_model_space_matrix(&recorder);
    assert_eq!(recorder.take(), model_matrix_calls(1001));
}

#[test]
fn the_view_matrix_is_the_inverse_of_the_model_matrix() {
    let recorder = Recorder::new();
    let (translation, rotation) = pose();
    let mut camera = Camera::new(scalar(7), scalar(8));
    camera.set_translation(&translation);
    camera.set_rotation(&rotation);

    let view = camera.get_view_matrix(&recorder);

    let mut expected = model_matrix_calls(1000);
    expected.push(Call::TryInverse(matrix(1013)));
    assert_eq!(recorder.take(), expected);
    assert_eq!(view, Some(matrix(1014)));

    let again = camera.get_view_matrix(&recorder);
    assert_eq!(recorder.take(), vec![Call::TryInverse(matrix(1013))]);
    assert_eq!(again, Some(matrix(1015)));
}

#[test]
fn the_view_matrix_is_missing_where_there_is_no_inverse() {
    let mut recorder = Recorder::new();
    recorder.invertible = false;
    let mut camera = Camera::new(scalar(7), scalar(8));
    assert_eq!(camera.get_view_matrix(&recorder), None);
    assert_eq!(recorder.take(), vec![Call::TryInverse(identity())]);
}

#[test]
fn the_combined_matrix_is_projection_times_view() {
    let recorder = Recorder::new();
    let (translation, rotation) = pose();
    let mut camera = Camera::new(scalar(7), scalar(8));
    camera.set_translation(&translation);
    camera.set_rotation(&rotation);

    let combined = camera.get_combined_matrix(&recorder);

    let mut expected =
        vec![Call::Perspective(scalar(7), scalar(8), scalar(NEAR_BITS), scalar(FAR_BITS))];
    expected.extend(model_matrix_calls(1001));
    expected.push(Call::TryInverse(matrix(1014)));
    expected.push(Call::Multiply(matrix(1000), matrix(1015)));
    assert_eq!(recorder.take(), expected);
    assert_eq!(combined, matrix(1016));

    let again = camera.get_combined_matrix(&recorder);
    assert_eq!(
        recorder.take(),
        vec![Call::TryInverse(matrix(1014)), Call::Multiply(matrix(1000), matrix(1017))]
    );
    assert_eq!(again, matrix(1018));
}

#[test]
fn the_combined_matrix_is_the_projection_where_there_is_no_inverse() {
    let mut recorder = Recorder::new();
    recorder.invertible = false;
    let mut camera = Camera::new(scalar(7), scalar(8));

    let combined = camera.get_combined_matrix(&recorder);

    assert_eq!(
        recorder.take(),
        vec![
            Call::Perspective(scalar(7), scalar(8), scalar(NEAR_BITS), scalar(FAR_BITS)),
            Call::TryInverse(identity()),
        ]
    );
    assert_eq!(combined, matrix(1000));
    assert_eq!(*camera.get_projection(&recorder), matrix(1000));
}

#[test]
fn a_new_player_is_at_rest_at_the_origin() {
    let player = Player::new();
    assert_eq!(*player.get_velocity(), vector(0));
    assert_eq!(*player.get_control_heading(), vector(0));
    assert_eq!(*player.get_control_vector(), vector(0));
    assert_eq!(*player.borrow_spatial().get_translation(), vector(0));
    assert_eq!(*player.borrow_spatial().get_rotation(), vector(0));
}

#[test]
fn the_setters_of_the_player_replace_one_value_each() {
    let mut player = Player::new();
    player.set_velocity(&vector(1));
    player.set_control_heading(&vector(2));
    player.set_control_vector(&vector(3));
    assert_eq!(*player.get_velocity(), vector(1));
    assert_eq!(*player.get_control_heading(), vector(2));
    assert_eq!(*player.get_control_vector(), vector(3));
    assert_eq!(*player.borrow_spatial().get_translation(), vector(0));
    player.borrow_spatial_mut().set_translation(&vector(4));
    assert_eq!(player.spatial.get_translation(), &vector(4));
    assert_eq!(*player.get_velocity(), vector(1));
}

#[test]
fn update_turns_by_the_yaw_then_scales() {
    let recorder = Recorder::new();
    let (translation, _) = pose();
    let heading = Vector3 { x: scalar(40), y: scalar(50), z: scalar(60) };
    let control = Vector3 { x: scalar(70), y: scalar(80), z: scalar(90) };
    let mut player = Player::new();
    player.borrow_spatial_mut().set_translation(&translation);
    player.set_control_heading(&heading);
    player.set_control_vector(&control);

    player.update(&recorder);

    assert_eq!(
        recorder.take(),
        vec![
            Call::ToRadians(scalar(50)),
            Call::Rotate(Axis::Y, scalar(1000), control),
            Call::Magnitude(vector(1001)),
            Call::GreaterThan(scalar(1002), scalar(THRESHOLD_BITS)),
            Call::Normalize(vector(1001)),
            Call::Scale(vector(1004), scalar(SPEED_BITS)),
            Call::Sum(translation, vector(1005)),
        ]
    );
    assert_eq!(*player.get_velocity(), vector(1005));
    assert_eq!(*player.borrow_spatial().get_translation(), vector(1006));
    assert_eq!(*player.get_control_heading(), heading);
    assert_eq!(*player.get_control_vector(), control);
}

#[test]
fn update_leaves_a_short_direction_as_it_is() {
    let mut recorder = Recorder::new();
    recorder.long = false;
    let control = Vector3 { x: scalar(70), y: scalar(80), z: scalar(90) };
    let mut player = Player::new();
    player.set_control_vector(&control);

    player.update(&recorder);

    assert_eq!(
        recorder.take(),
        vec![
            Call::ToRadians(scalar(0)),
            Call::Rotate(Axis::Y, scalar(1000), control),
            Call::Magnitude(vector(1001)),
            Call::GreaterThan(scalar(1002), scalar(THRESHOLD_BITS)),
            Call::Scale(vector(1001), scalar(SPEED_BITS)),
            Call::Sum(vector(0), vector(1004)),
        ]
    );
    assert_eq!(*player.get_velocity(), vector(1004));
    assert_eq!(*player.borrow_spatial().get_translation(), vector(1005));
}

#[test]
fn update_marks_the_model_matrix_stale() {
    let recorder = Recorder::new();
    let mut player = Player::new();
    player.update(&recorder);
    recorder.take();
    player.borrow_spatial_mut().get_model_space_matrix(&recorder);
    assert_eq!(recorder.take().len(), 14);
}

#[test]
fn move_player_adds_to_the_translation() {
    let recorder = Recorder::new();
    let (translation, _) = pose();
    let mut player = Player::new();
    player.set_velocity(&vector(5));
    player.borrow_spatial_mut().set_translation(&translation);

    player.move_player(&recorder, &vector(6));

    assert_eq!(recorder.take(), vec![Call::Sum(translation, vector(6))]);
    assert_eq!(*player.borrow_spatial().get_translation(), vector(1000));
    assert_eq!(*player.get_velocity(), vector(5));
}

#[test]
fn the_renderer_starts_with_the_ratio_of_the_viewport() {
    let recorder = Recorder::new();
    let mut renderer = Renderer::init(&recorder, 1280, 720);
    assert_eq!(recorder.take(), vec![Call::Ratio(1280, 720)]);
    assert_eq!(renderer.total_frames, 0);
    assert_eq!(renderer.frame_count, 0);

    renderer.camera.get_projection(&recorder);
    assert_eq!(
        recorder.take(),
        vec![Call::Perspective(
            scalar(1000),
            scalar(VFOV_BITS),
            scalar(NEAR_BITS),
            scalar(FAR_BITS)
        )]
    );
}

#[test]
fn the_renderer_counts_frames_and_reports_each_second() {
    let recorder = Recorder::new();
    let mut renderer = Renderer::init(&recorder, 1280, 720);

    let first = renderer.update(&recorder, false);
    assert_eq!(first.frames_per_second, None);
    assert_eq!((renderer.frame_count, renderer.total_frames), (1, 1));

    let second = renderer.update(&recorder, false);
    assert_eq!(second.frames_per_second, None);
    assert_eq!((renderer.frame_count, renderer.total_frames), (2, 2));

    let third = renderer.update(&recorder, true);
    assert_eq!(third.frames_per_second, Some(2));
    assert_eq!((renderer.frame_count, renderer.total_frames), (1, 3));

    let fourth = renderer.update(&recorder, true);
    assert_eq!(fourth.frames_per_second, Some(1));
    assert_eq!((renderer.frame_count, renderer.total_frames), (1, 4));
}

#[test]
fn the_renderer_draws_with_the_combined_matrix() {
    let recorder = Recorder::new();
    let mut renderer = Renderer::init(&recorder, 1280, 720);
    recorder.take();

    let frame = renderer.update(&recorder, false);

    assert_eq!(
        recorder.take(),
        vec![
            Call::Perspective(scalar(1000), scalar(VFOV_BITS), scalar(NEAR_BITS), scalar(FAR_BITS)),
            Call::TryInverse(identity()),
            Call::Multiply(matrix(1001), matrix(1002)),
        ]
    );
    assert_eq!(frame.transform, matrix(1003));
}

fn client(recorder: &Recorder) -> Client {
    let window = match Window::init("viewer", "0.1.0", Some(1280), Some(720)) {
        Ok(window) => window,
        Err(message) => panic!("{}", message),
    };
    let renderer = Renderer::init(recorder, window.width, window.height);
    recorder.take();
    Client::new(window, renderer)
}

#[test]
fn a_new_client_puts_the_player_on_the_z_axis() {
    let recorder = Recorder::new();
    let client = client(&recorder);
    let start = *client.player.borrow_spatial().get_translation();
    assert_eq!(f32::from_bits(start.x.bits), 0.0);
    assert_eq!(f32::from_bits(start.y.bits), 0.0);
    assert_eq!(f32::from_bits(start.z.bits), 3.0);
    assert_eq!(*client.player.borrow_spatial().get_rotation(), vector(0));
    assert_eq!(client.window.width, 1280);
    assert_eq!(client.renderer.total_frames, 0);
}

#[test]
fn a_tick_moves_the_player_before_the_camera_is_read() {
    let recorder = Recorder::new();
    let mut client = client(&recorder);
    client.window.control_state.forward = true;
    let start = *client.player.borrow_spatial().get_translation();
    let forward = control_vector(&client.window.control_state);

    let frame = client.tick(&recorder, false);

    let calls = recorder.take();
    assert_eq!(
        calls[..7].to_vec(),
        vec![
            Call::ToRadians(scalar(0)),
            Call::Rotate(Axis::Y, scalar(1001), forward),
            Call::Magnitude(vector(1002)),
            Call::GreaterThan(scalar(1003), scalar(THRESHOLD_BITS)),
            Call::Normalize(vector(1002)),
            Call::Scale(vector(1005), scalar(SPEED_BITS)),
            Call::Sum(start, vector(1006)),
        ]
    );
    // The camera is built from the pose that the player has after the move.
    assert_eq!(
        calls[7],
        Call::Perspective(scalar(1000), scalar(VFOV_BITS), scalar(NEAR_BITS), scalar(FAR_BITS))
    );
    assert_eq!(calls[17], Call::Translation(vector(1007)));
    assert_eq!(calls[22], Call::TryInverse(matrix(1022)));
    assert_eq!(calls[23], Call::Multiply(matrix(1008), matrix(1023)));
    assert_eq!(calls.len(), 24);
    assert_eq!(frame.transform, matrix(1024));
    assert_eq!(frame.frames_per_second, None);

    assert_eq!(*client.player.get_control_vector(), forward);
    assert_eq!(*client.player.borrow_spatial().get_translation(), vector(1007));
    assert_eq!(*client.renderer.camera.borrow_spatial().get_translation(), vector(1007));
    assert_eq!(*client.renderer.camera.borrow_spatial().get_rotation(), vector(0));
    assert_eq!((client.renderer.frame_count, client.renderer.total_frames), (1, 1));
    assert!(client.window.control_state.forward);
}

#[test]
fn the_control_vector_follows_the_controls() {
    let one = 1.0f32.to_bits();
    let minus_one = (-1.0f32).to_bits();
    let zero = 0.0f32.to_bits();
    let released = ControlState::new();
    let bits = |state: ControlState| {
        let v = control_vector(&state);
        (v.x.bits, v.y.bits, v.z.bits)
    };

    assert_eq!(bits(released), (zero, zero, zero));
    assert_eq!(bits(ControlState { forward: true, ..released }), (zero, zero, minus_one));
    assert_eq!(bits(ControlState { back: true, ..released }), (zero, zero, one));
    assert_eq!(bits(ControlState { left: true, ..released }), (minus_one, zero, zero));
    assert_eq!(bits(ControlState { right: true, ..released }), (one, zero, zero));
    assert_eq!(bits(ControlState { up: true, ..released }), (zero, one, zero));
    assert_eq!(bits(ControlState { down: true, ..released }), (zero, minus_one, zero));
}

#[test]
fn opposite_controls_cancel() {
    let zero = 0.0f32.to_bits();
    let one = 1.0f32.to_bits();
    let released = ControlState::new();
    let both = control_vector(&ControlState { forward: true, back: true, ..released });
    assert_eq!((both.x.bits, both.y.bits, both.z.bits), (zero, zero, zero));
    let all = control_vector(&ControlState {
        forward: true,
        back: true,
        left: true,
        right: true,
        up: true,
        down: true,
        ..released
    });
    assert_eq!((all.x.bits, all.y.bits, all.z.bits), (zero, zero, zero));
    let mixed = control_vector(&ControlState { left: true, right: true, up: true, ..released });
    assert_eq!((mixed.x.bits, mixed.y.bits, mixed.z.bits), (zero, one, zero));
}
