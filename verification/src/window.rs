//! What the window keeps between frames: its size and title, the state of the
//! controls, and whether it has been asked to close.

use crate::algebra::Scalar;
use vstd::prelude::*;
use vstd::string::*;

verus! {

/// The text of [`invalid_setting`] for a setting of the given name.
pub open spec fn invalid_setting_text(setting: Seq<char>) -> Seq<char> {
    "Invalid '"@ + setting + "' set in Config.toml"@
}

/// The text of [`unset_setting`] for a setting of the given name.
pub open spec fn unset_setting_text(setting: Seq<char>) -> Seq<char> {
    "'"@ + setting + "' unset in Config.toml"@
}

/// The title of the window of the program `name` in the given version.
pub open spec fn title_text(name: Seq<char>, version: Seq<char>) -> Seq<char> {
    name + " - Version "@ + version
}

/// The message for a setting whose value cannot be used.
pub fn invalid_setting(setting: &str) -> (message: String)
    ensures
        message@ == invalid_setting_text(setting@),
{
    let mut message = String::from_str("Invalid '");
    message.append(setting);
    message.append("' set in Config.toml");
    message
}

/// The message for a setting that has no value.
pub fn unset_setting(setting: &str) -> (message: String)
    ensures
        message@ == unset_setting_text(setting@),
{
    let mut message = String::from_str("'");
    message.append(setting);
    message.append("' unset in Config.toml");
    message
}

/// A key that the controls know, or any other.
#[derive(Clone, Copy, Debug, PartialEq, Eq, Structural)]
pub enum Key {
    Escape,
    W,
    A,
    S,
    D,
    Space,
    LeftShift,
    Other,
}

/// What happened to a key.
#[derive(Clone, Copy, Debug, PartialEq, Eq, Structural)]
pub enum Action {
    Release,
    Press,
    Repeat,
}

/// An event of the window: a key event, or any other.
#[derive(Clone, Copy, Debug, PartialEq, Eq, Structural)]
pub enum WindowEvent {
    Key(Key, Action),
    Other,
}

/// The state of the controls: which directions are held, and where the
/// pointer has turned the view, in degrees.
#[derive(Clone, Copy, Debug, PartialEq, Eq, Structural)]
pub struct ControlState {
    pub forward: bool,
    pub back: bool,
    pub left: bool,
    pub right: bool,
    pub up: bool,
    pub down: bool,
    pub pitch: Scalar,
    pub yaw: Scalar,
}

/// Whether a key is held after `action`, where `before` says whether it was:
/// a press holds it, a release lets it go, a repeat changes nothing.
pub open spec fn held(before: bool, action: Action) -> bool {
    match action {
        Action::Press => true,
        Action::Release => false,
        Action::Repeat => before,
    }
}

impl ControlState {
    /// No direction held, and the view turned nowhere.
    pub open spec fn released() -> ControlState {
        ControlState {
            forward: false,
            back: false,
            left: false,
            right: false,
            up: false,
            down: false,
            pitch: Scalar::zero(),
            yaw: Scalar::zero(),
        }
    }

    /// The controls after `event`. `W`, `S`, `A`, `D`, the space bar and the
    /// left shift key stand for forward, back, left, right, up and down; no
    /// other key and no other event changes the controls.
    pub open spec fn after(self, event: WindowEvent) -> ControlState {
        match event {
            WindowEvent::Key(Key::W, action) => ControlState {
                forward: held(self.forward, action),
                ..self
            },
            WindowEvent::Key(Key::S, action) => ControlState {
                back: held(self.back, action),
                ..self
            },
            WindowEvent::Key(Key::A, action) => ControlState {
                left: held(self.left, action),
                ..self
            },
            WindowEvent::Key(Key::D, action) => ControlState {
                right: held(self.right, action),
                ..self
            },
            WindowEvent::Key(Key::Space, action) => ControlState {
                up: held(self.up, action),
                ..self
            },
            WindowEvent::Key(Key::LeftShift, action) => ControlState {
                down: held(self.down, action),
                ..self
            },
            _ => self,
        }
    }

    /// The controls with no direction held.
    pub fn new() -> (state: ControlState)
        ensures
            state == ControlState::released(),
    {
        ControlState {
            forward: false,
            back: false,
            left: false,
            right: false,
            up: false,
            down: false,
            pitch: Scalar::zero(),
            yaw: Scalar::zero(),
        }
    }
}

/// The size and title of the window, the state of its controls, and whether
/// it has been asked to close.
pub struct Window {
    pub width: u32,
    pub height: u32,
    pub title: String,
    pub control_state: ControlState,
    pub should_close: bool,
}

/// Whether `value` can be the width or the height of a window.
pub open spec fn is_dimension(value: i64) -> bool {
    0 <= value <= u32::MAX
}

/// What is wrong with the two settings of the window's size, where anything
/// is: a missing value comes before one that is out of range, and the width
/// before the height.
pub open spec fn size_error(window_x: Option<i64>, window_y: Option<i64>) -> Option<Seq<char>> {
    if window_x is None {
        Some(unset_setting_text("window_x"@))
    } else if window_y is None {
        Some(unset_setting_text("window_y"@))
    } else if !is_dimension(window_x->0) {
        Some(invalid_setting_text("window_x"@))
    } else if !is_dimension(window_y->0) {
        Some(invalid_setting_text("window_y"@))
    } else {
        None
    }
}

impl Window {
    /// The window after `event`: the controls follow the event, and the
    /// press of the escape key asks the window to close.
    pub open spec fn after(self, event: WindowEvent) -> Window {
        Window {
            control_state: self.control_state.after(event),
            should_close: self.should_close || event == WindowEvent::Key(Key::Escape, Action::Press),
            ..self
        }
    }

    /// The window after each of `events` in turn.
    pub open spec fn after_all(self, events: Seq<WindowEvent>) -> Window
        decreases events.len(),
    {
        if events.len() == 0 {
            self
        } else {
            self.after_all(events.drop_last()).after(events.last())
        }
    }

    /// The window of the program `name` in the given version, with the size
    /// that the settings `window_x` and `window_y` give. A setting that is
    /// missing, or whose value is negative or too large, is an error; the
    /// error is the message that says which and why.
    pub fn init(name: &str, version: &str, window_x: Option<i64>, window_y: Option<i64>) -> (result:
        Result<Window, String>)
        ensures
            match result {
                Ok(window) => {
                    &&& size_error(window_x, window_y) is None
                    &&& window.width == window_x->0
                    &&& window.height == window_y->0
                    &&& window.title@ == title_text(name@, version@)
                    &&& window.control_state == ControlState::released()
                    &&& !window.should_close
                },
                Err(message) => size_error(window_x, window_y) == Some(message@),
            },
    {
        let mut title = String::from_str(name);
        title.append(" - Version ");
        title.append(version);

        let x = match window_x {
            Some(x) => x,
            None => {
                return Err(unset_setting("window_x"));
            },
        };
        let y = match window_y {
            Some(y) => y,
            None => {
                return Err(unset_setting("window_y"));
            },
        };

        if x < 0 || x > u32::MAX as i64 {
            return Err(invalid_setting("window_x"));
        }
        if y < 0 || y > u32::MAX as i64 {
            return Err(invalid_setting("window_y"));
        }

        let control_state = ControlState::new();

        Ok(Window { width: x as u32, height: y as u32, title, control_state, should_close: false })
    }

    /// Takes in the events that have come since the last frame, in their
    /// order.
    pub fn update(&mut self, events: &Vec<WindowEvent>)
        ensures
            *final(self) == old(self).after_all(events@),
    {
        let mut i: usize = 0;
        while i < events.len()
            invariant
                i <= events.len(),
                *self == old(self).after_all(events@.take(i as int)),
            decreases events.len() - i,
        {
            assert(events@.take(i + 1).drop_last() == events@.take(i as int));
            self.handle_window_event(events[i]);
            i += 1;
        }
        assert(events@.take(i as int) == events@);
    }

    /// Takes in one event.
    pub fn handle_window_event(&mut self, event: WindowEvent)
        ensures
            *final(self) == old(self).after(event),
    {
        match event {
            WindowEvent::Key(Key::Escape, Action::Press) => {
                self.should_close = true;
            },
            WindowEvent::Key(Key::W, Action::Press) => {
                self.control_state.forward = true;
            },
            WindowEvent::Key(Key::W, Action::Release) => {
                self.control_state.forward = false;
            },
            WindowEvent::Key(Key::S, Action::Press) => {
                self.control_state.back = true;
            },
            WindowEvent::Key(Key::S, Action::Release) => {
                self.control_state.back = false;
            },
            WindowEvent::Key(Key::A, Action::Press) => {
                self.control_state.left = true;
            },
            WindowEvent::Key(Key::A, Action::Release) => {
                self.control_state.left = false;
            },
            WindowEvent::Key(Key::D, Action::Press) => {
                self.control_state.right = true;
            },
            WindowEvent::Key(Key::D, Action::Release) => {
                self.control_state.right = false;
            },
            WindowEvent::Key(Key::Space, Action::Press) => {
                self.control_state.up = true;
            },
            WindowEvent::Key(Key::Space, Action::Release) => {
                self.control_state.up = false;
            },
            WindowEvent::Key(Key::LeftShift, Action::Press) => {
                self.control_state.down = true;
            },
            WindowEvent::Key(Key::LeftShift, Action::Release) => {
                self.control_state.down = false;
            },
            _ => {},
        }
    }
}

} // verus!
