//! The transforms of a small first-person viewer.
//!
//! A [`spatial::Spatial`] is a pose with a model matrix that is rebuilt only
//! when it is read after the pose was set. A [`render_camera::Camera`] adds a
//! perspective projection, built once, and gives the renderer the product of
//! the projection and the inverse of its model matrix. A [`player::Player`]
//! is moved tick by tick where its controls point. [`client::Client`] puts
//! one pass of the frame loop together, from the keys that are held to the
//! matrix to draw with.
//!
//! The crate decides what is computed, from what and in which order, and
//! keeps what was computed until it is stale; it holds numbers as bit
//! patterns and does no arithmetic on them. The arithmetic is the caller's:
//! see [`algebra::Arithmetic`].

pub mod algebra;
pub mod client;
pub mod player;
pub mod render;
pub mod render_camera;
pub mod spatial;
pub mod window;
