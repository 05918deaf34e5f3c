//! Pan and zoom control for a two-dimensional camera.
//!
//! Once per rendered frame three passes turn input into changes of the
//! camera's transform: held keys pan it, pointer motion pans it while the
//! middle button is held, and the scroll wheel zooms it between two bounds.
//!
//! All quantities are fixed-point: signed 64-bit counts of thousandths of a
//! unit (`fixed`). The arithmetic on them is exact, and a translation that
//! leaves the 64-bit range stops at its end.
//!
//! Every function is verified against its contract. The only facts taken on
//! trust are what the engine's `Input` resource answers when asked whether a
//! key or a button is held (`input`).

pub mod camera;
pub mod events;
pub mod fixed;
pub mod grid;
pub mod input;
pub mod systems;
