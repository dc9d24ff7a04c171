//! The rules of a platformer played on small planets, each with a gravity
//! of its own.
//!
//! Bodies are pulled by every gravity source whose zone they overlap, stand
//! up against the net pull, and are walked, jumped and slowed in the frame
//! that the pull defines. The vectors, rotations and contacts belong to the
//! physics engine that hosts the game; what is decided about them is
//! decided here, on plain values, and every decision is proved to be the
//! one its contract states:
//!
//! - [`gravity`]: which bodies gravity acts on, whether a body floats, when
//!   the upright correction turns it and how far, how long the search for
//!   the closest point of a curve goes on;
//! - [`locomotion`]: ground contact, heading, stride, jump and friction;
//! - [`input`]: the controls, read off the engine's keyboard state;
//! - [`junk`]: which contacts are junk striking a planet;
//! - [`app_state_machine`] and [`game_state_machine`]: the screens of the
//!   application and the states of a level;
//! - [`fraction`]: the exact scalars all of them answer in.

pub mod app_state_machine;
pub mod fraction;
pub mod game_state_machine;
pub mod gravity;
pub mod input;
pub mod junk;
pub mod locomotion;
