//! A radial popup menu engine: hit-testing against a ring of wedges, per-wedge
//! hover animation, the slide-in transition, and the per-frame draw parameters.
//!
//! All quantities are exact integers. Lengths are thousandths of a pixel,
//! ratios are thousandths of one (see [`units::ONE`]), and angles are
//! fractions of a full turn (see [`geometry::FULL_TURN`]). The radial offset
//! of a wedge alone is kept in millionths of a pixel (see
//! [`animation::OFFSET_PIXEL`]). Nothing here draws
//! or reads input: callers hand in coordinates, and the direction of the
//! pointer as an angle, and get back indices and draw parameters.
//!
//! - [`geometry`] finds the wedge under the pointer.
//! - [`animation`] moves scales, offsets and the slide from tick to tick.
//! - [`circular_layout`] lays out a frame.
//! - [`app_state`] holds a session and decides what events call for.
//! - [`config`] holds the configured buttons and reads their colours.
//! - [`paths`] lists where the menu's files are looked for.

pub mod animation;
pub mod app_state;
pub mod circular_layout;
pub mod config;
pub mod error;
pub mod geometry;
pub mod paths;
pub mod units;
