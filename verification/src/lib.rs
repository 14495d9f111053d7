//! Dice on a table: which face of a die is up, when a die has come to rest,
//! how a throw replaces the dice on the table, and the line of text that
//! shows what was rolled.
//!
//! All quantities are exact integers. Lengths, velocities and impulses are
//! counted in thousandths of a unit; a rotation is a quaternion with integer
//! components, of which only the direction matters. A physics engine and a
//! renderer are expected around this crate: they hand in rotations and
//! velocities, and take spawn requests and the text.

pub mod die;
pub mod display;
pub mod face;
pub mod orientation;
pub mod settle;
pub mod throw;
pub mod tray;
pub mod vector;
