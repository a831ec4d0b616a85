//! Planar kinematics primitives on exact integer arithmetic.
//!
//! A heading is a [`Direction`], an angle counted in thousandths of a degree;
//! a location is a [`Position`] on an integer grid whose unit is the caller's
//! choice; a [`MotionVector`] bundles a position, a heading and a speed.
//! Angles grow clockwise and wrap at a full turn. Every operation is proved
//! against a mathematical model over unbounded integers, and the algebraic
//! laws that relate the operations are stated as public proof functions next
//! to them.

pub mod direction;
pub mod entropy;
pub mod motion;
pub mod position;
pub mod root;
pub mod units;

pub use direction::{Axis, Direction};
pub use motion::MotionVector;
pub use position::{Bearing, Position, Quadrant};
