//! A top-down vehicle force model in exact integer arithmetic.
//!
//! A car is a chassis with four wheels, the front pair steerable. Every tick
//! each wheel receives a force (drive plus lateral friction) and a steering
//! torque that follow from the held keys and the wheel's motion.
//!
//! Lengths, speeds and masses are whole numbers. A rotation is a planar
//! quaternion with integer parts, and a heading or a force is a pair of
//! numerators over a common denominator, so that nothing is rounded.
//!
//! The parts of a rotation have sixteen bits, a coordinate of a velocity
//! thirty-two and a mass sixteen; forces are worked out in 128 bits, which
//! holds every result that such inputs can give.

pub mod control;
pub mod laws;
pub mod math;
pub mod vehicle;
pub mod world;

pub use control::{drive_gain, follow_car, get_facing, setup, steer, steer_torque, wheel_forces, Input};
pub use math::{Quat, RatVec2, Ratio, Transform, Vec2, Vec3};
pub use vehicle::{Car, Steerable, Wheel};
pub use world::{Camera, WheelEntity, World};
