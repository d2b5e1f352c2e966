//! Angle and coordinate value types for astronomy: right ascension,
//! declination, celestial coordinate pairs and tangent-plane points,
//! generic over the scalar that carries the angle.
//!
//! The scalar is any implementation of [`Float`]. The library computes with
//! it and assumes nothing of its arithmetic: a contract says which of the
//! scalar's operations produced a result, from which operands, through the
//! relations of [`float`]. The laws of the angle types are proved for every
//! scalar of which the facts in [`ieee`] hold, and each law names the facts it
//! uses.

pub mod declination;
pub mod float;
pub mod ieee;
pub mod ra_dec;
pub mod right_ascension;
pub mod sexagesimal;
pub mod tangent_position;
pub mod tolerance;

pub use self::declination::Declination;
pub use self::float::Float;
pub use self::ra_dec::RaDec;
pub use self::right_ascension::RightAscension;
pub use self::tangent_position::TangentPosition;
