//! Narrow-phase geometric queries over exact arithmetic.
//!
//! Shapes are described by integer coordinates and queried under rigid
//! isometries (signed axis permutations plus integer translations), so every
//! projection, ray cast and time-of-impact computation is carried out in
//! exact rational arithmetic: results are rationals, never approximations.
//!
//! The concrete shapes are those whose queries stay rational: a segment's
//! point projection, a plane's ray cast, and the time of impact of a vertex
//! pair through its configuration-space obstacle.  A ball's ray cast and
//! the ball-against-ball or plane-against-support-map times of impact take
//! square roots, which exact rational arithmetic cannot return for most
//! inputs, so those closed forms, and composite shapes with them, are not
//! part of this library.

pub mod scalar;
pub mod math;
pub mod point_query;
pub mod point_segment;
pub mod ray;
pub mod plane;
pub mod shape;
pub mod toi;
