//! A tiny real-time-rendering core: a paper-folding curve generator that
//! produces exact line-strip geometry, a fixed rainbow-colored cube, and a
//! frame driver that owns the animation clock and assembles one render
//! packet per tick.

pub mod cube;
pub mod curve;
pub mod driver;
pub mod geometry;
