//! Fixed-point fractions of the unit interval, each held in one `u32`.
//!
//! - [`Primant`] is a fraction of the closed interval from 0 to 1.
//! - [`Phase`] is a fraction of the half-open interval from 0 up to, but not
//!   including, 1, for cyclic quantities such as angles.
//!
//! Every `u32` is a valid raw code of either type, and the order of the raw
//! codes is the order of the fractions they stand for.
//!
//! The crate computes on integers alone. What a fraction stands for is stated
//! as a real number, and each constructor says how far its result may lie
//! from the number it was asked for.
pub mod code;
pub mod percent;
pub mod phase;
pub mod primant;
pub mod ratio;

pub use code::{CODE_COUNT, MAX_CODE};
pub use phase::Phase;
pub use primant::Primant;
pub use ratio::RatioError;
