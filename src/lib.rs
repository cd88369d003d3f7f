//! YIN pitch estimation over 16-bit PCM samples, with exact rational
//! arithmetic for the normalized difference function.

pub mod difference;
pub mod estimator;
pub mod normalize;
pub mod ratio;
pub mod search;

pub use difference::diff_function;
pub use estimator::{compute_sample_frequency, convert_to_frequency, UnknownPitch, Yin32};
pub use normalize::cmndf;
pub use ratio::Ratio;
pub use search::compute_diff_min;
