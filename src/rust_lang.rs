//! Small string and trait samples.

pub mod life_time;
pub mod trait_s;
pub mod trait_sample;
