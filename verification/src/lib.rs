//  Generates build-profiling scenario definitions by sweeping a memory-size
//  setting over a numeric range and rendering one scenario block per value.

pub mod decimal;
pub mod scenario;
pub mod sweep;
