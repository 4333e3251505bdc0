//! Bus-side collaborators of the simulator core.

pub mod dram;
