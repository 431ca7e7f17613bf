//! Sequencing of DRAM frequency training on the Tegra X1.
//!
//! The physical training step and the clock-source register are outside this
//! crate. The crate decides: which profile a memory chip uses, how a profile
//! blob splits into records, which record the running clock source selects,
//! and which training requests are issued in which order. The caller performs
//! each request on the hardware and reports the rate the controller ended at.

pub mod frequency;
pub mod table;
pub mod dram_profile;
pub mod state;
pub mod trainer;

pub use crate::frequency::{Frequency, TrainMode};
pub use crate::state::{TrainingConfig, TrainingRequest};
pub use crate::trainer::MinervaTrainer;
