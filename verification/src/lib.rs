//! A verified model of the 8080/Z80 `DAA` (decimal adjust accumulator)
//! instruction: given a CPU state, correct the accumulator so that it holds a
//! valid packed BCD value and recompute the condition flags.

pub mod cpu;
pub mod daa;
