//! What holds of the machine as a whole.
//!
//! Each function here is a theorem over the models that the contracts of the other modules speak
//! of. None of them computes anything.
pub mod addresses;
pub mod arithmetic;
pub mod branches;
pub mod bytes;
pub mod cartridges;
pub mod clocks;
pub mod constants;
pub mod control;
pub mod counters;
pub mod decoding;
pub mod display;
pub mod flow;
pub mod invariants;
pub mod machine;
pub mod mnemonics;
pub mod moves;
pub mod pixels;
pub mod raw;
pub mod scanning;
pub mod shifts;
pub mod stages;
pub mod steps;
pub mod storage;
pub mod table;
pub mod texts;
pub mod timing;
pub mod words;
