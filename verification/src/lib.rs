//! Builds the prompt for a pull-request description from what a version
//! control tool reports about a branch, and reads the description out of the
//! text-generation service's answer.

pub mod compose;
pub mod decimal;
pub mod error;
pub mod generate;
pub mod generator;
pub mod inspect;
pub mod prompt;
pub mod run;
pub mod stats;
pub mod text;
