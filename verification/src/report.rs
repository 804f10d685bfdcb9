//! Report aggregation and the built-in entry producers.

pub mod properties;
pub mod report;
pub mod token_info;
pub mod util;
