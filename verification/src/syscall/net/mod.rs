//! Socket options.

pub mod conv;
pub mod opt;
