//! Device nodes.

pub mod card1;
pub mod rknpu;
