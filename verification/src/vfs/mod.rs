//! The pure logic of the simple file systems and device nodes.

pub mod dev;
pub mod dir;
pub mod error;
pub mod file;
pub mod name;
pub mod node;
pub mod tmp;
