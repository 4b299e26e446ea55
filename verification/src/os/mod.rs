//! What is read of a guest operating system from the memory of the target.

pub mod memory;
pub mod text;
pub mod windows;
