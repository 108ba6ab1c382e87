//! What depends on the operating system.

pub mod osx;
