//! The built-in functions and the root environment that holds them.
pub mod list;
pub mod math;
pub mod root;
