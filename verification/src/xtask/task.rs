//! The tasks of the developer's tool.

pub mod artifacts;
pub mod dl;
pub mod output;
pub mod pack;
pub mod test;
