//! The developer's side: packing the test data of a source tree, and testing
//! a packaged source tree against it.

pub mod args;
pub mod target;
pub mod task;
pub mod template;
pub mod util;
