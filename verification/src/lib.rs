//! Test data for packaged source trees.
//!
//! Integration tests often need files that are too large to ship in a source
//! package. This library resolves the paths of such files: in a working copy
//! they are found beside the manifest; in an unpacked source package they are
//! checked out of the repository at the commit that the package pins, from
//! packs shipped along or, with consent, from the network.
//!
//! The library decides and describes; it runs no process and touches no
//! file. A caller performs each [`resolve::Directive`] and reports what came
//! of it as a [`resolve::Event`].

pub mod checkout;
pub mod error;
pub mod git;
pub mod invariants;
pub mod path;
pub mod pin;
pub mod process;
pub mod resolve;
pub mod setup;
pub mod store;
pub mod text;
pub mod unique;
pub mod worktree;
pub mod xtask;

pub use crate::setup::EnvOptions;
pub use crate::setup::Environment;
pub use crate::setup::Files;
pub use crate::setup::FsData;
pub use crate::setup::Setup;
pub use crate::setup::_setup;
