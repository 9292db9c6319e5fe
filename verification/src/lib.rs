//! Resolve a source project — a local directory or a versioned remote
//! repository — into a concrete working directory, run preparatory hook
//! commands, and hand the result to an external compiler and code generator.
//!
//! The core is the versioned source resolution subsystem: a reusable,
//! cache-aware object database per remote, resolution of a symbolic reference
//! to an immutable content identifier, and extraction of that identifier's
//! file tree into a destination directory. All decision logic lives here with
//! proved contracts; the surrounding process performs the network, process,
//! and filesystem actions these functions plan.

pub mod database;
pub mod destination;
pub mod errors;
pub mod extract;
pub mod paths;
pub mod pipeline;
pub mod reference;
pub mod remote;
pub mod repository;

pub use crate::destination::RepositoryDestination;
pub use crate::pipeline::{Binder, CompilerConfig, SourceLocation};
pub use crate::reference::GitReference;
pub use crate::remote::GitRemote;
pub use crate::repository::{Repository, RepositoryBuilder};
