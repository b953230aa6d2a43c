//! A disk-usage scanning engine.
//!
//! The engine computes, for a directory tree, the cumulative on-disk size of
//! every file and every directory (including transitively contained files),
//! while a consumer can observe progress and read partial results before the
//! computation finishes.  Directory discovery and metadata reads are left to
//! the caller, which hands each discovered regular file to the engine as a
//! plain value: the file's identity, its length, and the identities of its
//! ancestor directories.

pub mod engine;
pub mod identity;
pub mod laws;
pub mod ledger;
pub mod model;

pub use engine::{AlreadyRunningError, Opt, Progress, Search};
pub use identity::FileIdentity;
pub use ledger::SizeLedger;
