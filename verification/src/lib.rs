//! Workspace synchronization engine for a tree of git checkouts.
//!
//! A workspace is a directory tree rooted at one well-known directory, in
//! which every checkout lives at `root/<host>/<project-path>`. Given a
//! remote repository address, the library derives that local path, decides
//! whether to clone, replace or fast-forward-update the checkout, and
//! tracks progress while a transport performs the work.

pub mod bytes;
pub mod clone;
pub mod commands;
pub mod pull;
pub mod remote;
pub mod progress;
pub mod resolve;
pub mod sync;
