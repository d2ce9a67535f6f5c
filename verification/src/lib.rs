//! Verified core of a dynamic plugin loader.
//!
//! A host process opens a compiled shared object, resolves exported entry
//! points by name, and invokes the chosen one either on the calling thread or
//! on a dedicated worker thread. The foreign-function calls themselves are
//! `unsafe` and are performed by the unverified host around this crate; this
//! crate holds the protocol decisions, all of them verified: how an open
//! attempt is classified, which entry point is selected, when a worker may be
//! dispatched, how the running flag transitions, when the handle may be
//! closed, and which exit code each outcome earns.

pub mod dispatch;
pub mod errors;
pub mod loader;
pub mod selection;
