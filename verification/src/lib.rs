//! Nested transaction scopes with an exception-safe command layer.
//!
//! The database engine itself stays outside this crate. An operation that
//! resolves a scope hands back the [`subtxn::HostCall`] that the embedding
//! has to perform; an operation that runs a command takes a closure that
//! stands for the engine, or what the engine answered. The crate decides;
//! the embedding acts.
//!
//! * [`subtxn`] holds the scope handle and its lifecycle.
//! * [`catch_error`] is the error boundary around a body that uses a handle.
//! * [`checked`] runs a single command inside that boundary.
//! * [`model`] describes the engine's nesting discipline and states what the
//!   calls issued by this crate do to it.
pub mod subtxn;
pub mod catch_error;
pub mod checked;
pub mod model;
pub mod prelude;
