//! The items most callers need.
pub use crate::catch_error::{catch_error, Protected};
pub use crate::checked::{Access, CheckedCommands, CheckedError, CheckedMutCommands, Command};
pub use crate::subtxn::{sub_transaction, DropPolicy, HostCall, SubTransaction, Tokens};
