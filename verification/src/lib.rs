//! Remote management core for a long-running managed process.
//!
//! A controller issues commands (start or stop the process, read or edit its
//! configuration, subscribe to live status) to an agent colocated with the
//! process, over a duplex message connection. This crate holds the verified
//! core: the correlation registry that matches asynchronous responses to
//! their requests, the process lifecycle with its backing configuration
//! store, and the query session that assembles field-selected status
//! replies. Transport, file and network I/O live outside the crate and hand
//! plain values in and out.

pub mod assoc;
pub mod dispatch;
pub mod errors;
pub mod messages;
pub mod process;
pub mod properties;
pub mod propstore;
pub mod query;
pub mod query_options;
pub mod registry;
pub mod screen;
pub mod text;

use vstd::prelude::*;

verus! {

} // verus!
