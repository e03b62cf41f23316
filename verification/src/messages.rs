//! The logical message taxonomy of the duplex connection.
//!
//! Commands flow from the controller side to the agent; responses echo the
//! correlation identifier of the request that caused them, except for the
//! process-initiated, uncorrelated property update and the unsolicited
//! query refresh. The wire encoding of these values lives outside the
//! crate.

use crate::properties::property;
use crate::propstore::PropEntry;
use crate::query_options::{QueryOptions, QuerySend};
use vstd::prelude::*;

verus! {

/// A command for the agent colocated with the managed process.
#[allow(non_camel_case_types)]
#[derive(Debug)]
pub enum AgentActions {
    sv_start,
    sv_stop,
    message(String),
    request_props(u128),
    edit_prop(u128, property),
    StartQuery(u128, QueryOptions, u64, u64),
}

/// A message from the agent back to the controller side.
#[allow(non_camel_case_types)]
#[derive(Debug)]
pub enum ServerActions {
    /// Process-initiated, uncorrelated snapshot broadcast.
    props_update(Vec<PropEntry>),
    /// The snapshot requested or changed under the echoed identifier.
    PropsResponse(u128, Vec<PropEntry>),
    /// The reply to a query start: description, icon bytes, selected
    /// status.
    QueryResponse(u128, String, Vec<u8>, QuerySend),
    /// An unsolicited periodic refresh for the monitor shown at the given
    /// message and channel.
    UpdateQuery(u64, u64, QuerySend),
}

/// What a resolved response hands the originator blocked on its
/// completion signal.
#[derive(Debug)]
pub enum OneshotResponses {
    PropsResponse(Vec<PropEntry>),
    QueryResponse(String, Vec<u8>, QuerySend),
}

} // verus!
