//! The dispatch logic of the two loops around the duplex connection.
//!
//! The agent side routes each decoded command to a controller step; the
//! controller side matches each inbound response to the correlation
//! registry and says who, if anyone, is to be woken. Reading and writing
//! frames is outside work; both functions speak plain values.

use crate::assoc::{has_key, lookup, remove_first};
use crate::errors::AgentError;
use crate::messages::{AgentActions, OneshotResponses, ServerActions};
use crate::properties::property;
use crate::propstore::PropEntry;
use crate::query_options::{QueryOptions, QuerySend};
use crate::process::ServerProcess;
use crate::propstore::entries_view;
use crate::registry::CorrelationRegistry;
use vstd::prelude::*;

verus! {

/// The controller step an inbound command asks for.
#[derive(Debug)]
pub enum AgentStep {
    /// A plain text message: logged, nothing else.
    Chat(String),
    StartProcess,
    StopProcess,
    /// Answer with the current snapshot under the identifier.
    SendProps(u128),
    /// Apply the edit, then answer with the snapshot under the
    /// identifier.
    EditProp(u128, property),
    /// Begin a status subscription under the identifier, showing at the
    /// given message and channel.
    BeginQuery(u128, QueryOptions, u64, u64),
}

/// Routes one decoded command to its controller step. Total: every
/// command has exactly one step.
pub fn route_action(action: AgentActions) -> (r: AgentStep)
    ensures
        match action {
            AgentActions::sv_start => r is StartProcess,
            AgentActions::sv_stop => r is StopProcess,
            AgentActions::message(text) => (r matches AgentStep::Chat(t) && t == text),
            AgentActions::request_props(id) => (r matches AgentStep::SendProps(i) && i == id),
            AgentActions::edit_prop(id, p) => (r matches AgentStep::EditProp(i, q) && i == id && q
                == p),
            AgentActions::StartQuery(id, options, message_id, channel_id) => (r matches
                AgentStep::BeginQuery(i, o, m, c) && i == id && o == options && m == message_id
                && c == channel_id),
        },
{
    match action {
        AgentActions::sv_start => AgentStep::StartProcess,
        AgentActions::sv_stop => AgentStep::StopProcess,
        AgentActions::message(text) => AgentStep::Chat(text),
        AgentActions::request_props(id) => AgentStep::SendProps(id),
        AgentActions::edit_prop(id, p) => AgentStep::EditProp(id, p),
        AgentActions::StartQuery(id, options, message_id, channel_id) => AgentStep::BeginQuery(
            id,
            options,
            message_id,
            channel_id,
        ),
    }
}

/// The verified part of asking for the configuration snapshot: mints and
/// registers a correlation identifier under the caller's waiter ticket
/// and builds the command that echoes it.
pub fn begin_props_request(registry: &mut CorrelationRegistry, ticket: u64) -> (r: Result<
    (u128, AgentActions),
    AgentError,
>)
    ensures
        match r {
            Ok(pair) => !has_key(old(registry)@, pair.0) && final(registry)@ == old(
                registry,
            )@.push((pair.0, ticket)) && (pair.1 matches AgentActions::request_props(i) && i
                == pair.0),
            Err(e) => e == AgentError::DuplicateCorrelationId && *final(registry) == *old(registry),
        },
{
    match registry.begin_request(ticket) {
        Ok(id) => Ok((id, AgentActions::request_props(id))),
        Err(e) => Err(e),
    }
}

/// The verified part of sending an edit command, correlated like a
/// snapshot request.
pub fn begin_edit_request(registry: &mut CorrelationRegistry, ticket: u64, prop: property) -> (r:
    Result<(u128, AgentActions), AgentError>)
    ensures
        match r {
            Ok(pair) => !has_key(old(registry)@, pair.0) && final(registry)@ == old(
                registry,
            )@.push((pair.0, ticket)) && (pair.1 matches AgentActions::edit_prop(i, p) && i
                == pair.0 && p == prop),
            Err(e) => e == AgentError::DuplicateCorrelationId && *final(registry) == *old(registry),
        },
{
    match registry.begin_request(ticket) {
        Ok(id) => Ok((id, AgentActions::edit_prop(id, prop))),
        Err(e) => Err(e),
    }
}

/// The verified part of starting a status subscription, correlated like a
/// snapshot request.
pub fn begin_query_request(
    registry: &mut CorrelationRegistry,
    ticket: u64,
    options: QueryOptions,
    message_id: u64,
    channel_id: u64,
) -> (r: Result<(u128, AgentActions), AgentError>)
    ensures
        match r {
            Ok(pair) => !has_key(old(registry)@, pair.0) && final(registry)@ == old(
                registry,
            )@.push((pair.0, ticket)) && (pair.1 matches AgentActions::StartQuery(i, o, m, c) && i
                == pair.0 && o == options && m == message_id && c == channel_id),
            Err(e) => e == AgentError::DuplicateCorrelationId && *final(registry) == *old(registry),
        },
{
    match registry.begin_request(ticket) {
        Ok(id) => Ok((id, AgentActions::StartQuery(id, options, message_id, channel_id))),
        Err(e) => Err(e),
    }
}

/// Builds the snapshot response that echoes a request's identifier: the
/// compute part of answering a snapshot request or a completed edit.
pub fn props_response(proc: &ServerProcess, id: u128) -> (r: Result<ServerActions, AgentError>)
    ensures
        !proc.has_store() ==> (r matches Err(e) && e == AgentError::PropertyStoreUnavailable),
        proc.has_store() ==> (r matches Ok(m) && (m matches ServerActions::PropsResponse(i, entries)
            && i == id && entries_view(entries@) == proc.store_view())),
{
    match proc.snapshot_entries() {
        Ok(entries) => Ok(ServerActions::PropsResponse(id, entries)),
        Err(e) => Err(e),
    }
}

/// Builds the uncorrelated snapshot broadcast the process-initiated
/// update flow sends.
pub fn props_broadcast(proc: &ServerProcess) -> (r: Result<ServerActions, AgentError>)
    ensures
        !proc.has_store() ==> (r matches Err(e) && e == AgentError::PropertyStoreUnavailable),
        proc.has_store() ==> (r matches Ok(m) && (m matches ServerActions::props_update(entries)
            && entries_view(entries@) == proc.store_view())),
{
    match proc.snapshot_entries() {
        Ok(entries) => Ok(ServerActions::props_update(entries)),
        Err(e) => Err(e),
    }
}

/// What the controller-side loop does with one inbound message.
#[derive(Debug)]
pub enum DispatchOutcome {
    /// Wake the waiter under the ticket with the payload.
    Deliver(u64, OneshotResponses),
    /// The identifier matches no outstanding request: log and drop.
    Orphan(u128),
    /// Refresh the monitor shown at the given message and channel.
    MonitorUpdate(u64, u64, QuerySend),
    /// An uncorrelated, process-initiated snapshot broadcast.
    PropertiesChanged(Vec<PropEntry>),
}

/// Matches one inbound message against the registry. A correlated
/// response resolves and removes exactly its own entry; an orphan leaves
/// the registry untouched and never fails; uncorrelated messages pass
/// through.
pub fn handle_server_action(registry: &mut CorrelationRegistry, action: ServerActions) -> (r:
    DispatchOutcome)
    ensures
        match action {
            ServerActions::props_update(entries) => (r matches
                DispatchOutcome::PropertiesChanged(e) && e == entries) && *final(registry) == *old(
                registry,
            ),
            ServerActions::PropsResponse(id, props) => {
                &&& has_key(old(registry)@, id) ==> (r matches DispatchOutcome::Deliver(t, resp)
                    && t == lookup(old(registry)@, id) && (resp matches
                    OneshotResponses::PropsResponse(p) && p == props) && final(registry)@
                    == remove_first(old(registry)@, id))
                &&& !has_key(old(registry)@, id) ==> ((r matches DispatchOutcome::Orphan(o) && o
                    == id) && *final(registry) == *old(registry))
            },
            ServerActions::QueryResponse(id, description, icon, status) => {
                &&& has_key(old(registry)@, id) ==> (r matches DispatchOutcome::Deliver(t, resp)
                    && t == lookup(old(registry)@, id) && (resp matches
                    OneshotResponses::QueryResponse(d, i, s) && d == description && i == icon && s
                    == status) && final(registry)@ == remove_first(old(registry)@, id))
                &&& !has_key(old(registry)@, id) ==> ((r matches DispatchOutcome::Orphan(o) && o
                    == id) && *final(registry) == *old(registry))
            },
            ServerActions::UpdateQuery(message_id, channel_id, status) => (r matches
                DispatchOutcome::MonitorUpdate(m, c, s) && m == message_id && c == channel_id && s
                == status) && *final(registry) == *old(registry),
        },
{
    match action {
        ServerActions::props_update(entries) => DispatchOutcome::PropertiesChanged(entries),
        ServerActions::PropsResponse(id, props) => {
            match registry.complete(id) {
                Ok(ticket) => DispatchOutcome::Deliver(
                    ticket,
                    OneshotResponses::PropsResponse(props),
                ),
                Err(_) => DispatchOutcome::Orphan(id),
            }
        },
        ServerActions::QueryResponse(id, description, icon, status) => {
            match registry.complete(id) {
                Ok(ticket) => DispatchOutcome::Deliver(
                    ticket,
                    OneshotResponses::QueryResponse(description, icon, status),
                ),
                Err(_) => DispatchOutcome::Orphan(id),
            }
        },
        ServerActions::UpdateQuery(message_id, channel_id, status) => {
            DispatchOutcome::MonitorUpdate(message_id, channel_id, status)
        },
    }
}

} // verus!
