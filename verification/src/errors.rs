//! The error taxonomy of the management core.

use vstd::prelude::*;

verus! {

/// Every failure a command-originating call can surface. Orphan responses,
/// per-tick probe failures and malformed messages are recoverable: the
/// dispatch loop logs them and goes on.
#[derive(Debug, Clone, Copy, PartialEq, Eq, Structural)]
pub enum AgentError {
    /// A response arrived whose correlation identifier matches no pending
    /// request (an orphan); dropped, never fatal.
    UnknownCorrelationId,
    /// A correlation identifier was registered twice.
    DuplicateCorrelationId,
    /// `start` was called while the managed process is running.
    ProcessAlreadyRunning,
    /// `stop` was called while the managed process is stopped.
    ProcessNotRunning,
    /// The managed process could not be spawned.
    ProcessSpawnFailed,
    /// The running process's input stream was unavailable for the shutdown
    /// command; the process is still considered running and may be retried.
    ProcessUnresponsive,
    /// The key is absent from the configuration snapshot.
    PropertyNotFound,
    /// No configuration snapshot has ever been loaded.
    PropertyStoreUnavailable,
    /// Persisting the configuration failed; the snapshot kept its pre-write
    /// value.
    PropertyWriteFailed,
    /// A stored property value does not parse as its expected shape (a
    /// boolean property whose text is neither "true" nor "false", or an
    /// unparseable port number).
    InvalidPropertyValue,
    /// The status probe against the secondary protocol could not complete.
    UpstreamQueryFailed,
    /// The embedded icon payload was absent or malformed.
    IconDecodeFailed,
    /// An inbound message failed to decode; logged, the connection goes on.
    MalformedMessage,
}

impl AgentError {
    /// A short description, for rendering by the excluded command layer.
    pub fn describe(&self) -> (r: &'static str)
        ensures
            r@ == match *self {
                AgentError::UnknownCorrelationId => "unknown correlation identifier"@,
                AgentError::DuplicateCorrelationId => "correlation identifier already registered"@,
                AgentError::ProcessAlreadyRunning => "process already running"@,
                AgentError::ProcessNotRunning => "process not running"@,
                AgentError::ProcessSpawnFailed => "process spawn failed"@,
                AgentError::ProcessUnresponsive => "process unresponsive"@,
                AgentError::PropertyNotFound => "property not found"@,
                AgentError::PropertyStoreUnavailable => "property store unavailable"@,
                AgentError::PropertyWriteFailed => "property write failed"@,
                AgentError::InvalidPropertyValue => "invalid property value"@,
                AgentError::UpstreamQueryFailed => "upstream query failed"@,
                AgentError::IconDecodeFailed => "icon decode failed"@,
                AgentError::MalformedMessage => "malformed message"@,
            },
    {
        match self {
            AgentError::UnknownCorrelationId => "unknown correlation identifier",
            AgentError::DuplicateCorrelationId => "correlation identifier already registered",
            AgentError::ProcessAlreadyRunning => "process already running",
            AgentError::ProcessNotRunning => "process not running",
            AgentError::ProcessSpawnFailed => "process spawn failed",
            AgentError::ProcessUnresponsive => "process unresponsive",
            AgentError::PropertyNotFound => "property not found",
            AgentError::PropertyStoreUnavailable => "property store unavailable",
            AgentError::PropertyWriteFailed => "property write failed",
            AgentError::InvalidPropertyValue => "invalid property value",
            AgentError::UpstreamQueryFailed => "upstream query failed",
            AgentError::IconDecodeFailed => "icon decode failed",
            AgentError::MalformedMessage => "malformed message",
        }
    }
}

} // verus!
