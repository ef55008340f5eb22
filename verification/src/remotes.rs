//! Explicit connect, reconnect and disconnect actions on a configured remote
//! host, as the API carries them.
use vstd::prelude::*;

verus! {

/// Names the configured host, by its alias, that a lifecycle method acts on.
#[derive(Debug, PartialEq, Eq)]
pub struct RemoteLifecycleHostParams {
    pub host: String,
}

impl Clone for RemoteLifecycleHostParams {
    fn clone(&self) -> (res: Self)
        ensures
            res == *self,
    {
        RemoteLifecycleHostParams { host: self.host.clone() }
    }
}

/// The lifecycle action that a caller asked for.
#[derive(Debug, Clone, Copy, PartialEq, Eq, Structural)]
pub enum RemoteLifecycleAction {
    Connect,
    Reconnect,
    Disconnect,
}

impl RemoteLifecycleAction {
    /// The API method of this action.
    pub open spec fn method(self) -> Seq<char> {
        match self {
            RemoteLifecycleAction::Connect => "remote.connect"@,
            RemoteLifecycleAction::Reconnect => "remote.reconnect"@,
            RemoteLifecycleAction::Disconnect => "remote.disconnect"@,
        }
    }

    /// The word for this action in messages.
    pub open spec fn word(self) -> Seq<char> {
        match self {
            RemoteLifecycleAction::Connect => "connect"@,
            RemoteLifecycleAction::Reconnect => "reconnect"@,
            RemoteLifecycleAction::Disconnect => "disconnect"@,
        }
    }

    pub fn method_name(self) -> (name: &'static str)
        ensures
            name@ == self.method(),
    {
        match self {
            RemoteLifecycleAction::Connect => "remote.connect",
            RemoteLifecycleAction::Reconnect => "remote.reconnect",
            RemoteLifecycleAction::Disconnect => "remote.disconnect",
        }
    }

    pub fn label(self) -> (label: &'static str)
        ensures
            label@ == self.word(),
    {
        match self {
            RemoteLifecycleAction::Connect => "connect",
            RemoteLifecycleAction::Reconnect => "reconnect",
            RemoteLifecycleAction::Disconnect => "disconnect",
        }
    }
}

/// The local aggregation status of a host after a lifecycle action.
#[derive(Debug, Clone, Copy, PartialEq, Eq, Structural)]
pub enum RemoteLifecycleResultStatus {
    /// The host is aggregated.
    Connected,
    /// Disconnected on request, or not connected yet with a supervisor retrying.
    Disconnected,
    /// The host cannot be reached right now.
    Unreachable,
    /// The remote program is missing or too old; nothing was installed.
    NeedsUpdate,
    /// No healthy supervisor and no definite status yet.
    Unhealthy,
}

/// What a lifecycle action did to the local view of a host.
#[derive(Debug, PartialEq, Eq)]
pub struct RemoteLifecycleResult {
    pub host: String,
    pub session: String,
    pub action: RemoteLifecycleAction,
    pub status: RemoteLifecycleResultStatus,
    pub changed: bool,
    /// Always true: lifecycle actions never stop the remote program.
    pub remote_authoritative: bool,
    pub detail: Option<String>,
}

impl Clone for RemoteLifecycleResult {
    fn clone(&self) -> (res: Self)
        ensures
            res == *self,
    {
        RemoteLifecycleResult {
            host: self.host.clone(),
            session: self.session.clone(),
            action: self.action,
            status: self.status,
            changed: self.changed,
            remote_authoritative: self.remote_authoritative,
            detail: self.detail.clone(),
        }
    }
}

} // verus!
