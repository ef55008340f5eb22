//! What a server says of itself: its capabilities and the federation methods
//! that another server may route to it.
use vstd::prelude::*;
use crate::remotes::RemoteLifecycleAction;
use crate::text::same_text;

verus! {

/// `ping` takes no parameters.
#[derive(Debug, Clone, Copy, PartialEq, Eq, Structural)]
pub struct PingParams {}

impl Default for PingParams {
    fn default() -> (params: Self)
        ensures
            params == (PingParams {}),
    {
        PingParams {}
    }
}

/// Parameters of a live handoff to another executable.
#[derive(Debug, PartialEq, Eq)]
pub struct ServerLiveHandoffParams {
    pub import_exe: Option<String>,
    pub expected_protocol: Option<u32>,
    pub expected_version: Option<String>,
}

impl Clone for ServerLiveHandoffParams {
    fn clone(&self) -> (res: Self)
        ensures
            res == *self,
    {
        ServerLiveHandoffParams {
            import_exe: self.import_exe.clone(),
            expected_protocol: self.expected_protocol,
            expected_version: self.expected_version.clone(),
        }
    }
}

impl Default for ServerLiveHandoffParams {
    fn default() -> (params: Self)
        ensures
            params.import_exe is None,
            params.expected_protocol is None,
            params.expected_version is None,
    {
        ServerLiveHandoffParams { import_exe: None, expected_protocol: None, expected_version: None }
    }
}

/// What the running server supports.
#[derive(Debug, PartialEq, Eq)]
pub struct ServerCapabilities {
    pub live_handoff: bool,
    pub detached_server_daemon: bool,
    pub federation: Option<FederationCapabilities>,
}

impl ServerCapabilities {
    /// What this build supports.
    pub fn current() -> (capabilities: Self)
        ensures
            capabilities.live_handoff,
            capabilities.detached_server_daemon,
            capabilities.federation is Some,
            capabilities.federation->0@ == FederationCapabilities::current_methods(),
    {
        ServerCapabilities {
            live_handoff: true,
            detached_server_daemon: true,
            federation: Some(FederationCapabilities::current()),
        }
    }
}

/// The methods that a server accepts from another one, by name.
#[derive(Debug, PartialEq, Eq)]
pub struct FederationCapabilities {
    pub methods: Vec<String>,
}

impl View for FederationCapabilities {
    type V = Seq<Seq<char>>;

    /// The names, in the order in which they are listed.
    open spec fn view(&self) -> Seq<Seq<char>> {
        self.methods@.map_values(|name: String| name@)
    }
}

impl Clone for FederationCapabilities {
    fn clone(&self) -> (res: Self)
        ensures
            res.methods@ == self.methods@,
            res@ == self@,
    {
        let methods = self.methods.clone();
        assert(methods@ =~= self.methods@);
        FederationCapabilities { methods }
    }
}

impl FederationCapabilities {
    pub const REMOTE_API_BRIDGE: &'static str = "remote_api_bridge";
    pub const WORKSPACE_CREATE: &'static str = "workspace_create";
    pub const WORKSPACE_LIST_LOCAL: &'static str = "workspace_list_local";
    pub const AGENT_LIST: &'static str = "agent_list";
    pub const AGENT_LIST_LOCAL: &'static str = "agent_list_local";
    pub const AGENT_GET: &'static str = "agent_get";
    pub const AGENT_READ: &'static str = "agent_read";
    pub const AGENT_SEND: &'static str = "agent_send";
    pub const AGENT_SUBMIT: &'static str = "agent_submit";
    pub const AGENT_FOCUS: &'static str = "agent_focus";
    pub const AGENT_START: &'static str = "agent_start";
    pub const AGENT_TEARDOWN: &'static str = "agent_teardown";
    pub const WORKSPACE_RENAME: &'static str = "workspace_rename";
    pub const TAB_RENAME: &'static str = "tab_rename";
    pub const PANE_SPLIT: &'static str = "pane_split";
    pub const PANE_CLOSE: &'static str = "pane_close";
    pub const PANE_RENAME: &'static str = "pane_rename";
    pub const PANE_FOCUS: &'static str = "pane_focus";
    pub const PANE_FOCUS_DIRECTION: &'static str = "pane_focus_direction";
    pub const TAB_LIST: &'static str = "tab_list";
    pub const TAB_CREATE: &'static str = "tab_create";
    pub const TAB_FOCUS: &'static str = "tab_focus";
    pub const TAB_CLOSE: &'static str = "tab_close";
    pub const LAYOUT_EXPORT: &'static str = "layout_export";
    pub const TERMINAL_ATTACH: &'static str = "terminal_attach";
    pub const REMOTE_API_BRIDGE_PERSISTENT: &'static str = "remote_api_bridge_persistent";

    /// The methods that this build accepts, in the order of its list.
    pub open spec fn current_methods() -> Seq<Seq<char>> {
        seq![
            FederationCapabilities::REMOTE_API_BRIDGE@,
            FederationCapabilities::WORKSPACE_CREATE@,
            FederationCapabilities::WORKSPACE_LIST_LOCAL@,
            FederationCapabilities::WORKSPACE_RENAME@,
            FederationCapabilities::AGENT_LIST@,
            FederationCapabilities::AGENT_LIST_LOCAL@,
            FederationCapabilities::AGENT_GET@,
            FederationCapabilities::AGENT_READ@,
            FederationCapabilities::AGENT_SEND@,
            FederationCapabilities::AGENT_SUBMIT@,
            FederationCapabilities::AGENT_FOCUS@,
            FederationCapabilities::AGENT_START@,
            FederationCapabilities::AGENT_TEARDOWN@,
            FederationCapabilities::PANE_SPLIT@,
            FederationCapabilities::PANE_CLOSE@,
            FederationCapabilities::PANE_RENAME@,
            FederationCapabilities::PANE_FOCUS@,
            FederationCapabilities::PANE_FOCUS_DIRECTION@,
            FederationCapabilities::TAB_LIST@,
            FederationCapabilities::TAB_CREATE@,
            FederationCapabilities::TAB_FOCUS@,
            FederationCapabilities::TAB_CLOSE@,
            FederationCapabilities::TAB_RENAME@,
            FederationCapabilities::LAYOUT_EXPORT@,
            FederationCapabilities::TERMINAL_ATTACH@,
        ]
    }

    /// The methods that this build accepts.
    pub fn current() -> (capabilities: Self)
        ensures
            capabilities@ == Self::current_methods(),
    {
        let mut methods: Vec<String> = Vec::new();
        methods.push(FederationCapabilities::REMOTE_API_BRIDGE.to_owned());
        methods.push(FederationCapabilities::WORKSPACE_CREATE.to_owned());
        methods.push(FederationCapabilities::WORKSPACE_LIST_LOCAL.to_owned());
        methods.push(FederationCapabilities::WORKSPACE_RENAME.to_owned());
        methods.push(FederationCapabilities::AGENT_LIST.to_owned());
        methods.push(FederationCapabilities::AGENT_LIST_LOCAL.to_owned());
        methods.push(FederationCapabilities::AGENT_GET.to_owned());
        methods.push(FederationCapabilities::AGENT_READ.to_owned());
        methods.push(FederationCapabilities::AGENT_SEND.to_owned());
        methods.push(FederationCapabilities::AGENT_SUBMIT.to_owned());
        methods.push(FederationCapabilities::AGENT_FOCUS.to_owned());
        methods.push(FederationCapabilities::AGENT_START.to_owned());
        methods.push(FederationCapabilities::AGENT_TEARDOWN.to_owned());
        methods.push(FederationCapabilities::PANE_SPLIT.to_owned());
        methods.push(FederationCapabilities::PANE_CLOSE.to_owned());
        methods.push(FederationCapabilities::PANE_RENAME.to_owned());
        methods.push(FederationCapabilities::PANE_FOCUS.to_owned());
        methods.push(FederationCapabilities::PANE_FOCUS_DIRECTION.to_owned());
        methods.push(FederationCapabilities::TAB_LIST.to_owned());
        methods.push(FederationCapabilities::TAB_CREATE.to_owned());
        methods.push(FederationCapabilities::TAB_FOCUS.to_owned());
        methods.push(FederationCapabilities::TAB_CLOSE.to_owned());
        methods.push(FederationCapabilities::TAB_RENAME.to_owned());
        methods.push(FederationCapabilities::LAYOUT_EXPORT.to_owned());
        methods.push(FederationCapabilities::TERMINAL_ATTACH.to_owned());
        let capabilities = FederationCapabilities { methods };
        assert(capabilities@ =~= Self::current_methods());
        capabilities
    }

    /// Whether the server accepts `method`.
    pub fn supports_method(&self, method: &str) -> (supported: bool)
        ensures
            supported == self@.contains(method@),
    {
        let mut i: usize = 0;
        while i < self.methods.len()
            invariant
                i <= self.methods.len(),
                forall|j: int| 0 <= j < i ==> self@[j] != method@,
            decreases self.methods.len() - i,
        {
            if same_text(self.methods[i].as_str(), method) {
                assert(self@[i as int] == method@);
                return true;
            }
            i = i + 1;
        }
        false
    }
}

/// Lifecycle actions stay on the local server: no lifecycle method, and none of their
/// labels, is among what a server offers to others.
pub proof fn lifecycle_methods_are_never_advertised(
    capabilities: FederationCapabilities,
    action: RemoteLifecycleAction,
)
    requires
        capabilities@ == FederationCapabilities::current_methods(),
    ensures
        !capabilities@.contains(action.method()),
        !capabilities@.contains(action.word()),
{
    reveal_strlit("remote_api_bridge");
    reveal_strlit("workspace_create");
    reveal_strlit("workspace_list_local");
    reveal_strlit("workspace_rename");
    reveal_strlit("agent_list");
    reveal_strlit("agent_list_local");
    reveal_strlit("agent_get");
    reveal_strlit("agent_read");
    reveal_strlit("agent_send");
    reveal_strlit("agent_submit");
    reveal_strlit("agent_focus");
    reveal_strlit("agent_start");
    reveal_strlit("agent_teardown");
    reveal_strlit("pane_split");
    reveal_strlit("pane_close");
    reveal_strlit("pane_rename");
    reveal_strlit("pane_focus");
    reveal_strlit("pane_focus_direction");
    reveal_strlit("tab_list");
    reveal_strlit("tab_create");
    reveal_strlit("tab_focus");
    reveal_strlit("tab_close");
    reveal_strlit("tab_rename");
    reveal_strlit("layout_export");
    reveal_strlit("terminal_attach");
    reveal_strlit("remote.connect");
    reveal_strlit("remote.reconnect");
    reveal_strlit("remote.disconnect");
    reveal_strlit("connect");
    reveal_strlit("reconnect");
    reveal_strlit("disconnect");
    let names = FederationCapabilities::current_methods();
    assert(action.method()[6] == '.');
    assert forall|i: int| 0 <= i < names.len() implies names[i] != action.method() by {
        assert(names[i][6] != '.');
    }
    assert forall|i: int| 0 <= i < names.len() implies names[i] != action.word() by {
        assert(names[i][0] != 'c' && names[i][0] != 'd');
        assert(names[i][2] != 'c');
    }
}

} // verus!
