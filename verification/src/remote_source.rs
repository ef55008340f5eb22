//! The local cache of what each remote host last reported.
//!
//! A host's entry is made by the first report about it and is then only updated.
//! Going stale never drops what was reported: agents, workspaces, tabs and
//! layouts stay readable, marked by the host's status.
use vstd::prelude::*;
use std::sync::Arc;
use crate::schema::{AgentInfo, LayoutDescription, TabInfo, WorkspaceInfo};
use crate::search::{
    first_where, lemma_first_found, lemma_first_holds, lemma_first_missing, lemma_put_found,
    lemma_put_one_each, lemma_put_others, one_each, put,
};
use crate::server::FederationCapabilities;
use crate::text::same_text;

verus! {

/// One aggregated session of one configured host.
#[derive(Debug, PartialEq, Eq)]
pub struct RemoteHostKey {
    pub host: String,
    pub session: String,
}

impl View for RemoteHostKey {
    type V = (Seq<char>, Seq<char>);

    open spec fn view(&self) -> (Seq<char>, Seq<char>) {
        (self.host@, self.session@)
    }
}

impl Clone for RemoteHostKey {
    fn clone(&self) -> (res: Self)
        ensures
            res == *self,
    {
        RemoteHostKey { host: self.host.clone(), session: self.session.clone() }
    }
}

impl RemoteHostKey {
    pub fn new(host: String, session: String) -> (key: Self)
        ensures
            key == (RemoteHostKey { host, session }),
    {
        RemoteHostKey { host, session }
    }

    /// Whether both keys name the same session of the same host.
    pub fn same(&self, other: &Self) -> (same: bool)
        ensures
            same == (self@ == other@),
    {
        same_text(self.host.as_str(), other.host.as_str()) && same_text(
            self.session.as_str(),
            other.session.as_str(),
        )
    }
}

/// One workspace of a remote host.
#[derive(Debug, PartialEq, Eq)]
pub struct RemoteSpaceKey {
    pub host: String,
    pub session: String,
    pub workspace_id: String,
}

impl View for RemoteSpaceKey {
    type V = (Seq<char>, Seq<char>, Seq<char>);

    open spec fn view(&self) -> (Seq<char>, Seq<char>, Seq<char>) {
        (self.host@, self.session@, self.workspace_id@)
    }
}

impl Clone for RemoteSpaceKey {
    fn clone(&self) -> (res: Self)
        ensures
            res == *self,
    {
        RemoteSpaceKey {
            host: self.host.clone(),
            session: self.session.clone(),
            workspace_id: self.workspace_id.clone(),
        }
    }
}

impl RemoteSpaceKey {
    /// Whether both keys name the same workspace.
    pub fn same(&self, other: &Self) -> (same: bool)
        ensures
            same == (self@ == other@),
    {
        same_text(self.host.as_str(), other.host.as_str()) && same_text(
            self.session.as_str(),
            other.session.as_str(),
        ) && same_text(self.workspace_id.as_str(), other.workspace_id.as_str())
    }
}

/// How the local view of a host stands.
#[derive(Debug, Clone, Copy, PartialEq, Eq, Structural)]
pub enum RemoteConnectionStatus {
    Connected,
    Disconnected,
    NeedsUpdate,
    Unreachable,
}

impl RemoteConnectionStatus {
    pub fn is_connected(self) -> (connected: bool)
        ensures
            connected == (self is Connected),
    {
        matches!(self, RemoteConnectionStatus::Connected)
    }

    /// How a host that is not connected is described.
    pub open spec fn stale_text(self) -> Option<Seq<char>> {
        match self {
            RemoteConnectionStatus::Connected => None,
            RemoteConnectionStatus::Disconnected => Some("disconnected"@),
            RemoteConnectionStatus::NeedsUpdate => Some("needs update"@),
            RemoteConnectionStatus::Unreachable => Some("unreachable"@),
        }
    }

    pub fn stale_label(self) -> (label: Option<&'static str>)
        ensures
            match label {
                Some(label) => self.stale_text() == Some(label@),
                None => self.stale_text() is None,
            },
    {
        match self {
            RemoteConnectionStatus::Connected => None,
            RemoteConnectionStatus::Disconnected => Some("disconnected"),
            RemoteConnectionStatus::NeedsUpdate => Some("needs update"),
            RemoteConnectionStatus::Unreachable => Some("unreachable"),
        }
    }
}

/// How far cached tabs or a cached layout can be trusted.
#[derive(Debug, Clone, Copy, PartialEq, Eq, Structural)]
pub enum RemoteProjectionStatus {
    Available,
    StaleLastKnown,
    Unavailable,
}

/// The federation methods that the routing code asks a host for.
#[derive(Debug, Clone, Copy, PartialEq, Eq, Structural)]
pub struct RemoteSourceCapabilities {
    pub workspace_list_local: bool,
    pub workspace_create: bool,
    pub workspace_rename: bool,
    pub tab_list: bool,
    pub tab_create: bool,
    pub tab_focus: bool,
    pub tab_close: bool,
    pub tab_rename: bool,
    pub pane_split: bool,
    pub pane_close: bool,
    pub pane_rename: bool,
    pub pane_focus: bool,
    pub pane_focus_direction: bool,
    pub layout_export: bool,
    pub terminal_session_stream: bool,
}

impl Default for RemoteSourceCapabilities {
    fn default() -> (capabilities: Self)
        ensures
            capabilities == Self::nothing(),
    {
        RemoteSourceCapabilities {
            workspace_list_local: false,
            workspace_create: false,
            workspace_rename: false,
            tab_list: false,
            tab_create: false,
            tab_focus: false,
            tab_close: false,
            tab_rename: false,
            pane_split: false,
            pane_close: false,
            pane_rename: false,
            pane_focus: false,
            pane_focus_direction: false,
            layout_export: false,
            terminal_session_stream: false,
        }
    }
}

impl RemoteSourceCapabilities {
    /// A host that advertised nothing.
    pub open spec fn nothing() -> Self {
        RemoteSourceCapabilities {
            workspace_list_local: false,
            workspace_create: false,
            workspace_rename: false,
            tab_list: false,
            tab_create: false,
            tab_focus: false,
            tab_close: false,
            tab_rename: false,
            pane_split: false,
            pane_close: false,
            pane_rename: false,
            pane_focus: false,
            pane_focus_direction: false,
            layout_export: false,
            terminal_session_stream: false,
        }
    }

    /// Whether the host advertised the routed method `method`.
    pub open spec fn routes(self, method: Seq<char>) -> bool {
        if method == FederationCapabilities::WORKSPACE_RENAME@ {
            self.workspace_rename
        } else if method == FederationCapabilities::WORKSPACE_CREATE@ {
            self.workspace_create
        } else if method == FederationCapabilities::TAB_CREATE@ {
            self.tab_create
        } else if method == FederationCapabilities::TAB_FOCUS@ {
            self.tab_focus
        } else if method == FederationCapabilities::TAB_CLOSE@ {
            self.tab_close
        } else if method == FederationCapabilities::TAB_RENAME@ {
            self.tab_rename
        } else if method == FederationCapabilities::PANE_SPLIT@ {
            self.pane_split
        } else if method == FederationCapabilities::PANE_CLOSE@ {
            self.pane_close
        } else if method == FederationCapabilities::PANE_RENAME@ {
            self.pane_rename
        } else if method == FederationCapabilities::PANE_FOCUS@ {
            self.pane_focus
        } else if method == FederationCapabilities::PANE_FOCUS_DIRECTION@ {
            self.pane_focus_direction
        } else {
            false
        }
    }

    pub fn supports_route_method(&self, method: &str) -> (supported: bool)
        ensures
            supported == self.routes(method@),
    {
        if same_text(method, FederationCapabilities::WORKSPACE_RENAME) {
            self.workspace_rename
        } else if same_text(method, FederationCapabilities::WORKSPACE_CREATE) {
            self.workspace_create
        } else if same_text(method, FederationCapabilities::TAB_CREATE) {
            self.tab_create
        } else if same_text(method, FederationCapabilities::TAB_FOCUS) {
            self.tab_focus
        } else if same_text(method, FederationCapabilities::TAB_CLOSE) {
            self.tab_close
        } else if same_text(method, FederationCapabilities::TAB_RENAME) {
            self.tab_rename
        } else if same_text(method, FederationCapabilities::PANE_SPLIT) {
            self.pane_split
        } else if same_text(method, FederationCapabilities::PANE_CLOSE) {
            self.pane_close
        } else if same_text(method, FederationCapabilities::PANE_RENAME) {
            self.pane_rename
        } else if same_text(method, FederationCapabilities::PANE_FOCUS) {
            self.pane_focus
        } else if same_text(method, FederationCapabilities::PANE_FOCUS_DIRECTION) {
            self.pane_focus_direction
        } else {
            false
        }
    }
}

/// What a supervisor prepared on a host for requests to reuse.
#[derive(Debug, PartialEq, Eq)]
pub struct RemoteApiBridgeState {
    pub shell_path: String,
    pub capabilities: FederationCapabilities,
}

/// The tabs of one remote workspace, as last listed.
#[derive(Debug, PartialEq, Eq)]
pub struct TabSnapshot {
    pub workspace_id: String,
    pub status: RemoteProjectionStatus,
    pub tabs: Vec<TabInfo>,
}

/// What a [`TabSnapshot`] holds.
#[verifier::ext_equal]
pub struct TabsView {
    pub workspace_id: String,
    pub status: RemoteProjectionStatus,
    pub tabs: Seq<TabInfo>,
}

impl View for TabSnapshot {
    type V = TabsView;

    open spec fn view(&self) -> TabsView {
        TabsView { workspace_id: self.workspace_id, status: self.status, tabs: self.tabs@ }
    }
}

/// The active tab of one remote workspace and its layout, as last exported.
#[derive(Debug, PartialEq, Eq)]
pub struct RemoteProjectionSnapshot {
    pub workspace_id: String,
    pub tab_id: Option<String>,
    pub tab_label: Option<String>,
    pub status: RemoteProjectionStatus,
    pub layout: Option<LayoutDescription>,
}

/// Everything cached about one host.
#[derive(Debug, PartialEq, Eq)]
pub struct HostSource {
    pub key: RemoteHostKey,
    pub status: RemoteConnectionStatus,
    pub agents: Vec<AgentInfo>,
    pub capabilities: RemoteSourceCapabilities,
    pub bridge_state: Option<Arc<RemoteApiBridgeState>>,
    pub workspaces: Option<Vec<WorkspaceInfo>>,
    pub tabs: Vec<TabSnapshot>,
    pub projections: Vec<RemoteProjectionSnapshot>,
}

/// What a [`HostSource`] holds.
#[verifier::ext_equal]
pub struct HostView {
    pub key: RemoteHostKey,
    pub status: RemoteConnectionStatus,
    pub agents: Seq<AgentInfo>,
    pub capabilities: RemoteSourceCapabilities,
    pub bridge_state: Option<Arc<RemoteApiBridgeState>>,
    pub workspaces: Option<Seq<WorkspaceInfo>>,
    pub tabs: Seq<TabsView>,
    pub projections: Seq<RemoteProjectionSnapshot>,
}

impl View for HostSource {
    type V = HostView;

    open spec fn view(&self) -> HostView {
        HostView {
            key: self.key,
            status: self.status,
            agents: self.agents@,
            capabilities: self.capabilities,
            bridge_state: self.bridge_state,
            workspaces: match self.workspaces {
                Some(workspaces) => Some(workspaces@),
                None => None,
            },
            tabs: self.tabs@.map_values(|snapshot: TabSnapshot| snapshot@),
            projections: self.projections@,
        }
    }
}

/// The entry of a host about which nothing was reported yet.
pub open spec fn fresh_host(key: RemoteHostKey) -> HostView {
    HostView {
        key,
        status: RemoteConnectionStatus::Disconnected,
        agents: Seq::empty(),
        capabilities: RemoteSourceCapabilities::nothing(),
        bridge_state: None,
        workspaces: None,
        tabs: Seq::empty(),
        projections: Seq::empty(),
    }
}

pub open spec fn host_is(key: (Seq<char>, Seq<char>)) -> spec_fn(HostView) -> bool {
    |host: HostView| host.key@ == key
}

pub open spec fn tabs_of(workspace_id: Seq<char>) -> spec_fn(TabsView) -> bool {
    |snapshot: TabsView| snapshot.workspace_id@ == workspace_id
}

pub open spec fn projection_of(workspace_id: Seq<char>) -> spec_fn(RemoteProjectionSnapshot) -> bool {
    |snapshot: RemoteProjectionSnapshot| snapshot.workspace_id@ == workspace_id
}

pub open spec fn tab_named(tab_id: Seq<char>) -> spec_fn(TabInfo) -> bool {
    |tab: TabInfo| tab.tab_id@ == tab_id
}

pub open spec fn workspace_named(workspace_id: Seq<char>) -> spec_fn(WorkspaceInfo) -> bool {
    |workspace: WorkspaceInfo| workspace.workspace_id@ == workspace_id
}

/// The entry of `key`, if there is one.
pub open spec fn cached_host(hosts: Seq<HostView>, key: (Seq<char>, Seq<char>)) -> Option<HostView> {
    match first_where(hosts, host_is(key)) {
        Some(i) => Some(hosts[i]),
        None => None,
    }
}

/// The entry of `key`, or the one that a first report starts from.
pub open spec fn host_or_fresh(hosts: Seq<HostView>, key: RemoteHostKey) -> HostView {
    match cached_host(hosts, key@) {
        Some(host) => host,
        None => fresh_host(key),
    }
}

/// `hosts` after an update that leaves `host` as its host's entry.
pub open spec fn with_host(hosts: Seq<HostView>, host: HostView) -> Seq<HostView> {
    put(hosts, host_is(host.key@), host)
}

/// The status of `key`, if anything was reported about it.
pub open spec fn status_of(hosts: Seq<HostView>, key: (Seq<char>, Seq<char>)) -> Option<
    RemoteConnectionStatus,
> {
    match cached_host(hosts, key) {
        Some(host) => Some(host.status),
        None => None,
    }
}

/// Whether `key` is connected.
pub open spec fn connected(hosts: Seq<HostView>, key: (Seq<char>, Seq<char>)) -> bool {
    status_of(hosts, key) == Some(RemoteConnectionStatus::Connected)
}

/// What `key` advertised: nothing, where nothing was reported.
pub open spec fn capabilities_of(
    hosts: Seq<HostView>,
    key: (Seq<char>, Seq<char>),
) -> RemoteSourceCapabilities {
    match cached_host(hosts, key) {
        Some(host) => host.capabilities,
        None => RemoteSourceCapabilities::nothing(),
    }
}

/// The prepared state of `key`: only while it is connected.
pub open spec fn prepared_state_of(hosts: Seq<HostView>, key: (Seq<char>, Seq<char>)) -> Option<
    Arc<RemoteApiBridgeState>,
> {
    match cached_host(hosts, key) {
        Some(host) => if host.status is Connected {
            host.bridge_state
        } else {
            None
        },
        None => None,
    }
}

/// The cached layout of one remote workspace.
pub open spec fn projection_for(hosts: Seq<HostView>, space: RemoteSpaceKey) -> Option<
    RemoteProjectionSnapshot,
> {
    match cached_host(hosts, (space.host@, space.session@)) {
        Some(host) => match first_where(host.projections, projection_of(space.workspace_id@)) {
            Some(i) => Some(host.projections[i]),
            None => None,
        },
        None => None,
    }
}

/// One cached agent, with its host and that host's status.
#[derive(Debug, PartialEq, Eq)]
pub struct RemoteAgentEntry {
    pub host: RemoteHostKey,
    pub status: RemoteConnectionStatus,
    pub agent: AgentInfo,
}

impl RemoteAgentEntry {
    /// Whether the agent's host is not connected.
    pub fn stale(&self) -> (stale: bool)
        ensures
            stale == !(self.status is Connected),
    {
        !self.status.is_connected()
    }
}

/// The agents cached for one host, in the order in which it listed them.
pub open spec fn host_entries(host: HostView) -> Seq<RemoteAgentEntry> {
    host.agents.map_values(
        |agent: AgentInfo| RemoteAgentEntry { host: host.key, status: host.status, agent },
    )
}

/// The agents cached for all hosts, host after host.
pub open spec fn all_entries(hosts: Seq<HostView>) -> Seq<RemoteAgentEntry>
    decreases hosts.len(),
{
    if hosts.len() == 0 {
        Seq::empty()
    } else {
        all_entries(hosts.drop_last()) + host_entries(hosts.last())
    }
}

/// The cached tabs of one remote workspace.
pub open spec fn tabs_for(hosts: Seq<HostView>, space: RemoteSpaceKey) -> Option<TabsView> {
    match cached_host(hosts, (space.host@, space.session@)) {
        Some(host) => match first_where(host.tabs, tabs_of(space.workspace_id@)) {
            Some(i) => Some(host.tabs[i]),
            None => None,
        },
        None => None,
    }
}

/// A host with these tabs for their workspace.
pub open spec fn with_tabs(host: HostView, tabs: TabsView) -> HostView {
    HostView { tabs: put(host.tabs, tabs_of(tabs.workspace_id@), tabs), ..host }
}

/// A host with this tab in its workspace's listing.
pub open spec fn with_tab(host: HostView, tab: TabInfo) -> HostView {
    match first_where(host.tabs, tabs_of(tab.workspace_id@)) {
        Some(i) => HostView {
            tabs: host.tabs.update(
                i,
                TabsView {
                    tabs: put(host.tabs[i].tabs, tab_named(tab.tab_id@), tab),
                    ..host.tabs[i]
                },
            ),
            ..host
        },
        None => HostView {
            tabs: host.tabs.push(
                TabsView {
                    workspace_id: tab.workspace_id,
                    status: RemoteProjectionStatus::StaleLastKnown,
                    tabs: seq![tab],
                },
            ),
            ..host
        },
    }
}

/// The tabs other than `tab_id`, in their order.
pub open spec fn other_tabs(tabs: Seq<TabInfo>, tab_id: Seq<char>) -> Seq<TabInfo>
    decreases tabs.len(),
{
    if tabs.len() == 0 {
        tabs
    } else if tabs.last().tab_id@ == tab_id {
        other_tabs(tabs.drop_last(), tab_id)
    } else {
        other_tabs(tabs.drop_last(), tab_id).push(tabs.last())
    }
}

pub open spec fn listing_without(snapshot: TabsView, tab_id: Seq<char>) -> TabsView {
    TabsView { tabs: other_tabs(snapshot.tabs, tab_id), ..snapshot }
}

/// A host without the tab `tab_id`.
pub open spec fn without_tab(host: HostView, tab_id: Seq<char>) -> HostView {
    HostView {
        tabs: Seq::new(host.tabs.len(), |i: int| listing_without(host.tabs[i], tab_id)),
        ..host
    }
}

/// A host whose tabs of one workspace are only last known.
pub open spec fn with_stale_tabs(host: HostView, workspace_id: Seq<char>) -> HostView {
    match first_where(host.tabs, tabs_of(workspace_id)) {
        Some(i) => HostView {
            tabs: host.tabs.update(
                i,
                TabsView { status: RemoteProjectionStatus::StaleLastKnown, ..host.tabs[i] },
            ),
            ..host
        },
        None => host,
    }
}

/// A host with this workspace in its listing.
pub open spec fn with_workspace(host: HostView, workspace: WorkspaceInfo) -> HostView {
    HostView {
        workspaces: Some(
            put(
                match host.workspaces {
                    Some(workspaces) => workspaces,
                    None => Seq::empty(),
                },
                workspace_named(workspace.workspace_id@),
                workspace,
            ),
        ),
        ..host
    }
}

/// Where `workspace_id` stands in a listing.
pub fn workspace_index(workspaces: &Vec<WorkspaceInfo>, workspace_id: &String) -> (found: Option<usize>)
    ensures
        match found {
            Some(i) => i < workspaces@.len() && first_where(
                workspaces@,
                workspace_named(workspace_id@),
            ) == Some(i as int),
            None => first_where(workspaces@, workspace_named(workspace_id@)) is None,
        },
{
    let mut i: usize = 0;
    while i < workspaces.len()
        invariant
            i <= workspaces@.len(),
            forall|j: int|
                0 <= j < i ==> !workspace_named(workspace_id@)(#[trigger] workspaces@[j]),
        decreases workspaces@.len() - i,
    {
        if workspaces[i].workspace_id == *workspace_id {
            proof {
                lemma_first_found(workspaces@, workspace_named(workspace_id@), i as int);
            }
            return Some(i);
        }
        i = i + 1;
    }
    proof {
        lemma_first_missing(workspaces@, workspace_named(workspace_id@));
    }
    None
}

/// Where `tab_id` stands in a listing.
pub fn tab_index(tabs: &Vec<TabInfo>, tab_id: &String) -> (found: Option<usize>)
    ensures
        match found {
            Some(i) => i < tabs@.len() && first_where(tabs@, tab_named(tab_id@)) == Some(i as int),
            None => first_where(tabs@, tab_named(tab_id@)) is None,
        },
{
    let mut i: usize = 0;
    while i < tabs.len()
        invariant
            i <= tabs@.len(),
            forall|j: int| 0 <= j < i ==> !tab_named(tab_id@)(#[trigger] tabs@[j]),
        decreases tabs@.len() - i,
    {
        if tabs[i].tab_id == *tab_id {
            proof {
                lemma_first_found(tabs@, tab_named(tab_id@), i as int);
            }
            return Some(i);
        }
        i = i + 1;
    }
    proof {
        lemma_first_missing(tabs@, tab_named(tab_id@));
    }
    None
}

fn remaining_tabs(tabs: &Vec<TabInfo>, tab_id: &String) -> (rest: Vec<TabInfo>)
    ensures
        rest@ == other_tabs(tabs@, tab_id@),
{
    let mut rest: Vec<TabInfo> = Vec::new();
    let mut i: usize = 0;
    assert(tabs@.take(0) =~= Seq::<TabInfo>::empty());
    while i < tabs.len()
        invariant
            i <= tabs@.len(),
            rest@ == other_tabs(tabs@.take(i as int), tab_id@),
        decreases tabs@.len() - i,
    {
        proof {
            let taken = tabs@.take(i as int + 1);
            assert(taken.drop_last() =~= tabs@.take(i as int));
            assert(taken.last() == tabs@[i as int]);
        }
        if tabs[i].tab_id != *tab_id {
            rest.push(tabs[i].clone());
        }
        i = i + 1;
    }
    assert(tabs@.take(i as int) =~= tabs@);
    rest
}

impl HostSource {
    pub fn projection_index(&self, workspace_id: &String) -> (found: Option<usize>)
        ensures
            match found {
                Some(i) => i < self.projections@.len() && first_where(
                    self@.projections,
                    projection_of(workspace_id@),
                ) == Some(i as int),
                None => first_where(self@.projections, projection_of(workspace_id@)) is None,
            },
    {
        let mut i: usize = 0;
        while i < self.projections.len()
            invariant
                i <= self.projections@.len(),
                forall|j: int|
                    0 <= j < i ==> !projection_of(workspace_id@)(#[trigger] self@.projections[j]),
            decreases self.projections@.len() - i,
        {
            if self.projections[i].workspace_id == *workspace_id {
                proof {
                    lemma_first_found(self@.projections, projection_of(workspace_id@), i as int);
                }
                return Some(i);
            }
            i = i + 1;
        }
        proof {
            lemma_first_missing(self@.projections, projection_of(workspace_id@));
        }
        None
    }

    pub fn tabs_index(&self, workspace_id: &String) -> (found: Option<usize>)
        ensures
            match found {
                Some(i) => i < self.tabs@.len() && first_where(
                    self@.tabs,
                    tabs_of(workspace_id@),
                ) == Some(i as int),
                None => first_where(self@.tabs, tabs_of(workspace_id@)) is None,
            },
    {
        let mut i: usize = 0;
        while i < self.tabs.len()
            invariant
                i <= self.tabs@.len(),
                forall|j: int| 0 <= j < i ==> !tabs_of(workspace_id@)(#[trigger] self@.tabs[j]),
            decreases self.tabs@.len() - i,
        {
            if self.tabs[i].workspace_id == *workspace_id {
                proof {
                    lemma_first_found(self@.tabs, tabs_of(workspace_id@), i as int);
                }
                return Some(i);
            }
            assert(!tabs_of(workspace_id@)(self@.tabs[i as int]));
            i = i + 1;
        }
        proof {
            lemma_first_missing(self@.tabs, tabs_of(workspace_id@));
        }
        None
    }

    fn put_tabs(&mut self, snapshot: TabSnapshot)
        ensures
            final(self)@ == with_tabs(old(self)@, snapshot@),
    {
        match self.tabs_index(&snapshot.workspace_id) {
            Some(t) => {
                self.tabs[t] = snapshot;
                assert(self@.tabs =~= old(self)@.tabs.update(t as int, snapshot@));
            },
            None => {
                self.tabs.push(snapshot);
                assert(self@.tabs =~= old(self)@.tabs.push(snapshot@));
            },
        }
    }

    fn put_tab(&mut self, tab: TabInfo)
        ensures
            final(self)@ == with_tab(old(self)@, tab),
    {
        match self.tabs_index(&tab.workspace_id) {
            Some(t) => {
                let ghost before = self@.tabs[t as int];
                match tab_index(&self.tabs[t].tabs, &tab.tab_id) {
                    Some(i) => {
                        self.tabs[t].tabs[i] = tab;
                    },
                    None => {
                        self.tabs[t].tabs.push(tab);
                    },
                }
                assert(self@.tabs =~= old(self)@.tabs.update(
                    t as int,
                    TabsView { tabs: put(before.tabs, tab_named(tab.tab_id@), tab), ..before },
                ));
            },
            None => {
                let mut tabs: Vec<TabInfo> = Vec::new();
                let workspace_id = tab.workspace_id.clone();
                tabs.push(tab);
                let snapshot = TabSnapshot {
                    workspace_id,
                    status: RemoteProjectionStatus::StaleLastKnown,
                    tabs,
                };
                self.tabs.push(snapshot);
                assert(snapshot@.tabs =~= seq![tab]);
                assert(self@.tabs =~= old(self)@.tabs.push(snapshot@));
            },
        }
    }

    fn drop_tab(&mut self, tab_id: &String)
        ensures
            final(self)@ == without_tab(old(self)@, tab_id@),
    {
        let mut t: usize = 0;
        while t < self.tabs.len()
            invariant
                t <= self.tabs@.len(),
                self@ == (HostView { tabs: self@.tabs, ..old(self)@ }),
                self@.tabs.len() == old(self)@.tabs.len(),
                forall|j: int|
                    0 <= j < t ==> #[trigger] self@.tabs[j] == listing_without(
                        old(self)@.tabs[j],
                        tab_id@,
                    ),
                forall|j: int| t <= j < self@.tabs.len() ==> #[trigger] self@.tabs[j] == old(self)@.tabs[j],
            decreases self.tabs@.len() - t,
        {
            let ghost before = self@;
            let rest = remaining_tabs(&self.tabs[t].tabs, tab_id);
            assert(before.tabs[t as int] == old(self)@.tabs[t as int]);
            self.tabs[t].tabs = rest;
            assert(self@.tabs =~= before.tabs.update(
                t as int,
                listing_without(before.tabs[t as int], tab_id@),
            ));
            t = t + 1;
        }
        assert(self@.tabs =~= without_tab(old(self)@, tab_id@).tabs);
    }

    fn stale_tabs(&mut self, workspace_id: &String)
        ensures
            final(self)@ == with_stale_tabs(old(self)@, workspace_id@),
    {
        match self.tabs_index(workspace_id) {
            Some(t) => {
                self.tabs[t].status = RemoteProjectionStatus::StaleLastKnown;
                assert(self@.tabs =~= with_stale_tabs(old(self)@, workspace_id@).tabs);
            },
            None => {},
        }
    }

    fn put_workspace(&mut self, workspace: WorkspaceInfo)
        ensures
            final(self)@ == with_workspace(old(self)@, workspace),
    {
        let mut listed: Vec<WorkspaceInfo> = match self.workspaces.take() {
            Some(workspaces) => workspaces,
            None => Vec::new(),
        };
        match workspace_index(&listed, &workspace.workspace_id) {
            Some(i) => {
                listed[i] = workspace;
            },
            None => {
                listed.push(workspace);
            },
        }
        self.workspaces = Some(listed);
        assert(self@.workspaces->0 =~= with_workspace(old(self)@, workspace).workspaces->0);
    }

    fn entries(&self) -> (entries: Vec<RemoteAgentEntry>)
        ensures
            entries@ == host_entries(self@),
    {
        let mut entries: Vec<RemoteAgentEntry> = Vec::new();
        let mut i: usize = 0;
        while i < self.agents.len()
            invariant
                i <= self.agents@.len(),
                entries@ =~= host_entries(self@).take(i as int),
            decreases self.agents@.len() - i,
        {
            entries.push(
                RemoteAgentEntry {
                    host: self.key.clone(),
                    status: self.status,
                    agent: self.agents[i].clone(),
                },
            );
            i = i + 1;
        }
        assert(host_entries(self@).take(i as int) =~= host_entries(self@));
        entries
    }
}

/// A host with this status. What was prepared for it goes with its connection.
pub open spec fn with_status(host: HostView, status: RemoteConnectionStatus) -> HostView {
    HostView {
        status,
        bridge_state: if status is Connected {
            host.bridge_state
        } else {
            None
        },
        ..host
    }
}

/// The cache after a report of a host's status.
pub open spec fn after_status(
    hosts: Seq<HostView>,
    key: RemoteHostKey,
    status: RemoteConnectionStatus,
) -> Seq<HostView> {
    with_host(hosts, with_status(host_or_fresh(hosts, key), status))
}

/// The cache after the layout of one workspace was reported.
pub open spec fn after_projection(
    hosts: Seq<HostView>,
    key: RemoteHostKey,
    snapshot: RemoteProjectionSnapshot,
) -> Seq<HostView> {
    with_host(
        hosts,
        HostView {
            projections: put(
                host_or_fresh(hosts, key).projections,
                projection_of(snapshot.workspace_id@),
                snapshot,
            ),
            ..host_or_fresh(hosts, key)
        },
    )
}

/// The cache after the tabs of one workspace were listed.
pub open spec fn after_tab_listing(
    hosts: Seq<HostView>,
    key: RemoteHostKey,
    workspace_id: String,
    tabs: Seq<TabInfo>,
) -> Seq<HostView> {
    with_host(
        hosts,
        with_tabs(
            host_or_fresh(hosts, key),
            TabsView { workspace_id, status: RemoteProjectionStatus::Available, tabs },
        ),
    )
}

/// The cache after one tab was reported.
pub open spec fn after_tab(hosts: Seq<HostView>, key: RemoteHostKey, tab: TabInfo) -> Seq<HostView> {
    with_host(hosts, with_tab(host_or_fresh(hosts, key), tab))
}

/// The cache after one tab was closed.
pub open spec fn after_tab_removal(
    hosts: Seq<HostView>,
    key: RemoteHostKey,
    tab_id: Seq<char>,
) -> Seq<HostView> {
    match cached_host(hosts, key@) {
        Some(host) => with_host(hosts, without_tab(host, tab_id)),
        None => hosts,
    }
}

/// The cache after the tabs of one workspace were put in doubt.
pub open spec fn after_tabs_doubted(
    hosts: Seq<HostView>,
    key: RemoteHostKey,
    workspace_id: Seq<char>,
) -> Seq<HostView> {
    match cached_host(hosts, key@) {
        Some(host) => with_host(hosts, with_stale_tabs(host, workspace_id)),
        None => hosts,
    }
}

/// The cache after one workspace was reported.
pub open spec fn after_workspace(
    hosts: Seq<HostView>,
    key: RemoteHostKey,
    workspace: WorkspaceInfo,
) -> Seq<HostView> {
    with_host(hosts, with_workspace(host_or_fresh(hosts, key), workspace))
}

/// The cache: one entry per host about which something was reported.
#[derive(Debug, PartialEq, Eq)]
pub struct RemoteSources {
    pub hosts: Vec<HostSource>,
}

impl View for RemoteSources {
    type V = Seq<HostView>;

    open spec fn view(&self) -> Seq<HostView> {
        self.hosts@.map_values(|host: HostSource| host@)
    }
}

impl RemoteSources {
    pub fn new() -> (sources: Self)
        ensures
            sources@ == Seq::<HostView>::empty(),
    {
        let sources = RemoteSources { hosts: Vec::new() };
        assert(sources@ =~= Seq::<HostView>::empty());
        sources
    }

    fn index_of(&self, key: &RemoteHostKey) -> (found: Option<usize>)
        ensures
            match found {
                Some(i) => i < self.hosts@.len() && first_where(self@, host_is(key@)) == Some(
                    i as int,
                ),
                None => first_where(self@, host_is(key@)) is None,
            },
    {
        let mut i: usize = 0;
        while i < self.hosts.len()
            invariant
                i <= self.hosts@.len(),
                forall|j: int| 0 <= j < i ==> !host_is(key@)(#[trigger] self@[j]),
            decreases self.hosts@.len() - i,
        {
            if self.hosts[i].key.same(key) {
                proof {
                    lemma_first_found(self@, host_is(key@), i as int);
                }
                return Some(i);
            }
            assert(!host_is(key@)(self@[i as int]));
            i = i + 1;
        }
        proof {
            lemma_first_missing(self@, host_is(key@));
        }
        None
    }

    /// The place of `key`'s entry, made first where there is none.
    fn entry(&mut self, key: &RemoteHostKey) -> (i: usize)
        ensures
            i < final(self).hosts@.len(),
            final(self)@[i as int] == host_or_fresh(old(self)@, *key),
            forall|v: HostView|
                v.key@ == key@ ==> #[trigger] final(self)@.update(i as int, v) == with_host(
                    old(self)@,
                    v,
                ),
    {
        match self.index_of(key) {
            Some(i) => {
                proof {
                    lemma_first_holds(self@, host_is(key@));
                }
                i
            },
            None => {
                let i: usize = self.hosts.len();
                let fresh = HostSource {
                    key: key.clone(),
                    status: RemoteConnectionStatus::Disconnected,
                    agents: Vec::new(),
                    capabilities: RemoteSourceCapabilities::default(),
                    bridge_state: None,
                    workspaces: None,
                    tabs: Vec::new(),
                    projections: Vec::new(),
                };
                assert(fresh@ =~= fresh_host(*key));
                self.hosts.push(fresh);
                assert(self@ =~= old(self)@.push(fresh_host(*key)));
                assert forall|v: HostView| v.key@ == key@ implies #[trigger] self@.update(
                    i as int,
                    v,
                ) == with_host(old(self)@, v) by {
                    assert(self@.update(i as int, v) =~= old(self)@.push(v));
                }
                i
            },
        }
    }

    /// The status of `key`, if anything was reported about it.
    pub fn host_status(&self, key: &RemoteHostKey) -> (status: Option<RemoteConnectionStatus>)
        ensures
            status == status_of(self@, key@),
    {
        match self.index_of(key) {
            Some(i) => Some(self.hosts[i].status),
            None => None,
        }
    }

    /// What `key` advertised.
    pub fn host_capabilities(&self, key: &RemoteHostKey) -> (capabilities: RemoteSourceCapabilities)
        ensures
            capabilities == capabilities_of(self@, key@),
    {
        match self.index_of(key) {
            Some(i) => self.hosts[i].capabilities,
            None => RemoteSourceCapabilities::default(),
        }
    }

    /// The prepared state of `key`, while it is connected.
    pub fn connected_bridge_state(&self, key: &RemoteHostKey) -> (state: Option<
        Arc<RemoteApiBridgeState>,
    >)
        ensures
            state == prepared_state_of(self@, key@),
    {
        match self.index_of(key) {
            Some(i) => if self.hosts[i].status.is_connected() {
                match &self.hosts[i].bridge_state {
                    Some(state) => Some(state.clone()),
                    None => None,
                }
            } else {
                None
            },
            None => None,
        }
    }

    /// Records a status.
    pub fn mark_status(&mut self, key: &RemoteHostKey, status: RemoteConnectionStatus)
        ensures
            final(self)@ == after_status(old(self)@, *key, status),
    {
        proof {
            lemma_host_or_fresh_key(self@, *key);
        }
        let i: usize = self.entry(key);
        let ghost mid = self@;
        self.hosts[i].status = status;
        if !status.is_connected() {
            self.hosts[i].bridge_state = None;
        }
        assert(self@ =~= mid.update(i as int, with_status(mid[i as int], status)));
    }

    /// Records that a host is no longer connected.
    pub fn mark_disconnected(&mut self, key: &RemoteHostKey)
        ensures
            final(self)@ == after_status(
                old(self)@,
                *key,
                RemoteConnectionStatus::Disconnected,
            ),
    {
        self.mark_status(key, RemoteConnectionStatus::Disconnected)
    }

    /// Records what a host advertises.
    pub fn set_capabilities(&mut self, key: &RemoteHostKey, capabilities: RemoteSourceCapabilities)
        ensures
            final(self)@ == with_host(
                old(self)@,
                HostView { capabilities, ..host_or_fresh(old(self)@, *key) },
            ),
    {
        proof {
            lemma_host_or_fresh_key(self@, *key);
        }
        let i: usize = self.entry(key);
        let ghost mid = self@;
        self.hosts[i].capabilities = capabilities;
        assert(self@ =~= mid.update(i as int, HostView { capabilities, ..mid[i as int] }));
    }

    /// Records a successful ping: the host is connected, with this prepared state.
    pub fn set_connected_bridge_state(
        &mut self,
        key: &RemoteHostKey,
        state: Arc<RemoteApiBridgeState>,
    )
        ensures
            final(self)@ == with_host(
                old(self)@,
                HostView {
                    status: RemoteConnectionStatus::Connected,
                    bridge_state: Some(state),
                    ..host_or_fresh(old(self)@, *key)
                },
            ),
    {
        proof {
            lemma_host_or_fresh_key(self@, *key);
        }
        let i: usize = self.entry(key);
        let ghost mid = self@;
        self.hosts[i].status = RemoteConnectionStatus::Connected;
        self.hosts[i].bridge_state = Some(state);
        assert(self@ =~= mid.update(
            i as int,
            HostView {
                status: RemoteConnectionStatus::Connected,
                bridge_state: Some(state),
                ..mid[i as int]
            },
        ));
    }

    /// Records a listing of the host's agents, which also shows it connected.
    pub fn replace_connected_snapshot(&mut self, key: &RemoteHostKey, agents: Vec<AgentInfo>)
        ensures
            final(self)@ == with_host(
                old(self)@,
                HostView {
                    status: RemoteConnectionStatus::Connected,
                    agents: agents@,
                    ..host_or_fresh(old(self)@, *key)
                },
            ),
    {
        proof {
            lemma_host_or_fresh_key(self@, *key);
        }
        let i: usize = self.entry(key);
        let ghost mid = self@;
        self.hosts[i].status = RemoteConnectionStatus::Connected;
        self.hosts[i].agents = agents;
        assert(self@ =~= mid.update(
            i as int,
            HostView {
                status: RemoteConnectionStatus::Connected,
                agents: agents@,
                ..mid[i as int]
            },
        ));
    }

    /// Records a listing of the host's workspaces, which also shows it connected.
    pub fn replace_workspace_snapshot(
        &mut self,
        key: &RemoteHostKey,
        workspaces: Vec<WorkspaceInfo>,
    )
        ensures
            final(self)@ == with_host(
                old(self)@,
                HostView {
                    status: RemoteConnectionStatus::Connected,
                    workspaces: Some(workspaces@),
                    ..host_or_fresh(old(self)@, *key)
                },
            ),
    {
        proof {
            lemma_host_or_fresh_key(self@, *key);
        }
        let i: usize = self.entry(key);
        let ghost mid = self@;
        self.hosts[i].status = RemoteConnectionStatus::Connected;
        self.hosts[i].workspaces = Some(workspaces);
        assert(self@ =~= mid.update(
            i as int,
            HostView {
                status: RemoteConnectionStatus::Connected,
                workspaces: Some(workspaces@),
                ..mid[i as int]
            },
        ));
    }

    /// Records the layouts of all of a host's workspaces.
    pub fn apply_projection_snapshot(
        &mut self,
        key: &RemoteHostKey,
        projections: Vec<RemoteProjectionSnapshot>,
    )
        ensures
            final(self)@ == with_host(
                old(self)@,
                HostView { projections: projections@, ..host_or_fresh(old(self)@, *key) },
            ),
    {
        proof {
            lemma_host_or_fresh_key(self@, *key);
        }
        let i: usize = self.entry(key);
        let ghost mid = self@;
        self.hosts[i].projections = projections;
        assert(self@ =~= mid.update(i as int, HostView { projections: projections@, ..mid[i as int] }));
    }

    /// Records the layout of one workspace.
    pub fn upsert_projection_snapshot(
        &mut self,
        key: &RemoteHostKey,
        snapshot: RemoteProjectionSnapshot,
    )
        ensures
            final(self)@ == after_projection(old(self)@, *key, snapshot),
    {
        proof {
            lemma_host_or_fresh_key(self@, *key);
        }
        let i: usize = self.entry(key);
        let ghost mid = self@;
        let ghost projections = put(
            mid[i as int].projections,
            projection_of(snapshot.workspace_id@),
            snapshot,
        );
        match self.hosts[i].projection_index(&snapshot.workspace_id) {
            Some(p) => {
                self.hosts[i].projections[p] = snapshot;
            },
            None => {
                self.hosts[i].projections.push(snapshot);
            },
        }
        assert(self@[i as int].projections =~= projections);
        assert(self@ =~= mid.update(i as int, HostView { projections, ..mid[i as int] }));
    }

    /// Records a listing of the tabs of one workspace.
    pub fn replace_tab_snapshot(
        &mut self,
        key: &RemoteHostKey,
        workspace_id: &String,
        tabs: Vec<TabInfo>,
    )
        ensures
            final(self)@ == after_tab_listing(old(self)@, *key, *workspace_id, tabs@),
    {
        proof {
            lemma_host_or_fresh_key(self@, *key);
        }
        let i: usize = self.entry(key);
        let ghost mid = self@;
        let snapshot = TabSnapshot {
            workspace_id: workspace_id.clone(),
            status: RemoteProjectionStatus::Available,
            tabs,
        };
        self.hosts[i].put_tabs(snapshot);
        assert(self@ =~= mid.update(i as int, with_tabs(mid[i as int], snapshot@)));
    }

    /// Records one tab. A workspace whose tabs were never listed then has a
    /// listing that is known to be incomplete.
    pub fn upsert_tab(&mut self, key: &RemoteHostKey, tab: TabInfo)
        ensures
            final(self)@ == after_tab(old(self)@, *key, tab),
    {
        proof {
            lemma_host_or_fresh_key(self@, *key);
        }
        let i: usize = self.entry(key);
        let ghost mid = self@;
        self.hosts[i].put_tab(tab);
        assert(self@ =~= mid.update(i as int, with_tab(mid[i as int], tab)));
    }

    /// Drops one tab from every listing of the host.
    pub fn remove_tab(&mut self, key: &RemoteHostKey, tab_id: &String)
        ensures
            final(self)@ == after_tab_removal(old(self)@, *key, tab_id@),
    {
        match self.index_of(key) {
            Some(i) => {
                proof {
                    lemma_first_holds(self@, host_is(key@));
                }
                let ghost mid = self@;
                self.hosts[i].drop_tab(tab_id);
                assert(self@ =~= mid.update(i as int, without_tab(mid[i as int], tab_id@)));
            },
            None => {},
        }
    }

    /// Marks the tabs of one workspace as last known: they may have changed.
    pub fn mark_tab_snapshot_unavailable(&mut self, key: &RemoteHostKey, workspace_id: &String)
        ensures
            final(self)@ == after_tabs_doubted(old(self)@, *key, workspace_id@),
    {
        match self.index_of(key) {
            Some(i) => {
                proof {
                    lemma_first_holds(self@, host_is(key@));
                }
                let ghost mid = self@;
                self.hosts[i].stale_tabs(workspace_id);
                assert(self@ =~= mid.update(i as int, with_stale_tabs(mid[i as int], workspace_id@)));
            },
            None => {},
        }
    }

    /// Records one workspace.
    pub fn upsert_workspace(&mut self, key: &RemoteHostKey, workspace: WorkspaceInfo)
        ensures
            final(self)@ == after_workspace(old(self)@, *key, workspace),
    {
        proof {
            lemma_host_or_fresh_key(self@, *key);
        }
        let i: usize = self.entry(key);
        let ghost mid = self@;
        self.hosts[i].put_workspace(workspace);
        assert(self@ =~= mid.update(i as int, with_workspace(mid[i as int], workspace)));
    }

    /// The cached layout of one remote workspace.
    pub fn projection_for_space(&self, space: &RemoteSpaceKey) -> (snapshot: Option<
        &RemoteProjectionSnapshot,
    >)
        ensures
            match snapshot {
                Some(snapshot) => projection_for(self@, *space) == Some(*snapshot),
                None => projection_for(self@, *space) is None,
            },
    {
        let key = RemoteHostKey::new(space.host.clone(), space.session.clone());
        match self.index_of(&key) {
            Some(i) => match self.hosts[i].projection_index(&space.workspace_id) {
                Some(p) => Some(&self.hosts[i].projections[p]),
                None => None,
            },
            None => None,
        }
    }

    /// The cached tabs of one remote workspace.
    pub fn tab_snapshot_for_space(&self, space: &RemoteSpaceKey) -> (snapshot: Option<&TabSnapshot>)
        ensures
            match snapshot {
                Some(snapshot) => tabs_for(self@, *space) == Some(snapshot@),
                None => tabs_for(self@, *space) is None,
            },
    {
        let key = RemoteHostKey::new(space.host.clone(), space.session.clone());
        match self.index_of(&key) {
            Some(i) => match self.hosts[i].tabs_index(&space.workspace_id) {
                Some(t) => Some(&self.hosts[i].tabs[t]),
                None => None,
            },
            None => None,
        }
    }

    /// Everything cached about one host.
    pub fn source(&self, key: &RemoteHostKey) -> (host: Option<&HostSource>)
        ensures
            match host {
                Some(host) => cached_host(self@, key@) == Some(host@),
                None => cached_host(self@, key@) is None,
            },
    {
        match self.index_of(key) {
            Some(i) => Some(&self.hosts[i]),
            None => None,
        }
    }

    /// Every cached agent, host after host.
    pub fn list_entries(&self) -> (entries: Vec<RemoteAgentEntry>)
        ensures
            entries@ == all_entries(self@),
    {
        let mut entries: Vec<RemoteAgentEntry> = Vec::new();
        let mut i: usize = 0;
        assert(self@.take(0) =~= Seq::<HostView>::empty());
        while i < self.hosts.len()
            invariant
                i <= self.hosts@.len(),
                entries@ == all_entries(self@.take(i as int)),
            decreases self.hosts@.len() - i,
        {
            let host = &self.hosts[i];
            let mut own = host.entries();
            entries.append(&mut own);
            proof {
                let taken = self@.take(i as int + 1);
                assert(taken.drop_last() =~= self@.take(i as int));
                assert(taken.last() == host@);
            }
            i = i + 1;
        }
        assert(self@.take(i as int) =~= self@);
        entries
    }
}

/// What was put under a key is found there, and what is found under another key
/// stays.
pub proof fn updates_read_back(
    hosts: Seq<HostView>,
    host: HostView,
    other: (Seq<char>, Seq<char>),
)
    ensures
        cached_host(with_host(hosts, host), host.key@) == Some(host),
        other != host.key@ ==> cached_host(with_host(hosts, host), other) == cached_host(
            hosts,
            other,
        ),
{
    lemma_put_found(hosts, host_is(host.key@), host);
    if other != host.key@ {
        lemma_put_others(hosts, host_is(host.key@), host, host_is(other));
    }
}

/// A status report keeps everything that the host reported before: agents,
/// workspaces, tabs and layouts stay readable. Only what was prepared for
/// requests goes with the connection.
pub proof fn status_keeps_reported_data(
    hosts: Seq<HostView>,
    key: RemoteHostKey,
    status: RemoteConnectionStatus,
)
    requires
        cached_host(hosts, key@) is Some,
    ensures
        cached_host(after_status(hosts, key, status), key@) == Some(
            with_status(cached_host(hosts, key@)->0, status),
        ),
        with_status(cached_host(hosts, key@)->0, status) == (HostView {
            status,
            bridge_state: with_status(cached_host(hosts, key@)->0, status).bridge_state,
            ..cached_host(hosts, key@)->0
        }),
{
    lemma_host_or_fresh_key(hosts, key);
    updates_read_back(hosts, with_status(host_or_fresh(hosts, key), status), key@);
}

/// Prepared state is handed out only while its host is connected.
pub proof fn prepared_state_needs_a_connection(hosts: Seq<HostView>, key: (Seq<char>, Seq<char>))
    ensures
        prepared_state_of(hosts, key) is Some ==> connected(hosts, key),
{
}

/// An entry found under a key carries that key.
pub proof fn lemma_host_or_fresh_key(hosts: Seq<HostView>, key: RemoteHostKey)
    ensures
        host_or_fresh(hosts, key).key@ == key@,
{
    lemma_first_holds(hosts, host_is(key@));
}

/// The key under which a host is cached.
pub open spec fn cache_key() -> spec_fn(HostView) -> (Seq<char>, Seq<char>) {
    |host: HostView| host.key@
}

/// A host has at most one entry.
pub open spec fn hosts_distinct(hosts: Seq<HostView>) -> bool {
    one_each(hosts, cache_key())
}

/// No update gives a host a second entry.
pub proof fn updates_keep_hosts_distinct(hosts: Seq<HostView>, host: HostView)
    requires
        hosts_distinct(hosts),
    ensures
        hosts_distinct(with_host(hosts, host)),
{
    lemma_put_one_each(hosts, cache_key(), host_is(host.key@), host);
}

/// Whatever is reported about a host, no host gets a second entry by it.
pub proof fn reports_keep_hosts_distinct(
    hosts: Seq<HostView>,
    key: RemoteHostKey,
    status: RemoteConnectionStatus,
    snapshot: RemoteProjectionSnapshot,
    workspace_id: String,
    tabs: Seq<TabInfo>,
    tab: TabInfo,
    tab_id: Seq<char>,
    workspace: WorkspaceInfo,
)
    requires
        hosts_distinct(hosts),
    ensures
        hosts_distinct(after_status(hosts, key, status)),
        hosts_distinct(after_projection(hosts, key, snapshot)),
        hosts_distinct(after_tab_listing(hosts, key, workspace_id, tabs)),
        hosts_distinct(after_tab(hosts, key, tab)),
        hosts_distinct(after_tab_removal(hosts, key, tab_id)),
        hosts_distinct(after_tabs_doubted(hosts, key, workspace_id@)),
        hosts_distinct(after_workspace(hosts, key, workspace)),
{
    assert forall|host: HostView| hosts_distinct(#[trigger] with_host(hosts, host)) by {
        updates_keep_hosts_distinct(hosts, host);
    }
}

} // verus!
