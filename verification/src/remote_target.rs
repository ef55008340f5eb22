//! Configured remote hosts, host-qualified targets and what they resolve to.
//!
//! A target is remote where it reads `host/rest`. `rest` is `workspace:`, `tab:`,
//! `pane:` or `terminal:` and an identifier, or else the label of an agent. A
//! target without a slash is local.
use vstd::prelude::*;
use vstd::string::*;
use crate::layout::{find_pane_id, pane_id_in};
use crate::remote_source::{
    cached_host, projection_of, tab_index, tab_named, workspace_index, workspace_named, HostView,
    RemoteAgentEntry, RemoteHostKey, RemoteProjectionSnapshot, RemoteProjectionStatus,
    RemoteSources, TabsView,
};
use crate::schema::{AgentInfo, TabInfo, WorkspaceInfo};
use crate::search::{first_where, lemma_first_found, lemma_first_missing};
use crate::text::{after_prefix, concat3, index_of_char, same_text, strip_prefix};

verus! {

/// When the local server connects to a host.
#[derive(Debug, Clone, Copy, PartialEq, Eq, Structural)]
pub enum RemoteConnectionPolicy {
    /// At startup.
    Startup,
    /// When a request needs the host.
    OnDemand,
    /// Only on an explicit connect.
    Manual,
}

/// One configured host.
#[derive(Debug, PartialEq, Eq)]
pub struct RemoteHostConfig {
    pub name: String,
    pub ssh_target: String,
    pub session: String,
    pub connection_policy: RemoteConnectionPolicy,
}

impl Clone for RemoteHostConfig {
    fn clone(&self) -> (res: Self)
        ensures
            res == *self,
    {
        RemoteHostConfig {
            name: self.name.clone(),
            ssh_target: self.ssh_target.clone(),
            session: self.session.clone(),
            connection_policy: self.connection_policy,
        }
    }
}

impl RemoteHostConfig {
    /// A host that is connected at startup, or else on demand.
    pub fn new(name: &str, ssh_target: &str, session: &str, connect_on_startup: bool) -> (host: Self)
        ensures
            host.name@ == name@,
            host.ssh_target@ == ssh_target@,
            host.session@ == session@,
            host.connection_policy == if connect_on_startup {
                RemoteConnectionPolicy::Startup
            } else {
                RemoteConnectionPolicy::OnDemand
            },
    {
        RemoteHostConfig {
            name: name.to_owned(),
            ssh_target: ssh_target.to_owned(),
            session: session.to_owned(),
            connection_policy: if connect_on_startup {
                RemoteConnectionPolicy::Startup
            } else {
                RemoteConnectionPolicy::OnDemand
            },
        }
    }

    /// The same host under another connection policy.
    pub fn with_connection_policy(self, policy: RemoteConnectionPolicy) -> (host: Self)
        ensures
            host == (RemoteHostConfig { connection_policy: policy, ..self }),
    {
        RemoteHostConfig { connection_policy: policy, ..self }
    }

    /// The session of this host that the local server aggregates.
    pub open spec fn spec_key(self) -> RemoteHostKey {
        RemoteHostKey { host: self.name, session: self.session }
    }

    pub fn key(&self) -> (key: RemoteHostKey)
        ensures
            key == self.spec_key(),
    {
        RemoteHostKey::new(self.name.clone(), self.session.clone())
    }
}

pub open spec fn host_named(name: Seq<char>) -> spec_fn(RemoteHostConfig) -> bool {
    |host: RemoteHostConfig| host.name@ == name
}

/// The configured host of that alias.
pub open spec fn configured(hosts: Seq<RemoteHostConfig>, alias: Seq<char>) -> Option<
    RemoteHostConfig,
> {
    match first_where(hosts, host_named(alias)) {
        Some(i) => Some(hosts[i]),
        None => None,
    }
}

/// The configured hosts.
#[derive(Debug, PartialEq, Eq)]
pub struct RemoteHostRegistry {
    pub hosts: Vec<RemoteHostConfig>,
}

impl View for RemoteHostRegistry {
    type V = Seq<RemoteHostConfig>;

    open spec fn view(&self) -> Seq<RemoteHostConfig> {
        self.hosts@
    }
}

impl RemoteHostRegistry {
    pub fn is_empty(&self) -> (empty: bool)
        ensures
            empty == (self@.len() == 0),
    {
        self.hosts.len() == 0
    }

    /// The host of that alias.
    pub fn get(&self, alias: &str) -> (host: Option<&RemoteHostConfig>)
        ensures
            match host {
                Some(host) => configured(self@, alias@) == Some(*host),
                None => configured(self@, alias@) is None,
            },
    {
        let mut i: usize = 0;
        while i < self.hosts.len()
            invariant
                i <= self.hosts@.len(),
                forall|j: int| 0 <= j < i ==> !host_named(alias@)(#[trigger] self@[j]),
            decreases self.hosts@.len() - i,
        {
            if same_text(self.hosts[i].name.as_str(), alias) {
                proof {
                    lemma_first_found(self@, host_named(alias@), i as int);
                }
                return Some(&self.hosts[i]);
            }
            i = i + 1;
        }
        proof {
            lemma_first_missing(self@, host_named(alias@));
        }
        None
    }
}

/// What a host-qualified target names on its host.
#[derive(Debug, PartialEq, Eq)]
pub enum RemoteTargetSelector {
    /// An agent, by one of its labels.
    Label(String),
    Terminal(String),
    Pane(String),
    Tab(String),
    Workspace(String),
}

/// What a [`RemoteTargetSelector`] holds.
pub enum SelectorView {
    Label(Seq<char>),
    Terminal(Seq<char>),
    Pane(Seq<char>),
    Tab(Seq<char>),
    Workspace(Seq<char>),
}

impl View for RemoteTargetSelector {
    type V = SelectorView;

    open spec fn view(&self) -> SelectorView {
        match self {
            RemoteTargetSelector::Label(id) => SelectorView::Label(id@),
            RemoteTargetSelector::Terminal(id) => SelectorView::Terminal(id@),
            RemoteTargetSelector::Pane(id) => SelectorView::Pane(id@),
            RemoteTargetSelector::Tab(id) => SelectorView::Tab(id@),
            RemoteTargetSelector::Workspace(id) => SelectorView::Workspace(id@),
        }
    }
}

impl Clone for RemoteTargetSelector {
    fn clone(&self) -> (res: Self)
        ensures
            res == *self,
    {
        match self {
            RemoteTargetSelector::Label(id) => RemoteTargetSelector::Label(id.clone()),
            RemoteTargetSelector::Terminal(id) => RemoteTargetSelector::Terminal(id.clone()),
            RemoteTargetSelector::Pane(id) => RemoteTargetSelector::Pane(id.clone()),
            RemoteTargetSelector::Tab(id) => RemoteTargetSelector::Tab(id.clone()),
            RemoteTargetSelector::Workspace(id) => RemoteTargetSelector::Workspace(id.clone()),
        }
    }
}

/// `text` as Rust's `Debug` shows a string: in double quotes, with its special
/// characters escaped.
pub uninterp spec fn quoted_text(text: Seq<char>) -> Seq<char>;

/// Formats a string with `{:?}`. The result depends on the string alone; how
/// each character is escaped is not stated.
#[verifier::external_body]
fn quoted(text: &str) -> (shown: String)
    ensures
        shown@ == quoted_text(text@),
{
    format!("{:?}", text)
}

impl SelectorView {
    /// How a selector is shown in messages.
    pub open spec fn shown(self) -> Seq<char> {
        match self {
            SelectorView::Label(id) => "Label("@ + quoted_text(id) + ")"@,
            SelectorView::Terminal(id) => "Terminal("@ + quoted_text(id) + ")"@,
            SelectorView::Pane(id) => "Pane("@ + quoted_text(id) + ")"@,
            SelectorView::Tab(id) => "Tab("@ + quoted_text(id) + ")"@,
            SelectorView::Workspace(id) => "Workspace("@ + quoted_text(id) + ")"@,
        }
    }
}

impl RemoteTargetSelector {
    /// Shows the selector for a message.
    pub fn show(&self) -> (text: String)
        ensures
            text@ == self@.shown(),
    {
        match self {
            RemoteTargetSelector::Label(id) => concat3("Label(", quoted(id.as_str()).as_str(), ")"),
            RemoteTargetSelector::Terminal(id) => concat3(
                "Terminal(",
                quoted(id.as_str()).as_str(),
                ")",
            ),
            RemoteTargetSelector::Pane(id) => concat3("Pane(", quoted(id.as_str()).as_str(), ")"),
            RemoteTargetSelector::Tab(id) => concat3("Tab(", quoted(id.as_str()).as_str(), ")"),
            RemoteTargetSelector::Workspace(id) => concat3(
                "Workspace(",
                quoted(id.as_str()).as_str(),
                ")",
            ),
        }
    }
}

/// Why a target with a slash is not well formed.
#[derive(Debug, Clone, Copy, PartialEq, Eq, Structural)]
pub enum RemoteTargetParseError {
    EmptyHost,
    EmptyTarget,
}

impl RemoteTargetParseError {
    pub open spec fn text(self) -> Seq<char> {
        match self {
            RemoteTargetParseError::EmptyHost => "remote target host must not be empty"@,
            RemoteTargetParseError::EmptyTarget => "remote target must not be empty"@,
        }
    }

    pub fn message(self) -> (text: String)
        ensures
            text@ == self.text(),
    {
        match self {
            RemoteTargetParseError::EmptyHost => "remote target host must not be empty".to_owned(),
            RemoteTargetParseError::EmptyTarget => "remote target must not be empty".to_owned(),
        }
    }
}

/// A target, read without regard to which hosts are configured.
#[allow(inconsistent_fields)]
#[derive(Debug, PartialEq, Eq)]
pub enum TargetRoute {
    Local { target: String },
    Remote { host: String, target: RemoteTargetSelector },
}

/// What a target reads as.
pub enum RouteView {
    Local,
    Remote { host: Seq<char>, target: SelectorView },
    Malformed(RemoteTargetParseError),
}

/// The selector that follows the slash; `None` where it names nothing.
pub open spec fn selector_of(rest: Seq<char>) -> Option<SelectorView> {
    let selector = match after_prefix(rest, "workspace:"@) {
        Some(id) => SelectorView::Workspace(id),
        None => match after_prefix(rest, "tab:"@) {
            Some(id) => SelectorView::Tab(id),
            None => match after_prefix(rest, "pane:"@) {
                Some(id) => SelectorView::Pane(id),
                None => match after_prefix(rest, "terminal:"@) {
                    Some(id) => SelectorView::Terminal(id),
                    None => SelectorView::Label(rest),
                },
            },
        },
    };
    let id = match selector {
        SelectorView::Label(id) => id,
        SelectorView::Terminal(id) => id,
        SelectorView::Pane(id) => id,
        SelectorView::Tab(id) => id,
        SelectorView::Workspace(id) => id,
    };
    if id.len() == 0 {
        None
    } else {
        Some(selector)
    }
}

/// What `target` reads as: it is split at its first slash.
pub open spec fn route_of(target: Seq<char>) -> RouteView {
    match target.index_of_first('/') {
        None => RouteView::Local,
        Some(slash) => if slash == 0 {
            RouteView::Malformed(RemoteTargetParseError::EmptyHost)
        } else {
            match selector_of(target.skip(slash + 1)) {
                None => RouteView::Malformed(RemoteTargetParseError::EmptyTarget),
                Some(selector) => RouteView::Remote { host: target.take(slash), target: selector },
            }
        },
    }
}

/// Reads a selector.
pub fn parse_selector(rest: &str) -> (selector: Option<RemoteTargetSelector>)
    ensures
        match selector {
            Some(selector) => selector_of(rest@) == Some(selector@),
            None => selector_of(rest@) is None,
        },
{
    if let Some(id) = strip_prefix(rest, "workspace:") {
        return if id.as_str().is_empty() {
            None
        } else {
            Some(RemoteTargetSelector::Workspace(id))
        };
    }
    if let Some(id) = strip_prefix(rest, "tab:") {
        return if id.as_str().is_empty() {
            None
        } else {
            Some(RemoteTargetSelector::Tab(id))
        };
    }
    if let Some(id) = strip_prefix(rest, "pane:") {
        return if id.as_str().is_empty() {
            None
        } else {
            Some(RemoteTargetSelector::Pane(id))
        };
    }
    if let Some(id) = strip_prefix(rest, "terminal:") {
        return if id.as_str().is_empty() {
            None
        } else {
            Some(RemoteTargetSelector::Terminal(id))
        };
    }
    if rest.is_empty() {
        None
    } else {
        Some(RemoteTargetSelector::Label(rest.to_owned()))
    }
}

/// Reads a target.
pub fn parse_target_route(target: &str) -> (route: Result<TargetRoute, RemoteTargetParseError>)
    ensures
        match route {
            Ok(TargetRoute::Local { target: local }) => route_of(target@) is Local && local@
                == target@,
            Ok(TargetRoute::Remote { host, target: selector }) => route_of(target@) == (
            RouteView::Remote { host: host@, target: selector@ }),
            Err(err) => route_of(target@) == RouteView::Malformed(err),
        },
{
    match index_of_char(target, '/') {
        None => Ok(TargetRoute::Local { target: target.to_owned() }),
        Some(slash) => {
            if slash == 0 {
                return Err(RemoteTargetParseError::EmptyHost);
            }
            let n: usize = target.unicode_len();
            let host = target.substring_char(0, slash).to_owned();
            let rest = target.substring_char(slash + 1, n);
            assert(host@ =~= target@.take(slash as int));
            assert(rest@ =~= target@.skip(slash as int + 1));
            match parse_selector(rest) {
                None => Err(RemoteTargetParseError::EmptyTarget),
                Some(selector) => Ok(TargetRoute::Remote { host, target: selector }),
            }
        },
    }
}

/// Why a target could not be routed.
#[derive(Debug, PartialEq, Eq)]
pub enum RemoteRoutePlanError {
    Parse(RemoteTargetParseError),
    UnknownHost(String),
}

/// A target whose host, if it has one, is configured.
#[allow(inconsistent_fields)]
#[derive(Debug, PartialEq, Eq)]
pub enum PlannedTargetRoute {
    Local { target: String },
    Remote { host: RemoteHostConfig, target: RemoteTargetSelector },
}

/// Where a target leads, given the configured hosts.
pub enum PlannedView {
    Local,
    Remote { host: RemoteHostConfig, target: SelectorView },
    Malformed(RemoteTargetParseError),
    UnknownHost(Seq<char>),
}

pub open spec fn planned_route(hosts: Seq<RemoteHostConfig>, target: Seq<char>) -> PlannedView {
    match route_of(target) {
        RouteView::Local => PlannedView::Local,
        RouteView::Malformed(err) => PlannedView::Malformed(err),
        RouteView::Remote { host, target: selector } => match configured(hosts, host) {
            Some(config) => PlannedView::Remote { host: config, target: selector },
            None => PlannedView::UnknownHost(host),
        },
    }
}

pub open spec fn is_planned(
    route: Result<PlannedTargetRoute, RemoteRoutePlanError>,
    target: Seq<char>,
    view: PlannedView,
) -> bool {
    match route {
        Ok(PlannedTargetRoute::Local { target: local }) => view is Local && local@ == target,
        Ok(PlannedTargetRoute::Remote { host, target: selector }) => view == (PlannedView::Remote {
            host,
            target: selector@,
        }),
        Err(RemoteRoutePlanError::Parse(err)) => view == PlannedView::Malformed(err),
        Err(RemoteRoutePlanError::UnknownHost(host)) => view == PlannedView::UnknownHost(host@),
    }
}

/// Routes a target: a slash always leads to a host, which must be configured.
pub fn plan_target_route(hosts: &RemoteHostRegistry, target: &str) -> (route: Result<
    PlannedTargetRoute,
    RemoteRoutePlanError,
>)
    ensures
        is_planned(route, target@, planned_route(hosts@, target@)),
{
    match parse_target_route(target) {
        Err(err) => Err(RemoteRoutePlanError::Parse(err)),
        Ok(TargetRoute::Local { target }) => Ok(PlannedTargetRoute::Local { target }),
        Ok(TargetRoute::Remote { host, target: selector }) => match hosts.get(host.as_str()) {
            Some(config) => Ok(
                PlannedTargetRoute::Remote { host: config.clone(), target: selector },
            ),
            None => Err(RemoteRoutePlanError::UnknownHost(host)),
        },
    }
}

// Agents -----------------------------------------------------------------

pub open spec fn text_is(text: Option<String>, wanted: Seq<char>) -> bool {
    text is Some && text->0@ == wanted
}

/// Whether a selector names this agent.
pub open spec fn names_agent(agent: AgentInfo, selector: SelectorView) -> bool {
    match selector {
        SelectorView::Label(label) => text_is(agent.name, label) || text_is(
            agent.display_agent,
            label,
        ) || text_is(agent.agent, label),
        SelectorView::Terminal(id) => agent.terminal_id@ == id,
        SelectorView::Pane(id) => agent.pane_id@ == id,
        SelectorView::Tab(_) => false,
        SelectorView::Workspace(_) => false,
    }
}

/// The agents that a selector names, in their order.
pub open spec fn agents_named(agents: Seq<AgentInfo>, selector: SelectorView) -> Seq<AgentInfo>
    decreases agents.len(),
{
    if agents.len() == 0 {
        agents
    } else if names_agent(agents.last(), selector) {
        agents_named(agents.drop_last(), selector).push(agents.last())
    } else {
        agents_named(agents.drop_last(), selector)
    }
}

/// What a selector leads to among a host's cached agents.
pub enum AgentLookup {
    Unsupported,
    Missing,
    Many(Seq<AgentInfo>),
    One(RemoteAgentEntry),
}

pub open spec fn agent_lookup(
    hosts: Seq<HostView>,
    host: RemoteHostConfig,
    selector: SelectorView,
) -> AgentLookup {
    if selector is Tab || selector is Workspace {
        AgentLookup::Unsupported
    } else {
        match cached_host(hosts, host.spec_key()@) {
            None => AgentLookup::Missing,
            Some(source) => {
                let candidates = agents_named(source.agents, selector);
                if candidates.len() == 0 {
                    AgentLookup::Missing
                } else if candidates.len() == 1 {
                    AgentLookup::One(
                        RemoteAgentEntry {
                            host: source.key,
                            status: source.status,
                            agent: candidates[0],
                        },
                    )
                } else {
                    AgentLookup::Many(candidates)
                }
            },
        }
    }
}

/// Why a selector leads to no single agent.
#[derive(Debug, PartialEq, Eq)]
pub enum RemoteAgentResolveError {
    NotFound { target: RemoteTargetSelector },
    Ambiguous { target: RemoteTargetSelector, candidates: Vec<AgentInfo> },
    UnsupportedSelector { target: RemoteTargetSelector },
}

/// The one cached agent that a selector names.
#[derive(Debug, PartialEq, Eq)]
pub struct RemoteAgentResolution {
    pub entry: RemoteAgentEntry,
}

fn option_text_is(text: &Option<String>, wanted: &String) -> (same: bool)
    ensures
        same == text_is(*text, wanted@),
{
    match text {
        Some(own) => *own == *wanted,
        None => false,
    }
}

fn agent_is_named(agent: &AgentInfo, selector: &RemoteTargetSelector) -> (named: bool)
    ensures
        named == names_agent(*agent, selector@),
{
    match selector {
        RemoteTargetSelector::Label(label) => option_text_is(&agent.name, label) || option_text_is(
            &agent.display_agent,
            label,
        ) || option_text_is(&agent.agent, label),
        RemoteTargetSelector::Terminal(id) => agent.terminal_id == *id,
        RemoteTargetSelector::Pane(id) => agent.pane_id == *id,
        RemoteTargetSelector::Tab(_) => false,
        RemoteTargetSelector::Workspace(_) => false,
    }
}

fn select_agents(agents: &Vec<AgentInfo>, selector: &RemoteTargetSelector) -> (named: Vec<AgentInfo>)
    ensures
        named@ == agents_named(agents@, selector@),
{
    let mut named: Vec<AgentInfo> = Vec::new();
    let mut i: usize = 0;
    assert(agents@.take(0) =~= Seq::<AgentInfo>::empty());
    while i < agents.len()
        invariant
            i <= agents@.len(),
            named@ == agents_named(agents@.take(i as int), selector@),
        decreases agents@.len() - i,
    {
        proof {
            let taken = agents@.take(i as int + 1);
            assert(taken.drop_last() =~= agents@.take(i as int));
            assert(taken.last() == agents@[i as int]);
        }
        if agent_is_named(&agents[i], selector) {
            named.push(agents[i].clone());
        }
        i = i + 1;
    }
    assert(agents@.take(i as int) =~= agents@);
    named
}

/// Finds the one cached agent that a selector names.
pub fn resolve_remote_agent_target(
    sources: &RemoteSources,
    host: &RemoteHostConfig,
    selector: &RemoteTargetSelector,
) -> (resolved: Result<RemoteAgentResolution, RemoteAgentResolveError>)
    ensures
        match resolved {
            Ok(resolution) => agent_lookup(sources@, *host, selector@) == AgentLookup::One(
                resolution.entry,
            ),
            Err(RemoteAgentResolveError::NotFound { target }) => agent_lookup(
                sources@,
                *host,
                selector@,
            ) is Missing && target == *selector,
            Err(RemoteAgentResolveError::Ambiguous { target, candidates }) => agent_lookup(
                sources@,
                *host,
                selector@,
            ) == AgentLookup::Many(candidates@) && target == *selector,
            Err(RemoteAgentResolveError::UnsupportedSelector { target }) => agent_lookup(
                sources@,
                *host,
                selector@,
            ) is Unsupported && target == *selector,
        },
{
    match selector {
        RemoteTargetSelector::Tab(_) => {
            return Err(RemoteAgentResolveError::UnsupportedSelector { target: selector.clone() });
        },
        RemoteTargetSelector::Workspace(_) => {
            return Err(RemoteAgentResolveError::UnsupportedSelector { target: selector.clone() });
        },
        _ => {},
    }
    match sources.source(&host.key()) {
        None => Err(RemoteAgentResolveError::NotFound { target: selector.clone() }),
        Some(source) => {
            let candidates = select_agents(&source.agents, selector);
            if candidates.len() == 0 {
                Err(RemoteAgentResolveError::NotFound { target: selector.clone() })
            } else if candidates.len() == 1 {
                Ok(
                    RemoteAgentResolution {
                        entry: RemoteAgentEntry {
                            host: source.key.clone(),
                            status: source.status,
                            agent: candidates[0].clone(),
                        },
                    },
                )
            } else {
                Err(RemoteAgentResolveError::Ambiguous { target: selector.clone(), candidates })
            }
        },
    }
}

// Workspaces -------------------------------------------------------------

/// What a selector leads to among a host's cached workspaces.
pub enum WorkspaceLookup {
    Unsupported,
    NoMetadata,
    Missing,
    One(WorkspaceInfo),
}

pub open spec fn workspace_lookup(
    hosts: Seq<HostView>,
    host: RemoteHostConfig,
    selector: SelectorView,
) -> WorkspaceLookup {
    match selector {
        SelectorView::Workspace(id) => match cached_host(hosts, host.spec_key()@) {
            None => WorkspaceLookup::NoMetadata,
            Some(source) => match source.workspaces {
                None => WorkspaceLookup::NoMetadata,
                Some(workspaces) => match first_where(workspaces, workspace_named(id)) {
                    None => WorkspaceLookup::Missing,
                    Some(i) => WorkspaceLookup::One(workspaces[i]),
                },
            },
        },
        _ => WorkspaceLookup::Unsupported,
    }
}

/// Why a selector leads to no cached workspace.
#[derive(Debug, PartialEq, Eq)]
pub enum RemoteWorkspaceResolveError {
    NotFound { target: RemoteTargetSelector },
    MetadataUnavailable { target: RemoteTargetSelector },
    UnsupportedSelector { target: RemoteTargetSelector },
}

/// A cached workspace and the host that owns it.
#[derive(Debug, PartialEq, Eq)]
pub struct RemoteWorkspaceResolution {
    pub host: RemoteHostConfig,
    pub workspace: WorkspaceInfo,
}

/// Finds the cached workspace that a selector names.
pub fn resolve_remote_workspace_target(
    sources: &RemoteSources,
    host: &RemoteHostConfig,
    selector: &RemoteTargetSelector,
) -> (resolved: Result<RemoteWorkspaceResolution, RemoteWorkspaceResolveError>)
    ensures
        match resolved {
            Ok(resolution) => workspace_lookup(sources@, *host, selector@) == WorkspaceLookup::One(
                resolution.workspace,
            ) && resolution.host == *host,
            Err(RemoteWorkspaceResolveError::NotFound { target }) => workspace_lookup(
                sources@,
                *host,
                selector@,
            ) is Missing && target == *selector,
            Err(RemoteWorkspaceResolveError::MetadataUnavailable { target }) => workspace_lookup(
                sources@,
                *host,
                selector@,
            ) is NoMetadata && target == *selector,
            Err(RemoteWorkspaceResolveError::UnsupportedSelector { target }) => workspace_lookup(
                sources@,
                *host,
                selector@,
            ) is Unsupported && target == *selector,
        },
{
    match selector {
        RemoteTargetSelector::Workspace(id) => match sources.source(&host.key()) {
            None => Err(RemoteWorkspaceResolveError::MetadataUnavailable { target: selector.clone() }),
            Some(source) => match &source.workspaces {
                None => Err(
                    RemoteWorkspaceResolveError::MetadataUnavailable { target: selector.clone() },
                ),
                Some(workspaces) => match workspace_index(workspaces, id) {
                    None => Err(RemoteWorkspaceResolveError::NotFound { target: selector.clone() }),
                    Some(i) => Ok(
                        RemoteWorkspaceResolution {
                            host: host.clone(),
                            workspace: workspaces[i].clone(),
                        },
                    ),
                },
            },
        },
        _ => Err(RemoteWorkspaceResolveError::UnsupportedSelector { target: selector.clone() }),
    }
}

// Tabs -------------------------------------------------------------------

pub open spec fn lists_tab(tab_id: Seq<char>) -> spec_fn(TabsView) -> bool {
    |snapshot: TabsView| first_where(snapshot.tabs, tab_named(tab_id)) is Some
}

/// What a selector leads to among a host's cached tabs.
pub enum TabLookup {
    Unsupported,
    NoMetadata,
    Missing,
    Stale,
    One { workspace_id: String, tab: TabInfo },
}

pub open spec fn tab_lookup(
    hosts: Seq<HostView>,
    host: RemoteHostConfig,
    selector: SelectorView,
) -> TabLookup {
    match selector {
        SelectorView::Tab(id) => match cached_host(hosts, host.spec_key()@) {
            None => TabLookup::NoMetadata,
            Some(source) => if source.tabs.len() == 0 {
                TabLookup::NoMetadata
            } else {
                match first_where(source.tabs, lists_tab(id)) {
                    None => TabLookup::Missing,
                    Some(s) => if !(source.tabs[s].status is Available) {
                        TabLookup::Stale
                    } else {
                        TabLookup::One {
                            workspace_id: source.tabs[s].workspace_id,
                            tab: source.tabs[s].tabs[first_where(
                                source.tabs[s].tabs,
                                tab_named(id),
                            )->0],
                        }
                    },
                }
            },
        },
        _ => TabLookup::Unsupported,
    }
}

/// Why a selector leads to no cached tab that can be acted on.
#[derive(Debug, PartialEq, Eq)]
pub enum RemoteTabResolveError {
    NotFound { target: RemoteTargetSelector },
    MetadataUnavailable { target: RemoteTargetSelector },
    MetadataStale { target: RemoteTargetSelector },
    UnsupportedSelector { target: RemoteTargetSelector },
}

/// A cached tab, its workspace and the host that owns it.
#[derive(Debug, PartialEq, Eq)]
pub struct RemoteTabResolution {
    pub host: RemoteHostConfig,
    pub workspace_id: String,
    pub tab: TabInfo,
}

/// Finds the cached tab that a selector names.
pub fn resolve_remote_tab_target(
    sources: &RemoteSources,
    host: &RemoteHostConfig,
    selector: &RemoteTargetSelector,
) -> (resolved: Result<RemoteTabResolution, RemoteTabResolveError>)
    ensures
        match resolved {
            Ok(resolution) => tab_lookup(sources@, *host, selector@) == (TabLookup::One {
                workspace_id: resolution.workspace_id,
                tab: resolution.tab,
            }) && resolution.host == *host,
            Err(RemoteTabResolveError::NotFound { target }) => tab_lookup(
                sources@,
                *host,
                selector@,
            ) is Missing && target == *selector,
            Err(RemoteTabResolveError::MetadataUnavailable { target }) => tab_lookup(
                sources@,
                *host,
                selector@,
            ) is NoMetadata && target == *selector,
            Err(RemoteTabResolveError::MetadataStale { target }) => tab_lookup(
                sources@,
                *host,
                selector@,
            ) is Stale && target == *selector,
            Err(RemoteTabResolveError::UnsupportedSelector { target }) => tab_lookup(
                sources@,
                *host,
                selector@,
            ) is Unsupported && target == *selector,
        },
{
    let id = match selector {
        RemoteTargetSelector::Tab(id) => id,
        _ => {
            return Err(RemoteTabResolveError::UnsupportedSelector { target: selector.clone() });
        },
    };
    let source = match sources.source(&host.key()) {
        None => {
            return Err(RemoteTabResolveError::MetadataUnavailable { target: selector.clone() });
        },
        Some(source) => source,
    };
    if source.tabs.len() == 0 {
        return Err(RemoteTabResolveError::MetadataUnavailable { target: selector.clone() });
    }
    let ghost tabs = source@.tabs;
    let mut s: usize = 0;
    while s < source.tabs.len()
        invariant
            s <= source.tabs@.len(),
            tabs == source@.tabs,
            tabs.len() > 0,
            cached_host(sources@, host.spec_key()@) == Some(source@),
            selector@ == SelectorView::Tab(id@),
            forall|j: int| 0 <= j < s ==> !lists_tab(id@)(#[trigger] tabs[j]),
        decreases source.tabs@.len() - s,
    {
        let snapshot = &source.tabs[s];
        assert(tabs[s as int] == snapshot@);
        match tab_index(&snapshot.tabs, id) {
            Some(t) => {
                proof {
                    lemma_first_found(tabs, lists_tab(id@), s as int);
                }
                return match snapshot.status {
                    RemoteProjectionStatus::Available => Ok(
                        RemoteTabResolution {
                            host: host.clone(),
                            workspace_id: snapshot.workspace_id.clone(),
                            tab: snapshot.tabs[t].clone(),
                        },
                    ),
                    _ => Err(RemoteTabResolveError::MetadataStale { target: selector.clone() }),
                };
            },
            None => {},
        }
        s = s + 1;
    }
    proof {
        lemma_first_missing(tabs, lists_tab(id@));
    }
    Err(RemoteTabResolveError::NotFound { target: selector.clone() })
}

// Panes ------------------------------------------------------------------

pub open spec fn shows_pane(pane_id: Seq<char>) -> spec_fn(RemoteProjectionSnapshot) -> bool {
    |snapshot: RemoteProjectionSnapshot|
        snapshot.layout is Some && pane_id_in(snapshot.layout->0.root, pane_id) is Some
}

/// What a selector leads to among the panes of a host's cached layouts. A
/// workspace leads to the pane that has the focus in it.
pub enum PaneLookup {
    Unsupported,
    NoMetadata,
    Missing,
    Stale,
    One { workspace_id: String, pane_id: String },
}

pub open spec fn pane_lookup(
    hosts: Seq<HostView>,
    host: RemoteHostConfig,
    selector: SelectorView,
) -> PaneLookup {
    match selector {
        SelectorView::Pane(id) => match cached_host(hosts, host.spec_key()@) {
            None => PaneLookup::NoMetadata,
            Some(source) => if source.projections.len() == 0 {
                PaneLookup::NoMetadata
            } else {
                match first_where(source.projections, shows_pane(id)) {
                    None => PaneLookup::Missing,
                    Some(p) => if !(source.projections[p].status is Available) {
                        PaneLookup::Stale
                    } else {
                        PaneLookup::One {
                            workspace_id: source.projections[p].workspace_id,
                            pane_id: pane_id_in(source.projections[p].layout->0.root, id)->0,
                        }
                    },
                }
            },
        },
        SelectorView::Workspace(id) => match cached_host(hosts, host.spec_key()@) {
            None => PaneLookup::NoMetadata,
            Some(source) => match first_where(source.projections, projection_of(id)) {
                None => PaneLookup::NoMetadata,
                Some(p) => match source.projections[p].layout {
                    None => PaneLookup::NoMetadata,
                    Some(layout) => if !(source.projections[p].status is Available) {
                        PaneLookup::Stale
                    } else {
                        PaneLookup::One {
                            workspace_id: source.projections[p].workspace_id,
                            pane_id: layout.focused_pane_id,
                        }
                    },
                },
            },
        },
        _ => PaneLookup::Unsupported,
    }
}

/// Why a selector leads to no cached pane that can be acted on.
#[derive(Debug, PartialEq, Eq)]
pub enum RemotePaneResolveError {
    NotFound { target: RemoteTargetSelector },
    MetadataUnavailable { target: RemoteTargetSelector },
    MetadataStale { target: RemoteTargetSelector },
    UnsupportedSelector { target: RemoteTargetSelector },
}

/// A pane of a cached layout, its workspace and the host that owns it.
#[derive(Debug, PartialEq, Eq)]
pub struct RemotePaneResolution {
    pub host: RemoteHostConfig,
    pub workspace_id: String,
    pub pane_id: String,
}

fn focused_pane_of(
    sources: &RemoteSources,
    host: &RemoteHostConfig,
    selector: &RemoteTargetSelector,
    workspace_id: &String,
) -> (resolved: Result<RemotePaneResolution, RemotePaneResolveError>)
    requires
        *selector == RemoteTargetSelector::Workspace(*workspace_id),
    ensures
        match resolved {
            Ok(resolution) => pane_lookup(sources@, *host, selector@) == (PaneLookup::One {
                workspace_id: resolution.workspace_id,
                pane_id: resolution.pane_id,
            }) && resolution.host == *host,
            Err(RemotePaneResolveError::MetadataUnavailable { target }) => pane_lookup(
                sources@,
                *host,
                selector@,
            ) is NoMetadata && target == *selector,
            Err(RemotePaneResolveError::MetadataStale { target }) => pane_lookup(
                sources@,
                *host,
                selector@,
            ) is Stale && target == *selector,
            Err(_) => false,
        },
{
    match sources.source(&host.key()) {
        None => Err(RemotePaneResolveError::MetadataUnavailable { target: selector.clone() }),
        Some(source) => match source.projection_index(workspace_id) {
            None => Err(RemotePaneResolveError::MetadataUnavailable { target: selector.clone() }),
            Some(p) => match &source.projections[p].layout {
                None => Err(
                    RemotePaneResolveError::MetadataUnavailable { target: selector.clone() },
                ),
                Some(layout) => match source.projections[p].status {
                    RemoteProjectionStatus::Available => Ok(
                        RemotePaneResolution {
                            host: host.clone(),
                            workspace_id: source.projections[p].workspace_id.clone(),
                            pane_id: layout.focused_pane_id.clone(),
                        },
                    ),
                    _ => Err(RemotePaneResolveError::MetadataStale { target: selector.clone() }),
                },
            },
        },
    }
}

/// Finds the cached pane that a selector names: the pane itself, or the focused
/// pane of a workspace.
pub fn resolve_remote_pane_target(
    sources: &RemoteSources,
    host: &RemoteHostConfig,
    selector: &RemoteTargetSelector,
) -> (resolved: Result<RemotePaneResolution, RemotePaneResolveError>)
    ensures
        match resolved {
            Ok(resolution) => pane_lookup(sources@, *host, selector@) == (PaneLookup::One {
                workspace_id: resolution.workspace_id,
                pane_id: resolution.pane_id,
            }) && resolution.host == *host,
            Err(RemotePaneResolveError::NotFound { target }) => pane_lookup(
                sources@,
                *host,
                selector@,
            ) is Missing && target == *selector,
            Err(RemotePaneResolveError::MetadataUnavailable { target }) => pane_lookup(
                sources@,
                *host,
                selector@,
            ) is NoMetadata && target == *selector,
            Err(RemotePaneResolveError::MetadataStale { target }) => pane_lookup(
                sources@,
                *host,
                selector@,
            ) is Stale && target == *selector,
            Err(RemotePaneResolveError::UnsupportedSelector { target }) => pane_lookup(
                sources@,
                *host,
                selector@,
            ) is Unsupported && target == *selector,
        },
{
    let id = match selector {
        RemoteTargetSelector::Pane(id) => id,
        RemoteTargetSelector::Workspace(id) => {
            return focused_pane_of(sources, host, selector, id);
        },
        _ => {
            return Err(RemotePaneResolveError::UnsupportedSelector { target: selector.clone() });
        },
    };
    let source = match sources.source(&host.key()) {
        None => {
            return Err(RemotePaneResolveError::MetadataUnavailable { target: selector.clone() });
        },
        Some(source) => source,
    };
    if source.projections.len() == 0 {
        return Err(RemotePaneResolveError::MetadataUnavailable { target: selector.clone() });
    }
    let ghost projections = source@.projections;
    let mut p: usize = 0;
    while p < source.projections.len()
        invariant
            p <= source.projections@.len(),
            projections == source@.projections,
            projections.len() > 0,
            cached_host(sources@, host.spec_key()@) == Some(source@),
            selector@ == SelectorView::Pane(id@),
            forall|j: int| 0 <= j < p ==> !shows_pane(id@)(#[trigger] projections[j]),
        decreases source.projections@.len() - p,
    {
        let snapshot = &source.projections[p];
        if let Some(layout) = &snapshot.layout {
            if let Some(pane_id) = find_pane_id(&layout.root, id) {
                proof {
                    lemma_first_found(projections, shows_pane(id@), p as int);
                }
                return match snapshot.status {
                    RemoteProjectionStatus::Available => Ok(
                        RemotePaneResolution {
                            host: host.clone(),
                            workspace_id: snapshot.workspace_id.clone(),
                            pane_id,
                        },
                    ),
                    _ => Err(RemotePaneResolveError::MetadataStale { target: selector.clone() }),
                };
            }
        }
        p = p + 1;
    }
    proof {
        lemma_first_missing(projections, shows_pane(id@));
    }
    Err(RemotePaneResolveError::NotFound { target: selector.clone() })
}

} // verus!
