//! The agents of the local session, and how they are found, focused and renamed.
use vstd::prelude::*;
use crate::remote_source::{all_entries, RemoteAgentEntry, RemoteSources};
use crate::schema::{error_body, AgentInfo, AgentStatus, ErrorBody, ErrorText};
use crate::search::{first_where, lemma_first_found, lemma_first_missing};
use crate::session::{
    pane_is_focused, terminal_index, terminal_is, terminal_of, Mode, Pane, Session, SessionView,
    Tab, TabView, TerminalState, Workspace, WorkspaceView,
};
use crate::session_change::focusing_pane;
use crate::session_marks::marked;
use crate::text::{concat2, concat3, join, joined, same_text, texts, trim, trimmed};

verus! {

// Agents -----------------------------------------------------------------

/// Whether an agent runs in a terminal: one that was started there or recognised.
pub open spec fn is_agent_terminal(terminal: TerminalState) -> bool {
    terminal.agent_name is Some || terminal.agent is Some
}

/// The agent at a place. A terminal that shows a remote one is no local agent.
pub open spec fn agent_info_at(session: SessionView, w: int, t: int, p: int) -> Option<AgentInfo> {
    let workspace = session.workspaces[w];
    let tab = workspace.tabs[t];
    match terminal_of(session.terminals, tab.panes[p].terminal_id@) {
        None => None,
        Some(terminal) => if terminal.remote_attach is Some || !is_agent_terminal(terminal) {
            None
        } else {
            Some(
                AgentInfo {
                    terminal_id: terminal.id,
                    name: terminal.agent_name,
                    agent: terminal.agent,
                    title: terminal.title,
                    display_agent: terminal.display_agent,
                    agent_status: terminal.agent_status,
                    screen_detection_skipped: terminal.screen_detection_skipped,
                    custom_status: terminal.custom_status,
                    state_labels: terminal.state_labels,
                    agent_session: terminal.agent_session,
                    workspace_id: workspace.workspace_id,
                    tab_id: tab.tab_id,
                    pane_id: tab.panes[p].pane_id,
                    focused: pane_is_focused(session, w, t, p),
                    cwd: terminal.cwd,
                    foreground_cwd: terminal.foreground_cwd,
                    revision: terminal.revision,
                },
            )
        },
    }
}

/// The agents of the first `n` panes of a tab.
pub open spec fn agents_of_panes(session: SessionView, w: int, t: int, n: nat) -> Seq<AgentInfo>
    decreases n,
{
    if n == 0 {
        Seq::empty()
    } else {
        let before = agents_of_panes(session, w, t, (n - 1) as nat);
        match agent_info_at(session, w, t, n - 1) {
            Some(agent) => before.push(agent),
            None => before,
        }
    }
}

/// The agents of the first `n` tabs of a workspace.
pub open spec fn agents_of_tabs(session: SessionView, w: int, n: nat) -> Seq<AgentInfo>
    decreases n,
{
    if n == 0 {
        Seq::empty()
    } else {
        agents_of_tabs(session, w, (n - 1) as nat) + agents_of_panes(
            session,
            w,
            n - 1,
            session.workspaces[w].tabs[n - 1].panes.len(),
        )
    }
}

/// The agents of the first `n` workspaces.
pub open spec fn agents_of_workspaces(session: SessionView, n: nat) -> Seq<AgentInfo>
    decreases n,
{
    if n == 0 {
        Seq::empty()
    } else {
        agents_of_workspaces(session, (n - 1) as nat) + agents_of_tabs(
            session,
            n - 1,
            session.workspaces[n - 1].tabs.len(),
        )
    }
}

/// The local agents: workspace after workspace, tab after tab, pane after pane.
pub open spec fn local_agents(session: SessionView) -> Seq<AgentInfo> {
    agents_of_workspaces(session, session.workspaces.len())
}

impl Session {
    /// The agent at a place.
    pub fn agent_info(&self, w: usize, t: usize, p: usize) -> (info: Option<AgentInfo>)
        requires
            w < self@.workspaces.len(),
            t < self@.workspaces[w as int].tabs.len(),
            p < self@.workspaces[w as int].tabs[t as int].panes.len(),
        ensures
            info == agent_info_at(self@, w as int, t as int, p as int),
    {
        let workspace = &self.workspaces[w];
        let tab = &workspace.tabs[t];
        let pane = &tab.panes[p];
        let i: usize = match terminal_index(&self.terminals, pane.terminal_id.as_str()) {
            Some(i) => i,
            None => {
                return None;
            },
        };
        let terminal = &self.terminals[i];
        if terminal.remote_attach.is_some() || !(terminal.agent_name.is_some()
            || terminal.agent.is_some()) {
            return None;
        }
        let shown = match self.active {
            Some(active) => active == w && workspace.active_tab == t,
            None => false,
        };
        Some(
            AgentInfo {
                terminal_id: terminal.id.clone(),
                name: terminal.agent_name.clone(),
                agent: terminal.agent.clone(),
                title: terminal.title.clone(),
                display_agent: terminal.display_agent.clone(),
                agent_status: terminal.agent_status,
                screen_detection_skipped: terminal.screen_detection_skipped,
                custom_status: terminal.custom_status.clone(),
                state_labels: terminal.state_labels.clone(),
                agent_session: terminal.agent_session.clone(),
                workspace_id: workspace.workspace_id.clone(),
                tab_id: tab.tab_id.clone(),
                pane_id: pane.pane_id.clone(),
                focused: shown && tab.focused == p,
                cwd: terminal.cwd.clone(),
                foreground_cwd: terminal.foreground_cwd.clone(),
                revision: terminal.revision,
            },
        )
    }

    fn tab_agents(&self, w: usize, t: usize) -> (agents: Vec<AgentInfo>)
        requires
            w < self@.workspaces.len(),
            t < self@.workspaces[w as int].tabs.len(),
        ensures
            agents@ == agents_of_panes(
                self@,
                w as int,
                t as int,
                self@.workspaces[w as int].tabs[t as int].panes.len(),
            ),
    {
        let mut agents: Vec<AgentInfo> = Vec::new();
        let mut p: usize = 0;
        while p < self.workspaces[w].tabs[t].panes.len()
            invariant
                w < self@.workspaces.len(),
                t < self@.workspaces[w as int].tabs.len(),
                p <= self@.workspaces[w as int].tabs[t as int].panes.len(),
                agents@ == agents_of_panes(self@, w as int, t as int, p as nat),
            decreases self@.workspaces[w as int].tabs[t as int].panes.len() - p,
        {
            if let Some(agent) = self.agent_info(w, t, p) {
                agents.push(agent);
            }
            p = p + 1;
        }
        agents
    }

    fn workspace_agents(&self, w: usize) -> (agents: Vec<AgentInfo>)
        requires
            w < self@.workspaces.len(),
        ensures
            agents@ == agents_of_tabs(self@, w as int, self@.workspaces[w as int].tabs.len()),
    {
        let mut agents: Vec<AgentInfo> = Vec::new();
        let mut t: usize = 0;
        while t < self.workspaces[w].tabs.len()
            invariant
                w < self@.workspaces.len(),
                t <= self@.workspaces[w as int].tabs.len(),
                agents@ == agents_of_tabs(self@, w as int, t as nat),
            decreases self@.workspaces[w as int].tabs.len() - t,
        {
            let mut more = self.tab_agents(w, t);
            agents.append(&mut more);
            t = t + 1;
        }
        agents
    }

    /// The local agents.
    pub fn collect_local_agent_infos(&self) -> (agents: Vec<AgentInfo>)
        ensures
            agents@ == local_agents(self@),
    {
        let mut agents: Vec<AgentInfo> = Vec::new();
        let mut w: usize = 0;
        while w < self.workspaces.len()
            invariant
                w <= self@.workspaces.len(),
                agents@ == agents_of_workspaces(self@, w as nat),
            decreases self@.workspaces.len() - w,
        {
            let mut more = self.workspace_agents(w);
            agents.append(&mut more);
            w = w + 1;
        }
        agents
    }
}

// Remote agents ----------------------------------------------------------

/// A label under its host's name. No label is made up where there is none.
pub open spec fn label_on(host: Seq<char>, label: Option<String>) -> Option<Seq<char>> {
    match label {
        Some(label) => Some(host + "/"@ + label@),
        None => None,
    }
}

pub open spec fn text_of(text: Option<String>) -> Option<Seq<char>> {
    match text {
        Some(text) => Some(text@),
        None => None,
    }
}

/// `agent` is the cached agent as it is listed locally: its labels carry the host,
/// an agent whose host is not connected says so, and its ids stay its own.
pub open spec fn is_host_qualified(agent: AgentInfo, entry: RemoteAgentEntry) -> bool {
    let host = entry.host.host@;
    &&& text_of(agent.name) == label_on(host, entry.agent.name)
    &&& text_of(agent.display_agent) == label_on(host, entry.agent.display_agent)
    &&& text_of(agent.agent) == label_on(host, entry.agent.agent)
    &&& text_of(agent.title) == label_on(host, entry.agent.title)
    &&& match entry.status.stale_text() {
        Some(label) => text_of(agent.custom_status) == Some(label),
        None => agent.custom_status == entry.agent.custom_status,
    }
    &&& agent == (AgentInfo {
        name: agent.name,
        display_agent: agent.display_agent,
        agent: agent.agent,
        title: agent.title,
        custom_status: agent.custom_status,
        ..entry.agent
    })
}

/// A label under its host's name.
pub fn prefix_remote_label(host: &str, label: Option<String>) -> (prefixed: Option<String>)
    ensures
        text_of(prefixed) == label_on(host@, label),
{
    match label {
        Some(label) => Some(concat3(host, "/", label.as_str())),
        None => None,
    }
}

/// A cached agent as it is listed locally.
pub fn host_qualified_remote_agent_info(entry: RemoteAgentEntry) -> (agent: AgentInfo)
    ensures
        is_host_qualified(agent, entry),
{
    let label = entry.status.stale_label();
    let host = entry.host.host.as_str();
    let agent = entry.agent;
    let custom_status = match label {
        Some(label) => Some(label.to_owned()),
        None => agent.custom_status,
    };
    AgentInfo {
        name: prefix_remote_label(host, agent.name),
        display_agent: prefix_remote_label(host, agent.display_agent),
        agent: prefix_remote_label(host, agent.agent),
        title: prefix_remote_label(host, agent.title),
        custom_status,
        terminal_id: agent.terminal_id,
        agent_status: agent.agent_status,
        screen_detection_skipped: agent.screen_detection_skipped,
        state_labels: agent.state_labels,
        agent_session: agent.agent_session,
        workspace_id: agent.workspace_id,
        tab_id: agent.tab_id,
        pane_id: agent.pane_id,
        focused: agent.focused,
        cwd: agent.cwd,
        foreground_cwd: agent.foreground_cwd,
        revision: agent.revision,
    }
}

/// `agents` are the local agents, as they are, and after them the cached ones.
pub open spec fn is_agent_listing(
    agents: Seq<AgentInfo>,
    local: Seq<AgentInfo>,
    cached: Seq<RemoteAgentEntry>,
) -> bool {
    &&& agents.len() == local.len() + cached.len()
    &&& agents.take(local.len() as int) == local
    &&& forall|i: int|
        0 <= i < cached.len() ==> is_host_qualified(
            #[trigger] agents[local.len() + i],
            cached[i],
        )
}

impl Session {
    /// The local agents, then the cached ones of remote hosts.
    pub fn collect_agent_infos(&self, sources: &RemoteSources) -> (agents: Vec<AgentInfo>)
        ensures
            is_agent_listing(agents@, local_agents(self@), all_entries(sources@)),
    {
        let mut agents = self.collect_local_agent_infos();
        let mut rest = sources.list_entries();
        let ghost local = agents@;
        let ghost all = rest@;
        let ghost mut done: int = 0;
        assert(rest@ =~= all.skip(0));
        while rest.len() > 0
            invariant
                0 <= done <= all.len(),
                rest@ == all.skip(done),
                agents@.len() == local.len() + done,
                forall|i: int| 0 <= i < local.len() ==> #[trigger] agents@[i] == local[i],
                forall|i: int|
                    0 <= i < done ==> is_host_qualified(
                        #[trigger] agents@[local.len() + i],
                        all[i],
                    ),
            decreases rest@.len(),
        {
            let entry = rest.remove(0);
            assert(entry == all[done]);
            assert(rest@ =~= all.skip(done + 1));
            let ghost before = agents@;
            agents.push(host_qualified_remote_agent_info(entry));
            proof {
                assert forall|i: int| 0 <= i < done + 1 implies is_host_qualified(
                    #[trigger] agents@[local.len() + i],
                    all[i],
                ) by {
                    if i < done {
                        assert(agents@[local.len() + i] == before[local.len() + i]);
                    }
                }
                done = done + 1;
            }
        }
        assert(agents@.take(local.len() as int) =~= local);
        agents
    }
}

// Finding a terminal -----------------------------------------------------

pub open spec fn pane_named(target: Seq<char>) -> spec_fn(Pane) -> bool {
    |pane: Pane| pane.pane_id@ == target || pane.terminal_id@ == target
}

pub open spec fn tab_holds(target: Seq<char>) -> spec_fn(TabView) -> bool {
    |tab: TabView| first_where(tab.panes, pane_named(target)) is Some
}

pub open spec fn workspace_holds(target: Seq<char>) -> spec_fn(WorkspaceView) -> bool {
    |workspace: WorkspaceView| first_where(workspace.tabs, tab_holds(target)) is Some
}

/// Where the pane stands that has this id or shows the terminal with this id.
pub open spec fn pane_place(session: SessionView, target: Seq<char>) -> Option<(int, int, int)> {
    match first_where(session.workspaces, workspace_holds(target)) {
        None => None,
        Some(w) => {
            let tabs = session.workspaces[w].tabs;
            let t = first_where(tabs, tab_holds(target))->0;
            Some((w, t, first_where(tabs[t].panes, pane_named(target))->0))
        },
    }
}

/// The agents of a list with this name, but for one terminal.
pub open spec fn agents_called(
    agents: Seq<AgentInfo>,
    name: Seq<char>,
    except: Seq<char>,
) -> Seq<AgentInfo>
    decreases agents.len(),
{
    if agents.len() == 0 {
        agents
    } else {
        let before = agents_called(agents.drop_last(), name, except);
        if text_of(agents.last().name) == Some(name) && agents.last().terminal_id@ != except {
            before.push(agents.last())
        } else {
            before
        }
    }
}

/// What a target leads to.
pub enum TargetLookup {
    Found(int, int, int),
    Missing,
    Many(Seq<AgentInfo>),
}

/// What a target leads to: the pane with this id, the one that shows the terminal
/// with this id, or else the one agent with this name.
pub open spec fn target_lookup(session: SessionView, target: Seq<char>) -> TargetLookup {
    match pane_place(session, target) {
        Some((w, t, p)) => TargetLookup::Found(w, t, p),
        None => {
            let called = agents_called(local_agents(session), target, Seq::empty());
            if called.len() == 0 {
                TargetLookup::Missing
            } else if called.len() > 1 {
                TargetLookup::Many(called)
            } else {
                match pane_place(session, called[0].pane_id@) {
                    Some((w, t, p)) => TargetLookup::Found(w, t, p),
                    None => TargetLookup::Missing,
                }
            }
        },
    }
}

/// Why a target leads to no single terminal.
#[derive(Debug, PartialEq, Eq)]
pub enum TerminalTargetError {
    NotFound { target: String },
    Ambiguous { target: String, candidates: Vec<AgentInfo> },
}

/// `err` says that the target leads nowhere, or to many.
pub open spec fn is_lookup_error(
    err: TerminalTargetError,
    target: String,
    lookup: TargetLookup,
) -> bool {
    match err {
        TerminalTargetError::NotFound { target: named } => named == target && lookup is Missing,
        TerminalTargetError::Ambiguous { target: named, candidates } => named == target && lookup
            == TargetLookup::Many(candidates@),
    }
}

impl Tab {
    /// Finds a pane of the tab.
    fn pane_index(&self, target: &str) -> (found: Option<usize>)
        ensures
            match found {
                Some(p) => p < self@.panes.len() && first_where(
                    self@.panes,
                    pane_named(target@),
                ) == Some(p as int),
                None => first_where(self@.panes, pane_named(target@)) is None,
            },
    {
        let mut p: usize = 0;
        while p < self.panes.len()
            invariant
                p <= self.panes@.len(),
                forall|j: int| 0 <= j < p ==> !pane_named(target@)(#[trigger] self@.panes[j]),
            decreases self.panes@.len() - p,
        {
            if same_text(self.panes[p].pane_id.as_str(), target) || same_text(
                self.panes[p].terminal_id.as_str(),
                target,
            ) {
                proof {
                    lemma_first_found(self@.panes, pane_named(target@), p as int);
                }
                return Some(p);
            }
            p = p + 1;
        }
        proof {
            lemma_first_missing(self@.panes, pane_named(target@));
        }
        None
    }
}

impl Workspace {
    /// Finds a pane of the workspace.
    fn pane_place(&self, target: &str) -> (found: Option<(usize, usize)>)
        ensures
            match found {
                Some((t, p)) => {
                    &&& t < self@.tabs.len()
                    &&& p < self@.tabs[t as int].panes.len()
                    &&& first_where(self@.tabs, tab_holds(target@)) == Some(t as int)
                    &&& first_where(self@.tabs[t as int].panes, pane_named(target@)) == Some(
                        p as int,
                    )
                },
                None => first_where(self@.tabs, tab_holds(target@)) is None,
            },
    {
        let mut t: usize = 0;
        while t < self.tabs.len()
            invariant
                t <= self.tabs@.len(),
                forall|j: int| 0 <= j < t ==> !tab_holds(target@)(#[trigger] self@.tabs[j]),
            decreases self.tabs@.len() - t,
        {
            if let Some(p) = self.tabs[t].pane_index(target) {
                proof {
                    lemma_first_found(self@.tabs, tab_holds(target@), t as int);
                }
                return Some((t, p));
            }
            t = t + 1;
        }
        proof {
            lemma_first_missing(self@.tabs, tab_holds(target@));
        }
        None
    }
}

/// A place in the session.
#[derive(Debug, Clone, Copy, PartialEq, Eq, Structural)]
pub struct PanePlace {
    pub workspace: usize,
    pub tab: usize,
    pub pane: usize,
}

impl PanePlace {
    /// The place exists.
    pub open spec fn within(self, session: SessionView) -> bool {
        &&& self.workspace < session.workspaces.len()
        &&& self.tab < session.workspaces[self.workspace as int].tabs.len()
        &&& self.pane < session.workspaces[self.workspace as int].tabs[self.tab as int].panes.len()
    }
}

impl Session {
    /// Whether a place exists.
    pub fn has_place(&self, place: PanePlace) -> (exists_here: bool)
        ensures
            exists_here == place.within(self@),
    {
        if place.workspace >= self.workspaces.len() {
            return false;
        }
        let workspace = &self.workspaces[place.workspace];
        assert(workspace@ == self@.workspaces[place.workspace as int]);
        if place.tab >= workspace.tabs.len() {
            return false;
        }
        let tab = &workspace.tabs[place.tab];
        assert(tab@ == workspace@.tabs[place.tab as int]);
        place.pane < tab.panes.len()
    }

    /// Finds the pane that has an id, or shows the terminal with that id.
    pub fn place_of_pane(&self, target: &str) -> (found: Option<PanePlace>)
        ensures
            match found {
                Some(place) => place.within(self@) && pane_place(self@, target@) == Some(
                    (place.workspace as int, place.tab as int, place.pane as int),
                ),
                None => pane_place(self@, target@) is None,
            },
    {
        let mut w: usize = 0;
        while w < self.workspaces.len()
            invariant
                w <= self.workspaces@.len(),
                forall|j: int|
                    0 <= j < w ==> !workspace_holds(target@)(#[trigger] self@.workspaces[j]),
            decreases self.workspaces@.len() - w,
        {
            if let Some((t, p)) = self.workspaces[w].pane_place(target) {
                proof {
                    lemma_first_found(self@.workspaces, workspace_holds(target@), w as int);
                }
                return Some(PanePlace { workspace: w, tab: t, pane: p });
            }
            w = w + 1;
        }
        proof {
            lemma_first_missing(self@.workspaces, workspace_holds(target@));
        }
        None
    }

    /// The local agents with this name, but for one terminal. Remote agents never
    /// take a local name.
    pub fn agent_name_conflicts(&self, name: &str, except_terminal_id: &str) -> (conflicts: Vec<
        AgentInfo,
    >)
        ensures
            conflicts@ == agents_called(local_agents(self@), name@, except_terminal_id@),
    {
        let agents = self.collect_local_agent_infos();
        let mut conflicts: Vec<AgentInfo> = Vec::new();
        let mut i: usize = 0;
        assert(agents@.take(0) =~= Seq::empty());
        while i < agents.len()
            invariant
                i <= agents@.len(),
                conflicts@ == agents_called(agents@.take(i as int), name@, except_terminal_id@),
            decreases agents@.len() - i,
        {
            proof {
                let taken = agents@.take(i as int + 1);
                assert(taken.drop_last() =~= agents@.take(i as int));
                assert(taken.last() == agents@[i as int]);
            }
            let called = match &agents[i].name {
                Some(own) => same_text(own.as_str(), name),
                None => false,
            };
            if called && !same_text(agents[i].terminal_id.as_str(), except_terminal_id) {
                conflicts.push(agents[i].clone());
            }
            i = i + 1;
        }
        assert(agents@.take(i as int) =~= agents@);
        conflicts
    }

    /// Finds the terminal that a target names.
    pub fn resolve_terminal_target(&self, target: &String) -> (resolved: Result<
        PanePlace,
        TerminalTargetError,
    >)
        ensures
            match resolved {
                Ok(place) => place.within(self@) && target_lookup(self@, target@)
                    == TargetLookup::Found(
                    place.workspace as int,
                    place.tab as int,
                    place.pane as int,
                ),
                Err(err) => is_lookup_error(err, *target, target_lookup(self@, target@)),
            },
    {
        if let Some(place) = self.place_of_pane(target.as_str()) {
            return Ok(place);
        }
        proof {
            reveal_strlit("");
            assert(""@ =~= Seq::<char>::empty());
        }
        let called = self.agent_name_conflicts(target.as_str(), "");
        if called.len() == 0 {
            Err(TerminalTargetError::NotFound { target: target.clone() })
        } else if called.len() > 1 {
            Err(TerminalTargetError::Ambiguous { target: target.clone(), candidates: called })
        } else {
            match self.place_of_pane(called[0].pane_id.as_str()) {
                Some(place) => Ok(place),
                None => Err(TerminalTargetError::NotFound { target: target.clone() }),
            }
        }
    }
}

// Reading, focusing, renaming --------------------------------------------

/// `result` tells of the agent that the target leads to.
pub open spec fn tells_agent(
    result: Result<AgentInfo, TerminalTargetError>,
    target: String,
    lookup: TargetLookup,
    session: SessionView,
) -> bool {
    match lookup {
        TargetLookup::Found(w, t, p) => match agent_info_at(session, w, t, p) {
            Some(agent) => result == Ok::<AgentInfo, TerminalTargetError>(agent),
            None => result == Err::<AgentInfo, TerminalTargetError>(
                TerminalTargetError::NotFound { target },
            ),
        },
        _ => result matches Err(err) && is_lookup_error(err, target, lookup),
    }
}

/// The session once a target was focused. That happens even where no agent runs
/// in the terminal.
pub open spec fn after_focus(session: SessionView, lookup: TargetLookup) -> SessionView {
    match lookup {
        TargetLookup::Found(w, t, p) => SessionView {
            mode: Mode::Terminal,
            ..focusing_pane(session, w, t, p)
        },
        _ => session,
    }
}

/// The name that a request gives: what is left without the white space around it,
/// or none where nothing is left.
pub open spec fn name_given(name: Option<String>) -> Option<Seq<char>> {
    match name {
        Some(name) => if trimmed(name@).len() == 0 {
            None
        } else {
            Some(trimmed(name@))
        },
        None => None,
    }
}

/// A terminal that has a name, or has it no longer.
pub open spec fn called_terminal(terminal: TerminalState, name: Option<String>) -> TerminalState {
    match name {
        Some(name) => TerminalState {
            agent_name: Some(name),
            manual_label: Some(name),
            ..terminal
        },
        None => TerminalState { agent_name: None, ..terminal },
    }
}

/// The session once a terminal was given a name.
pub open spec fn with_agent_name(
    session: SessionView,
    terminal_id: Seq<char>,
    name: Option<String>,
) -> SessionView {
    match first_where(session.terminals, terminal_is(terminal_id)) {
        Some(i) => SessionView {
            terminals: session.terminals.update(i, called_terminal(session.terminals[i], name)),
            ..session
        },
        None => session,
    }
}

/// Why an agent was not renamed.
#[derive(Debug, PartialEq, Eq)]
pub enum AgentRenameError {
    Target(TerminalTargetError),
    DuplicateName { name: String, candidates: Vec<AgentInfo> },
}

/// The id of the terminal shown at a place.
pub open spec fn terminal_id_at(session: SessionView, w: int, t: int, p: int) -> Seq<char> {
    session.workspaces[w].tabs[t].panes[p].terminal_id@
}

/// The agents that stand in the way of a name.
pub open spec fn name_conflicts(
    session: SessionView,
    name: Option<Seq<char>>,
    terminal_id: Seq<char>,
) -> Seq<AgentInfo> {
    match name {
        Some(name) => agents_called(local_agents(session), name, terminal_id),
        None => Seq::empty(),
    }
}

/// What renaming the agent that a target names comes to.
pub open spec fn renames(
    result: Result<AgentInfo, AgentRenameError>,
    before: SessionView,
    after: SessionView,
    target: String,
    name: Option<String>,
) -> bool {
    match target_lookup(before, target@) {
        TargetLookup::Found(w, t, p) => {
            let id = terminal_id_at(before, w, t, p);
            let given = name_given(name);
            let conflicts = name_conflicts(before, given, id);
            if conflicts.len() > 0 {
                &&& after == before
                &&& result matches Err(AgentRenameError::DuplicateName { name: taken, candidates })
                    && Some(taken@) == given && candidates@ == conflicts
            } else if terminal_of(before.terminals, id) is None {
                &&& after == before
                &&& result == Err::<AgentInfo, AgentRenameError>(
                    AgentRenameError::Target(TerminalTargetError::NotFound { target }),
                )
            } else {
                &&& exists|called: Option<String>|
                    text_of(called) == given && after == marked(
                        #[trigger] with_agent_name(before, id, called),
                    )
                &&& match agent_info_at(after, w, t, p) {
                    Some(agent) => result == Ok::<AgentInfo, AgentRenameError>(agent),
                    None => result == Err::<AgentInfo, AgentRenameError>(
                        AgentRenameError::Target(TerminalTargetError::NotFound { target }),
                    ),
                }
            }
        },
        lookup => {
            &&& after == before
            &&& result matches Err(AgentRenameError::Target(err)) && is_lookup_error(
                err,
                target,
                lookup,
            )
        },
    }
}

impl Session {
    /// The agent that a target names.
    pub fn agent_info_for_target(&self, target: &String) -> (result: Result<
        AgentInfo,
        TerminalTargetError,
    >)
        ensures
            tells_agent(result, *target, target_lookup(self@, target@), self@),
    {
        match self.resolve_terminal_target(target) {
            Err(err) => Err(err),
            Ok(place) => match self.agent_info(place.workspace, place.tab, place.pane) {
                Some(agent) => Ok(agent),
                None => Err(TerminalTargetError::NotFound { target: target.clone() }),
            },
        }
    }

    /// Shows the agent that a target names and gives it the focus.
    pub fn focus_agent_target(&mut self, target: &String) -> (result: Result<
        AgentInfo,
        TerminalTargetError,
    >)
        requires
            old(self)@.ok(),
        ensures
            final(self)@ == after_focus(old(self)@, target_lookup(old(self)@, target@)),
            final(self)@.ok(),
            tells_agent(result, *target, target_lookup(old(self)@, target@), final(self)@),
    {
        match self.resolve_terminal_target(target) {
            Err(err) => Err(err),
            Ok(place) => {
                self.focus_pane_in_workspace(place.workspace, place.tab, place.pane);
                self.mode = Mode::Terminal;
                match self.agent_info(place.workspace, place.tab, place.pane) {
                    Some(agent) => Ok(agent),
                    None => Err(TerminalTargetError::NotFound { target: target.clone() }),
                }
            },
        }
    }

    /// Renames the agent that a target names, or takes its name away.
    pub fn rename_agent_target(&mut self, target: &String, name: &Option<String>) -> (result: Result<
        AgentInfo,
        AgentRenameError,
    >)
        requires
            old(self)@.ok(),
        ensures
            final(self)@.ok(),
            renames(result, old(self)@, final(self)@, *target, *name),
    {
        let place = match self.resolve_terminal_target(target) {
            Ok(place) => place,
            Err(err) => {
                return Err(AgentRenameError::Target(err));
            },
        };
        let given = match name {
            Some(name) => {
                let name = trim(name.as_str());
                if name.as_str().unicode_len() == 0 {
                    None
                } else {
                    Some(name)
                }
            },
            None => None,
        };
        let terminal_id = self.workspaces[place.workspace].tabs[place.tab].panes[place.pane].terminal_id.clone();
        if let Some(name) = &given {
            let conflicts = self.agent_name_conflicts(name.as_str(), terminal_id.as_str());
            if conflicts.len() > 0 {
                return Err(
                    AgentRenameError::DuplicateName { name: name.clone(), candidates: conflicts },
                );
            }
        }
        let ghost before = self@;
        let i: usize = match terminal_index(&self.terminals, terminal_id.as_str()) {
            Some(i) => i,
            None => {
                return Err(
                    AgentRenameError::Target(
                        TerminalTargetError::NotFound { target: target.clone() },
                    ),
                );
            },
        };
        let ghost called = given;
        match given {
            Some(name) => {
                self.terminals[i].agent_name = Some(name.clone());
                self.terminals[i].manual_label = Some(name);
            },
            None => {
                self.terminals[i].agent_name = None;
            },
        }
        self.mark_session_dirty();
        proof {
            let after = marked(with_agent_name(before, terminal_id@, called));
            assert(self@.terminals =~= after.terminals);
            assert(self@.workspaces =~= before.workspaces);
            assert(self@ == after);
            assert(text_of(called) == name_given(*name));
        }
        match self.agent_info(place.workspace, place.tab, place.pane) {
            Some(agent) => Ok(agent),
            None => Err(
                AgentRenameError::Target(TerminalTargetError::NotFound { target: target.clone() }),
            ),
        }
    }
}

// Errors -----------------------------------------------------------------

/// The name of a status.
pub open spec fn status_name(status: AgentStatus) -> Seq<char> {
    match status {
        AgentStatus::Idle => "Idle"@,
        AgentStatus::Working => "Working"@,
        AgentStatus::Blocked => "Blocked"@,
        AgentStatus::Done => "Done"@,
        AgentStatus::Unknown => "Unknown"@,
    }
}

fn name_of_status(status: AgentStatus) -> (name: &'static str)
    ensures
        name@ == status_name(status),
{
    match status {
        AgentStatus::Idle => "Idle",
        AgentStatus::Working => "Working",
        AgentStatus::Blocked => "Blocked",
        AgentStatus::Done => "Done",
        AgentStatus::Unknown => "Unknown",
    }
}

/// How an error tells one of many agents from the others.
pub open spec fn candidate_text(agent: AgentInfo) -> Seq<char> {
    "terminal_id="@ + agent.terminal_id@ + " pane_id="@ + agent.pane_id@ + " workspace_id="@
        + agent.workspace_id@ + " tab_id="@ + agent.tab_id@ + " cwd="@ + match agent.cwd {
        Some(cwd) => cwd@,
        None => "unknown"@,
    } + " status="@ + status_name(agent.agent_status)
}

/// The candidates of an error.
pub open spec fn candidates_text(agents: Seq<AgentInfo>) -> Seq<char> {
    joined(agents.map_values(|agent: AgentInfo| candidate_text(agent)), "; "@)
}

fn describe_candidate(agent: &AgentInfo) -> (text: String)
    ensures
        text@ == candidate_text(*agent),
{
    let cwd = match &agent.cwd {
        Some(cwd) => cwd.clone(),
        None => "unknown".to_owned(),
    };
    let mut text = concat2("terminal_id=", agent.terminal_id.as_str());
    text.append(" pane_id=");
    text.append(agent.pane_id.as_str());
    text.append(" workspace_id=");
    text.append(agent.workspace_id.as_str());
    text.append(" tab_id=");
    text.append(agent.tab_id.as_str());
    text.append(" cwd=");
    text.append(cwd.as_str());
    text.append(" status=");
    text.append(name_of_status(agent.agent_status));
    text
}

fn describe_candidates(agents: &Vec<AgentInfo>) -> (text: String)
    ensures
        text@ == candidates_text(agents@),
{
    let mut parts: Vec<String> = Vec::new();
    let mut i: usize = 0;
    while i < agents.len()
        invariant
            i <= agents@.len(),
            parts@.len() == i,
            forall|j: int| 0 <= j < i ==> (#[trigger] parts@[j])@ == candidate_text(agents@[j]),
        decreases agents@.len() - i,
    {
        parts.push(describe_candidate(&agents[i]));
        i = i + 1;
    }
    assert(texts(parts@) =~= agents@.map_values(|agent: AgentInfo| candidate_text(agent)));
    join(&parts, "; ")
}

pub open spec fn agent_missing(target: Seq<char>) -> ErrorText {
    ErrorText { code: "agent_not_found"@, message: "agent target "@ + target + " not found"@ }
}

pub open spec fn agent_ambiguous(target: Seq<char>, candidates: Seq<AgentInfo>) -> ErrorText {
    ErrorText {
        code: "agent_target_ambiguous"@,
        message: "agent target "@ + target + " is ambiguous; candidates: "@ + candidates_text(
            candidates,
        ),
    }
}

pub open spec fn agent_name_taken(name: Seq<char>, candidates: Seq<AgentInfo>) -> ErrorText {
    ErrorText {
        code: "agent_name_taken"@,
        message: "agent name "@ + name + " is already used; candidates: "@ + candidates_text(
            candidates,
        ),
    }
}

pub open spec fn target_error(err: TerminalTargetError) -> ErrorText {
    match err {
        TerminalTargetError::NotFound { target } => agent_missing(target@),
        TerminalTargetError::Ambiguous { target, candidates } => agent_ambiguous(
            target@,
            candidates@,
        ),
    }
}

pub open spec fn rename_error(err: AgentRenameError) -> ErrorText {
    match err {
        AgentRenameError::Target(err) => target_error(err),
        AgentRenameError::DuplicateName { name, candidates } => agent_name_taken(
            name@,
            candidates@,
        ),
    }
}

/// The refusal of a name that is taken.
pub fn agent_name_taken_body(name: &str, candidates: &Vec<AgentInfo>) -> (body: ErrorBody)
    ensures
        body@ == agent_name_taken(name@, candidates@),
{
    let mut message = concat3("agent name ", name, " is already used; candidates: ");
    message.append(describe_candidates(candidates).as_str());
    error_body("agent_name_taken", message)
}

pub fn agent_target_error_body(err: TerminalTargetError) -> (body: ErrorBody)
    ensures
        body@ == target_error(err),
{
    match err {
        TerminalTargetError::NotFound { target } => error_body(
            "agent_not_found",
            concat3("agent target ", target.as_str(), " not found"),
        ),
        TerminalTargetError::Ambiguous { target, candidates } => {
            let mut message = concat3(
                "agent target ",
                target.as_str(),
                " is ambiguous; candidates: ",
            );
            message.append(describe_candidates(&candidates).as_str());
            error_body("agent_target_ambiguous", message)
        },
    }
}

pub fn agent_rename_error_body(err: AgentRenameError) -> (body: ErrorBody)
    ensures
        body@ == rename_error(err),
{
    match err {
        AgentRenameError::Target(err) => agent_target_error_body(err),
        AgentRenameError::DuplicateName { name, candidates } => agent_name_taken_body(
            name.as_str(),
            &candidates,
        ),
    }
}

// Laws -------------------------------------------------------------------

/// Every local agent runs in a terminal of its own session that shows no remote one.
pub proof fn remote_views_are_not_local_agents(session: SessionView, w: int, t: int, p: int)
    requires
        agent_info_at(session, w, t, p) is Some,
    ensures
        ({
            let id = session.workspaces[w].tabs[t].panes[p].terminal_id@;
            &&& terminal_of(session.terminals, id) is Some
            &&& terminal_of(session.terminals, id)->0.remote_attach is None
        }),
{
}

/// Only an agent among those asked stands in the way of a name, only if it has that
/// very name, and never the one that is to be renamed.
pub proof fn only_called_agents_conflict(
    agents: Seq<AgentInfo>,
    name: Seq<char>,
    except: Seq<char>,
    i: int,
)
    requires
        0 <= i < agents_called(agents, name, except).len(),
    ensures
        agents.contains(agents_called(agents, name, except)[i]),
        text_of(agents_called(agents, name, except)[i].name) == Some(name),
        agents_called(agents, name, except)[i].terminal_id@ != except,
    decreases agents.len(),
{
    let before = agents_called(agents.drop_last(), name, except);
    if i < before.len() {
        only_called_agents_conflict(agents.drop_last(), name, except, i);
        let j = choose|j: int|
            0 <= j < agents.drop_last().len() && agents.drop_last()[j] == before[i];
        assert(agents[j] == before[i]);
    } else {
        assert(agents[agents.len() - 1] == agents.last());
    }
}

/// Renaming keeps everything of a terminal but its name and its label.
pub proof fn renaming_keeps_the_rest(terminal: TerminalState, name: Option<String>)
    ensures
        called_terminal(terminal, name) == (TerminalState {
            agent_name: name,
            manual_label: if name is None {
                terminal.manual_label
            } else {
                name
            },
            ..terminal
        }),
{
}

} // verus!
