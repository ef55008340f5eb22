//! Starting an agent in the local session.
use vstd::prelude::*;
use std::sync::Arc;
use crate::local_agents::{
    agent_info_at, agent_name_taken, agent_name_taken_body, agents_called, called_terminal,
    local_agents, PanePlace,
};
use crate::local_api::{after_workspace_launch, LaunchedTab, LaunchedWorkspace};
use crate::schema::{
    error_body, AgentInfo, AgentStartParams, ErrorBody, ErrorText, SplitDirection,
};
use crate::session::{
    tab_place, workspace_place, Mode, Pane, Session, SessionView, TerminalState,
};
use crate::session_change::{showing_tab, with_new_pane, with_terminal};
use crate::session_marks::{focus_target, marked, recording_focus, without_alias};
use crate::text::{concat3, decimal, decimal_text_wide, trim, trimmed};

verus! {

/// Why an agent was not started.
#[derive(Debug, PartialEq, Eq)]
pub enum AgentStartError {
    InvalidName,
    EmptyArgv,
    TargetNotFound { target: String },
    PlacementConflict,
    SpawnFailed(String),
    DuplicateName { name: String, candidates: Vec<AgentInfo> },
}

/// What an [`AgentStartError`] holds.
#[verifier::ext_equal]
pub enum StartErrorView {
    InvalidName,
    EmptyArgv,
    TargetNotFound(Seq<char>),
    PlacementConflict,
    SpawnFailed(Seq<char>),
    DuplicateName(Seq<char>, Seq<AgentInfo>),
}

impl View for AgentStartError {
    type V = StartErrorView;

    open spec fn view(&self) -> StartErrorView {
        match self {
            AgentStartError::InvalidName => StartErrorView::InvalidName,
            AgentStartError::EmptyArgv => StartErrorView::EmptyArgv,
            AgentStartError::TargetNotFound { target } => StartErrorView::TargetNotFound(target@),
            AgentStartError::PlacementConflict => StartErrorView::PlacementConflict,
            AgentStartError::SpawnFailed(message) => StartErrorView::SpawnFailed(message@),
            AgentStartError::DuplicateName { name, candidates } => StartErrorView::DuplicateName(
                name@,
                candidates@,
            ),
        }
    }
}

/// The command of an agent, under the name it is started with.
#[derive(Debug, PartialEq, Eq)]
pub struct AgentCommand {
    pub name: String,
    /// The directory to start in, where the request named one.
    pub cwd: Option<String>,
    pub argv: Arc<Vec<String>>,
    pub focus: bool,
}

/// Where an agent is to be started.
#[derive(Debug, PartialEq, Eq)]
pub enum AgentLaunch {
    /// In a workspace of its own.
    Workspace(AgentCommand),
    /// In a new pane beside this one.
    Split { target: SplitTarget, direction: SplitDirection, command: AgentCommand },
}

/// A pane that is to be split.
#[derive(Debug, PartialEq, Eq)]
pub struct SplitTarget {
    pub place: PanePlace,
    pub pane_id: String,
    pub raw: u32,
}

/// The pane at a place, to be split.
pub open spec fn split_target(session: SessionView, w: int, t: int, p: int) -> SplitTarget {
    let pane = session.workspaces[w].tabs[t].panes[p];
    SplitTarget {
        place: PanePlace { workspace: w as usize, tab: t as usize, pane: p as usize },
        pane_id: pane.pane_id,
        raw: pane.raw,
    }
}

/// A pane whose terminal runs.
#[derive(Debug, PartialEq, Eq)]
pub struct LaunchedPane {
    pub pane_id: String,
    pub raw: u32,
    pub terminal: TerminalState,
}

/// Where an agent goes.
pub enum Placement {
    Workspace,
    /// Beside the focused pane of this tab.
    Tab(int, int),
}

/// Where a request places its agent: in a workspace of its own where it says so or
/// where there is none yet, else in the tab it names, the active tab of the
/// workspace it names, or the active tab of the shown workspace.
pub open spec fn placement(session: SessionView, params: AgentStartParams) -> Result<
    Placement,
    StartErrorView,
> {
    if params.new_workspace {
        Ok(Placement::Workspace)
    } else {
        match params.tab_id {
            Some(tab_id) => match tab_place(session, tab_id@) {
                None => Err(StartErrorView::TargetNotFound(tab_id@)),
                Some((w, t)) => match params.workspace_id {
                    None => Ok(Placement::Tab(w, t)),
                    Some(workspace_id) => match workspace_place(session, workspace_id@) {
                        None => Err(StartErrorView::TargetNotFound(workspace_id@)),
                        Some(requested) => if requested != w {
                            Err(StartErrorView::PlacementConflict)
                        } else {
                            Ok(Placement::Tab(w, t))
                        },
                    },
                },
            },
            None => match params.workspace_id {
                Some(workspace_id) => match workspace_place(session, workspace_id@) {
                    None => Err(StartErrorView::TargetNotFound(workspace_id@)),
                    Some(w) => Ok(Placement::Tab(w, session.workspaces[w].active_tab as int)),
                },
                None => if session.workspaces.len() == 0 {
                    Ok(Placement::Workspace)
                } else {
                    let w = match session.active {
                        Some(active) => active as int,
                        None => 0,
                    };
                    Ok(Placement::Tab(w, session.workspaces[w].active_tab as int))
                },
            },
        }
    }
}

/// Why a request is refused before its place is looked for.
pub open spec fn start_refusal(session: SessionView, params: AgentStartParams) -> Option<
    StartErrorView,
> {
    let name = trimmed(params.name@);
    if name.len() == 0 {
        Some(StartErrorView::InvalidName)
    } else if params.argv@.len() == 0 {
        Some(StartErrorView::EmptyArgv)
    } else {
        let taken = agents_called(local_agents(session), name, Seq::empty());
        if taken.len() > 0 {
            Some(StartErrorView::DuplicateName(name, taken))
        } else {
            None
        }
    }
}

/// `command` is the command of a request.
pub open spec fn is_command(command: AgentCommand, params: AgentStartParams) -> bool {
    &&& command.name@ == trimmed(params.name@)
    &&& command.cwd == params.cwd
    &&& command.argv == params.argv
    &&& command.focus == params.focus
}

/// `plan` is how a request is started, or why it is not.
pub open spec fn is_start_plan(
    plan: Result<AgentLaunch, AgentStartError>,
    session: SessionView,
    params: AgentStartParams,
) -> bool {
    match start_refusal(session, params) {
        Some(error) => plan matches Err(err) && err@ == error,
        None => match placement(session, params) {
            Err(error) => plan matches Err(err) && err@ == error,
            Ok(Placement::Workspace) => plan matches Ok(AgentLaunch::Workspace(command))
                && is_command(command, params),
            Ok(Placement::Tab(w, t)) => {
                let tab = session.workspaces[w].tabs[t];
                plan matches Ok(AgentLaunch::Split { target, direction, command }) && target
                    == split_target(session, w, t, tab.focused as int) && direction == match params.split {
                    Some(split) => split,
                    None => SplitDirection::Right,
                } && is_command(command, params)
            },
        },
    }
}

/// There is no pane with this number to split.
fn no_pane(raw: u32) -> (err: AgentStartError)
    ensures
        err@ == StartErrorView::TargetNotFound(decimal(raw as nat)),
{
    AgentStartError::TargetNotFound { target: decimal_text_wide(raw as u64) }
}

fn not_found(target: &String) -> (err: AgentStartError)
    ensures
        err@ == StartErrorView::TargetNotFound(target@),
{
    AgentStartError::TargetNotFound { target: target.clone() }
}

impl Session {
    /// Where a request places its agent: the tab, or none for a new workspace.
    fn agent_placement(&self, params: &AgentStartParams) -> (place: Result<
        Option<(usize, usize)>,
        AgentStartError,
    >)
        requires
            self@.ok(),
        ensures
            match place {
                Err(err) => placement(self@, *params) matches Err(error) && err@ == error,
                Ok(None) => placement(self@, *params) matches Ok(Placement::Workspace),
                Ok(Some((w, t))) => {
                    &&& placement(self@, *params) matches Ok(Placement::Tab(pw, pt)) && pw == w
                        && pt == t
                    &&& w < self@.workspaces.len()
                    &&& t < self@.workspaces[w as int].tabs.len()
                },
            },
    {
        if params.new_workspace {
            return Ok(None);
        }
        if let Some(tab_id) = &params.tab_id {
            let (w, t): (usize, usize) = match self.parse_tab_id(tab_id.as_str()) {
                Some(place) => place,
                None => {
                    return Err(not_found(tab_id));
                },
            };
            if let Some(workspace_id) = &params.workspace_id {
                match self.parse_workspace_id(workspace_id.as_str()) {
                    None => {
                        return Err(not_found(workspace_id));
                    },
                    Some(requested) => if requested != w {
                        return Err(AgentStartError::PlacementConflict);
                    },
                }
            }
            return Ok(Some((w, t)));
        }
        let w: usize = match &params.workspace_id {
            Some(workspace_id) => match self.parse_workspace_id(workspace_id.as_str()) {
                Some(w) => w,
                None => {
                    return Err(not_found(workspace_id));
                },
            },
            None => {
                if self.workspaces.len() == 0 {
                    return Ok(None);
                }
                match self.active {
                    Some(active) => active,
                    None => 0,
                }
            },
        };
        assert(self@.workspaces[w as int].ok());
        Ok(Some((w, self.workspaces[w].active_tab)))
    }

    /// Plans the start of an agent.
    pub fn plan_agent_start(&self, params: &AgentStartParams) -> (plan: Result<
        AgentLaunch,
        AgentStartError,
    >)
        requires
            self@.ok(),
        ensures
            is_start_plan(plan, self@, *params),
    {
        let name = trim(params.name.as_str());
        if name.as_str().unicode_len() == 0 {
            return Err(AgentStartError::InvalidName);
        }
        if params.argv.len() == 0 {
            return Err(AgentStartError::EmptyArgv);
        }
        proof {
            reveal_strlit("");
            assert(""@ =~= Seq::<char>::empty());
        }
        let candidates = self.agent_name_conflicts(name.as_str(), "");
        if candidates.len() > 0 {
            return Err(AgentStartError::DuplicateName { name, candidates });
        }
        let command = AgentCommand {
            name,
            cwd: params.cwd.clone(),
            argv: params.argv.clone(),
            focus: params.focus,
        };
        match self.agent_placement(params) {
            Err(err) => Err(err),
            Ok(None) => Ok(AgentLaunch::Workspace(command)),
            Ok(Some((w, t))) => {
                assert(self@.workspaces[w as int].ok());
                assert(self@.workspaces[w as int].tabs[t as int].ok());
                let tab = &self.workspaces[w].tabs[t];
                let direction = match params.split {
                    Some(split) => split,
                    None => SplitDirection::Right,
                };
                Ok(
                    AgentLaunch::Split {
                        target: SplitTarget {
                            place: PanePlace { workspace: w, tab: t, pane: tab.focused },
                            pane_id: tab.panes[tab.focused].pane_id.clone(),
                            raw: tab.panes[tab.focused].raw,
                        },
                        direction,
                        command,
                    },
                )
            },
        }
    }
}

// Once it runs -----------------------------------------------------------

/// `result` tells of the agent that was started at a place.
pub open spec fn tells_started(
    result: Result<(AgentInfo, Arc<Vec<String>>), AgentStartError>,
    command: AgentCommand,
    session: SessionView,
    w: int,
    t: int,
    p: int,
) -> bool {
    match agent_info_at(session, w, t, p) {
        Some(agent) => result == Ok::<(AgentInfo, Arc<Vec<String>>), AgentStartError>(
            (agent, command.argv),
        ),
        None => result matches Err(err) && err@ == StartErrorView::SpawnFailed(
            "agent disappeared"@,
        ),
    }
}

/// A workspace whose terminal has the agent's name.
pub open spec fn with_agent_in(launched: LaunchedWorkspace, name: String) -> LaunchedWorkspace {
    LaunchedWorkspace {
        tab: LaunchedTab {
            terminal: called_terminal(launched.tab.terminal, Some(name)),
            ..launched.tab
        },
        ..launched
    }
}

/// The session once an agent runs in a new pane. Where that pane takes the focus, the
/// one that had it is remembered. The session is to be saved.
pub open spec fn after_agent_pane(
    session: SessionView,
    w: int,
    t: int,
    p: int,
    command: AgentCommand,
    launched: LaunchedPane,
) -> SessionView {
    let terminal = called_terminal(launched.terminal, Some(command.name));
    let added = with_new_pane(
        with_terminal(without_alias(session, launched.pane_id@), terminal),
        w,
        t,
        p,
        Pane {
            pane_id: launched.pane_id,
            raw: launched.raw,
            terminal_id: launched.terminal.id,
        },
        command.focus,
    );
    marked(
        if command.focus {
            SessionView {
                mode: Mode::Terminal,
                ..recording_focus(
                    showing_tab(added, w, t),
                    focus_target(session),
                    w,
                    launched.pane_id@,
                )
            }
        } else {
            added
        },
    )
}

fn named(terminal: TerminalState, name: &String) -> (called: TerminalState)
    ensures
        called == called_terminal(terminal, Some(*name)),
{
    TerminalState { agent_name: Some(name.clone()), manual_label: Some(name.clone()), ..terminal }
}

impl Session {
    fn started(&self, command: AgentCommand, w: usize, t: usize, p: usize) -> (result: Result<
        (AgentInfo, Arc<Vec<String>>),
        AgentStartError,
    >)
        requires
            w < self@.workspaces.len(),
            t < self@.workspaces[w as int].tabs.len(),
            p < self@.workspaces[w as int].tabs[t as int].panes.len(),
        ensures
            tells_started(result, command, self@, w as int, t as int, p as int),
    {
        match self.agent_info(w, t, p) {
            Some(agent) => Ok((agent, command.argv)),
            None => Err(AgentStartError::SpawnFailed("agent disappeared".to_owned())),
        }
    }

    /// Takes what opening a workspace for an agent came to.
    pub fn agent_workspace_started(
        &mut self,
        command: AgentCommand,
        outcome: Result<LaunchedWorkspace, String>,
    ) -> (result: Result<(AgentInfo, Arc<Vec<String>>), AgentStartError>)
        requires
            old(self)@.ok(),
        ensures
            final(self)@.ok(),
            match outcome {
                Err(message) => {
                    &&& final(self)@ == old(self)@
                    &&& result matches Err(err) && err@ == StartErrorView::SpawnFailed(message@)
                },
                Ok(launched) => {
                    &&& final(self)@ == marked(
                        after_workspace_launch(
                            old(self)@,
                            with_agent_in(launched, command.name),
                            None,
                            command.focus,
                        ),
                    )
                    &&& tells_started(
                        result,
                        command,
                        final(self)@,
                        old(self)@.workspaces.len() as int,
                        0,
                        0,
                    )
                },
            },
    {
        let launched = match outcome {
            Ok(launched) => launched,
            Err(message) => {
                return Err(AgentStartError::SpawnFailed(message));
            },
        };
        let tab = launched.tab;
        let called = LaunchedWorkspace {
            workspace_id: launched.workspace_id,
            label: launched.label,
            tab: LaunchedTab {
                tab_id: tab.tab_id,
                label: tab.label,
                pane_id: tab.pane_id,
                raw: tab.raw,
                terminal: named(tab.terminal, &command.name),
            },
        };
        let focus = command.focus;
        let w: usize = self.open_workspace(called, None, focus);
        self.mark_session_dirty();
        self.started(command, w, 0, 0)
    }

    /// Takes what opening a pane for an agent came to: nothing where there was no such
    /// pane to split.
    pub fn agent_pane_started(
        &mut self,
        target: &SplitTarget,
        command: AgentCommand,
        outcome: Option<Result<LaunchedPane, String>>,
    ) -> (result: Result<(AgentInfo, Arc<Vec<String>>), AgentStartError>)
        requires
            old(self)@.ok(),
        ensures
            final(self)@.ok(),
            match (target.place.within(old(self)@), outcome) {
                (true, Some(Err(message))) => {
                    &&& final(self)@ == old(self)@
                    &&& result matches Err(err) && err@ == StartErrorView::SpawnFailed(message@)
                },
                (true, Some(Ok(launched))) => {
                    let w = target.place.workspace as int;
                    let t = target.place.tab as int;
                    let p = target.place.pane as int;
                    &&& final(self)@ == after_agent_pane(
                        old(self)@,
                        w,
                        t,
                        p,
                        command,
                        launched,
                    )
                    &&& tells_started(result, command, final(self)@, w, t, p + 1)
                },
                _ => {
                    &&& final(self)@ == old(self)@
                    &&& result matches Err(err) && err@ == StartErrorView::TargetNotFound(
                        decimal(target.raw as nat),
                    )
                },
            },
    {
        let place = target.place;
        if !self.has_place(place) {
            return Err(no_pane(target.raw));
        }
        let launched = match outcome {
            Some(Ok(launched)) => launched,
            Some(Err(message)) => {
                return Err(AgentStartError::SpawnFailed(message));
            },
            None => {
                return Err(no_pane(target.raw));
            },
        };
        let (w, t, p): (usize, usize, usize) = (place.workspace, place.tab, place.pane);
        let previous = self.current_pane_focus_target();
        let new_id = launched.pane_id;
        let pane = Pane {
            pane_id: new_id.clone(),
            raw: launched.raw,
            terminal_id: launched.terminal.id.clone(),
        };
        let ghost before = self@;
        let ghost panes = self@.workspaces[w as int].tabs[t as int].panes.len();
        assert(panes == self.workspaces@[w as int].tabs@[t as int].panes@.len());
        assert(self.workspaces@[w as int].tabs@[t as int].panes.len() <= usize::MAX);
        self.remove_alias_shadowed_by_new_pane(new_id.as_str());
        self.add_terminal(named(launched.terminal, &command.name));
        self.add_pane(w, t, p, pane, command.focus);
        if command.focus {
            self.switch_workspace_tab(w, t);
            self.record_pane_focus_change(previous, w, new_id.as_str());
            self.mode = Mode::Terminal;
        }
        self.mark_session_dirty();
        assert(self@.workspaces[w as int].tabs[t as int].panes.len() == panes + 1);
        self.started(command, w, t, p + 1)
    }
}

// Errors -----------------------------------------------------------------

pub open spec fn start_error(err: StartErrorView) -> ErrorText {
    match err {
        StartErrorView::InvalidName => ErrorText {
            code: "invalid_agent_name"@,
            message: "agent name must not be empty"@,
        },
        StartErrorView::EmptyArgv => ErrorText {
            code: "invalid_agent_argv"@,
            message: "agent start argv must not be empty"@,
        },
        StartErrorView::TargetNotFound(target) => ErrorText {
            code: "agent_placement_not_found"@,
            message: "agent placement target "@ + target + " not found"@,
        },
        StartErrorView::PlacementConflict => ErrorText {
            code: "agent_placement_conflict"@,
            message: "--tab must belong to --workspace"@,
        },
        StartErrorView::SpawnFailed(message) => ErrorText {
            code: "agent_start_failed"@,
            message,
        },
        StartErrorView::DuplicateName(name, candidates) => agent_name_taken(name, candidates),
    }
}

pub fn agent_start_error_body(err: AgentStartError) -> (body: ErrorBody)
    ensures
        body@ == start_error(err@),
{
    match err {
        AgentStartError::InvalidName => error_body(
            "invalid_agent_name",
            "agent name must not be empty".to_owned(),
        ),
        AgentStartError::EmptyArgv => error_body(
            "invalid_agent_argv",
            "agent start argv must not be empty".to_owned(),
        ),
        AgentStartError::TargetNotFound { target } => error_body(
            "agent_placement_not_found",
            concat3("agent placement target ", target.as_str(), " not found"),
        ),
        AgentStartError::PlacementConflict => error_body(
            "agent_placement_conflict",
            "--tab must belong to --workspace".to_owned(),
        ),
        AgentStartError::SpawnFailed(message) => error_body("agent_start_failed", message),
        AgentStartError::DuplicateName { name, candidates } => agent_name_taken_body(
            name.as_str(),
            &candidates,
        ),
    }
}

// Laws -------------------------------------------------------------------

/// An agent that asks for a workspace of its own never lands in another.
pub proof fn asking_for_a_workspace_gets_one(session: SessionView, params: AgentStartParams)
    requires
        params.new_workspace,
    ensures
        placement(session, params) == Ok::<Placement, StartErrorView>(Placement::Workspace),
{
}

/// The tab in which an agent is placed exists.
pub proof fn placements_exist(session: SessionView, params: AgentStartParams)
    requires
        session.ok(),
    ensures
        placement(session, params) matches Ok(Placement::Tab(w, t)) ==> {
            &&& 0 <= w < session.workspaces.len()
            &&& 0 <= t < session.workspaces[w].tabs.len()
        },
{
    if let Some(tab_id) = params.tab_id {
        crate::session::lemma_tab_place(session, tab_id@);
    }
    if let Some(workspace_id) = params.workspace_id {
        crate::search::lemma_first_holds(
            session.workspaces,
            crate::session::workspace_is(workspace_id@),
        );
    }
    if let Ok(Placement::Tab(w, _)) = placement(session, params) {
        assert(session.workspaces[w].ok());
    }
}

/// An agent is started only under a name, and only under one that no local agent has.
pub proof fn started_agents_have_free_names(
    plan: Result<AgentLaunch, AgentStartError>,
    session: SessionView,
    params: AgentStartParams,
)
    requires
        is_start_plan(plan, session, params),
        plan is Ok,
    ensures
        agents_called(local_agents(session), trimmed(params.name@), Seq::empty()).len() == 0,
        trimmed(params.name@).len() > 0,
{
}

} // verus!
