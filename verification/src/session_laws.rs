//! What the local session does with workspaces, tabs and panes, said of those that are
//! asked for and of those that are left alone.
use vstd::prelude::*;
use crate::agent_start::{
    is_start_plan, placement, start_refusal, AgentLaunch, Placement, StartErrorView,
};
use crate::local_agents::{
    agent_info_at, agents_called, agents_of_panes, agents_of_tabs, agents_of_workspaces,
    local_agents, name_given, pane_named, pane_place, renames, tab_holds, target_lookup,
    terminal_id_at, text_of, with_agent_name, workspace_holds, AgentRenameError, TargetLookup,
};
use crate::schema::{AgentInfo, AgentStartParams};
use crate::search::{first_where, lemma_first_found, lemma_first_holds};
use crate::session::{
    all_tabs, all_workspaces, focused_cwd, has_tab, pane_info_at, panes_of_first, tab_info_of,
    tab_is, tab_place, tabs_of_first, terminal_is, terminal_of, workspace_info_of, workspace_is,
    workspace_place, workspace_tabs, SessionView, TabView, TerminalState,
};
use crate::session_marks::marked;
use crate::text::trimmed;

verus! {

// Finding ----------------------------------------------------------------

/// A workspace is found by its identifier: the first one that has it.
pub proof fn workspaces_are_found_by_identifier(session: SessionView, id: Seq<char>)
    ensures
        match workspace_place(session, id) {
            Some(w) => 0 <= w < session.workspaces.len() && session.workspaces[w].workspace_id@ == id
                && forall|v: int|
                0 <= v < w ==> (#[trigger] session.workspaces[v]).workspace_id@ != id,
            None => forall|v: int|
                0 <= v < session.workspaces.len() ==> (
                #[trigger] session.workspaces[v]).workspace_id@ != id,
        },
{
    let mine = workspace_is(id);
    lemma_first_holds(session.workspaces, mine);
    match first_where(session.workspaces, mine) {
        Some(w) => {
            assert(mine(session.workspaces[w]));
            assert forall|v: int| 0 <= v < w implies (
            #[trigger] session.workspaces[v]).workspace_id@ != id by {
                assert(!mine(session.workspaces[v]));
            }
        },
        None => {
            assert forall|v: int| 0 <= v < session.workspaces.len() implies (
            #[trigger] session.workspaces[v]).workspace_id@ != id by {
                assert(!mine(session.workspaces[v]));
            }
        },
    }
}

/// A tab is found by its identifier, wherever it is; it is missing only where no
/// workspace has it.
pub proof fn tabs_are_found_by_identifier(session: SessionView, id: Seq<char>)
    ensures
        match tab_place(session, id) {
            Some((w, t)) => 0 <= w < session.workspaces.len() && 0 <= t
                < session.workspaces[w].tabs.len() && session.workspaces[w].tabs[t].tab_id@ == id,
            None => forall|w: int, t: int|
                0 <= w < session.workspaces.len() && 0 <= t < session.workspaces[w].tabs.len()
                    ==> (#[trigger] session.workspaces[w].tabs[t]).tab_id@ != id,
        },
{
    let with = has_tab(id);
    lemma_first_holds(session.workspaces, with);
    match first_where(session.workspaces, with) {
        Some(w) => {
            assert(with(session.workspaces[w]));
            lemma_first_holds(session.workspaces[w].tabs, tab_is(id));
            let t = first_where(session.workspaces[w].tabs, tab_is(id))->0;
            assert(tab_is(id)(session.workspaces[w].tabs[t]));
        },
        None => {
            assert forall|w: int, t: int|
                0 <= w < session.workspaces.len() && 0 <= t
                    < session.workspaces[w].tabs.len() implies (
            #[trigger] session.workspaces[w].tabs[t]).tab_id@ != id by {
                assert(!with(session.workspaces[w]));
                lemma_first_holds(session.workspaces[w].tabs, tab_is(id));
                assert(!tab_is(id)(session.workspaces[w].tabs[t]));
            }
        },
    }
}

/// A pane is found by its own identifier or by its terminal's, wherever it is.
pub proof fn panes_are_found_by_identifier(session: SessionView, id: Seq<char>)
    ensures
        match pane_place(session, id) {
            Some((w, t, p)) => 0 <= w < session.workspaces.len() && 0 <= t
                < session.workspaces[w].tabs.len() && 0 <= p
                < session.workspaces[w].tabs[t].panes.len() && (
            session.workspaces[w].tabs[t].panes[p].pane_id@ == id
                || session.workspaces[w].tabs[t].panes[p].terminal_id@ == id),
            None => forall|w: int, t: int, p: int|
                0 <= w < session.workspaces.len() && 0 <= t < session.workspaces[w].tabs.len() && 0
                    <= p < session.workspaces[w].tabs[t].panes.len() ==> (
                #[trigger] session.workspaces[w].tabs[t].panes[p]).pane_id@ != id
                    && session.workspaces[w].tabs[t].panes[p].terminal_id@ != id,
        },
{
    let with = workspace_holds(id);
    lemma_first_holds(session.workspaces, with);
    match first_where(session.workspaces, with) {
        Some(w) => {
            assert(with(session.workspaces[w]));
            let tabs = session.workspaces[w].tabs;
            lemma_first_holds(tabs, tab_holds(id));
            let t = first_where(tabs, tab_holds(id))->0;
            assert(tab_holds(id)(tabs[t]));
            lemma_first_holds(tabs[t].panes, pane_named(id));
            let p = first_where(tabs[t].panes, pane_named(id))->0;
            assert(pane_named(id)(tabs[t].panes[p]));
        },
        None => {
            assert forall|w: int, t: int, p: int|
                0 <= w < session.workspaces.len() && 0 <= t < session.workspaces[w].tabs.len() && 0
                    <= p < session.workspaces[w].tabs[t].panes.len() implies (
            #[trigger] session.workspaces[w].tabs[t].panes[p]).pane_id@ != id
                && session.workspaces[w].tabs[t].panes[p].terminal_id@ != id by {
                assert(!with(session.workspaces[w]));
                let tabs = session.workspaces[w].tabs;
                lemma_first_holds(tabs, tab_holds(id));
                assert(!tab_holds(id)(tabs[t]));
                lemma_first_holds(tabs[t].panes, pane_named(id));
                assert(!pane_named(id)(tabs[t].panes[p]));
            }
        },
    }
}

/// A terminal is found by its identifier.
pub proof fn terminals_are_found_by_identifier(terminals: Seq<TerminalState>, id: Seq<char>)
    ensures
        match terminal_of(terminals, id) {
            Some(terminal) => terminal.id@ == id && terminals.contains(terminal),
            None => forall|i: int| 0 <= i < terminals.len() ==> (#[trigger] terminals[i]).id@ != id,
        },
{
    let mine = terminal_is(id);
    lemma_first_holds(terminals, mine);
    match first_where(terminals, mine) {
        Some(i) => {
            assert(mine(terminals[i]));
            assert(terminals.contains(terminals[i]));
        },
        None => {
            assert forall|i: int| 0 <= i < terminals.len() implies (
            #[trigger] terminals[i]).id@ != id by {
                assert(!mine(terminals[i]));
            }
        },
    }
}

// Starting an agent ------------------------------------------------------

/// Where an agent lands that asks for no workspace of its own. A named tab is that
/// tab, and it must belong to a workspace that is named with it. A named workspace is
/// that workspace, whichever one is shown, in its active tab. Where neither is named
/// it is the shown workspace, the first one where none is shown, in its active tab;
/// without any workspace it gets one of its own.
pub proof fn agents_land_where_they_are_asked_to(session: SessionView, params: AgentStartParams)
    requires
        session.ok(),
        !params.new_workspace,
    ensures
        match placement(session, params) {
            Ok(Placement::Tab(w, t)) => {
                &&& 0 <= w < session.workspaces.len()
                &&& 0 <= t < session.workspaces[w].tabs.len()
                &&& params.workspace_id matches Some(id) ==> session.workspaces[w].workspace_id@
                    == id@
                &&& match params.tab_id {
                    Some(id) => session.workspaces[w].tabs[t].tab_id@ == id@,
                    None => t == session.workspaces[w].active_tab,
                }
                &&& params.tab_id is None && params.workspace_id is None ==> w == (
                match session.active {
                    Some(active) => active as int,
                    None => 0,
                })
            },
            Ok(Placement::Workspace) => params.tab_id is None && params.workspace_id is None
                && session.workspaces.len() == 0,
            Err(StartErrorView::TargetNotFound(name)) => {
                ||| params.tab_id matches Some(id) && name == id@ && forall|w: int, t: int|
                    0 <= w < session.workspaces.len() && 0 <= t < session.workspaces[w].tabs.len()
                        ==> (#[trigger] session.workspaces[w].tabs[t]).tab_id@ != name
                ||| params.workspace_id matches Some(id) && name == id@ && forall|w: int|
                    0 <= w < session.workspaces.len() ==> (
                    #[trigger] session.workspaces[w]).workspace_id@ != name
            },
            Err(StartErrorView::PlacementConflict) => params.tab_id is Some
                && params.workspace_id is Some && tab_place(session, params.tab_id->0@) is Some
                && workspace_place(session, params.workspace_id->0@) is Some && workspace_place(
                session,
                params.workspace_id->0@,
            )->0 != (tab_place(session, params.tab_id->0@)->0).0,
            Err(_) => false,
        },
{
    if let Some(id) = params.tab_id {
        tabs_are_found_by_identifier(session, id@);
    }
    if let Some(id) = params.workspace_id {
        workspaces_are_found_by_identifier(session, id@);
    }
    if let Ok(Placement::Tab(w, _)) = placement(session, params) {
        assert(session.workspaces[w].ok());
    }
}

/// An agent that may start is launched in a workspace of its own, or beside the
/// focused pane of the tab where it lands: to its right unless another side is asked
/// for. It is launched under the trimmed name that was asked for, with that command,
/// in that directory, and gets the focus only where that was asked for.
pub proof fn agents_are_launched_as_asked(
    launch: AgentLaunch,
    session: SessionView,
    params: AgentStartParams,
)
    requires
        session.ok(),
        session.workspaces.len() <= usize::MAX,
        forall|w: int|
            0 <= w < session.workspaces.len() ==> (#[trigger] session.workspaces[w]).tabs.len()
                <= usize::MAX,
        is_start_plan(Ok(launch), session, params),
    ensures
        trimmed(params.name@).len() > 0,
        params.argv@.len() > 0,
        match launch {
            AgentLaunch::Workspace(command) => {
                &&& placement(session, params) == Ok::<Placement, StartErrorView>(
                    Placement::Workspace,
                )
                &&& command.name@ == trimmed(params.name@) && command.cwd == params.cwd
                    && command.argv == params.argv && command.focus == params.focus
            },
            AgentLaunch::Split { target, direction, command } => {
                &&& placement(session, params) matches Ok(Placement::Tab(w, t)) && {
                    let tab = session.workspaces[w].tabs[t];
                    &&& target.place.workspace == w && target.place.tab == t && target.place.pane
                        == tab.focused
                    &&& target.pane_id == tab.panes[tab.focused as int].pane_id
                    &&& target.raw == tab.panes[tab.focused as int].raw
                }
                &&& params.split is Some ==> direction == params.split->0
                &&& params.split is None ==> direction is Right
                &&& command.name@ == trimmed(params.name@) && command.cwd == params.cwd
                    && command.argv == params.argv && command.focus == params.focus
            },
        },
{
    if !params.new_workspace {
        agents_land_where_they_are_asked_to(session, params);
    }
    if let Ok(Placement::Tab(w, t)) = placement(session, params) {
        assert(session.workspaces[w].ok());
        assert(session.workspaces[w].tabs[t].ok());
        assert(session.workspaces[w].tabs.len() <= usize::MAX);
    }
}

/// A start is refused for its name, its command or its place, and for nothing else:
/// an empty name, an empty command, or a name that a local agent has.
pub proof fn starts_are_refused_for_a_reason(session: SessionView, params: AgentStartParams)
    ensures
        match start_refusal(session, params) {
            None => trimmed(params.name@).len() > 0 && params.argv@.len() > 0 && forall|i: int|
                0 <= i < local_agents(session).len() ==> !((
                #[trigger] local_agents(session)[i]).name matches Some(name) && name@ == trimmed(
                    params.name@,
                ) && local_agents(session)[i].terminal_id@.len() > 0),
            Some(StartErrorView::InvalidName) => trimmed(params.name@).len() == 0,
            Some(StartErrorView::EmptyArgv) => trimmed(params.name@).len() > 0
                && params.argv@.len() == 0,
            Some(StartErrorView::DuplicateName(name, taken)) => name == trimmed(params.name@)
                && taken.len() > 0 && forall|k: int|
                0 <= k < taken.len() ==> local_agents(session).contains(#[trigger] taken[k])
                    && taken[k].name is Some && taken[k].name->0@ == name,
            Some(_) => false,
        },
{
    let name = trimmed(params.name@);
    lemma_called(local_agents(session), name, Seq::empty());
}

proof fn lemma_called(agents: Seq<AgentInfo>, name: Seq<char>, except: Seq<char>)
    ensures
        forall|k: int|
            0 <= k < agents_called(agents, name, except).len() ==> agents.contains(
                #[trigger] agents_called(agents, name, except)[k],
            ) && agents_called(agents, name, except)[k].name is Some && agents_called(
                agents,
                name,
                except,
            )[k].name->0@ == name && agents_called(agents, name, except)[k].terminal_id@ != except,
        forall|i: int|
            0 <= i < agents.len() && (#[trigger] agents[i]).name is Some && agents[i].name->0@
                == name && agents[i].terminal_id@ != except ==> agents_called(
                agents,
                name,
                except,
            ).contains(agents[i]),
    decreases agents.len(),
{
    if agents.len() > 0 {
        let rest = agents.drop_last();
        lemma_called(rest, name, except);
        let found = agents_called(agents, name, except);
        let before = agents_called(rest, name, except);
        assert forall|k: int| 0 <= k < found.len() implies agents.contains(#[trigger] found[k])
            && found[k].name is Some && found[k].name->0@ == name && found[k].terminal_id@
            != except by {
            if k < before.len() {
                assert(found[k] == before[k]);
                let i = choose|i: int| 0 <= i < rest.len() && rest[i] == before[k];
                assert(agents[i] == found[k]);
            } else {
                assert(found[k] == agents[agents.len() - 1]);
            }
        }
        assert forall|i: int|
            0 <= i < agents.len() && (#[trigger] agents[i]).name is Some && agents[i].name->0@
                == name && agents[i].terminal_id@ != except implies found.contains(agents[i]) by {
            if i < rest.len() {
                assert(rest[i] == agents[i]);
                let k = choose|k: int| 0 <= k < before.len() && before[k] == agents[i];
                assert(found[k] == agents[i]);
            } else {
                assert(found[found.len() - 1] == agents[i]);
            }
        }
    }
}

// Telling ----------------------------------------------------------------

/// What is told of an agent is what its terminal and its place say. A pane has an
/// agent exactly where its terminal is known, shows no remote one, and was named or
/// recognised as one.
pub proof fn agents_are_told_as_they_are(session: SessionView, w: int, t: int, p: int)
    ensures
        ({
            let workspace = session.workspaces[w];
            let tab = workspace.tabs[t];
            let terminal = terminal_of(session.terminals, tab.panes[p].terminal_id@);
            &&& (agent_info_at(session, w, t, p) is Some) == (terminal is Some
                && terminal->0.remote_attach is None && (terminal->0.agent_name is Some
                || terminal->0.agent is Some))
            &&& agent_info_at(session, w, t, p) matches Some(agent) ==> {
                let known = terminal->0;
                &&& agent.terminal_id@ == tab.panes[p].terminal_id@
                &&& agent.pane_id == tab.panes[p].pane_id
                &&& agent.tab_id == tab.tab_id
                &&& agent.workspace_id == workspace.workspace_id
                &&& agent.focused == (session.active == Some(w as usize) && workspace.active_tab
                    == t && tab.focused == p)
                &&& agent.name == known.agent_name && agent.agent == known.agent
                &&& agent.title == known.title && agent.display_agent == known.display_agent
                &&& agent.agent_status == known.agent_status
                &&& agent.screen_detection_skipped == known.screen_detection_skipped
                &&& agent.custom_status == known.custom_status
                &&& agent.state_labels == known.state_labels
                &&& agent.agent_session == known.agent_session
                &&& agent.cwd == known.cwd && agent.foreground_cwd == known.foreground_cwd
                &&& agent.revision == known.revision
            }
        }),
{
    terminals_are_found_by_identifier(
        session.terminals,
        session.workspaces[w].tabs[t].panes[p].terminal_id@,
    );
}

/// `agent` is the agent of one of the first `n` panes of a tab.
pub open spec fn among_panes(session: SessionView, w: int, t: int, n: nat, agent: AgentInfo) -> bool {
    exists|p: int| 0 <= p < n && #[trigger] agent_info_at(session, w, t, p) == Some(agent)
}

/// `agent` is the agent of a pane in one of the first `n` tabs of a workspace.
pub open spec fn among_tabs(session: SessionView, w: int, n: nat, agent: AgentInfo) -> bool {
    exists|t: int, p: int|
        0 <= t < n && 0 <= p < session.workspaces[w].tabs[t].panes.len()
            && #[trigger] agent_info_at(session, w, t, p) == Some(agent)
}

/// `agent` is the agent of a pane in one of the first `n` workspaces.
pub open spec fn among_workspaces(session: SessionView, n: nat, agent: AgentInfo) -> bool {
    exists|w: int, t: int, p: int|
        0 <= w < n && 0 <= t < session.workspaces[w].tabs.len() && 0 <= p
            < session.workspaces[w].tabs[t].panes.len() && #[trigger] agent_info_at(
            session,
            w,
            t,
            p,
        ) == Some(agent)
}

proof fn lemma_panes_listed(session: SessionView, w: int, t: int, n: nat)
    ensures
        forall|k: int|
            0 <= k < agents_of_panes(session, w, t, n).len() ==> among_panes(
                session,
                w,
                t,
                n,
                #[trigger] agents_of_panes(session, w, t, n)[k],
            ),
        forall|p: int|
            0 <= p < n && #[trigger] agent_info_at(session, w, t, p) is Some ==> agents_of_panes(
                session,
                w,
                t,
                n,
            ).contains(agent_info_at(session, w, t, p)->0),
    decreases n,
{
    if n > 0 {
        let m = (n - 1) as nat;
        lemma_panes_listed(session, w, t, m);
        let found = agents_of_panes(session, w, t, n);
        let before = agents_of_panes(session, w, t, m);
        assert forall|k: int| 0 <= k < found.len() implies among_panes(
            session,
            w,
            t,
            n,
            #[trigger] found[k],
        ) by {
            if k < before.len() {
                assert(found[k] == before[k]);
                assert(among_panes(session, w, t, m, before[k]));
                let p = choose|p: int|
                    0 <= p < m && #[trigger] agent_info_at(session, w, t, p) == Some(before[k]);
                assert(agent_info_at(session, w, t, p) == Some(found[k]));
            } else {
                assert(agent_info_at(session, w, t, n - 1) == Some(found[k]));
            }
        }
        assert forall|p: int|
            0 <= p < n && #[trigger] agent_info_at(session, w, t, p) is Some implies found.contains(
            agent_info_at(session, w, t, p)->0,
        ) by {
            if p < m {
                let k = choose|k: int|
                    0 <= k < before.len() && before[k] == agent_info_at(session, w, t, p)->0;
                assert(found[k] == before[k]);
            } else {
                assert(found[found.len() - 1] == agent_info_at(session, w, t, p)->0);
            }
        }
    }
}

proof fn lemma_tabs_listed(session: SessionView, w: int, n: nat)
    ensures
        forall|k: int|
            0 <= k < agents_of_tabs(session, w, n).len() ==> among_tabs(
                session,
                w,
                n,
                #[trigger] agents_of_tabs(session, w, n)[k],
            ),
        forall|t: int, p: int|
            0 <= t < n && 0 <= p < session.workspaces[w].tabs[t].panes.len()
                && #[trigger] agent_info_at(session, w, t, p) is Some ==> agents_of_tabs(
                session,
                w,
                n,
            ).contains(agent_info_at(session, w, t, p)->0),
    decreases n,
{
    if n > 0 {
        let m = (n - 1) as nat;
        lemma_tabs_listed(session, w, m);
        let last = n - 1;
        let size = session.workspaces[w].tabs[last].panes.len();
        lemma_panes_listed(session, w, last, size);
        let found = agents_of_tabs(session, w, n);
        let before = agents_of_tabs(session, w, m);
        let here = agents_of_panes(session, w, last, size);
        assert forall|k: int| 0 <= k < found.len() implies among_tabs(
            session,
            w,
            n,
            #[trigger] found[k],
        ) by {
            if k < before.len() {
                assert(found[k] == before[k]);
                assert(among_tabs(session, w, m, before[k]));
                let (t, p) = choose|t: int, p: int|
                    0 <= t < m && 0 <= p < session.workspaces[w].tabs[t].panes.len()
                        && #[trigger] agent_info_at(session, w, t, p) == Some(before[k]);
                assert(agent_info_at(session, w, t, p) == Some(found[k]));
            } else {
                let j = k - before.len();
                assert(found[k] == here[j]);
                assert(among_panes(session, w, last, size, here[j]));
                let p = choose|p: int|
                    0 <= p < size && #[trigger] agent_info_at(session, w, last, p) == Some(here[j]);
                assert(agent_info_at(session, w, last, p) == Some(found[k]));
            }
        }
        assert forall|t: int, p: int|
            0 <= t < n && 0 <= p < session.workspaces[w].tabs[t].panes.len()
                && #[trigger] agent_info_at(session, w, t, p) is Some implies found.contains(
            agent_info_at(session, w, t, p)->0,
        ) by {
            let agent = agent_info_at(session, w, t, p)->0;
            if t < m {
                let k = choose|k: int| 0 <= k < before.len() && before[k] == agent;
                assert(found[k] == agent);
            } else {
                let j = choose|j: int| 0 <= j < here.len() && here[j] == agent;
                assert(found[before.len() + j] == agent);
            }
        }
    }
}

proof fn lemma_workspaces_listed(session: SessionView, n: nat)
    ensures
        forall|k: int|
            0 <= k < agents_of_workspaces(session, n).len() ==> among_workspaces(
                session,
                n,
                #[trigger] agents_of_workspaces(session, n)[k],
            ),
        forall|w: int, t: int, p: int|
            0 <= w < n && 0 <= t < session.workspaces[w].tabs.len() && 0 <= p
                < session.workspaces[w].tabs[t].panes.len() && #[trigger] agent_info_at(
                session,
                w,
                t,
                p,
            ) is Some ==> agents_of_workspaces(session, n).contains(
                agent_info_at(session, w, t, p)->0,
            ),
    decreases n,
{
    if n > 0 {
        let m = (n - 1) as nat;
        lemma_workspaces_listed(session, m);
        let last = n - 1;
        let size = session.workspaces[last].tabs.len();
        lemma_tabs_listed(session, last, size);
        let found = agents_of_workspaces(session, n);
        let before = agents_of_workspaces(session, m);
        let here = agents_of_tabs(session, last, size);
        assert forall|k: int| 0 <= k < found.len() implies among_workspaces(
            session,
            n,
            #[trigger] found[k],
        ) by {
            if k < before.len() {
                assert(found[k] == before[k]);
                assert(among_workspaces(session, m, before[k]));
                let (w, t, p) = choose|w: int, t: int, p: int|
                    0 <= w < m && 0 <= t < session.workspaces[w].tabs.len() && 0 <= p
                        < session.workspaces[w].tabs[t].panes.len() && #[trigger] agent_info_at(
                        session,
                        w,
                        t,
                        p,
                    ) == Some(before[k]);
                assert(agent_info_at(session, w, t, p) == Some(found[k]));
            } else {
                let j = k - before.len();
                assert(found[k] == here[j]);
                assert(among_tabs(session, last, size, here[j]));
                let (t, p) = choose|t: int, p: int|
                    0 <= t < size && 0 <= p < session.workspaces[last].tabs[t].panes.len()
                        && #[trigger] agent_info_at(session, last, t, p) == Some(here[j]);
                assert(agent_info_at(session, last, t, p) == Some(found[k]));
            }
        }
        assert forall|w: int, t: int, p: int|
            0 <= w < n && 0 <= t < session.workspaces[w].tabs.len() && 0 <= p
                < session.workspaces[w].tabs[t].panes.len() && #[trigger] agent_info_at(
                session,
                w,
                t,
                p,
            ) is Some implies found.contains(agent_info_at(session, w, t, p)->0) by {
            let agent = agent_info_at(session, w, t, p)->0;
            if w < m {
                let k = choose|k: int| 0 <= k < before.len() && before[k] == agent;
                assert(found[k] == agent);
            } else {
                let j = choose|j: int| 0 <= j < here.len() && here[j] == agent;
                assert(found[before.len() + j] == agent);
            }
        }
    }
}

/// The local agents are the agents of all panes, and nobody else.
pub proof fn local_agents_are_those_of_the_panes(session: SessionView)
    ensures
        forall|k: int|
            0 <= k < local_agents(session).len() ==> among_workspaces(
                session,
                session.workspaces.len(),
                #[trigger] local_agents(session)[k],
            ),
        forall|w: int, t: int, p: int|
            0 <= w < session.workspaces.len() && 0 <= t < session.workspaces[w].tabs.len() && 0 <= p
                < session.workspaces[w].tabs[t].panes.len() && #[trigger] agent_info_at(
                session,
                w,
                t,
                p,
            ) is Some ==> local_agents(session).contains(agent_info_at(session, w, t, p)->0),
{
    lemma_workspaces_listed(session, session.workspaces.len());
}

/// A target leads to a pane: one that is named by its own or its terminal's
/// identifier, or else the pane of the one agent of that name. Two agents of that
/// name are not chosen between, and it leads nowhere only where nothing has the name.
pub proof fn targets_lead_to_their_pane(session: SessionView, target: Seq<char>)
    ensures
        match target_lookup(session, target) {
            TargetLookup::Found(w, t, p) => {
                &&& 0 <= w < session.workspaces.len()
                &&& 0 <= t < session.workspaces[w].tabs.len()
                &&& 0 <= p < session.workspaces[w].tabs[t].panes.len()
                &&& {
                    let pane = session.workspaces[w].tabs[t].panes[p];
                    ||| pane.pane_id@ == target
                    ||| pane.terminal_id@ == target
                    ||| exists|k: int|
                        0 <= k < local_agents(session).len() && {
                            let agent = #[trigger] local_agents(session)[k];
                            &&& agent.name is Some && agent.name->0@ == target
                            &&& agent.pane_id@ == pane.pane_id@ || agent.pane_id@
                                == pane.terminal_id@
                        }
                }
            },
            TargetLookup::Missing => forall|w: int, t: int, p: int|
                0 <= w < session.workspaces.len() && 0 <= t < session.workspaces[w].tabs.len() && 0
                    <= p < session.workspaces[w].tabs[t].panes.len() ==> (
                #[trigger] session.workspaces[w].tabs[t].panes[p]).pane_id@ != target
                    && session.workspaces[w].tabs[t].panes[p].terminal_id@ != target,
            TargetLookup::Many(called) => called.len() > 1 && forall|k: int|
                0 <= k < called.len() ==> local_agents(session).contains(#[trigger] called[k])
                    && called[k].name is Some && called[k].name->0@ == target,
        },
{
    panes_are_found_by_identifier(session, target);
    let agents = local_agents(session);
    lemma_called(agents, target, Seq::empty());
    let called = agents_called(agents, target, Seq::empty());
    if pane_place(session, target) is None && called.len() == 1 {
        panes_are_found_by_identifier(session, called[0].pane_id@);
        assert(agents.contains(called[0]));
        let k = choose|k: int| 0 <= k < agents.len() && agents[k] == called[0];
        assert(agents[k].name->0@ == target);
    }
}

/// What is told of a tab is what the tab is and where it stands.
pub proof fn tabs_are_told_as_they_are(session: SessionView, w: int, t: int)
    requires
        0 <= w < session.workspaces.len() <= usize::MAX,
        0 <= t < session.workspaces[w].tabs.len(),
        session.workspaces[w].tabs.len() <= usize::MAX,
        session.workspaces[w].tabs[t].panes.len() <= usize::MAX,
    ensures
        ({
            let told = tab_info_of(session, w, t);
            let tab = session.workspaces[w].tabs[t];
            &&& told.tab_id == tab.tab_id && told.label == tab.label
            &&& told.workspace_id == session.workspaces[w].workspace_id
            &&& told.number == t + 1
            &&& told.pane_count == tab.panes.len()
            &&& told.agent_status == tab.agent_status
            &&& told.focused <==> session.active is Some && session.active->0 == w
                && session.workspaces[w].active_tab == t
            &&& workspace_tabs(session, w).len() == session.workspaces[w].tabs.len()
            &&& workspace_tabs(session, w)[t] == told
        }),
{
}

/// At most one tab of a session is told to have the focus.
pub proof fn one_tab_has_the_focus(session: SessionView, w: int, t: int, v: int, u: int)
    requires
        0 <= w < session.workspaces.len() <= usize::MAX,
        0 <= v < session.workspaces.len(),
        tab_info_of(session, w, t).focused,
        tab_info_of(session, v, u).focused,
    ensures
        w == v && t == u,
{
}

/// What is told of a workspace is what it is and where it stands.
pub proof fn workspaces_are_told_as_they_are(session: SessionView, w: int)
    requires
        0 <= w < session.workspaces.len() <= usize::MAX,
        session.workspaces[w].tabs.len() <= usize::MAX,
        session.workspaces[w].ok(),
    ensures
        ({
            let told = workspace_info_of(session, w);
            let workspace = session.workspaces[w];
            &&& told.workspace_id == workspace.workspace_id && told.label == workspace.label
            &&& told.number == w + 1
            &&& told.focused <==> session.active is Some && session.active->0 == w
            &&& told.tab_count == workspace.tabs.len()
            &&& told.active_tab_id == workspace.tabs[workspace.active_tab as int].tab_id
            &&& told.agent_status == workspace.agent_status
            &&& told.worktree == workspace.worktree
            &&& workspace.tabs.len() == 1 && workspace.tabs[0].panes.len() <= usize::MAX
                ==> told.pane_count == workspace.tabs[0].panes.len()
            &&& all_workspaces(session).len() == session.workspaces.len()
            &&& all_workspaces(session)[w] == told
        }),
{
    reveal_with_fuel(panes_of_first, 3);
}

/// All tabs are told, workspace after workspace.
pub proof fn all_tabs_are_told(session: SessionView, n: nat)
    requires
        n <= session.workspaces.len(),
    ensures
        n == session.workspaces.len() ==> all_tabs(session) == tabs_of_first(session, n),
        forall|w: int, t: int|
            0 <= w < n && 0 <= t < session.workspaces[w].tabs.len() ==> tabs_of_first(
                session,
                n,
            ).contains(#[trigger] tab_info_of(session, w, t)),
        n > 0 ==> tabs_of_first(session, n).len() == tabs_of_first(session, (n - 1) as nat).len()
            + session.workspaces[n - 1].tabs.len(),
    decreases n,
{
    if n > 0 {
        let m = (n - 1) as nat;
        all_tabs_are_told(session, m);
        let found = tabs_of_first(session, n);
        let before = tabs_of_first(session, m);
        let here = workspace_tabs(session, n - 1);
        assert forall|w: int, t: int|
            0 <= w < n && 0 <= t < session.workspaces[w].tabs.len() implies found.contains(
            #[trigger] tab_info_of(session, w, t),
        ) by {
            if w < m {
                let k = choose|k: int|
                    0 <= k < before.len() && before[k] == tab_info_of(session, w, t);
                assert(found[k] == before[k]);
            } else {
                assert(found[before.len() + t] == here[t]);
            }
        }
    }
}

/// What is told of a pane is what its terminal and its place say.
pub proof fn panes_are_told_as_they_are(session: SessionView, w: int, t: int, p: int)
    ensures
        pane_info_at(session, w, t, p) matches Some(told) ==> {
            let tab = session.workspaces[w].tabs[t];
            let known = terminal_of(session.terminals, tab.panes[p].terminal_id@);
            &&& known is Some
            &&& told.pane_id == tab.panes[p].pane_id
            &&& told.terminal_id@ == tab.panes[p].terminal_id@
            &&& told.tab_id == tab.tab_id
            &&& told.workspace_id == session.workspaces[w].workspace_id
            &&& told.focused == (session.active == Some(w as usize)
                && session.workspaces[w].active_tab == t && tab.focused == p)
            &&& told.cwd == known->0.cwd && told.foreground_cwd == known->0.foreground_cwd
            &&& told.label == known->0.manual_label && told.title == known->0.title
            &&& told.agent == known->0.agent && told.display_agent == known->0.display_agent
            &&& told.agent_status == known->0.agent_status && told.custom_status
                == known->0.custom_status
            &&& told.state_labels == known->0.state_labels && told.agent_session
                == known->0.agent_session
            &&& told.revision == known->0.revision
        },
        pane_info_at(session, w, t, p) is None ==> forall|i: int|
            0 <= i < session.terminals.len() ==> (#[trigger] session.terminals[i]).id@
                != session.workspaces[w].tabs[t].panes[p].terminal_id@,
{
    terminals_are_found_by_identifier(
        session.terminals,
        session.workspaces[w].tabs[t].panes[p].terminal_id@,
    );
}

/// The directory that a new tab follows is that of the focused pane of the
/// workspace's active tab.
pub proof fn directories_follow_the_focused_pane(session: SessionView, w: int)
    ensures
        ({
            let workspace = session.workspaces[w];
            let tab = workspace.tabs[workspace.active_tab as int];
            let id = tab.panes[tab.focused as int].terminal_id@;
            match focused_cwd(session, w) {
                Some(cwd) => exists|i: int|
                    0 <= i < session.terminals.len() && (#[trigger] session.terminals[i]).id@ == id
                        && session.terminals[i].cwd == Some(cwd),
                None => forall|i: int|
                    0 <= i < session.terminals.len() && (#[trigger] session.terminals[i]).id@ == id
                        && (forall|j: int|
                        0 <= j < i ==> (#[trigger] session.terminals[j]).id@ != id)
                        ==> session.terminals[i].cwd is None,
            }
        }),
{
    let workspace = session.workspaces[w];
    let tab = workspace.tabs[workspace.active_tab as int];
    let id = tab.panes[tab.focused as int].terminal_id@;
    let mine = terminal_is(id);
    lemma_first_holds(session.terminals, mine);
    if let Some(k) = first_where(session.terminals, mine) {
        assert(mine(session.terminals[k]));
        assert forall|i: int|
            0 <= i < session.terminals.len() && (#[trigger] session.terminals[i]).id@ == id && (
            forall|j: int| 0 <= j < i ==> (#[trigger] session.terminals[j]).id@ != id) implies i
            == k by {
            assert(mine(session.terminals[i]));
        }
    } else {
        assert forall|i: int| 0 <= i < session.terminals.len() implies (
        #[trigger] session.terminals[i]).id@ != id by {
            assert(!mine(session.terminals[i]));
        }
    }
}

/// A workspace is told to have as many panes as its tabs have together, as far as that
/// can be counted: one more tab adds its panes.
pub proof fn panes_add_up(tabs: Seq<TabView>, tab: TabView)
    ensures
        panes_of_first(tabs, 0) == 0,
        panes_of_first(tabs, tabs.len()) + tab.panes.len() <= usize::MAX ==> panes_of_first(
            tabs.push(tab),
            tabs.len() + 1,
        ) == panes_of_first(tabs, tabs.len()) + tab.panes.len(),
        panes_of_first(tabs.push(tab), tabs.len() + 1) <= usize::MAX,
{
    lemma_first_tabs_alone(tabs, tabs.push(tab), tabs.len());
}

proof fn lemma_first_tabs_alone(a: Seq<TabView>, b: Seq<TabView>, n: nat)
    requires
        n <= a.len(),
        n <= b.len(),
        forall|i: int| 0 <= i < n ==> a[i] == b[i],
    ensures
        panes_of_first(a, n) == panes_of_first(b, n),
    decreases n,
{
    if n > 0 {
        lemma_first_tabs_alone(a, b, (n - 1) as nat);
    }
}

/// A rename gives the agent that the target leads to the trimmed name, or none where the
/// name is empty, unless another local agent has that name; then it is refused and
/// nothing changes.
#[verifier::spinoff_prover]
pub proof fn renames_give_the_trimmed_name(
    result: Result<AgentInfo, AgentRenameError>,
    before: SessionView,
    after: SessionView,
    target: String,
    name: Option<String>,
)
    requires
        renames(result, before, after, target, name),
    ensures
        result is Ok ==> {
            &&& target_lookup(before, target@) is Found
            &&& match name {
                Some(given) => if trimmed(given@).len() > 0 {
                    result->Ok_0.name is Some && result->Ok_0.name->0@ == trimmed(given@)
                } else {
                    result->Ok_0.name is None
                },
                None => result->Ok_0.name is None,
            }
            &&& after.dirty
            &&& after.workspaces == before.workspaces
        },
        result matches Err(AgentRenameError::DuplicateName { name: taken, candidates }) ==> {
            &&& after == before
            &&& name is Some && taken@ == trimmed(name->0@)
            &&& candidates@.len() > 0
            &&& forall|k: int|
                0 <= k < candidates@.len() ==> local_agents(before).contains(
                    #[trigger] candidates@[k],
                ) && candidates@[k].name is Some && candidates@[k].name->0@ == taken@
        },
        !(target_lookup(before, target@) is Found) ==> result is Err && after == before,
{
    if let TargetLookup::Found(w, t, p) = target_lookup(before, target@) {
        let id = terminal_id_at(before, w, t, p);
        if let Some(given) = name_given(name) {
            lemma_called(local_agents(before), given, id);
        }
        if result is Ok {
            let called = choose|called: Option<String>|
                text_of(called) == name_given(name) && after == marked(
                    #[trigger] with_agent_name(before, id, called),
                );
            let mine = terminal_is(id);
            lemma_first_holds(before.terminals, mine);
            let i = first_where(before.terminals, mine)->0;
            assert(mine(before.terminals[i]));
            assert forall|j: int| 0 <= j < i implies !mine(#[trigger] after.terminals[j]) by {
                assert(after.terminals[j] == before.terminals[j]);
            }
            assert(mine(after.terminals[i]));
            lemma_first_found(after.terminals, mine, i);
        }
    }
}

} // verus!
