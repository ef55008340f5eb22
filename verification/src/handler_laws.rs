//! What the handlers of the API do and answer, said of every answer that they may give.
use vstd::prelude::*;
use std::sync::Arc;
use crate::agent_api::{
    agent_read_finished, agent_sent, agent_start_finished, handle_agent_focus, handle_agent_get,
    handle_agent_list_local, handle_agent_read, handle_agent_send, handle_agent_start,
    AgentReadPlan, AgentStep,
};
use crate::agent_start::{AgentLaunch, AgentStartError};
use crate::local_agents::{agent_info_at, local_agents, target_lookup, TargetLookup};
use crate::local_api::{
    handle_tab_close, handle_tab_create, handle_tab_focus, handle_tab_get, handle_tab_launched,
    handle_tab_list, handle_tab_move, handle_tab_rename, handle_workspace_close,
    handle_workspace_create, handle_workspace_focus, handle_workspace_get,
    handle_workspace_launched, handle_workspace_list, handle_workspace_list_local,
    handle_workspace_move, handle_workspace_rename, HandlerStep, LaunchedTab, LaunchedWorkspace,
    LocalReply, SessionEvent, TabLaunch, WorkspaceLaunch,
};
use crate::remote_target::configured;
use crate::routed_plan::{routed_plan, Federation};
use crate::schema::{
    AgentInfo, AgentReadParams, AgentSendParams, AgentStartParams, AgentTarget, ErrorBody, Method,
    Reply, Request, ResponseResult, TabCloseParams, TabCreateParams, TabInfo, TabListParams,
    TabMoveParams, TabRenameParams, TabTarget, WorkspaceCreateParams, WorkspaceMoveParams,
    WorkspaceRenameParams, WorkspaceTarget,
};
use crate::session::{tab_place, workspace_place, Mode, Session, SessionView};
use crate::session_laws::{
    agents_land_where_they_are_asked_to, tabs_are_found_by_identifier, targets_lead_to_their_pane,
    workspaces_are_found_by_identifier,
};
use crate::target_laws::hosts_go_by_their_names;

verus! {

/// `reply` is a success under that request identifier.
pub open spec fn succeeds(reply: Reply, id: String) -> bool {
    reply is Success && reply->Success_id == id
}

/// `reply` is a refusal under that request identifier.
pub open spec fn fails(reply: Reply, id: String) -> bool {
    reply is Error && reply->Error_id == id
}

/// No tab of the session has the identifier.
pub open spec fn no_tab(session: SessionView, tab_id: Seq<char>) -> bool {
    forall|w: int, t: int|
        0 <= w < session.workspaces.len() && 0 <= t < session.workspaces[w].tabs.len() ==> (
        #[trigger] session.workspaces[w].tabs[t]).tab_id@ != tab_id
}

/// No workspace of the session has the identifier.
pub open spec fn no_workspace(session: SessionView, workspace_id: Seq<char>) -> bool {
    forall|w: int|
        0 <= w < session.workspaces.len() ==> (#[trigger] session.workspaces[w]).workspace_id@
            != workspace_id
}

/// The request is not for a remote host.
pub open spec fn stays_here(federation: Federation, id: String, method: Method) -> bool {
    routed_plan(federation@, Request { id, method }) is NotHandled
}

// Tabs -------------------------------------------------------------------

/// Asking for a tab tells that tab, and is refused only where there is none.
pub proof fn asked_tabs_are_told(
    session: &Session,
    id: &String,
    target: &TabTarget,
    reply: Reply,
)
    requires
        call_ensures(handle_tab_get, (session, id, target), reply),
    ensures
        succeeds(reply, *id) || fails(reply, *id),
        reply is Error <==> no_tab(session@, target.tab_id@),
        reply is Success ==> reply->Success_result is TabInfo
            && reply->Success_result->TabInfo_tab.tab_id@ == target.tab_id@,
{
    tabs_are_found_by_identifier(session@, target.tab_id@);
    if let Some((w, t)) = tab_place(session@, target.tab_id@) {
        assert(session@.workspaces[w].tabs[t].tab_id@ == target.tab_id@);
    }
}

/// Listing the tabs of a workspace tells its tabs and no others, in their order.
pub proof fn listed_tabs_are_the_workspaces(
    session: &Session,
    id: &String,
    params: &TabListParams,
    reply: Reply,
)
    requires
        params.workspace_id is Some,
        call_ensures(handle_tab_list, (session, id, params), reply),
    ensures
        reply is Error <==> no_workspace(session@, params.workspace_id->0@),
        reply is Success ==> reply->Success_result is TabList && exists|w: int|
            0 <= w < session@.workspaces.len() && (
            #[trigger] session@.workspaces[w]).workspace_id@ == params.workspace_id->0@
                && reply->Success_result->tabs@.len() == session@.workspaces[w].tabs.len()
                && forall|t: int|
                0 <= t < session@.workspaces[w].tabs.len() ==> (
                #[trigger] reply->Success_result->tabs@[t]).tab_id
                    == session@.workspaces[w].tabs[t].tab_id,
{
    workspaces_are_found_by_identifier(session@, params.workspace_id->0@);
    if let Some(w) = workspace_place(session@, params.workspace_id->0@) {
        assert(session@.workspaces[w].workspace_id@ == params.workspace_id->0@);
    }
}

/// Focusing a local tab shows it: its workspace is the shown one and it is the active
/// tab there. The answer tells that tab as the focused one.
pub proof fn focused_tabs_are_shown(
    session: &mut Session,
    federation: &Federation,
    id: &String,
    target: &TabTarget,
    step: HandlerStep,
)
    requires
        old(session)@.ok(),
        old(session)@.workspaces.len() <= usize::MAX,
        forall|w: int|
            0 <= w < old(session)@.workspaces.len() ==> (
            #[trigger] old(session)@.workspaces[w]).tabs.len() <= usize::MAX,
        stays_here(*federation, *id, Method::TabFocus(*target)),
        call_ensures(handle_tab_focus, (session, federation, id, target), step),
    ensures
        step is Answered,
        !step->Answered_0.save && step->Answered_0.event is None,
        no_tab(old(session)@, target.tab_id@) ==> fails(step->Answered_0.reply, *id)
            && final(session)@ == old(session)@,
        !no_tab(old(session)@, target.tab_id@) ==> succeeds(step->Answered_0.reply, *id) && {
            let told = step->Answered_0.reply->Success_result;
            let after = final(session)@;
            let workspace = after.workspaces[after.active->0 as int];
            &&& told is TabInfo && told->TabInfo_tab.tab_id@ == target.tab_id@
                && told->TabInfo_tab.focused
            &&& after.active is Some
            &&& workspace.tabs[workspace.active_tab as int].tab_id@ == target.tab_id@
        },
{
    tabs_are_found_by_identifier(old(session)@, target.tab_id@);
    if let Some((w, t)) = tab_place(old(session)@, target.tab_id@) {
        assert(old(session)@.workspaces[w].tabs[t].tab_id@ == target.tab_id@);
        assert(old(session)@.workspaces[w].tabs.len() <= usize::MAX);
    }
}

/// Renaming a local tab gives that tab the label, tells it with the label, tells
/// everybody, and has the session saved.
pub proof fn renamed_tabs_have_the_label(
    session: &mut Session,
    federation: &Federation,
    id: &String,
    params: &TabRenameParams,
    step: HandlerStep,
)
    requires
        old(session)@.ok(),
        stays_here(*federation, *id, Method::TabRename(*params)),
        call_ensures(handle_tab_rename, (session, federation, id, params), step),
    ensures
        step is Answered,
        no_tab(old(session)@, params.tab_id@) ==> fails(step->Answered_0.reply, *id)
            && final(session)@ == old(session)@ && !step->Answered_0.save,
        !no_tab(old(session)@, params.tab_id@) ==> succeeds(step->Answered_0.reply, *id) && {
            let told = step->Answered_0.reply->Success_result;
            &&& told is TabInfo && told->TabInfo_tab.tab_id@ == params.tab_id@
                && told->TabInfo_tab.label == params.label
            &&& step->Answered_0.save
            &&& step->Answered_0.event matches Some(
                SessionEvent::TabRenamed { tab_id, label, .. },
            ) && tab_id@ == params.tab_id@ && label == params.label
            &&& exists|w: int, t: int|
                0 <= w < final(session)@.workspaces.len() && 0 <= t
                    < final(session)@.workspaces[w].tabs.len() && (
                #[trigger] final(session)@.workspaces[w].tabs[t]).tab_id@ == params.tab_id@
                    && final(session)@.workspaces[w].tabs[t].label == params.label
        },
{
    tabs_are_found_by_identifier(old(session)@, params.tab_id@);
    if let Some((w, t)) = tab_place(old(session)@, params.tab_id@) {
        assert(old(session)@.workspaces[w].tabs[t].tab_id@ == params.tab_id@);
        assert(final(session)@.workspaces[w].tabs[t].tab_id@ == params.tab_id@);
    }
}

/// Closing a local tab takes one tab away, the one that was named, unless it is its
/// workspace's last; everybody is told, and the session is to be saved.
pub proof fn closed_tabs_are_the_named_ones(
    session: &mut Session,
    federation: &Federation,
    id: &String,
    target: &TabCloseParams,
    step: HandlerStep,
)
    requires
        old(session)@.ok(),
        stays_here(*federation, *id, Method::TabClose(*target)),
        call_ensures(handle_tab_close, (session, federation, id, target), step),
    ensures
        step is Answered,
        no_tab(old(session)@, target.tab_id@) ==> fails(step->Answered_0.reply, *id)
            && final(session)@ == old(session)@,
        fails(step->Answered_0.reply, *id) ==> final(session)@ == old(session)@
            && !step->Answered_0.save && step->Answered_0.event is None,
        succeeds(step->Answered_0.reply, *id) ==> step->Answered_0.save && (
        step->Answered_0.event matches Some(SessionEvent::TabClosed { tab_id, .. }) && tab_id@
            == target.tab_id@) && exists|w: int, t: int|
            0 <= w < old(session)@.workspaces.len() && 0 <= t
                < old(session)@.workspaces[w].tabs.len() && (
            #[trigger] old(session)@.workspaces[w].tabs[t]).tab_id@ == target.tab_id@
                && old(session)@.workspaces[w].tabs.len() > 1 && final(session)@.workspaces[w].tabs
                == old(session)@.workspaces[w].tabs.remove(t),
        succeeds(step->Answered_0.reply, *id) || fails(step->Answered_0.reply, *id),
{
    tabs_are_found_by_identifier(old(session)@, target.tab_id@);
    if let Some((w, t)) = tab_place(old(session)@, target.tab_id@) {
        assert(old(session)@.workspaces[w].tabs[t].tab_id@ == target.tab_id@);
    }
}

/// Moving a tab puts it in front of the tab that was at the index, or at the end; an
/// index past the end is refused. The session is to be saved exactly where the order
/// changed.
pub proof fn moved_tabs_stand_at_the_index(
    session: &mut Session,
    id: &String,
    params: &TabMoveParams,
    local: LocalReply,
)
    requires
        old(session)@.ok(),
        call_ensures(handle_tab_move, (session, id, params), local),
    ensures
        fails(local.reply, *id) ==> final(session)@ == old(session)@ && !local.save,
        succeeds(local.reply, *id) || fails(local.reply, *id),
        succeeds(local.reply, *id) ==> exists|w: int, t: int|
            0 <= w < old(session)@.workspaces.len() && 0 <= t
                < old(session)@.workspaces[w].tabs.len() && (
            #[trigger] old(session)@.workspaces[w].tabs[t]).tab_id@ == params.tab_id@ && ({
                let before = old(session)@.workspaces[w].tabs;
                let after = final(session)@.workspaces[w].tabs;
                let i = params.insert_index as int;
                &&& i <= before.len()
                &&& after.len() == before.len()
                &&& i > t ==> after[i - 1] == before[t]
                &&& i <= t ==> after[i] == before[t]
                &&& local.save == !(i == t || i == t + 1)
                &&& local.save == (local.event is Some)
            }),
{
    tabs_are_found_by_identifier(old(session)@, params.tab_id@);
    if let Some((w, t)) = tab_place(old(session)@, params.tab_id@) {
        assert(old(session)@.workspaces[w].tabs[t].tab_id@ == params.tab_id@);
    }
}

/// A new local tab is launched in the workspace that was named, or in the shown one,
/// with the label, focus and environment that were asked for.
pub proof fn new_tabs_are_launched_as_asked(
    session: &Session,
    federation: &Federation,
    id: &String,
    params: &TabCreateParams,
    env: Result<Arc<Vec<(String, String)>>, ErrorBody>,
    step: HandlerStep,
)
    requires
        session@.ok(),
        session@.workspaces.len() <= usize::MAX,
        stays_here(*federation, *id, Method::TabCreate(*params)),
        call_ensures(handle_tab_create, (session, federation, id, params, env), step),
    ensures
        !(step is Remote),
        step matches HandlerStep::LaunchTab(launch) ==> {
            &&& env == Ok::<Arc<Vec<(String, String)>>, ErrorBody>(launch.env)
            &&& launch.focus == params.focus && launch.label == params.label
            &&& launch.workspace < session@.workspaces.len()
            &&& launch.workspace_id == session@.workspaces[launch.workspace as int].workspace_id
            &&& params.workspace_id is Some ==> launch.workspace_id@ == params.workspace_id->0@
            &&& params.workspace_id is None ==> session@.active == Some(launch.workspace)
        },
        step matches HandlerStep::Answered(local) ==> fails(local.reply, *id) && !local.save,
        env is Ok && params.workspace_id is Some ==> (step is LaunchTab) == !no_workspace(
            session@,
            params.workspace_id->0@,
        ),
        env is Ok && params.workspace_id is None ==> (step is LaunchTab) == (
        session@.active is Some),
{
    if let Some(workspace_id) = params.workspace_id {
        workspaces_are_found_by_identifier(session@, workspace_id@);
        if let Some(w) = workspace_place(session@, workspace_id@) {
            assert(session@.workspaces[w].workspace_id@ == workspace_id@);
        }
    }
}

/// A tab that was launched is told with its pane, and everybody is told; where the
/// launch failed, or the workspace is gone, the client is told and nothing changes.
pub proof fn launched_tabs_are_told(
    session: &mut Session,
    id: &String,
    launch: TabLaunch,
    outcome: Result<LaunchedTab, String>,
    local: LocalReply,
)
    requires
        old(session)@.ok(),
        call_ensures(handle_tab_launched, (session, id, launch, outcome), local),
    ensures
        succeeds(local.reply, *id) <==> outcome is Ok && launch.workspace < old(
            session,
        )@.workspaces.len(),
        !succeeds(local.reply, *id) ==> fails(local.reply, *id) && final(session)@ == old(session)@
            && !local.save,
        succeeds(local.reply, *id) ==> local.save && local.reply->Success_result is TabCreated && {
            let w = launch.workspace as int;
            let made = outcome->Ok_0;
            &&& final(session)@.workspaces[w].tabs.last().tab_id == made.tab_id
            &&& final(session)@.workspaces[w].tabs.len() == old(session)@.workspaces[w].tabs.len()
                + 1
            &&& local.reply->Success_result->TabCreated_tab.tab_id == made.tab_id
            &&& local.reply->Success_result->TabCreated_root_pane.pane_id == made.pane_id
            &&& launch.label is Some ==> local.reply->Success_result->TabCreated_tab.label
                == launch.label->0
        },
{
}

// Workspaces -------------------------------------------------------------

/// Asking for a workspace tells that workspace, and is refused only where there is none.
/// Listing them tells them all, in their order.
pub proof fn asked_workspaces_are_told(
    session: &Session,
    id: &String,
    target: &WorkspaceTarget,
    reply: Reply,
    listing: Reply,
    local: Reply,
)
    requires
        session@.ok(),
        call_ensures(handle_workspace_get, (session, id, target), reply),
        call_ensures(handle_workspace_list, (session, id), listing),
        call_ensures(handle_workspace_list_local, (session, id), local),
    ensures
        reply is Error <==> no_workspace(session@, target.workspace_id@),
        reply is Success ==> reply->Success_result is WorkspaceInfo
            && reply->Success_result->WorkspaceInfo_workspace.workspace_id@
            == target.workspace_id@,
        succeeds(listing, *id) && listing->Success_result is WorkspaceList,
        succeeds(local, *id) && local->Success_result is WorkspaceList,
        listing->Success_result->workspaces@.len() == session@.workspaces.len(),
        local->Success_result->workspaces@ == listing->Success_result->workspaces@,
        forall|w: int|
            0 <= w < session@.workspaces.len() ==> (
            #[trigger] listing->Success_result->workspaces@[w]).workspace_id
                == session@.workspaces[w].workspace_id,
{
    workspaces_are_found_by_identifier(session@, target.workspace_id@);
    if let Some(w) = workspace_place(session@, target.workspace_id@) {
        assert(session@.workspaces[w].workspace_id@ == target.workspace_id@);
    }
}

/// Focusing a workspace shows it and tells it as the focused one; nothing is saved.
pub proof fn focused_workspaces_are_shown(
    session: &mut Session,
    id: &String,
    target: &WorkspaceTarget,
    local: LocalReply,
)
    requires
        old(session)@.ok(),
        old(session)@.workspaces.len() <= usize::MAX,
        call_ensures(handle_workspace_focus, (session, id, target), local),
    ensures
        !local.save && local.event is None,
        no_workspace(old(session)@, target.workspace_id@) ==> fails(local.reply, *id)
            && final(session)@ == old(session)@,
        !no_workspace(old(session)@, target.workspace_id@) ==> succeeds(local.reply, *id) && {
            let told = local.reply->Success_result;
            &&& told is WorkspaceInfo && told->WorkspaceInfo_workspace.workspace_id@
                == target.workspace_id@ && told->WorkspaceInfo_workspace.focused
            &&& final(session)@.active is Some
            &&& final(session)@.workspaces[final(session)@.active->0 as int].workspace_id@
                == target.workspace_id@
            &&& final(session)@.workspaces == old(session)@.workspaces
        },
{
    workspaces_are_found_by_identifier(old(session)@, target.workspace_id@);
    if let Some(w) = workspace_place(old(session)@, target.workspace_id@) {
        assert(old(session)@.workspaces[w].workspace_id@ == target.workspace_id@);
    }
}

/// Renaming a local workspace gives that workspace the label, tells it with the label,
/// tells everybody, and has the session saved.
pub proof fn renamed_workspaces_have_the_label(
    session: &mut Session,
    federation: &Federation,
    id: &String,
    params: &WorkspaceRenameParams,
    step: HandlerStep,
)
    requires
        old(session)@.ok(),
        stays_here(*federation, *id, Method::WorkspaceRename(*params)),
        call_ensures(handle_workspace_rename, (session, federation, id, params), step),
    ensures
        step is Answered,
        no_workspace(old(session)@, params.workspace_id@) ==> fails(step->Answered_0.reply, *id)
            && final(session)@ == old(session)@ && !step->Answered_0.save,
        !no_workspace(old(session)@, params.workspace_id@) ==> succeeds(
            step->Answered_0.reply,
            *id,
        ) && {
            let told = step->Answered_0.reply->Success_result;
            &&& told is WorkspaceInfo && told->WorkspaceInfo_workspace.workspace_id@
                == params.workspace_id@ && told->WorkspaceInfo_workspace.label == params.label
            &&& step->Answered_0.save
            &&& step->Answered_0.event matches Some(
                SessionEvent::WorkspaceRenamed { workspace_id, label },
            ) && workspace_id@ == params.workspace_id@ && label == params.label
        },
{
    workspaces_are_found_by_identifier(old(session)@, params.workspace_id@);
    if let Some(w) = workspace_place(old(session)@, params.workspace_id@) {
        assert(old(session)@.workspaces[w].workspace_id@ == params.workspace_id@);
    }
}

/// Moving a workspace puts it in front of the workspace that was at the index, or at the
/// end; an index past the end is refused. The session is to be saved exactly where the
/// order changed.
pub proof fn moved_workspaces_stand_at_the_index(
    session: &mut Session,
    id: &String,
    params: &WorkspaceMoveParams,
    local: LocalReply,
)
    requires
        old(session)@.ok(),
        call_ensures(handle_workspace_move, (session, id, params), local),
    ensures
        succeeds(local.reply, *id) || fails(local.reply, *id),
        fails(local.reply, *id) ==> final(session)@ == old(session)@ && !local.save,
        succeeds(local.reply, *id) <==> !no_workspace(old(session)@, params.workspace_id@)
            && params.insert_index <= old(session)@.workspaces.len(),
        succeeds(local.reply, *id) ==> exists|w: int|
            0 <= w < old(session)@.workspaces.len() && (
            #[trigger] old(session)@.workspaces[w]).workspace_id@ == params.workspace_id@ && ({
                let before = old(session)@.workspaces;
                let after = final(session)@.workspaces;
                let i = params.insert_index as int;
                &&& after.len() == before.len()
                &&& i > w ==> after[i - 1] == before[w]
                &&& i <= w ==> after[i] == before[w]
                &&& local.save == !(i == w || i == w + 1)
                &&& local.save == (local.event is Some)
            }),
{
    workspaces_are_found_by_identifier(old(session)@, params.workspace_id@);
    if let Some(w) = workspace_place(old(session)@, params.workspace_id@) {
        assert(old(session)@.workspaces[w].workspace_id@ == params.workspace_id@);
    }
}

/// Closing a workspace takes away the one that was named; everybody is told which it
/// was, and the session is to be saved.
pub proof fn closed_workspaces_are_the_named_ones(
    session: &mut Session,
    id: &String,
    target: &WorkspaceTarget,
    local: LocalReply,
)
    requires
        old(session)@.ok(),
        call_ensures(handle_workspace_close, (session, id, target), local),
    ensures
        no_workspace(old(session)@, target.workspace_id@) ==> fails(local.reply, *id)
            && final(session)@ == old(session)@ && !local.save,
        !no_workspace(old(session)@, target.workspace_id@) ==> succeeds(local.reply, *id)
            && local.save && (local.event matches Some(
            SessionEvent::WorkspaceClosed { workspace_id, workspace },
        ) && workspace_id@ == target.workspace_id@ && workspace is Some
            && workspace->0.workspace_id@ == target.workspace_id@) && exists|w: int|
            0 <= w < old(session)@.workspaces.len() && (
            #[trigger] old(session)@.workspaces[w]).workspace_id@ == target.workspace_id@
                && final(session)@.workspaces == old(session)@.workspaces.remove(w),
{
    workspaces_are_found_by_identifier(old(session)@, target.workspace_id@);
    if let Some(w) = workspace_place(old(session)@, target.workspace_id@) {
        assert(old(session)@.workspaces[w].workspace_id@ == target.workspace_id@);
    }
}

/// A new workspace is launched with the label, focus and environment that were asked for,
/// wherever there is an environment to launch it with.
pub proof fn new_workspaces_are_launched_as_asked(
    session: &Session,
    id: &String,
    params: &WorkspaceCreateParams,
    env: Result<Arc<Vec<(String, String)>>, ErrorBody>,
    step: HandlerStep,
)
    requires
        session@.ok(),
        call_ensures(handle_workspace_create, (session, id, params, env), step),
    ensures
        (step is LaunchWorkspace) == (env is Ok),
        step matches HandlerStep::LaunchWorkspace(launch) ==> launch.focus == params.focus
            && launch.label == params.label && env == Ok::<
            Arc<Vec<(String, String)>>,
            ErrorBody,
        >(launch.env),
        step matches HandlerStep::Answered(local) ==> fails(local.reply, *id),
{
}

/// A workspace that was launched stands last, is told with its tab and its pane, and has
/// the session saved. A launch that failed is told in its own words and changes nothing.
pub proof fn launched_workspaces_are_told(
    session: &mut Session,
    id: &String,
    launch: WorkspaceLaunch,
    outcome: Result<LaunchedWorkspace, String>,
    local: LocalReply,
)
    requires
        old(session)@.ok(),
        call_ensures(handle_workspace_launched, (session, id, launch, outcome), local),
    ensures
        succeeds(local.reply, *id) <==> outcome is Ok,
        outcome is Err ==> fails(local.reply, *id) && final(session)@ == old(session)@
            && !local.save && local.reply->Error_error.message@ == outcome->Err_0@,
        outcome is Ok ==> local.save && local.reply->Success_result is WorkspaceCreated && {
            let made = outcome->Ok_0;
            let told = local.reply->Success_result;
            &&& final(session)@.workspaces.len() == old(session)@.workspaces.len() + 1
            &&& final(session)@.workspaces.last().workspace_id == made.workspace_id
            &&& told->WorkspaceCreated_workspace.workspace_id == made.workspace_id
            &&& told->WorkspaceCreated_tab.tab_id == made.tab.tab_id
            &&& told->WorkspaceCreated_root_pane.pane_id == made.tab.pane_id
            &&& launch.label is Some ==> told->WorkspaceCreated_workspace.label == launch.label->0
            &&& local.event is Some
        },
{
}

// Agents -----------------------------------------------------------------

/// Text that is sent to a local agent goes to the terminal that its target leads to, as
/// it is; where the target leads nowhere the client is refused.
#[verifier::spinoff_prover]
pub proof fn sent_text_reaches_the_target(
    session: &Session,
    federation: &Federation,
    id: &String,
    params: &AgentSendParams,
    step: AgentStep,
)
    requires
        federation@.hosts.len() == 0,
        call_ensures(handle_agent_send, (session, federation, id, params), step),
    ensures
        match target_lookup(session@, params.target@) {
            TargetLookup::Found(w, t, p) => step is Send && step->Send_0.text == params.text
                && step->Send_0.terminal_id == session@.workspaces[w].tabs[t].panes[p].terminal_id,
            _ => step is Answered && fails(step->Answered_0, *id),
        },
{
}

/// A local agent is read from the terminal that its target leads to, in the way that was
/// asked for, and no more lines than may be read; and what was read is told with the
/// agent's own place.
#[verifier::spinoff_prover]
pub proof fn reads_are_of_the_target(
    session: &Session,
    federation: &Federation,
    id: &String,
    params: &AgentReadParams,
    step: AgentStep,
)
    requires
        federation@.hosts.len() == 0,
        call_ensures(handle_agent_read, (session, federation, id, params), step),
    ensures
        match target_lookup(session@, params.target@) {
            TargetLookup::Found(w, t, p) => step is Read && {
                let plan = step->Read_0;
                let workspace = session@.workspaces[w];
                &&& plan.terminal_id == workspace.tabs[t].panes[p].terminal_id
                &&& plan.pane_id == workspace.tabs[t].panes[p].pane_id
                &&& plan.tab_id == workspace.tabs[t].tab_id
                &&& plan.workspace_id == workspace.workspace_id
                &&& plan.source == params.source && plan.format == params.format
                &&& params.lines is Some ==> plan.lines <= params.lines->0
                &&& plan.lines <= crate::agent_api::MAX_READ_LINES
                &&& params.lines is Some && params.lines->0 <= crate::agent_api::MAX_READ_LINES
                    ==> plan.lines == params.lines->0
                &&& params.lines is None ==> plan.lines == crate::agent_api::DEFAULT_READ_LINES
            },
            _ => step is Answered && fails(step->Answered_0, *id),
        },
{
}

/// What was read of an agent is told as it was read, and a read that brought nothing is
/// refused; text that was sent is acknowledged exactly where it arrived; a started
/// agent is told with its command, and a start that failed is refused.
pub proof fn agent_requests_are_answered(
    id: &String,
    target: &str,
    plan: AgentReadPlan,
    text: Option<String>,
    read: Reply,
    outcome: Option<Result<(), String>>,
    sent: Reply,
    started: Result<(AgentInfo, Arc<Vec<String>>), AgentStartError>,
    told: Reply,
)
    requires
        call_ensures(agent_read_finished, (id, target, plan, text), read),
        call_ensures(agent_sent, (id, target, outcome), sent),
        call_ensures(agent_start_finished, (id, started), told),
    ensures
        (read is Success) == (text is Some),
        read is Success ==> succeeds(read, *id) && read->Success_result is PaneRead
            && read->Success_result->read.text == text->0 && read->Success_result->read.pane_id
            == plan.pane_id && read->Success_result->read.tab_id == plan.tab_id
            && read->Success_result->read.workspace_id == plan.workspace_id,
        !(read is Success) ==> fails(read, *id),
        (sent is Success) == (outcome is Some && outcome->0 is Ok),
        sent is Success ==> succeeds(sent, *id),
        !(sent is Success) ==> fails(sent, *id),
        (told is Success) == (started is Ok),
        told is Success ==> succeeds(told, *id) && told->Success_result is AgentStarted
            && told->Success_result->AgentStarted_agent == (started->Ok_0).0
            && told->Success_result->argv == (started->Ok_0).1,
        !(told is Success) ==> fails(told, *id),
{
}

/// A start that names a host goes to the configured host of that name, as it was asked
/// for; one that names an unknown host is refused. A start without a host is launched
/// where it lands, or refused.
#[verifier::spinoff_prover]
pub proof fn starts_go_where_they_are_asked_to(
    session: &Session,
    federation: &Federation,
    id: &String,
    params: &AgentStartParams,
    step: AgentStep,
)
    requires
        session@.ok(),
        call_ensures(handle_agent_start, (session, federation, id, params), step),
    ensures
        params.host is Some ==> {
            &&& (step is Remote) == (configured(federation@.hosts, params.host->0@) is Some)
            &&& step is Remote ==> {
                let planned = *step->Remote_0;
                &&& planned.host.name@ == params.host->0@
                &&& planned.request.id == *id
                &&& planned.rewrite is AgentStart
                &&& planned.request.method is AgentStart
                &&& planned.request.method->AgentStart_0.host is None
                &&& planned.request.method->AgentStart_0.name == params.name
                &&& planned.request.method->AgentStart_0.argv == params.argv
                &&& planned.request.method->AgentStart_0.workspace_id == params.workspace_id
                &&& planned.request.method->AgentStart_0.tab_id == params.tab_id
            }
            &&& !(step is Remote) ==> step is Answered && fails(step->Answered_0, *id)
        },
        params.host is None ==> step is Launch || step is Answered && fails(step->Answered_0, *id),
        params.host is None && step is Launch ==> match step->Launch_0 {
            AgentLaunch::Workspace(command) => command.argv == params.argv && command.focus
                == params.focus,
            AgentLaunch::Split { target, command, .. } => command.argv == params.argv
                && command.focus == params.focus && (params.workspace_id is Some
                && session@.workspaces.len() <= usize::MAX
                ==> session@.workspaces[target.place.workspace as int].workspace_id@
                == params.workspace_id->0@),
        },
{
    if let Some(alias) = params.host {
        hosts_go_by_their_names(federation@.hosts, alias@);
    } else if !params.new_workspace {
        agents_land_where_they_are_asked_to(session@, *params);
    }
}

/// Focusing a local agent shows its pane, where the target leads to one, and the keys go
/// to it from then on.
#[verifier::spinoff_prover]
pub proof fn focused_agents_are_shown(
    session: &mut Session,
    federation: &Federation,
    id: &String,
    target: &AgentTarget,
    step: AgentStep,
)
    requires
        old(session)@.ok(),
        federation@.hosts.len() == 0,
        old(session)@.workspaces.len() <= usize::MAX,
        call_ensures(handle_agent_focus, (session, federation, id, target), step),
    ensures
        step is Answered,
        match target_lookup(old(session)@, target.target@) {
            TargetLookup::Found(w, t, p) => final(session)@.active is Some
                && final(session)@.active->0 == w && final(session)@.mode == Mode::Terminal,
            _ => fails(step->Answered_0, *id) && final(session)@ == old(session)@,
        },
{
    targets_lead_to_their_pane(old(session)@, target.target@);
}

/// Listing the local agents tells exactly the local agents; asking for one, without
/// hosts, tells the agent that its target leads to.
#[verifier::spinoff_prover]
pub proof fn asked_agents_are_told(
    session: &Session,
    federation: &Federation,
    id: &String,
    target: &AgentTarget,
    listing: Reply,
    reply: Reply,
)
    requires
        federation@.hosts.len() == 0,
        call_ensures(handle_agent_list_local, (session, id), listing),
        call_ensures(handle_agent_get, (session, federation, id, target), reply),
    ensures
        succeeds(listing, *id) && listing->Success_result is AgentList
            && listing->Success_result->agents@ == local_agents(session@),
        match target_lookup(session@, target.target@) {
            TargetLookup::Found(w, t, p) => match agent_info_at(session@, w, t, p) {
                Some(agent) => succeeds(reply, *id) && reply->Success_result == (
                ResponseResult::AgentInfo { agent }),
                None => fails(reply, *id),
            },
            _ => fails(reply, *id),
        },
{
}

} // verus!
