//! How the API answers requests about agents, local ones and those on remote hosts.
use vstd::prelude::*;
use std::sync::Arc;
use crate::agent_plan::{
    agent_route, agent_target_plan, plan_agent_api_target, start_on_host,
    remote_agent_start_request, AgentPlanView, DeferredRemoteAgentPlan,
    RemoteAgentDispatchDescriptor, RemoteAgentResponseRewrite,
};
use crate::agent_start::{
    agent_start_error_body, is_start_plan, placement, start_error, start_refusal, AgentLaunch,
    AgentStartError,
};
use crate::local_agents::{
    agent_ambiguous, agent_info_at, agent_missing, agent_rename_error_body,
    agent_target_error_body, host_qualified_remote_agent_info, is_agent_listing,
    is_host_qualified, local_agents, rename_error, renames, target_error, target_lookup, after_focus,
    AgentRenameError, TargetLookup, TerminalTargetError,
};
use crate::remote_helpers::{remote_route_plan_error_body, route_error};
use crate::remote_source::{all_entries, RemoteSources};
use crate::remote_target::{
    agent_lookup, configured, resolve_remote_agent_target, AgentLookup, PlannedTargetRoute,
    PlannedView, RemoteHostConfig, RemoteRoutePlanError, SelectorView,
};
use crate::resolve_errors::{agent_lookup_error, remote_agent_resolve_error_body};
use crate::routed_plan::{Federation, FederationView};
use crate::schema::{
    encode_error, AgentInfo, AgentReadParams, AgentRenameParams, AgentSendParams,
    AgentStartParams, AgentTarget, ErrorText, Method, PaneReadResult, ReadFormat, ReadSource,
    Reply, Request, ResponseResult,
};
use crate::session::{Session, SessionView};
use crate::text::concat3;

verus! {

/// What follows a request about an agent.
#[derive(Debug, PartialEq, Eq)]
pub enum AgentStep {
    Answered(Reply),
    /// To be sent to a remote host.
    Remote(Box<RemoteAgentDispatchDescriptor>),
    Launch(AgentLaunch),
    Read(AgentReadPlan),
    Send(AgentSendPlan),
}

/// A read of a local terminal.
#[derive(Debug, PartialEq, Eq)]
pub struct AgentReadPlan {
    pub terminal_id: String,
    pub pane_id: String,
    pub workspace_id: String,
    pub tab_id: String,
    pub source: ReadSource,
    pub format: ReadFormat,
    pub lines: u32,
}

/// Text for a local terminal.
#[derive(Debug, PartialEq, Eq)]
pub struct AgentSendPlan {
    pub terminal_id: String,
    pub text: String,
}

/// How many lines a read takes where it does not say.
pub const DEFAULT_READ_LINES: u32 = 80;

/// How many lines a read takes at most.
pub const MAX_READ_LINES: u32 = 1000;

// What replies say -------------------------------------------------------

/// The reply tells of the agent that a local target leads to.
pub open spec fn tells_local_agent(
    reply: Reply,
    id: String,
    target: Seq<char>,
    lookup: TargetLookup,
    session: SessionView,
) -> bool {
    match lookup {
        TargetLookup::Found(w, t, p) => match agent_info_at(session, w, t, p) {
            Some(agent) => reply.is_success(id, ResponseResult::AgentInfo { agent }),
            None => reply.is_error(id, agent_missing(target)),
        },
        TargetLookup::Missing => reply.is_error(id, agent_missing(target)),
        TargetLookup::Many(candidates) => reply.is_error(id, agent_ambiguous(target, candidates)),
    }
}

/// The reply tells of a cached agent.
pub open spec fn tells_cached_agent(
    reply: Reply,
    id: String,
    selector: SelectorView,
    lookup: AgentLookup,
) -> bool {
    match lookup {
        AgentLookup::One(entry) => reply matches Reply::Success {
            id: reply_id,
            result: ResponseResult::AgentInfo { agent },
        } && reply_id == id && is_host_qualified(agent, entry),
        other => reply.is_error(id, agent_lookup_error(other, selector)),
    }
}

/// A dispatch over a connection of its own.
pub open spec fn one_shot(descriptor: RemoteAgentDispatchDescriptor) -> RemoteAgentDispatchDescriptor {
    RemoteAgentDispatchDescriptor { bridge_state: None, ..descriptor }
}

/// The request was not for a local agent: it is refused, or it goes to its host.
pub open spec fn agent_goes_remote(step: AgentStep, id: String, plan: AgentPlanView) -> bool {
    match plan {
        AgentPlanView::NotHandled => false,
        AgentPlanView::Refused(error) => step matches AgentStep::Answered(reply)
            && reply.is_error(id, error),
        AgentPlanView::Deferred(descriptor) => step matches AgentStep::Remote(planned) && *planned
            == one_shot(descriptor),
    }
}

/// Sends a request to the host of its agent, where that is a remote one.
fn routed_agent(federation: &Federation, request: &Request, target: &String) -> (step: Option<
    AgentStep,
>)
    ensures
        ({
            let plan = agent_target_plan(federation@, *request, target@, false);
            match step {
                Some(step) => agent_goes_remote(step, request.id, plan),
                None => plan is NotHandled,
            }
        }),
{
    match federation.plan_remote_agent_method(request, target, false) {
        DeferredRemoteAgentPlan::NotHandled => None,
        DeferredRemoteAgentPlan::Immediate(reply) => Some(AgentStep::Answered(reply)),
        DeferredRemoteAgentPlan::Deferred(descriptor) => {
            let descriptor = *descriptor;
            Some(
                AgentStep::Remote(
                    Box::new(
                        RemoteAgentDispatchDescriptor {
                            host: descriptor.host,
                            request: descriptor.request,
                            rewrite: descriptor.rewrite,
                            bridge_state: None,
                        },
                    ),
                ),
            )
        },
    }
}

fn agent_reply(id: &String, result: Result<AgentInfo, TerminalTargetError>) -> (reply: Reply)
    ensures
        match result {
            Ok(agent) => reply.is_success(*id, ResponseResult::AgentInfo { agent }),
            Err(err) => reply.is_error(*id, target_error(err)),
        },
{
    match result {
        Ok(agent) => Reply::Success { id: id.clone(), result: ResponseResult::AgentInfo { agent } },
        Err(err) => Reply::Error { id: id.clone(), error: agent_target_error_body(err) },
    }
}

/// Refuses a target that has no running terminal.
pub fn agent_not_found(id: &String, target: &str) -> (reply: Reply)
    ensures
        reply.is_error(*id, agent_missing(target@)),
{
    encode_error(
        id.clone(),
        "agent_not_found",
        concat3("agent target ", target, " not found"),
    )
}

// Handlers ---------------------------------------------------------------

/// Lists the local agents, then the cached ones of remote hosts.
pub fn handle_agent_list(session: &Session, sources: &RemoteSources, id: &String) -> (reply: Reply)
    ensures
        reply matches Reply::Success {
            id: reply_id,
            result: ResponseResult::AgentList { agents },
        } && reply_id == *id && is_agent_listing(
            agents@,
            local_agents(session@),
            all_entries(sources@),
        ),
{
    Reply::Success {
        id: id.clone(),
        result: ResponseResult::AgentList { agents: session.collect_agent_infos(sources) },
    }
}

/// Lists the local agents only.
pub fn handle_agent_list_local(session: &Session, id: &String) -> (reply: Reply)
    ensures
        reply matches Reply::Success {
            id: reply_id,
            result: ResponseResult::AgentList { agents },
        } && reply_id == *id && agents@ == local_agents(session@),
{
    Reply::Success {
        id: id.clone(),
        result: ResponseResult::AgentList { agents: session.collect_local_agent_infos() },
    }
}

/// Tells of one agent: a local one, or a cached one of a remote host.
pub fn handle_agent_get(
    session: &Session,
    federation: &Federation,
    id: &String,
    target: &AgentTarget,
) -> (reply: Reply)
    ensures
        match agent_route(federation@.hosts, target.target@) {
            PlannedView::Local => tells_local_agent(
                reply,
                *id,
                target.target@,
                target_lookup(session@, target.target@),
                session@,
            ),
            PlannedView::Remote { host, target: selector } => tells_cached_agent(
                reply,
                *id,
                selector,
                agent_lookup(federation@.sources, host, selector),
            ),
            other => reply.is_error(*id, route_error(other)),
        },
{
    match plan_agent_api_target(&federation.remote_hosts, &target.target) {
        Ok(PlannedTargetRoute::Local { .. }) => agent_reply(
            id,
            session.agent_info_for_target(&target.target),
        ),
        Ok(PlannedTargetRoute::Remote { host, target: selector }) => {
            match resolve_remote_agent_target(&federation.remote_sources, &host, &selector) {
                Ok(resolved) => Reply::Success {
                    id: id.clone(),
                    result: ResponseResult::AgentInfo {
                        agent: host_qualified_remote_agent_info(resolved.entry),
                    },
                },
                Err(err) => Reply::Error {
                    id: id.clone(),
                    error: remote_agent_resolve_error_body(err),
                },
            }
        },
        Err(err) => Reply::Error { id: id.clone(), error: remote_route_plan_error_body(err) },
    }
}

/// Shows an agent and gives it the focus.
pub fn handle_agent_focus(
    session: &mut Session,
    federation: &Federation,
    id: &String,
    target: &AgentTarget,
) -> (step: AgentStep)
    requires
        old(session)@.ok(),
    ensures
        final(session)@.ok(),
        ({
            let plan = agent_target_plan(
                federation@,
                Request { id: *id, method: Method::AgentFocus(*target) },
                target.target@,
                false,
            );
            let lookup = target_lookup(old(session)@, target.target@);
            if plan is NotHandled {
                &&& final(session)@ == after_focus(old(session)@, lookup)
                &&& step matches AgentStep::Answered(reply) && tells_local_agent(
                    reply,
                    *id,
                    target.target@,
                    lookup,
                    final(session)@,
                )
            } else {
                final(session)@ == old(session)@ && agent_goes_remote(step, *id, plan)
            }
        }),
{
    let request = Request { id: id.clone(), method: Method::AgentFocus(target.clone()) };
    if let Some(step) = routed_agent(federation, &request, &target.target) {
        return step;
    }
    let result = session.focus_agent_target(&target.target);
    AgentStep::Answered(agent_reply(id, result))
}

/// Renames a local agent.
pub fn handle_agent_rename(session: &mut Session, id: &String, params: &AgentRenameParams) -> (reply:
    Reply)
    requires
        old(session)@.ok(),
    ensures
        final(session)@.ok(),
        exists|result: Result<AgentInfo, AgentRenameError>|
            #[trigger] renames(
                result,
                old(session)@,
                final(session)@,
                params.target,
                params.name,
            ) && match result {
                Ok(agent) => reply.is_success(*id, ResponseResult::AgentInfo { agent }),
                Err(err) => reply.is_error(*id, rename_error(err)),
            },
{
    let result = session.rename_agent_target(&params.target, &params.name);
    assert(renames(result, old(session)@, session@, params.target, params.name));
    match result {
        Ok(agent) => Reply::Success { id: id.clone(), result: ResponseResult::AgentInfo { agent } },
        Err(err) => Reply::Error { id: id.clone(), error: agent_rename_error_body(err) },
    }
}

/// A start on the host that it names.
pub open spec fn remote_start(hosts: Seq<RemoteHostConfig>, request: Request, alias: Seq<char>) -> AgentPlanView {
    match configured(hosts, alias) {
        None => AgentPlanView::Refused(route_error(PlannedView::UnknownHost(alias))),
        Some(host) => AgentPlanView::Deferred(
            RemoteAgentDispatchDescriptor {
                host,
                request: Request {
                    id: request.id,
                    method: Method::AgentStart(start_on_host(request.method->AgentStart_0)),
                },
                rewrite: RemoteAgentResponseRewrite::AgentStart,
                bridge_state: None,
            },
        ),
    }
}

/// `step` starts a local agent, or says why it cannot.
pub open spec fn starts_locally(
    step: AgentStep,
    id: String,
    session: SessionView,
    params: AgentStartParams,
) -> bool {
    match start_refusal(session, params) {
        Some(error) => step matches AgentStep::Answered(reply) && reply.is_error(
            id,
            start_error(error),
        ),
        None => match placement(session, params) {
            Err(error) => step matches AgentStep::Answered(reply) && reply.is_error(
                id,
                start_error(error),
            ),
            Ok(_) => step matches AgentStep::Launch(launch) && is_start_plan(
                Ok(launch),
                session,
                params,
            ),
        },
    }
}

/// Starts an agent on the host that the request names, or plans its start here.
pub fn handle_agent_start(
    session: &Session,
    federation: &Federation,
    id: &String,
    params: &AgentStartParams,
) -> (step: AgentStep)
    requires
        session@.ok(),
    ensures
        match params.host {
            Some(alias) => agent_goes_remote(
                step,
                *id,
                remote_start(
                    federation@.hosts,
                    Request { id: *id, method: Method::AgentStart(*params) },
                    alias@,
                ),
            ),
            None => starts_locally(step, *id, session@, *params),
        },
{
    if let Some(alias) = &params.host {
        return match federation.remote_hosts.get(alias.as_str()) {
            None => {
                let unknown = RemoteRoutePlanError::UnknownHost(alias.clone());
                AgentStep::Answered(
                    Reply::Error { id: id.clone(), error: remote_route_plan_error_body(unknown) },
                )
            },
            Some(host) => AgentStep::Remote(
                Box::new(
                    RemoteAgentDispatchDescriptor {
                        host: host.clone(),
                        request: remote_agent_start_request(id.clone(), params.clone()),
                        rewrite: RemoteAgentResponseRewrite::AgentStart,
                        bridge_state: None,
                    },
                ),
            ),
        };
    }
    match session.plan_agent_start(params) {
        Ok(launch) => AgentStep::Launch(launch),
        Err(err) => AgentStep::Answered(
            Reply::Error { id: id.clone(), error: agent_start_error_body(err) },
        ),
    }
}

/// Answers a start once it came to something.
pub fn agent_start_finished(
    id: &String,
    result: Result<(AgentInfo, Arc<Vec<String>>), AgentStartError>,
) -> (reply: Reply)
    ensures
        match result {
            Ok((agent, argv)) => reply.is_success(
                *id,
                ResponseResult::AgentStarted { agent, argv },
            ),
            Err(err) => reply.is_error(*id, start_error(err@)),
        },
{
    match result {
        Ok((agent, argv)) => Reply::Success {
            id: id.clone(),
            result: ResponseResult::AgentStarted { agent, argv },
        },
        Err(err) => Reply::Error { id: id.clone(), error: agent_start_error_body(err) },
    }
}

/// How many lines a read takes.
pub open spec fn read_lines(lines: Option<u32>) -> u32 {
    match lines {
        None => DEFAULT_READ_LINES,
        Some(lines) => if lines > MAX_READ_LINES {
            MAX_READ_LINES
        } else {
            lines
        },
    }
}

/// The refusal of a target that leads to no single terminal.
pub open spec fn lookup_refusal(target: Seq<char>, lookup: TargetLookup) -> ErrorText {
    match lookup {
        TargetLookup::Many(candidates) => agent_ambiguous(target, candidates),
        _ => agent_missing(target),
    }
}

/// The read of the terminal at a place.
pub open spec fn read_plan(
    session: SessionView,
    params: AgentReadParams,
    w: int,
    t: int,
    p: int,
) -> AgentReadPlan {
    let workspace = session.workspaces[w];
    let pane = workspace.tabs[t].panes[p];
    AgentReadPlan {
        terminal_id: pane.terminal_id,
        pane_id: pane.pane_id,
        workspace_id: workspace.workspace_id,
        tab_id: workspace.tabs[t].tab_id,
        source: params.source,
        format: params.format,
        lines: read_lines(params.lines),
    }
}

/// Plans a read of an agent's terminal.
pub fn handle_agent_read(
    session: &Session,
    federation: &Federation,
    id: &String,
    params: &AgentReadParams,
) -> (step: AgentStep)
    ensures
        ({
            let plan = agent_target_plan(
                federation@,
                Request { id: *id, method: Method::AgentRead(*params) },
                params.target@,
                false,
            );
            if plan is NotHandled {
                match target_lookup(session@, params.target@) {
                    TargetLookup::Found(w, t, p) => step == AgentStep::Read(
                        read_plan(session@, *params, w, t, p),
                    ),
                    lookup => step matches AgentStep::Answered(reply) && reply.is_error(
                        *id,
                        lookup_refusal(params.target@, lookup),
                    ),
                }
            } else {
                agent_goes_remote(step, *id, plan)
            }
        }),
{
    let request = Request { id: id.clone(), method: Method::AgentRead(params.clone()) };
    if let Some(step) = routed_agent(federation, &request, &params.target) {
        return step;
    }
    let place = match session.resolve_terminal_target(&params.target) {
        Ok(place) => place,
        Err(err) => {
            return AgentStep::Answered(
                Reply::Error { id: id.clone(), error: agent_target_error_body(err) },
            );
        },
    };
    let workspace = &session.workspaces[place.workspace];
    let tab = &workspace.tabs[place.tab];
    let pane = &tab.panes[place.pane];
    let lines: u32 = match params.lines {
        None => DEFAULT_READ_LINES,
        Some(lines) => if lines > MAX_READ_LINES {
            MAX_READ_LINES
        } else {
            lines
        },
    };
    AgentStep::Read(
        AgentReadPlan {
            terminal_id: pane.terminal_id.clone(),
            pane_id: pane.pane_id.clone(),
            workspace_id: workspace.workspace_id.clone(),
            tab_id: tab.tab_id.clone(),
            source: params.source,
            format: params.format,
            lines,
        },
    )
}

/// Answers a read with the text that was read, where the terminal runs.
pub fn agent_read_finished(
    id: &String,
    target: &str,
    plan: AgentReadPlan,
    text: Option<String>,
) -> (reply: Reply)
    ensures
        match text {
            Some(text) => reply.is_success(
                *id,
                ResponseResult::PaneRead {
                    read: PaneReadResult {
                        pane_id: plan.pane_id,
                        workspace_id: plan.workspace_id,
                        tab_id: plan.tab_id,
                        source: plan.source,
                        format: plan.format,
                        text,
                        revision: 0,
                        truncated: false,
                    },
                },
            ),
            None => reply.is_error(*id, agent_missing(target@)),
        },
{
    match text {
        Some(text) => Reply::Success {
            id: id.clone(),
            result: ResponseResult::PaneRead {
                read: PaneReadResult {
                    pane_id: plan.pane_id,
                    workspace_id: plan.workspace_id,
                    tab_id: plan.tab_id,
                    source: plan.source,
                    format: plan.format,
                    text,
                    revision: 0,
                    truncated: false,
                },
            },
        },
        None => agent_not_found(id, target),
    }
}

/// Plans sending text to an agent's terminal.
pub fn handle_agent_send(
    session: &Session,
    federation: &Federation,
    id: &String,
    params: &AgentSendParams,
) -> (step: AgentStep)
    ensures
        ({
            let plan = agent_target_plan(
                federation@,
                Request { id: *id, method: Method::AgentSend(*params) },
                params.target@,
                false,
            );
            if plan is NotHandled {
                match target_lookup(session@, params.target@) {
                    TargetLookup::Found(w, t, p) => step == AgentStep::Send(
                        AgentSendPlan {
                            terminal_id: session@.workspaces[w].tabs[t].panes[p].terminal_id,
                            text: params.text,
                        },
                    ),
                    lookup => step matches AgentStep::Answered(reply) && reply.is_error(
                        *id,
                        lookup_refusal(params.target@, lookup),
                    ),
                }
            } else {
                agent_goes_remote(step, *id, plan)
            }
        }),
{
    let request = Request { id: id.clone(), method: Method::AgentSend(params.clone()) };
    if let Some(step) = routed_agent(federation, &request, &params.target) {
        return step;
    }
    match session.resolve_terminal_target(&params.target) {
        Err(err) => AgentStep::Answered(
            Reply::Error { id: id.clone(), error: agent_target_error_body(err) },
        ),
        Ok(place) => {
            let pane = &session.workspaces[place.workspace].tabs[place.tab].panes[place.pane];
            AgentStep::Send(
                AgentSendPlan {
                    terminal_id: pane.terminal_id.clone(),
                    text: params.text.clone(),
                },
            )
        },
    }
}

/// Answers a send: the terminal may not run, and it may not take the text.
pub fn agent_sent(id: &String, target: &str, outcome: Option<Result<(), String>>) -> (reply: Reply)
    ensures
        match outcome {
            None => reply.is_error(*id, agent_missing(target@)),
            Some(Err(message)) => reply.is_error(
                *id,
                ErrorText { code: "agent_send_failed"@, message: message@ },
            ),
            Some(Ok(_)) => reply.is_success(*id, ResponseResult::Acknowledged),
        },
{
    match outcome {
        None => agent_not_found(id, target),
        Some(Err(message)) => encode_error(id.clone(), "agent_send_failed", message),
        Some(Ok(_)) => Reply::Success { id: id.clone(), result: ResponseResult::Acknowledged },
    }
}

// Laws -------------------------------------------------------------------

/// However many lines are asked for, a read gives no more than the most that is allowed.
pub proof fn reads_are_bounded(lines: Option<u32>)
    ensures
        read_lines(lines) <= MAX_READ_LINES,
{
}

/// Without configured hosts, a slash in a target leads nowhere but here.
pub proof fn slashes_are_local_without_hosts(federation: FederationView, request: Request, target: Seq<char>)
    requires
        federation.hosts.len() == 0,
    ensures
        agent_target_plan(federation, request, target, false) is NotHandled,
{
}

} // verus!
