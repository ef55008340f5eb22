//! Planning and finishing requests to agents on remote hosts.
//!
//! A request that names an agent on a configured host is checked against the
//! local cache and, where nothing speaks against it, becomes one self-contained
//! dispatch. Planning sends nothing. A dispatch needs a permit, chooses how to
//! reach the host, and turns whatever comes back into the client's reply.
use vstd::prelude::*;
use std::sync::Arc;
use crate::bridge_limiter::{
    after_acquire, in_flight_of, RemoteAgentBridgeLimiter, RemoteAgentBridgePermit,
};
use crate::remote_helpers::{
    bridge_reply, bridge_reply_view, not_connected_error, printed, remote_host_not_connected_body,
    remote_route_plan_error_body, rewrite_remote_agent_start_response, rewrite_remote_response_id,
    route_error, start_response_for, text_response_for, text_result, BridgeError, BridgeErrorView,
};
use crate::remote_source::{
    prepared_state_of, status_of, RemoteApiBridgeState, RemoteHostKey, RemoteSources,
};
use crate::remote_target::{
    agent_lookup, configured, is_planned, plan_target_route, planned_route,
    resolve_remote_agent_target, AgentLookup, PlannedTargetRoute, PlannedView,
    RemoteAgentResolution, RemoteConnectionPolicy, RemoteHostConfig, RemoteHostRegistry,
    RemoteRoutePlanError,
};
use crate::resolve_errors::{agent_lookup_error, remote_agent_resolve_error_body};
use crate::routed_plan::{Federation, FederationView};
use crate::schema::{
    encode_error, error_body, AgentReadParams, AgentSendParams, AgentStartParams, AgentSubmitParams,
    AgentTarget, AgentTeardownParams, ErrorBody, ErrorText, Method, Reply, Request,
};
use crate::server::FederationCapabilities;
use crate::text::{concat2, concat3, concat5, decimal, decimal_text};

verus! {

/// How the answer of a remote host is rewritten for the local client.
#[derive(Debug, Clone, Copy, PartialEq, Eq, Structural)]
pub enum RemoteAgentResponseRewrite {
    /// Only the `id` is replaced.
    Id,
    /// The `id` is replaced and the started agent's labels carry the host.
    AgentStart,
}

/// One request to a remote host, with everything that sending it needs.
#[derive(Debug, PartialEq, Eq)]
pub struct RemoteAgentDispatchDescriptor {
    pub host: RemoteHostConfig,
    pub request: Request,
    pub rewrite: RemoteAgentResponseRewrite,
    /// What the host's supervisor prepared, where the host is connected.
    pub bridge_state: Option<Arc<RemoteApiBridgeState>>,
}

/// What planning a request came to.
#[derive(Debug, PartialEq, Eq)]
pub enum DeferredRemoteAgentPlan {
    /// Not a request to an agent on a remote host.
    NotHandled,
    /// Refused.
    Immediate(Reply),
    /// To be sent.
    Deferred(Box<RemoteAgentDispatchDescriptor>),
}

/// What a plan is to be.
pub enum AgentPlanView {
    NotHandled,
    Refused(ErrorText),
    Deferred(RemoteAgentDispatchDescriptor),
}

/// `plan` is the plan `view` for request `id`.
pub open spec fn is_agent_plan(
    plan: DeferredRemoteAgentPlan,
    id: String,
    view: AgentPlanView,
) -> bool {
    match view {
        AgentPlanView::NotHandled => plan is NotHandled,
        AgentPlanView::Refused(error) => plan matches DeferredRemoteAgentPlan::Immediate(reply)
            && reply.is_error(id, error),
        AgentPlanView::Deferred(descriptor) => plan matches DeferredRemoteAgentPlan::Deferred(
            planned,
        ) && *planned == descriptor,
    }
}

// Rewritten requests -----------------------------------------------------

pub fn remote_agent_focus_request(id: String, target: AgentTarget, terminal_id: &String) -> (request:
    Request)
    ensures
        request == (Request {
            id,
            method: Method::AgentFocus(AgentTarget { target: *terminal_id, ..target }),
        }),
{
    Request { id, method: Method::AgentFocus(AgentTarget { target: terminal_id.clone(), ..target }) }
}

pub fn remote_agent_read_request(id: String, params: AgentReadParams, terminal_id: &String) -> (
    request: Request)
    ensures
        request == (Request {
            id,
            method: Method::AgentRead(AgentReadParams { target: *terminal_id, ..params }),
        }),
{
    Request {
        id,
        method: Method::AgentRead(AgentReadParams { target: terminal_id.clone(), ..params }),
    }
}

pub fn remote_agent_send_request(id: String, params: AgentSendParams, terminal_id: &String) -> (
    request: Request)
    ensures
        request == (Request {
            id,
            method: Method::AgentSend(AgentSendParams { target: *terminal_id, ..params }),
        }),
{
    Request {
        id,
        method: Method::AgentSend(AgentSendParams { target: terminal_id.clone(), ..params }),
    }
}

pub fn remote_agent_submit_request(id: String, params: AgentSubmitParams, terminal_id: &String) -> (
    request: Request)
    ensures
        request == (Request {
            id,
            method: Method::AgentSubmit(AgentSubmitParams { target: *terminal_id, ..params }),
        }),
{
    Request {
        id,
        method: Method::AgentSubmit(AgentSubmitParams { target: terminal_id.clone(), ..params }),
    }
}

/// The forwarded teardown is always confirmed: an unconfirmed one is refused
/// before it gets here.
pub fn remote_agent_teardown_request(id: String, terminal_id: &String) -> (request: Request)
    ensures
        request == (Request {
            id,
            method: Method::AgentTeardown(
                AgentTeardownParams { target: *terminal_id, confirm: true },
            ),
        }),
{
    Request {
        id,
        method: Method::AgentTeardown(
            AgentTeardownParams { target: terminal_id.clone(), confirm: true },
        ),
    }
}

/// A start in the host's own terms: no host, and a new workspace unless a place
/// on the host is named.
pub open spec fn start_on_host(params: AgentStartParams) -> AgentStartParams {
    AgentStartParams {
        host: None,
        new_workspace: params.workspace_id is None && params.tab_id is None,
        ..params
    }
}

pub fn remote_agent_start_request(id: String, params: AgentStartParams) -> (request: Request)
    ensures
        request == (Request { id, method: Method::AgentStart(start_on_host(params)) }),
{
    let new_workspace = params.workspace_id.is_none() && params.tab_id.is_none();
    Request {
        id,
        method: Method::AgentStart(AgentStartParams { host: None, new_workspace, ..params }),
    }
}

/// A request to an agent in its host's own identifiers.
pub open spec fn agent_request(request: Request, terminal_id: String) -> Request {
    Request {
        id: request.id,
        method: match request.method {
            Method::AgentFocus(_) => Method::AgentFocus(AgentTarget { target: terminal_id }),
            Method::AgentRead(params) => Method::AgentRead(
                AgentReadParams { target: terminal_id, ..params },
            ),
            Method::AgentSend(params) => Method::AgentSend(
                AgentSendParams { target: terminal_id, ..params },
            ),
            Method::AgentSubmit(params) => Method::AgentSubmit(
                AgentSubmitParams { target: terminal_id, ..params },
            ),
            Method::AgentTeardown(_) => Method::AgentTeardown(
                AgentTeardownParams { target: terminal_id, confirm: true },
            ),
            other => other,
        },
    }
}

fn build_agent_request(request: &Request, terminal_id: &String) -> (rewritten: Request)
    ensures
        rewritten == agent_request(*request, *terminal_id),
{
    let id = request.id.clone();
    match &request.method {
        Method::AgentFocus(target) => remote_agent_focus_request(id, target.clone(), terminal_id),
        Method::AgentRead(params) => remote_agent_read_request(id, params.clone(), terminal_id),
        Method::AgentSend(params) => remote_agent_send_request(id, params.clone(), terminal_id),
        Method::AgentSubmit(params) => remote_agent_submit_request(id, params.clone(), terminal_id),
        Method::AgentTeardown(_) => remote_agent_teardown_request(id, terminal_id),
        _ => request.clone(),
    }
}

/// The dotted name of a routed agent method, and nothing of its parameters.
pub open spec fn agent_method_name(method: Method) -> Seq<char> {
    match method {
        Method::AgentRead(_) => "agent.read"@,
        Method::AgentFocus(_) => "agent.focus"@,
        Method::AgentSend(_) => "agent.send"@,
        Method::AgentSubmit(_) => "agent.submit"@,
        Method::AgentTeardown(_) => "agent.teardown"@,
        Method::AgentStart(_) => "agent.start"@,
        _ => "agent"@,
    }
}

pub fn remote_agent_method_name(method: &Method) -> (name: &'static str)
    ensures
        name@ == agent_method_name(*method),
{
    match method {
        Method::AgentRead(_) => "agent.read",
        Method::AgentFocus(_) => "agent.focus",
        Method::AgentSend(_) => "agent.send",
        Method::AgentSubmit(_) => "agent.submit",
        Method::AgentTeardown(_) => "agent.teardown",
        Method::AgentStart(_) => "agent.start",
        _ => "agent",
    }
}

// Routing ----------------------------------------------------------------

/// Where an agent target leads. Without configured hosts every target is local;
/// with them, a slash always leads to a host.
pub open spec fn agent_route(hosts: Seq<RemoteHostConfig>, target: Seq<char>) -> PlannedView {
    if hosts.len() == 0 {
        PlannedView::Local
    } else {
        planned_route(hosts, target)
    }
}

pub fn plan_agent_api_target(hosts: &RemoteHostRegistry, target: &String) -> (route: Result<
    PlannedTargetRoute,
    RemoteRoutePlanError,
>)
    ensures
        is_planned(route, target@, agent_route(hosts@, target@)),
{
    if hosts.is_empty() {
        return Ok(PlannedTargetRoute::Local { target: target.clone() });
    }
    plan_target_route(hosts, target.as_str())
}

/// Refuses an agent whose host is not connected.
fn remote_agent_resolved_connected_or_error(
    host: &RemoteHostConfig,
    resolved: &RemoteAgentResolution,
) -> (refusal: Option<ErrorBody>)
    ensures
        match refusal {
            Some(body) => resolved.entry.status.stale_text() is Some && body@
                == not_connected_error(
                host.name@,
                resolved.entry.status.stale_text()->0,
                "agent"@,
            ),
            None => resolved.entry.status is Connected,
        },
{
    match resolved.entry.status.stale_label() {
        Some(label) => Some(remote_host_not_connected_body(host.name.as_str(), label, "agent")),
        None => None,
    }
}

/// Where a request to an agent goes.
pub enum AgentTargetRoute {
    Local,
    Refused(ErrorText),
    Ready {
        host: RemoteHostConfig,
        terminal_id: String,
        bridge_state: Option<Arc<RemoteApiBridgeState>>,
    },
}

/// Where a request to the agent `target` goes: to its host, once the cache names
/// exactly one such agent and, where that matters, its host is connected.
pub open spec fn agent_target_route(
    federation: FederationView,
    target: Seq<char>,
    require_connected: bool,
) -> AgentTargetRoute {
    match agent_route(federation.hosts, target) {
        PlannedView::Local => AgentTargetRoute::Local,
        PlannedView::Remote { host, target: selector } => match agent_lookup(
            federation.sources,
            host,
            selector,
        ) {
            AgentLookup::One(entry) => if require_connected && !(entry.status is Connected) {
                AgentTargetRoute::Refused(
                    not_connected_error(host.name@, entry.status.stale_text()->0, "agent"@),
                )
            } else {
                AgentTargetRoute::Ready {
                    host,
                    terminal_id: entry.agent.terminal_id,
                    bridge_state: prepared_state_of(federation.sources, host.spec_key()@),
                }
            },
            other => AgentTargetRoute::Refused(agent_lookup_error(other, selector)),
        },
        other => AgentTargetRoute::Refused(route_error(other)),
    }
}

/// The refusal of an unconfirmed teardown.
pub open spec fn teardown_unconfirmed() -> ErrorText {
    ErrorText {
        code: "confirmation_required"@,
        message: "agent.teardown is destructive; pass confirm: true to proceed"@,
    }
}

/// The refusal of a start on a host that is only connected by hand.
pub open spec fn manual_policy_error(host: Seq<char>) -> ErrorText {
    ErrorText {
        code: "remote_host_connection_policy_manual"@,
        message: "remote host "@ + host
            + " uses the manual connection policy; connect it before starting an agent on it"@,
    }
}

/// The plan of a start on the host of that alias. A host about which nothing was
/// reported may still be tried; one that was reported unhealthy is not.
pub open spec fn start_plan(
    federation: FederationView,
    request: Request,
    params: AgentStartParams,
    alias: Seq<char>,
) -> AgentPlanView {
    match configured(federation.hosts, alias) {
        None => AgentPlanView::Refused(route_error(PlannedView::UnknownHost(alias))),
        Some(host) => if host.connection_policy is Manual {
            AgentPlanView::Refused(manual_policy_error(host.name@))
        } else {
            match status_of(federation.sources, host.spec_key()@) {
                Some(status) if !(status is Connected) => AgentPlanView::Refused(
                    not_connected_error(host.name@, status.stale_text()->0, "agent"@),
                ),
                _ => AgentPlanView::Deferred(
                    RemoteAgentDispatchDescriptor {
                        host,
                        request: Request {
                            id: request.id,
                            method: Method::AgentStart(start_on_host(params)),
                        },
                        rewrite: RemoteAgentResponseRewrite::AgentStart,
                        bridge_state: prepared_state_of(federation.sources, host.spec_key()@),
                    },
                ),
            }
        },
    }
}

/// The plan of a request to the agent `target`.
pub open spec fn agent_target_plan(
    federation: FederationView,
    request: Request,
    target: Seq<char>,
    require_connected: bool,
) -> AgentPlanView {
    match agent_target_route(federation, target, require_connected) {
        AgentTargetRoute::Local => AgentPlanView::NotHandled,
        AgentTargetRoute::Refused(error) => AgentPlanView::Refused(error),
        AgentTargetRoute::Ready { host, terminal_id, bridge_state } => AgentPlanView::Deferred(
            RemoteAgentDispatchDescriptor {
                host,
                request: agent_request(request, terminal_id),
                rewrite: RemoteAgentResponseRewrite::Id,
                bridge_state,
            },
        ),
    }
}

/// The plan of a request. An unconfirmed teardown is refused before anything is
/// looked at; a read is safe to try on a host that is not connected.
pub open spec fn agent_plan(federation: FederationView, request: Request) -> AgentPlanView {
    match request.method {
        Method::AgentTeardown(params) => if !params.confirm {
            AgentPlanView::Refused(teardown_unconfirmed())
        } else {
            agent_target_plan(federation, request, params.target@, true)
        },
        Method::AgentFocus(target) => agent_target_plan(federation, request, target.target@, true),
        Method::AgentRead(params) => agent_target_plan(federation, request, params.target@, false),
        Method::AgentSend(params) => agent_target_plan(federation, request, params.target@, true),
        Method::AgentSubmit(params) => agent_target_plan(federation, request, params.target@, true),
        Method::AgentStart(params) => match params.host {
            Some(alias) => start_plan(federation, request, params, alias@),
            None => AgentPlanView::NotHandled,
        },
        _ => AgentPlanView::NotHandled,
    }
}

/// Refuses a host that is only connected by hand.
pub fn remote_agent_start_host_policy_guard(host: &RemoteHostConfig) -> (guard: Result<
    (),
    ErrorBody,
>)
    ensures
        match guard {
            Ok(_) => !(host.connection_policy is Manual),
            Err(body) => host.connection_policy is Manual && body@ == manual_policy_error(
                host.name@,
            ),
        },
{
    match host.connection_policy {
        RemoteConnectionPolicy::Manual => Err(
            error_body(
                "remote_host_connection_policy_manual",
                concat3(
                    "remote host ",
                    host.name.as_str(),
                    " uses the manual connection policy; connect it before starting an agent on it",
                ),
            ),
        ),
        _ => Ok(()),
    }
}

/// Refuses a host that was reported as not connected.
pub fn remote_agent_start_host_precheck(sources: &RemoteSources, host: &RemoteHostConfig) -> (check:
    Result<(), ErrorBody>)
    ensures
        match check {
            Ok(_) => match status_of(sources@, host.spec_key()@) {
                Some(status) => status is Connected,
                None => true,
            },
            Err(body) => status_of(sources@, host.spec_key()@) matches Some(status) && !(
            status is Connected) && body@ == not_connected_error(
                host.name@,
                status.stale_text()->0,
                "agent"@,
            ),
        },
{
    match sources.host_status(&host.key()) {
        Some(status) => match status.stale_label() {
            Some(label) => Err(remote_host_not_connected_body(host.name.as_str(), label, "agent")),
            None => Ok(()),
        },
        None => Ok(()),
    }
}

fn refuse_agent(id: &String, error: ErrorBody) -> (plan: DeferredRemoteAgentPlan)
    ensures
        is_agent_plan(plan, *id, AgentPlanView::Refused(error@)),
{
    DeferredRemoteAgentPlan::Immediate(Reply::Error { id: id.clone(), error })
}

impl Federation {
    /// Routes a request to the agent `target`, and builds its dispatch where
    /// nothing speaks against it.
    pub fn plan_remote_agent_method(
        &self,
        request: &Request,
        target: &String,
        require_connected: bool,
    ) -> (plan: DeferredRemoteAgentPlan)
        ensures
            is_agent_plan(
                plan,
                request.id,
                agent_target_plan(self@, *request, target@, require_connected),
            ),
    {
        let (host, selector) = match plan_agent_api_target(&self.remote_hosts, target) {
            Err(err) => {
                return refuse_agent(&request.id, remote_route_plan_error_body(err));
            },
            Ok(PlannedTargetRoute::Local { .. }) => {
                return DeferredRemoteAgentPlan::NotHandled;
            },
            Ok(PlannedTargetRoute::Remote { host, target: selector }) => (host, selector),
        };
        let resolved = match resolve_remote_agent_target(&self.remote_sources, &host, &selector) {
            Err(err) => {
                return refuse_agent(&request.id, remote_agent_resolve_error_body(err));
            },
            Ok(resolved) => resolved,
        };
        if require_connected {
            if let Some(body) = remote_agent_resolved_connected_or_error(&host, &resolved) {
                return refuse_agent(&request.id, body);
            }
        }
        let bridge_state = self.remote_sources.connected_bridge_state(&host.key());
        DeferredRemoteAgentPlan::Deferred(
            Box::new(
                RemoteAgentDispatchDescriptor {
                    host,
                    request: build_agent_request(request, &resolved.entry.agent.terminal_id),
                    rewrite: RemoteAgentResponseRewrite::Id,
                    bridge_state,
                },
            ),
        )
    }

    /// Plans a start on the host of that alias.
    fn plan_remote_agent_start(
        &self,
        request: &Request,
        params: &AgentStartParams,
        alias: &String,
    ) -> (plan: DeferredRemoteAgentPlan)
        ensures
            is_agent_plan(plan, request.id, start_plan(self@, *request, *params, alias@)),
    {
        let host = match self.remote_hosts.get(alias.as_str()) {
            None => {
                let unknown = RemoteRoutePlanError::UnknownHost(alias.clone());
                return refuse_agent(&request.id, remote_route_plan_error_body(unknown));
            },
            Some(host) => host,
        };
        if let Err(body) = remote_agent_start_host_policy_guard(host) {
            return refuse_agent(&request.id, body);
        }
        if let Err(body) = remote_agent_start_host_precheck(&self.remote_sources, host) {
            return refuse_agent(&request.id, body);
        }
        let bridge_state = self.remote_sources.connected_bridge_state(&host.key());
        DeferredRemoteAgentPlan::Deferred(
            Box::new(
                RemoteAgentDispatchDescriptor {
                    host: host.clone(),
                    request: remote_agent_start_request(request.id.clone(), params.clone()),
                    rewrite: RemoteAgentResponseRewrite::AgentStart,
                    bridge_state,
                },
            ),
        )
    }

    /// Plans one request. Nothing is sent and nothing is changed.
    pub fn plan_deferred_remote_agent_request(&self, request: &Request) -> (plan:
        DeferredRemoteAgentPlan)
        ensures
            is_agent_plan(plan, request.id, agent_plan(self@, *request)),
    {
        match &request.method {
            Method::AgentTeardown(params) => {
                if !params.confirm {
                    return DeferredRemoteAgentPlan::Immediate(
                        encode_error(
                            request.id.clone(),
                            "confirmation_required",
                            "agent.teardown is destructive; pass confirm: true to proceed".to_owned(),
                        ),
                    );
                }
                self.plan_remote_agent_method(request, &params.target, true)
            },
            Method::AgentFocus(target) => self.plan_remote_agent_method(
                request,
                &target.target,
                true,
            ),
            Method::AgentRead(params) => self.plan_remote_agent_method(
                request,
                &params.target,
                false,
            ),
            Method::AgentSend(params) => self.plan_remote_agent_method(
                request,
                &params.target,
                true,
            ),
            Method::AgentSubmit(params) => self.plan_remote_agent_method(
                request,
                &params.target,
                true,
            ),
            Method::AgentStart(params) => match &params.host {
                Some(alias) => self.plan_remote_agent_start(request, params, alias),
                None => DeferredRemoteAgentPlan::NotHandled,
            },
            _ => DeferredRemoteAgentPlan::NotHandled,
        }
    }
}

// Dispatch ---------------------------------------------------------------

/// The refusal of a request to a session that has as many on their way as it may.
pub open spec fn bridge_busy_error(host: Seq<char>, session: Seq<char>, limit: nat) -> ErrorText {
    ErrorText {
        code: "remote_bridge_busy"@,
        message: "remote agent bridge dispatch limit reached for "@ + host + "/"@ + session + ": "@
            + (decimal(limit) + " in-flight dispatches already in progress"@),
    }
}

pub fn remote_bridge_busy_response(id: &String, key: &RemoteHostKey, limit: usize) -> (reply: Reply)
    ensures
        reply.is_error(*id, bridge_busy_error(key.host@, key.session@, limit as nat)),
{
    let head = concat5(
        "remote agent bridge dispatch limit reached for ",
        key.host.as_str(),
        "/",
        key.session.as_str(),
        ": ",
    );
    let tail = concat2(
        decimal_text(limit).as_str(),
        " in-flight dispatches already in progress",
    );
    encode_error(id.clone(), "remote_bridge_busy", concat2(head.as_str(), tail.as_str()))
}

/// Takes a permit for a dispatch, or answers its client that the host is busy.
pub fn acquire_remote_agent_bridge_permit_or_busy(
    limiter: &mut RemoteAgentBridgeLimiter,
    descriptor: &RemoteAgentDispatchDescriptor,
) -> (permit: Result<RemoteAgentBridgePermit, Reply>)
    ensures
        final(limiter).spec_limit() == old(limiter).spec_limit(),
        in_flight_of(old(limiter).counts(), descriptor.host.spec_key()@) < old(
            limiter,
        ).spec_limit() ==> permit == Ok::<RemoteAgentBridgePermit, Reply>(
            RemoteAgentBridgePermit { key: descriptor.host.spec_key() },
        ) && final(limiter).counts() == after_acquire(
            old(limiter).counts(),
            descriptor.host.spec_key()@,
        ),
        in_flight_of(old(limiter).counts(), descriptor.host.spec_key()@) >= old(
            limiter,
        ).spec_limit() ==> final(limiter).counts() == old(limiter).counts() && (permit matches Err(
            reply,
        ) && reply.is_error(
            descriptor.request.id,
            bridge_busy_error(
                descriptor.host.name@,
                descriptor.host.session@,
                old(limiter).spec_limit() as nat,
            ),
        )),
{
    let key = descriptor.host.key();
    match limiter.try_acquire(&key) {
        Some(permit) => Ok(permit),
        None => Err(remote_bridge_busy_response(&descriptor.request.id, &key, limiter.limit())),
    }
}

/// How a dispatch reaches its host.
#[derive(Debug, Clone, Copy, PartialEq, Eq, Structural)]
pub enum BridgeLeg {
    /// Over a connection of the pool.
    Pooled,
    /// Over a connection of its own, reusing what the supervisor prepared.
    Prepared,
    /// Over a connection of its own, prepared anew.
    Full,
}

/// What to do after the pool was tried.
#[derive(Debug, PartialEq, Eq)]
pub enum BridgeStep {
    Try(BridgeLeg),
    Done(Result<String, BridgeError>),
}

/// The first attempt of a dispatch: over the pool, where the prepared state says
/// that the host keeps connections open.
pub open spec fn first_leg(state: Option<Arc<RemoteApiBridgeState>>) -> BridgeLeg {
    match state {
        Some(state) => if state.capabilities@.contains(
            FederationCapabilities::REMOTE_API_BRIDGE_PERSISTENT@,
        ) {
            BridgeLeg::Pooled
        } else {
            BridgeLeg::Prepared
        },
        None => BridgeLeg::Full,
    }
}

pub fn real_remote_agent_bridge(state: &Option<Arc<RemoteApiBridgeState>>) -> (leg: BridgeLeg)
    ensures
        leg == first_leg(*state),
{
    match state {
        Some(state) => if state.capabilities.supports_method(
            FederationCapabilities::REMOTE_API_BRIDGE_PERSISTENT,
        ) {
            BridgeLeg::Pooled
        } else {
            BridgeLeg::Prepared
        },
        None => BridgeLeg::Full,
    }
}

/// What follows an attempt over the pool. A pool that had no connection to offer
/// wrote nothing, and the request goes over a connection of its own.
pub open spec fn after_pool(attempt: Result<Option<String>, BridgeError>) -> BridgeStep {
    match attempt {
        Ok(Some(text)) => BridgeStep::Done(Ok(text)),
        Ok(None) => BridgeStep::Try(BridgeLeg::Prepared),
        Err(err) => BridgeStep::Done(Err(err)),
    }
}

pub fn pool_attempted(attempt: Result<Option<String>, BridgeError>) -> (step: BridgeStep)
    ensures
        step == after_pool(attempt),
{
    match attempt {
        Ok(Some(text)) => BridgeStep::Done(Ok(text)),
        Ok(None) => BridgeStep::Try(BridgeLeg::Prepared),
        Err(err) => BridgeStep::Done(Err(err)),
    }
}

/// A request that the pool may have written is never sent again, and nothing
/// leads back to the pool.
pub proof fn requests_are_never_sent_twice(attempt: Result<Option<String>, BridgeError>)
    ensures
        after_pool(attempt) is Try <==> attempt == Ok::<Option<String>, BridgeError>(None),
        after_pool(attempt) != BridgeStep::Try(BridgeLeg::Pooled),
{
}

/// What came back for a dispatch, rewritten for its client.
pub open spec fn dispatch_result(
    descriptor: RemoteAgentDispatchDescriptor,
    bridged: Result<Seq<char>, BridgeErrorView>,
) -> Result<Seq<char>, BridgeErrorView> {
    match bridged {
        Err(err) => Err(err),
        Ok(text) => match descriptor.rewrite {
            RemoteAgentResponseRewrite::Id => printed(
                text_response_for(text, descriptor.request.id@),
            ),
            RemoteAgentResponseRewrite::AgentStart => printed(
                start_response_for(text, descriptor.request.id@, descriptor.host.name@),
            ),
        },
    }
}

/// Turns what came back for a dispatch into its client's reply. A failure on the
/// way and an answer that cannot be read are both reported.
pub fn run_remote_agent_dispatch_with_bridge(
    descriptor: &RemoteAgentDispatchDescriptor,
    bridged: Result<String, BridgeError>,
) -> (reply: Reply)
    ensures
        reply@ == bridge_reply_view(
            descriptor.request.id,
            dispatch_result(*descriptor, text_result(bridged)),
        ),
{
    let id = descriptor.request.id.as_str();
    let rewritten = match bridged {
        Err(err) => Err(err),
        Ok(text) => match descriptor.rewrite {
            RemoteAgentResponseRewrite::Id => rewrite_remote_response_id(text.as_str(), id),
            RemoteAgentResponseRewrite::AgentStart => rewrite_remote_agent_start_response(
                text.as_str(),
                id,
                descriptor.host.name.as_str(),
            ),
        },
    };
    bridge_reply(descriptor.request.id.clone(), rewritten)
}

// Laws -------------------------------------------------------------------

/// A dispatch goes out under the client's own request identifier and to the host
/// as it is configured, with prepared state only while that host is connected.
pub proof fn dispatches_keep_the_request_id(federation: FederationView, request: Request)
    requires
        agent_plan(federation, request) is Deferred,
    ensures
        ({
            let planned = agent_plan(federation, request)->Deferred_0;
            &&& planned.request.id == request.id
            &&& federation.hosts.contains(planned.host)
            &&& planned.bridge_state is Some ==> crate::remote_source::connected(
                federation.sources,
                planned.host.spec_key()@,
            )
        }),
{
}

/// An unconfirmed teardown is refused, whatever it names.
pub proof fn unconfirmed_teardowns_are_refused(
    federation: FederationView,
    id: String,
    params: AgentTeardownParams,
)
    requires
        !params.confirm,
    ensures
        agent_plan(federation, Request { id, method: Method::AgentTeardown(params) })
            == AgentPlanView::Refused(teardown_unconfirmed()),
{
}

/// A request that may change something on a host goes out only while that host is
/// connected; a start may also go to a host of which nothing was reported yet.
pub proof fn changes_need_a_connection(federation: FederationView, request: Request)
    requires
        agent_plan(federation, request) is Deferred,
        !(request.method is AgentRead),
    ensures
        ({
            let key = agent_plan(federation, request)->Deferred_0.host.spec_key()@;
            ||| crate::remote_source::connected(federation.sources, key)
            ||| request.method is AgentStart && status_of(federation.sources, key) is None
        }),
{
}

/// While no hosts are configured everything is left to the local server, but for an
/// unconfirmed teardown and a start that names a host.
pub proof fn without_hosts_agents_are_local(federation: FederationView, request: Request)
    requires
        federation.hosts.len() == 0,
        request.method matches Method::AgentTeardown(params) ==> params.confirm,
        request.method matches Method::AgentStart(params) ==> params.host is None,
    ensures
        agent_plan(federation, request) is NotHandled,
{
}

} // verus!
