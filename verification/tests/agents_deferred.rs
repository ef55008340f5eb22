//! Requests to agents on remote hosts: planning, permits and what comes back.
use std::sync::Arc;

use herdr::agent_plan::{
    acquire_remote_agent_bridge_permit_or_busy, pool_attempted, real_remote_agent_bridge,
    remote_agent_method_name, run_remote_agent_dispatch_with_bridge, BridgeLeg, BridgeStep,
    DeferredRemoteAgentPlan, RemoteAgentDispatchDescriptor, RemoteAgentResponseRewrite,
};
use herdr::bridge_limiter::{
    RemoteAgentBridgeLimiter, REMOTE_AGENT_BRIDGE_PER_HOST_LIMIT,
    REMOTE_AGENT_BRIDGE_POOL_MAX_PER_HOST,
};
use herdr::remote_helpers::{remote_response_error_code, BridgeError, BridgeErrorKind};
use herdr::remote_source::{
    RemoteApiBridgeState, RemoteConnectionStatus, RemoteHostKey, RemoteSources,
};
use herdr::remote_target::{RemoteConnectionPolicy, RemoteHostConfig, RemoteHostRegistry};
use herdr::routed_plan::Federation;
use herdr::schema::{
    AgentInfo, AgentReadParams, AgentSendParams, AgentStartParams, AgentStatus, AgentSubmitParams,
    AgentTarget, AgentTeardownParams, Method, ReadFormat, ReadSource, Reply, Request,
};
use herdr::server::FederationCapabilities;

fn key() -> RemoteHostKey {
    RemoteHostKey::new("jafar".to_string(), "default".to_string())
}

fn federation_of(host: RemoteHostConfig) -> Federation {
    Federation {
        remote_hosts: RemoteHostRegistry { hosts: vec![host] },
        remote_sources: RemoteSources::new(),
        supervisors: Vec::new(),
    }
}

fn remote_enabled() -> Federation {
    federation_of(RemoteHostConfig::new("jafar", "jafar", "default", true))
}

fn standalone_remote_agent(terminal_id: &str, name: &str) -> AgentInfo {
    AgentInfo {
        terminal_id: terminal_id.to_string(),
        name: Some(name.to_string()),
        agent: Some(name.to_string()),
        title: None,
        display_agent: Some(name.to_string()),
        agent_status: AgentStatus::Working,
        screen_detection_skipped: false,
        custom_status: None,
        state_labels: Arc::new(Vec::new()),
        agent_session: None,
        workspace_id: "remote-ws".to_string(),
        tab_id: "remote-tab".to_string(),
        pane_id: format!("{terminal_id}-pane"),
        focused: false,
        cwd: None,
        foreground_cwd: None,
        revision: 1,
    }
}

fn seed_connected_agent(federation: &mut Federation, terminal_id: &str, name: &str) {
    federation
        .remote_sources
        .replace_connected_snapshot(&key(), vec![standalone_remote_agent(terminal_id, name)]);
}

fn seed_stale_agent(federation: &mut Federation, status: RemoteConnectionStatus) {
    seed_connected_agent(federation, "term-1", "codex");
    federation.remote_sources.mark_status(&key(), status);
}

fn read_params(target: &str) -> AgentReadParams {
    AgentReadParams {
        target: target.to_string(),
        source: ReadSource::Recent,
        lines: None,
        format: ReadFormat::Text,
        strip_ansi: true,
    }
}

fn base_start_params(host: Option<&str>) -> AgentStartParams {
    AgentStartParams {
        host: host.map(str::to_string),
        name: "codex".to_string(),
        cwd: None,
        workspace_id: None,
        tab_id: None,
        split: None,
        focus: false,
        new_workspace: false,
        argv: Arc::new(vec!["codex".to_string()]),
        env: Arc::new(Vec::new()),
    }
}

fn request(method: Method) -> Request {
    Request { id: "req".to_string(), method }
}

fn deferred(plan: DeferredRemoteAgentPlan) -> Box<RemoteAgentDispatchDescriptor> {
    match plan {
        DeferredRemoteAgentPlan::Deferred(descriptor) => descriptor,
        other => panic!("expected Deferred, got {other:?}"),
    }
}

fn refused(plan: DeferredRemoteAgentPlan) -> (String, String, String) {
    match plan {
        DeferredRemoteAgentPlan::Immediate(reply) => error_of(reply),
        other => panic!("expected Immediate, got {other:?}"),
    }
}

fn error_of(reply: Reply) -> (String, String, String) {
    match reply {
        Reply::Error { id, error } => (id, error.code, error.message),
        other => panic!("expected an error, got {other:?}"),
    }
}

fn seeded_bridge_state() -> RemoteApiBridgeState {
    RemoteApiBridgeState {
        shell_path: "\"$HOME/.local/bin/herdr\"".to_string(),
        capabilities: FederationCapabilities::current(),
    }
}

fn read_descriptor() -> RemoteAgentDispatchDescriptor {
    RemoteAgentDispatchDescriptor {
        host: RemoteHostConfig::new("jafar", "jafar", "default", true),
        request: request(Method::AgentRead(read_params("term-1"))),
        rewrite: RemoteAgentResponseRewrite::Id,
        bridge_state: None,
    }
}

fn timed_out() -> Result<String, BridgeError> {
    Err(BridgeError {
        kind: BridgeErrorKind::Other,
        message: "simulated bridge timeout".to_string(),
    })
}

// Planning ---------------------------------------------------------------

#[test]
fn remote_agent_read_plans_dispatch_to_authoritative_terminal_id_without_ssh() {
    let mut federation = remote_enabled();
    seed_connected_agent(&mut federation, "term-1", "codex");

    let plan = federation
        .plan_deferred_remote_agent_request(&request(Method::AgentRead(read_params("jafar/codex"))));

    let descriptor = deferred(plan);
    let Method::AgentRead(params) = &descriptor.request.method else {
        panic!("expected agent.read");
    };
    assert_eq!(params.target, "term-1");
    assert_eq!(descriptor.request.id, "req");
    assert_eq!(descriptor.rewrite, RemoteAgentResponseRewrite::Id);
}

#[test]
fn remote_agent_read_does_not_require_connected_status() {
    let mut federation = remote_enabled();
    seed_stale_agent(&mut federation, RemoteConnectionStatus::Disconnected);

    let plan = federation
        .plan_deferred_remote_agent_request(&request(Method::AgentRead(read_params("jafar/codex"))));
    assert!(matches!(plan, DeferredRemoteAgentPlan::Deferred(_)));
}

#[test]
fn remote_agent_send_fails_fast_for_cached_disconnected_without_spawn() {
    let mut federation = remote_enabled();
    seed_stale_agent(&mut federation, RemoteConnectionStatus::Unreachable);

    let plan = federation.plan_deferred_remote_agent_request(&request(Method::AgentSend(
        AgentSendParams { target: "jafar/codex".to_string(), text: "hi".to_string() },
    )));
    let (id, code, message) = refused(plan);
    assert_eq!(id, "req");
    assert_eq!(code, "remote_host_not_connected");
    assert!(message.contains("unreachable"));
}

#[test]
fn remote_agent_submit_fails_fast_for_cached_needs_update_without_spawn() {
    let mut federation = remote_enabled();
    seed_stale_agent(&mut federation, RemoteConnectionStatus::NeedsUpdate);

    let plan = federation.plan_deferred_remote_agent_request(&request(Method::AgentSubmit(
        AgentSubmitParams { target: "jafar/codex".to_string(), text: "continue".to_string() },
    )));
    assert_eq!(refused(plan).1, "remote_host_not_connected");
}

#[test]
fn remote_agent_teardown_unconfirmed_returns_confirmation_required_before_routing() {
    let mut federation = remote_enabled();
    seed_stale_agent(&mut federation, RemoteConnectionStatus::Disconnected);

    let plan = federation.plan_deferred_remote_agent_request(&request(Method::AgentTeardown(
        AgentTeardownParams { target: "jafar/codex".to_string(), confirm: false },
    )));
    assert_eq!(refused(plan).1, "confirmation_required");
}

#[test]
fn remote_agent_focus_with_connected_agent_plans_dispatch() {
    let mut federation = remote_enabled();
    seed_connected_agent(&mut federation, "term-1", "codex");

    let plan = federation.plan_deferred_remote_agent_request(&request(Method::AgentFocus(
        AgentTarget { target: "jafar/codex".to_string() },
    )));
    let descriptor = deferred(plan);
    let Method::AgentFocus(target) = &descriptor.request.method else {
        panic!("expected agent.focus");
    };
    assert_eq!(target.target, "term-1");
}

#[test]
fn agent_start_host_manual_policy_returns_distinct_error_before_dispatch() {
    let federation = federation_of(
        RemoteHostConfig::new("jafar", "jafar", "default", true)
            .with_connection_policy(RemoteConnectionPolicy::Manual),
    );

    let plan = federation
        .plan_deferred_remote_agent_request(&request(Method::AgentStart(base_start_params(Some("jafar")))));
    assert_eq!(refused(plan).1, "remote_host_connection_policy_manual");
}

#[test]
fn agent_start_host_on_demand_without_cache_plans_dispatch() {
    let federation = federation_of(RemoteHostConfig::new("jafar", "jafar", "default", false));

    let plan = federation
        .plan_deferred_remote_agent_request(&request(Method::AgentStart(base_start_params(Some("jafar")))));
    let descriptor = deferred(plan);
    assert_eq!(descriptor.rewrite, RemoteAgentResponseRewrite::AgentStart);
    let Method::AgentStart(params) = &descriptor.request.method else {
        panic!("expected agent.start");
    };
    assert!(params.host.is_none());
    assert!(params.new_workspace);
}

#[test]
fn agent_start_host_cached_disconnected_fails_fast_before_dispatch() {
    let mut federation = remote_enabled();
    seed_stale_agent(&mut federation, RemoteConnectionStatus::Disconnected);

    let plan = federation
        .plan_deferred_remote_agent_request(&request(Method::AgentStart(base_start_params(Some("jafar")))));
    assert_eq!(refused(plan).1, "remote_host_not_connected");
}

#[test]
fn routed_descriptor_includes_prepared_state_for_connected_host() {
    let mut federation = remote_enabled();
    seed_connected_agent(&mut federation, "term-1", "codex");
    federation
        .remote_sources
        .set_connected_bridge_state(&key(), Arc::new(seeded_bridge_state()));

    let plan = federation
        .plan_deferred_remote_agent_request(&request(Method::AgentRead(read_params("jafar/codex"))));
    let descriptor = deferred(plan);
    let bridge_state = descriptor
        .bridge_state
        .as_ref()
        .expect("connected routed action must carry prepared state");
    assert_eq!(bridge_state.shell_path, seeded_bridge_state().shell_path);
    assert_eq!(bridge_state.capabilities, seeded_bridge_state().capabilities);
}

#[test]
fn routed_descriptor_omits_prepared_state_for_stale_agent_read() {
    let mut federation = remote_enabled();
    seed_stale_agent(&mut federation, RemoteConnectionStatus::Disconnected);

    let plan = federation
        .plan_deferred_remote_agent_request(&request(Method::AgentRead(read_params("jafar/codex"))));
    assert!(
        deferred(plan).bridge_state.is_none(),
        "stale agent.read must not carry prepared state"
    );
}

#[test]
fn agent_start_host_connected_with_cache_includes_prepared_state() {
    let mut federation = remote_enabled();
    federation
        .remote_sources
        .set_connected_bridge_state(&key(), Arc::new(seeded_bridge_state()));

    let plan = federation
        .plan_deferred_remote_agent_request(&request(Method::AgentStart(base_start_params(Some("jafar")))));
    assert!(
        deferred(plan).bridge_state.is_some(),
        "connected agent.start --host with cache must carry prepared state"
    );
}

#[test]
fn agent_start_host_on_demand_without_cache_omits_prepared_state() {
    let federation = federation_of(RemoteHostConfig::new("jafar", "jafar", "default", false));

    let plan = federation
        .plan_deferred_remote_agent_request(&request(Method::AgentStart(base_start_params(Some("jafar")))));
    assert!(
        deferred(plan).bridge_state.is_none(),
        "on-demand/no-cache agent.start --host must not carry prepared state"
    );
}

#[test]
fn local_and_bare_targets_return_not_handled() {
    let federation = remote_enabled();

    let plan = federation
        .plan_deferred_remote_agent_request(&request(Method::AgentRead(read_params("missing"))));
    assert!(matches!(plan, DeferredRemoteAgentPlan::NotHandled));

    let plan = federation
        .plan_deferred_remote_agent_request(&request(Method::AgentStart(base_start_params(None))));
    assert!(matches!(plan, DeferredRemoteAgentPlan::NotHandled));

    let plan = federation.plan_deferred_remote_agent_request(&request(Method::AgentGet(
        AgentTarget { target: "jafar/codex".to_string() },
    )));
    assert!(matches!(plan, DeferredRemoteAgentPlan::NotHandled));
}

#[test]
fn cached_agents_that_share_a_label_are_ambiguous() {
    let mut federation = remote_enabled();
    federation.remote_sources.replace_connected_snapshot(
        &key(),
        vec![
            standalone_remote_agent("term-1", "codex"),
            standalone_remote_agent("term-2", "codex"),
        ],
    );
    let plan = federation
        .plan_deferred_remote_agent_request(&request(Method::AgentRead(read_params("jafar/codex"))));
    let (_, code, message) = refused(plan);
    assert_eq!(code, "remote_agent_ambiguous");
    assert_eq!(message, "remote agent target matched 2 agents: term-1, term-2");
}

#[test]
fn selectors_are_quoted_in_errors() {
    let mut federation = remote_enabled();
    seed_connected_agent(&mut federation, "term-1", "codex");
    let plan = federation
        .plan_deferred_remote_agent_request(&request(Method::AgentRead(read_params("jafar/no\"body"))));
    let (_, code, message) = refused(plan);
    assert_eq!(code, "remote_agent_not_found");
    assert!(message.contains("\"no\\\"body\""), "{message}");

    let plan = federation
        .plan_deferred_remote_agent_request(&request(Method::AgentRead(read_params("jafar/tab:t"))));
    assert_eq!(refused(plan).1, "remote_target_error");
}

#[test]
fn malformed_targets_are_refused() {
    let federation = remote_enabled();
    let plan = federation
        .plan_deferred_remote_agent_request(&request(Method::AgentRead(read_params("jafar/"))));
    assert_eq!(refused(plan).1, "remote_target_error");
    let plan = federation
        .plan_deferred_remote_agent_request(&request(Method::AgentRead(read_params("/codex"))));
    assert_eq!(refused(plan).1, "remote_target_error");
}

// What comes back --------------------------------------------------------

#[test]
fn worker_with_cached_prepared_state_preserves_rewrite_error_and_telemetry_semantics() {
    let mut descriptor = read_descriptor();
    descriptor.bridge_state = Some(Arc::new(seeded_bridge_state()));

    // Prepared state that names no persistent bridge leads to a leg of its own;
    // with it, to a pooled connection. Either way it is used.
    assert_ne!(real_remote_agent_bridge(&descriptor.bridge_state), BridgeLeg::Full);
    let reply = run_remote_agent_dispatch_with_bridge(&descriptor, timed_out());

    let (id, code, message) = error_of(reply);
    assert_eq!(id, "req");
    assert_eq!(code, "remote_request_failed");
    assert!(message.contains("simulated bridge timeout"));
}

#[test]
fn worker_bridge_error_returns_remote_request_failed_through_channel() {
    let reply = run_remote_agent_dispatch_with_bridge(&read_descriptor(), timed_out());

    let (id, code, message) = error_of(reply);
    assert_eq!(id, "req");
    assert_eq!(code, "remote_request_failed");
    assert!(message.contains("simulated bridge timeout"));
}

#[test]
fn worker_rewrite_error_returns_remote_request_failed_through_channel() {
    let reply =
        run_remote_agent_dispatch_with_bridge(&read_descriptor(), Ok("not json".to_string()));

    let (id, code, _) = error_of(reply);
    assert_eq!(id, "req");
    assert_eq!(code, "remote_request_failed");
}

#[test]
fn answers_are_handed_on_under_the_clients_id() {
    let reply = run_remote_agent_dispatch_with_bridge(
        &read_descriptor(),
        Ok(r#"{"id":"ignored","result":{"type":"ok"}}"#.to_string()),
    );
    let Reply::Forwarded { text } = reply else {
        panic!("expected the host's own answer");
    };
    let value: serde_json::Value = serde_json::from_str(&text).unwrap();
    assert_eq!(value["id"], "req");
    assert_eq!(value["result"]["type"], "ok");
}

#[test]
fn remote_response_error_code_extracts_controlled_code_only() {
    assert!(remote_response_error_code(r#"{"id":"r","result":{"type":"ok"}}"#).is_none());
    assert_eq!(
        remote_response_error_code(
            r#"{"id":"r","error":{"code":"agent_not_found","message":"leaky detail"}}"#
        )
        .as_deref(),
        Some("agent_not_found")
    );
    assert_eq!(
        remote_response_error_code(
            r#"{"id":"r","error":{"code":"remote_request_failed","message":"x"}}"#
        )
        .as_deref(),
        Some("remote_request_failed")
    );
    assert!(remote_response_error_code("not json").is_none());
    assert!(remote_response_error_code(r#"{"id":"r","error":{}}"#).is_none());
}

#[test]
fn requests_without_prepared_state_take_the_full_way() {
    assert_eq!(real_remote_agent_bridge(&None), BridgeLeg::Full);
}

#[test]
fn a_pooled_request_that_was_written_is_never_sent_again() {
    assert_eq!(pool_attempted(Ok(None)), BridgeStep::Try(BridgeLeg::Prepared));
    assert_eq!(
        pool_attempted(Ok(Some("{}".to_string()))),
        BridgeStep::Done(Ok("{}".to_string()))
    );
    assert_eq!(pool_attempted(timed_out().map(Some)), BridgeStep::Done(timed_out()));
}

// Permits ----------------------------------------------------------------

#[test]
fn limiter_rejects_nth_plus_one_acquire_for_one_host_session() {
    let mut limiter = RemoteAgentBridgeLimiter::new(REMOTE_AGENT_BRIDGE_PER_HOST_LIMIT);

    let held: Vec<_> = (0..REMOTE_AGENT_BRIDGE_PER_HOST_LIMIT)
        .map(|_| limiter.try_acquire(&key()).expect("acquire within limit"))
        .collect();
    assert!(limiter.try_acquire(&key()).is_none());
    assert_eq!(limiter.in_flight(&key()), REMOTE_AGENT_BRIDGE_PER_HOST_LIMIT);
    for permit in held {
        limiter.release(permit);
    }
}

#[test]
fn limiter_permits_are_per_host_session() {
    let mut limiter = RemoteAgentBridgeLimiter::new(REMOTE_AGENT_BRIDGE_PER_HOST_LIMIT);
    let key_a = key();
    let key_b = RemoteHostKey::new("work-mini".to_string(), "default".to_string());

    let held_a: Vec<_> = (0..REMOTE_AGENT_BRIDGE_PER_HOST_LIMIT)
        .map(|_| limiter.try_acquire(&key_a).unwrap())
        .collect();
    assert!(limiter.try_acquire(&key_a).is_none());

    let permit_b = limiter.try_acquire(&key_b).expect("host B independent");
    assert_eq!(limiter.in_flight(&key_a), REMOTE_AGENT_BRIDGE_PER_HOST_LIMIT);
    assert_eq!(limiter.in_flight(&key_b), 1);

    limiter.release(permit_b);
    assert_eq!(limiter.in_flight(&key_b), 0);
    for permit in held_a {
        limiter.release(permit);
    }
}

#[test]
fn limiter_permit_releases_on_drop() {
    let mut limiter = RemoteAgentBridgeLimiter::new(1);

    let permit = limiter.try_acquire(&key()).unwrap();
    assert!(limiter.try_acquire(&key()).is_none());
    limiter.release(permit);
    assert!(limiter.try_acquire(&key()).is_some());
}

#[test]
fn saturated_cap_returns_remote_bridge_busy_without_permit() {
    let mut limiter = RemoteAgentBridgeLimiter::new(REMOTE_AGENT_BRIDGE_PER_HOST_LIMIT);
    let held: Vec<_> = (0..REMOTE_AGENT_BRIDGE_PER_HOST_LIMIT)
        .map(|_| limiter.try_acquire(&key()).unwrap())
        .collect();
    assert_eq!(held.len(), REMOTE_AGENT_BRIDGE_PER_HOST_LIMIT);
    assert_eq!(limiter.in_flight(&key()), REMOTE_AGENT_BRIDGE_PER_HOST_LIMIT);

    let permit = acquire_remote_agent_bridge_permit_or_busy(&mut limiter, &read_descriptor());
    assert_eq!(limiter.in_flight(&key()), REMOTE_AGENT_BRIDGE_PER_HOST_LIMIT);

    let (id, code, message) = error_of(permit.expect_err("saturated cap must not hand out a permit"));
    assert_eq!(id, "req");
    assert_eq!(code, "remote_bridge_busy");
    assert!(message.contains("jafar"));
    assert!(message.contains("default"));
    assert!(message.contains(&REMOTE_AGENT_BRIDGE_PER_HOST_LIMIT.to_string()));
}

#[test]
fn permit_releases_after_worker_bridge_error_and_mapping_stays_remote_request_failed() {
    let mut limiter = RemoteAgentBridgeLimiter::new(1);
    let permit = limiter.try_acquire(&key()).unwrap();
    assert!(limiter.try_acquire(&key()).is_none());

    let reply = run_remote_agent_dispatch_with_bridge(&read_descriptor(), timed_out());
    limiter.release(permit);
    assert!(limiter.try_acquire(&key()).is_some());

    let (id, code, message) = error_of(reply);
    assert_eq!(id, "req");
    assert_eq!(code, "remote_request_failed");
    assert!(message.contains("simulated bridge timeout"));
}

#[test]
fn with_limiter_saturated_sends_busy_and_does_not_invoke_bridge() {
    let mut limiter = RemoteAgentBridgeLimiter::new(1);
    let _held = limiter.try_acquire(&key()).expect("acquire within limit");

    // The refusal is the whole outcome: there is no permit with which a worker
    // could be started.
    let refusal = acquire_remote_agent_bridge_permit_or_busy(&mut limiter, &read_descriptor())
        .expect_err("no permit");
    let (id, code, _) = error_of(refusal);
    assert_eq!(id, "req");
    assert_eq!(code, "remote_bridge_busy");
    assert_eq!(limiter.in_flight(&key()), 1);
}

#[test]
fn a_free_cap_hands_out_its_permit() {
    let mut limiter = RemoteAgentBridgeLimiter::new(1);
    let permit = acquire_remote_agent_bridge_permit_or_busy(&mut limiter, &read_descriptor())
        .expect("a permit");
    assert_eq!(limiter.in_flight(&key()), 1);
    assert_eq!(limiter.limit(), 1);
    limiter.release(permit);
    assert_eq!(limiter.in_flight(&key()), 0);
}

#[test]
fn remote_agent_method_name_classifies_routed_methods() {
    assert_eq!(
        remote_agent_method_name(&Method::AgentRead(read_params("t"))),
        "agent.read"
    );
    assert_eq!(
        remote_agent_method_name(&Method::AgentFocus(AgentTarget { target: "t".to_string() })),
        "agent.focus"
    );
    assert_eq!(
        remote_agent_method_name(&Method::AgentSend(AgentSendParams {
            target: "t".to_string(),
            text: "secret-text".to_string(),
        })),
        "agent.send"
    );
    assert_eq!(
        remote_agent_method_name(&Method::AgentSubmit(AgentSubmitParams {
            target: "t".to_string(),
            text: "secret-text".to_string(),
        })),
        "agent.submit"
    );
    assert_eq!(
        remote_agent_method_name(&Method::AgentTeardown(AgentTeardownParams {
            target: "t".to_string(),
            confirm: true,
        })),
        "agent.teardown"
    );
    assert_eq!(
        remote_agent_method_name(&Method::AgentStart(base_start_params(Some("jafar")))),
        "agent.start"
    );
}

#[test]
fn remote_bridge_pool_cap_equals_app_layer_limiter() {
    assert_eq!(REMOTE_AGENT_BRIDGE_POOL_MAX_PER_HOST, REMOTE_AGENT_BRIDGE_PER_HOST_LIMIT);
}

#[test]
fn the_count_is_the_number_of_permits_out() {
    let mut limiter = RemoteAgentBridgeLimiter::new(2);
    let mut held = Vec::new();
    for take in [true, true, true, false, true, true, false, false] {
        if take {
            held.extend(limiter.try_acquire(&key()));
        } else {
            limiter.release(held.pop().expect("a permit is out"));
        }
        assert_eq!(limiter.in_flight(&key()), held.len());
        assert!(held.len() <= 2);
    }
    assert_eq!(limiter.in_flight(&key()), 0);
}
