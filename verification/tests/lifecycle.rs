//! Connecting, reconnecting and disconnecting remote hosts.
use std::sync::Arc;

use herdr::agent_api::handle_agent_list_local;
use herdr::lifecycle::{
    lifecycle_detail, lifecycle_result_status, LifecycleEffect, RemoteLifecycles,
    RemoteSourceLifecycleOutcome, RemoteSourceReport,
};
use herdr::remote_source::{
    RemoteApiBridgeState, RemoteConnectionStatus, RemoteHostKey, RemoteSources,
};
use herdr::remote_target::{RemoteHostConfig, RemoteHostRegistry};
use herdr::remotes::{
    RemoteLifecycleAction, RemoteLifecycleHostParams, RemoteLifecycleResult,
    RemoteLifecycleResultStatus,
};
use herdr::routed_plan::{Federation, RemoteSourceSupervisorHandle};
use herdr::schema::{AgentInfo, AgentStatus, Method, Reply, Request, ResponseResult};
use herdr::server::FederationCapabilities;
use herdr::session::Session;

const JAFAR: &str = "jafar";

fn host_key() -> RemoteHostKey {
    RemoteHostKey::new(JAFAR.to_string(), "default".to_string())
}

fn lifecycles() -> RemoteLifecycles {
    RemoteLifecycles {
        federation: Federation {
            remote_hosts: RemoteHostRegistry {
                hosts: vec![RemoteHostConfig::new(JAFAR, "jafar", "default", false)],
            },
            remote_sources: RemoteSources::new(),
            supervisors: Vec::new(),
        },
        pending: Vec::new(),
    }
}

fn test_bridge_state() -> Arc<RemoteApiBridgeState> {
    Arc::new(RemoteApiBridgeState {
        shell_path: "\"$HOME/.local/bin/herdr\"".to_string(),
        capabilities: FederationCapabilities::current(),
    })
}

fn lifecycle_request(action: RemoteLifecycleAction, host: &str) -> Request {
    let params = RemoteLifecycleHostParams { host: host.to_string() };
    let method = match action {
        RemoteLifecycleAction::Connect => Method::RemoteConnect(params),
        RemoteLifecycleAction::Reconnect => Method::RemoteReconnect(params),
        RemoteLifecycleAction::Disconnect => Method::RemoteDisconnect(params),
    };
    Request { id: "req".to_string(), method }
}

fn dispatch(
    app: &mut RemoteLifecycles,
    action: RemoteLifecycleAction,
    host: &str,
    responder: u64,
    generation: u64,
) -> Vec<LifecycleEffect> {
    app.handle_deferred_remote_lifecycle_api_request(
        &lifecycle_request(action, host),
        responder,
        generation,
    )
    .expect("a lifecycle request")
}

/// What a client was told, if it was.
fn told(effects: Vec<LifecycleEffect>, responder: u64) -> Option<Reply> {
    let mut replies: Vec<Reply> = effects
        .into_iter()
        .filter_map(|effect| match effect {
            LifecycleEffect::Respond { responder: to, reply } if to == responder => Some(reply),
            _ => None,
        })
        .collect();
    assert!(replies.len() <= 1, "nobody is told twice");
    replies.pop()
}

fn result_of(reply: Reply) -> RemoteLifecycleResult {
    match reply {
        Reply::Success { id, result: ResponseResult::RemoteLifecycle { result } } => {
            assert_eq!(id, "req");
            result
        }
        other => panic!("expected RemoteLifecycle result, got {other:?}"),
    }
}

fn error_code(reply: Reply) -> String {
    match reply {
        Reply::Error { id, error } => {
            assert_eq!(id, "req");
            error.code
        }
        other => panic!("expected an error, got {other:?}"),
    }
}

fn count_supervisors(app: &RemoteLifecycles) -> usize {
    app.federation.supervisors.iter().filter(|handle| handle.host_key == host_key()).count()
}

fn active_generation(app: &RemoteLifecycles) -> u64 {
    app.federation
        .supervisors
        .iter()
        .find(|handle| handle.host_key == host_key())
        .map(|handle| handle.generation)
        .expect("active supervisor handle for host")
}

fn pending_generation(app: &RemoteLifecycles) -> Option<u64> {
    app.pending.iter().find(|p| p.host_key == host_key()).map(|p| p.generation)
}

fn status(app: &RemoteLifecycles) -> Option<RemoteConnectionStatus> {
    app.federation.remote_sources.host_status(&host_key())
}

fn standalone_remote_agent(terminal_id: &str, name: &str) -> AgentInfo {
    AgentInfo {
        terminal_id: terminal_id.to_string(),
        name: Some(name.to_string()),
        agent: Some(name.to_string()),
        title: None,
        display_agent: Some(name.to_string()),
        agent_status: AgentStatus::Working,
        screen_detection_skipped: false,
        custom_status: None,
        state_labels: Arc::new(Vec::new()),
        agent_session: None,
        workspace_id: "remote-ws".to_string(),
        tab_id: "remote-tab".to_string(),
        pane_id: format!("{terminal_id}-pane"),
        focused: false,
        cwd: None,
        foreground_cwd: None,
        revision: 1,
    }
}

#[test]
fn lifecycle_result_status_maps_every_connection_status() {
    assert_eq!(
        lifecycle_result_status(RemoteConnectionStatus::Connected),
        RemoteLifecycleResultStatus::Connected
    );
    assert_eq!(
        lifecycle_result_status(RemoteConnectionStatus::Disconnected),
        RemoteLifecycleResultStatus::Disconnected
    );
    assert_eq!(
        lifecycle_result_status(RemoteConnectionStatus::NeedsUpdate),
        RemoteLifecycleResultStatus::NeedsUpdate
    );
    assert_eq!(
        lifecycle_result_status(RemoteConnectionStatus::Unreachable),
        RemoteLifecycleResultStatus::Unreachable
    );
}

#[test]
fn lifecycle_detail_only_advises_on_failure() {
    assert!(lifecycle_detail(RemoteLifecycleResultStatus::Connected).is_none());
    assert!(lifecycle_detail(RemoteLifecycleResultStatus::Disconnected).is_some());
    assert!(lifecycle_detail(RemoteLifecycleResultStatus::Unreachable)
        .as_ref()
        .is_some_and(|d| d.contains("SSH")));
    assert!(lifecycle_detail(RemoteLifecycleResultStatus::NeedsUpdate)
        .as_ref()
        .is_some_and(|d| d.contains("remote setup")));
}

#[test]
fn connect_unknown_host_fails_with_immediate_error_before_starter() {
    let mut app = lifecycles();
    let effects = dispatch(&mut app, RemoteLifecycleAction::Connect, "missing", 1, 1);
    assert_eq!(effects.len(), 1);
    assert_eq!(error_code(told(effects, 1).unwrap()), "unknown_host");
    assert_eq!(app.federation.supervisors.len(), 0);
    assert!(app.pending.is_empty());
}

#[test]
fn connect_is_idempotent_on_active_connected_host() {
    let mut app = lifecycles();
    app.federation
        .supervisors
        .push(RemoteSourceSupervisorHandle { host_key: host_key(), generation: 7 });
    app.federation.remote_sources.replace_connected_snapshot(&host_key(), Vec::new());
    assert_eq!(status(&app), Some(RemoteConnectionStatus::Connected));

    let effects = dispatch(&mut app, RemoteLifecycleAction::Connect, JAFAR, 1, 8);
    let result = result_of(told(effects, 1).unwrap());
    assert_eq!(result.host, JAFAR);
    assert_eq!(result.session, "default");
    assert_eq!(result.action, RemoteLifecycleAction::Connect);
    assert_eq!(result.status, RemoteLifecycleResultStatus::Connected);
    assert!(!result.changed, "idempotent connect reports no change");
    assert!(result.remote_authoritative);
    assert_eq!(count_supervisors(&app), 1);
    assert_eq!(active_generation(&app), 7);
    assert!(pending_generation(&app).is_none());
}

#[test]
fn connect_on_unhealthy_starts_one_fresh_supervisor_and_resolves_on_success() {
    let mut app = lifecycles();

    let effects = dispatch(&mut app, RemoteLifecycleAction::Connect, JAFAR, 1, 3);
    assert!(
        told(effects, 1).is_none(),
        "connect must not respond before its generation completes"
    );
    assert_eq!(count_supervisors(&app), 1);
    let generation = active_generation(&app);
    assert_eq!(generation, 3);
    assert!(pending_generation(&app).is_some());

    assert!(app.apply_source_report(
        &host_key(),
        generation,
        RemoteSourceReport::BridgeState(test_bridge_state()),
    ));
    assert_eq!(status(&app), Some(RemoteConnectionStatus::Connected));
    let effect = app.handle_remote_lifecycle_attempt(
        &host_key(),
        generation,
        RemoteSourceLifecycleOutcome::Connected,
    );

    let result = result_of(told(effect.into_iter().collect(), 1).unwrap());
    assert_eq!(result.status, RemoteLifecycleResultStatus::Connected);
    assert!(result.changed);
    assert_eq!(count_supervisors(&app), 1);
    assert!(pending_generation(&app).is_none());
}

#[test]
fn connect_failure_resolves_with_actionable_status_and_keeps_supervisor() {
    let mut app = lifecycles();
    dispatch(&mut app, RemoteLifecycleAction::Connect, JAFAR, 1, 3);
    let generation = active_generation(&app);

    app.apply_source_report(
        &host_key(),
        generation,
        RemoteSourceReport::Disconnected(RemoteConnectionStatus::Unreachable),
    );
    let effect = app.handle_remote_lifecycle_attempt(
        &host_key(),
        generation,
        RemoteSourceLifecycleOutcome::Disconnected(RemoteConnectionStatus::Unreachable),
    );

    let result = result_of(told(effect.into_iter().collect(), 1).unwrap());
    assert_eq!(
        result.status,
        RemoteLifecycleResultStatus::Unreachable,
        "failure surfaces a non-Connected actionable status"
    );
    assert!(result.changed);
    assert!(result.detail.as_ref().is_some_and(|d| d.contains("SSH")));
    assert_eq!(count_supervisors(&app), 1);
}

#[test]
fn reconnect_always_retires_and_starts_one_fresh_supervisor() {
    let mut app = lifecycles();
    app.federation
        .supervisors
        .push(RemoteSourceSupervisorHandle { host_key: host_key(), generation: 5 });
    app.federation.remote_sources.replace_connected_snapshot(&host_key(), Vec::new());

    let effects = dispatch(&mut app, RemoteLifecycleAction::Reconnect, JAFAR, 1, 6);
    assert!(
        effects.iter().any(|effect| matches!(
            effect,
            LifecycleEffect::CancelQueued { host } if *host == host_key()
        )),
        "what waits for the host is taken back"
    );
    assert!(
        told(effects, 1).is_none(),
        "reconnect must not respond before its generation completes"
    );
    assert_eq!(count_supervisors(&app), 1);
    let generation = active_generation(&app);
    assert_ne!(generation, 5, "reconnect started a fresh generation");
    assert_eq!(status(&app), Some(RemoteConnectionStatus::Disconnected));

    app.apply_source_report(
        &host_key(),
        generation,
        RemoteSourceReport::BridgeState(test_bridge_state()),
    );
    let effect = app.handle_remote_lifecycle_attempt(
        &host_key(),
        generation,
        RemoteSourceLifecycleOutcome::Connected,
    );
    let result = result_of(told(effect.into_iter().collect(), 1).unwrap());
    assert_eq!(result.status, RemoteLifecycleResultStatus::Connected);
    assert!(result.changed);
}

#[test]
fn reconnect_supersedes_prior_generation_and_rejects_late_events() {
    let mut app = lifecycles();

    let first = dispatch(&mut app, RemoteLifecycleAction::Connect, JAFAR, 1, 1);
    let gen_n = active_generation(&app);
    assert!(told(first, 1).is_none());

    let second = dispatch(&mut app, RemoteLifecycleAction::Reconnect, JAFAR, 2, 2);
    assert_eq!(
        error_code(told(second, 1).expect("the superseded client is told")),
        "remote_lifecycle_superseded"
    );
    let gen_n1 = active_generation(&app);
    assert_ne!(gen_n, gen_n1);
    assert_eq!(count_supervisors(&app), 1);

    assert!(!app.apply_source_report(
        &host_key(),
        gen_n,
        RemoteSourceReport::BridgeState(test_bridge_state()),
    ));
    assert_ne!(
        status(&app),
        Some(RemoteConnectionStatus::Connected),
        "stale generation N event must not mark the host Connected"
    );
    assert!(
        app.handle_remote_lifecycle_attempt(
            &host_key(),
            gen_n,
            RemoteSourceLifecycleOutcome::Connected,
        )
        .is_none(),
        "generation N+1 responder must stay pending"
    );

    app.apply_source_report(
        &host_key(),
        gen_n1,
        RemoteSourceReport::BridgeState(test_bridge_state()),
    );
    let effect = app.handle_remote_lifecycle_attempt(
        &host_key(),
        gen_n1,
        RemoteSourceLifecycleOutcome::Connected,
    );
    let result = result_of(told(effect.into_iter().collect(), 2).unwrap());
    assert_eq!(result.status, RemoteLifecycleResultStatus::Connected);
}

/// Asks for a disconnect and lets its drain finish.
fn disconnect(app: &mut RemoteLifecycles, responder: u64, generation: u64) -> RemoteLifecycleResult {
    let effects = dispatch(app, RemoteLifecycleAction::Disconnect, JAFAR, responder, generation);
    assert!(effects.iter().any(|effect| matches!(
        effect,
        LifecycleEffect::DrainPool { host, generation: drained }
            if *host == host_key() && *drained == generation
    )));
    assert!(told(effects, responder).is_none());
    let effect = app.handle_remote_pool_drain_completed(&host_key(), generation);
    result_of(told(effect.into_iter().collect(), responder).expect("answered after the drain"))
}

#[test]
fn disconnect_is_idempotent_and_marks_disconnected_preserving_stale_data() {
    let mut app = lifecycles();
    app.federation
        .supervisors
        .push(RemoteSourceSupervisorHandle { host_key: host_key(), generation: 3 });
    app.federation.remote_sources.replace_connected_snapshot(
        &host_key(),
        vec![standalone_remote_agent("term-1", "codex")],
    );
    assert_eq!(status(&app), Some(RemoteConnectionStatus::Connected));

    let result = disconnect(&mut app, 1, 4);
    assert_eq!(result.status, RemoteLifecycleResultStatus::Disconnected);
    assert!(result.changed, "disconnect of a live host reports a change");
    assert!(result.remote_authoritative);
    assert_eq!(count_supervisors(&app), 0);
    assert_eq!(status(&app), Some(RemoteConnectionStatus::Disconnected));
    assert_eq!(
        app.federation.remote_sources.list_entries().len(),
        1,
        "last-known agent data preserved as stale"
    );

    let result2 = disconnect(&mut app, 2, 5);
    assert_eq!(result2.status, RemoteLifecycleResultStatus::Disconnected);
    assert!(!result2.changed, "already-disconnected reports no change");
}

#[test]
fn disconnect_of_never_cached_host_is_true_noop_with_no_cache_entry() {
    let mut app = lifecycles();
    assert!(status(&app).is_none());
    assert!(app.remote_host_session_is_configured(&host_key()));

    let result = disconnect(&mut app, 1, 1);
    assert_eq!(result.status, RemoteLifecycleResultStatus::Disconnected);
    assert!(!result.changed, "never-cached disconnect reports no change");
    assert_eq!(count_supervisors(&app), 0);
    assert!(
        status(&app).is_none(),
        "no cache entry created for a never-cached disconnect"
    );
    assert!(app.remote_host_session_is_configured(&host_key()));
}

#[test]
fn lifecycle_request_defers_and_loop_continues_with_blocked_worker() {
    let mut app = lifecycles();
    let effects = dispatch(&mut app, RemoteLifecycleAction::Connect, JAFAR, 1, 1);
    assert!(
        told(effects, 1).is_none(),
        "lifecycle responder must stay pending while the worker is blocked"
    );
    assert!(pending_generation(&app).is_some());

    let local = Request { id: "local".to_string(), method: Method::AgentListLocal };
    assert!(
        app.handle_deferred_remote_lifecycle_api_request(&local, 2, 2).is_none(),
        "an unrelated request is not a lifecycle request"
    );
    let reply = handle_agent_list_local(&Session::new(), &local.id);
    assert!(matches!(reply, Reply::Success { id, .. } if id == "local"));
}

#[test]
fn supersede_all_pending_resolves_each_with_deterministic_error() {
    let mut app = lifecycles();
    dispatch(&mut app, RemoteLifecycleAction::Connect, JAFAR, 1, 1);
    let generation = active_generation(&app);
    assert!(pending_generation(&app).is_some());

    let effects = app.supersede_all_pending_remote_lifecycle();
    assert_eq!(error_code(told(effects, 1).unwrap()), "remote_lifecycle_superseded");
    assert!(pending_generation(&app).is_none());

    let late = app.handle_remote_lifecycle_attempt(
        &host_key(),
        generation,
        RemoteSourceLifecycleOutcome::Connected,
    );
    assert!(late.is_none());
    assert!(pending_generation(&app).is_none());
}

#[test]
fn explicit_connect_events_admitted_only_for_active_generation() {
    let mut app = lifecycles();
    dispatch(&mut app, RemoteLifecycleAction::Connect, JAFAR, 1, 1);
    let generation = active_generation(&app);

    assert!(app.apply_source_report(
        &host_key(),
        generation,
        RemoteSourceReport::BridgeState(test_bridge_state()),
    ));
    assert_eq!(status(&app), Some(RemoteConnectionStatus::Connected));
    assert!(!app.apply_source_report(
        &host_key(),
        generation + 1,
        RemoteSourceReport::Disconnected(RemoteConnectionStatus::Unreachable),
    ));
    assert_eq!(status(&app), Some(RemoteConnectionStatus::Connected));
}

#[test]
fn a_connection_needs_its_own_status_to_be_healthy() {
    let mut app = lifecycles();
    app.federation
        .supervisors
        .push(RemoteSourceSupervisorHandle { host_key: host_key(), generation: 7 });
    assert!(!app.host_has_active_connected_supervisor(&host_key()));
    app.federation.remote_sources.replace_connected_snapshot(&host_key(), Vec::new());
    assert!(app.host_has_active_connected_supervisor(&host_key()));
    assert!(app.retire_supervisor_for_host(&host_key()));
    assert!(!app.retire_supervisor_for_host(&host_key()));
    assert!(!app.host_has_active_connected_supervisor(&host_key()));
}

#[test]
fn actions_name_their_methods() {
    assert_eq!(RemoteLifecycleAction::Connect.method_name(), "remote.connect");
    assert_eq!(RemoteLifecycleAction::Reconnect.method_name(), "remote.reconnect");
    assert_eq!(RemoteLifecycleAction::Disconnect.method_name(), "remote.disconnect");
    assert_eq!(RemoteLifecycleAction::Connect.label(), "connect");
    assert_eq!(RemoteLifecycleAction::Reconnect.label(), "reconnect");
    assert_eq!(RemoteLifecycleAction::Disconnect.label(), "disconnect");
}

#[test]
fn lifecycle_methods_are_not_federated() {
    let capabilities = FederationCapabilities::current();
    for method in ["remote.connect", "remote_connect", "remote_reconnect", "remote_disconnect"] {
        assert!(!capabilities.supports_method(method));
    }
    for action in [
        RemoteLifecycleAction::Connect,
        RemoteLifecycleAction::Reconnect,
        RemoteLifecycleAction::Disconnect,
    ] {
        assert!(!capabilities.supports_method(action.method_name()));
        assert!(!capabilities.supports_method(action.label()));
    }
    assert!(capabilities.supports_method(FederationCapabilities::AGENT_READ));
    assert!(capabilities.supports_method(FederationCapabilities::PANE_FOCUS_DIRECTION));
}

#[test]
fn a_lost_host_takes_back_what_is_queued_for_it() {
    let mut app = lifecycles();
    dispatch(&mut app, RemoteLifecycleAction::Connect, JAFAR, 1, 3);
    let up = app.handle_source_report(
        &host_key(),
        3,
        RemoteSourceReport::BridgeState(test_bridge_state()),
    );
    assert!(up.is_empty());
    assert_eq!(status(&app), Some(RemoteConnectionStatus::Connected));

    let late = app.handle_source_report(
        &host_key(),
        2,
        RemoteSourceReport::Disconnected(RemoteConnectionStatus::Unreachable),
    );
    assert!(late.is_empty(), "a replaced supervisor cancels nothing");
    assert_eq!(status(&app), Some(RemoteConnectionStatus::Connected));

    let lost = app.handle_source_report(
        &host_key(),
        3,
        RemoteSourceReport::Disconnected(RemoteConnectionStatus::Unreachable),
    );
    assert_eq!(lost, vec![LifecycleEffect::CancelQueued { host: host_key() }]);
    assert_eq!(status(&app), Some(RemoteConnectionStatus::Unreachable));
    assert_eq!(app.federation.remote_sources.hosts.len(), 1, "one entry per host");
}

#[test]
fn clients_wait_under_generations_of_their_own() {
    let mut app = lifecycles();
    dispatch(&mut app, RemoteLifecycleAction::Connect, JAFAR, 1, 3);
    dispatch(&mut app, RemoteLifecycleAction::Reconnect, JAFAR, 2, 4);
    let waiting: Vec<u64> = app.pending.iter().map(|pending| pending.generation).collect();
    assert_eq!(waiting, vec![4]);
}
