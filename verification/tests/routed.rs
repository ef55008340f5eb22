//! Planning, queueing, running and finishing changes on remote hosts.
use std::sync::Arc;

use herdr::bridge_limiter::RemoteAgentBridgeLimiter;
use herdr::lifecycle::{LifecycleEffect, RemoteLifecycles};
use herdr::remote_source::{
    RemoteApiBridgeState, RemoteConnectionStatus, RemoteHostKey, RemoteProjectionStatus,
    RemoteSourceCapabilities, RemoteSources, RemoteSpaceKey,
};
use herdr::remote_target::{RemoteHostConfig, RemoteHostRegistry};
use herdr::routed_exec::{
    resolve_sink_terminal, sequence_is_clean_success, taxonomy_choice, AnswerKind, PrimaryOutcome,
    RefreshLegOutcome, RoutedActiveTabFetch, RoutedCompletion, RoutedEnqueueError,
    RoutedExecutorPool, RoutedRefreshData, RoutedTaxonomy, SequenceFinal, SinkEffect,
    TaxonomyChoice, TerminalOutcome, ROUTED_MUTATION_QUEUE_DEPTH,
};
use herdr::routed_plan::{
    CompletionSink, Federation, PreferredTabFromPrimary, RemoteSourceSupervisorHandle, RoutedApply,
    RoutedPlanOutcome, RoutedRefreshSpec, RoutedSequenceDescriptor, RoutedSequenceSpec,
};
use herdr::routed_reduce::apply_routed_completion;
use herdr::routed_run::{
    DeferredRoutedOutcome, PermitDecision, PermitWait, PoolAction, RoutedTiming, WorkerEnd,
};
use herdr::schema::{
    AgentStatus, LayoutDescription, LayoutNode, LayoutPane, Method, PaneDirection,
    PaneFocusDirectionParams, PaneInfo, PaneRenameParams, PaneTarget, Reply, Request,
    ResponseResult, TabCloseParams, TabInfo, WorkspaceCreateParams, WorkspaceInfo,
    WorkspaceRenameParams,
};
use herdr::server::FederationCapabilities;

fn test_host(name: &str) -> RemoteHostConfig {
    RemoteHostConfig::new(name, name, "default", true)
}

fn key_of(name: &str) -> RemoteHostKey {
    RemoteHostKey::new(name.to_string(), "default".to_string())
}

fn federation_with(name: &str) -> Federation {
    Federation {
        remote_hosts: RemoteHostRegistry { hosts: vec![test_host(name)] },
        remote_sources: RemoteSources::new(),
        supervisors: Vec::new(),
    }
}

fn workspace_info(workspace_id: &str) -> WorkspaceInfo {
    WorkspaceInfo {
        workspace_id: workspace_id.to_string(),
        number: 1,
        label: workspace_id.to_string(),
        focused: true,
        pane_count: 1,
        tab_count: 1,
        active_tab_id: "tab-1".to_string(),
        agent_status: AgentStatus::Unknown,
        worktree: None,
    }
}

fn tab_info(tab_id: &str, workspace_id: &str, number: usize, label: &str) -> TabInfo {
    TabInfo {
        tab_id: tab_id.to_string(),
        workspace_id: workspace_id.to_string(),
        number,
        label: label.to_string(),
        focused: true,
        pane_count: 1,
        agent_status: AgentStatus::Unknown,
    }
}

fn mark_connected_with_workspace(federation: &mut Federation, name: &str) -> RemoteHostKey {
    let key = key_of(name);
    federation.remote_sources.replace_connected_snapshot(&key, Vec::new());
    federation.remote_sources.replace_workspace_snapshot(&key, vec![workspace_info("ws-1")]);
    federation.remote_sources.set_capabilities(
        &key,
        RemoteSourceCapabilities {
            workspace_rename: true,
            workspace_create: true,
            ..RemoteSourceCapabilities::default()
        },
    );
    federation.remote_sources.set_connected_bridge_state(
        &key,
        Arc::new(RemoteApiBridgeState {
            shell_path: "\"$HOME/.local/bin/herdr\"".to_string(),
            capabilities: FederationCapabilities::current(),
        }),
    );
    assert_eq!(
        federation.remote_sources.host_status(&key),
        Some(RemoteConnectionStatus::Connected)
    );
    key
}

fn rename_request(host: &str, id: &str) -> Request {
    Request {
        id: id.to_string(),
        method: Method::WorkspaceRename(WorkspaceRenameParams {
            workspace_id: format!("{host}/workspace:ws-1"),
            label: "renamed".to_string(),
        }),
    }
}

fn mutation_descriptor(name: &str, responder: u64) -> RoutedSequenceDescriptor {
    let id = format!("test-mut-{name}");
    RoutedSequenceDescriptor {
        host_key: key_of(name),
        host: test_host(name),
        source_generation: None,
        bridge_state: None,
        spec: RoutedSequenceSpec {
            primary: Request {
                id: id.clone(),
                method: Method::WorkspaceRename(WorkspaceRenameParams {
                    workspace_id: "ws-1".to_string(),
                    label: "renamed".to_string(),
                }),
            },
            refresh: None,
            tab_list_capable: false,
            layout_export_capable: false,
            apply: RoutedApply::WorkspaceUpsert,
        },
        sink: Some(CompletionSink::ApiResponder { responder, request_id: id }),
    }
}

fn mutation_descriptor_with_refresh(name: &str, responder: u64) -> RoutedSequenceDescriptor {
    let mut descriptor = mutation_descriptor(name, responder);
    descriptor.spec.refresh = Some(RoutedRefreshSpec {
        workspace_id: "ws-1".to_string(),
        preferred_tab_id: None,
        preferred_from_primary: PreferredTabFromPrimary::Unset,
    });
    descriptor.spec.tab_list_capable = true;
    descriptor
}

fn create_descriptor(name: &str, token: u64) -> RoutedSequenceDescriptor {
    RoutedSequenceDescriptor {
        host_key: key_of(name),
        host: test_host(name),
        source_generation: None,
        bridge_state: None,
        spec: RoutedSequenceSpec {
            primary: Request {
                id: format!("create-{token}"),
                method: Method::WorkspaceCreate(WorkspaceCreateParams {
                    cwd: None,
                    focus: true,
                    label: None,
                    env: Arc::new(Vec::new()),
                }),
            },
            refresh: None,
            tab_list_capable: false,
            layout_export_capable: false,
            apply: RoutedApply::WorkspaceCreate { token },
        },
        sink: Some(CompletionSink::UiCreate { token }),
    }
}

const RENAMED: &str = r#"{"id":"x","result":{"type":"workspace_info","workspace":{"label":"renamed"}}}"#;

/// A host's answer that the workspace was renamed.
fn renamed() -> PrimaryOutcome {
    let mut workspace = workspace_info("ws-1");
    workspace.label = "renamed".to_string();
    workspace.focused = false;
    PrimaryOutcome::Answered {
        text: RENAMED.to_string(),
        kind: AnswerKind::Success(ResponseResult::WorkspaceInfo { workspace }),
    }
}

fn failed(message: &str) -> PrimaryOutcome {
    PrimaryOutcome::Failed { message: message.to_string() }
}

fn finished(primary: PrimaryOutcome, refresh: RefreshLegOutcome, wrote: bool) -> SequenceFinal {
    SequenceFinal { primary, refresh, wrote }
}

fn text_of(reply: &Reply) -> String {
    match reply {
        Reply::Error { error, .. } => format!("{} {}", error.code, error.message),
        Reply::Forwarded { text } => text.clone(),
        Reply::Success { result, .. } => format!("{result:?}"),
    }
}

/// What the one client named was told; each client is told at most once.
fn told(effects: &[SinkEffect], responder: u64) -> Option<String> {
    let replies: Vec<String> = effects
        .iter()
        .filter_map(|effect| match effect {
            SinkEffect::Respond { responder: to, reply } if *to == responder => {
                Some(text_of(reply))
            }
            _ => None,
        })
        .collect();
    assert!(replies.len() <= 1, "nobody is told twice: {replies:?}");
    replies.into_iter().next()
}

fn recoveries(effects: &[SinkEffect]) -> usize {
    effects.iter().filter(|e| matches!(e, SinkEffect::RecoveryNeeded { .. })).count()
}

fn completion(effects: &[SinkEffect]) -> Option<&RoutedCompletion> {
    effects.iter().find_map(|effect| match effect {
        SinkEffect::SequenceCompleted { outcome, .. } => Some(outcome),
        _ => None,
    })
}

fn failed_creates(effects: &[SinkEffect]) -> Vec<u64> {
    effects
        .iter()
        .filter_map(|effect| match effect {
            SinkEffect::CreateFailed { token, .. } => Some(*token),
            _ => None,
        })
        .collect()
}

/// Queues a sequence and lets the worker take it.
fn started(pool: &mut RoutedExecutorPool, descriptor: RoutedSequenceDescriptor) -> RoutedSequenceDescriptor {
    let key = descriptor.host_key.clone();
    assert_eq!(pool.enqueue(descriptor), Ok(true));
    pool.next_sequence(&key).expect("the queued sequence")
}

// Ends of a sequence -----------------------------------------------------

#[test]
fn api_sink_resolves_exactly_once_on_normal_completion() {
    let mut pool = RoutedExecutorPool::new();
    let key = key_of("sink");
    let descriptor = started(&mut pool, mutation_descriptor("sink", 7));

    let (_, effects) = pool.sequence_ended(
        &key,
        descriptor,
        WorkerEnd::Finished {
            final_: finished(renamed(), RefreshLegOutcome::NotRun, true),
            handed_back: false,
        },
        false,
    );
    let response = told(&effects, 7).expect("answered");
    assert!(response.contains("renamed"), "response: {response}");
    assert!(effects.iter().any(|effect| matches!(
        effect,
        SinkEffect::SequenceCompleted { generation: 0, .. }
    )));
    assert_eq!(recoveries(&effects), 0);
    assert_eq!(effects.len(), 2);
}

#[test]
fn pre_write_transport_failure_resolves_retryable_error_and_releases_permit() {
    let mut limiter = RemoteAgentBridgeLimiter::new(4);
    let mut pool = RoutedExecutorPool::new();
    let key = key_of("prewrite");
    let descriptor = started(&mut pool, mutation_descriptor("prewrite", 7));
    let permit = limiter.try_acquire(&key).expect("permit");

    let effects = RoutedExecutorPool::sequence_not_opened(
        descriptor,
        "test starter failure (pre-write)".to_string(),
    );
    limiter.release(permit);

    let response = told(&effects, 7).expect("answered");
    assert!(response.contains("remote_request_failed"), "response: {response}");
    assert!(!response.contains("indeterminate"));
    assert_eq!(limiter.in_flight(&key), 0);
    assert!(
        completion(&effects).is_none(),
        "pre-write failure must not emit a completion event"
    );
}

#[test]
fn saturated_permit_wait_expires_with_busy_error_not_a_reconnect() {
    let mut limiter = RemoteAgentBridgeLimiter::new(4);
    let key = key_of("permit-saturated");
    let held: Vec<_> =
        (0..limiter.limit()).map(|_| limiter.try_acquire(&key).expect("permit")).collect();
    assert_eq!(held.len(), limiter.limit());

    let timing =
        RoutedTiming { permit_poll_ms: 5, starvation_after_ms: 50, permit_wait_max_ms: 300 };
    let mut wait = PermitWait::begin(1000, timing);
    let mut now = 1000;
    let mut warnings = 0;
    loop {
        let acquired = limiter.try_acquire(&key).is_some();
        match wait.step(acquired, now, timing) {
            PermitDecision::Proceed => panic!("no permit is free"),
            PermitDecision::GiveUp => break,
            PermitDecision::Retry { warn } => {
                if warn {
                    warnings += 1;
                }
                now += timing.permit_poll_ms;
                assert!(now <= 1300 + timing.permit_poll_ms, "the wait is bounded");
            }
        }
    }
    assert!(now >= 1300);
    assert!(warnings >= 1, "a long wait is warned of");

    let effects = RoutedExecutorPool::sequence_gave_up(mutation_descriptor("permit-saturated", 7));
    let response = told(&effects, 7).expect("busy response");
    assert!(response.contains("remote_bridge_busy"), "response: {response}");
    assert_eq!(
        recoveries(&effects),
        0,
        "permit-wait expiry must never trigger a reconnect"
    );
}

#[test]
fn a_free_permit_ends_the_wait() {
    let timing = RoutedTiming::production();
    let mut wait = PermitWait::begin(0, timing);
    assert_eq!(wait.step(true, 0, timing), PermitDecision::Proceed);
    assert_eq!(timing.permit_wait_max_ms, 30000);
}

#[test]
fn post_write_transport_error_never_parks_the_connection_and_reconnects_once() {
    let mut pool = RoutedExecutorPool::new();
    let key = key_of("pooled-fail");
    let descriptor = started(&mut pool, mutation_descriptor("pooled-fail", 7));

    let (action, effects) = pool.sequence_ended(
        &key,
        descriptor,
        WorkerEnd::Finished {
            final_: finished(failed("broken pipe"), RefreshLegOutcome::NotRun, true),
            handed_back: true,
        },
        true,
    );
    let response = told(&effects, 7).expect("answered");
    assert!(response.contains("remote_request_indeterminate"), "response: {response}");
    assert_eq!(
        action,
        PoolAction::DropAndRelease,
        "a post-write transport error must never park the connection"
    );
    assert_eq!(recoveries(&effects), 1, "exactly one reconnect request");
}

#[test]
fn refresh_leg_failure_does_not_park_the_connection() {
    let mut pool = RoutedExecutorPool::new();
    let key = key_of("pooled-refresh-fail");
    let descriptor = started(&mut pool, mutation_descriptor_with_refresh("pooled-refresh-fail", 7));

    let (action, effects) = pool.sequence_ended(
        &key,
        descriptor,
        WorkerEnd::Finished {
            final_: finished(renamed(), RefreshLegOutcome::Failed, true),
            handed_back: true,
        },
        true,
    );
    let response = told(&effects, 7).expect("answered");
    assert!(response.contains("renamed"), "response: {response}");
    assert_eq!(
        action,
        PoolAction::DropAndRelease,
        "a refresh-leg failure must never park the connection"
    );
    assert_eq!(
        completion(&effects).expect("completed").taxonomy,
        RoutedTaxonomy::PrimarySuccessPreserved
    );
    assert_eq!(recoveries(&effects), 0);
}

fn refreshed(layout: Option<LayoutDescription>) -> RefreshLegOutcome {
    RefreshLegOutcome::Data(RoutedRefreshData {
        workspace_id: "ws-1".to_string(),
        tabs: Some(vec![tab_info("tab-1", "ws-1", 1, "tab-1")]),
        active_tab: Some(RoutedActiveTabFetch {
            tab_id: Some("tab-1".to_string()),
            tab_label: Some("tab-1".to_string()),
            layout,
        }),
    })
}

fn one_pane_layout() -> LayoutDescription {
    LayoutDescription {
        workspace_id: "ws-1".to_string(),
        tab_id: "tab-1".to_string(),
        zoomed: false,
        focused_pane_id: "pane-1".to_string(),
        root: LayoutNode::Pane {
            pane: LayoutPane {
                pane_id: Some("pane-1".to_string()),
                terminal_id: Some("term-1".to_string()),
                label: None,
            },
        },
    }
}

#[test]
fn layout_export_leg_failure_does_not_park_the_connection() {
    let mut pool = RoutedExecutorPool::new();
    let key = key_of("pooled-layout-fail");
    let mut descriptor = mutation_descriptor_with_refresh("pooled-layout-fail", 7);
    descriptor.spec.layout_export_capable = true;
    let descriptor = started(&mut pool, descriptor);

    let (action, effects) = pool.sequence_ended(
        &key,
        descriptor,
        WorkerEnd::Finished {
            final_: finished(renamed(), refreshed(None), true),
            handed_back: true,
        },
        true,
    );
    let response = told(&effects, 7).expect("answered");
    assert!(response.contains("renamed"), "response: {response}");
    assert_eq!(
        action,
        PoolAction::DropAndRelease,
        "a layout.export leg failure must never park the connection"
    );
}

#[test]
fn a_clean_sequence_parks_its_connection() {
    let mut pool = RoutedExecutorPool::new();
    let key = key_of("pooled-clean");
    let mut descriptor = mutation_descriptor_with_refresh("pooled-clean", 7);
    descriptor.spec.layout_export_capable = true;
    let descriptor = started(&mut pool, descriptor);
    let final_ = finished(renamed(), refreshed(Some(one_pane_layout())), true);
    assert!(sequence_is_clean_success(&final_, true));
    assert_eq!(taxonomy_choice(&final_), TaxonomyChoice::Completed);

    let (action, effects) = pool.sequence_ended(
        &key,
        descriptor,
        WorkerEnd::Finished { final_, handed_back: true },
        true,
    );
    assert_eq!(action, PoolAction::Park);
    assert_eq!(completion(&effects).expect("completed").taxonomy, RoutedTaxonomy::Completed);
    assert!(completion(&effects).unwrap().refresh.is_some());
}

#[test]
fn primary_parse_failure_does_not_park_the_connection() {
    let mut pool = RoutedExecutorPool::new();
    let key = key_of("pooled-parse-fail");
    let descriptor = started(&mut pool, mutation_descriptor_with_refresh("pooled-parse-fail", 7));

    let (action, effects) = pool.sequence_ended(
        &key,
        descriptor,
        WorkerEnd::Finished {
            final_: finished(
                PrimaryOutcome::Answered {
                    text: "not valid json".to_string(),
                    kind: AnswerKind::Malformed,
                },
                RefreshLegOutcome::NotRun,
                true,
            ),
            handed_back: true,
        },
        true,
    );
    let response = told(&effects, 7).expect("answered");
    assert!(response.contains("remote_request_indeterminate"), "response: {response}");
    assert!(
        !response.contains("remote_request_failed"),
        "a malformed primary must never be reported as a definite failure: {response}"
    );
    assert_eq!(
        action,
        PoolAction::DropAndRelease,
        "a malformed primary response must never park the connection"
    );
    assert_eq!(
        recoveries(&effects),
        1,
        "a malformed primary must trigger exactly one reconnect escalation"
    );
}

#[test]
fn authoritative_error_response_is_forwarded_verbatim_with_no_reconnect_or_refresh() {
    let mut pool = RoutedExecutorPool::new();
    let key = key_of("pooled-authoritative-error");
    let descriptor =
        started(&mut pool, mutation_descriptor_with_refresh("pooled-authoritative-error", 7));

    let (action, effects) = pool.sequence_ended(
        &key,
        descriptor,
        WorkerEnd::Finished {
            final_: finished(
                PrimaryOutcome::Answered {
                    text: r#"{"id":"x","error":{"code":"pane_not_found","message":"no such pane"}}"#
                        .to_string(),
                    kind: AnswerKind::Error { message: "no such pane".to_string() },
                },
                RefreshLegOutcome::NotRun,
                true,
            ),
            handed_back: true,
        },
        true,
    );
    let response = told(&effects, 7).expect("answered");
    assert!(
        response.contains("pane_not_found"),
        "authoritative error must be forwarded verbatim: {response}"
    );
    assert!(
        !response.contains("remote_request_indeterminate")
            && !response.contains("remote_request_failed"),
        "an authoritative error must never be reinterpreted as indeterminate/failed: {response}"
    );
    assert_eq!(
        action,
        PoolAction::Park,
        "an authoritative error must be treated as a clean sequence and parked, not dropped"
    );
    assert_eq!(
        recoveries(&effects),
        0,
        "an authoritative error must never trigger a reconnect"
    );
    let value: serde_json::Value = serde_json::from_str(&response).unwrap();
    assert_eq!(value["id"], "test-mut-pooled-authoritative-error");
}

#[test]
fn post_write_failure_reports_indeterminate_marks_stale_and_reconnects_once() {
    let mut pool = RoutedExecutorPool::new();
    let key = key_of("prewrite-indet");
    let descriptor = started(&mut pool, mutation_descriptor_with_refresh("prewrite-indet", 7));

    let (action, effects) = pool.sequence_ended(
        &key,
        descriptor,
        WorkerEnd::Finished {
            final_: finished(failed("broken pipe"), RefreshLegOutcome::NotRun, true),
            handed_back: false,
        },
        false,
    );
    assert_eq!(action, PoolAction::Nothing);
    let response = told(&effects, 7).expect("answered");
    assert!(response.contains("remote_request_indeterminate"), "response: {response}");

    let outcome = completion(&effects).expect("stale-marking completion event emitted");
    assert_eq!(outcome.taxonomy, RoutedTaxonomy::IndeterminateAfterWrite);
    assert_eq!(outcome.stale_workspace_id.as_deref(), Some("ws-1"));
    assert_eq!(recoveries(&effects), 1, "exactly one reconnect request");
}

#[test]
fn indeterminate_completion_cancels_next_queued_descriptor_before_it_runs() {
    let mut pool = RoutedExecutorPool::new();
    let key = key_of("recovery-race");
    let first = started(&mut pool, mutation_descriptor("recovery-race", 1));
    assert_eq!(pool.enqueue(mutation_descriptor("recovery-race", 2)), Ok(false));

    let effects = pool.resolve_normal(
        &key,
        first,
        finished(failed("broken pipe"), RefreshLegOutcome::NotRun, true),
    );
    let response1 = told(&effects, 1).expect("answered");
    assert!(response1.contains("remote_request_indeterminate"), "response: {response1}");
    let response2 = told(&effects, 2).expect("cancelled");
    assert!(response2.contains("remote_request_cancelled"), "response: {response2}");
    assert!(
        pool.next_sequence(&key).is_none(),
        "descriptor #2 must never have reached the transport"
    );
}

#[test]
fn newer_sequences_survive_an_older_ones_uncertain_end() {
    let mut pool = RoutedExecutorPool::new();
    let key = key_of("generations");
    let mut first = mutation_descriptor("generations", 1);
    first.source_generation = Some(4);
    let first = started(&mut pool, first);
    let mut newer = mutation_descriptor("generations", 2);
    newer.source_generation = Some(5);
    assert_eq!(pool.enqueue(newer), Ok(false));

    let effects = pool.resolve_normal(
        &key,
        first,
        finished(failed("broken pipe"), RefreshLegOutcome::NotRun, true),
    );
    assert!(told(&effects, 2).is_none());
    let next = pool.next_sequence(&key).expect("the newer sequence still waits");
    assert_eq!(next.source_generation, Some(5));
}

#[test]
fn pre_write_connect_failure_over_one_shot_leg_reports_safe_to_retry() {
    let mut pool = RoutedExecutorPool::new();
    let key = key_of("leg-prewrite");
    let descriptor = started(&mut pool, mutation_descriptor("leg-prewrite", 7));

    let effects = pool.resolve_normal(
        &key,
        descriptor,
        finished(failed("connection refused"), RefreshLegOutcome::NotRun, false),
    );
    let response = told(&effects, 7).expect("answered");
    assert!(response.contains("remote_request_failed"), "response: {response}");
    assert!(
        !response.contains("indeterminate"),
        "a pre-write connect failure must never be reported as indeterminate: {response}"
    );
    assert_eq!(
        recoveries(&effects),
        0,
        "a pre-write connect failure must never trigger a reconnect"
    );
    assert!(completion(&effects).is_none());
}

#[test]
fn a_lost_worker_leaves_the_outcome_unknown() {
    let mut pool = RoutedExecutorPool::new();
    let key = key_of("lost");
    let descriptor = started(&mut pool, mutation_descriptor("lost", 7));
    let (action, effects) = pool.sequence_ended(&key, descriptor, WorkerEnd::Lost, true);
    assert_eq!(action, PoolAction::Release);
    let response = told(&effects, 7).expect("answered");
    assert!(response.contains("remote_request_indeterminate"), "response: {response}");
    assert!(response.contains("routed worker exited without a final message"));
    assert_eq!(recoveries(&effects), 1);
}

#[test]
fn recovery_transition_cancels_queued_descriptors() {
    let name = "recovery-cancels";
    let key = key_of(name);
    let mut app = RemoteLifecycles { federation: federation_with(name), pending: Vec::new() };
    app.federation
        .supervisors
        .push(RemoteSourceSupervisorHandle { host_key: key.clone(), generation: 41 });
    let mut pool = RoutedExecutorPool::new();
    let running = started(&mut pool, mutation_descriptor(name, 1));
    assert_eq!(pool.enqueue(mutation_descriptor(name, 2)), Ok(false));
    assert_eq!(pool.enqueue(create_descriptor(name, 55)), Ok(false));

    let effects = app
        .start_remote_routed_recovery(&"recovery".to_string(), &key, 41, 90, 42)
        .expect("the current generation recovers");
    assert!(effects.iter().any(|effect| matches!(
        effect,
        LifecycleEffect::CancelQueued { host } if *host == key
    )));
    let cancelled = pool.cancel_queued_routed_for_reconnect(&key);

    let response2 = told(&cancelled, 2).expect("cancelled");
    assert!(response2.contains("remote_request_cancelled"), "response: {response2}");
    assert!(told(&cancelled, 1).is_none(), "the running sequence is untouched");
    assert_eq!(running.spec.primary.id, "test-mut-recovery-cancels");
    assert_eq!(
        failed_creates(&cancelled),
        vec![55],
        "queued create must resolve as a terminal failure"
    );
    assert!(pool.next_sequence(&key).is_none());

    assert!(
        app.federation
            .supervisors
            .iter()
            .all(|handle| !(handle.host_key == key && handle.generation == 41)),
        "the recovery transition must retire the stale supervisor"
    );
    assert!(
        app.federation.supervisors.iter().any(|handle| handle.host_key == key),
        "the recovery transition must start a fresh supervisor"
    );
}

// Queues -----------------------------------------------------------------

#[test]
fn worker_exit_respawns_on_late_enqueue_without_lost_wakeup() {
    let mut pool = RoutedExecutorPool::new();
    let key = key_of("respawn");
    let first = started(&mut pool, mutation_descriptor("respawn", 1));
    let ok = || PrimaryOutcome::Answered {
        text: r#"{"id":"fake","result":{"type":"ok"}}"#.to_string(),
        kind: AnswerKind::Success(ResponseResult::Acknowledged),
    };
    pool.resolve_normal(&key, first, finished(ok(), RefreshLegOutcome::NotRun, true));
    assert!(pool.next_sequence(&key).is_none(), "the queue is empty and the worker ends");

    assert_eq!(
        pool.enqueue(mutation_descriptor("respawn", 2)),
        Ok(true),
        "a late sequence asks for a fresh worker"
    );
    let second = pool.next_sequence(&key).expect("the late sequence");
    let effects =
        pool.resolve_normal(&key, second, finished(ok(), RefreshLegOutcome::NotRun, true));
    let response = told(&effects, 2).expect("answered");
    assert!(response.contains("result"), "response: {response}");
}

#[test]
fn sequences_run_in_the_order_they_came() {
    let mut pool = RoutedExecutorPool::new();
    let key = key_of("order");
    for responder in 0..5 {
        assert_eq!(pool.enqueue(mutation_descriptor("order", responder)), Ok(responder == 0));
    }
    for expected in 0..5 {
        let next = pool.next_sequence(&key).expect("a sequence");
        assert!(matches!(
            next.sink,
            Some(CompletionSink::ApiResponder { responder, .. }) if responder == expected
        ));
    }
    assert!(pool.next_sequence(&key).is_none());
}

#[test]
fn queues_are_per_host() {
    let mut pool = RoutedExecutorPool::new();
    for responder in 0..ROUTED_MUTATION_QUEUE_DEPTH as u64 {
        pool.enqueue(mutation_descriptor("a", responder)).expect("room");
    }
    assert_eq!(pool.enqueue(mutation_descriptor("a", 99)), Err(RoutedEnqueueError::Busy));
    assert_eq!(pool.enqueue(mutation_descriptor("b", 100)), Ok(true));
}

#[test]
fn queue_overflow_resolves_immediately_with_busy_error() {
    let name = "overflow";
    let mut federation = federation_with(name);
    let key = mark_connected_with_workspace(&mut federation, name);
    let mut pool = RoutedExecutorPool::new();

    match pool.handle_deferred_remote_routed_api_request(
        &federation,
        &rename_request(name, "of-first"),
        1,
    ) {
        DeferredRoutedOutcome::Queued { host_key, start_worker } => {
            assert_eq!(host_key, key);
            assert!(start_worker);
        }
        other => panic!("expected handled, got {other:?}"),
    }
    let _running = pool.next_sequence(&key).expect("first sequence must be dequeued");
    for i in 0..ROUTED_MUTATION_QUEUE_DEPTH {
        match pool.handle_deferred_remote_routed_api_request(
            &federation,
            &rename_request(name, &format!("of-fill-{i}")),
            10 + i as u64,
        ) {
            DeferredRoutedOutcome::Queued { start_worker: false, .. } => {}
            other => panic!("expected queued fill to be handled, got {other:?}"),
        }
    }
    match pool.handle_deferred_remote_routed_api_request(
        &federation,
        &rename_request(name, "of-overflow"),
        2,
    ) {
        DeferredRoutedOutcome::Answered(reply) => {
            assert!(text_of(&reply).contains("remote_bridge_busy"), "response: {reply:?}");
        }
        other => panic!("expected handled (immediate busy), got {other:?}"),
    }
}

#[test]
fn tui_internal_enqueue_failure_is_not_reported_as_queued() {
    let name = "tui-overflow";
    let mut federation = federation_with(name);
    let key = mark_connected_with_workspace(&mut federation, name);
    let mut pool = RoutedExecutorPool::new();

    assert!(pool
        .try_defer_remote_routed_internal(&federation, &rename_request(name, "ti-first"), 1)
        .is_some());
    let _running = pool.next_sequence(&key).expect("first sequence");
    for i in 0..ROUTED_MUTATION_QUEUE_DEPTH {
        let (reply, _) = pool
            .try_defer_remote_routed_internal(
                &federation,
                &rename_request(name, &format!("ti-fill-{i}")),
                10 + i as u64,
            )
            .expect("fill response");
        let response = text_of(&reply);
        assert!(response.contains("remote_request_deferred"), "response: {response}");
    }
    let (reply, start) = pool
        .try_defer_remote_routed_internal(&federation, &rename_request(name, "ti-overflow"), 2)
        .expect("overflow response");
    let response = text_of(&reply);
    assert!(response.contains("remote_bridge_busy"), "response: {response}");
    assert!(
        !response.contains("remote_request_deferred"),
        "an enqueue failure must not be reported as queued: {response}"
    );
    assert!(start.is_none());
}

#[test]
fn requests_about_local_things_are_not_queued() {
    let mut pool = RoutedExecutorPool::new();
    let federation = federation_with("elsewhere");
    let local = Request {
        id: "local".to_string(),
        method: Method::WorkspaceRename(WorkspaceRenameParams {
            workspace_id: "ws-1".to_string(),
            label: "renamed".to_string(),
        }),
    };
    assert_eq!(
        pool.handle_deferred_remote_routed_api_request(&federation, &local, 1),
        DeferredRoutedOutcome::NotHandled
    );
    assert!(pool.try_defer_remote_routed_internal(&federation, &local, 1).is_none());
    assert!(pool.hosts.is_empty());
}

#[test]
fn read_class_keeps_limiter_concurrency_under_active_mutation() {
    let mut limiter = RemoteAgentBridgeLimiter::new(4);
    let mut pool = RoutedExecutorPool::new();
    let key = key_of("reads");
    let _running = started(&mut pool, mutation_descriptor("reads", 1));
    let _permit = limiter.try_acquire(&key).expect("the mutation's permit");
    assert_eq!(limiter.in_flight(&key), 1);

    let read_permits: Vec<_> =
        (0..3).map(|_| limiter.try_acquire(&key).expect("read permit")).collect();
    assert_eq!(read_permits.len(), 3);
    assert!(limiter.try_acquire(&key).is_none());
    for permit in read_permits {
        limiter.release(permit);
    }
    assert_eq!(limiter.in_flight(&key), 1);
}

#[test]
fn a_waiting_create_can_be_taken_back() {
    let mut pool = RoutedExecutorPool::new();
    let key = key_of("creates");
    let _running = started(&mut pool, mutation_descriptor("creates", 1));
    pool.enqueue(create_descriptor("creates", 5)).unwrap();
    pool.enqueue(create_descriptor("creates", 6)).unwrap();

    let taken = pool.cancel_queued_create(&key, 6).expect("the waiting create");
    assert_eq!(taken.sink, Some(CompletionSink::UiCreate { token: 6 }));
    assert!(pool.cancel_queued_create(&key, 6).is_none());
    let rest = pool.cancel_all_queued(&key);
    assert_eq!(rest.len(), 1);
    assert_eq!(rest[0].sink, Some(CompletionSink::UiCreate { token: 5 }));
    assert!(pool.next_sequence(&key).is_none());
}

// Creates ----------------------------------------------------------------

fn created(workspace: WorkspaceInfo) -> PrimaryOutcome {
    PrimaryOutcome::Answered {
        text: r#"{"id":"remote-workspace.create.1","result":{"type":"workspace_created"}}"#
            .to_string(),
        kind: AnswerKind::Success(ResponseResult::WorkspaceCreated {
            workspace,
            tab: tab_info("tab-1", "ws-new", 1, "1"),
            root_pane: PaneInfo {
                pane_id: "pane-1".to_string(),
                terminal_id: "term-1".to_string(),
                workspace_id: "ws-new".to_string(),
                tab_id: "tab-1".to_string(),
                focused: true,
                cwd: None,
                foreground_cwd: None,
                label: None,
                agent: None,
                title: None,
                display_agent: None,
                agent_status: AgentStatus::Unknown,
                custom_status: None,
                state_labels: Arc::new(Vec::new()),
                agent_session: None,
                revision: 1,
            },
        }),
    }
}

#[test]
fn ui_create_sink_resolves_exactly_once_on_success() {
    let mut pool = RoutedExecutorPool::new();
    let key = key_of("create");
    let descriptor = started(&mut pool, create_descriptor("create", 1));

    let effects = pool.resolve_normal(
        &key,
        descriptor,
        finished(created(workspace_info("ws-new")), RefreshLegOutcome::NotRun, true),
    );
    let successes: Vec<(u64, String)> = effects
        .iter()
        .filter_map(|effect| match effect {
            SinkEffect::CreateSucceeded { token, workspace, .. } => {
                Some((*token, workspace.workspace_id.clone()))
            }
            _ => None,
        })
        .collect();
    assert_eq!(successes, vec![(1, "ws-new".to_string())], "exactly one create-success event");
    assert!(failed_creates(&effects).is_empty());
}

#[test]
fn ui_create_sink_resolves_on_every_terminal_path() {
    let key = key_of("h5host");
    let effects = resolve_sink_terminal(
        create_descriptor("h5host", 101),
        TerminalOutcome::PreWriteFailure("connect refused".to_string()),
    );
    assert_eq!(failed_creates(&effects), vec![101]);

    let mut pool = RoutedExecutorPool::new();
    let effects = pool.resolve_normal(
        &key,
        create_descriptor("h5host", 102),
        finished(failed("eof"), RefreshLegOutcome::NotRun, true),
    );
    assert_eq!(failed_creates(&effects), vec![102]);

    let effects = pool.resolve_normal(
        &key,
        create_descriptor("h5host", 103),
        finished(failed("spawn failed"), RefreshLegOutcome::NotRun, false),
    );
    assert_eq!(failed_creates(&effects), vec![103]);

    let effects = resolve_sink_terminal(
        create_descriptor("h5host", 104),
        TerminalOutcome::PermitWaitExpired,
    );
    assert_eq!(failed_creates(&effects), vec![104]);

    let effects = pool.resolve_normal(
        &key,
        create_descriptor("h5host", 105),
        finished(
            PrimaryOutcome::Answered {
                text: "{}".to_string(),
                kind: AnswerKind::Error { message: "refused".to_string() },
            },
            RefreshLegOutcome::NotRun,
            true,
        ),
    );
    assert_eq!(failed_creates(&effects), vec![105]);
}

// Planning ---------------------------------------------------------------

fn refusal(outcome: RoutedPlanOutcome) -> String {
    match outcome {
        RoutedPlanOutcome::Immediate(reply) => text_of(&reply),
        other => panic!("expected planner rejection, got {other:?}"),
    }
}

fn close_request(name: &str, id: &str, confirm: bool) -> Request {
    Request {
        id: id.to_string(),
        method: Method::TabClose(TabCloseParams {
            tab_id: format!("{name}/tab:remote-tab-1"),
            confirm,
        }),
    }
}

#[test]
fn planner_rejects_unconfirmed_remote_tab_close() {
    let federation = federation_with("tabclose");
    let response =
        refusal(federation.plan_remote_routed_mutation(&close_request("tabclose", "req-1", false)));
    assert!(response.contains("confirmation_required"), "response: {response}");
}

#[test]
fn planner_accepts_confirmed_remote_tab_close() {
    let name = "tabclose-ok";
    let mut federation = federation_with(name);
    let key = mark_connected_with_workspace(&mut federation, name);
    federation.remote_sources.replace_tab_snapshot(
        &key,
        &"ws-1".to_string(),
        vec![tab_info("remote-tab-1", "ws-1", 1, "remote-tab-1")],
    );
    federation.remote_sources.set_capabilities(
        &key,
        RemoteSourceCapabilities { tab_close: true, ..RemoteSourceCapabilities::default() },
    );
    match federation.plan_remote_routed_mutation(&close_request(name, "req-2", true)) {
        RoutedPlanOutcome::Deferred(descriptor) => {
            assert_eq!(descriptor.spec.primary.id, "req-2");
            assert!(matches!(
                &descriptor.spec.primary.method,
                Method::TabClose(params) if params.tab_id == "remote-tab-1" && params.confirm
            ));
        }
        other => panic!("expected deferred plan, got {other:?}"),
    }
}

#[test]
fn planner_gates_pane_mutations_by_their_own_capability() {
    let name = "panecap";
    let mut federation = federation_with(name);
    let key = mark_connected_with_workspace(&mut federation, name);
    federation.remote_sources.set_capabilities(
        &key,
        RemoteSourceCapabilities {
            pane_focus_direction: true,
            ..RemoteSourceCapabilities::default()
        },
    );
    let pane_id = format!("{name}/pane:p1");

    let focus_direction = Request {
        id: "fd".to_string(),
        method: Method::PaneFocusDirection(PaneFocusDirectionParams {
            pane_id: Some(pane_id.clone()),
            direction: PaneDirection::Left,
        }),
    };
    if let RoutedPlanOutcome::Immediate(reply) =
        federation.plan_remote_routed_mutation(&focus_direction)
    {
        assert!(
            !text_of(&reply).contains("remote_capability_unavailable"),
            "pane.focus_direction must not be rejected for capability when \
             pane_focus_direction is advertised: {reply:?}"
        );
    }

    let focus = Request {
        id: "f".to_string(),
        method: Method::PaneFocus(PaneTarget { pane_id: pane_id.clone() }),
    };
    let response = refusal(federation.plan_remote_routed_mutation(&focus));
    assert!(response.contains("remote_capability_unavailable"), "response: {response}");
    assert!(response.contains("pane_focus"), "response: {response}");

    let rename = Request {
        id: "r".to_string(),
        method: Method::PaneRename(PaneRenameParams {
            pane_id: pane_id.clone(),
            label: Some("x".to_string()),
        }),
    };
    let response = refusal(federation.plan_remote_routed_mutation(&rename));
    assert!(response.contains("remote_capability_unavailable"), "response: {response}");
    assert!(response.contains("pane_rename"), "response: {response}");
}

// Superseded generations -------------------------------------------------

fn uncertain() -> RoutedCompletion {
    RoutedCompletion {
        taxonomy: RoutedTaxonomy::IndeterminateAfterWrite,
        success: None,
        refresh: None,
        stale_workspace_id: Some("ws-1".to_string()),
        apply: RoutedApply::RefreshOnly,
    }
}

#[test]
fn superseded_generation_completion_is_suppressed() {
    let name = "superseded";
    let mut app = RemoteLifecycles { federation: federation_with(name), pending: Vec::new() };
    let key = mark_connected_with_workspace(&mut app.federation, name);
    app.federation
        .supervisors
        .push(RemoteSourceSupervisorHandle { host_key: key.clone(), generation: 11 });
    let mut reconciled = Vec::new();

    assert!(!app.apply_routed_report(&mut reconciled, &key, 10, uncertain()));
    assert!(
        reconciled.is_empty(),
        "superseded generation must not stamp reconciliation"
    );
    assert!(app.federation.remote_sources.source(&key).unwrap().projections.is_empty());

    assert!(app.apply_routed_report(&mut reconciled, &key, 11, uncertain()));
    assert_eq!(reconciled.len(), 1);
    assert_eq!(reconciled[0].key, key);
    assert_eq!(
        reconciled[0].generation, 11,
        "current generation stamps reconciliation"
    );
}

#[test]
fn superseded_generation_recovery_needed_is_suppressed() {
    let name = "recovery-superseded";
    let mut app = RemoteLifecycles { federation: federation_with(name), pending: Vec::new() };
    let key = mark_connected_with_workspace(&mut app.federation, name);
    app.federation
        .supervisors
        .push(RemoteSourceSupervisorHandle { host_key: key.clone(), generation: 11 });

    assert!(app.start_remote_routed_recovery(&"r".to_string(), &key, 10, 1, 12).is_none());
    assert_eq!(app.federation.supervisors.len(), 1);
    assert!(
        app.federation
            .supervisors
            .iter()
            .any(|handle| handle.host_key == key && handle.generation == 11),
        "superseded generation must not retire the current supervisor"
    );

    assert!(app.start_remote_routed_recovery(&"r".to_string(), &key, 11, 1, 12).is_some());
    assert!(
        app.federation
            .supervisors
            .iter()
            .all(|handle| !(handle.host_key == key && handle.generation == 11)),
        "current generation must retire the stale supervisor"
    );
    assert!(
        app.federation.supervisors.iter().any(|handle| handle.host_key == key),
        "a fresh supervisor must be started after admitted recovery"
    );
}

#[test]
fn completion_refresh_data_applies_tabs_and_projection_atomically() {
    let key = key_of("refresh");
    let space = RemoteSpaceKey {
        host: "refresh".to_string(),
        session: "default".to_string(),
        workspace_id: "ws-1".to_string(),
    };
    let mut sources = RemoteSources::new();
    let mut reconciled = Vec::new();
    sources.replace_connected_snapshot(&key, Vec::new());

    let mut tab = tab_info("tab-9", "ws-1", 9, "9");
    tab.pane_count = 2;
    apply_routed_completion(
        &mut sources,
        &mut reconciled,
        &key,
        1,
        RoutedCompletion {
            taxonomy: RoutedTaxonomy::Completed,
            success: None,
            refresh: Some(RoutedRefreshData {
                workspace_id: "ws-1".to_string(),
                tabs: Some(vec![tab]),
                active_tab: Some(RoutedActiveTabFetch {
                    tab_id: Some("tab-9".to_string()),
                    tab_label: Some("9".to_string()),
                    layout: None,
                }),
            }),
            stale_workspace_id: None,
            apply: RoutedApply::RefreshOnly,
        },
    );
    assert!(sources.tab_snapshot_for_space(&space).is_some(), "tab snapshot replaced");
    assert_eq!(reconciled.len(), 1);
    assert_eq!(reconciled[0].generation, 1, "reconciliation stamped");

    apply_routed_completion(&mut sources, &mut reconciled, &key, 2, uncertain());
    assert!(
        sources
            .tab_snapshot_for_space(&space)
            .is_none_or(|entry| entry.status != RemoteProjectionStatus::Available),
        "stale marking after indeterminate"
    );
    assert_eq!(reconciled[0].generation, 2);
}
