//! What is known of remote hosts, and the targets that lead to it.
use std::sync::Arc;

use herdr::lifecycle::{LifecycleEffect, RemoteLifecycles};
use herdr::local_api::{handle_tab_close, HandlerStep};
use herdr::remote_calls::{primary_applied, refresh_started, RefreshTarget};
use herdr::remote_helpers::{rewrite_remote_agent_start_response, rewrite_remote_response_id};
use herdr::remote_source::{
    RemoteApiBridgeState, RemoteConnectionStatus, RemoteHostKey, RemoteProjectionSnapshot,
    RemoteProjectionStatus, RemoteSourceCapabilities, RemoteSources, RemoteSpaceKey,
};
use herdr::remote_target::{
    parse_target_route, plan_target_route, RemoteConnectionPolicy, RemoteHostConfig,
    RemoteHostRegistry, RemoteRoutePlanError, RemoteTargetParseError, RemoteTargetSelector,
    TargetRoute,
};
use herdr::remotes::RemoteLifecycleHostParams;
use herdr::routed_plan::{Federation, RemoteSourceSupervisorHandle, RoutedPlanOutcome};
use herdr::schema::{
    AgentInfo, AgentStatus, LayoutDescription, LayoutNode, LayoutPane, Method, PaneCloseParams,
    PaneRenameParams, PaneSplitParams, PaneTarget, Reply, Request, ResponseResult, SplitDirection,
    TabCloseParams, TabInfo, TabRenameParams, TabTarget, WorkspaceInfo, WorkspaceRenameParams,
};
use herdr::server::FederationCapabilities;
use herdr::session::{Pane, Session, Tab, TerminalState, Workspace};

fn key_of(host: &str) -> RemoteHostKey {
    RemoteHostKey::new(host.to_string(), "default".to_string())
}

fn key() -> RemoteHostKey {
    key_of("jafar")
}

fn federation() -> Federation {
    Federation {
        remote_hosts: RemoteHostRegistry {
            hosts: vec![
                RemoteHostConfig::new("jafar", "jafar", "default", true),
                RemoteHostConfig::new("mini", "mini", "default", true),
            ],
        },
        remote_sources: RemoteSources::new(),
        supervisors: Vec::new(),
    }
}

fn agent(terminal_id: &str) -> AgentInfo {
    AgentInfo {
        terminal_id: terminal_id.to_string(),
        name: Some("codex".to_string()),
        agent: None,
        title: None,
        display_agent: None,
        agent_status: AgentStatus::Working,
        screen_detection_skipped: false,
        custom_status: None,
        state_labels: Arc::new(Vec::new()),
        agent_session: None,
        workspace_id: "remote-ws".to_string(),
        tab_id: "remote-tab".to_string(),
        pane_id: "remote-pane".to_string(),
        focused: false,
        cwd: None,
        foreground_cwd: None,
        revision: 1,
    }
}

fn workspace_info(id: &str) -> WorkspaceInfo {
    WorkspaceInfo {
        workspace_id: id.to_string(),
        number: 1,
        label: id.to_string(),
        focused: true,
        pane_count: 1,
        tab_count: 1,
        active_tab_id: "remote-tab".to_string(),
        agent_status: AgentStatus::Unknown,
        worktree: None,
    }
}

fn tab_info(id: &str) -> TabInfo {
    TabInfo {
        tab_id: id.to_string(),
        workspace_id: "remote-ws".to_string(),
        number: 1,
        label: id.to_string(),
        focused: true,
        pane_count: 1,
        agent_status: AgentStatus::Unknown,
    }
}

fn layout() -> LayoutDescription {
    LayoutDescription {
        workspace_id: "remote-ws".to_string(),
        tab_id: "remote-tab".to_string(),
        zoomed: false,
        focused_pane_id: "remote-pane".to_string(),
        root: LayoutNode::Pane {
            pane: LayoutPane {
                pane_id: Some("remote-pane".to_string()),
                terminal_id: Some("remote-term".to_string()),
                label: None,
            },
        },
    }
}

fn projection(status: RemoteProjectionStatus) -> RemoteProjectionSnapshot {
    RemoteProjectionSnapshot {
        workspace_id: "remote-ws".to_string(),
        tab_id: Some("remote-tab".to_string()),
        tab_label: Some("remote-tab".to_string()),
        status,
        layout: Some(layout()),
    }
}

fn everything() -> RemoteSourceCapabilities {
    RemoteSourceCapabilities {
        workspace_list_local: true,
        workspace_create: true,
        workspace_rename: true,
        tab_list: true,
        tab_create: true,
        tab_focus: true,
        tab_close: true,
        tab_rename: true,
        pane_split: true,
        pane_close: true,
        pane_rename: true,
        pane_focus: true,
        pane_focus_direction: true,
        layout_export: true,
        terminal_session_stream: true,
    }
}

fn bridge_state() -> Arc<RemoteApiBridgeState> {
    Arc::new(RemoteApiBridgeState {
        shell_path: "herdr".to_string(),
        capabilities: FederationCapabilities::current(),
    })
}

fn request(method: Method) -> Request {
    Request { id: "req".to_string(), method }
}

fn focus_tab(tab_id: &str) -> Request {
    request(Method::TabFocus(TabTarget { tab_id: tab_id.to_string() }))
}

fn focus_pane(pane_id: &str) -> Request {
    request(Method::PaneFocus(PaneTarget { pane_id: pane_id.to_string() }))
}

fn rename_workspace(workspace_id: &str) -> Request {
    request(Method::WorkspaceRename(WorkspaceRenameParams {
        workspace_id: workspace_id.to_string(),
        label: "x".to_string(),
    }))
}

fn refusal(federation: &Federation, request: &Request) -> String {
    match federation.plan_remote_routed_mutation(request) {
        RoutedPlanOutcome::Immediate(Reply::Error { id, error }) => {
            assert_eq!(id, "req");
            error.code
        }
        other => panic!("expected a refusal, got {other:?}"),
    }
}

// Targets ----------------------------------------------------------------

#[test]
fn targets_are_read() {
    assert_eq!(
        parse_target_route("plain"),
        Ok(TargetRoute::Local { target: "plain".to_string() })
    );
    for (text, selector) in [
        ("jafar/codex", RemoteTargetSelector::Label("codex".to_string())),
        ("jafar/terminal:t1", RemoteTargetSelector::Terminal("t1".to_string())),
        ("jafar/pane:p1", RemoteTargetSelector::Pane("p1".to_string())),
        ("jafar/tab:t/1", RemoteTargetSelector::Tab("t/1".to_string())),
        ("jafar/workspace:w1", RemoteTargetSelector::Workspace("w1".to_string())),
    ] {
        assert_eq!(
            parse_target_route(text),
            Ok(TargetRoute::Remote { host: "jafar".to_string(), target: selector })
        );
    }
    assert_eq!(parse_target_route("/codex"), Err(RemoteTargetParseError::EmptyHost));
    assert_eq!(parse_target_route("jafar/"), Err(RemoteTargetParseError::EmptyTarget));
}

#[test]
fn unknown_hosts_are_named() {
    let hosts = federation().remote_hosts;
    assert!(matches!(
        plan_target_route(&hosts, "elsewhere/codex"),
        Err(RemoteRoutePlanError::UnknownHost(host)) if host == "elsewhere"
    ));
    assert!(matches!(
        plan_target_route(&hosts, "/codex"),
        Err(RemoteRoutePlanError::Parse(RemoteTargetParseError::EmptyHost))
    ));
}

#[test]
fn hosts_connect_by_policy() {
    let startup = RemoteHostConfig::new("a", "a", "default", true);
    assert_eq!(startup.connection_policy, RemoteConnectionPolicy::Startup);
    let later = RemoteHostConfig::new("a", "a", "default", false);
    assert_eq!(later.connection_policy, RemoteConnectionPolicy::OnDemand);
    assert_eq!(later.key(), key_of("a"));
}

// Refusals ---------------------------------------------------------------

#[test]
fn tabs_that_cannot_be_acted_on_are_refused() {
    let mut federation = federation();
    federation.remote_sources.replace_connected_snapshot(&key(), Vec::new());
    federation.remote_sources.set_capabilities(&key(), everything());
    assert_eq!(
        refusal(&federation, &focus_tab("jafar/tab:remote-tab")),
        "remote_tab_metadata_unavailable"
    );
    federation.remote_sources.replace_tab_snapshot(
        &key(),
        &"remote-ws".to_string(),
        vec![tab_info("remote-tab")],
    );
    assert_eq!(refusal(&federation, &focus_tab("jafar/tab:gone")), "remote_tab_not_found");
    assert_eq!(refusal(&federation, &focus_tab("jafar/pane:p")), "remote_target_error");
    assert!(matches!(
        federation.plan_remote_routed_mutation(&focus_tab("jafar/tab:remote-tab")),
        RoutedPlanOutcome::Deferred(_)
    ));
    federation.remote_sources.mark_tab_snapshot_unavailable(&key(), &"remote-ws".to_string());
    assert_eq!(
        refusal(&federation, &focus_tab("jafar/tab:remote-tab")),
        "remote_tab_metadata_stale"
    );
}

#[test]
fn panes_that_cannot_be_acted_on_are_refused() {
    let mut federation = federation();
    federation.remote_sources.replace_connected_snapshot(&key(), Vec::new());
    federation.remote_sources.set_capabilities(&key(), everything());
    assert_eq!(
        refusal(&federation, &focus_pane("jafar/pane:remote-pane")),
        "remote_pane_metadata_unavailable"
    );
    federation
        .remote_sources
        .apply_projection_snapshot(&key(), vec![projection(RemoteProjectionStatus::Available)]);
    assert_eq!(refusal(&federation, &focus_pane("jafar/pane:gone")), "remote_pane_not_found");
    assert_eq!(refusal(&federation, &focus_pane("jafar/tab:t")), "remote_target_error");
    assert!(matches!(
        federation.plan_remote_routed_mutation(&focus_pane("jafar/pane:remote-pane")),
        RoutedPlanOutcome::Deferred(_)
    ));
    federation.remote_sources.upsert_projection_snapshot(
        &key(),
        projection(RemoteProjectionStatus::StaleLastKnown),
    );
    assert_eq!(
        refusal(&federation, &focus_pane("jafar/pane:remote-pane")),
        "remote_pane_metadata_stale"
    );
}

#[test]
fn workspaces_that_cannot_be_acted_on_are_refused() {
    let mut federation = federation();
    federation.remote_sources.replace_connected_snapshot(&key(), Vec::new());
    federation.remote_sources.set_capabilities(&key(), everything());
    assert_eq!(
        refusal(&federation, &rename_workspace("jafar/workspace:remote-ws")),
        "remote_workspace_unavailable"
    );
    federation.remote_sources.replace_workspace_snapshot(&key(), vec![workspace_info("remote-ws")]);
    assert_eq!(
        refusal(&federation, &rename_workspace("jafar/workspace:gone")),
        "remote_workspace_not_found"
    );
    assert_eq!(refusal(&federation, &rename_workspace("jafar/tab:t")), "remote_target_error");
}

#[test]
fn each_change_needs_its_own_capability() {
    let mut federation = federation();
    federation.remote_sources.replace_connected_snapshot(&key(), Vec::new());
    federation.remote_sources.replace_workspace_snapshot(&key(), vec![workspace_info("remote-ws")]);
    federation.remote_sources.replace_tab_snapshot(
        &key(),
        &"remote-ws".to_string(),
        vec![tab_info("remote-tab")],
    );
    federation
        .remote_sources
        .apply_projection_snapshot(&key(), vec![projection(RemoteProjectionStatus::Available)]);
    let pane = || "jafar/pane:remote-pane".to_string();
    let tab = || "jafar/tab:remote-tab".to_string();
    let changes = [
        (
            focus_pane(&pane()),
            RemoteSourceCapabilities { pane_focus: false, ..everything() },
        ),
        (
            request(Method::PaneRename(PaneRenameParams { pane_id: pane(), label: None })),
            RemoteSourceCapabilities { pane_rename: false, ..everything() },
        ),
        (
            request(Method::PaneSplit(PaneSplitParams {
                workspace_id: None,
                target_pane_id: Some(pane()),
                direction: SplitDirection::Right,
                cwd: None,
                focus: true,
            })),
            RemoteSourceCapabilities { pane_split: false, ..everything() },
        ),
        (
            request(Method::PaneClose(PaneCloseParams { pane_id: pane(), confirm: true })),
            RemoteSourceCapabilities { pane_close: false, ..everything() },
        ),
        (focus_tab(&tab()), RemoteSourceCapabilities { tab_focus: false, ..everything() }),
        (
            request(Method::TabClose(TabCloseParams { tab_id: tab(), confirm: true })),
            RemoteSourceCapabilities { tab_close: false, ..everything() },
        ),
        (
            request(Method::TabRename(TabRenameParams { tab_id: tab(), label: "x".to_string() })),
            RemoteSourceCapabilities { tab_rename: false, ..everything() },
        ),
        (
            rename_workspace("jafar/workspace:remote-ws"),
            RemoteSourceCapabilities { workspace_rename: false, ..everything() },
        ),
    ];
    for (change, lacking) in changes {
        federation.remote_sources.set_capabilities(&key(), everything());
        assert!(
            matches!(
                federation.plan_remote_routed_mutation(&change),
                RoutedPlanOutcome::Deferred(_)
            ),
            "{change:?}"
        );
        federation.remote_sources.set_capabilities(&key(), lacking);
        assert_eq!(refusal(&federation, &change), "remote_capability_unavailable");
    }
}

#[test]
fn unconfirmed_pane_closes_are_refused() {
    let close = request(Method::PaneClose(PaneCloseParams {
        pane_id: "jafar/pane:remote-pane".to_string(),
        confirm: false,
    }));
    assert_eq!(refusal(&federation(), &close), "confirmation_required");
}

#[test]
fn a_lifecycle_action_needs_a_host() {
    let mut app = RemoteLifecycles { federation: federation(), pending: Vec::new() };
    let effects = app
        .handle_deferred_remote_lifecycle_api_request(
            &request(Method::RemoteConnect(RemoteLifecycleHostParams { host: String::new() })),
            1,
            1,
        )
        .expect("a lifecycle request");
    assert!(matches!(
        &effects[..],
        [LifecycleEffect::Respond { responder: 1, reply: Reply::Error { error, .. } }]
            if error.code == "invalid_params"
                && error.message == "remote.connect requires a host alias"
    ));
}

#[test]
fn the_last_tab_of_a_workspace_stays() {
    let mut session = Session::new();
    session.workspaces.push(Workspace {
        workspace_id: "ws".to_string(),
        label: "ws".to_string(),
        tabs: vec![Tab {
            tab_id: "only".to_string(),
            label: "1".to_string(),
            panes: vec![Pane {
                pane_id: "p".to_string(),
                raw: 1,
                terminal_id: "t".to_string(),
            }],
            focused: 0,
            agent_status: AgentStatus::Unknown,
        }],
        active_tab: 0,
        worktree: None,
        agent_status: AgentStatus::Unknown,
    });
    session.terminals.push(TerminalState {
        id: "t".to_string(),
        agent_name: None,
        manual_label: None,
        agent: None,
        title: None,
        display_agent: None,
        agent_status: AgentStatus::Unknown,
        screen_detection_skipped: false,
        custom_status: None,
        state_labels: Arc::new(Vec::new()),
        agent_session: None,
        cwd: None,
        foreground_cwd: None,
        revision: 0,
        remote_attach: None,
        respawn_shell_on_exit: false,
        launch_argv: None,
    });
    assert!(session.is_sound());
    let nowhere = Federation {
        remote_hosts: RemoteHostRegistry { hosts: Vec::new() },
        remote_sources: RemoteSources::new(),
        supervisors: Vec::new(),
    };
    let step = handle_tab_close(
        &mut session,
        &nowhere,
        &"req".to_string(),
        &TabCloseParams { tab_id: "only".to_string(), confirm: false },
    );
    let HandlerStep::Answered(local) = step else { panic!("expected an answer") };
    assert!(matches!(
        local.reply,
        Reply::Error { error, .. } if error.code == "tab_close_failed"
    ));
    assert_eq!(session.workspaces[0].tabs.len(), 1);
}

// The cache --------------------------------------------------------------

#[test]
fn a_lost_connection_keeps_what_was_reported() {
    let mut sources = RemoteSources::new();
    sources.replace_connected_snapshot(&key(), vec![agent("term-1")]);
    sources.replace_workspace_snapshot(&key(), vec![workspace_info("remote-ws")]);
    sources.set_connected_bridge_state(&key(), bridge_state());
    assert!(sources.connected_bridge_state(&key()).is_some());
    sources.mark_status(&key(), RemoteConnectionStatus::Unreachable);
    let source = sources.source(&key()).unwrap();
    assert_eq!(source.agents.len(), 1);
    assert_eq!(source.workspaces.as_ref().unwrap().len(), 1);
    assert!(
        sources.connected_bridge_state(&key()).is_none(),
        "prepared state needs a connection"
    );
}

#[test]
fn hosts_are_kept_apart() {
    let mut sources = RemoteSources::new();
    sources.replace_connected_snapshot(&key(), vec![agent("term-1")]);
    sources.replace_connected_snapshot(&key_of("mini"), vec![agent("term-2")]);
    sources.mark_disconnected(&key());
    assert_eq!(sources.host_status(&key()), Some(RemoteConnectionStatus::Disconnected));
    assert_eq!(sources.host_status(&key_of("mini")), Some(RemoteConnectionStatus::Connected));
    assert_eq!(sources.source(&key_of("mini")).unwrap().agents[0].terminal_id, "term-2");
    assert!(sources.source(&key_of("gone")).is_none());
}

#[test]
fn tabs_are_put_and_taken() {
    let space = RemoteSpaceKey {
        host: "jafar".to_string(),
        session: "default".to_string(),
        workspace_id: "remote-ws".to_string(),
    };
    let mut sources = RemoteSources::new();
    sources.replace_connected_snapshot(&key(), Vec::new());
    sources.replace_tab_snapshot(&key(), &"remote-ws".to_string(), vec![tab_info("a")]);
    sources.upsert_tab(&key(), tab_info("b"));
    let mut renamed = tab_info("a");
    renamed.label = "renamed".to_string();
    sources.upsert_tab(&key(), renamed);
    let labels: Vec<String> = sources
        .tab_snapshot_for_space(&space)
        .unwrap()
        .tabs
        .iter()
        .map(|tab| tab.label.clone())
        .collect();
    assert_eq!(labels, vec!["renamed".to_string(), "b".to_string()]);
    sources.remove_tab(&key(), &"a".to_string());
    assert_eq!(sources.tab_snapshot_for_space(&space).unwrap().tabs.len(), 1);
}

#[test]
fn a_refused_change_leaves_the_cache_alone() {
    let mut federation = federation();
    federation.remote_sources.replace_connected_snapshot(&key(), Vec::new());
    federation.remote_sources.set_capabilities(&key(), everything());
    federation.remote_sources.replace_tab_snapshot(
        &key(),
        &"remote-ws".to_string(),
        vec![tab_info("remote-tab")],
    );
    let RoutedPlanOutcome::Deferred(descriptor) =
        federation.plan_remote_routed_mutation(&focus_tab("jafar/tab:remote-tab"))
    else {
        panic!("expected a plan");
    };
    let mut sources = federation.remote_sources;
    assert!(primary_applied(&mut sources, &descriptor, None).is_none());
    assert_eq!(sources.source(&key()).unwrap().tabs[0].tabs, vec![tab_info("remote-tab")]);
    let target = primary_applied(
        &mut sources,
        &descriptor,
        Some(ResponseResult::TabInfo { tab: tab_info("remote-tab") }),
    )
    .expect("a refresh");
    assert_eq!(target.workspace_id, "remote-ws");
}

#[test]
fn refreshes_are_sent_only_where_they_are_advertised() {
    let mut sources = RemoteSources::new();
    sources.replace_connected_snapshot(&key(), Vec::new());
    let target =
        RefreshTarget { workspace_id: "remote-ws".to_string(), preferred_tab_id: None };
    assert!(refresh_started(&mut sources, &key(), &target).is_none());
    sources.set_capabilities(&key(), everything());
    let listing = refresh_started(&mut sources, &key(), &target).expect("a request");
    assert!(matches!(
        listing.method,
        Method::TabList(params) if params.workspace_id.as_deref() == Some("remote-ws")
    ));
}

#[test]
fn reconnecting_one_host_leaves_the_others() {
    let mut app = RemoteLifecycles { federation: federation(), pending: Vec::new() };
    app.federation
        .supervisors
        .push(RemoteSourceSupervisorHandle { host_key: key_of("mini"), generation: 3 });
    app.federation.remote_sources.replace_connected_snapshot(&key_of("mini"), Vec::new());
    app.handle_deferred_remote_lifecycle_api_request(
        &request(Method::RemoteReconnect(RemoteLifecycleHostParams { host: "jafar".to_string() })),
        1,
        9,
    )
    .expect("a lifecycle request");
    assert_eq!(app.federation.supervisors.len(), 2);
    assert!(app.remote_source_generation_is_active(&key_of("mini"), 3));
    assert!(app.remote_source_generation_is_active(&key(), 9));
    assert!(app.host_has_active_connected_supervisor(&key_of("mini")));
}

// Answers ----------------------------------------------------------------

#[test]
fn rewriting_twice_keeps_the_later_id() {
    let text = r#"{"id":"a","result":{"type":"ok"}}"#;
    let once = rewrite_remote_response_id(text, "first").unwrap();
    let twice = rewrite_remote_response_id(&once, "second").unwrap();
    assert_eq!(twice, rewrite_remote_response_id(text, "second").unwrap());
}

#[test]
fn errors_do_not_get_a_host() {
    let text = r#"{"id":"a","error":{"code":"x","message":"y","agent":{"name":"n"}}}"#;
    assert_eq!(
        rewrite_remote_agent_start_response(text, "b", "jafar").unwrap(),
        rewrite_remote_response_id(text, "b").unwrap()
    );
}
