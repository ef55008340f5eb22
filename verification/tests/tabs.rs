//! Requests about tabs, here and on remote hosts.
use std::sync::Arc;

use herdr::local_api::{
    handle_tab_close, handle_tab_create, handle_tab_focus, handle_tab_get, handle_tab_launched,
    handle_tab_list, handle_tab_move, handle_tab_rename, HandlerStep, LaunchDirectory, LaunchedTab,
    SessionEvent, TabLaunch,
};
use herdr::remote_calls::{
    active_tab_index, layout_export_request, layout_exported, primary_answered, primary_applied,
    primary_reply, refresh_started, tabs_listed,
};
use herdr::remote_helpers::{BridgeError, BridgeErrorKind};
use herdr::remote_source::{
    RemoteConnectionStatus, RemoteHostKey, RemoteProjectionStatus, RemoteSourceCapabilities,
    RemoteSources, RemoteSpaceKey,
};
use herdr::remote_target::{RemoteHostConfig, RemoteHostRegistry, RemoteTargetSelector};
use herdr::routed_plan::{Federation, RoutedPlanOutcome};
use herdr::schema::{
    error_body, AgentStatus, LayoutDescription, LayoutNode, LayoutPane, Method, PaneInfo, Reply,
    Request, ResponseResult, TabCloseParams, TabCreateParams, TabInfo, TabListParams, TabMoveParams,
    TabRenameParams, TabTarget, WorkspaceInfo,
};
use herdr::server::FederationCapabilities;
use herdr::session::{Mode, Pane, PaneAlias, Session, Tab, TerminalState, Workspace};

fn key() -> RemoteHostKey {
    RemoteHostKey::new("jafar".to_string(), "default".to_string())
}

fn space() -> RemoteSpaceKey {
    RemoteSpaceKey {
        host: "jafar".to_string(),
        session: "default".to_string(),
        workspace_id: "remote-ws".to_string(),
    }
}

fn no_hosts() -> Federation {
    Federation {
        remote_hosts: RemoteHostRegistry { hosts: Vec::new() },
        remote_sources: RemoteSources::new(),
        supervisors: Vec::new(),
    }
}

fn host() -> RemoteHostConfig {
    RemoteHostConfig::new("jafar", "jafar", "default", true)
}

fn with_remote_host() -> Federation {
    Federation {
        remote_hosts: RemoteHostRegistry { hosts: vec![host()] },
        remote_sources: RemoteSources::new(),
        supervisors: Vec::new(),
    }
}

fn remote_workspace() -> WorkspaceInfo {
    WorkspaceInfo {
        workspace_id: "remote-ws".to_string(),
        number: 1,
        label: "remote".to_string(),
        focused: true,
        pane_count: 1,
        tab_count: 2,
        active_tab_id: "remote-tab-1".to_string(),
        agent_status: AgentStatus::Unknown,
        worktree: None,
    }
}

fn remote_tab(tab_id: &str, focused: bool) -> TabInfo {
    TabInfo {
        tab_id: tab_id.to_string(),
        workspace_id: "remote-ws".to_string(),
        number: if tab_id.ends_with('1') { 1 } else { 2 },
        label: tab_id.to_string(),
        focused,
        pane_count: 1,
        agent_status: AgentStatus::Unknown,
    }
}

fn remote_layout(tab_id: &str) -> LayoutDescription {
    LayoutDescription {
        workspace_id: "remote-ws".to_string(),
        tab_id: tab_id.to_string(),
        zoomed: false,
        focused_pane_id: "remote-pane".to_string(),
        root: LayoutNode::Pane {
            pane: LayoutPane {
                pane_id: Some("remote-pane".to_string()),
                terminal_id: Some("remote-term".to_string()),
                label: None,
            },
        },
    }
}

fn remote_root_pane() -> PaneInfo {
    PaneInfo {
        pane_id: "remote-pane".to_string(),
        terminal_id: "remote-term".to_string(),
        workspace_id: "remote-ws".to_string(),
        tab_id: "remote-tab-new".to_string(),
        focused: true,
        cwd: None,
        foreground_cwd: None,
        label: None,
        agent: None,
        title: None,
        display_agent: None,
        agent_status: AgentStatus::Unknown,
        custom_status: None,
        state_labels: Arc::new(Vec::new()),
        agent_session: None,
        revision: 1,
    }
}

/// A host's answer as text, and the same answer read.
fn answer(id: &str, kind: &str, result: ResponseResult) -> Result<(String, ResponseResult), String> {
    Ok((format!(r#"{{"id":"{id}","result":{{"type":"{kind}"}}}}"#), result))
}

fn tab_created(id: &str, tab: TabInfo) -> Result<(String, ResponseResult), String> {
    answer(id, "tab_created", ResponseResult::TabCreated { tab, root_pane: remote_root_pane() })
}

fn tab_info_answer(id: &str, tab: TabInfo) -> Result<(String, ResponseResult), String> {
    answer(id, "tab_info", ResponseResult::TabInfo { tab })
}

fn tab_list_answer(tabs: Vec<TabInfo>) -> Result<(String, ResponseResult), String> {
    answer("remote-source.tab-list", "tab_list", ResponseResult::TabList { tabs })
}

fn layout_answer(tab_id: &str) -> Result<(String, ResponseResult), String> {
    answer(
        "remote-source.layout-export",
        "layout_export",
        ResponseResult::LayoutExport { layout: remote_layout(tab_id) },
    )
}

/// Runs a request on a remote host to its end: the change, then what it made
/// necessary.
fn run_remote(
    federation: &mut Federation,
    request: Request,
    selector: RemoteTargetSelector,
    mut send: impl FnMut(&Request) -> Result<(String, ResponseResult), String>,
) -> Reply {
    let descriptor = match federation.plan_on_host(&request, &host(), &selector) {
        RoutedPlanOutcome::Immediate(reply) => return reply,
        RoutedPlanOutcome::Deferred(descriptor) => descriptor,
        RoutedPlanOutcome::NotHandled => panic!("the request names the host"),
    };
    assert_eq!(descriptor.host.name, "jafar");
    let (text, result) = match send(&descriptor.spec.primary) {
        Ok((text, result)) => (Ok(text), Some(result)),
        Err(message) => (Err(BridgeError { kind: BridgeErrorKind::Other, message }), None),
    };
    let value = match primary_answered(&request.id, text) {
        Ok(value) => value,
        Err(reply) => return reply,
    };
    let sources = &mut federation.remote_sources;
    if let Some(target) = primary_applied(sources, &descriptor, result) {
        if let Some(listing) = refresh_started(sources, &key(), &target) {
            let tabs = match send(&listing) {
                Ok((_, ResponseResult::TabList { tabs })) => Some(tabs),
                _ => None,
            };
            if let Some(leg) = tabs_listed(sources, &key(), &target, tabs) {
                let layout = match send(&layout_export_request(&leg.tab_id)) {
                    Ok((_, ResponseResult::LayoutExport { layout })) => Some(layout),
                    _ => None,
                };
                layout_exported(sources, &key(), leg, layout);
            }
        }
    }
    primary_reply(&request.id, &value)
}

fn seed_remote_tab_cache(federation: &mut Federation) {
    federation.remote_sources.replace_connected_snapshot(&key(), Vec::new());
    federation.remote_sources.replace_workspace_snapshot(&key(), vec![remote_workspace()]);
    federation.remote_sources.replace_tab_snapshot(
        &key(),
        &"remote-ws".to_string(),
        vec![remote_tab("remote-tab-1", true), remote_tab("remote-tab-2", false)],
    );
    federation.remote_sources.set_capabilities(&key(), tab_capabilities());
}

fn tab_capabilities() -> RemoteSourceCapabilities {
    RemoteSourceCapabilities {
        workspace_list_local: true,
        tab_list: true,
        tab_create: true,
        tab_focus: true,
        tab_close: true,
        layout_export: true,
        ..RemoteSourceCapabilities::default()
    }
}

fn seed_remote_tab_rename_cache(federation: &mut Federation) {
    seed_remote_tab_cache(federation);
    federation.remote_sources.set_capabilities(
        &key(),
        RemoteSourceCapabilities { tab_rename: true, ..tab_capabilities() },
    );
}

fn terminal(id: &str) -> TerminalState {
    TerminalState {
        id: id.to_string(),
        agent_name: None,
        manual_label: None,
        agent: None,
        title: None,
        display_agent: None,
        agent_status: AgentStatus::Unknown,
        screen_detection_skipped: false,
        custom_status: None,
        state_labels: Arc::new(Vec::new()),
        agent_session: None,
        cwd: None,
        foreground_cwd: None,
        revision: 0,
        remote_attach: None,
        respawn_shell_on_exit: false,
        launch_argv: None,
    }
}

fn tab(name: &str) -> Tab {
    Tab {
        tab_id: format!("{name}-tab"),
        label: name.to_string(),
        panes: vec![Pane {
            pane_id: format!("{name}-pane"),
            raw: 7,
            terminal_id: format!("{name}-term"),
        }],
        focused: 0,
        agent_status: AgentStatus::Unknown,
    }
}

/// A session with one workspace that has the tabs named.
fn session_with_tabs(names: &[&str]) -> Session {
    let mut session = Session::new();
    session.workspaces.push(Workspace {
        workspace_id: "tabs-ws".to_string(),
        label: "tabs".to_string(),
        tabs: names.iter().map(|name| tab(name)).collect(),
        active_tab: 0,
        worktree: None,
        agent_status: AgentStatus::Unknown,
    });
    for name in names {
        session.terminals.push(terminal(&format!("{name}-term")));
    }
    session.active = Some(0);
    session.selected = 0;
    session.mode = Mode::Terminal;
    assert!(session.is_sound());
    session
}

fn req() -> String {
    "req".to_string()
}

fn error_of(reply: Reply) -> (String, String) {
    match reply {
        Reply::Error { id, error } => {
            assert_eq!(id, "req");
            (error.code, error.message)
        }
        other => panic!("expected an error, got {other:?}"),
    }
}

fn answered_error(step: HandlerStep) -> (String, String) {
    match step {
        HandlerStep::Answered(local) => {
            assert!(local.event.is_none());
            assert!(!local.save);
            error_of(local.reply)
        }
        other => panic!("expected an answer, got {other:?}"),
    }
}

fn forwarded(reply: Reply) -> serde_json::Value {
    match reply {
        Reply::Forwarded { text } => serde_json::from_str(&text).unwrap(),
        other => panic!("expected the host's answer, got {other:?}"),
    }
}

fn tabs_of(reply: Reply) -> Vec<TabInfo> {
    match reply {
        Reply::Success { result: ResponseResult::TabList { tabs }, .. } => tabs,
        other => panic!("expected tab list, got {other:?}"),
    }
}

// Here -------------------------------------------------------------------

#[test]
fn api_tab_move_reorders_tabs_in_target_workspace() {
    let mut session = session_with_tabs(&["one", "two", "three"]);
    let moved_root = session.workspaces[0].tabs[0].panes[0].pane_id.clone();
    let moved_id = session.workspaces[0].tabs[0].tab_id.clone();

    let local = handle_tab_move(
        &mut session,
        &req(),
        &TabMoveParams { tab_id: moved_id.clone(), insert_index: 3 },
    );

    let tabs = tabs_of(local.reply);
    assert_eq!(session.workspaces[0].tabs[2].panes[0].pane_id, moved_root);
    assert_eq!(tabs[2].tab_id, session.workspaces[0].tabs[2].tab_id);
    match local.event {
        Some(SessionEvent::TabMoved { tab_id, workspace_id, insert_index: 3, tabs }) => {
            assert_eq!(tab_id, moved_id);
            assert_eq!(workspace_id, "tabs-ws");
            assert_eq!(tabs[2].tab_id, moved_id);
        }
        other => panic!("expected the move to be told, got {other:?}"),
    }
    assert_eq!(session.workspaces[0].active_tab, 2, "the shown tab stays shown");
    assert!(session.tab_scroll_follow_active, "the tab bar follows the active tab");
    assert!(session.is_sound());

    session.tab_scroll_follow_active = false;
    let stays = TabMoveParams { tab_id: moved_id.clone(), insert_index: 3 };
    assert!(!handle_tab_move(&mut session, &req(), &stays).save);
    assert!(!session.tab_scroll_follow_active, "nothing moved");
    session.active = None;
    let hidden = TabMoveParams { tab_id: moved_id, insert_index: 0 };
    assert!(handle_tab_move(&mut session, &req(), &hidden).save);
    assert!(!session.tab_scroll_follow_active, "its workspace is not shown");
}

#[test]
fn moving_a_tab_past_the_end_or_nowhere() {
    let mut session = session_with_tabs(&["one", "two"]);
    let local = handle_tab_move(
        &mut session,
        &req(),
        &TabMoveParams { tab_id: "one-tab".to_string(), insert_index: 1 },
    );
    assert!(local.event.is_none(), "nothing moved");
    assert_eq!(tabs_of(local.reply)[0].tab_id, "one-tab");
    let local = handle_tab_move(
        &mut session,
        &req(),
        &TabMoveParams { tab_id: "gone".to_string(), insert_index: 0 },
    );
    assert_eq!(error_of(local.reply).0, "tab_not_found");
}

#[test]
fn tabs_are_listed_by_workspace() {
    let session = session_with_tabs(&["one", "two"]);
    let all = tabs_of(handle_tab_list(&session, &req(), &TabListParams { workspace_id: None }));
    assert_eq!(all.len(), 2);
    assert!(all[0].focused);
    assert!(!all[1].focused);
    assert_eq!(all[1].number, 2);
    let named = tabs_of(handle_tab_list(
        &session,
        &req(),
        &TabListParams { workspace_id: Some("tabs-ws".to_string()) },
    ));
    assert_eq!(named, all);
    let missing = handle_tab_list(
        &session,
        &req(),
        &TabListParams { workspace_id: Some("gone".to_string()) },
    );
    assert_eq!(
        error_of(missing),
        ("workspace_not_found".to_string(), "workspace gone not found".to_string())
    );
}

#[test]
fn one_tab_is_found_by_its_id() {
    let session = session_with_tabs(&["one", "two"]);
    match handle_tab_get(&session, &req(), &TabTarget { tab_id: "two-tab".to_string() }) {
        Reply::Success { id, result: ResponseResult::TabInfo { tab } } => {
            assert_eq!(id, "req");
            assert_eq!(tab.label, "two");
            assert_eq!(tab.workspace_id, "tabs-ws");
        }
        other => panic!("expected tab info, got {other:?}"),
    }
    let missing = handle_tab_get(&session, &req(), &TabTarget { tab_id: "gone".to_string() });
    assert_eq!(error_of(missing), ("tab_not_found".to_string(), "tab gone not found".to_string()));
}

#[test]
fn focusing_a_tab_shows_it() {
    let mut session = session_with_tabs(&["one", "two"]);
    session.active = None;
    session.mode = Mode::Navigate;
    let step = handle_tab_focus(
        &mut session,
        &no_hosts(),
        &req(),
        &TabTarget { tab_id: "two-tab".to_string() },
    );
    let HandlerStep::Answered(local) = step else { panic!("expected an answer") };
    assert!(matches!(
        local.reply,
        Reply::Success { result: ResponseResult::TabInfo { tab }, .. }
            if tab.tab_id == "two-tab" && tab.focused
    ));
    assert_eq!(session.active, Some(0));
    assert_eq!(session.workspaces[0].active_tab, 1);
}

#[test]
fn renaming_a_tab_here_is_told_and_saved() {
    let mut session = session_with_tabs(&["one", "two"]);
    let step = handle_tab_rename(
        &mut session,
        &no_hosts(),
        &req(),
        &TabRenameParams { tab_id: "two-tab".to_string(), label: "logs".to_string() },
    );
    let HandlerStep::Answered(local) = step else { panic!("expected an answer") };
    assert_eq!(session.workspaces[0].tabs[1].label, "logs");
    assert_eq!(session.workspaces[0].tabs[0].label, "one");
    assert_eq!(
        local.event,
        Some(SessionEvent::TabRenamed {
            tab_id: "two-tab".to_string(),
            workspace_id: "tabs-ws".to_string(),
            label: "logs".to_string(),
        })
    );
}

#[test]
fn closing_a_tab_drops_what_it_showed() {
    let mut session = session_with_tabs(&["one", "two"]);
    let step = handle_tab_close(
        &mut session,
        &no_hosts(),
        &req(),
        &TabCloseParams { tab_id: "one-tab".to_string(), confirm: false },
    );
    let HandlerStep::Answered(local) = step else { panic!("expected an answer") };
    assert_eq!(
        local.reply,
        Reply::Success { id: req(), result: ResponseResult::Acknowledged }
    );
    assert_eq!(
        local.event,
        Some(SessionEvent::TabClosed {
            tab_id: "one-tab".to_string(),
            workspace_id: "tabs-ws".to_string(),
        })
    );
    assert_eq!(session.workspaces[0].tabs.len(), 1);
    assert!(session.terminals.iter().all(|terminal| terminal.id != "one-term"));
    assert!(session.terminals.iter().any(|terminal| terminal.id == "two-term"));
    assert!(session.is_sound());

    let step = handle_tab_close(
        &mut session,
        &no_hosts(),
        &req(),
        &TabCloseParams { tab_id: "two-tab".to_string(), confirm: false },
    );
    assert!(matches!(step, HandlerStep::Answered(_)));
    assert!(session.is_sound());
}

#[test]
fn tab_create_follows_cached_focused_pane_cwd_without_runtime() {
    let mut session = session_with_tabs(&["one"]);
    session.terminals[0].cwd = Some("/tmp/cached".to_string());
    let params = TabCreateParams {
        workspace_id: None,
        cwd: None,
        focus: false,
        label: None,
        env: Arc::new(Vec::new()),
    };

    let step = handle_tab_create(
        &session,
        &no_hosts(),
        &req(),
        &params,
        Ok(Arc::new(Vec::new())),
    );
    let HandlerStep::LaunchTab(launch) = step else { panic!("expected a launch, got {step:?}") };
    assert_eq!(launch.directory, LaunchDirectory::Follow(Some("/tmp/cached".to_string())));
    assert_eq!(launch.workspace_id, "tabs-ws");

    let mut opened = terminal("new-term");
    opened.cwd = Some("/tmp/cached".to_string());
    session.pane_aliases.push(PaneAlias {
        alias: "new-pane".to_string(),
        pane_id: session.workspaces[0].tabs[0].panes[0].pane_id.clone(),
    });
    let local = handle_tab_launched(
        &mut session,
        &req(),
        launch,
        Ok(LaunchedTab {
            tab_id: "new-tab".to_string(),
            label: "2".to_string(),
            pane_id: "new-pane".to_string(),
            raw: 8,
            terminal: opened,
        }),
    );
    assert!(matches!(
        local.reply,
        Reply::Success { result: ResponseResult::TabCreated { .. }, .. }
    ));
    assert!(local.save);
    let created = &session.workspaces[0].tabs[1];
    let created_terminal = session
        .terminals
        .iter()
        .find(|terminal| terminal.id == created.panes[0].terminal_id)
        .unwrap();
    assert_eq!(created_terminal.cwd.as_deref(), Some("/tmp/cached"));
    assert_eq!(session.workspaces[0].active_tab, 0, "focus was not asked for");
    assert!(session.pane_aliases.is_empty(), "the new pane keeps its name for itself");
}

#[test]
fn tab_creation_can_fail_before_and_after_the_launch() {
    let mut session = session_with_tabs(&["one"]);
    let mut params = TabCreateParams {
        workspace_id: Some("gone".to_string()),
        cwd: Some("/work".to_string()),
        focus: true,
        label: Some("logs".to_string()),
        env: Arc::new(Vec::new()),
    };
    let step =
        handle_tab_create(&session, &no_hosts(), &req(), &params, Ok(Arc::new(Vec::new())));
    assert_eq!(answered_error(step).0, "workspace_not_found");

    params.workspace_id = Some("tabs-ws".to_string());
    let step = handle_tab_create(
        &session,
        &no_hosts(),
        &req(),
        &params,
        Err(error_body("invalid_env", "bad key".to_string())),
    );
    assert_eq!(answered_error(step).0, "invalid_env");

    let step =
        handle_tab_create(&session, &no_hosts(), &req(), &params, Ok(Arc::new(Vec::new())));
    let HandlerStep::LaunchTab(launch) = step else { panic!("expected a launch") };
    assert_eq!(launch.directory, LaunchDirectory::Given("/work".to_string()));
    assert_eq!(launch.label.as_deref(), Some("logs"));
    assert_eq!(launch.workspace, 0);
    let gone = TabLaunch {
        workspace: 1,
        workspace_id: launch.workspace_id.clone(),
        directory: LaunchDirectory::Follow(None),
        focus: false,
        label: None,
        env: Arc::new(Vec::new()),
    };
    let local = handle_tab_launched(&mut session, &req(), gone, Err("no shell".to_string()));
    assert_eq!(
        error_of(local.reply),
        ("tab_create_failed".to_string(), "workspace disappeared".to_string())
    );
    let local =
        handle_tab_launched(&mut session, &req(), launch, Err("no shell".to_string()));
    assert_eq!(error_of(local.reply), ("tab_create_failed".to_string(), "no shell".to_string()));
    assert_eq!(session.workspaces[0].tabs.len(), 1);
}

#[test]
fn without_a_shown_workspace_no_tab_can_be_made() {
    let session = Session::new();
    let params = TabCreateParams {
        workspace_id: None,
        cwd: None,
        focus: false,
        label: None,
        env: Arc::new(Vec::new()),
    };
    let step =
        handle_tab_create(&session, &no_hosts(), &req(), &params, Ok(Arc::new(Vec::new())));
    assert_eq!(answered_error(step).0, "workspace_not_found");
}

// Elsewhere --------------------------------------------------------------

#[test]
fn tab_focus_without_remote_hosts_keeps_slash_target_local() {
    let mut session = Session::new();
    let step = handle_tab_focus(
        &mut session,
        &no_hosts(),
        &req(),
        &TabTarget { tab_id: "jafar/tab:remote-tab".to_string() },
    );
    assert_eq!(answered_error(step).0, "tab_not_found");
}

#[test]
fn tab_focus_unknown_host_keeps_slash_target_local() {
    let mut session = Session::new();
    let mut federation = with_remote_host();
    seed_remote_tab_cache(&mut federation);
    let step = handle_tab_focus(
        &mut session,
        &federation,
        &req(),
        &TabTarget { tab_id: "logs/tab:remote-tab".to_string() },
    );
    assert_eq!(answered_error(step).0, "tab_not_found");
}

#[test]
fn a_tab_on_a_known_host_is_focused_there() {
    let mut session = session_with_tabs(&["one"]);
    let mut federation = with_remote_host();
    seed_remote_tab_cache(&mut federation);
    let step = handle_tab_focus(
        &mut session,
        &federation,
        &req(),
        &TabTarget { tab_id: "jafar/tab:remote-tab-2".to_string() },
    );
    let HandlerStep::Remote(descriptor) = step else { panic!("expected a remote change") };
    assert_eq!(descriptor.host_key, key());
    assert!(matches!(
        &descriptor.spec.primary.method,
        Method::TabFocus(target) if target.tab_id == "remote-tab-2"
    ));
}

#[test]
fn remote_tab_create_rewrites_workspace_and_passes_remote_fields_through() {
    let mut federation = with_remote_host();
    seed_remote_tab_cache(&mut federation);
    let mut calls = 0;
    let reply = run_remote(
        &mut federation,
        Request {
            id: req(),
            method: Method::TabCreate(TabCreateParams {
                workspace_id: Some("jafar/workspace:remote-ws".to_string()),
                cwd: Some("/remote/project".to_string()),
                focus: true,
                label: Some("shell".to_string()),
                env: Arc::new(vec![(
                    "REMOTE_ONLY".to_string(),
                    "$HOME/not-expanded".to_string(),
                )]),
            }),
        },
        RemoteTargetSelector::Workspace("remote-ws".to_string()),
        |request| {
            calls += 1;
            match &request.method {
                Method::TabCreate(params) => {
                    assert_eq!(params.workspace_id.as_deref(), Some("remote-ws"));
                    assert_eq!(params.cwd.as_deref(), Some("/remote/project"));
                    assert_eq!(
                        params
                            .env
                            .iter()
                            .find(|(name, _)| name == "REMOTE_ONLY")
                            .map(|(_, value)| value.as_str()),
                        Some("$HOME/not-expanded")
                    );
                    tab_created("remote-create", remote_tab("remote-tab-new", true))
                }
                Method::TabList(_) => tab_list_answer(vec![remote_tab("remote-tab-new", true)]),
                Method::LayoutExport(_) => layout_answer("remote-tab-new"),
                other => panic!("unexpected request: {other:?}"),
            }
        },
    );

    let value = forwarded(reply);
    assert_eq!(value["id"], "req");
    assert_eq!(value["result"]["type"], "tab_created");
    assert_eq!(calls, 3);
    let tabs = federation.remote_sources.tab_snapshot_for_space(&space()).unwrap();
    assert_eq!(tabs.tabs[0].tab_id, "remote-tab-new");
    assert_eq!(
        federation.remote_sources.host_status(&key()),
        Some(RemoteConnectionStatus::Connected)
    );
    let projection = federation.remote_sources.projection_for_space(&space()).unwrap();
    assert_eq!(projection.status, RemoteProjectionStatus::Available);
    assert_eq!(projection.layout.as_ref().unwrap().focused_pane_id, "remote-pane");
}

#[test]
fn remote_tab_create_does_not_fetch_unadvertised_metadata_refreshes() {
    let mut federation = with_remote_host();
    seed_remote_tab_cache(&mut federation);
    federation.remote_sources.set_capabilities(
        &key(),
        RemoteSourceCapabilities {
            workspace_list_local: true,
            tab_create: true,
            tab_focus: true,
            tab_close: true,
            ..RemoteSourceCapabilities::default()
        },
    );
    let mut calls = 0;

    let reply = run_remote(
        &mut federation,
        Request {
            id: req(),
            method: Method::TabCreate(TabCreateParams {
                workspace_id: Some("jafar/workspace:remote-ws".to_string()),
                cwd: None,
                focus: true,
                label: None,
                env: Arc::new(Vec::new()),
            }),
        },
        RemoteTargetSelector::Workspace("remote-ws".to_string()),
        |request| {
            calls += 1;
            match &request.method {
                Method::TabCreate(_) => {
                    tab_created("remote-create", remote_tab("remote-tab-new", true))
                }
                other => panic!("unexpected metadata refresh request: {other:?}"),
            }
        },
    );

    assert_eq!(forwarded(reply)["id"], "req");
    assert_eq!(calls, 1);
    let tabs = federation.remote_sources.tab_snapshot_for_space(&space()).unwrap();
    assert_eq!(tabs.status, RemoteProjectionStatus::StaleLastKnown);
}

#[test]
fn remote_tab_focus_forwards_raw_tab_id_and_rewrites_response_id() {
    let mut federation = with_remote_host();
    seed_remote_tab_cache(&mut federation);
    let mut forwarded_tab_id = None;

    let reply = run_remote(
        &mut federation,
        Request {
            id: req(),
            method: Method::TabFocus(TabTarget { tab_id: "jafar/tab:remote-tab-2".to_string() }),
        },
        RemoteTargetSelector::Tab("remote-tab-2".to_string()),
        |request| match &request.method {
            Method::TabFocus(target) => {
                forwarded_tab_id = Some(target.tab_id.clone());
                tab_info_answer("remote-focus", remote_tab("remote-tab-2", true))
            }
            Method::TabList(_) => tab_list_answer(vec![remote_tab("remote-tab-2", true)]),
            Method::LayoutExport(_) => layout_answer("remote-tab-2"),
            other => panic!("unexpected request: {other:?}"),
        },
    );

    assert_eq!(forwarded(reply)["id"], "req");
    assert_eq!(forwarded_tab_id.as_deref(), Some("remote-tab-2"));
}

#[test]
fn remote_tab_close_requires_confirm_before_status_or_cache_resolution() {
    let mut session = Session::new();
    let step = handle_tab_close(
        &mut session,
        &with_remote_host(),
        &req(),
        &TabCloseParams { tab_id: "jafar/tab:remote-tab-1".to_string(), confirm: false },
    );
    assert_eq!(answered_error(step).0, "confirmation_required");
}

#[test]
fn remote_tab_close_stale_metadata_does_not_send() {
    let mut session = Session::new();
    let mut federation = with_remote_host();
    seed_remote_tab_cache(&mut federation);
    federation.remote_sources.mark_status(&key(), RemoteConnectionStatus::Disconnected);

    let step = handle_tab_close(
        &mut session,
        &federation,
        &req(),
        &TabCloseParams { tab_id: "jafar/tab:remote-tab-1".to_string(), confirm: true },
    );
    assert_eq!(answered_error(step).0, "remote_host_not_connected");
}

#[test]
fn remote_tab_close_forwards_confirmed_raw_id_and_refreshes_cache() {
    let mut federation = with_remote_host();
    seed_remote_tab_cache(&mut federation);
    let mut forwarded_confirm = None;

    let reply = run_remote(
        &mut federation,
        Request {
            id: req(),
            method: Method::TabClose(TabCloseParams {
                tab_id: "jafar/tab:remote-tab-2".to_string(),
                confirm: true,
            }),
        },
        RemoteTargetSelector::Tab("remote-tab-2".to_string()),
        |request| match &request.method {
            Method::TabClose(params) => {
                forwarded_confirm = Some((params.tab_id.clone(), params.confirm));
                answer("remote-close", "ok", ResponseResult::Acknowledged)
            }
            Method::TabList(_) => tab_list_answer(vec![remote_tab("remote-tab-1", true)]),
            Method::LayoutExport(_) => layout_answer("remote-tab-1"),
            other => panic!("unexpected request: {other:?}"),
        },
    );

    let value = forwarded(reply);
    assert_eq!(value["id"], "req");
    assert_eq!(value["result"]["type"], "ok");
    assert_eq!(forwarded_confirm, Some(("remote-tab-2".to_string(), true)));
    let tabs = federation.remote_sources.tab_snapshot_for_space(&space()).unwrap();
    assert_eq!(
        tabs.tabs.iter().map(|tab| tab.tab_id.as_str()).collect::<Vec<_>>(),
        vec!["remote-tab-1"]
    );
}

#[test]
fn remote_tab_request_failure_surfaces_remote_request_failed() {
    let mut federation = with_remote_host();
    seed_remote_tab_cache(&mut federation);
    let reply = run_remote(
        &mut federation,
        Request {
            id: req(),
            method: Method::TabFocus(TabTarget { tab_id: "jafar/tab:remote-tab-1".to_string() }),
        },
        RemoteTargetSelector::Tab("remote-tab-1".to_string()),
        |request| match &request.method {
            Method::TabFocus(_) => Err("ssh failed".to_string()),
            other => panic!("unexpected request: {other:?}"),
        },
    );
    assert_eq!(error_of(reply).0, "remote_request_failed");
}

#[test]
fn an_unreadable_answer_is_a_failed_request() {
    let reply = primary_answered(&req(), Ok("not json".to_string())).expect_err("no value");
    assert_eq!(error_of(reply).0, "remote_request_failed");
}

#[test]
fn tab_rename_without_remote_hosts_keeps_slash_target_local() {
    let mut session = Session::new();
    let step = handle_tab_rename(
        &mut session,
        &no_hosts(),
        &req(),
        &TabRenameParams {
            tab_id: "jafar/tab:remote-tab-1".to_string(),
            label: "new name".to_string(),
        },
    );
    assert_eq!(answered_error(step).0, "tab_not_found");
}

fn rename_request(id: &str, label: &str) -> Request {
    Request {
        id: id.to_string(),
        method: Method::TabRename(TabRenameParams {
            tab_id: "jafar/tab:remote-tab-1".to_string(),
            label: label.to_string(),
        }),
    }
}

#[test]
fn tab_rename_missing_capability_rejects_before_send() {
    let mut federation = with_remote_host();
    seed_remote_tab_cache(&mut federation);
    let reply = run_remote(
        &mut federation,
        rename_request("req", "new name"),
        RemoteTargetSelector::Tab("remote-tab-1".to_string()),
        |_| panic!("missing capability must not send"),
    );
    let (code, message) = error_of(reply);
    assert_eq!(code, "remote_capability_unavailable");
    assert!(message.contains(FederationCapabilities::TAB_RENAME));
}

#[test]
fn tab_rename_stale_metadata_rejects_before_send() {
    let mut federation = with_remote_host();
    seed_remote_tab_rename_cache(&mut federation);
    federation.remote_sources.mark_status(&key(), RemoteConnectionStatus::Disconnected);
    let reply = run_remote(
        &mut federation,
        rename_request("req", "new name"),
        RemoteTargetSelector::Tab("remote-tab-1".to_string()),
        |_| panic!("disconnected host must not send"),
    );
    assert_eq!(error_of(reply).0, "remote_host_not_connected");
}

#[test]
fn tab_rename_success_forwards_raw_tab_id_and_updates_cache() {
    let mut federation = with_remote_host();
    seed_remote_tab_rename_cache(&mut federation);
    let mut captured: Option<Request> = None;

    let reply = run_remote(
        &mut federation,
        rename_request("local-req", "renamed"),
        RemoteTargetSelector::Tab("remote-tab-1".to_string()),
        |request| {
            if captured.is_none() {
                captured = Some(request.clone());
            }
            tab_info_answer("remote-req", remote_tab("remote-tab-1", true))
        },
    );

    assert_eq!(forwarded(reply)["id"], "local-req");
    let Method::TabRename(params) = captured.expect("request captured").method else {
        panic!("expected tab.rename");
    };
    assert_eq!(params.tab_id, "remote-tab-1");
    assert_eq!(params.label, "renamed");
    assert!(!federation.remote_sources.source(&key()).unwrap().tabs.is_empty());
}

#[test]
fn the_active_tab_is_the_focused_then_the_preferred_then_the_first() {
    let tabs = vec![remote_tab("remote-tab-1", false), remote_tab("remote-tab-2", true)];
    assert_eq!(active_tab_index(&tabs, &Some("remote-tab-1".to_string())), Some(1));
    assert_eq!(active_tab_index(&tabs, &None), Some(1));
    let unfocused = vec![remote_tab("remote-tab-1", false), remote_tab("remote-tab-2", false)];
    assert_eq!(active_tab_index(&unfocused, &Some("remote-tab-2".to_string())), Some(1));
    assert_eq!(active_tab_index(&unfocused, &Some("gone".to_string())), Some(0));
    assert_eq!(active_tab_index(&unfocused, &None), Some(0));
    assert_eq!(active_tab_index(&Vec::new(), &None), None);
}
