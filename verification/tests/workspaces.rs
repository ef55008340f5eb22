//! Requests about workspaces, here and on remote hosts.
use std::sync::Arc;

use herdr::local_api::{
    handle_workspace_close, handle_workspace_create, handle_workspace_focus, handle_workspace_get,
    handle_workspace_launched, handle_workspace_list, handle_workspace_list_local,
    handle_workspace_move, handle_workspace_rename, HandlerStep, LaunchDirectory, LaunchedTab,
    LaunchedWorkspace, SessionEvent,
};
use herdr::remote_calls::{primary_answered, primary_applied, primary_reply};
use herdr::remote_source::{
    RemoteConnectionStatus, RemoteHostKey, RemoteSourceCapabilities, RemoteSources,
};
use herdr::remote_target::{RemoteHostConfig, RemoteHostRegistry, RemoteTargetSelector};
use herdr::routed_plan::{Federation, RoutedPlanOutcome};
use herdr::schema::{
    AgentStatus, Method, Reply, Request, ResponseResult, WorkspaceCreateParams, WorkspaceInfo,
    WorkspaceMoveParams, WorkspaceRenameParams, WorkspaceTarget, WorktreeInfo,
};
use herdr::server::FederationCapabilities;
use herdr::session::{Pane, Session, Tab, TerminalState, Workspace};

fn key() -> RemoteHostKey {
    RemoteHostKey::new("jafar".to_string(), "default".to_string())
}

fn host() -> RemoteHostConfig {
    RemoteHostConfig::new("jafar", "jafar", "default", true)
}

fn no_hosts() -> Federation {
    Federation {
        remote_hosts: RemoteHostRegistry { hosts: Vec::new() },
        remote_sources: RemoteSources::new(),
        supervisors: Vec::new(),
    }
}

fn with_remote_host() -> Federation {
    Federation {
        remote_hosts: RemoteHostRegistry { hosts: vec![host()] },
        remote_sources: RemoteSources::new(),
        supervisors: Vec::new(),
    }
}

fn terminal(id: &str) -> TerminalState {
    TerminalState {
        id: id.to_string(),
        agent_name: None,
        manual_label: None,
        agent: None,
        title: None,
        display_agent: None,
        agent_status: AgentStatus::Unknown,
        screen_detection_skipped: false,
        custom_status: None,
        state_labels: Arc::new(Vec::new()),
        agent_session: None,
        cwd: None,
        foreground_cwd: None,
        revision: 0,
        remote_attach: None,
        respawn_shell_on_exit: false,
        launch_argv: None,
    }
}

fn session_with(names: &[&str]) -> Session {
    let mut session = Session::new();
    for name in names {
        session.workspaces.push(Workspace {
            workspace_id: format!("{name}-ws"),
            label: name.to_string(),
            tabs: vec![Tab {
                tab_id: format!("{name}-tab"),
                label: "1".to_string(),
                panes: vec![Pane {
                    pane_id: format!("{name}-pane"),
                    raw: 7,
                    terminal_id: format!("{name}-term"),
                }],
                focused: 0,
                agent_status: AgentStatus::Unknown,
            }],
            active_tab: 0,
            worktree: None,
            agent_status: AgentStatus::Unknown,
        });
        session.terminals.push(terminal(&format!("{name}-term")));
    }
    assert!(session.is_sound());
    session
}

fn session_with_linked_worktree() -> Session {
    let mut session = session_with(&["issue"]);
    session.workspaces[0].worktree = Some(WorktreeInfo {
        key: "repo-key".into(),
        label: "herdr".into(),
        repo_root: "/repo/herdr".into(),
        checkout_path: "/repo/herdr-issue".into(),
        is_linked_worktree: true,
    });
    session
}

fn req() -> String {
    "req".to_string()
}

fn target(workspace_id: &str) -> WorkspaceTarget {
    WorkspaceTarget { workspace_id: workspace_id.to_string() }
}

fn workspaces_of(reply: Reply) -> Vec<WorkspaceInfo> {
    match reply {
        Reply::Success { id, result: ResponseResult::WorkspaceList { workspaces } } => {
            assert_eq!(id, "req");
            workspaces
        }
        other => panic!("expected workspace list, got {other:?}"),
    }
}

fn error_of(reply: Reply) -> (String, String) {
    match reply {
        Reply::Error { id, error } => {
            assert_eq!(id, "req");
            (error.code, error.message)
        }
        other => panic!("expected an error, got {other:?}"),
    }
}

#[test]
fn api_workspace_close_closes_linked_worktree_workspace_only() {
    let mut session = session_with_linked_worktree();
    let workspace_id = session.workspaces[0].workspace_id.clone();

    let local = handle_workspace_close(&mut session, &req(), &target(&workspace_id));

    assert_eq!(
        local.reply,
        Reply::Success { id: req(), result: ResponseResult::Acknowledged }
    );
    assert!(session.workspaces.is_empty());
    assert!(session.terminals.is_empty());
    assert!(session.is_sound());
}

#[test]
fn api_workspace_list_local_returns_authoritative_local_workspaces() {
    let session = session_with_linked_worktree();

    let workspaces = workspaces_of(handle_workspace_list_local(&session, &req()));

    assert_eq!(workspaces.len(), 1);
    assert_eq!(workspaces[0].label, "issue");
    assert_eq!(workspaces[0].workspace_id, session.workspaces[0].workspace_id);
    assert_eq!(workspaces_of(handle_workspace_list(&session, &req())), workspaces);
}

#[test]
fn api_workspace_close_event_includes_final_worktree_snapshot() {
    let mut session = session_with_linked_worktree();
    let id = session.workspaces[0].workspace_id.clone();

    let local = handle_workspace_close(&mut session, &req(), &target(&id));

    match local.event {
        Some(SessionEvent::WorkspaceClosed { workspace_id, workspace: Some(workspace) }) => {
            assert_eq!(workspace_id, id);
            assert!(workspace
                .worktree
                .as_ref()
                .is_some_and(|worktree| worktree.is_linked_worktree));
        }
        other => panic!("expected the close to be told, got {other:?}"),
    }
}

#[test]
fn api_workspace_move_reorders_workspaces() {
    let mut session = session_with(&["one", "two", "three"]);
    session.active = Some(0);
    session.selected = 0;
    let moved_id = session.workspaces[0].workspace_id.clone();

    let local = handle_workspace_move(
        &mut session,
        &req(),
        &WorkspaceMoveParams { workspace_id: moved_id.clone(), insert_index: 3 },
    );

    let workspaces = workspaces_of(local.reply);
    assert_eq!(workspaces[2].workspace_id, moved_id);
    assert_eq!(session.workspaces[2].label, "one");
    assert_eq!(session.active, Some(2));
    match local.event {
        Some(SessionEvent::WorkspaceMoved { workspace_id, insert_index: 3, workspaces }) => {
            assert_eq!(workspace_id, moved_id);
            assert_eq!(workspaces[2].workspace_id, moved_id);
        }
        other => panic!("expected the move to be told, got {other:?}"),
    }
}

#[test]
fn api_workspace_move_noop_does_not_emit_event() {
    let mut session = session_with(&["one", "two"]);
    let moved_id = session.workspaces[0].workspace_id.clone();

    let local = handle_workspace_move(
        &mut session,
        &req(),
        &WorkspaceMoveParams { workspace_id: moved_id.clone(), insert_index: 1 },
    );

    assert_eq!(workspaces_of(local.reply)[0].workspace_id, moved_id);
    assert!(local.event.is_none());
}

#[test]
fn workspaces_are_found_focused_and_renamed_by_id() {
    let mut session = session_with(&["one", "two"]);
    match handle_workspace_get(&session, &req(), &target("two-ws")) {
        Reply::Success { result: ResponseResult::WorkspaceInfo { workspace }, .. } => {
            assert_eq!(workspace.number, 2);
            assert_eq!(workspace.tab_count, 1);
            assert_eq!(workspace.pane_count, 1);
            assert_eq!(workspace.active_tab_id, "two-tab");
            assert!(!workspace.focused);
        }
        other => panic!("expected workspace info, got {other:?}"),
    }
    assert_eq!(
        error_of(handle_workspace_get(&session, &req(), &target("gone"))),
        ("workspace_not_found".to_string(), "workspace gone not found".to_string())
    );

    let local = handle_workspace_focus(&mut session, &req(), &target("two-ws"));
    assert!(matches!(
        local.reply,
        Reply::Success { result: ResponseResult::WorkspaceInfo { workspace }, .. }
            if workspace.focused
    ));
    assert_eq!(session.active, Some(1));

    let step = handle_workspace_rename(
        &mut session,
        &no_hosts(),
        &req(),
        &WorkspaceRenameParams { workspace_id: "one-ws".to_string(), label: "first".to_string() },
    );
    let HandlerStep::Answered(local) = step else { panic!("expected an answer") };
    assert_eq!(session.workspaces[0].label, "first");
    assert_eq!(
        local.event,
        Some(SessionEvent::WorkspaceRenamed {
            workspace_id: "one-ws".to_string(),
            label: "first".to_string(),
        })
    );
}

#[test]
fn a_new_workspace_is_launched_and_then_opened() {
    let mut session = session_with(&["one"]);
    session.active = Some(0);
    let params = WorkspaceCreateParams {
        cwd: None,
        focus: true,
        label: Some("fresh".to_string()),
        env: Arc::new(Vec::new()),
    };
    let step =
        handle_workspace_create(&session, &req(), &params, Ok(Arc::new(Vec::new())));
    let HandlerStep::LaunchWorkspace(launch) = step else { panic!("expected a launch") };
    assert_eq!(launch.directory, LaunchDirectory::Follow(None));
    let local = handle_workspace_launched(
        &mut session,
        &req(),
        launch,
        Ok(LaunchedWorkspace {
            workspace_id: "fresh-ws".to_string(),
            label: "somewhere".to_string(),
            tab: LaunchedTab {
                tab_id: "fresh-tab".to_string(),
                label: "1".to_string(),
                pane_id: "fresh-pane".to_string(),
                raw: 8,
                terminal: terminal("fresh-term"),
            },
        }),
    );
    match local.reply {
        Reply::Success {
            result: ResponseResult::WorkspaceCreated { workspace, tab, root_pane },
            ..
        } => {
            assert_eq!(workspace.label, "fresh");
            assert_eq!(tab.tab_id, "fresh-tab");
            assert_eq!(root_pane.terminal_id, "fresh-term");
        }
        other => panic!("expected the workspace, got {other:?}"),
    }
    assert!(local.save);
    assert_eq!(session.active, Some(1));
    assert!(session.is_sound());

    let step =
        handle_workspace_create(&session, &req(), &params, Ok(Arc::new(Vec::new())));
    let HandlerStep::LaunchWorkspace(launch) = step else { panic!("expected a launch") };
    let local =
        handle_workspace_launched(&mut session, &req(), launch, Err("no shell".to_string()));
    assert_eq!(
        error_of(local.reply),
        ("workspace_create_failed".to_string(), "no shell".to_string())
    );
    assert_eq!(session.workspaces.len(), 2);
}

// Elsewhere --------------------------------------------------------------

fn seed_remote_workspace_metadata(federation: &mut Federation) {
    federation.remote_sources.replace_workspace_snapshot(
        &key(),
        vec![remote_workspace("remote workspace")],
    );
}

fn remote_workspace(label: &str) -> WorkspaceInfo {
    WorkspaceInfo {
        workspace_id: "remote-ws".to_string(),
        number: 1,
        label: label.to_string(),
        focused: false,
        pane_count: 1,
        tab_count: 1,
        active_tab_id: "remote-tab".to_string(),
        agent_status: AgentStatus::Unknown,
        worktree: None,
    }
}

fn rename_request(id: &str, label: &str) -> Request {
    Request {
        id: id.to_string(),
        method: Method::WorkspaceRename(WorkspaceRenameParams {
            workspace_id: "jafar/workspace:remote-ws".to_string(),
            label: label.to_string(),
        }),
    }
}

fn run_remote(
    federation: &mut Federation,
    request: Request,
    send: impl FnOnce(&Request) -> (String, ResponseResult),
) -> Reply {
    let selector = RemoteTargetSelector::Workspace("remote-ws".to_string());
    let descriptor = match federation.plan_on_host(&request, &host(), &selector) {
        RoutedPlanOutcome::Immediate(reply) => return reply,
        RoutedPlanOutcome::Deferred(descriptor) => descriptor,
        RoutedPlanOutcome::NotHandled => panic!("the request names the host"),
    };
    assert_eq!(descriptor.host.name, "jafar");
    let (text, result) = send(&descriptor.spec.primary);
    let value = match primary_answered(&request.id, Ok(text)) {
        Ok(value) => value,
        Err(reply) => return reply,
    };
    let refresh = primary_applied(&mut federation.remote_sources, &descriptor, Some(result));
    assert!(refresh.is_none());
    primary_reply(&request.id, &value)
}

#[test]
fn workspace_rename_without_remote_hosts_keeps_slash_target_local() {
    let mut session = Session::new();
    let step = handle_workspace_rename(
        &mut session,
        &no_hosts(),
        &req(),
        &WorkspaceRenameParams {
            workspace_id: "jafar/workspace:remote-ws".to_string(),
            label: "new name".to_string(),
        },
    );
    let HandlerStep::Answered(local) = step else { panic!("expected an answer") };
    assert_eq!(error_of(local.reply).0, "workspace_not_found");
}

#[test]
fn workspace_rename_remote_disconnected_host_rejects_before_send() {
    let mut federation = with_remote_host();
    seed_remote_workspace_metadata(&mut federation);
    federation.remote_sources.mark_status(&key(), RemoteConnectionStatus::Unreachable);

    let reply = run_remote(&mut federation, rename_request("req", "new name"), |_| {
        panic!("disconnected host must not send a remote request")
    });
    let (code, message) = error_of(reply);
    assert_eq!(code, "remote_host_not_connected");
    assert!(message.contains("unreachable"));
}

#[test]
fn workspace_rename_missing_capability_rejects_before_send() {
    let mut federation = with_remote_host();
    seed_remote_workspace_metadata(&mut federation);

    let reply = run_remote(&mut federation, rename_request("req", "new name"), |_| {
        panic!("missing capability must not send a remote request")
    });
    let (code, message) = error_of(reply);
    assert_eq!(code, "remote_capability_unavailable");
    assert!(message.contains(FederationCapabilities::WORKSPACE_RENAME));
}

#[test]
fn workspace_rename_missing_metadata_rejects_before_send() {
    let mut federation = with_remote_host();
    federation.remote_sources.replace_connected_snapshot(&key(), Vec::new());
    federation.remote_sources.set_capabilities(
        &key(),
        RemoteSourceCapabilities { workspace_rename: true, ..RemoteSourceCapabilities::default() },
    );

    let reply = run_remote(&mut federation, rename_request("req", "new name"), |_| {
        panic!("missing metadata must not send a remote request")
    });
    assert_eq!(error_of(reply).0, "remote_workspace_unavailable");
}

#[test]
fn workspace_rename_connected_remote_forwards_raw_workspace_id_and_updates_cache() {
    let mut federation = with_remote_host();
    seed_remote_workspace_metadata(&mut federation);
    federation.remote_sources.set_capabilities(
        &key(),
        RemoteSourceCapabilities { workspace_rename: true, ..RemoteSourceCapabilities::default() },
    );
    let mut captured: Option<Request> = None;

    let reply = run_remote(&mut federation, rename_request("local-req", "renamed"), |request| {
        captured = Some(request.clone());
        (
            r#"{"id":"remote-req","result":{"type":"workspace_info"}}"#.to_string(),
            ResponseResult::WorkspaceInfo { workspace: remote_workspace("renamed") },
        )
    });

    let Reply::Forwarded { text } = reply else { panic!("expected the host's answer") };
    let value: serde_json::Value = serde_json::from_str(&text).unwrap();
    assert_eq!(value["id"], "local-req");

    let Method::WorkspaceRename(params) = captured.expect("request captured").method else {
        panic!("expected workspace.rename");
    };
    assert_eq!(params.workspace_id, "remote-ws");
    assert_eq!(params.label, "renamed");

    let source = federation.remote_sources.source(&key()).unwrap();
    let workspaces = source.workspaces.as_ref().expect("workspace cache");
    assert!(workspaces
        .iter()
        .any(|workspace| workspace.label == "renamed" && workspace.workspace_id == "remote-ws"));
}
