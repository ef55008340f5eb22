//! Local agents, cached remote agents, and requests to either.
use std::sync::Arc;

use herdr::agent_api::{
    agent_read_finished, agent_sent, agent_start_finished, handle_agent_focus, handle_agent_get,
    handle_agent_list, handle_agent_list_local, handle_agent_read, handle_agent_rename,
    handle_agent_send, handle_agent_start, AgentStep, DEFAULT_READ_LINES, MAX_READ_LINES,
};
use herdr::agent_plan::{
    remote_agent_focus_request, remote_agent_read_request, remote_agent_send_request,
    remote_agent_start_request, RemoteAgentResponseRewrite,
};
use herdr::agent_start::{AgentLaunch, AgentStartError, LaunchedPane};
use herdr::local_agents::TerminalTargetError;
use herdr::local_api::{LaunchedTab, LaunchedWorkspace};
use herdr::remote_helpers::{
    rewrite_remote_agent_start_response, rewrite_remote_response_id, BridgeErrorKind,
};
use herdr::remote_source::{RemoteConnectionStatus, RemoteHostKey, RemoteSources};
use herdr::remote_target::{RemoteHostConfig, RemoteHostRegistry};
use herdr::routed_plan::Federation;
use herdr::schema::{
    AgentInfo, AgentReadParams, AgentRenameParams, AgentSendParams, AgentStartParams, AgentStatus,
    AgentTarget, Method, ReadFormat, ReadSource, Reply, ResponseResult, SplitDirection,
};
use herdr::session::{
    Mode, Pane, PaneAlias, RemoteAttachTarget, Session, Tab, TerminalState, Workspace,
};

fn key() -> RemoteHostKey {
    RemoteHostKey::new("jafar".to_string(), "default".to_string())
}

fn no_hosts() -> Federation {
    Federation {
        remote_hosts: RemoteHostRegistry { hosts: Vec::new() },
        remote_sources: RemoteSources::new(),
        supervisors: Vec::new(),
    }
}

fn one_host() -> Federation {
    Federation {
        remote_hosts: RemoteHostRegistry {
            hosts: vec![RemoteHostConfig::new("jafar", "jafar", "default", true)],
        },
        remote_sources: RemoteSources::new(),
        supervisors: Vec::new(),
    }
}

fn remote_agent(terminal_id: &str, pane_id: &str, label: &str) -> AgentInfo {
    AgentInfo {
        terminal_id: terminal_id.to_string(),
        name: Some(label.to_string()),
        agent: Some(label.to_string()),
        title: Some(format!("{label} title")),
        display_agent: Some(format!("{label} display")),
        agent_status: AgentStatus::Working,
        screen_detection_skipped: false,
        custom_status: None,
        state_labels: Arc::new(Vec::new()),
        agent_session: None,
        workspace_id: "remote-ws".to_string(),
        tab_id: "remote-tab".to_string(),
        pane_id: pane_id.to_string(),
        focused: false,
        cwd: None,
        foreground_cwd: None,
        revision: 1,
    }
}

fn plain_remote_agent(terminal_id: &str, pane_id: &str, name: &str) -> AgentInfo {
    let mut agent = remote_agent(terminal_id, pane_id, name);
    agent.title = None;
    agent.display_agent = Some(name.to_string());
    agent
}

fn terminal(id: &str) -> TerminalState {
    TerminalState {
        id: id.to_string(),
        agent_name: None,
        manual_label: None,
        agent: None,
        title: None,
        display_agent: None,
        agent_status: AgentStatus::Unknown,
        screen_detection_skipped: false,
        custom_status: None,
        state_labels: Arc::new(Vec::new()),
        agent_session: None,
        cwd: None,
        foreground_cwd: None,
        revision: 0,
        remote_attach: None,
        respawn_shell_on_exit: false,
        launch_argv: None,
    }
}

/// A workspace with one tab and one pane, whose terminal is returned beside it.
fn workspace(name: &str) -> (Workspace, TerminalState) {
    let terminal_id = format!("{name}-term");
    let workspace = Workspace {
        workspace_id: format!("{name}-ws"),
        label: name.to_string(),
        tabs: vec![Tab {
            tab_id: format!("{name}-tab"),
            label: "1".to_string(),
            panes: vec![Pane {
                pane_id: format!("{name}-pane"),
                raw: 7,
                terminal_id: terminal_id.clone(),
            }],
            focused: 0,
            agent_status: AgentStatus::Unknown,
        }],
        active_tab: 0,
        worktree: None,
        agent_status: AgentStatus::Unknown,
    };
    (workspace, terminal(&terminal_id))
}

fn session_with(names: &[&str]) -> Session {
    let mut session = Session::new();
    for name in names {
        let (workspace, terminal) = workspace(name);
        session.workspaces.push(workspace);
        session.terminals.push(terminal);
    }
    if !names.is_empty() {
        session.active = Some(0);
        session.mode = Mode::Terminal;
    }
    assert!(session.is_sound());
    session
}

fn session_with_agent(name: &str, agent: &str) -> Session {
    let mut session = session_with(&[name]);
    session.terminals[0].agent_name = Some(agent.to_string());
    session
}

fn error_of(reply: Reply) -> (String, String, String) {
    match reply {
        Reply::Error { id, error } => (id, error.code, error.message),
        other => panic!("expected an error, got {other:?}"),
    }
}

fn agent_of(reply: Reply) -> (String, AgentInfo) {
    match reply {
        Reply::Success { id, result: ResponseResult::AgentInfo { agent } } => (id, agent),
        other => panic!("expected agent info, got {other:?}"),
    }
}

fn agents_of(reply: Reply) -> Vec<AgentInfo> {
    match reply {
        Reply::Success { result: ResponseResult::AgentList { agents }, .. } => agents,
        other => panic!("expected agent list, got {other:?}"),
    }
}

fn start_params() -> AgentStartParams {
    AgentStartParams {
        host: None,
        name: "worker".to_string(),
        cwd: None,
        workspace_id: None,
        tab_id: None,
        split: None,
        focus: false,
        new_workspace: false,
        argv: Arc::new(vec!["/usr/bin/true".to_string()]),
        env: Arc::new(Vec::new()),
    }
}

// The listing ------------------------------------------------------------

#[test]
fn collect_agent_infos_keeps_local_agents_first_and_unchanged() {
    let session = session_with_agent("local", "local-codex");
    let mut sources = RemoteSources::new();
    sources.replace_connected_snapshot(
        &key(),
        vec![remote_agent("remote-term", "remote-pane", "codex")],
    );

    let agents = session.collect_agent_infos(&sources);

    assert_eq!(agents.len(), 2);
    assert_eq!(agents[0].terminal_id, "local-term");
    assert_eq!(agents[0].name.as_deref(), Some("local-codex"));
    assert_eq!(agents[1].terminal_id, "remote-term");
}

#[test]
fn local_agent_name_conflicts_ignore_remote_cache_entries() {
    let session = Session::new();
    let mut sources = RemoteSources::new();
    sources.replace_connected_snapshot(
        &key(),
        vec![remote_agent("remote-term", "remote-pane", "codex")],
    );

    assert_eq!(session.collect_agent_infos(&sources).len(), 1);
    let conflicts = session.agent_name_conflicts("jafar/codex", "");

    assert!(conflicts.is_empty());
}

#[test]
fn local_agent_infos_ignore_remote_attach_terminals() {
    let mut session = session_with_agent("attach", "codex");
    session.terminals[0].remote_attach = Some(RemoteAttachTarget {
        host: "jafar".into(),
        session: "default".into(),
        terminal_id: "remote-term".into(),
        label: "jafar/codex".into(),
    });

    assert!(session.collect_local_agent_infos().is_empty());
    assert!(session.agent_name_conflicts("codex", "").is_empty());
}

#[test]
fn collect_agent_infos_appends_host_qualified_remote_labels() {
    let session = Session::new();
    let mut sources = RemoteSources::new();
    sources.replace_connected_snapshot(
        &key(),
        vec![remote_agent("remote-term", "remote-pane", "codex")],
    );

    let agents = session.collect_agent_infos(&sources);

    assert_eq!(agents.len(), 1);
    assert_eq!(agents[0].name.as_deref(), Some("jafar/codex"));
    assert_eq!(agents[0].agent.as_deref(), Some("jafar/codex"));
    assert_eq!(agents[0].display_agent.as_deref(), Some("jafar/codex display"));
    assert_eq!(agents[0].title.as_deref(), Some("jafar/codex title"));
    assert_eq!(agents[0].terminal_id, "remote-term");
    assert_eq!(agents[0].pane_id, "remote-pane");
}

#[test]
fn collect_agent_infos_keeps_disconnected_remote_cache_entries() {
    let session = Session::new();
    let mut sources = RemoteSources::new();
    let mut agent = remote_agent("remote-term", "remote-pane", "codex");
    agent.custom_status = Some("busy".to_string());
    sources.replace_connected_snapshot(&key(), vec![agent]);
    sources.mark_status(&key(), RemoteConnectionStatus::NeedsUpdate);

    let agents = session.collect_agent_infos(&sources);

    assert_eq!(agents.len(), 1);
    assert_eq!(agents[0].name.as_deref(), Some("jafar/codex"));
    assert_eq!(agents[0].custom_status.as_deref(), Some("needs update"));
    assert_eq!(agents[0].terminal_id, "remote-term");
}

#[test]
fn collect_agent_infos_ignores_remote_host_status_without_agents() {
    let session = Session::new();
    let mut sources = RemoteSources::new();
    sources.mark_status(&key(), RemoteConnectionStatus::Unreachable);

    let agents = session.collect_agent_infos(&sources);

    assert!(agents.is_empty());
}

#[test]
fn collect_agent_infos_does_not_synthesize_remote_label_or_local_ids() {
    let session = Session::new();
    let mut sources = RemoteSources::new();
    let mut agent = remote_agent("remote-term", "remote-pane", "codex");
    agent.name = None;
    agent.display_agent = None;
    sources.replace_connected_snapshot(&key(), vec![agent]);

    let agents = session.collect_agent_infos(&sources);

    assert_eq!(agents.len(), 1);
    assert_eq!(agents[0].name, None);
    assert_eq!(agents[0].display_agent, None);
    assert_eq!(agents[0].agent.as_deref(), Some("jafar/codex"));
    assert_eq!(agents[0].pane_id, "remote-pane");
    assert_eq!(agents[0].terminal_id, "remote-term");
}

#[test]
fn agent_list_local_returns_only_local_agents() {
    let session = session_with_agent("local", "local-codex");
    let mut sources = RemoteSources::new();
    sources.replace_connected_snapshot(
        &key(),
        vec![plain_remote_agent("remote-term", "remote-pane", "codex")],
    );

    assert_eq!(session.collect_agent_infos(&sources).len(), 2);
    let agents = agents_of(handle_agent_list_local(&session, &"local-id".to_string()));

    assert_eq!(agents.len(), 1);
    assert_eq!(agents[0].terminal_id, "local-term");
    assert_eq!(agents[0].name.as_deref(), Some("local-codex"));
}

#[test]
fn public_agent_list_aggregates_local_and_remote_cache() {
    let session = session_with_agent("local", "local-codex");
    let mut sources = RemoteSources::new();
    sources.replace_connected_snapshot(
        &key(),
        vec![plain_remote_agent("remote-term", "remote-pane", "codex")],
    );

    let agents = agents_of(handle_agent_list(&session, &sources, &"local-id".to_string()));

    assert_eq!(agents.len(), 2);
    assert_eq!(agents[0].name.as_deref(), Some("local-codex"));
    assert_eq!(agents[1].name.as_deref(), Some("jafar/codex"));
}

#[test]
fn agent_list_local_method_dispatch_returns_only_local_agents() {
    let session = Session::new();
    let mut sources = RemoteSources::new();
    sources.replace_connected_snapshot(
        &key(),
        vec![plain_remote_agent("remote-term", "remote-pane", "codex")],
    );

    let reply = handle_agent_list_local(&session, &"local-id".to_string());

    assert!(matches!(&reply, Reply::Success { id, .. } if id == "local-id"));
    assert!(agents_of(reply).is_empty());
}

#[test]
fn agents_are_listed_pane_after_pane() {
    let mut session = session_with(&["one", "two"]);
    session.terminals[0].agent = Some("codex".to_string());
    session.terminals[1].agent_name = Some("second".to_string());
    let agents = session.collect_local_agent_infos();
    assert_eq!(agents.len(), 2);
    assert_eq!(agents[0].terminal_id, "one-term");
    assert!(agents[0].focused);
    assert_eq!(agents[1].terminal_id, "two-term");
    assert!(!agents[1].focused);
}

// One agent --------------------------------------------------------------

#[test]
fn remote_agent_get_returns_cached_remote_agent() {
    let session = Session::new();
    let mut federation = one_host();
    federation
        .remote_sources
        .replace_connected_snapshot(&key(), vec![plain_remote_agent("term-1", "pane-1", "codex")]);

    let reply = handle_agent_get(
        &session,
        &federation,
        &"local-id".to_string(),
        &AgentTarget { target: "jafar/codex".to_string() },
    );
    let (id, agent) = agent_of(reply);

    assert_eq!(id, "local-id");
    assert_eq!(agent.name.as_deref(), Some("jafar/codex"));
    assert_eq!(agent.display_agent.as_deref(), Some("jafar/codex"));
    assert_eq!(agent.agent.as_deref(), Some("jafar/codex"));
    assert_eq!(agent.terminal_id, "term-1");
    assert_eq!(agent.pane_id, "pane-1");
    assert_eq!(agent.workspace_id, "remote-ws");
    assert_eq!(agent.tab_id, "remote-tab");
}

#[test]
fn remote_agent_get_marks_stale_cached_agent_disconnected() {
    let session = Session::new();
    let mut federation = one_host();
    let mut agent = plain_remote_agent("term-1", "pane-1", "codex");
    agent.custom_status = Some("busy".to_string());
    federation.remote_sources.replace_connected_snapshot(&key(), vec![agent]);
    federation.remote_sources.mark_disconnected(&key());

    let reply = handle_agent_get(
        &session,
        &federation,
        &"local-id".to_string(),
        &AgentTarget { target: "jafar/codex".to_string() },
    );
    let (_, agent) = agent_of(reply);

    assert_eq!(agent.name.as_deref(), Some("jafar/codex"));
    assert_eq!(agent.custom_status.as_deref(), Some("disconnected"));
}

#[test]
fn bare_agent_get_keeps_local_target_errors() {
    let reply = handle_agent_get(
        &Session::new(),
        &no_hosts(),
        &"local-id".to_string(),
        &AgentTarget { target: "missing".to_string() },
    );
    let (id, code, message) = error_of(reply);

    assert_eq!(id, "local-id");
    assert_eq!(code, "agent_not_found");
    assert_eq!(message, "agent target missing not found");
}

#[test]
fn slash_target_without_remote_hosts_keeps_local_target_errors() {
    let reply = handle_agent_get(
        &Session::new(),
        &no_hosts(),
        &"local-id".to_string(),
        &AgentTarget { target: "local/name".to_string() },
    );
    let (id, code, _) = error_of(reply);

    assert_eq!(id, "local-id");
    assert_eq!(code, "agent_not_found");
}

#[test]
fn slash_target_of_an_unknown_host_is_refused() {
    let reply = handle_agent_get(
        &Session::new(),
        &one_host(),
        &"id".to_string(),
        &AgentTarget { target: "elsewhere/codex".to_string() },
    );
    let (_, code, message) = error_of(reply);
    assert_eq!(code, "remote_target_error");
    assert_eq!(message, "unknown remote host: elsewhere");
}

#[test]
fn names_that_two_agents_share_are_ambiguous() {
    let mut session = session_with(&["one", "two"]);
    session.terminals[0].agent_name = Some("codex".to_string());
    session.terminals[1].agent_name = Some("codex".to_string());
    session.terminals[1].cwd = Some("/srv".to_string());
    session.terminals[1].agent_status = AgentStatus::Blocked;
    let err = session.resolve_terminal_target(&"codex".to_string()).unwrap_err();
    assert!(matches!(
        &err,
        TerminalTargetError::Ambiguous { target, candidates }
            if target == "codex" && candidates.len() == 2
    ));
    let reply = handle_agent_get(
        &session,
        &no_hosts(),
        &"id".to_string(),
        &AgentTarget { target: "codex".to_string() },
    );
    let (_, code, message) = error_of(reply);
    assert_eq!(code, "agent_target_ambiguous");
    assert_eq!(
        message,
        "agent target codex is ambiguous; candidates: terminal_id=one-term pane_id=one-pane \
         workspace_id=one-ws tab_id=one-tab cwd=unknown status=Unknown; terminal_id=two-term \
         pane_id=two-pane workspace_id=two-ws tab_id=two-tab cwd=/srv status=Blocked"
    );
}

#[test]
fn terminals_are_found_by_pane_terminal_and_name() {
    let session = session_with_agent("local", "codex");
    for target in ["local-pane", "local-term", "codex"] {
        let place = session.resolve_terminal_target(&target.to_string()).unwrap();
        assert_eq!((place.workspace, place.tab, place.pane), (0, 0, 0));
    }
    assert!(session.resolve_terminal_target(&"local".to_string()).is_err());
}

// Focus and names --------------------------------------------------------

#[test]
fn focusing_an_agent_shows_its_pane() {
    let mut session = session_with(&["one", "two"]);
    session.terminals[1].agent_name = Some("codex".to_string());
    session.mode = Mode::Navigate;
    let step = handle_agent_focus(
        &mut session,
        &no_hosts(),
        &"id".to_string(),
        &AgentTarget { target: "codex".to_string() },
    );
    let AgentStep::Answered(reply) = step else {
        panic!("expected an answer");
    };
    let (_, agent) = agent_of(reply);
    assert!(agent.focused);
    assert_eq!(agent.terminal_id, "two-term");
    assert_eq!(session.active, Some(1));
    assert_eq!(session.mode, Mode::Terminal);
}

#[test]
fn focusing_a_remote_agent_asks_its_host() {
    let mut session = session_with(&["one"]);
    let mut federation = one_host();
    federation
        .remote_sources
        .replace_connected_snapshot(&key(), vec![plain_remote_agent("term-1", "pane-1", "codex")]);
    let step = handle_agent_focus(
        &mut session,
        &federation,
        &"id".to_string(),
        &AgentTarget { target: "jafar/codex".to_string() },
    );
    let AgentStep::Remote(descriptor) = step else {
        panic!("expected a dispatch");
    };
    assert_eq!(
        descriptor.request.method,
        Method::AgentFocus(AgentTarget { target: "term-1".to_string() })
    );
    assert!(descriptor.bridge_state.is_none());
    assert_eq!(session.active, Some(0));
}

#[test]
fn renaming_trims_the_name_and_sets_the_label() {
    let mut session = session_with_agent("local", "codex");
    let reply = handle_agent_rename(
        &mut session,
        &"id".to_string(),
        &AgentRenameParams { target: "codex".to_string(), name: Some("  helper ".to_string()) },
    );
    let (_, agent) = agent_of(reply);
    assert_eq!(agent.name.as_deref(), Some("helper"));
    assert_eq!(session.terminals[0].manual_label.as_deref(), Some("helper"));
    assert!(session.dirty, "the session is to be saved");
}

#[test]
fn renaming_to_nothing_clears_the_name() {
    let mut session = session_with_agent("local", "codex");
    session.terminals[0].agent = Some("codex".to_string());
    session.terminals[0].manual_label = Some("kept".to_string());
    let reply = handle_agent_rename(
        &mut session,
        &"id".to_string(),
        &AgentRenameParams { target: "local-pane".to_string(), name: Some("   ".to_string()) },
    );
    let (_, agent) = agent_of(reply);
    assert_eq!(agent.name, None);
    assert_eq!(session.terminals[0].manual_label.as_deref(), Some("kept"));
}

#[test]
fn names_that_are_taken_are_refused() {
    let mut session = session_with(&["one", "two"]);
    session.terminals[0].agent_name = Some("codex".to_string());
    session.terminals[1].agent_name = Some("helper".to_string());
    let reply = handle_agent_rename(
        &mut session,
        &"id".to_string(),
        &AgentRenameParams { target: "helper".to_string(), name: Some("codex".to_string()) },
    );
    let (_, code, message) = error_of(reply);
    assert_eq!(code, "agent_name_taken");
    assert_eq!(
        message,
        "agent name codex is already used; candidates: terminal_id=one-term pane_id=one-pane \
         workspace_id=one-ws tab_id=one-tab cwd=unknown status=Unknown"
    );
    assert_eq!(session.terminals[1].agent_name.as_deref(), Some("helper"));
}

#[test]
fn an_agent_can_keep_its_own_name() {
    let mut session = session_with_agent("local", "codex");
    let reply = handle_agent_rename(
        &mut session,
        &"id".to_string(),
        &AgentRenameParams { target: "codex".to_string(), name: Some("codex".to_string()) },
    );
    assert_eq!(agent_of(reply).1.name.as_deref(), Some("codex"));
}

#[test]
fn renaming_a_missing_agent_is_refused() {
    let mut session = Session::new();
    let reply = handle_agent_rename(
        &mut session,
        &"id".to_string(),
        &AgentRenameParams { target: "codex".to_string(), name: None },
    );
    assert_eq!(error_of(reply).1, "agent_not_found");
    assert!(!session.dirty);
}

// Starting ---------------------------------------------------------------

fn launched_workspace(name: &str) -> LaunchedWorkspace {
    LaunchedWorkspace {
        workspace_id: format!("{name}-ws"),
        label: name.to_string(),
        tab: LaunchedTab {
            tab_id: format!("{name}-tab"),
            label: "1".to_string(),
            pane_id: format!("{name}-pane"),
            raw: 8,
            terminal: terminal(&format!("{name}-term")),
        },
    }
}

#[test]
fn agent_start_new_workspace_flag_ignores_active_workspace_default() {
    let mut session = session_with(&["existing"]);
    let mut params = start_params();
    params.new_workspace = true;

    let step = handle_agent_start(&session, &no_hosts(), &"id".to_string(), &params);
    let AgentStep::Launch(AgentLaunch::Workspace(command)) = step else {
        panic!("expected a new workspace");
    };
    let result = session.agent_workspace_started(command, Ok(launched_workspace("new")));
    let reply = agent_start_finished(&"id".to_string(), result);

    let Reply::Success { result: ResponseResult::AgentStarted { agent, argv }, .. } = reply else {
        panic!("expected agent start to succeed");
    };
    assert_eq!(session.workspaces.len(), 2);
    assert_eq!(agent.name.as_deref(), Some("worker"));
    assert_eq!(agent.workspace_id, "new-ws");
    assert_eq!(*argv, vec!["/usr/bin/true".to_string()]);
    assert_eq!(session.active, Some(0));
    assert!(session.dirty, "the session is to be saved");
}

#[test]
fn the_first_agent_gets_a_workspace_and_is_shown() {
    let mut session = Session::new();
    let plan = session.plan_agent_start(&start_params()).unwrap();
    let AgentLaunch::Workspace(command) = plan else {
        panic!("expected a new workspace");
    };
    session.agent_workspace_started(command, Ok(launched_workspace("first"))).unwrap();
    assert_eq!(session.active, Some(0));
    assert_eq!(session.mode, Mode::Terminal);
}

#[test]
fn agents_split_the_focused_pane() {
    let mut session = session_with(&["one"]);
    let mut params = start_params();
    params.focus = true;
    let plan = session.plan_agent_start(&params).unwrap();
    let AgentLaunch::Split { target, direction, command } = plan else {
        panic!("expected a split");
    };
    assert_eq!(target.pane_id, "one-pane");
    assert_eq!(direction, SplitDirection::Right);
    let launched = LaunchedPane {
        pane_id: "new-pane".to_string(),
        raw: 8,
        terminal: terminal("new-term"),
    };
    session.pane_aliases.push(PaneAlias {
        alias: "new-pane".to_string(),
        pane_id: "one-pane".to_string(),
    });
    let (agent, _) = session.agent_pane_started(&target, command, Some(Ok(launched))).unwrap();
    assert!(session.pane_aliases.is_empty(), "the new pane keeps its name for itself");
    let previous = session.previous_focus.as_ref().expect("the split pane had the focus");
    assert_eq!(
        (previous.workspace_id.as_str(), previous.pane_id.as_str()),
        ("one-ws", "one-pane")
    );
    assert!(session.dirty, "the session is to be saved");
    assert_eq!(agent.pane_id, "new-pane");
    assert!(agent.focused);
    assert_eq!(session.workspaces[0].tabs[0].panes.len(), 2);
    assert_eq!(session.workspaces[0].tabs[0].panes[1].pane_id, "new-pane");
    assert_eq!(session.workspaces[0].tabs[0].focused, 1);
}

#[test]
fn starts_are_refused_one_reason_at_a_time() {
    let session = session_with_agent("local", "taken");
    let mut params = start_params();
    params.name = "   ".to_string();
    assert_eq!(session.plan_agent_start(&params), Err(AgentStartError::InvalidName));

    let mut params = start_params();
    params.argv = Arc::new(Vec::new());
    assert_eq!(session.plan_agent_start(&params), Err(AgentStartError::EmptyArgv));

    let mut params = start_params();
    params.name = " taken ".to_string();
    assert!(matches!(
        session.plan_agent_start(&params),
        Err(AgentStartError::DuplicateName { name, candidates })
            if name == "taken" && candidates.len() == 1
    ));

    let mut params = start_params();
    params.tab_id = Some("nowhere".to_string());
    assert_eq!(
        session.plan_agent_start(&params),
        Err(AgentStartError::TargetNotFound { target: "nowhere".to_string() })
    );

    let mut params = start_params();
    params.workspace_id = Some("nowhere-ws".to_string());
    assert_eq!(
        session.plan_agent_start(&params),
        Err(AgentStartError::TargetNotFound { target: "nowhere-ws".to_string() })
    );
}

#[test]
fn a_tab_must_belong_to_the_workspace_that_is_named() {
    let session = session_with(&["one", "two"]);
    let mut params = start_params();
    params.tab_id = Some("one-tab".to_string());
    params.workspace_id = Some("two-ws".to_string());
    let err = session.plan_agent_start(&params).unwrap_err();
    assert_eq!(err, AgentStartError::PlacementConflict);
    let (_, code, message) = error_of(agent_start_finished(&"id".to_string(), Err(err)));
    assert_eq!(code, "agent_placement_conflict");
    assert_eq!(message, "--tab must belong to --workspace");

    params.workspace_id = Some("one-ws".to_string());
    assert!(session.plan_agent_start(&params).is_ok());
}

#[test]
fn start_errors_have_their_own_codes() {
    let id = "id".to_string();
    let code = |err| error_of(agent_start_finished(&id, Err(err)));
    assert_eq!(code(AgentStartError::InvalidName).1, "invalid_agent_name");
    assert_eq!(code(AgentStartError::EmptyArgv).1, "invalid_agent_argv");
    let missing = code(AgentStartError::TargetNotFound { target: "t".to_string() });
    assert_eq!(missing.1, "agent_placement_not_found");
    assert_eq!(missing.2, "agent placement target t not found");
    let failed = code(AgentStartError::SpawnFailed("no shell".to_string()));
    assert_eq!((failed.1.as_str(), failed.2.as_str()), ("agent_start_failed", "no shell"));
    let taken = code(AgentStartError::DuplicateName { name: "n".to_string(), candidates: Vec::new() });
    assert_eq!(taken.1, "agent_name_taken");
    assert_eq!(taken.2, "agent name n is already used; candidates: ");
}

#[test]
fn a_failed_start_leaves_the_session_alone() {
    let mut session = session_with(&["one"]);
    let Ok(AgentLaunch::Split { target, command, .. }) = session.plan_agent_start(&start_params())
    else {
        panic!("expected a split");
    };
    let result = session.agent_pane_started(&target, command, Some(Err("no pty".to_string())));
    assert_eq!(result, Err(AgentStartError::SpawnFailed("no pty".to_string())));
    assert_eq!(session, session_with(&["one"]));
}

#[test]
fn a_pane_that_cannot_be_split_is_named_by_its_number() {
    let mut session = session_with(&["one"]);
    let Ok(AgentLaunch::Split { target, command, .. }) = session.plan_agent_start(&start_params())
    else {
        panic!("expected a split");
    };
    let result = session.agent_pane_started(&target, command, None);
    let (_, code, message) = error_of(agent_start_finished(&"id".to_string(), result));
    assert_eq!(code, "agent_placement_not_found");
    assert_eq!(message, "agent placement target 7 not found");
    assert_eq!(session, session_with(&["one"]));
}

#[test]
fn an_agent_goes_to_the_place_that_was_planned() {
    let mut session = session_with(&["one", "one"]);
    session.active = Some(1);
    let Ok(AgentLaunch::Split { target, command, .. }) = session.plan_agent_start(&start_params())
    else {
        panic!("expected a split");
    };
    let launched = LaunchedPane {
        pane_id: "new-pane".to_string(),
        raw: 8,
        terminal: terminal("new-term"),
    };
    session.agent_pane_started(&target, command, Some(Ok(launched))).unwrap();
    assert_eq!(session.workspaces[0].tabs[0].panes.len(), 1);
    assert_eq!(session.workspaces[1].tabs[0].panes.len(), 2);
}

#[test]
fn starting_on_a_host_asks_that_host() {
    let session = Session::new();
    let mut params = start_params();
    params.host = Some("jafar".to_string());
    let step = handle_agent_start(&session, &one_host(), &"id".to_string(), &params);
    let AgentStep::Remote(descriptor) = step else {
        panic!("expected a dispatch");
    };
    assert_eq!(descriptor.rewrite, RemoteAgentResponseRewrite::AgentStart);
    let Method::AgentStart(sent) = &descriptor.request.method else {
        panic!("expected agent.start");
    };
    assert_eq!(sent.host, None);
    assert!(sent.new_workspace);

    params.host = Some("elsewhere".to_string());
    let step = handle_agent_start(&session, &one_host(), &"id".to_string(), &params);
    let AgentStep::Answered(reply) = step else {
        panic!("expected a refusal");
    };
    assert_eq!(error_of(reply).2, "unknown remote host: elsewhere");
}

// Reading and sending ----------------------------------------------------

fn read_params(target: &str, lines: Option<u32>) -> AgentReadParams {
    AgentReadParams {
        target: target.to_string(),
        source: ReadSource::Recent,
        lines,
        format: ReadFormat::Text,
        strip_ansi: true,
    }
}

#[test]
fn reads_take_a_bounded_number_of_lines() {
    let session = session_with_agent("local", "codex");
    for (asked, taken) in [(None, DEFAULT_READ_LINES), (Some(7), 7), (Some(5000), MAX_READ_LINES)] {
        let step = handle_agent_read(
            &session,
            &no_hosts(),
            &"id".to_string(),
            &read_params("codex", asked),
        );
        let AgentStep::Read(plan) = step else {
            panic!("expected a read");
        };
        assert_eq!(plan.lines, taken);
        assert_eq!(plan.terminal_id, "local-term");
    }
    assert_eq!((DEFAULT_READ_LINES, MAX_READ_LINES), (80, 1000));
}

#[test]
fn reads_answer_with_the_text() {
    let session = session_with_agent("local", "codex");
    let id = "id".to_string();
    let plan = |target: &str| match handle_agent_read(
        &session,
        &no_hosts(),
        &id,
        &read_params(target, None),
    ) {
        AgentStep::Read(plan) => plan,
        other => panic!("expected a read, got {other:?}"),
    };
    let reply = agent_read_finished(&id, "codex", plan("codex"), Some("hello".to_string()));
    let Reply::Success { result: ResponseResult::PaneRead { read }, .. } = reply else {
        panic!("expected a read");
    };
    assert_eq!(read.text, "hello");
    assert_eq!(read.pane_id, "local-pane");
    assert_eq!(read.workspace_id, "local-ws");
    assert_eq!(read.tab_id, "local-tab");
    assert!(!read.truncated);

    let gone = agent_read_finished(&id, "codex", plan("codex"), None);
    assert_eq!(error_of(gone).1, "agent_not_found");

    let step = handle_agent_read(&session, &no_hosts(), &id, &read_params("nobody", None));
    assert!(matches!(step, AgentStep::Answered(Reply::Error { .. })));
}

#[test]
fn sends_answer_with_what_became_of_the_text() {
    let session = session_with_agent("local", "codex");
    let id = "id".to_string();
    let params = AgentSendParams { target: "codex".to_string(), text: "hi".to_string() };
    let AgentStep::Send(plan) = handle_agent_send(&session, &no_hosts(), &id, &params) else {
        panic!("expected a send");
    };
    assert_eq!((plan.terminal_id.as_str(), plan.text.as_str()), ("local-term", "hi"));
    assert_eq!(
        agent_sent(&id, "codex", Some(Ok(()))),
        Reply::Success { id: id.clone(), result: ResponseResult::Acknowledged }
    );
    let failed = error_of(agent_sent(&id, "codex", Some(Err("full".to_string()))));
    assert_eq!((failed.1.as_str(), failed.2.as_str()), ("agent_send_failed", "full"));
    assert_eq!(error_of(agent_sent(&id, "codex", None)).1, "agent_not_found");
}

// Requests in a host's own terms -----------------------------------------

#[test]
fn remote_agent_focus_request_uses_resolved_terminal_id() {
    let request = remote_agent_focus_request(
        "req-1".to_string(),
        AgentTarget { target: "jafar/codex".to_string() },
        &"term-1".to_string(),
    );

    let Method::AgentFocus(params) = request.method else {
        panic!("expected agent.focus");
    };
    assert_eq!(request.id, "req-1");
    assert_eq!(params.target, "term-1");
}

#[test]
fn remote_agent_read_request_uses_resolved_terminal_id() {
    let request = remote_agent_read_request(
        "req-1".to_string(),
        AgentReadParams {
            target: "jafar/codex".to_string(),
            source: ReadSource::Recent,
            lines: Some(20),
            format: ReadFormat::Text,
            strip_ansi: true,
        },
        &"term-1".to_string(),
    );

    let Method::AgentRead(params) = request.method else {
        panic!("expected agent.read");
    };
    assert_eq!(request.id, "req-1");
    assert_eq!(params.target, "term-1");
    assert_eq!(params.lines, Some(20));
}

#[test]
fn remote_agent_send_request_uses_resolved_terminal_id() {
    let request = remote_agent_send_request(
        "req-1".to_string(),
        AgentSendParams { target: "jafar/codex".to_string(), text: "hello".to_string() },
        &"term-1".to_string(),
    );

    let Method::AgentSend(params) = request.method else {
        panic!("expected agent.send");
    };
    assert_eq!(request.id, "req-1");
    assert_eq!(params.target, "term-1");
    assert_eq!(params.text, "hello");
}

fn codex_start(cwd: Option<&str>, workspace_id: Option<&str>, new_workspace: bool) -> AgentStartParams {
    AgentStartParams {
        host: Some("jafar".to_string()),
        name: "codex".to_string(),
        cwd: cwd.map(str::to_string),
        workspace_id: workspace_id.map(str::to_string),
        tab_id: None,
        split: None,
        focus: false,
        new_workspace,
        argv: Arc::new(vec!["codex".to_string()]),
        env: Arc::new(Vec::new()),
    }
}

#[test]
fn remote_agent_start_request_strips_host_and_defaults_to_new_workspace() {
    let request = remote_agent_start_request(
        "req-1".to_string(),
        codex_start(Some("/remote/project"), None, false),
    );

    let Method::AgentStart(params) = request.method else {
        panic!("expected agent.start");
    };
    assert_eq!(request.id, "req-1");
    assert_eq!(params.host, None);
    assert_eq!(params.cwd.as_deref(), Some("/remote/project"));
    assert!(params.new_workspace);
}

#[test]
fn remote_agent_start_request_keeps_explicit_remote_placement() {
    let request = remote_agent_start_request(
        "req-1".to_string(),
        codex_start(None, Some("remote-ws"), false),
    );

    let Method::AgentStart(params) = request.method else {
        panic!("expected agent.start");
    };
    assert_eq!(params.host, None);
    assert_eq!(params.workspace_id.as_deref(), Some("remote-ws"));
    assert!(!params.new_workspace);
}

#[test]
fn remote_agent_start_request_clears_incoming_new_workspace_with_placement() {
    let request = remote_agent_start_request(
        "req-1".to_string(),
        codex_start(None, Some("remote-ws"), true),
    );

    let Method::AgentStart(params) = request.method else {
        panic!("expected agent.start");
    };
    assert_eq!(params.host, None);
    assert_eq!(params.workspace_id.as_deref(), Some("remote-ws"));
    assert!(!params.new_workspace);
}

// Answers in the client's terms ------------------------------------------

fn parsed(text: &str) -> serde_json::Value {
    serde_json::from_str(text).unwrap()
}

#[test]
fn remote_agent_start_response_rewrites_id_and_host_qualifies_agent() {
    let response = r#"{"id":"remote-id","result":{"type":"agent_started","agent":{"terminal_id":"term-1","name":"codex","agent":"codex","title":null,"display_agent":"codex","agent_status":"working","workspace_id":"remote-ws","tab_id":"remote-tab","pane_id":"pane-1","focused":false,"revision":1},"argv":["codex"]}}"#;

    let rewritten = rewrite_remote_agent_start_response(response, "local-id", "jafar").unwrap();
    let value = parsed(&rewritten);

    assert_eq!(value["id"], "local-id");
    assert_eq!(value["result"]["type"], "agent_started");
    let agent = &value["result"]["agent"];
    assert_eq!(agent["name"], "jafar/codex");
    assert_eq!(agent["display_agent"], "jafar/codex");
    assert_eq!(agent["agent"], "jafar/codex");
    assert!(agent["title"].is_null());
    assert_eq!(agent["terminal_id"], "term-1");
    assert_eq!(value["result"]["argv"][0], "codex");
}

#[test]
fn rewrite_response_id_preserves_success_body() {
    let response = r#"{"id":"remote-id","result":{"type":"ok"}}"#;

    let rewritten = rewrite_remote_response_id(response, "local-id").unwrap();
    let value = parsed(&rewritten);

    assert_eq!(value["id"], "local-id");
    assert_eq!(value["result"], parsed(response)["result"]);
}

#[test]
fn rewrite_response_id_preserves_error_body() {
    let response =
        r#"{"id":"remote-id","error":{"code":"remote_error","message":"failed remotely"}}"#;

    let rewritten = rewrite_remote_response_id(response, "local-id").unwrap();
    let value = parsed(&rewritten);

    assert_eq!(value["id"], "local-id");
    assert_eq!(value["error"]["code"], "remote_error");
    assert_eq!(value["error"]["message"], "failed remotely");
}

#[test]
fn rewrite_response_id_rejects_malformed_json() {
    let err = rewrite_remote_response_id("not json", "local-id").unwrap_err();

    assert_eq!(err.kind, BridgeErrorKind::InvalidData);
}

#[test]
fn rewrite_response_id_rejects_non_api_json() {
    let err = rewrite_remote_response_id(r#"{"id":"remote-id"}"#, "local-id").unwrap_err();

    assert_eq!(err.kind, BridgeErrorKind::InvalidData);
    assert_eq!(err.message, "remote API response must contain result or error");
}

#[test]
fn rewriting_refuses_what_is_no_object() {
    let err = rewrite_remote_response_id("[1,2]", "local-id").unwrap_err();
    assert_eq!(err.kind, BridgeErrorKind::InvalidData);
    assert_eq!(err.message, "remote API response must be a JSON object");
}

#[test]
fn refused_starts_are_not_qualified() {
    let response = r#"{"id":"remote-id","error":{"code":"agent_name_taken","message":"codex"}}"#;
    let rewritten = rewrite_remote_agent_start_response(response, "local-id", "jafar").unwrap();
    assert_eq!(parsed(&rewritten)["error"]["message"], "codex");
}
