//! Views of remote terminals in local panes, and splitting panes.
use std::sync::Arc;

use herdr::agent_start::LaunchedPane;
use herdr::pane_split::{MIN_SPLIT_COLS, MIN_SPLIT_ROWS};
use herdr::remote_attach::{
    remote_attach_display_label, RemoteAttachPaneTarget, RemoteDetachViewError, ToastKind,
};
use herdr::remote_source::{RemoteConnectionStatus, RemoteHostKey, RemoteSources};
use herdr::schema::{AgentInfo, AgentStatus, SplitDirection};
use herdr::session::{
    Mode, Pane, PaneAlias, RemoteAttachTarget, Session, Tab, TerminalState, Workspace,
};

fn target() -> RemoteAttachTarget {
    RemoteAttachTarget {
        host: "jafar".into(),
        session: "default".into(),
        terminal_id: "term-1".into(),
        label: "jafar/codex".into(),
    }
}

fn terminal(id: &str) -> TerminalState {
    TerminalState {
        id: id.to_string(),
        agent_name: None,
        manual_label: None,
        agent: None,
        title: None,
        display_agent: None,
        agent_status: AgentStatus::Unknown,
        screen_detection_skipped: false,
        custom_status: None,
        state_labels: Arc::new(Vec::new()),
        agent_session: None,
        cwd: Some("/work".to_string()),
        foreground_cwd: None,
        revision: 0,
        remote_attach: None,
        respawn_shell_on_exit: false,
        launch_argv: None,
    }
}

fn local_pane() -> (Session, RemoteAttachPaneTarget) {
    let mut session = Session::new();
    session.workspaces.push(Workspace {
        workspace_id: "local-ws".to_string(),
        label: "local".to_string(),
        tabs: vec![Tab {
            tab_id: "local-tab".to_string(),
            label: "1".to_string(),
            panes: vec![Pane {
                pane_id: "local-pane".to_string(),
                raw: 7,
                terminal_id: "local-term".to_string(),
            }],
            focused: 0,
            agent_status: AgentStatus::Unknown,
        }],
        active_tab: 0,
        worktree: None,
        agent_status: AgentStatus::Unknown,
    });
    session.terminals.push(terminal("local-term"));
    session.active = Some(0);
    session.mode = Mode::Terminal;
    assert!(session.is_sound());
    let pane = RemoteAttachPaneTarget {
        workspace_id: "local-ws".to_string(),
        pane_id: "local-pane".to_string(),
        terminal_id: "local-term".to_string(),
    };
    (session, pane)
}

fn attached_pane() -> (Session, RemoteAttachPaneTarget) {
    let (mut session, pane) = local_pane();
    let terminal = &mut session.terminals[0];
    terminal.remote_attach = Some(target());
    terminal.respawn_shell_on_exit = true;
    terminal.launch_argv = Some(Arc::new(vec![
        "herdr".to_string(),
        "agent".to_string(),
        "attach".to_string(),
        "jafar/terminal:term-1".to_string(),
    ]));
    (session, pane)
}

#[test]
fn remote_detach_view_swaps_shell_and_clears_local_metadata() {
    let (mut session, pane) = attached_pane();
    session.mode = Mode::ContextMenu;
    let plan = session.plan_remote_detach(&pane).expect("an attached pane");
    assert_eq!(plan.label, "jafar/codex");
    assert_eq!(plan.cwd.as_deref(), Some("/work"));

    let toast = session.detach_remote_attach_view_or_toast(&pane, Ok(()));

    let terminal = &session.terminals[0];
    assert!(terminal.remote_attach.is_none());
    assert!(!terminal.respawn_shell_on_exit);
    assert!(terminal.launch_argv.is_none());
    assert_eq!(session.mode, Mode::Terminal);
    let toast = toast.expect("the user is told");
    assert_eq!(
        (toast.title.as_str(), toast.context.as_str()),
        ("Detached view", "jafar/codex is still running")
    );
    assert_eq!(toast.kind, ToastKind::Finished);
    assert!(session.is_sound());
}

#[test]
fn remote_detach_view_preserves_remote_cache_and_works_when_stale() {
    let key = RemoteHostKey::new("jafar".to_string(), "default".to_string());
    let mut sources = RemoteSources::new();
    sources.replace_connected_snapshot(
        &key,
        vec![AgentInfo {
            terminal_id: "term-1".to_string(),
            name: Some("codex".to_string()),
            agent: Some("codex".to_string()),
            title: None,
            display_agent: None,
            agent_status: AgentStatus::Working,
            screen_detection_skipped: false,
            custom_status: None,
            state_labels: Arc::new(Vec::new()),
            agent_session: None,
            workspace_id: "remote-ws".to_string(),
            tab_id: "remote-tab".to_string(),
            pane_id: "remote-pane".to_string(),
            focused: false,
            cwd: None,
            foreground_cwd: None,
            revision: 1,
        }],
    );
    sources.mark_status(&key, RemoteConnectionStatus::Unreachable);
    let (mut session, pane) = attached_pane();

    assert!(!session.dirty);
    assert_eq!(session.detach_remote_attach_view(&pane, Ok(())), Ok("jafar/codex".to_string()));
    assert!(session.dirty, "the session is to be saved");
    assert_eq!(
        session.detach_remote_attach_view(&pane, Ok(())),
        Err(RemoteDetachViewError::NotAttached)
    );

    let entries = sources.list_entries();
    assert_eq!(entries.len(), 1, "remote cache entry should remain");
    assert_eq!(entries[0].agent.terminal_id, "term-1");
    assert_eq!(entries[0].status, RemoteConnectionStatus::Unreachable);
    assert!(session.terminals[0].remote_attach.is_none());
}

#[test]
fn remote_detach_view_spawn_failure_preserves_attach_runtime_and_metadata() {
    let (mut session, pane) = attached_pane();

    let toast = session.detach_remote_attach_view_or_toast(&pane, Err("no such shell".to_string()));

    let terminal = &session.terminals[0];
    assert_eq!(terminal.remote_attach, Some(target()));
    assert!(terminal.respawn_shell_on_exit);
    assert!(terminal.launch_argv.is_some());
    let toast = toast.expect("failure toast");
    assert_eq!(toast.title, "detach failed");
    assert!(toast.context.contains("failed to restore local shell"));
    assert_eq!(toast.kind, ToastKind::NeedsAttention);
}

#[test]
fn remote_detach_view_nonattached_pane_is_noop() {
    let (mut session, pane) = local_pane();
    assert!(matches!(
        session.plan_remote_detach(&pane),
        Err(RemoteDetachViewError::NotAttached)
    ));
    let toast = session.detach_remote_attach_view_or_toast(&pane, Ok(()));
    assert!(toast.is_none());
    assert!(session.terminals[0].remote_attach.is_none());
}

#[test]
fn remote_detach_view_missing_pane_is_noop() {
    let (mut session, pane) = attached_pane();
    session.workspaces.clear();
    session.active = None;
    assert!(session.is_sound());
    assert!(matches!(
        session.plan_remote_detach(&pane),
        Err(RemoteDetachViewError::PaneMissing)
    ));
    let toast = session.detach_remote_attach_view_or_toast(&pane, Ok(()));
    assert!(toast.is_none());
}

#[test]
fn labels_of_attached_views_name_the_host() {
    assert_eq!(remote_attach_display_label(&target()), "jafar/codex");
    let mut unnamed = target();
    unnamed.label = String::new();
    assert!(remote_attach_display_label(&unnamed).contains("jafar"));
}

// Splits -----------------------------------------------------------------

#[test]
fn a_split_halves_the_pane_but_not_below_the_minimum() {
    let (mut session, _) = local_pane();
    let split = session.plan_split_pane(SplitDirection::Right, 40, 100).expect("a focused pane");
    assert_eq!((split.rows, split.cols), (20, 50));
    assert_eq!(split.target.pane_id, "local-pane");
    assert_eq!(split.follow_cwd.as_deref(), Some("/work"));
    let small = session.plan_split_pane(SplitDirection::Down, 5, 5).expect("a focused pane");
    assert_eq!((small.rows, small.cols), (MIN_SPLIT_ROWS, MIN_SPLIT_COLS));

    session.pane_was_split(&split.target, Err("no shell".to_string()));
    assert_eq!(session.workspaces[0].tabs[0].panes.len(), 1);
    assert!(!session.dirty);
    for alias in ["new-pane", "older-pane"] {
        session.pane_aliases.push(PaneAlias {
            alias: alias.to_string(),
            pane_id: "local-pane".to_string(),
        });
    }
    session.pane_was_split(
        &split.target,
        Ok(LaunchedPane {
        pane_id: "new-pane".to_string(),
        raw: 8,
        terminal: terminal("new-term"),
    }),
    );
    let tab = &session.workspaces[0].tabs[0];
    assert_eq!(tab.panes.len(), 2);
    assert_eq!(tab.panes[tab.focused].pane_id, "new-pane");
    assert!(session.is_sound());
    assert!(session.dirty, "the session is to be saved");
    let aliases: Vec<&str> =
        session.pane_aliases.iter().map(|alias| alias.alias.as_str()).collect();
    assert_eq!(aliases, ["older-pane"], "the new pane keeps its name for itself");
    let previous = session.previous_focus.as_ref().expect("the split pane had the focus");
    assert_eq!(previous.pane_id, "local-pane");

    assert!(Session::new().plan_split_pane(SplitDirection::Right, 40, 100).is_none());
}
