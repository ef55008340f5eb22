//! Projecting a remote workspace: admission, frames, the runtime and its streams.
use std::sync::Arc;

use herdr::geometry::Rect;
use herdr::projection_frames::{ProjectionFrames, StreamReport, StreamSeed};
use herdr::projection_plan::{
    plan_projection_admission, DesiredStream, ProjectionAdmission, RemoteProjectionHitArea,
    RemoteProjectionStreamRole, RemoteProjectionStreamStatus, RemoteProjectionTerminalKey,
    BRIDGE_MAX_CONCURRENT_STREAMS, MAX_LAYOUT_PANES,
};
use herdr::projection_runtime::{
    InputDecision, MouseCapture, ProjectionStreamHandle, ReconcileStep, RemoteProjectionRuntime,
    StreamChange,
};
use herdr::projection_stream::{
    opening_failed, projection_socket_name, socket_path_fits, OpeningStep, RenderEncoding,
    StreamAttempt, StreamEnd, StreamMessage, StreamRead, StreamRequest,
};
use herdr::remote_source::{
    RemoteApiBridgeState, RemoteConnectionStatus, RemoteHostKey, RemoteProjectionSnapshot,
    RemoteProjectionStatus, RemoteSourceCapabilities, RemoteSources, RemoteSpaceKey,
};
use herdr::remote_target::{RemoteHostConfig, RemoteHostRegistry};
use herdr::schema::{
    AgentStatus, LayoutDescription, LayoutNode, LayoutPane, SplitDirection, WorkspaceInfo,
};
use herdr::server::FederationCapabilities;

fn key() -> RemoteHostKey {
    RemoteHostKey::new("remote-a".to_string(), "default".to_string())
}

fn space(host: &str, workspace_id: &str) -> RemoteSpaceKey {
    RemoteSpaceKey {
        host: host.to_string(),
        session: "default".to_string(),
        workspace_id: workspace_id.to_string(),
    }
}

fn terminal_key(host: &str, workspace_id: &str, terminal_id: &str) -> RemoteProjectionTerminalKey {
    RemoteProjectionTerminalKey {
        host: host.to_string(),
        session: "default".to_string(),
        workspace_id: workspace_id.to_string(),
        terminal_id: terminal_id.to_string(),
    }
}

fn workspace(id: &str, number: usize, focused: bool) -> WorkspaceInfo {
    WorkspaceInfo {
        workspace_id: id.into(),
        number,
        label: id.into(),
        focused,
        pane_count: 1,
        tab_count: 1,
        active_tab_id: "tab".into(),
        agent_status: AgentStatus::Unknown,
        worktree: None,
    }
}

fn pane(id: usize) -> LayoutNode {
    LayoutNode::Pane {
        pane: LayoutPane {
            pane_id: Some(format!("pane-{id}")),
            terminal_id: Some(format!("term-{id}")),
            label: None,
        },
    }
}

fn layout_with_panes(count: usize) -> LayoutDescription {
    assert!(count > 0);
    let mut root = pane(0);
    for id in 1..count {
        root = LayoutNode::Split {
            direction: SplitDirection::Right,
            ratio_bits: 0.5f32.to_bits(),
            first: Box::new(root),
            second: Box::new(pane(id)),
        };
    }
    LayoutDescription {
        workspace_id: "ws".into(),
        tab_id: "tab".into(),
        zoomed: false,
        focused_pane_id: "pane-0".into(),
        root,
    }
}

fn snapshot(layout: Option<LayoutDescription>) -> RemoteProjectionSnapshot {
    RemoteProjectionSnapshot {
        workspace_id: "ws".into(),
        tab_id: Some("tab".into()),
        tab_label: Some("tab".into()),
        status: RemoteProjectionStatus::Available,
        layout,
    }
}

fn selected_sources(capabilities: RemoteSourceCapabilities) -> RemoteSources {
    let mut sources = RemoteSources::new();
    sources.replace_workspace_snapshot(&key(), vec![workspace("ws", 1, true)]);
    sources.set_capabilities(&key(), capabilities);
    sources.apply_projection_snapshot(&key(), vec![snapshot(Some(layout_with_panes(1)))]);
    sources
}

fn streaming() -> RemoteSourceCapabilities {
    RemoteSourceCapabilities {
        layout_export: true,
        terminal_session_stream: true,
        ..RemoteSourceCapabilities::default()
    }
}

fn ready_sources(panes: usize) -> RemoteSources {
    let mut sources = selected_sources(streaming());
    sources.apply_projection_snapshot(&key(), vec![snapshot(Some(layout_with_panes(panes)))]);
    sources.set_connected_bridge_state(
        &key(),
        Arc::new(RemoteApiBridgeState {
            shell_path: "herdr".to_string(),
            capabilities: FederationCapabilities::current(),
        }),
    );
    sources.set_capabilities(&key(), streaming());
    sources
}

fn hosts() -> RemoteHostRegistry {
    RemoteHostRegistry {
        hosts: vec![RemoteHostConfig::new("remote-a", "remote-a", "default", true)],
    }
}

fn area(pane: &str, terminal: &str, focused: bool, width: u16) -> RemoteProjectionHitArea {
    RemoteProjectionHitArea {
        rect: Rect::new(1, 1, width, 12),
        host: "remote-a".into(),
        session: "default".into(),
        pane_id: Some(pane.to_string()),
        terminal_id: Some(terminal.to_string()),
        label: "remote pane".into(),
        focused,
        live: true,
    }
}

fn waiting_status(admission: ProjectionAdmission) -> RemoteProjectionStreamStatus {
    match admission {
        ProjectionAdmission::Waiting { status, .. } => status,
        other => panic!("expected to wait, got {other:?}"),
    }
}

// Admission --------------------------------------------------------------

#[test]
fn projection_cap_is_pinned_to_authoritative_layout_cap() {
    assert_eq!(BRIDGE_MAX_CONCURRENT_STREAMS, MAX_LAYOUT_PANES);
}

#[test]
fn older_remote_with_terminal_attach_but_without_session_stream_fails_closed() {
    let capabilities = RemoteSourceCapabilities {
        layout_export: true,
        ..RemoteSourceCapabilities::default()
    };
    let sources = selected_sources(capabilities);
    let selected = Some(space("remote-a", "ws"));
    assert!(matches!(
        plan_projection_admission(&selected, &sources, &Vec::new()),
        ProjectionAdmission::Waiting { status: RemoteProjectionStreamStatus::Unsupported, .. }
    ));
}

#[test]
fn over_limit_projection_is_rejected_before_stream_admission() {
    let mut sources = selected_sources(streaming());
    sources.apply_projection_snapshot(
        &key(),
        vec![snapshot(Some(layout_with_panes(MAX_LAYOUT_PANES + 1)))],
    );
    let selected = Some(space("remote-a", "ws"));
    assert!(matches!(
        plan_projection_admission(&selected, &sources, &Vec::new()),
        ProjectionAdmission::Waiting { status: RemoteProjectionStreamStatus::Unsupported, .. }
    ));
}

#[test]
fn nothing_selected_is_inactive() {
    let sources = ready_sources(1);
    assert_eq!(
        plan_projection_admission(&None, &sources, &Vec::new()),
        ProjectionAdmission::Inactive
    );
}

#[test]
fn a_full_layout_is_admitted_with_one_controller() {
    let sources = ready_sources(MAX_LAYOUT_PANES);
    let selected = Some(space("remote-a", "ws"));
    let areas: Vec<_> = (0..MAX_LAYOUT_PANES)
        .map(|i| {
            let width = if i == 0 { 40 } else { 30 };
            area(&format!("pane-{i}"), &format!("term-{i}"), i == 0, width)
        })
        .collect();
    match plan_projection_admission(&selected, &sources, &areas) {
        ProjectionAdmission::Ready { source, streams, prepared } => {
            assert_eq!(source, space("remote-a", "ws"));
            assert_eq!(prepared.shell_path, "herdr");
            assert_eq!(streams.len(), MAX_LAYOUT_PANES);
            assert_eq!(streams[0].key, terminal_key("remote-a", "ws", "term-0"));
            assert_eq!(streams[0].role, RemoteProjectionStreamRole::Control);
            assert!(streams[1..]
                .iter()
                .all(|stream| stream.role == RemoteProjectionStreamRole::Observe));
            assert_eq!((streams[0].cols, streams[0].rows), (38, 10));
            assert_eq!((streams[1].cols, streams[1].rows), (28, 10));
        }
        other => panic!("expected admission, got {other:?}"),
    }
}

#[test]
fn a_lost_host_keeps_its_last_frames() {
    let mut sources = ready_sources(1);
    sources.mark_status(&key(), RemoteConnectionStatus::Unreachable);
    let selected = Some(space("remote-a", "ws"));
    match plan_projection_admission(&selected, &sources, &Vec::new()) {
        ProjectionAdmission::Waiting { status, preserve_last_known, .. } => {
            assert_eq!(status, RemoteProjectionStreamStatus::StaleLastKnown);
            assert!(preserve_last_known);
        }
        other => panic!("expected to wait, got {other:?}"),
    }
}

#[test]
fn panes_that_share_a_terminal_are_refused() {
    let mut sources = ready_sources(1);
    let mut layout = layout_with_panes(1);
    layout.root = LayoutNode::Split {
        direction: SplitDirection::Down,
        ratio_bits: 0.5f32.to_bits(),
        first: Box::new(pane(0)),
        second: Box::new(pane(0)),
    };
    sources.apply_projection_snapshot(&key(), vec![snapshot(Some(layout))]);
    let selected = Some(space("remote-a", "ws"));
    let admission = plan_projection_admission(&selected, &sources, &Vec::new());
    assert_ne!(waiting_status(admission), RemoteProjectionStreamStatus::Connecting);
}

// Frames -----------------------------------------------------------------

fn live(key: RemoteProjectionTerminalKey, generation: u64, frame: Option<u64>) -> StreamReport {
    StreamReport {
        key,
        generation,
        role: RemoteProjectionStreamRole::Control,
        status: RemoteProjectionStreamStatus::LiveController,
        frame,
        message: None,
    }
}

fn seed(key: RemoteProjectionTerminalKey) -> StreamSeed {
    StreamSeed {
        key,
        role: RemoteProjectionStreamRole::Control,
        status: RemoteProjectionStreamStatus::Connecting,
        message: None,
    }
}

#[test]
fn late_generation_frame_is_rejected_after_source_switch() {
    let mut frames = ProjectionFrames::new();
    let mut selected = Some(space("a", "ws-a"));
    let old = frames.begin_remote_projection_generation(&selected, false);
    let terminal = || terminal_key("a", "ws-a", "term-a");
    frames.seed_remote_projection_streams(old, vec![seed(terminal())]);
    frames.apply_remote_projection_stream_event(&selected, live(terminal(), old, None));
    selected = Some(space("b", "ws-b"));
    frames.begin_remote_projection_generation(&selected, false);
    frames.apply_remote_projection_stream_event(&selected, live(terminal(), old, None));
    assert!(frames.frames.is_empty());
}

#[test]
fn unseeded_terminal_frame_is_rejected_for_current_generation() {
    let mut frames = ProjectionFrames::new();
    let selected = Some(space("a", "ws-a"));
    let generation = frames.begin_remote_projection_generation(&selected, false);
    frames.apply_remote_projection_stream_event(
        &selected,
        StreamReport {
            key: terminal_key("a", "ws-a", "unseeded"),
            generation,
            role: RemoteProjectionStreamRole::Observe,
            status: RemoteProjectionStreamStatus::LiveObserver,
            frame: None,
            message: None,
        },
    );
    assert!(
        frames.frames.is_empty(),
        "only admitted/seeded terminal streams may enter the frame cache"
    );
}

#[test]
fn reports_of_the_current_generation_are_kept() {
    let mut frames = ProjectionFrames::new();
    let selected = Some(space("a", "ws-a"));
    let generation = frames.begin_remote_projection_generation(&selected, false);
    let terminal = || terminal_key("a", "ws-a", "term-a");
    frames.seed_remote_projection_streams(generation, vec![seed(terminal())]);
    assert_eq!(
        frames.status_of(&terminal()),
        Some(RemoteProjectionStreamStatus::Connecting)
    );
    frames.apply_remote_projection_stream_event(&selected, live(terminal(), generation, Some(9)));
    assert_eq!(frames.frames[0].frame, Some(9));
    assert_eq!(
        frames.status_of(&terminal()),
        Some(RemoteProjectionStreamStatus::LiveController)
    );
    assert!(frames.status_of(&terminal()).unwrap().accepts_input());
    let next = frames.begin_remote_projection_generation(&selected, true);
    assert_eq!(next, generation + 1);
    assert_eq!(frames.frames[0].frame, Some(9), "the last picture stays");
}

// The runtime ------------------------------------------------------------

fn query_areas(focused: bool, live: bool, terminal_id: Option<&str>) -> Vec<RemoteProjectionHitArea> {
    vec![RemoteProjectionHitArea {
        rect: Rect::new(1, 1, 40, 12),
        host: "remote-a".into(),
        session: "default".into(),
        pane_id: Some("pane-1".into()),
        terminal_id: terminal_id.map(str::to_string),
        label: "remote pane".into(),
        focused,
        live,
    }]
}

/// Puts a stream's handle in, in place of the terminal's former one.
fn insert_stream(
    runtime: &mut RemoteProjectionRuntime,
    serial: u64,
    terminal_id: &str,
    role: RemoteProjectionStreamRole,
    capture: Option<bool>,
) {
    runtime.streams.retain(|stream| stream.terminal_id != terminal_id);
    runtime.streams.push(ProjectionStreamHandle {
        serial,
        terminal_id: terminal_id.to_string(),
        role,
        writable: false,
        input_sent: false,
        mouse_capture: MouseCapture::Unknown,
        done: false,
    });
    if let Some(enabled) = capture {
        let capture = if enabled { MouseCapture::Enabled } else { MouseCapture::Disabled };
        runtime.stream_changed(serial, StreamChange::Capture(capture));
    }
}

#[test]
fn focused_control_mouse_capture_query_is_focused_control_only() {
    let control = RemoteProjectionStreamRole::Control;
    let observe = RemoteProjectionStreamRole::Observe;
    let selected = Some(space("remote-a", "ws"));
    let mut runtime = RemoteProjectionRuntime::new();

    assert_eq!(runtime.focused_projected_control_mouse_capture(&None, &Vec::new()), None);

    let areas = query_areas(true, true, Some("term-1"));
    assert_eq!(runtime.focused_projected_control_mouse_capture(&selected, &areas), None);

    insert_stream(&mut runtime, 1, "term-1", control, None);
    assert_eq!(runtime.focused_projected_control_mouse_capture(&selected, &areas), None);

    insert_stream(&mut runtime, 2, "term-1", control, Some(false));
    assert_eq!(runtime.focused_projected_control_mouse_capture(&selected, &areas), Some(false));
    insert_stream(&mut runtime, 3, "term-1", control, Some(true));
    assert_eq!(runtime.focused_projected_control_mouse_capture(&selected, &areas), Some(true));

    insert_stream(&mut runtime, 4, "term-1", observe, Some(true));
    assert_eq!(runtime.focused_projected_control_mouse_capture(&selected, &areas), None);

    insert_stream(&mut runtime, 5, "term-1", control, Some(true));
    let unfocused = query_areas(false, true, Some("term-1"));
    assert_eq!(runtime.focused_projected_control_mouse_capture(&selected, &unfocused), None);
    let not_live = query_areas(true, false, Some("term-1"));
    assert_eq!(runtime.focused_projected_control_mouse_capture(&selected, &not_live), None);

    let mut other_host = query_areas(true, true, Some("term-1"));
    other_host[0].host = "remote-b".into();
    assert_eq!(runtime.focused_projected_control_mouse_capture(&selected, &other_host), None);
    let mut other_session = query_areas(true, true, Some("term-1"));
    other_session[0].session = "work".into();
    assert_eq!(runtime.focused_projected_control_mouse_capture(&selected, &other_session), None);

    let no_terminal = query_areas(true, true, None);
    assert_eq!(runtime.focused_projected_control_mouse_capture(&selected, &no_terminal), None);

    let mut two_panes = query_areas(true, true, Some("term-1"));
    two_panes.push(RemoteProjectionHitArea {
        rect: Rect::new(41, 1, 40, 12),
        host: "remote-a".into(),
        session: "default".into(),
        pane_id: Some("pane-2".into()),
        terminal_id: Some("term-2".into()),
        label: "background pane".into(),
        focused: false,
        live: true,
    });
    insert_stream(&mut runtime, 6, "term-1", control, None);
    insert_stream(&mut runtime, 7, "term-2", control, Some(true));
    assert_eq!(runtime.focused_projected_control_mouse_capture(&selected, &two_panes), None);
}

#[test]
fn replacement_handle_starts_unknown_and_ignores_late_predecessor_state() {
    let control = RemoteProjectionStreamRole::Control;
    let selected = Some(space("remote-a", "ws"));
    let areas = query_areas(true, true, Some("term-1"));
    let mut runtime = RemoteProjectionRuntime::new();

    insert_stream(&mut runtime, 1, "term-1", control, Some(true));
    assert_eq!(runtime.focused_projected_control_mouse_capture(&selected, &areas), Some(true));

    insert_stream(&mut runtime, 2, "term-1", control, None);
    assert_eq!(runtime.focused_projected_control_mouse_capture(&selected, &areas), None);

    runtime.stream_changed(1, StreamChange::Capture(MouseCapture::Enabled));
    assert_eq!(runtime.focused_projected_control_mouse_capture(&selected, &areas), None);

    runtime.stream_changed(2, StreamChange::Capture(MouseCapture::Disabled));
    assert_eq!(runtime.focused_projected_control_mouse_capture(&selected, &areas), Some(false));
    runtime.stream_changed(1, StreamChange::Capture(MouseCapture::Disabled));
    assert_eq!(runtime.focused_projected_control_mouse_capture(&selected, &areas), Some(false));
}

/// A runtime with its streams open, and the frames it seeded.
fn opened() -> (RemoteProjectionRuntime, ProjectionFrames, RemoteSources) {
    let sources = ready_sources(2);
    let selected = Some(space("remote-a", "ws"));
    let areas = vec![area("pane-0", "term-0", true, 40), area("pane-1", "term-1", false, 30)];
    let mut runtime = RemoteProjectionRuntime::new();
    let mut frames = ProjectionFrames::new();
    let done = runtime.reconcile(&mut frames, &selected, &sources, &areas, &hosts(), true);
    let ReconcileStep::Open { host, generation, streams, .. } = done.step else {
        panic!("expected to open, got {:?}", done.step);
    };
    assert_eq!(host.name, "remote-a");
    assert_eq!(generation, frames.generation);
    assert_eq!(frames.frames.len(), 2);
    runtime.bridge_opened();
    for (serial, stream) in streams.iter().enumerate() {
        runtime.stream_opened(stream, serial as u64 + 10);
    }
    (runtime, frames, sources)
}

#[test]
fn a_settled_projection_is_left_alone() {
    let (mut runtime, mut frames, sources) = opened();
    let selected = Some(space("remote-a", "ws"));
    let areas = vec![area("pane-0", "term-0", true, 40), area("pane-1", "term-1", false, 30)];
    let generation = frames.generation;
    let done = runtime.reconcile(&mut frames, &selected, &sources, &areas, &hosts(), true);
    assert!(!done.teardown);
    assert_eq!(done.step, ReconcileStep::Prune(Vec::new()));
    assert_eq!(frames.generation, generation);
}

#[test]
fn a_new_size_is_told_to_the_streams_that_run() {
    let (mut runtime, mut frames, sources) = opened();
    let selected = Some(space("remote-a", "ws"));
    let areas = vec![area("pane-0", "term-0", true, 50), area("pane-1", "term-1", false, 20)];
    let done = runtime.reconcile(&mut frames, &selected, &sources, &areas, &hosts(), true);
    assert!(!done.teardown);
    let ReconcileStep::Resize(targets) = done.step else { panic!("expected a resize") };
    assert_eq!(targets.len(), 2);
    assert_eq!((targets[0].serial, targets[0].cols), (10, 48));
    assert_eq!((targets[1].serial, targets[1].cols), (11, 18));
    assert_eq!(runtime.streams.len(), 2);
}

#[test]
fn deselecting_tears_everything_down() {
    let (mut runtime, mut frames, sources) = opened();
    let done = runtime.reconcile(&mut frames, &None, &sources, &Vec::new(), &hosts(), true);
    assert!(done.teardown);
    assert_eq!(done.step, ReconcileStep::Idle);
    assert!(runtime.streams.is_empty());
    assert!(frames.frames.is_empty());
}

#[test]
fn finished_streams_are_pruned() {
    let (mut runtime, _, _) = opened();
    runtime.stream_changed(10, StreamChange::Ended);
    assert_eq!(runtime.prune_finished_streams(), vec![10]);
    assert_eq!(runtime.streams.len(), 1);
    assert!(runtime.prune_finished_streams().is_empty());
}

#[test]
fn a_bridge_that_fails_leaves_its_reason_on_every_pane() {
    let sources = ready_sources(2);
    let selected = Some(space("remote-a", "ws"));
    let areas = vec![area("pane-0", "term-0", true, 40), area("pane-1", "term-1", false, 30)];
    let mut runtime = RemoteProjectionRuntime::new();
    let mut frames = ProjectionFrames::new();
    let done = runtime.reconcile(&mut frames, &selected, &sources, &areas, &hosts(), true);
    let ReconcileStep::Open { streams, .. } = done.step else { panic!("expected to open") };
    runtime.bridge_failed(&mut frames, &streams, "no route");
    assert!(frames.frames.iter().all(|frame| {
        frame.status == RemoteProjectionStreamStatus::NeedsAttention
            && frame.message.as_deref() == Some("projection bridge failed closed: no route")
    }));
}

#[test]
fn an_unknown_host_opens_nothing() {
    let sources = ready_sources(1);
    let selected = Some(space("remote-a", "ws"));
    let mut runtime = RemoteProjectionRuntime::new();
    let mut frames = ProjectionFrames::new();
    let none = RemoteHostRegistry { hosts: Vec::new() };
    let done = runtime.reconcile(&mut frames, &selected, &sources, &Vec::new(), &none, true);
    assert_eq!(done.step, ReconcileStep::Idle);
}

#[test]
fn input_goes_to_the_writable_controller_only() {
    let (mut runtime, mut frames, _) = opened();
    let selected = Some(space("remote-a", "ws"));
    let areas = vec![area("pane-0", "term-0", true, 40), area("pane-1", "term-1", false, 30)];
    assert_eq!(runtime.send_input(&frames, &None, &areas), InputDecision::NotProjected);
    assert_eq!(runtime.send_input(&frames, &selected, &areas), InputDecision::Dropped);

    runtime.stream_changed(10, StreamChange::Writable(true));
    let generation = frames.generation;
    frames.apply_remote_projection_stream_event(
        &selected,
        live(terminal_key("remote-a", "ws", "term-0"), generation, Some(1)),
    );
    assert_eq!(
        runtime.send_input(&frames, &selected, &areas),
        InputDecision::Send { serial: 10, terminal_id: "term-0".to_string() }
    );
    assert!(runtime.streams[0].input_sent);

    let observed = vec![area("pane-0", "term-0", false, 40), area("pane-1", "term-1", true, 30)];
    assert_eq!(runtime.send_input(&frames, &selected, &observed), InputDecision::Dropped);

    let report = runtime.input_failed(
        &space("remote-a", "ws"),
        10,
        &"term-0".to_string(),
        "broken pipe",
    );
    assert_eq!(report.status, RemoteProjectionStreamStatus::NeedsAttention);
    assert_eq!(report.key, terminal_key("remote-a", "ws", "term-0"));
    assert!(!runtime.streams[0].writable);
}

// One stream -------------------------------------------------------------

fn desired(role: RemoteProjectionStreamRole) -> DesiredStream {
    DesiredStream {
        key: terminal_key("remote-a", "ws", "term-1"),
        role,
        cols: 80,
        rows: 24,
    }
}

fn welcome() -> Result<StreamMessage, String> {
    Ok(StreamMessage::Welcome { encoding: RenderEncoding::SemanticFrame, error: None })
}

#[test]
fn control_stream_consumes_mouse_capture_reports_into_own_handle() {
    let wanted = desired(RemoteProjectionStreamRole::Control);
    let selected = Some(space("remote-a", "ws"));
    let areas = query_areas(true, true, Some("term-1"));
    let mut runtime = RemoteProjectionRuntime::new();
    runtime.stream_opened(&wanted, 7);
    assert_eq!(runtime.streams[0].mouse_capture, MouseCapture::Unknown);
    let mut attempt = StreamAttempt::first(&wanted);
    assert_eq!(
        attempt.welcomed(&wanted, welcome()),
        Ok(StreamRequest::ControlTerminal { target: "term-1".to_string(), takeover: false })
    );
    assert_eq!(runtime.streams[0].mouse_capture, MouseCapture::Unknown);
    for enabled in [true, false] {
        let step = attempt.stream_read(
            &wanted,
            7,
            StreamRead::Message(StreamMessage::MouseCapture { enabled }),
        );
        assert!(step.end.is_none());
        runtime.stream_changed(7, step.change.expect("a change"));
        assert_eq!(
            runtime.focused_projected_control_mouse_capture(&selected, &areas),
            Some(enabled)
        );
    }
}

#[test]
fn a_stream_watches_where_it_is_told_to() {
    let wanted = desired(RemoteProjectionStreamRole::Observe);
    let attempt = StreamAttempt::first(&wanted);
    assert_eq!(
        attempt.welcomed(&wanted, welcome()),
        Ok(StreamRequest::ObserveTerminal { target: "term-1".to_string() })
    );
}

#[test]
fn bad_welcomes_end_a_stream() {
    let wanted = desired(RemoteProjectionStreamRole::Control);
    let attempt = StreamAttempt::first(&wanted);
    let refused = Ok(StreamMessage::Welcome {
        encoding: RenderEncoding::SemanticFrame,
        error: Some("too old".to_string()),
    });
    let end = attempt.welcomed(&wanted, refused).expect_err("refused");
    assert!(end.message().contains("too old"));
    let encoded = Ok(StreamMessage::Welcome {
        encoding: RenderEncoding::Named("Ansi".to_string()),
        error: None,
    });
    let end = attempt.welcomed(&wanted, encoded).expect_err("wrong encoding");
    assert!(end.message().contains("Ansi"));
    assert!(attempt.welcomed(&wanted, Ok(StreamMessage::Graphics)).is_err());
    let end = attempt.welcomed(&wanted, Err("eof".to_string())).expect_err("no answer");
    assert!(end.message().contains("eof"));
}

#[test]
fn a_controlled_terminal_is_watched_instead_once() {
    let wanted = desired(RemoteProjectionStreamRole::Control);
    let mut attempt = StreamAttempt::first(&wanted);
    let step = attempt.stream_read(
        &wanted,
        3,
        StreamRead::Message(StreamMessage::ServerShutdown {
            reason: Some("terminal already has a controller".to_string()),
        }),
    );
    assert!(step.drop_writer);
    let end = step.end.expect("the stream ended");
    assert!(matches!(end, StreamEnd::OwnershipConflict(_)));
    let outcome = attempt.ended(&wanted, 3, false, end);
    assert_eq!(
        outcome.report.as_ref().map(|report| report.status),
        Some(RemoteProjectionStreamStatus::OwnedReadOnly)
    );
    let mut second = outcome.next.expect("the terminal is watched");
    assert_eq!(second.actual_role, RemoteProjectionStreamRole::Observe);
    let step =
        second.stream_read(&wanted, 3, StreamRead::Message(StreamMessage::Frame(5)));
    assert!(step.change.is_none(), "a watched terminal is never writable");
    assert_eq!(
        step.report.map(|report| report.status),
        Some(RemoteProjectionStreamStatus::OwnedReadOnly)
    );
    let end = second.stream_read(&wanted, 3, StreamRead::UnexpectedEof).end.unwrap();
    assert!(second.ended(&wanted, 3, false, end).next.is_none());
}

#[test]
fn frames_make_a_controller_writable_and_ends_take_that_back() {
    let wanted = desired(RemoteProjectionStreamRole::Control);
    let mut attempt = StreamAttempt::first(&wanted);
    let step =
        attempt.stream_read(&wanted, 3, StreamRead::Message(StreamMessage::Frame(1)));
    assert_eq!(step.change, Some(StreamChange::Writable(true)));
    assert_eq!(
        step.report.map(|report| (report.status, report.frame)),
        Some((RemoteProjectionStreamStatus::LiveController, Some(1)))
    );
    let step = attempt.stream_read(
        &wanted,
        3,
        StreamRead::Message(StreamMessage::ServerShutdown {
            reason: Some("terminal already has a controller".to_string()),
        }),
    );
    let end = step.end.expect("the stream ended");
    assert!(matches!(end, StreamEnd::Closed(_)), "a live stream has no conflict");
    let outcome = attempt.ended(&wanted, 3, true, end);
    assert!(outcome.next.is_none());
    assert_eq!(
        outcome.report.map(|report| report.status),
        Some(RemoteProjectionStreamStatus::NeedsAttention)
    );
    let step = attempt.stream_read(&wanted, 3, StreamRead::Failed("reset".to_string()));
    assert_eq!(
        step.end,
        Some(StreamEnd::Closed("remote terminal session stream failed: reset".to_string()))
    );
    assert!(attempt.stream_read(&wanted, 3, StreamRead::Message(StreamMessage::Other)).end.is_none());
}

#[test]
fn failed_steps_are_named() {
    assert_eq!(
        opening_failed(OpeningStep::Connect, "refused").message(),
        "projection stream connect failed: refused"
    );
    assert_eq!(
        opening_failed(OpeningStep::SendHello, "x").message(),
        "projection handshake send failed: x"
    );
    assert_eq!(
        opening_failed(OpeningStep::SendRequest, "x").message(),
        "projection stream request failed: x"
    );
    assert_eq!(
        opening_failed(OpeningStep::CloneWriter, "x").message(),
        "projection stream clone failed: x"
    );
}

#[test]
fn socket_names_hold_process_and_generation() {
    assert_eq!(projection_socket_name(41, 7), "herdr-projection-41-7.sock");
    assert_eq!(
        projection_socket_name(0, u64::MAX),
        "herdr-projection-0-18446744073709551615.sock"
    );
    assert!(socket_path_fits(103));
    assert!(!socket_path_fits(104));
}

#[test]
fn a_platform_without_streams_says_so_on_every_pane() {
    let sources = ready_sources(2);
    let selected = Some(space("remote-a", "ws"));
    let areas = vec![area("pane-0", "term-0", true, 40), area("pane-1", "term-1", false, 30)];
    let mut runtime = RemoteProjectionRuntime::new();
    let mut frames = ProjectionFrames::new();
    let done = runtime.reconcile(&mut frames, &selected, &sources, &areas, &hosts(), false);
    assert_eq!(done.step, ReconcileStep::Idle);
    assert_eq!(frames.frames.len(), 2);
    assert!(frames.frames.iter().all(|frame| {
        frame.status == RemoteProjectionStreamStatus::Unsupported
            && frame.message.as_deref()
                == Some("in-place remote terminal streaming is unsupported on Windows")
    }));
    assert_eq!(runtime.send_input(&frames, &selected, &areas), InputDecision::Dropped);
}

#[test]
fn a_terminal_has_one_stream() {
    let (mut runtime, _, _) = opened();
    insert_stream(&mut runtime, 20, "term-0", RemoteProjectionStreamRole::Control, None);
    runtime.stream_changed(20, StreamChange::Writable(true));
    let of_terminal: Vec<u64> = runtime
        .streams
        .iter()
        .filter(|stream| stream.terminal_id == "term-0")
        .map(|stream| stream.serial)
        .collect();
    assert_eq!(of_terminal, vec![20]);
}
