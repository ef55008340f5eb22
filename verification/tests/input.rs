//! Keys, pastes and the mouse, over local panes, glasses and projections.
use herdr::geometry::Rect;
use herdr::host_glass::{
    glass_size, GlassInputDropReason, GlassSend, GlassStatus, GlassSurface, HostGlassStream,
    HostGlassSurfaceRegistry, HostGlasses,
};
use herdr::input_keys::{
    handle_onboarding_key, handle_product_announcement_key, handle_release_notes_key,
    is_modal_paste_shortcut, modal_paste_target_active, scroll_page, InputState, KeyCode, KeyEvent,
    KeyRoute, ModalAction, PageCommand, PasteRoute, Platform, WorktreeCreateState,
    WorktreeOpenState, ALT, CONTROL, SHIFT, SUPER,
};
use herdr::input_mouse::{
    handle_host_glass_mouse, host_glass_body_area, modified_url_click_modifier, mouse_follow_ups,
    plugin_answered, translate_host_glass_mouse, ClickWindows, ClientMouseInput, GlassMouse,
    InterfaceMarks, MouseButton, MouseEvent, MouseEventKind, MouseMemory, MouseStep,
    MouseSurroundings, PaneHit, Sidebar, SidebarWidthSource,
};
use herdr::projection_plan::RemoteProjectionHitArea;
use herdr::remote_source::RemoteHostKey;
use herdr::session::{Mode, Session};

fn host() -> RemoteHostKey {
    RemoteHostKey::new("remote-a".to_string(), "default".to_string())
}

fn mouse(kind: MouseEventKind, column: u16, row: u16) -> MouseEvent {
    MouseEvent { kind, column, row, modifiers: 0 }
}

const LEFT: MouseEventKind = MouseEventKind::Down(MouseButton::Left);

const WINDOWS: ClickWindows = ClickWindows { sidebar: 350, pane: 350, pane_cells: 1 };

/// A screen with a sidebar on the left, whose first rows are the host rail, and
/// one pane.
fn surroundings() -> MouseSurroundings {
    MouseSurroundings {
        mode: Mode::Terminal,
        glass_active: false,
        host_rail: Rect::new(0, 0, 26, 3),
        clickable_toast: None,
        terminal_area: Rect::new(26, 0, 80, 20),
        remote_space_selected: false,
        projection_areas: Vec::new(),
        on_sidebar_divider: false,
        pane: None,
        active: Some(0),
        selection_visible: false,
    }
}

fn over_glass() -> MouseSurroundings {
    MouseSurroundings { glass_active: true, ..surroundings() }
}

// The mouse --------------------------------------------------------------

#[test]
fn modified_url_click_modifier_matches_terminal_mouse_reporting() {
    assert_eq!(modified_url_click_modifier(), CONTROL);
}

#[test]
fn host_glass_mouse_translation_is_body_local_for_buttons_and_scroll() {
    let body = Rect::new(26, 3, 80, 17);
    let down = translate_host_glass_mouse(
        body,
        MouseEvent { kind: LEFT, column: 31, row: 7, modifiers: ALT },
    )
    .expect("glass body button");
    assert_eq!(down, ClientMouseInput { kind: LEFT, column: 5, row: 4, modifiers: ALT });
    assert_eq!(
        translate_host_glass_mouse(body, mouse(MouseEventKind::ScrollUp, 26, 3)),
        Some(ClientMouseInput {
            kind: MouseEventKind::ScrollUp,
            column: 0,
            row: 0,
            modifiers: 0,
        })
    );
    assert!(translate_host_glass_mouse(body, mouse(MouseEventKind::ScrollDown, 25, 3)).is_none());
}

#[test]
fn live_glass_routes_body_mouse_but_keeps_host_rail_local() {
    let around = over_glass();
    let body = host_glass_body_area(around.terminal_area);
    let mut memory = MouseMemory::new();
    assert_eq!(
        memory.handle_mouse(&around, mouse(LEFT, body.x + 4, body.y + 2), 0, WINDOWS),
        MouseStep::ForwardToGlass(ClientMouseInput {
            kind: LEFT,
            column: 4,
            row: 2,
            modifiers: 0,
        })
    );
    let mut glasses = live_glasses();
    assert!(glasses.route_host_glass_input(&host(), 0, 1000), "live input is sent");

    assert_eq!(
        memory.handle_mouse(&around, mouse(LEFT, 1, 1), 0, WINDOWS),
        MouseStep::Ordinary { focus: None },
        "rail click never goes remote"
    );
}

#[test]
fn host_glass_status_row_is_consumed_locally_and_never_forwarded() {
    let around = over_glass();
    let status_row = around.terminal_area;
    let mut memory = MouseMemory::new();
    assert_eq!(
        memory.handle_mouse(&around, mouse(LEFT, status_row.x + 3, status_row.y), 0, WINDOWS),
        MouseStep::Finished,
        "local status row never goes remote"
    );
    assert_eq!(
        handle_host_glass_mouse(&around, mouse(LEFT, status_row.x + 3, status_row.y)),
        GlassMouse::Consumed
    );
}

#[test]
fn the_body_of_a_glass_is_below_its_status_row() {
    assert_eq!(host_glass_body_area(Rect::new(26, 0, 80, 20)), Rect::new(26, 1, 80, 19));
    assert_eq!(host_glass_body_area(Rect::new(26, 5, 80, 0)).height, 0);
}

#[test]
fn projected_panes_take_the_mouse() {
    let area = |focused: bool| RemoteProjectionHitArea {
        rect: Rect::new(30, 2, 10, 5),
        host: "remote-a".into(),
        session: "default".into(),
        pane_id: Some("pane-1".into()),
        terminal_id: Some("term-1".into()),
        label: "remote pane".into(),
        focused,
        live: true,
    };
    let around = MouseSurroundings {
        remote_space_selected: true,
        projection_areas: vec![area(true)],
        ..surroundings()
    };
    let mut memory = MouseMemory::new();
    assert_eq!(
        memory.handle_mouse(&around, mouse(MouseEventKind::ScrollUp, 35, 4), 0, WINDOWS),
        MouseStep::Finished
    );
}

#[test]
fn a_second_click_on_the_divider_resets_the_sidebar() {
    let around = MouseSurroundings { on_sidebar_divider: true, ..surroundings() };
    let mut memory = MouseMemory::new();
    assert_ne!(
        memory.handle_mouse(&around, mouse(LEFT, 25, 5), 1000, WINDOWS),
        MouseStep::ResetSidebarWidth
    );
    assert_eq!(
        memory.handle_mouse(&around, mouse(LEFT, 25, 5), 1350, WINDOWS),
        MouseStep::ResetSidebarWidth
    );
    assert_ne!(
        memory.handle_mouse(&around, mouse(LEFT, 25, 5), 1701, WINDOWS),
        MouseStep::ResetSidebarWidth
    );
}

fn over_pane() -> MouseSurroundings {
    MouseSurroundings {
        pane: Some(PaneHit { pane_id: "p1".to_string(), inner: Rect::new(30, 2, 40, 10) }),
        ..surroundings()
    }
}

#[test]
fn a_modified_click_asks_for_a_link_and_follows_it() {
    let around = over_pane();
    let click = MouseEvent { kind: LEFT, column: 35, row: 6, modifiers: CONTROL };
    let mut memory = MouseMemory::new();
    assert_eq!(
        memory.handle_mouse(&around, click, 0, WINDOWS),
        MouseStep::AskLink { pane_id: "p1".to_string(), row: 4, column: 5 }
    );
    let step = memory.link_answered(&around, click, 0, WINDOWS, Some("https://x".to_string()));
    assert_eq!(step, MouseStep::AskPlugin { url: "https://x".to_string() });
    assert_eq!(
        plugin_answered("https://x".to_string(), Ok(false)),
        MouseStep::OpenLink { url: "https://x".to_string() }
    );
    assert_ne!(
        plugin_answered("https://x".to_string(), Ok(true)),
        MouseStep::OpenLink { url: "https://x".to_string() }
    );
}

#[test]
fn only_plain_presses_are_counted_from_the_corner_of_their_pane() {
    let around = over_pane();
    let memory = MouseMemory::new();
    assert!(memory.accepts_mouse(&around, mouse(LEFT, 30, 2), 0, WINDOWS));
    assert!(!memory.accepts_mouse(&around, mouse(LEFT, 29, 2), 0, WINDOWS));
    assert!(!memory.accepts_mouse(&around, mouse(LEFT, 30, 1), 0, WINDOWS));

    // A click with the modifier starts at the first cell, and a middle press needs none.
    let click = MouseEvent { kind: LEFT, column: 29, row: 6, modifiers: CONTROL };
    assert!(memory.accepts_mouse(&around, click, 0, WINDOWS));
    assert_eq!(
        MouseMemory::new().handle_mouse(&around, click, 0, WINDOWS),
        MouseStep::AskLink { pane_id: "p1".to_string(), row: 4, column: 0 }
    );
    let middle = mouse(MouseEventKind::Down(MouseButton::Middle), 29, 1);
    assert!(memory.accepts_mouse(&around, middle, 0, WINDOWS));
    let step = MouseMemory::new().handle_mouse(&around, middle, 0, WINDOWS);
    assert!(matches!(&step, MouseStep::Ordinary { focus: Some((_, pane)) } if pane == "p1"), "{step:?}");
    let resizing = MouseSurroundings { mode: Mode::Resize, ..over_pane() };
    assert!(memory.accepts_mouse(&resizing, mouse(LEFT, 29, 1), 0, WINDOWS));
}

#[test]
fn a_double_click_copies_a_word_and_is_used_up() {
    let around = over_pane();
    let mut memory = MouseMemory::new();
    let first = memory.handle_mouse(&around, mouse(LEFT, 35, 6), 1000, WINDOWS);
    assert!(matches!(first, MouseStep::Ordinary { .. }), "{first:?}");
    assert!(memory.last_pane_click.is_some());
    let second = memory.handle_mouse(&around, mouse(LEFT, 35, 6), 1200, WINDOWS);
    let MouseStep::CopyWord(click) = second else { panic!("expected a word, got {second:?}") };
    assert_eq!((click.viewport_row, click.col), (4, 5));
    assert!(memory.last_pane_click.is_none(), "a third click starts over");
    assert!(matches!(
        memory.word_copied(&around, mouse(LEFT, 35, 6), false, 1200, 250),
        MouseStep::Ordinary { .. }
    ));
    assert_eq!(memory.highlight_clear_deadline, None);
    assert_eq!(
        memory.word_copied(&around, mouse(LEFT, 35, 6), true, 1200, 250),
        MouseStep::FollowUps
    );
    assert_eq!(memory.highlight_clear_deadline, Some(1450));
}

#[test]
fn resetting_the_sidebar_ends_the_drag_and_is_saved() {
    let mut session = Session::new();
    let mut sidebar = Sidebar {
        width: 57,
        default_width: 26,
        width_source: SidebarWidthSource::Manual,
        width_auto: true,
        dragging: true,
    };
    sidebar.reset_width(&mut session);
    assert_eq!(
        sidebar,
        Sidebar {
            width: 26,
            default_width: 26,
            width_source: SidebarWidthSource::ConfigDefault,
            width_auto: false,
            dragging: false,
        }
    );
    assert!(session.dirty);
}

#[test]
fn follow_ups_come_from_what_changed() {
    let before = InterfaceMarks { integrations_shown: false, agent_panel_sort: 0 };
    let after = InterfaceMarks { integrations_shown: true, agent_panel_sort: 1 };
    let changed = mouse_follow_ups(before, after, true, None, 77);
    assert!(changed.refresh_integrations);
    assert!(changed.save_agent_panel_sort);
    assert_eq!(changed.autoscroll_deadline, Some(77));
    let unchanged = mouse_follow_ups(after, after, false, Some(5), 77);
    assert!(!unchanged.refresh_integrations);
    assert!(!unchanged.save_agent_panel_sort);
    assert_eq!(unchanged.autoscroll_deadline, None);
}

// Glasses ----------------------------------------------------------------

fn glasses_in(status: GlassStatus) -> HostGlasses {
    let mut glasses = HostGlasses::new();
    let generation = glasses.begin_host_glass_generation(&host());
    assert!(glasses.set_host_glass_status(&host(), generation, status));
    glasses.stream_connected(&host(), generation);
    glasses
}

fn live_glasses() -> HostGlasses {
    glasses_in(GlassStatus::Live)
}

fn cue(glasses: &HostGlasses) -> Option<GlassInputDropReason> {
    glasses.states.iter().find(|state| state.host == host()).and_then(|state| state.input_drop_cue)
}

#[test]
fn stale_glass_drops_key_paste_and_mouse_without_queue_and_sets_brief_cue() {
    let mut glasses = glasses_in(GlassStatus::Stale { since: 10 });
    let around = over_glass();
    let body = host_glass_body_area(around.terminal_area);
    let mut state = InputState::new();
    state.mode = Mode::Terminal;
    assert_eq!(
        state.handle_paste(true, false, Some(0), "never queued".to_string()),
        PasteRoute::Glass("never queued".to_string())
    );
    let mut memory = MouseMemory::new();
    assert!(matches!(
        memory.handle_mouse(
            &around,
            mouse(MouseEventKind::ScrollDown, body.x + 2, body.y + 1),
            20,
            WINDOWS
        ),
        MouseStep::ForwardToGlass(_)
    ));
    for _ in 0..3 {
        assert!(!glasses.route_host_glass_input(&host(), 20, 1000));
    }
    assert_eq!(cue(&glasses), Some(GlassInputDropReason::Stale));
    let deadline = glasses.drop_cue_deadline.expect("stale drop cue has a bounded deadline");
    assert_eq!(deadline, 1020);
    assert!(!glasses.expire_drop_cue(deadline - 1));
    assert!(glasses.expire_drop_cue(deadline));
    assert!(glasses.drop_cue_deadline.is_none());
    assert_eq!(cue(&glasses), None);
}

#[test]
fn first_attach_drops_input_with_a_cue() {
    let mut glasses = HostGlasses::new();
    assert!(!glasses.route_host_glass_input(&host(), 5, 1000));
    assert_eq!(glasses.states.len(), 1);
    assert_eq!(glasses.states[0].generation, 0);
    assert_eq!(glasses.states[0].status, GlassStatus::Connecting);
    assert_eq!(cue(&glasses), Some(GlassInputDropReason::Connecting));
    assert!(glasses.drop_cue_deadline.is_some());
}

#[test]
fn glass_queue_full_and_closed_are_consumed_with_truthful_drop_cues() {
    let mut glasses = live_glasses();
    assert!(glasses.route_host_glass_input(&host(), 0, 1000));
    glasses.input_handed_over(&host(), GlassSend::Sent, 0, 1000);
    assert_eq!(cue(&glasses), None);
    assert!(glasses.route_host_glass_input(&host(), 0, 1000));
    glasses.input_handed_over(&host(), GlassSend::Full, 0, 1000);
    assert_eq!(cue(&glasses), Some(GlassInputDropReason::QueueFull));
    assert!(glasses.drop_cue_deadline.is_some());

    assert!(glasses.route_host_glass_input(&host(), 0, 1000));
    glasses.input_handed_over(&host(), GlassSend::Closed, 0, 1000);
    assert_eq!(cue(&glasses), Some(GlassInputDropReason::QueueClosed));
    assert!(!glasses.route_host_glass_input(&host(), 0, 1000));
    assert_eq!(cue(&glasses), Some(GlassInputDropReason::Disconnected));
}

#[test]
fn glass_missing_connecting_and_changed_streams_drop_locally_with_cues() {
    let mut glasses = live_glasses();
    glasses.streams.clear();
    assert!(!glasses.route_host_glass_input(&host(), 0, 1000));
    assert_eq!(cue(&glasses), Some(GlassInputDropReason::MissingStream));

    let generation = glasses.states[0].generation;
    assert!(glasses.set_host_glass_status(&host(), generation, GlassStatus::Connecting));
    assert!(!glasses.route_host_glass_input(&host(), 0, 1000));
    assert_eq!(cue(&glasses), Some(GlassInputDropReason::Connecting));

    glasses.streams.push(HostGlassStream { host: host(), generation, connected: true });
    let next_generation = glasses.begin_host_glass_generation(&host());
    assert!(glasses.set_host_glass_status(&host(), next_generation, GlassStatus::Live));
    assert!(!glasses.set_host_glass_status(&host(), generation, GlassStatus::Connecting));
    assert!(!glasses.route_host_glass_input(&host(), 0, 1000));
    assert_eq!(cue(&glasses), Some(GlassInputDropReason::GenerationChanged));
}

#[test]
fn surfaces_are_kept_by_host() {
    let mut registry = HostGlassSurfaceRegistry::new();
    let area = Rect::new(0, 0, 80, 24);
    assert_eq!(glass_size(area), (80, 24));
    assert_eq!(glass_size(Rect::new(0, 0, 0, 0)), (1, 1));
    assert_eq!(
        GlassSurface::opened(area, 3, Err("no terminal".to_string())),
        Err("no terminal".to_string())
    );
    let mut surface = GlassSurface::opened(area, 3, Ok(7)).expect("a surface");
    assert_eq!(surface.resized(Rect::new(0, 0, 90, 30), Ok(())), Ok(()));
    assert_eq!(surface.area, Rect::new(0, 0, 90, 30));
    assert!(registry.get(&host()).is_none());
    registry.insert(host(), surface);
    assert_eq!(registry.get(&host()).map(|kept| (kept.generation, kept.terminal)), Some((3, 7)));
    assert!(registry.remove(&host()).is_some());
    assert!(registry.remove(&host()).is_none());
}

// Pastes and keys --------------------------------------------------------

#[test]
fn paste_routes_to_rename_modal_input() {
    let mut state = InputState::new();
    state.mode = Mode::RenameTab;
    state.name_input = "2".into();
    state.name_input_replace_on_type = true;

    assert_eq!(
        state.handle_paste(false, false, Some(0), "feature/logs".to_string()),
        PasteRoute::TextInput(true)
    );
    assert_eq!(state.name_input, "feature/logs");
    assert!(!state.name_input_replace_on_type);
}

#[test]
fn paste_does_nothing_while_remote_space_projected() {
    let mut state = InputState::new();
    state.mode = Mode::Terminal;
    assert_eq!(
        state.handle_paste(false, true, Some(0), "injected".to_string()),
        PasteRoute::Dropped,
        "paste must not reach the focused pane runtime while a remote space is projected"
    );
    assert_eq!(state.mode, Mode::Terminal);
    assert_eq!(
        state.handle_paste(false, false, Some(0), "local".to_string()),
        PasteRoute::Pane(0, "local".to_string())
    );
    assert_eq!(state.handle_paste(false, false, None, "local".to_string()), PasteRoute::Dropped);
}

#[test]
fn paste_routes_to_new_linked_worktree_input() {
    let mut state = InputState::new();
    state.mode = Mode::NewLinkedWorktree;
    state.name_input = "generated-branch".into();
    state.name_input_replace_on_type = true;
    state.worktree_create = Some(WorktreeCreateState { branch: "generated-branch".into() });

    state.handle_paste(false, false, None, "feature/linear-302".to_string());

    assert_eq!(state.name_input, "feature/linear-302");
    assert_eq!(
        state.worktree_create.as_ref().map(|create| create.branch.as_str()),
        Some("feature/linear-302")
    );
}

#[test]
fn pastes_go_to_the_focused_searches() {
    let mut state = InputState::new();
    state.mode = Mode::OpenExistingWorktree;
    state.worktree_open =
        Some(WorktreeOpenState { search_focused: true, search: "ab".to_string() });
    assert!(state.paste_into_active_text_input("cd"));
    assert_eq!(state.worktree_open.as_ref().unwrap().search, "abcd");
    state.worktree_open.as_mut().unwrap().search_focused = false;
    assert!(!state.paste_into_active_text_input("ef"));
    assert_eq!(state.worktree_open.as_ref().unwrap().search, "abcd");

    state.mode = Mode::Navigator;
    assert!(!state.paste_into_active_text_input("x"));
    state.navigator.search_focused = true;
    assert!(state.paste_into_active_text_input("x"));
    assert_eq!(state.navigator.search, "x");
}

#[test]
fn modal_paste_shortcut_matches_platform_primary_v() {
    for (platform, modifiers) in [(Platform::MacOs, SUPER), (Platform::Other, CONTROL)] {
        let v = KeyEvent::new(KeyCode::Char('v'), modifiers);
        assert!(is_modal_paste_shortcut(&v, platform));
        let shifted = KeyEvent::new(KeyCode::Char('V'), modifiers | SHIFT);
        assert!(is_modal_paste_shortcut(&shifted, platform));
        assert!(!is_modal_paste_shortcut(&KeyEvent::new(KeyCode::Char('v'), ALT), platform));
    }
    let control = KeyEvent::new(KeyCode::Char('v'), CONTROL);
    assert!(is_modal_paste_shortcut(&control, Platform::MacOs));
    let command = KeyEvent::new(KeyCode::Char('v'), SUPER);
    assert!(!is_modal_paste_shortcut(&command, Platform::Other));
}

#[test]
fn modal_paste_target_is_active_only_for_text_inputs() {
    let mut state = InputState::new();

    state.mode = Mode::RenameTab;
    assert!(modal_paste_target_active(&state));

    state.mode = Mode::Navigator;
    state.navigator.search_focused = false;
    assert!(!modal_paste_target_active(&state));
    state.navigator.search_focused = true;
    assert!(modal_paste_target_active(&state));

    state.mode = Mode::ConfirmClose;
    assert!(!modal_paste_target_active(&state));
}

#[test]
fn keys_go_where_the_mode_says() {
    let mut state = InputState::new();
    let key = KeyEvent::new(KeyCode::Char('x'), 0);
    for (mode, route) in [
        (Mode::Terminal, KeyRoute::Terminal),
        (Mode::Prefix, KeyRoute::Prefix),
        (Mode::Navigate, KeyRoute::Navigate),
        (Mode::RenamePane, KeyRoute::Rename),
        (Mode::ConfirmClose, KeyRoute::ConfirmClose),
        (Mode::Settings, KeyRoute::Settings),
        (Mode::Navigator, KeyRoute::Navigator),
    ] {
        state.mode = mode;
        assert_eq!(state.key_route(&key, Platform::Other), route);
    }
    state.mode = Mode::RenameTab;
    assert_eq!(
        state.key_route(&KeyEvent::new(KeyCode::Char('v'), CONTROL), Platform::Other),
        KeyRoute::PasteClipboard
    );
    let command = KeyEvent::new(KeyCode::Char('v'), SUPER);
    assert_eq!(state.key_route(&command, Platform::MacOs), KeyRoute::PasteClipboard);
    assert_eq!(state.key_route(&command, Platform::Other), KeyRoute::Rename);
}

#[test]
fn pages_scroll_within_their_bounds() {
    let down = handle_release_notes_key(&KeyEvent::new(KeyCode::Down, 0), None);
    assert_eq!(down, PageCommand::Scroll(1));
    assert_eq!(scroll_page(3, 10, down), 4);
    assert_eq!(scroll_page(10, 10, down), 10);
    let up = handle_product_announcement_key(&KeyEvent::new(KeyCode::Up, 0), None);
    assert_eq!(scroll_page(0, 10, up), 0);
    assert_eq!(scroll_page(3, 10, PageCommand::Top), 0);
    assert_eq!(scroll_page(3, 10, PageCommand::Bottom), 10);
    assert_eq!(
        handle_release_notes_key(&KeyEvent::new(KeyCode::Char('x'), 0), Some(ModalAction::Close)),
        PageCommand::Dismiss
    );
    assert!(handle_onboarding_key(&KeyEvent::new(KeyCode::Enter, 0), Some(ModalAction::Continue)));
    assert!(!handle_onboarding_key(&KeyEvent::new(KeyCode::Char('q'), 0), None));
}
