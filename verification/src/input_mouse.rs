//! Where mouse events go.
//!
//! An event is offered to whatever lies on top first: an overlay, the glass of a
//! remote host, a projected pane, the sidebar's divider, a link, a double click. Only
//! what none of them takes is an ordinary event of the local interface. Each function
//! takes what came back of the last step and says what follows.
use vstd::prelude::*;
use crate::geometry::Rect;
use crate::host_glass::cue_until;
use crate::input_keys::{holds, CONTROL};
use crate::projection_plan::RemoteProjectionHitArea;
use crate::search::{first_where, lemma_first_found, lemma_first_missing};
use crate::session::{Mode, Session};
use crate::session_marks::marked;

verus! {

#[derive(Debug, Clone, Copy, PartialEq, Eq, Structural)]
pub enum MouseButton {
    Left,
    Right,
    Middle,
}

#[derive(Debug, Clone, Copy, PartialEq, Eq, Structural)]
pub enum MouseEventKind {
    Down(MouseButton),
    Up(MouseButton),
    Drag(MouseButton),
    Moved,
    ScrollDown,
    ScrollUp,
    ScrollLeft,
    ScrollRight,
}

/// A mouse event over a cell.
#[derive(Debug, Clone, Copy, PartialEq, Eq, Structural)]
pub struct MouseEvent {
    pub kind: MouseEventKind,
    pub column: u16,
    pub row: u16,
    pub modifiers: u8,
}

/// Input for a remote host.
#[derive(Debug, Clone, Copy, PartialEq, Eq, Structural)]
pub struct ClientMouseInput {
    pub kind: MouseEventKind,
    pub column: u16,
    pub row: u16,
    pub modifiers: u8,
}

/// The modifier with which a click follows a link.
pub fn modified_url_click_modifier() -> (modifier: u8)
    ensures
        modifier == CONTROL,
{
    CONTROL
}

// Over a host's glass ----------------------------------------------------

/// The part of a host's glass that belongs to the host: all but the row that says
/// whose glass it is.
pub open spec fn glass_body(area: Rect) -> Rect {
    Rect {
        x: area.x,
        y: if area.y == u16::MAX {
            u16::MAX
        } else {
            (area.y + 1) as u16
        },
        width: area.width,
        height: if area.height == 0 {
            0
        } else {
            (area.height - 1) as u16
        },
    }
}

pub fn host_glass_body_area(area: Rect) -> (body: Rect)
    ensures
        body == glass_body(area),
{
    Rect {
        x: area.x,
        y: if area.y == u16::MAX {
            u16::MAX
        } else {
            area.y + 1
        },
        width: area.width,
        height: if area.height == 0 {
            0
        } else {
            area.height - 1
        },
    }
}

/// A mouse event as the host sees it: counted from the body's corner. There is none
/// outside the body.
pub open spec fn body_mouse(body: Rect, mouse: MouseEvent) -> Option<ClientMouseInput> {
    if body.covers(mouse.column, mouse.row) {
        Some(
            ClientMouseInput {
                kind: mouse.kind,
                column: (mouse.column - body.x) as u16,
                row: (mouse.row - body.y) as u16,
                modifiers: mouse.modifiers,
            },
        )
    } else {
        None
    }
}

pub fn translate_host_glass_mouse(body: Rect, mouse: MouseEvent) -> (input: Option<ClientMouseInput>)
    ensures
        input == body_mouse(body, mouse),
{
    if !body.contains(mouse.column, mouse.row) {
        return None;
    }
    Some(
        ClientMouseInput {
            kind: mouse.kind,
            column: mouse.column - body.x,
            row: mouse.row - body.y,
            modifiers: mouse.modifiers,
        },
    )
}

/// A pane under the pointer.
#[derive(Debug, PartialEq, Eq)]
pub struct PaneHit {
    pub pane_id: String,
    /// Its cells, without its border.
    pub inner: Rect,
}

/// What lies where, and what the pointer is over.
#[derive(Debug, PartialEq, Eq)]
pub struct MouseSurroundings {
    pub mode: Mode,
    /// A remote host's glass is shown.
    pub glass_active: bool,
    pub host_rail: Rect,
    /// The notification, where a click on it leads somewhere.
    pub clickable_toast: Option<Rect>,
    pub terminal_area: Rect,
    /// A remote workspace is shown.
    pub remote_space_selected: bool,
    pub projection_areas: Vec<RemoteProjectionHitArea>,
    pub on_sidebar_divider: bool,
    pub pane: Option<PaneHit>,
    /// The shown local workspace.
    pub active: Option<usize>,
    pub selection_visible: bool,
}

/// What a mouse event over a host's glass comes to.
#[derive(Debug, Clone, Copy, PartialEq, Eq, Structural)]
pub enum GlassMouse {
    /// It is not over the glass.
    Elsewhere,
    /// It is over the row that stays local.
    Consumed,
    Forwarded(ClientMouseInput),
}

/// What a mouse event over a host's glass comes to. The rail of hosts and a
/// notification that leads somewhere stay local.
pub open spec fn glass_mouse(around: MouseSurroundings, mouse: MouseEvent) -> GlassMouse {
    if around.mode != Mode::Terminal || !around.glass_active {
        GlassMouse::Elsewhere
    } else if around.host_rail.covers(mouse.column, mouse.row) {
        GlassMouse::Elsewhere
    } else if around.clickable_toast matches Some(toast) && toast.covers(mouse.column, mouse.row) {
        GlassMouse::Elsewhere
    } else if !around.terminal_area.covers(mouse.column, mouse.row) {
        GlassMouse::Elsewhere
    } else {
        match body_mouse(glass_body(around.terminal_area), mouse) {
            Some(input) => GlassMouse::Forwarded(input),
            None => GlassMouse::Consumed,
        }
    }
}

pub fn handle_host_glass_mouse(around: &MouseSurroundings, mouse: MouseEvent) -> (over: GlassMouse)
    ensures
        over == glass_mouse(*around, mouse),
{
    if around.mode != Mode::Terminal || !around.glass_active {
        return GlassMouse::Elsewhere;
    }
    if around.host_rail.contains(mouse.column, mouse.row) {
        return GlassMouse::Elsewhere;
    }
    if let Some(toast) = around.clickable_toast {
        if toast.contains(mouse.column, mouse.row) {
            return GlassMouse::Elsewhere;
        }
    }
    if !around.terminal_area.contains(mouse.column, mouse.row) {
        return GlassMouse::Elsewhere;
    }
    match translate_host_glass_mouse(host_glass_body_area(around.terminal_area), mouse) {
        Some(input) => GlassMouse::Forwarded(input),
        None => GlassMouse::Consumed,
    }
}

// Over a projected pane --------------------------------------------------

pub open spec fn lies_under(column: u16, row: u16) -> spec_fn(RemoteProjectionHitArea) -> bool {
    |area: RemoteProjectionHitArea| area.rect.covers(column, row)
}

/// Whether a projected pane keeps a mouse event from the local interface: its focused
/// pane does, but for the click that opens a menu.
pub open spec fn projection_keeps(around: MouseSurroundings, mouse: MouseEvent) -> bool {
    &&& around.mode == Mode::Terminal
    &&& around.remote_space_selected
    &&& match first_where(around.projection_areas@, lies_under(mouse.column, mouse.row)) {
        Some(i) => mouse.kind != MouseEventKind::Down(MouseButton::Right)
            && around.projection_areas@[i].focused,
        None => false,
    }
}

pub fn handle_remote_projection_terminal_mouse(around: &MouseSurroundings, mouse: MouseEvent) -> (
    kept: bool)
    ensures
        kept == projection_keeps(*around, mouse),
{
    if around.mode != Mode::Terminal || !around.remote_space_selected {
        return false;
    }
    let areas = &around.projection_areas;
    let mut i: usize = 0;
    while i < areas.len()
        invariant
            i <= areas@.len(),
            *areas == around.projection_areas,
            around.mode == Mode::Terminal,
            around.remote_space_selected,
            forall|j: int|
                0 <= j < i ==> !lies_under(mouse.column, mouse.row)(#[trigger] areas@[j]),
        decreases areas@.len() - i,
    {
        if areas[i].rect.contains(mouse.column, mouse.row) {
            proof {
                lemma_first_found(areas@, lies_under(mouse.column, mouse.row), i as int);
            }
            return mouse.kind != MouseEventKind::Down(MouseButton::Right) && areas[i].focused;
        }
        i = i + 1;
    }
    proof {
        lemma_first_missing(areas@, lies_under(mouse.column, mouse.row));
    }
    false
}

// Clicks -----------------------------------------------------------------

/// A press on a cell of a pane.
#[derive(Debug, PartialEq, Eq)]
pub struct PaneClickState {
    pub pane_id: String,
    pub viewport_row: u16,
    pub col: u16,
    pub at: u64,
}

/// What is remembered from one mouse event to the next.
#[derive(Debug, PartialEq, Eq)]
pub struct MouseMemory {
    pub last_sidebar_divider_click: Option<u64>,
    pub last_pane_click: Option<PaneClickState>,
    /// When the highlight of a copied word goes.
    pub highlight_clear_deadline: Option<u64>,
}

/// How close in time and space two clicks are one double click.
#[derive(Debug, Clone, Copy, PartialEq, Eq, Structural)]
pub struct ClickWindows {
    pub sidebar: u64,
    pub pane: u64,
    pub pane_cells: u16,
}

/// The time that passed since an earlier moment.
pub open spec fn elapsed(now: u64, since: u64) -> int {
    if now >= since {
        now - since
    } else {
        0
    }
}

fn time_since(now: u64, since: u64) -> (passed: u64)
    ensures
        passed == elapsed(now, since),
{
    if now >= since {
        now - since
    } else {
        0
    }
}

/// Whether two cells are within a distance of each other.
pub open spec fn near(a: u16, b: u16, cells: u16) -> bool {
    a <= b + cells && b <= a + cells
}

/// Whether a click follows another closely enough.
pub open spec fn doubles(last: PaneClickState, click: PaneClickState, windows: ClickWindows) -> bool {
    &&& last.pane_id@ == click.pane_id@
    &&& near(last.viewport_row, click.viewport_row, windows.pane_cells)
    &&& near(last.col, click.col, windows.pane_cells)
    &&& elapsed(click.at, last.at) <= windows.pane
}

fn is_near(a: u16, b: u16, cells: u16) -> (close: bool)
    ensures
        close == near(a, b, cells),
{
    a as u32 <= b as u32 + cells as u32 && b as u32 <= a as u32 + cells as u32
}

impl PaneClickState {
    pub fn is_double_click_for(&self, click: &PaneClickState, windows: ClickWindows) -> (double: bool)
        ensures
            double == doubles(*self, *click, windows),
    {
        self.pane_id == click.pane_id && is_near(
            self.viewport_row,
            click.viewport_row,
            windows.pane_cells,
        ) && is_near(self.col, click.col, windows.pane_cells) && time_since(click.at, self.at)
            <= windows.pane
    }
}

/// What follows a mouse event, or what came back of the last step.
#[derive(Debug, PartialEq, Eq)]
pub enum MouseStep {
    /// Nothing more.
    Finished,
    /// Over the glass: to its host.
    ForwardToGlass(ClientMouseInput),
    /// The sidebar gets its configured width again: see [`Sidebar::reset_width`].
    ResetSidebarWidth,
    /// Is there a link on this cell of a pane?
    AskLink { pane_id: String, row: u16, column: u16 },
    /// Does a plugin open this link?
    AskPlugin { url: String },
    OpenLink { url: String },
    /// Copy the word under this click.
    CopyWord(PaneClickState),
    /// The local interface takes it, once the pane under it has the focus.
    Ordinary { focus: Option<(usize, String)> },
    /// Only what follows every event.
    FollowUps,
}

/// The pane that a press gives the focus before the local interface takes it.
pub open spec fn pressed_pane(around: MouseSurroundings, mouse: MouseEvent) -> Option<
    (usize, String),
> {
    let press = mouse.kind == MouseEventKind::Down(MouseButton::Left) || mouse.kind
        == MouseEventKind::Down(MouseButton::Middle);
    if press && (around.mode == Mode::Terminal || around.mode == Mode::Resize) {
        match (around.active, around.pane) {
            (Some(w), Some(hit)) => Some((w, hit.pane_id)),
            _ => None,
        }
    } else {
        None
    }
}

/// The click that an event may be the second half of.
pub open spec fn click_candidate(around: MouseSurroundings, mouse: MouseEvent, now: u64) -> Option<
    PaneClickState,
> {
    if mouse.kind != MouseEventKind::Down(MouseButton::Left) || mouse.modifiers != 0
        || around.mode != Mode::Terminal {
        None
    } else {
        match around.pane {
            Some(hit) => Some(
                PaneClickState {
                    pane_id: hit.pane_id,
                    viewport_row: (mouse.row - hit.inner.y) as u16,
                    col: (mouse.column - hit.inner.x) as u16,
                    at: now,
                },
            ),
            None => None,
        }
    }
}

/// Whether an event ends whatever click came before it: a drag, the end of a
/// selection, or a press that cannot be part of a double click.
pub open spec fn ends_click(around: MouseSurroundings, mouse: MouseEvent, now: u64) -> bool {
    ||| mouse.kind == MouseEventKind::Drag(MouseButton::Left)
    ||| mouse.kind == MouseEventKind::Up(MouseButton::Left) && around.selection_visible
    ||| mouse.kind == MouseEventKind::Down(MouseButton::Left) && click_candidate(
        around,
        mouse,
        now,
    ) is None
}

/// Double clicks, and then the local interface.
pub open spec fn click_stage(
    around: MouseSurroundings,
    memory: MouseMemory,
    mouse: MouseEvent,
    now: u64,
    windows: ClickWindows,
) -> (MouseMemory, MouseStep) {
    let ordinary = MouseStep::Ordinary { focus: pressed_pane(around, mouse) };
    if ends_click(around, mouse, now) {
        (MouseMemory { last_pane_click: None, ..memory }, ordinary)
    } else {
        match click_candidate(around, mouse, now) {
            None => (memory, ordinary),
            Some(click) => if memory.last_pane_click matches Some(last) && doubles(
                last,
                click,
                windows,
            ) {
                (MouseMemory { last_pane_click: None, ..memory }, MouseStep::CopyWord(click))
            } else {
                (MouseMemory { last_pane_click: Some(click), ..memory }, ordinary)
            },
        }
    }
}

/// How far a cell lies past the first one of a pane; none before it.
pub open spec fn past(cell: u16, first: u16) -> u16 {
    if cell >= first {
        (cell - first) as u16
    } else {
        0
    }
}

fn cells_past(cell: u16, first: u16) -> (cells: u16)
    ensures
        cells == past(cell, first),
{
    if cell >= first {
        cell - first
    } else {
        0
    }
}

/// The cell in which a click with the modifier looks for a link.
pub open spec fn link_cell(around: MouseSurroundings, mouse: MouseEvent) -> Option<MouseStep> {
    if around.mode != Mode::Terminal || mouse.kind != MouseEventKind::Down(MouseButton::Left)
        || !holds(mouse.modifiers, CONTROL) || around.remote_space_selected {
        None
    } else {
        match around.pane {
            Some(hit) => Some(
                MouseStep::AskLink {
                    pane_id: hit.pane_id,
                    row: past(mouse.row, hit.inner.y),
                    column: past(mouse.column, hit.inner.x),
                },
            ),
            None => None,
        }
    }
}

/// Links, then double clicks.
pub open spec fn link_stage(
    around: MouseSurroundings,
    memory: MouseMemory,
    mouse: MouseEvent,
    now: u64,
    windows: ClickWindows,
) -> (MouseMemory, MouseStep) {
    match link_cell(around, mouse) {
        Some(ask) => (memory, ask),
        None => click_stage(around, memory, mouse, now, windows),
    }
}

/// What follows a mouse event that no overlay took.
pub open spec fn mouse_stage(
    around: MouseSurroundings,
    memory: MouseMemory,
    mouse: MouseEvent,
    now: u64,
    windows: ClickWindows,
) -> (MouseMemory, MouseStep) {
    match glass_mouse(around, mouse) {
        GlassMouse::Forwarded(input) => (memory, MouseStep::ForwardToGlass(input)),
        GlassMouse::Consumed => (memory, MouseStep::Finished),
        GlassMouse::Elsewhere => if projection_keeps(around, mouse) {
            (memory, MouseStep::Finished)
        } else if mouse.kind == MouseEventKind::Down(MouseButton::Left)
            && around.on_sidebar_divider {
            let clicked = MouseMemory { last_sidebar_divider_click: Some(now), ..memory };
            if memory.last_sidebar_divider_click matches Some(last) && elapsed(now, last)
                <= windows.sidebar {
                (clicked, MouseStep::ResetSidebarWidth)
            } else {
                link_stage(around, clicked, mouse, now, windows)
            }
        } else {
            link_stage(around, memory, mouse, now, windows)
        },
    }
}

/// A press that may be part of a double click does not lie before the cells of its
/// pane: it is counted from their corner.
pub open spec fn press_is_within(around: MouseSurroundings, mouse: MouseEvent) -> bool {
    click_candidate(around, mouse, 0) is Some ==> around.pane->0.inner.x <= mouse.column
        && around.pane->0.inner.y <= mouse.row
}

/// Whether an event is the second click on the sidebar's divider.
pub open spec fn doubles_divider_click(
    around: MouseSurroundings,
    memory: MouseMemory,
    mouse: MouseEvent,
    now: u64,
    windows: ClickWindows,
) -> bool {
    &&& mouse.kind == MouseEventKind::Down(MouseButton::Left)
    &&& around.on_sidebar_divider
    &&& memory.last_sidebar_divider_click matches Some(last) && elapsed(now, last)
        <= windows.sidebar
}

/// Whether an event can be handled: unless something above the panes takes it, a press
/// lies within its pane.
pub open spec fn accepted(
    around: MouseSurroundings,
    memory: MouseMemory,
    mouse: MouseEvent,
    now: u64,
    windows: ClickWindows,
) -> bool {
    ||| !(glass_mouse(around, mouse) is Elsewhere)
    ||| projection_keeps(around, mouse)
    ||| doubles_divider_click(around, memory, mouse, now, windows)
    ||| press_is_within(around, mouse)
}

impl MouseMemory {
    pub fn new() -> (memory: Self)
        ensures
            memory == (MouseMemory {
                last_sidebar_divider_click: None,
                last_pane_click: None,
                highlight_clear_deadline: None,
            }),
    {
        MouseMemory {
            last_sidebar_divider_click: None,
            last_pane_click: None,
            highlight_clear_deadline: None,
        }
    }

    fn click_step(
        &mut self,
        around: &MouseSurroundings,
        mouse: MouseEvent,
        now: u64,
        windows: ClickWindows,
    ) -> (step: MouseStep)
        requires
            press_is_within(*around, mouse),
        ensures
            (*final(self), step) == click_stage(*around, *old(self), mouse, now, windows),
    {
        let left_down = mouse.kind == MouseEventKind::Down(MouseButton::Left);
        if mouse.kind == MouseEventKind::Drag(MouseButton::Left) || (mouse.kind
            == MouseEventKind::Up(MouseButton::Left) && around.selection_visible) {
            self.last_pane_click = None;
            return ordinary_step(around, mouse);
        }
        if !left_down {
            return ordinary_step(around, mouse);
        }
        if mouse.modifiers != 0 || around.mode != Mode::Terminal {
            self.last_pane_click = None;
            return ordinary_step(around, mouse);
        }
        let click = match &around.pane {
            Some(hit) => PaneClickState {
                pane_id: hit.pane_id.clone(),
                viewport_row: mouse.row - hit.inner.y,
                col: mouse.column - hit.inner.x,
                at: now,
            },
            None => {
                self.last_pane_click = None;
                return ordinary_step(around, mouse);
            },
        };
        let double = match &self.last_pane_click {
            Some(last) => last.is_double_click_for(&click, windows),
            None => false,
        };
        if double {
            self.last_pane_click = None;
            MouseStep::CopyWord(click)
        } else {
            self.last_pane_click = Some(click);
            ordinary_step(around, mouse)
        }
    }

    fn link_step(
        &mut self,
        around: &MouseSurroundings,
        mouse: MouseEvent,
        now: u64,
        windows: ClickWindows,
    ) -> (step: MouseStep)
        requires
            press_is_within(*around, mouse),
        ensures
            (*final(self), step) == link_stage(*around, *old(self), mouse, now, windows),
    {
        let left_down = mouse.kind == MouseEventKind::Down(MouseButton::Left);
        let modified = mouse.modifiers & modified_url_click_modifier()
            == modified_url_click_modifier();
        if around.mode == Mode::Terminal && left_down && modified && !around.remote_space_selected {
            if let Some(hit) = &around.pane {
                return MouseStep::AskLink {
                    pane_id: hit.pane_id.clone(),
                    row: cells_past(mouse.row, hit.inner.y),
                    column: cells_past(mouse.column, hit.inner.x),
                };
            }
        }
        self.click_step(around, mouse, now, windows)
    }

    /// Whether [`MouseMemory::handle_mouse`] takes an event.
    pub fn accepts_mouse(
        &self,
        around: &MouseSurroundings,
        mouse: MouseEvent,
        now: u64,
        windows: ClickWindows,
    ) -> (accepts: bool)
        ensures
            accepts == accepted(*around, *self, mouse, now, windows),
    {
        let left_down = mouse.kind == MouseEventKind::Down(MouseButton::Left);
        if !left_down || mouse.modifiers != 0 || around.mode != Mode::Terminal {
            return true;
        }
        let within = match &around.pane {
            Some(hit) => hit.inner.x <= mouse.column && hit.inner.y <= mouse.row,
            None => true,
        };
        let resets = around.on_sidebar_divider && match self.last_sidebar_divider_click {
            Some(last) => time_since(now, last) <= windows.sidebar,
            None => false,
        };
        within || resets || !matches!(handle_host_glass_mouse(around, mouse), GlassMouse::Elsewhere)
            || handle_remote_projection_terminal_mouse(around, mouse)
    }

    /// Takes a mouse event that no overlay took.
    pub fn handle_mouse(
        &mut self,
        around: &MouseSurroundings,
        mouse: MouseEvent,
        now: u64,
        windows: ClickWindows,
    ) -> (step: MouseStep)
        requires
            accepted(*around, *old(self), mouse, now, windows),
        ensures
            (*final(self), step) == mouse_stage(*around, *old(self), mouse, now, windows),
    {
        match handle_host_glass_mouse(around, mouse) {
            GlassMouse::Forwarded(input) => {
                return MouseStep::ForwardToGlass(input);
            },
            GlassMouse::Consumed => {
                return MouseStep::Finished;
            },
            GlassMouse::Elsewhere => {},
        }
        if handle_remote_projection_terminal_mouse(around, mouse) {
            return MouseStep::Finished;
        }
        if mouse.kind == MouseEventKind::Down(MouseButton::Left) && around.on_sidebar_divider {
            let double = match self.last_sidebar_divider_click {
                Some(last) => time_since(now, last) <= windows.sidebar,
                None => false,
            };
            self.last_sidebar_divider_click = Some(now);
            if double {
                return MouseStep::ResetSidebarWidth;
            }
        }
        self.link_step(around, mouse, now, windows)
    }

    /// Takes the link on the cell that was asked about. A link ends whatever click
    /// came before.
    pub fn link_answered(
        &mut self,
        around: &MouseSurroundings,
        mouse: MouseEvent,
        now: u64,
        windows: ClickWindows,
        link: Option<String>,
    ) -> (step: MouseStep)
        requires
            press_is_within(*around, mouse),
        ensures
            (*final(self), step) == match link {
                Some(url) => (
                    MouseMemory { last_pane_click: None, ..*old(self) },
                    MouseStep::AskPlugin { url },
                ),
                None => click_stage(*around, *old(self), mouse, now, windows),
            },
    {
        match link {
            Some(url) => {
                self.last_pane_click = None;
                MouseStep::AskPlugin { url }
            },
            None => self.click_step(around, mouse, now, windows),
        }
    }

    /// Takes what copying a word came to. A copied word stays highlighted for a while;
    /// without a word the click is an ordinary one.
    pub fn word_copied(
        &mut self,
        around: &MouseSurroundings,
        mouse: MouseEvent,
        copied: bool,
        now: u64,
        shown_for: u64,
    ) -> (step: MouseStep)
        ensures
            (*final(self), step) == if copied {
                (
                    MouseMemory {
                        highlight_clear_deadline: Some(cue_until(now, shown_for)),
                        ..*old(self)
                    },
                    MouseStep::FollowUps,
                )
            } else {
                (*old(self), MouseStep::Ordinary { focus: pressed_pane(*around, mouse) })
            },
    {
        if copied {
            self.highlight_clear_deadline = Some(
                if now > u64::MAX - shown_for {
                    u64::MAX
                } else {
                    now + shown_for
                },
            );
            MouseStep::FollowUps
        } else {
            ordinary_step(around, mouse)
        }
    }
}

fn ordinary_step(around: &MouseSurroundings, mouse: MouseEvent) -> (step: MouseStep)
    ensures
        step == (MouseStep::Ordinary { focus: pressed_pane(*around, mouse) }),
{
    let press = mouse.kind == MouseEventKind::Down(MouseButton::Left) || mouse.kind
        == MouseEventKind::Down(MouseButton::Middle);
    let focus = if press && (around.mode == Mode::Terminal || around.mode == Mode::Resize) {
        match (around.active, &around.pane) {
            (Some(w), Some(hit)) => Some((w, hit.pane_id.clone())),
            _ => None,
        }
    } else {
        None
    };
    MouseStep::Ordinary { focus }
}

/// Takes a plugin's answer about a link. The link is opened unless a plugin did so.
pub fn plugin_answered(url: String, handled: Result<bool, String>) -> (step: MouseStep)
    ensures
        step == match handled {
            Ok(true) => MouseStep::Finished,
            _ => MouseStep::OpenLink { url },
        },
{
    match handled {
        Ok(true) => MouseStep::Finished,
        _ => MouseStep::OpenLink { url },
    }
}

// The sidebar ------------------------------------------------------------

/// Where the width of the sidebar comes from.
#[derive(Debug, Clone, Copy, PartialEq, Eq, Structural)]
pub enum SidebarWidthSource {
    ConfigDefault,
    Manual,
}

/// The sidebar, as far as its width goes.
#[derive(Debug, Clone, Copy, PartialEq, Eq, Structural)]
pub struct Sidebar {
    pub width: u16,
    pub default_width: u16,
    pub width_source: SidebarWidthSource,
    /// The width follows what is shown.
    pub width_auto: bool,
    /// Something is being dragged.
    pub dragging: bool,
}

impl Sidebar {
    /// Gives the sidebar its configured width again, for good: whatever is dragged is let
    /// go, and the session is to be saved.
    pub fn reset_width(&mut self, session: &mut Session)
        ensures
            *final(self) == (Sidebar {
                width: old(self).default_width,
                width_source: SidebarWidthSource::ConfigDefault,
                width_auto: false,
                dragging: false,
                ..*old(self)
            }),
            final(session)@ == marked(old(session)@),
            old(session)@.ok() ==> final(session)@.ok(),
    {
        self.width = self.default_width;
        self.width_source = SidebarWidthSource::ConfigDefault;
        self.width_auto = false;
        self.dragging = false;
        session.mark_session_dirty();
    }
}

// What follows every event -----------------------------------------------

/// What an event may change that something else depends on.
#[derive(Debug, Clone, Copy, PartialEq, Eq, Structural)]
pub struct InterfaceMarks {
    /// The settings show the integrations.
    pub integrations_shown: bool,
    /// How the panel of agents is sorted.
    pub agent_panel_sort: u8,
}

/// What is done after an event.
#[derive(Debug, Clone, Copy, PartialEq, Eq, Structural)]
pub struct MouseFollowUps {
    pub refresh_integrations: bool,
    pub save_agent_panel_sort: bool,
    /// When the selection scrolls next by itself.
    pub autoscroll_deadline: Option<u64>,
}

/// What is done after an event: what was just opened is refreshed, a changed order is
/// saved, and a selection that scrolls by itself keeps its deadline.
pub open spec fn follow_ups_of(
    before: InterfaceMarks,
    after: InterfaceMarks,
    autoscrolls: bool,
    deadline: Option<u64>,
    next: u64,
) -> MouseFollowUps {
    MouseFollowUps {
        refresh_integrations: !before.integrations_shown && after.integrations_shown,
        save_agent_panel_sort: before.agent_panel_sort != after.agent_panel_sort,
        autoscroll_deadline: if !autoscrolls {
            None
        } else {
            match deadline {
                Some(deadline) => Some(deadline),
                None => Some(next),
            }
        },
    }
}

pub fn mouse_follow_ups(
    before: InterfaceMarks,
    after: InterfaceMarks,
    autoscrolls: bool,
    deadline: Option<u64>,
    next: u64,
) -> (follow_ups: MouseFollowUps)
    ensures
        follow_ups == follow_ups_of(before, after, autoscrolls, deadline, next),
{
    MouseFollowUps {
        refresh_integrations: !before.integrations_shown && after.integrations_shown,
        save_agent_panel_sort: before.agent_panel_sort != after.agent_panel_sort,
        autoscroll_deadline: if !autoscrolls {
            None
        } else {
            match deadline {
                Some(deadline) => Some(deadline),
                None => Some(next),
            }
        },
    }
}

// Laws -------------------------------------------------------------------

/// What a host gets of the mouse lies within its own body.
pub proof fn forwarded_events_are_body_local(body: Rect, mouse: MouseEvent)
    requires
        body_mouse(body, mouse) is Some,
    ensures
        body_mouse(body, mouse)->0.column < body.width,
        body_mouse(body, mouse)->0.row < body.height,
        body_mouse(body, mouse)->0.column + body.x == mouse.column,
        body_mouse(body, mouse)->0.row + body.y == mouse.row,
{
}

/// The rail of hosts never goes to a host: it is always the way back.
pub proof fn the_rail_stays_local(
    around: MouseSurroundings,
    memory: MouseMemory,
    mouse: MouseEvent,
    now: u64,
    windows: ClickWindows,
)
    requires
        around.host_rail.covers(mouse.column, mouse.row),
    ensures
        !(mouse_stage(around, memory, mouse, now, windows).1 is ForwardToGlass),
{
}

/// The row that says whose glass is shown goes neither to the host nor to a pane.
pub proof fn the_status_row_is_consumed(
    around: MouseSurroundings,
    memory: MouseMemory,
    mouse: MouseEvent,
    now: u64,
    windows: ClickWindows,
)
    requires
        around.mode == Mode::Terminal,
        around.glass_active,
        !around.host_rail.covers(mouse.column, mouse.row),
        around.clickable_toast is None,
        around.terminal_area.covers(mouse.column, mouse.row),
        mouse.row == around.terminal_area.y,
    ensures
        mouse_stage(around, memory, mouse, now, windows) == (memory, MouseStep::Finished),
{
}

/// While no glass is shown, nothing that the focused pane of a shown remote workspace
/// keeps reaches the local interface.
pub proof fn projected_panes_keep_the_mouse(
    around: MouseSurroundings,
    memory: MouseMemory,
    mouse: MouseEvent,
    now: u64,
    windows: ClickWindows,
)
    requires
        projection_keeps(around, mouse),
        !around.glass_active,
    ensures
        mouse_stage(around, memory, mouse, now, windows) == (memory, MouseStep::Finished),
{
}

/// A double click forgets the click that it began with, so that no click is the
/// first half of two.
pub proof fn double_clicks_are_used_up(
    around: MouseSurroundings,
    memory: MouseMemory,
    mouse: MouseEvent,
    now: u64,
    windows: ClickWindows,
)
    requires
        click_stage(around, memory, mouse, now, windows).1 is CopyWord,
    ensures
        click_stage(around, memory, mouse, now, windows).0.last_pane_click is None,
        memory.last_pane_click is Some,
{
}

/// No link of a remote workspace is opened locally.
pub proof fn remote_links_are_not_followed(around: MouseSurroundings, mouse: MouseEvent)
    requires
        around.remote_space_selected,
    ensures
        link_cell(around, mouse) is None,
{
}

} // verus!
