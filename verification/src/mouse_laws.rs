//! Where a mouse event goes, said of the event, of what is shown under it and of the
//! clicks before it.
use vstd::prelude::*;
use crate::geometry::Rect;
use crate::input_keys::{holds, CONTROL};
use crate::input_mouse::{
    follow_ups_of, lies_under, mouse_stage, ClickWindows, InterfaceMarks, MouseButton, MouseEvent,
    MouseEventKind, MouseMemory, MouseStep, MouseSurroundings,
};
use crate::search::{lemma_first_found, lemma_first_holds, lemma_first_missing};
use crate::session::Mode;

verus! {

/// A rectangle covers its own cells and no others. One that would reach past the
/// last countable cell ends before it.
pub proof fn rectangles_cover_their_cells(rect: Rect, column: u16, row: u16)
    ensures
        rect.x + rect.width <= u16::MAX && rect.y + rect.height <= u16::MAX ==> rect.covers(
            column,
            row,
        ) == (rect.x <= column && column < rect.x + rect.width && rect.y <= row && row < rect.y
            + rect.height),
        rect.covers(column, row) ==> rect.x <= column && column < rect.x + rect.width && rect.y
            <= row && row < rect.y + rect.height && column < u16::MAX && row < u16::MAX,
        rect.x <= column && column < rect.x + rect.width && column < u16::MAX && rect.y <= row && row
            < rect.y + rect.height && row < u16::MAX ==> rect.covers(column, row),
{
}

// The glass --------------------------------------------------------------

/// Over a shown glass an event goes to its host with its kind and its modifiers, in
/// the glass's own cells: those right of its left edge and below its first row. The
/// first row takes the event and tells nobody. Nothing is remembered of either.
pub proof fn glass_events_go_to_its_host(
    around: MouseSurroundings,
    memory: MouseMemory,
    mouse: MouseEvent,
    now: u64,
    windows: ClickWindows,
)
    requires
        around.mode == Mode::Terminal,
        around.glass_active,
        around.terminal_area.x + around.terminal_area.width <= u16::MAX,
        around.terminal_area.y + around.terminal_area.height <= u16::MAX,
        around.terminal_area.covers(mouse.column, mouse.row),
        !around.host_rail.covers(mouse.column, mouse.row),
        around.clickable_toast matches Some(toast) ==> !toast.covers(mouse.column, mouse.row),
    ensures
        ({
            let (after, step) = mouse_stage(around, memory, mouse, now, windows);
            &&& after == memory
            &&& if mouse.row == around.terminal_area.y {
                step is Finished
            } else {
                step matches MouseStep::ForwardToGlass(input) && input.kind == mouse.kind
                    && input.modifiers == mouse.modifiers && input.column + around.terminal_area.x
                    == mouse.column && input.row + around.terminal_area.y + 1 == mouse.row
            }
        }),
{
}

/// Without a shown glass nothing goes to its host; nor does what is over the host
/// rail, over a notification that leads somewhere, or outside the terminal area.
pub proof fn other_events_stay_off_the_glass(
    around: MouseSurroundings,
    memory: MouseMemory,
    mouse: MouseEvent,
    now: u64,
    windows: ClickWindows,
)
    requires
        around.mode != Mode::Terminal || !around.glass_active || around.host_rail.covers(
            mouse.column,
            mouse.row,
        ) || !around.terminal_area.covers(mouse.column, mouse.row) || (
        around.clickable_toast matches Some(toast) && toast.covers(mouse.column, mouse.row)),
    ensures
        !(mouse_stage(around, memory, mouse, now, windows).1 is ForwardToGlass),
{
}

// Projected panes --------------------------------------------------------

/// Off the glass, an event over a projected pane ends there exactly where a remote
/// workspace is shown, the pane is the focused one and the event is no press of the
/// right button. The pane is the first one under the event. Over any other pane the
/// local interface gets it.
pub proof fn focused_projected_panes_end_events(
    around: MouseSurroundings,
    memory: MouseMemory,
    mouse: MouseEvent,
    now: u64,
    windows: ClickWindows,
    i: int,
)
    requires
        !around.glass_active,
        0 <= i < around.projection_areas@.len(),
        around.projection_areas@[i].rect.covers(mouse.column, mouse.row),
        forall|j: int|
            0 <= j < i ==> !(#[trigger] around.projection_areas@[j]).rect.covers(
                mouse.column,
                mouse.row,
            ),
    ensures
        (mouse_stage(around, memory, mouse, now, windows).1 is Finished) == (around.mode
            == Mode::Terminal && around.remote_space_selected && around.projection_areas@[i].focused
            && mouse.kind != MouseEventKind::Down(MouseButton::Right)),
        mouse_stage(around, memory, mouse, now, windows).1 is Finished ==> mouse_stage(
            around,
            memory,
            mouse,
            now,
            windows,
        ).0 == memory,
{
    let areas = around.projection_areas@;
    let under = lies_under(mouse.column, mouse.row);
    assert forall|j: int| 0 <= j < i implies !under(#[trigger] areas[j]) by {
        assert(!areas[j].rect.covers(mouse.column, mouse.row));
    }
    lemma_first_found(areas, under, i);
}

/// Off the glass, an event over no projected pane never ends without anybody having
/// got it.
pub proof fn events_beside_projected_panes_go_on(
    around: MouseSurroundings,
    memory: MouseMemory,
    mouse: MouseEvent,
    now: u64,
    windows: ClickWindows,
)
    requires
        !around.glass_active,
        forall|j: int|
            0 <= j < around.projection_areas@.len() ==> !(
            #[trigger] around.projection_areas@[j]).rect.covers(mouse.column, mouse.row),
    ensures
        !(mouse_stage(around, memory, mouse, now, windows).1 is Finished),
{
    let areas = around.projection_areas@;
    let under = lies_under(mouse.column, mouse.row);
    assert forall|j: int| 0 <= j < areas.len() implies !under(#[trigger] areas[j]) by {
        assert(!areas[j].rect.covers(mouse.column, mouse.row));
    }
    lemma_first_missing(areas, under);
}

/// An event that is neither over a glass nor over the focused projected pane, and
/// that presses no left button, is the local interface's. A press of the middle
/// button first gives the focus to the pane under it, the others to none.
pub proof fn other_events_are_the_interfaces(
    around: MouseSurroundings,
    memory: MouseMemory,
    mouse: MouseEvent,
    now: u64,
    windows: ClickWindows,
)
    requires
        !around.glass_active,
        mouse.kind != MouseEventKind::Down(MouseButton::Left),
        forall|j: int|
            0 <= j < around.projection_areas@.len() && (
            #[trigger] around.projection_areas@[j]).rect.covers(mouse.column, mouse.row) ==> !(
            around.projection_areas@[j].focused) || mouse.kind == MouseEventKind::Down(
                MouseButton::Right,
            ),
    ensures
        mouse_stage(around, memory, mouse, now, windows).1 == (MouseStep::Ordinary {
            focus: if mouse.kind == MouseEventKind::Down(MouseButton::Middle) && (around.mode
                == Mode::Terminal || around.mode == Mode::Resize) && around.active is Some
                && around.pane is Some {
                Some((around.active->0, around.pane->0.pane_id))
            } else {
                None
            },
        }),
{
    lemma_first_holds(around.projection_areas@, lies_under(mouse.column, mouse.row));
}

// Clicks -----------------------------------------------------------------

/// A plain press of the left button on a pane, with nothing projected, no glass and
/// no divider under it.
pub open spec fn is_plain_click(around: MouseSurroundings, mouse: MouseEvent) -> bool {
    &&& around.mode == Mode::Terminal
    &&& !around.glass_active
    &&& !around.remote_space_selected
    &&& !around.on_sidebar_divider
    &&& around.pane is Some
    &&& around.pane->0.inner.x <= mouse.column
    &&& around.pane->0.inner.y <= mouse.row
    &&& mouse.kind == MouseEventKind::Down(MouseButton::Left)
    &&& mouse.modifiers == 0
}

/// How far apart two cells are.
pub open spec fn apart(a: int, b: int) -> int {
    if a <= b {
        b - a
    } else {
        a - b
    }
}

proof fn lemma_no_modifier()
    ensures
        !holds(0, CONTROL),
{
    assert(0u8 & 2u8 != 2u8) by (bit_vector);
}

/// Two plain presses make a double click exactly where the second falls on the same
/// pane, near enough to the first one's cell and soon enough after it. Then the word
/// under the second is copied, at its cell within the pane. Otherwise both are the
/// local interface's, with the focus for the pane under them.
#[verifier::spinoff_prover]
pub proof fn two_near_presses_make_a_double_click(
    first: MouseSurroundings,
    second: MouseSurroundings,
    memory: MouseMemory,
    press: MouseEvent,
    again: MouseEvent,
    now: u64,
    later: u64,
    windows: ClickWindows,
)
    requires
        memory.last_pane_click is None,
        is_plain_click(first, press),
        is_plain_click(second, again),
        now <= later,
    ensures
        ({
            let (clicked, step) = mouse_stage(first, memory, press, now, windows);
            let (after, next) = mouse_stage(second, clicked, again, later, windows);
            let double = first.pane->0.pane_id@ == second.pane->0.pane_id@ && later - now
                <= windows.pane && apart(
                press.column - first.pane->0.inner.x,
                again.column - second.pane->0.inner.x,
            ) <= windows.pane_cells && apart(
                press.row - first.pane->0.inner.y,
                again.row - second.pane->0.inner.y,
            ) <= windows.pane_cells;
            &&& step == (MouseStep::Ordinary {
                focus: match first.active {
                    Some(w) => Some((w, first.pane->0.pane_id)),
                    None => None,
                },
            })
            &&& if double {
                next matches MouseStep::CopyWord(click) && click.pane_id
                    == second.pane->0.pane_id && click.col + second.pane->0.inner.x == again.column
                    && click.viewport_row + second.pane->0.inner.y == again.row
                    && after.last_pane_click is None
            } else {
                next == (MouseStep::Ordinary {
                    focus: match second.active {
                        Some(w) => Some((w, second.pane->0.pane_id)),
                        None => None,
                    },
                }) && after.last_pane_click is Some && after.last_pane_click->0.at == later
            }
            &&& after.last_sidebar_divider_click == memory.last_sidebar_divider_click
            &&& after.highlight_clear_deadline == memory.highlight_clear_deadline
        }),
{
    lemma_no_modifier();
}

/// After a drag the next plain press is a first one.
#[verifier::spinoff_prover]
pub proof fn drags_end_a_click(
    first: MouseSurroundings,
    second: MouseSurroundings,
    memory: MouseMemory,
    drag: MouseEvent,
    press: MouseEvent,
    now: u64,
    later: u64,
    windows: ClickWindows,
)
    requires
        !first.glass_active,
        !first.remote_space_selected,
        drag.kind == MouseEventKind::Drag(MouseButton::Left),
        is_plain_click(second, press),
    ensures
        mouse_stage(first, memory, drag, now, windows).0.last_pane_click is None,
        mouse_stage(
            second,
            mouse_stage(first, memory, drag, now, windows).0,
            press,
            later,
            windows,
        ).1 is Ordinary,
{
    lemma_no_modifier();
}

/// A press of the left button on the sidebar's divider gives the sidebar its width
/// again exactly where the last press on it was soon enough before. Every such press
/// is remembered with its time.
pub proof fn two_presses_reset_the_sidebar(
    around: MouseSurroundings,
    memory: MouseMemory,
    mouse: MouseEvent,
    now: u64,
    windows: ClickWindows,
)
    requires
        !around.glass_active,
        !around.remote_space_selected,
        around.on_sidebar_divider,
        mouse.kind == MouseEventKind::Down(MouseButton::Left),
        memory.last_sidebar_divider_click matches Some(last) ==> last <= now,
    ensures
        ({
            let (after, step) = mouse_stage(around, memory, mouse, now, windows);
            &&& after.last_sidebar_divider_click == Some(now)
            &&& (step is ResetSidebarWidth) == (memory.last_sidebar_divider_click is Some && now
                - memory.last_sidebar_divider_click->0 <= windows.sidebar)
        }),
{
}

/// Only a press of the left button on the divider gives the sidebar its width again,
/// and only such a press is remembered as one on the divider.
pub proof fn only_the_divider_resets_the_sidebar(
    around: MouseSurroundings,
    memory: MouseMemory,
    mouse: MouseEvent,
    now: u64,
    windows: ClickWindows,
)
    requires
        !around.on_sidebar_divider || mouse.kind != MouseEventKind::Down(MouseButton::Left),
    ensures
        !(mouse_stage(around, memory, mouse, now, windows).1 is ResetSidebarWidth),
        mouse_stage(around, memory, mouse, now, windows).0.last_sidebar_divider_click
            == memory.last_sidebar_divider_click,
{
}

/// A press of the left button with Control on a local pane asks for a link on the
/// cell of the pane under it, and keeps the clicks before it until that is answered.
pub proof fn links_are_asked_for_where_the_press_is(
    around: MouseSurroundings,
    memory: MouseMemory,
    mouse: MouseEvent,
    now: u64,
    windows: ClickWindows,
)
    requires
        around.mode == Mode::Terminal,
        !around.glass_active,
        !around.remote_space_selected,
        !around.on_sidebar_divider,
        around.pane is Some,
        around.pane->0.inner.x <= mouse.column,
        around.pane->0.inner.y <= mouse.row,
        mouse.kind == MouseEventKind::Down(MouseButton::Left),
        holds(mouse.modifiers, CONTROL),
    ensures
        ({
            let (after, step) = mouse_stage(around, memory, mouse, now, windows);
            &&& after == memory
            &&& step matches MouseStep::AskLink { pane_id, row, column } && pane_id
                == around.pane->0.pane_id && row + around.pane->0.inner.y == mouse.row && column
                + around.pane->0.inner.x == mouse.column
        }),
{
}

/// A link is asked for only by a press of the left button with Control on a local
/// pane.
pub proof fn nothing_else_asks_for_links(
    around: MouseSurroundings,
    memory: MouseMemory,
    mouse: MouseEvent,
    now: u64,
    windows: ClickWindows,
)
    requires
        around.mode != Mode::Terminal || around.remote_space_selected || around.pane is None
            || mouse.kind != MouseEventKind::Down(MouseButton::Left) || !holds(
            mouse.modifiers,
            CONTROL,
        ),
    ensures
        !(mouse_stage(around, memory, mouse, now, windows).1 is AskLink),
{
}

/// What follows an event: the integrations are read again only when they come into
/// view, the sorting of the agents is saved only when it changed, and a selection
/// that scrolls by itself keeps its next time until it stops.
pub proof fn follow_ups_answer_changes(
    before: InterfaceMarks,
    after: InterfaceMarks,
    autoscrolls: bool,
    deadline: Option<u64>,
    next: u64,
)
    ensures
        ({
            let done = follow_ups_of(before, after, autoscrolls, deadline, next);
            &&& done.refresh_integrations ==> after.integrations_shown
            &&& done.refresh_integrations ==> !before.integrations_shown
            &&& after.integrations_shown && !before.integrations_shown ==> done.refresh_integrations
            &&& done.save_agent_panel_sort <==> after.agent_panel_sort != before.agent_panel_sort
            &&& !autoscrolls ==> done.autoscroll_deadline is None
            &&& autoscrolls && deadline is Some ==> done.autoscroll_deadline == deadline
            &&& autoscrolls && deadline is None ==> done.autoscroll_deadline == Some(next)
        }),
{
}

/// Letting go of the left button ends a click exactly where something is selected by
/// then; otherwise the press before it is still remembered.
pub proof fn selections_end_a_click(
    around: MouseSurroundings,
    memory: MouseMemory,
    mouse: MouseEvent,
    now: u64,
    windows: ClickWindows,
)
    requires
        !around.glass_active,
        !around.remote_space_selected,
        mouse.kind == MouseEventKind::Up(MouseButton::Left),
    ensures
        mouse_stage(around, memory, mouse, now, windows).0.last_pane_click == (
        if around.selection_visible {
            None
        } else {
            memory.last_pane_click
        }),
        mouse_stage(around, memory, mouse, now, windows).1 is Ordinary,
{
}

/// Other buttons, moves and the wheel leave the remembered clicks alone.
pub proof fn other_events_keep_the_clicks(
    around: MouseSurroundings,
    memory: MouseMemory,
    mouse: MouseEvent,
    now: u64,
    windows: ClickWindows,
)
    requires
        mouse.kind != MouseEventKind::Down(MouseButton::Left),
        mouse.kind != MouseEventKind::Up(MouseButton::Left),
        mouse.kind != MouseEventKind::Drag(MouseButton::Left),
    ensures
        mouse_stage(around, memory, mouse, now, windows).0 == memory,
{
}

} // verus!
