//! Splitting the focused pane.
use vstd::prelude::*;
use crate::agent_start::{split_target, LaunchedPane, SplitTarget};
use crate::local_agents::PanePlace;
use crate::schema::SplitDirection;
use crate::session::{focused_cwd, Mode, Pane, Session, SessionView};
use crate::session_change::{with_new_pane, with_terminal};
use crate::session_marks::{focus_target, marked, recording_focus, without_alias};

verus! {

/// The fewest rows that a new pane starts with.
pub const MIN_SPLIT_ROWS: u16 = 4;

/// The fewest columns that a new pane starts with.
pub const MIN_SPLIT_COLS: u16 = 10;

/// A split of the focused pane.
#[derive(Debug, PartialEq, Eq)]
pub struct PaneSplit {
    pub target: SplitTarget,
    pub direction: SplitDirection,
    pub rows: u16,
    pub cols: u16,
    /// The directory of the pane that is split, where that is known.
    pub follow_cwd: Option<String>,
}

/// Half of a length, but at least a minimum.
pub open spec fn halved(length: u16, least: u16) -> u16 {
    if length / 2 < least {
        least
    } else {
        length / 2
    }
}

/// The split of the focused pane of the shown workspace.
pub open spec fn focused_split(
    session: SessionView,
    direction: SplitDirection,
    rows: u16,
    cols: u16,
) -> Option<PaneSplit> {
    match session.active {
        None => None,
        Some(active) => {
            let workspace = session.workspaces[active as int];
            let tab = workspace.tabs[workspace.active_tab as int];
            Some(
                PaneSplit {
                    target: split_target(
                        session,
                        active as int,
                        workspace.active_tab as int,
                        tab.focused as int,
                    ),
                    direction,
                    rows: halved(rows, MIN_SPLIT_ROWS),
                    cols: halved(cols, MIN_SPLIT_COLS),
                    follow_cwd: focused_cwd(session, active as int),
                },
            )
        },
    }
}

/// The session once a pane was split: the new pane has the focus, the one that had it
/// is remembered, and the session is to be saved.
pub open spec fn after_split(
    session: SessionView,
    w: int,
    t: int,
    p: int,
    launched: LaunchedPane,
) -> SessionView {
    let added = with_new_pane(
        with_terminal(without_alias(session, launched.pane_id@), launched.terminal),
        w,
        t,
        p,
        Pane {
            pane_id: launched.pane_id,
            raw: launched.raw,
            terminal_id: launched.terminal.id,
        },
        true,
    );
    SessionView {
        mode: Mode::Terminal,
        ..marked(recording_focus(added, focus_target(session), w, launched.pane_id@))
    }
}

impl Session {
    /// Plans the split of the focused pane.
    pub fn plan_split_pane(&self, direction: SplitDirection, rows: u16, cols: u16) -> (split: Option<
        PaneSplit,
    >)
        requires
            self@.ok(),
        ensures
            split == focused_split(self@, direction, rows, cols),
    {
        let active: usize = match self.active {
            Some(active) => active,
            None => {
                return None;
            },
        };
        assert(self@.workspaces[active as int].ok());
        let workspace = &self.workspaces[active];
        assert(workspace@ == self@.workspaces[active as int]);
        assert(workspace@.tabs[workspace.active_tab as int].ok());
        let tab = &workspace.tabs[workspace.active_tab];
        Some(
            PaneSplit {
                target: SplitTarget {
                    place: PanePlace {
                        workspace: active,
                        tab: workspace.active_tab,
                        pane: tab.focused,
                    },
                    pane_id: tab.panes[tab.focused].pane_id.clone(),
                    raw: tab.panes[tab.focused].raw,
                },
                direction,
                rows: if rows / 2 < MIN_SPLIT_ROWS {
                    MIN_SPLIT_ROWS
                } else {
                    rows / 2
                },
                cols: if cols / 2 < MIN_SPLIT_COLS {
                    MIN_SPLIT_COLS
                } else {
                    cols / 2
                },
                follow_cwd: self.focused_pane_cwd_in_workspace(active),
            },
        )
    }

    /// Takes what starting the new pane's terminal came to. Where it failed, nothing
    /// changes.
    pub fn pane_was_split(&mut self, target: &SplitTarget, outcome: Result<LaunchedPane, String>)
        requires
            old(self)@.ok(),
        ensures
            final(self)@.ok(),
            final(self)@ == match (target.place.within(old(self)@), outcome) {
                (true, Ok(launched)) => after_split(
                    old(self)@,
                    target.place.workspace as int,
                    target.place.tab as int,
                    target.place.pane as int,
                    launched,
                ),
                _ => old(self)@,
            },
    {
        let place = target.place;
        if !self.has_place(place) {
            return;
        }
        if let Ok(launched) = outcome {
            let previous = self.current_pane_focus_target();
            let pane_id = launched.pane_id;
            let pane = Pane {
                pane_id: pane_id.clone(),
                raw: launched.raw,
                terminal_id: launched.terminal.id.clone(),
            };
            self.remove_alias_shadowed_by_new_pane(pane_id.as_str());
            self.add_terminal(launched.terminal);
            self.add_pane(place.workspace, place.tab, place.pane, pane, true);
            self.record_pane_focus_change(previous, place.workspace, pane_id.as_str());
            self.mark_session_dirty();
            self.mode = Mode::Terminal;
        }
    }
}

/// A new pane is never started too small to be of use.
pub proof fn splits_keep_a_minimum(
    session: SessionView,
    direction: SplitDirection,
    rows: u16,
    cols: u16,
)
    requires
        focused_split(session, direction, rows, cols) is Some,
    ensures
        focused_split(session, direction, rows, cols)->0.rows >= MIN_SPLIT_ROWS,
        focused_split(session, direction, rows, cols)->0.cols >= MIN_SPLIT_COLS,
{
}

} // verus!
