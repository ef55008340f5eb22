//! Changes of the local session: showing, renaming, moving, closing and adding.
use vstd::prelude::*;
use crate::search::put;
use crate::session::{
    terminal_index, terminal_is, Mode, Pane, Session, SessionView, Tab, TabView, TerminalState,
    Workspace, WorkspaceView,
};

verus! {

// Showing ----------------------------------------------------------------

/// A workspace is shown.
pub open spec fn showing_workspace(session: SessionView, w: int) -> SessionView {
    SessionView { active: Some(w as usize), selected: w as usize, ..session }
}

/// A tab is shown.
pub open spec fn showing_tab(session: SessionView, w: int, t: int) -> SessionView {
    let workspace = session.workspaces[w];
    showing_workspace(
        SessionView {
            workspaces: session.workspaces.update(
                w,
                WorkspaceView { active_tab: t as usize, ..workspace },
            ),
            ..session
        },
        w,
    )
}

/// A workspace with another tab in place of one of its own.
pub open spec fn with_tab(workspace: WorkspaceView, t: int, tab: TabView) -> WorkspaceView {
    WorkspaceView { tabs: workspace.tabs.update(t, tab), ..workspace }
}

/// A pane is shown and has the focus.
pub open spec fn focusing_pane(session: SessionView, w: int, t: int, p: int) -> SessionView {
    let workspace = session.workspaces[w];
    let tab = workspace.tabs[t];
    showing_tab(
        SessionView {
            workspaces: session.workspaces.update(
                w,
                with_tab(workspace, t, TabView { focused: p as usize, ..tab }),
            ),
            ..session
        },
        w,
        t,
    )
}

impl Session {
    /// Shows a workspace.
    pub fn switch_workspace(&mut self, w: usize)
        requires
            old(self)@.ok(),
            w < old(self)@.workspaces.len(),
        ensures
            final(self)@ == showing_workspace(old(self)@, w as int),
            final(self)@.ok(),
    {
        self.active = Some(w);
        self.selected = w;
    }

    /// Shows a tab.
    pub fn switch_workspace_tab(&mut self, w: usize, t: usize)
        requires
            old(self)@.ok(),
            w < old(self)@.workspaces.len(),
            t < old(self)@.workspaces[w as int].tabs.len(),
        ensures
            final(self)@ == showing_tab(old(self)@, w as int, t as int),
            final(self)@.ok(),
    {
        let ghost before = self@;
        assert(before.workspaces[w as int].ok());
        let mut workspace = self.workspaces.remove(w);
        workspace.active_tab = t;
        let ghost shown = workspace@;
        self.workspaces.insert(w, workspace);
        self.active = Some(w);
        self.selected = w;
        assert(shown == (WorkspaceView {
            active_tab: t,
            ..before.workspaces[w as int]
        }));
        assert(self@.workspaces =~= before.workspaces.update(w as int, shown));
        proof {
            lemma_updated_ok(before, w as int, shown);
        }
    }

    /// Shows a pane and gives it the focus.
    pub fn focus_pane_in_workspace(&mut self, w: usize, t: usize, p: usize)
        requires
            old(self)@.ok(),
            w < old(self)@.workspaces.len(),
            t < old(self)@.workspaces[w as int].tabs.len(),
            p < old(self)@.workspaces[w as int].tabs[t as int].panes.len(),
        ensures
            final(self)@ == focusing_pane(old(self)@, w as int, t as int, p as int),
            final(self)@.ok(),
    {
        let ghost before = self@;
        assert(before.workspaces[w as int].ok());
        let mut workspace = self.workspaces.remove(w);
        let ghost tabs = workspace@.tabs;
        let mut tab = workspace.tabs.remove(t);
        tab.focused = p;
        let ghost focused = tab@;
        workspace.tabs.insert(t, tab);
        let ghost changed = workspace@;
        assert(changed.tabs =~= tabs.update(t as int, focused));
        self.workspaces.insert(w, workspace);
        assert(self@.workspaces =~= before.workspaces.update(w as int, changed));
        proof {
            lemma_tab_updated_ok(before.workspaces[w as int], t as int, focused);
            lemma_updated_ok(before, w as int, changed);
        }
        self.switch_workspace_tab(w, t);
    }
}

proof fn lemma_tab_updated_ok(workspace: WorkspaceView, t: int, tab: TabView)
    requires
        workspace.ok(),
        0 <= t < workspace.tabs.len(),
        tab.ok(),
    ensures
        with_tab(workspace, t, tab).ok(),
{
    let after = with_tab(workspace, t, tab);
    assert forall|i: int| 0 <= i < after.tabs.len() implies (#[trigger] after.tabs[i]).ok() by {
        if i != t {
            assert(workspace.tabs[i].ok());
        }
    }
}

proof fn lemma_updated_ok(session: SessionView, w: int, workspace: WorkspaceView)
    requires
        session.ok(),
        0 <= w < session.workspaces.len(),
        workspace.ok(),
    ensures
        (SessionView { workspaces: session.workspaces.update(w, workspace), ..session }).ok(),
{
    let after = session.workspaces.update(w, workspace);
    assert forall|i: int| 0 <= i < after.len() implies (#[trigger] after[i]).ok() by {
        if i != w {
            assert(session.workspaces[i].ok());
        }
    }
}

// Renaming ---------------------------------------------------------------

pub open spec fn with_tab_label(session: SessionView, w: int, t: int, label: String) -> SessionView {
    let workspace = session.workspaces[w];
    SessionView {
        workspaces: session.workspaces.update(
            w,
            with_tab(workspace, t, TabView { label, ..workspace.tabs[t] }),
        ),
        ..session
    }
}

pub open spec fn with_workspace_label(session: SessionView, w: int, label: String) -> SessionView {
    SessionView {
        workspaces: session.workspaces.update(
            w,
            WorkspaceView { label, ..session.workspaces[w] },
        ),
        ..session
    }
}

impl Session {
    /// Renames a tab.
    pub fn rename_tab(&mut self, w: usize, t: usize, label: String)
        requires
            old(self)@.ok(),
            w < old(self)@.workspaces.len(),
            t < old(self)@.workspaces[w as int].tabs.len(),
        ensures
            final(self)@ == with_tab_label(old(self)@, w as int, t as int, label),
            final(self)@.ok(),
    {
        let ghost before = self@;
        assert(before.workspaces[w as int].ok());
        assert(before.workspaces[w as int].tabs[t as int].ok());
        let mut workspace = self.workspaces.remove(w);
        let ghost tabs = workspace@.tabs;
        let mut tab = workspace.tabs.remove(t);
        tab.label = label;
        let ghost renamed = tab@;
        workspace.tabs.insert(t, tab);
        let ghost changed = workspace@;
        assert(changed.tabs =~= tabs.update(t as int, renamed));
        self.workspaces.insert(w, workspace);
        assert(self@.workspaces =~= before.workspaces.update(w as int, changed));
        proof {
            lemma_tab_updated_ok(before.workspaces[w as int], t as int, renamed);
            lemma_updated_ok(before, w as int, changed);
        }
    }

    /// Renames a workspace.
    pub fn rename_workspace(&mut self, w: usize, label: String)
        requires
            old(self)@.ok(),
            w < old(self)@.workspaces.len(),
        ensures
            final(self)@ == with_workspace_label(old(self)@, w as int, label),
            final(self)@.ok(),
    {
        let ghost before = self@;
        assert(before.workspaces[w as int].ok());
        let mut workspace = self.workspaces.remove(w);
        workspace.label = label;
        let ghost changed = workspace@;
        self.workspaces.insert(w, workspace);
        assert(self@.workspaces =~= before.workspaces.update(w as int, changed));
        proof {
            lemma_updated_ok(before, w as int, changed);
        }
    }
}

// Moving -----------------------------------------------------------------

/// Where an element ends up that is taken out at `from` and put back before the
/// element that stood at `insert`.
pub open spec fn move_target(from: int, insert: int) -> int {
    if insert > from {
        insert - 1
    } else {
        insert
    }
}

/// A sequence whose element at `from` was moved to `to`.
pub open spec fn moved<T>(s: Seq<T>, from: int, to: int) -> Seq<T> {
    s.remove(from).insert(to, s[from])
}

/// Where the element at `place` stands after a move.
pub open spec fn followed_place(place: int, from: int, to: int) -> int {
    if place == from {
        to
    } else if from < place <= to {
        place - 1
    } else if to <= place < from {
        place + 1
    } else {
        place
    }
}

/// Moving keeps every element, and whoever follows a place finds its element there.
pub proof fn moves_are_followed<T>(s: Seq<T>, from: int, to: int, place: int)
    requires
        0 <= from < s.len(),
        0 <= to < s.len(),
        0 <= place < s.len(),
    ensures
        moved(s, from, to).len() == s.len(),
        0 <= followed_place(place, from, to) < s.len(),
        moved(s, from, to)[followed_place(place, from, to)] == s[place],
{
}

fn followed(place: usize, from: usize, to: usize) -> (after: usize)
    requires
        place < usize::MAX,
    ensures
        after == followed_place(place as int, from as int, to as int),
{
    if place == from {
        to
    } else if from < place && place <= to {
        place - 1
    } else if to <= place && place < from {
        place + 1
    } else {
        place
    }
}

pub open spec fn with_tab_moved(session: SessionView, w: int, from: int, to: int) -> SessionView {
    let workspace = session.workspaces[w];
    SessionView {
        workspaces: session.workspaces.update(
            w,
            WorkspaceView {
                tabs: moved(workspace.tabs, from, to),
                active_tab: followed_place(workspace.active_tab as int, from, to) as usize,
                ..workspace
            },
        ),
        ..session
    }
}

pub open spec fn with_workspace_moved(session: SessionView, from: int, to: int) -> SessionView {
    SessionView {
        workspaces: moved(session.workspaces, from, to),
        active: match session.active {
            Some(active) => Some(followed_place(active as int, from, to) as usize),
            None => None,
        },
        selected: followed_place(session.selected as int, from, to) as usize,
        ..session
    }
}

/// A session after a tab was asked to stand before another.
pub open spec fn after_tab_move(session: SessionView, w: int, from: int, insert: int) -> SessionView {
    if move_target(from, insert) == from {
        session
    } else {
        with_tab_moved(session, w, from, move_target(from, insert))
    }
}

/// A session after a workspace was asked to stand before another.
pub open spec fn after_workspace_move(session: SessionView, from: int, insert: int) -> SessionView {
    if move_target(from, insert) == from {
        session
    } else {
        with_workspace_moved(session, from, move_target(from, insert))
    }
}

impl Session {
    /// Moves a tab before the one at `insert`. Says whether anything moved.
    pub fn move_tab(&mut self, w: usize, from: usize, insert: usize) -> (changed: bool)
        requires
            old(self)@.ok(),
            w < old(self)@.workspaces.len(),
            from < old(self)@.workspaces[w as int].tabs.len(),
            insert <= old(self)@.workspaces[w as int].tabs.len(),
        ensures
            final(self)@ == after_tab_move(old(self)@, w as int, from as int, insert as int),
            changed == (move_target(from as int, insert as int) != from),
            final(self)@.ok(),
    {
        let ghost before = self@;
        let to: usize = if insert > from {
            insert - 1
        } else {
            insert
        };
        if to == from {
            return false;
        }
        assert(before.workspaces[w as int].ok());
        let mut workspace = self.workspaces.remove(w);
        let ghost tabs = workspace@.tabs;
        assert(workspace.active_tab < workspace.tabs.len() <= usize::MAX);
        let active: usize = followed(workspace.active_tab, from, to);
        let tab = workspace.tabs.remove(from);
        workspace.tabs.insert(to, tab);
        workspace.active_tab = active;
        let ghost after = workspace@;
        assert(after.tabs =~= moved(tabs, from as int, to as int));
        self.workspaces.insert(w, workspace);
        assert(self@.workspaces =~= before.workspaces.update(w as int, after));
        proof {
            assert(after.ok()) by {
                assert forall|i: int| 0 <= i < after.tabs.len() implies (
                #[trigger] after.tabs[i]).ok() by {
                    lemma_moved_from(tabs, from as int, to as int, i);
                }
            }
            lemma_updated_ok(before, w as int, after);
        }
        true
    }

    /// Moves a workspace before the one at `insert`. Says whether anything moved.
    pub fn move_workspace(&mut self, from: usize, insert: usize) -> (changed: bool)
        requires
            old(self)@.ok(),
            from < old(self)@.workspaces.len(),
            insert <= old(self)@.workspaces.len(),
        ensures
            final(self)@ == after_workspace_move(old(self)@, from as int, insert as int),
            changed == (move_target(from as int, insert as int) != from),
            final(self)@.ok(),
    {
        let ghost before = self@;
        let to: usize = if insert > from {
            insert - 1
        } else {
            insert
        };
        if to == from {
            return false;
        }
        assert(self.workspaces.len() <= usize::MAX);
        let workspace = self.workspaces.remove(from);
        self.workspaces.insert(to, workspace);
        self.active = match self.active {
            Some(active) => Some(followed(active, from, to)),
            None => None,
        };
        self.selected = followed(self.selected, from, to);
        assert(self@.workspaces =~= moved(before.workspaces, from as int, to as int));
        proof {
            assert forall|i: int| 0 <= i < self@.workspaces.len() implies (
            #[trigger] self@.workspaces[i]).ok() by {
                lemma_moved_from(before.workspaces, from as int, to as int, i);
            }
        }
        true
    }
}

/// Every element of a moved sequence stood somewhere before.
proof fn lemma_moved_from<T>(s: Seq<T>, from: int, to: int, i: int)
    requires
        0 <= from < s.len(),
        0 <= to < s.len(),
        0 <= i < s.len(),
    ensures
        exists|j: int| 0 <= j < s.len() && moved(s, from, to)[i] == #[trigger] s[j],
{
    let j = if i == to {
        from
    } else if from <= i < to {
        i + 1
    } else if to < i <= from {
        i - 1
    } else {
        i
    };
    assert(moved(s, from, to)[i] == s[j]);
}

// Closing ----------------------------------------------------------------

pub open spec fn tab_shows(tab: TabView, terminal_id: Seq<char>) -> bool {
    exists|p: int|
        0 <= p < tab.panes.len() && (#[trigger] tab.panes[p]).terminal_id@ == terminal_id
}

pub open spec fn tabs_show(tabs: Seq<TabView>, terminal_id: Seq<char>) -> bool {
    exists|t: int| 0 <= t < tabs.len() && tab_shows(#[trigger] tabs[t], terminal_id)
}

/// Whether some pane shows a terminal.
pub open spec fn attached(workspaces: Seq<WorkspaceView>, terminal_id: Seq<char>) -> bool {
    exists|w: int|
        0 <= w < workspaces.len() && tabs_show((#[trigger] workspaces[w]).tabs, terminal_id)
}

pub open spec fn tab_has_pane(tab: TabView, pane_id: Seq<char>) -> bool {
    exists|p: int| 0 <= p < tab.panes.len() && (#[trigger] tab.panes[p]).pane_id@ == pane_id
}

pub open spec fn tabs_have_pane(tabs: Seq<TabView>, pane_id: Seq<char>) -> bool {
    exists|t: int| 0 <= t < tabs.len() && tab_has_pane(#[trigger] tabs[t], pane_id)
}

/// The terminals that stay: those that were not closed, or that another pane shows.
pub open spec fn kept_terminals(
    terminals: Seq<TerminalState>,
    closed: Seq<TabView>,
    rest: Seq<WorkspaceView>,
) -> Seq<TerminalState>
    decreases terminals.len(),
{
    if terminals.len() == 0 {
        terminals
    } else {
        let before = kept_terminals(terminals.drop_last(), closed, rest);
        if tabs_show(closed, terminals.last().id@) && !attached(rest, terminals.last().id@) {
            before
        } else {
            before.push(terminals.last())
        }
    }
}

/// The plugin panes that stay.
pub open spec fn kept_plugin_panes(panes: Seq<String>, closed: Seq<TabView>) -> Seq<String>
    decreases panes.len(),
{
    if panes.len() == 0 {
        panes
    } else {
        let before = kept_plugin_panes(panes.drop_last(), closed);
        if tabs_have_pane(closed, panes.last()@) {
            before
        } else {
            before.push(panes.last())
        }
    }
}

/// The session once tabs were taken out: their plugin panes go, and the terminals
/// that nothing else shows.
pub open spec fn forgotten(session: SessionView, closed: Seq<TabView>) -> SessionView {
    SessionView {
        terminals: kept_terminals(session.terminals, closed, session.workspaces),
        plugin_panes: kept_plugin_panes(session.plugin_panes, closed),
        ..session
    }
}

/// The active tab after a tab was taken out.
pub open spec fn active_after_close(active: int, closed: int, left: int) -> int {
    if active > closed || active >= left {
        active - 1
    } else {
        active
    }
}

pub open spec fn without_tab(session: SessionView, w: int, t: int) -> SessionView {
    let workspace = session.workspaces[w];
    SessionView {
        workspaces: session.workspaces.update(
            w,
            WorkspaceView {
                tabs: workspace.tabs.remove(t),
                active_tab: active_after_close(
                    workspace.active_tab as int,
                    t,
                    workspace.tabs.len() - 1,
                ) as usize,
                ..workspace
            },
        ),
        ..session
    }
}

/// A session after a tab was closed.
pub open spec fn after_tab_close(session: SessionView, w: int, t: int) -> SessionView {
    forgotten(without_tab(session, w, t), seq![session.workspaces[w].tabs[t]])
}

/// A session after a workspace was closed. Where it was shown, the one that takes
/// its place is shown, or the last one.
pub open spec fn after_workspace_close(session: SessionView, w: int) -> SessionView {
    let left = session.workspaces.len() - 1;
    let place = if w < left {
        w
    } else {
        left - 1
    };
    forgotten(
        SessionView {
            workspaces: session.workspaces.remove(w),
            active: match session.active {
                Some(active) => if left == 0 {
                    None
                } else {
                    Some(active_after_close(active as int, w, left) as usize)
                },
                None => None,
            },
            selected: if left == 0 {
                0
            } else {
                place as usize
            },
            mode: if left == 0 {
                Mode::Navigate
            } else {
                session.mode
            },
            ..session
        },
        session.workspaces[w].tabs,
    )
}

fn tab_shows_terminal(tab: &Tab, terminal_id: &String) -> (shows: bool)
    ensures
        shows == tab_shows(tab@, terminal_id@),
{
    let mut p: usize = 0;
    while p < tab.panes.len()
        invariant
            p <= tab.panes@.len(),
            forall|j: int|
                0 <= j < p ==> (#[trigger] tab@.panes[j]).terminal_id@ != terminal_id@,
        decreases tab.panes@.len() - p,
    {
        if tab.panes[p].terminal_id == *terminal_id {
            assert(tab@.panes[p as int].terminal_id@ == terminal_id@);
            return true;
        }
        p = p + 1;
    }
    false
}

fn tab_holds_pane(tab: &Tab, pane_id: &String) -> (holds: bool)
    ensures
        holds == tab_has_pane(tab@, pane_id@),
{
    let mut p: usize = 0;
    while p < tab.panes.len()
        invariant
            p <= tab.panes@.len(),
            forall|j: int| 0 <= j < p ==> (#[trigger] tab@.panes[j]).pane_id@ != pane_id@,
        decreases tab.panes@.len() - p,
    {
        if tab.panes[p].pane_id == *pane_id {
            assert(tab@.panes[p as int].pane_id@ == pane_id@);
            return true;
        }
        p = p + 1;
    }
    false
}

/// What the tabs of a list hold.
pub open spec fn tab_views(tabs: Seq<Tab>) -> Seq<TabView> {
    tabs.map_values(|tab: Tab| tab@)
}

fn tabs_show_terminal(tabs: &Vec<Tab>, terminal_id: &String) -> (show: bool)
    ensures
        show == tabs_show(tab_views(tabs@), terminal_id@),
{
    let mut t: usize = 0;
    while t < tabs.len()
        invariant
            t <= tabs@.len(),
            forall|j: int|
                0 <= j < t ==> !tab_shows(#[trigger] tab_views(tabs@)[j], terminal_id@),
        decreases tabs@.len() - t,
    {
        if tab_shows_terminal(&tabs[t], terminal_id) {
            assert(tab_shows(tab_views(tabs@)[t as int], terminal_id@));
            return true;
        }
        t = t + 1;
    }
    false
}

fn tabs_hold_pane(tabs: &Vec<Tab>, pane_id: &String) -> (hold: bool)
    ensures
        hold == tabs_have_pane(tab_views(tabs@), pane_id@),
{
    let mut t: usize = 0;
    while t < tabs.len()
        invariant
            t <= tabs@.len(),
            forall|j: int| 0 <= j < t ==> !tab_has_pane(#[trigger] tab_views(tabs@)[j], pane_id@),
        decreases tabs@.len() - t,
    {
        if tab_holds_pane(&tabs[t], pane_id) {
            assert(tab_has_pane(tab_views(tabs@)[t as int], pane_id@));
            return true;
        }
        t = t + 1;
    }
    false
}

impl Session {
    /// Whether some pane shows a terminal.
    pub fn is_attached(&self, terminal_id: &String) -> (shown: bool)
        ensures
            shown == attached(self@.workspaces, terminal_id@),
    {
        let mut w: usize = 0;
        while w < self.workspaces.len()
            invariant
                w <= self.workspaces@.len(),
                forall|j: int|
                    0 <= j < w ==> !tabs_show(
                        (#[trigger] self@.workspaces[j]).tabs,
                        terminal_id@,
                    ),
            decreases self.workspaces@.len() - w,
        {
            assert(self@.workspaces[w as int].tabs =~= tab_views(
                self.workspaces@[w as int].tabs@,
            ));
            if tabs_show_terminal(&self.workspaces[w].tabs, terminal_id) {
                return true;
            }
            w = w + 1;
        }
        false
    }

    /// Forgets what only the closed tabs held.
    fn forget_closed(&mut self, closed: &Vec<Tab>)
        ensures
            final(self)@ == forgotten(old(self)@, tab_views(closed@)),
    {
        let ghost before = self@;
        let mut rest: Vec<TerminalState> = Vec::new();
        std::mem::swap(&mut self.terminals, &mut rest);
        let ghost all = rest@;
        let mut kept: Vec<TerminalState> = Vec::new();
        let ghost mut done: int = 0;
        assert(rest@ =~= all.skip(0));
        assert(all.take(0) =~= Seq::empty());
        while rest.len() > 0
            invariant
                0 <= done <= all.len(),
                rest@ == all.skip(done),
                self@ == (SessionView { terminals: self@.terminals, ..before }),
                kept@ == kept_terminals(all.take(done), tab_views(closed@), before.workspaces),
            decreases rest@.len(),
        {
            let terminal = rest.remove(0);
            proof {
                let taken = all.take(done + 1);
                assert(taken.drop_last() =~= all.take(done));
                assert(taken.last() == terminal);
                assert(rest@ =~= all.skip(done + 1));
                done = done + 1;
            }
            if !(tabs_show_terminal(closed, &terminal.id) && !self.is_attached(&terminal.id)) {
                kept.push(terminal);
            }
        }
        assert(all.take(done) =~= all);
        self.terminals = kept;
        let mut names: Vec<String> = Vec::new();
        std::mem::swap(&mut self.plugin_panes, &mut names);
        let ghost panes = names@;
        let mut left: Vec<String> = Vec::new();
        let mut i: usize = 0;
        assert(panes.take(0) =~= Seq::empty());
        while i < names.len()
            invariant
                i <= names@.len(),
                names@ == panes,
                left@ == kept_plugin_panes(panes.take(i as int), tab_views(closed@)),
            decreases names@.len() - i,
        {
            proof {
                let taken = panes.take(i as int + 1);
                assert(taken.drop_last() =~= panes.take(i as int));
                assert(taken.last() == panes[i as int]);
            }
            if !tabs_hold_pane(closed, &names[i]) {
                left.push(names[i].clone());
            }
            i = i + 1;
        }
        assert(panes.take(i as int) =~= panes);
        self.plugin_panes = left;
    }

    /// Closes a tab that is not the only one of its workspace.
    pub fn close_tab(&mut self, w: usize, t: usize)
        requires
            old(self)@.ok(),
            w < old(self)@.workspaces.len(),
            t < old(self)@.workspaces[w as int].tabs.len(),
            old(self)@.workspaces[w as int].tabs.len() > 1,
        ensures
            final(self)@ == after_tab_close(old(self)@, w as int, t as int),
            final(self)@.ok(),
    {
        let ghost before = self@;
        assert(before.workspaces[w as int].ok());
        let mut workspace = self.workspaces.remove(w);
        let ghost tabs = workspace@.tabs;
        let tab = workspace.tabs.remove(t);
        let left: usize = workspace.tabs.len();
        if workspace.active_tab > t || workspace.active_tab >= left {
            workspace.active_tab = workspace.active_tab - 1;
        }
        let ghost changed = workspace@;
        assert(changed.tabs =~= tabs.remove(t as int));
        self.workspaces.insert(w, workspace);
        assert(self@.workspaces =~= before.workspaces.update(w as int, changed));
        let closed: Vec<Tab> = vec![tab];
        proof {
            assert(tab_views(closed@) =~= seq![tabs[t as int]]);
            assert(changed.ok()) by {
                assert forall|i: int| 0 <= i < changed.tabs.len() implies (
                #[trigger] changed.tabs[i]).ok() by {
                    if i < t {
                        assert(tabs[i].ok());
                    } else {
                        assert(tabs[i + 1].ok());
                    }
                }
            }
            lemma_updated_ok(before, w as int, changed);
        }
        self.forget_closed(&closed);
    }

    /// Closes a workspace.
    pub fn close_workspace(&mut self, w: usize)
        requires
            old(self)@.ok(),
            w < old(self)@.workspaces.len(),
        ensures
            final(self)@ == after_workspace_close(old(self)@, w as int),
            final(self)@.ok(),
    {
        let ghost before = self@;
        let workspace = self.workspaces.remove(w);
        let ghost rest = before.workspaces.remove(w as int);
        assert(self@.workspaces =~= rest);
        let left: usize = self.workspaces.len();
        if left == 0 {
            self.active = None;
            self.selected = 0;
            self.mode = Mode::Navigate;
        } else {
            self.active = match self.active {
                Some(active) => if active > w || active >= left {
                    Some(active - 1)
                } else {
                    Some(active)
                },
                None => None,
            };
            self.selected = if w < left {
                w
            } else {
                left - 1
            };
        }
        proof {
            assert forall|i: int| 0 <= i < rest.len() implies (#[trigger] rest[i]).ok() by {
                if i < w {
                    assert(before.workspaces[i].ok());
                } else {
                    assert(before.workspaces[i + 1].ok());
                }
            }
            assert(before.workspaces[w as int].tabs =~= tab_views(workspace.tabs@));
        }
        self.forget_closed(&workspace.tabs);
    }
}

// Adding -----------------------------------------------------------------

/// A session that holds a terminal.
pub open spec fn with_terminal(session: SessionView, terminal: TerminalState) -> SessionView {
    SessionView {
        terminals: put(session.terminals, terminal_is(terminal.id@), terminal),
        ..session
    }
}

pub open spec fn with_new_tab(session: SessionView, w: int, tab: TabView) -> SessionView {
    let workspace = session.workspaces[w];
    SessionView {
        workspaces: session.workspaces.update(
            w,
            WorkspaceView { tabs: workspace.tabs.push(tab), ..workspace },
        ),
        ..session
    }
}

pub open spec fn with_new_workspace(session: SessionView, workspace: WorkspaceView) -> SessionView {
    SessionView { workspaces: session.workspaces.push(workspace), ..session }
}

/// A session with a pane after another one, which may take the focus of its tab.
pub open spec fn with_new_pane(
    session: SessionView,
    w: int,
    t: int,
    after: int,
    pane: Pane,
    focus: bool,
) -> SessionView {
    let workspace = session.workspaces[w];
    let tab = workspace.tabs[t];
    SessionView {
        workspaces: session.workspaces.update(
            w,
            with_tab(
                workspace,
                t,
                TabView {
                    panes: tab.panes.insert(after + 1, pane),
                    focused: if focus {
                        (after + 1) as usize
                    } else if tab.focused > after {
                        (tab.focused + 1) as usize
                    } else {
                        tab.focused
                    },
                    ..tab
                },
            ),
        ),
        ..session
    }
}

impl Session {
    /// Keeps a terminal, in place of one with the same id.
    pub fn add_terminal(&mut self, terminal: TerminalState)
        requires
            old(self)@.ok(),
        ensures
            final(self)@ == with_terminal(old(self)@, terminal),
            final(self)@.ok(),
    {
        let ghost before = self@;
        match terminal_index(&self.terminals, terminal.id.as_str()) {
            Some(i) => {
                self.terminals[i] = terminal;
            },
            None => {
                self.terminals.push(terminal);
            },
        }
        assert(self@.workspaces =~= before.workspaces);
    }

    /// Adds a tab at the end of a workspace.
    pub fn add_tab(&mut self, w: usize, tab: Tab)
        requires
            old(self)@.ok(),
            w < old(self)@.workspaces.len(),
            tab@.ok(),
        ensures
            final(self)@ == with_new_tab(old(self)@, w as int, tab@),
            final(self)@.ok(),
    {
        let ghost before = self@;
        assert(before.workspaces[w as int].ok());
        let mut workspace = self.workspaces.remove(w);
        let ghost tabs = workspace@.tabs;
        let ghost added = tab@;
        workspace.tabs.push(tab);
        let ghost changed = workspace@;
        assert(changed.tabs =~= tabs.push(added));
        self.workspaces.insert(w, workspace);
        assert(self@.workspaces =~= before.workspaces.update(w as int, changed));
        proof {
            assert forall|i: int| 0 <= i < changed.tabs.len() implies (
            #[trigger] changed.tabs[i]).ok() by {
                if i < tabs.len() {
                    assert(tabs[i].ok());
                }
            }
            lemma_updated_ok(before, w as int, changed);
        }
    }

    /// Adds a workspace at the end.
    pub fn add_workspace(&mut self, workspace: Workspace)
        requires
            old(self)@.ok(),
            workspace@.ok(),
        ensures
            final(self)@ == with_new_workspace(old(self)@, workspace@),
            final(self)@.ok(),
    {
        let ghost before = self@;
        let ghost added = workspace@;
        self.workspaces.push(workspace);
        assert(self@.workspaces =~= before.workspaces.push(added));
        proof {
            assert forall|i: int| 0 <= i < self@.workspaces.len() implies (
            #[trigger] self@.workspaces[i]).ok() by {
                if i < before.workspaces.len() {
                    assert(before.workspaces[i].ok());
                }
            }
        }
    }

    /// Adds a pane after another one of a tab.
    pub fn add_pane(&mut self, w: usize, t: usize, after: usize, pane: Pane, focus: bool)
        requires
            old(self)@.ok(),
            w < old(self)@.workspaces.len(),
            t < old(self)@.workspaces[w as int].tabs.len(),
            after < old(self)@.workspaces[w as int].tabs[t as int].panes.len(),
        ensures
            final(self)@ == with_new_pane(
                old(self)@,
                w as int,
                t as int,
                after as int,
                pane,
                focus,
            ),
            final(self)@.ok(),
    {
        let ghost before = self@;
        assert(before.workspaces[w as int].ok());
        assert(before.workspaces[w as int].tabs[t as int].ok());
        let mut workspace = self.workspaces.remove(w);
        let ghost tabs = workspace@.tabs;
        let mut tab = workspace.tabs.remove(t);
        assert(tab.panes.len() <= usize::MAX);
        let ghost old_tab = tab@;
        if focus {
            tab.focused = after + 1;
        } else if tab.focused > after {
            tab.focused = tab.focused + 1;
        }
        tab.panes.insert(after + 1, pane);
        let ghost changed_tab = tab@;
        workspace.tabs.insert(t, tab);
        let ghost changed = workspace@;
        assert(changed.tabs =~= tabs.update(t as int, changed_tab));
        self.workspaces.insert(w, workspace);
        assert(self@.workspaces =~= before.workspaces.update(w as int, changed));
        proof {
            lemma_tab_updated_ok(before.workspaces[w as int], t as int, changed_tab);
            lemma_updated_ok(before, w as int, changed);
        }
    }
}

// Laws -------------------------------------------------------------------

/// Moving a tab keeps the same tab active.
pub proof fn moving_tabs_keeps_the_active_one(session: SessionView, w: int, from: int, insert: int)
    requires
        session.ok(),
        0 <= w < session.workspaces.len(),
        0 <= from < session.workspaces[w].tabs.len(),
        0 <= insert <= session.workspaces[w].tabs.len(),
        session.workspaces[w].tabs.len() <= usize::MAX,
    ensures
        ({
            let before = session.workspaces[w];
            let after = after_tab_move(session, w, from, insert).workspaces[w];
            &&& after.tabs.len() == before.tabs.len()
            &&& after.tabs[after.active_tab as int] == before.tabs[before.active_tab as int]
        }),
{
    let before = session.workspaces[w];
    assert(before.ok());
    moves_are_followed(before.tabs, from, move_target(from, insert), before.active_tab as int);
}

/// Moving a workspace keeps the same workspace shown.
pub proof fn moving_workspaces_keeps_the_shown_one(session: SessionView, from: int, insert: int)
    requires
        session.ok(),
        0 <= from < session.workspaces.len(),
        0 <= insert <= session.workspaces.len(),
        session.workspaces.len() <= usize::MAX,
        session.active is Some,
    ensures
        ({
            let after = after_workspace_move(session, from, insert);
            &&& after.active is Some
            &&& after.workspaces.len() == session.workspaces.len()
            &&& after.workspaces[after.active->0 as int]
                == session.workspaces[session.active->0 as int]
        }),
{
    moves_are_followed(
        session.workspaces,
        from,
        move_target(from, insert),
        session.active->0 as int,
    );
}

/// A terminal that some pane still shows survives the closing of any tab.
pub proof fn shown_terminals_survive(
    terminals: Seq<TerminalState>,
    closed: Seq<TabView>,
    rest: Seq<WorkspaceView>,
    i: int,
)
    requires
        0 <= i < terminals.len(),
        attached(rest, terminals[i].id@),
    ensures
        kept_terminals(terminals, closed, rest).contains(terminals[i]),
    decreases terminals.len(),
{
    let kept = kept_terminals(terminals, closed, rest);
    let before = kept_terminals(terminals.drop_last(), closed, rest);
    if i == terminals.len() - 1 {
        assert(kept == before.push(terminals.last()));
        assert(kept[kept.len() - 1] == terminals[i]);
    } else {
        assert(terminals.drop_last()[i] == terminals[i]);
        shown_terminals_survive(terminals.drop_last(), closed, rest, i);
        let j = choose|j: int| 0 <= j < before.len() && before[j] == terminals[i];
        assert(kept[j] == terminals[i]);
    }
}

/// Nothing stays that only the closed tabs showed.
pub proof fn closed_terminals_go(
    terminals: Seq<TerminalState>,
    closed: Seq<TabView>,
    rest: Seq<WorkspaceView>,
    i: int,
)
    requires
        0 <= i < kept_terminals(terminals, closed, rest).len(),
    ensures
        ({
            let id = kept_terminals(terminals, closed, rest)[i].id@;
            tabs_show(closed, id) ==> attached(rest, id)
        }),
    decreases terminals.len(),
{
    let before = kept_terminals(terminals.drop_last(), closed, rest);
    if i < before.len() {
        closed_terminals_go(terminals.drop_last(), closed, rest, i);
    }
}

/// A terminal that was added is found.
pub proof fn added_terminals_are_found(session: SessionView, terminal: TerminalState)
    ensures
        crate::session::terminal_of(with_terminal(session, terminal).terminals, terminal.id@)
            == Some(terminal),
{
    crate::search::lemma_put_found(session.terminals, terminal_is(terminal.id@), terminal);
}

} // verus!
