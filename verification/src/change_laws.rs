//! What a change of the local session changes, and what it leaves as it was.
use vstd::prelude::*;
use crate::agent_start::{after_agent_pane, AgentCommand, LaunchedPane};
use crate::local_agents::{after_focus, called_terminal, with_agent_name, TargetLookup};
use crate::local_api::{
    after_tab_launch, after_workspace_launch, launch_workspace, tab_launch, workspace_launch,
    LaunchDirectory, LaunchedTab, LaunchedWorkspace, TabLaunch,
};
use crate::pane_split::{after_split, focused_split, MIN_SPLIT_COLS, MIN_SPLIT_ROWS};
use crate::remote_attach::{
    after_detach, attach_place, detach_refusal, display_label, in_terminal_mode, shows, tab_with,
    RemoteAttachPaneTarget, RemoteDetachViewError,
};
use crate::schema::{SplitDirection, TabCreateParams, WorkspaceCreateParams};
use crate::search::{
    first_where, lemma_first_found, lemma_first_holds, lemma_put_found, lemma_put_others,
};
use crate::session::{
    focused_cwd, terminal_is, terminal_of, workspace_place, Mode, Pane, PaneFocusTarget,
    RemoteAttachTarget, SessionView, TabView, TerminalState, WorkspaceView,
};
use crate::session_change::{
    after_tab_close, after_tab_move, after_workspace_close, after_workspace_move, attached,
    focusing_pane, kept_plugin_panes, kept_terminals, showing_tab, showing_workspace,
    tabs_have_pane, tabs_show, with_new_pane, with_tab_label, with_workspace_label,
};
use crate::session_laws::workspaces_are_found_by_identifier;
use crate::session_marks::{focus_target, following_tabs, marked, recording_focus};
use crate::text::trimmed;

verus! {

/// Everything of two sessions is the same but the workspaces and which of them is
/// shown.
pub open spec fn keeps_the_rest(before: SessionView, after: SessionView) -> bool {
    &&& after.terminals == before.terminals
    &&& after.plugin_panes == before.plugin_panes
    &&& after.pane_aliases == before.pane_aliases
    &&& after.previous_focus == before.previous_focus
    &&& after.tab_scroll_follow_active == before.tab_scroll_follow_active
    &&& after.dirty == before.dirty
}

/// Two workspaces are the same but for their tabs.
pub open spec fn keeps_the_workspace(before: WorkspaceView, after: WorkspaceView) -> bool {
    &&& after.workspace_id == before.workspace_id
    &&& after.label == before.label
    &&& after.worktree == before.worktree
    &&& after.agent_status == before.agent_status
}

// Showing and naming -----------------------------------------------------

/// Showing a workspace makes it the shown one and puts the sidebar's cursor on it;
/// nothing else changes.
pub proof fn shown_workspaces_are_shown(session: SessionView, w: int)
    requires
        0 <= w < session.workspaces.len() <= usize::MAX,
    ensures
        ({
            let after = showing_workspace(session, w);
            &&& after.active is Some && after.active->0 == w
            &&& after.selected == w
            &&& after.workspaces == session.workspaces
            &&& after.mode == session.mode
            &&& keeps_the_rest(session, after)
        }),
{
}

/// Showing a tab makes it the active one of its workspace and shows that workspace. No
/// tab and no other workspace changes.
pub proof fn shown_tabs_are_active(session: SessionView, w: int, t: int)
    requires
        0 <= w < session.workspaces.len() <= usize::MAX,
        0 <= t < session.workspaces[w].tabs.len() <= usize::MAX,
    ensures
        ({
            let after = showing_tab(session, w, t);
            &&& after.active is Some && after.active->0 == w
            &&& after.selected == w
            &&& after.workspaces.len() == session.workspaces.len()
            &&& after.workspaces[w].active_tab == t
            &&& after.workspaces[w].tabs == session.workspaces[w].tabs
            &&& keeps_the_workspace(session.workspaces[w], after.workspaces[w])
            &&& forall|v: int|
                0 <= v < session.workspaces.len() && v != w ==> #[trigger] after.workspaces[v]
                    == session.workspaces[v]
            &&& after.mode == session.mode
            &&& keeps_the_rest(session, after)
        }),
{
}

/// Focusing a pane makes it the focused one of its tab and shows that tab. No pane, no
/// other tab and no other workspace changes.
pub proof fn focused_panes_have_the_focus(session: SessionView, w: int, t: int, p: int)
    requires
        0 <= w < session.workspaces.len() <= usize::MAX,
        0 <= t < session.workspaces[w].tabs.len() <= usize::MAX,
        0 <= p < session.workspaces[w].tabs[t].panes.len() <= usize::MAX,
    ensures
        ({
            let after = focusing_pane(session, w, t, p);
            let tabs = session.workspaces[w].tabs;
            &&& after.active is Some && after.active->0 == w
            &&& after.selected == w
            &&& after.workspaces.len() == session.workspaces.len()
            &&& after.workspaces[w].active_tab == t
            &&& after.workspaces[w].tabs.len() == tabs.len()
            &&& after.workspaces[w].tabs[t].focused == p
            &&& after.workspaces[w].tabs[t].panes == tabs[t].panes
            &&& after.workspaces[w].tabs[t].tab_id == tabs[t].tab_id
            &&& after.workspaces[w].tabs[t].label == tabs[t].label
            &&& keeps_the_workspace(session.workspaces[w], after.workspaces[w])
            &&& forall|u: int|
                0 <= u < tabs.len() && u != t ==> #[trigger] after.workspaces[w].tabs[u] == tabs[u]
            &&& forall|v: int|
                0 <= v < session.workspaces.len() && v != w ==> #[trigger] after.workspaces[v]
                    == session.workspaces[v]
            &&& after.mode == session.mode
            &&& keeps_the_rest(session, after)
        }),
{
}

/// Focusing an agent shows its pane, in the mode in which keys go to it; where there
/// is no such pane nothing changes.
pub proof fn focused_agents_get_the_keys(session: SessionView, w: int, t: int, p: int)
    requires
        0 <= w < session.workspaces.len() <= usize::MAX,
        0 <= t < session.workspaces[w].tabs.len() <= usize::MAX,
        0 <= p < session.workspaces[w].tabs[t].panes.len() <= usize::MAX,
    ensures
        ({
            let after = after_focus(session, TargetLookup::Found(w, t, p));
            &&& after.mode == Mode::Terminal
            &&& after.active is Some && after.active->0 == w
            &&& after.workspaces[w].active_tab == t
            &&& after.workspaces[w].tabs[t].focused == p
            &&& keeps_the_rest(session, after)
        }),
        after_focus(session, TargetLookup::Missing) == session,
{
}

/// A tab that gets a label has it, and nothing else of it changes, nor of any other tab
/// or workspace.
pub proof fn labelled_tabs_have_their_label(
    session: SessionView,
    w: int,
    t: int,
    label: String,
)
    requires
        0 <= w < session.workspaces.len(),
        0 <= t < session.workspaces[w].tabs.len(),
    ensures
        ({
            let after = with_tab_label(session, w, t, label);
            let before = session.workspaces[w];
            let tab = after.workspaces[w].tabs[t];
            &&& tab.label == label
            &&& tab.tab_id == before.tabs[t].tab_id && tab.panes == before.tabs[t].panes
                && tab.focused == before.tabs[t].focused && tab.agent_status
                == before.tabs[t].agent_status
            &&& after.workspaces[w].tabs.len() == before.tabs.len()
            &&& forall|u: int|
                0 <= u < before.tabs.len() && u != t ==> #[trigger] after.workspaces[w].tabs[u]
                    == before.tabs[u]
            &&& after.workspaces[w].active_tab == before.active_tab
            &&& keeps_the_workspace(before, after.workspaces[w])
            &&& after.workspaces.len() == session.workspaces.len()
            &&& forall|v: int|
                0 <= v < session.workspaces.len() && v != w ==> #[trigger] after.workspaces[v]
                    == session.workspaces[v]
            &&& after.active == session.active && after.selected == session.selected && after.mode
                == session.mode
            &&& keeps_the_rest(session, after)
        }),
{
}

/// A workspace that gets a label has it, and nothing else of it changes, nor of any
/// other workspace.
pub proof fn labelled_workspaces_have_their_label(session: SessionView, w: int, label: String)
    requires
        0 <= w < session.workspaces.len(),
    ensures
        ({
            let after = with_workspace_label(session, w, label);
            let before = session.workspaces[w];
            let workspace = after.workspaces[w];
            &&& workspace.label == label
            &&& workspace.workspace_id == before.workspace_id && workspace.tabs == before.tabs
                && workspace.active_tab == before.active_tab && workspace.worktree
                == before.worktree && workspace.agent_status == before.agent_status
            &&& after.workspaces.len() == session.workspaces.len()
            &&& forall|v: int|
                0 <= v < session.workspaces.len() && v != w ==> #[trigger] after.workspaces[v]
                    == session.workspaces[v]
            &&& after.active == session.active && after.selected == session.selected && after.mode
                == session.mode
            &&& keeps_the_rest(session, after)
        }),
{
}

/// An agent that is renamed has the new name, and shows it as its label; without a name
/// it has none any more and keeps its label. No other terminal changes.
pub proof fn renamed_agents_have_their_name(
    session: SessionView,
    terminal_id: Seq<char>,
    name: Option<String>,
    i: int,
)
    requires
        0 <= i < session.terminals.len(),
        session.terminals[i].id@ == terminal_id,
        forall|j: int| 0 <= j < i ==> (#[trigger] session.terminals[j]).id@ != terminal_id,
    ensures
        ({
            let after = with_agent_name(session, terminal_id, name);
            let before = session.terminals[i];
            let terminal = after.terminals[i];
            &&& after.terminals.len() == session.terminals.len()
            &&& terminal.agent_name == name
            &&& name is Some ==> terminal.manual_label == name
            &&& name is None ==> terminal.manual_label == before.manual_label
            &&& terminal.id == before.id && terminal.agent == before.agent && terminal.title
                == before.title && terminal.cwd == before.cwd && terminal.remote_attach
                == before.remote_attach && terminal.launch_argv == before.launch_argv
            &&& forall|j: int|
                0 <= j < session.terminals.len() && j != i ==> #[trigger] after.terminals[j]
                    == session.terminals[j]
            &&& after.workspaces == session.workspaces && after.active == session.active
        }),
{
    let mine = terminal_is(terminal_id);
    assert forall|j: int| 0 <= j < i implies !mine(#[trigger] session.terminals[j]) by {}
    lemma_first_found(session.terminals, mine, i);
}

// Moving -----------------------------------------------------------------

/// A tab that is moved to the front of the tab that was at `insert`, or to the end,
/// stands there; the other tabs keep their order. No other workspace changes, and
/// which workspace is shown does not either.
pub proof fn moved_tabs_stand_where_they_were_put(
    session: SessionView,
    w: int,
    from: int,
    insert: int,
)
    requires
        0 <= w < session.workspaces.len(),
        0 <= from < session.workspaces[w].tabs.len(),
        0 <= insert <= session.workspaces[w].tabs.len(),
    ensures
        ({
            let after = after_tab_move(session, w, from, insert);
            let old_tabs = session.workspaces[w].tabs;
            let tabs = after.workspaces[w].tabs;
            &&& tabs.len() == old_tabs.len()
            &&& insert > from ==> tabs[insert - 1] == old_tabs[from]
            &&& insert <= from ==> tabs[insert] == old_tabs[from]
            &&& forall|i: int|
                0 <= i < old_tabs.len() && i != from ==> #[trigger] old_tabs[i] == tabs[if i < from && i
                    >= insert {
                    i + 1
                } else if i > from && i < insert {
                    i - 1
                } else {
                    i
                }]
            &&& keeps_the_workspace(session.workspaces[w], after.workspaces[w])
            &&& after.workspaces.len() == session.workspaces.len()
            &&& forall|v: int|
                0 <= v < session.workspaces.len() && v != w ==> #[trigger] after.workspaces[v]
                    == session.workspaces[v]
            &&& after.active == session.active && after.selected == session.selected && after.mode
                == session.mode
            &&& keeps_the_rest(session, after)
        }),
{
}

/// A workspace that is moved stands where it was put; the other workspaces keep their
/// order, and the sidebar's cursor stays on the workspace that it was on.
pub proof fn moved_workspaces_stand_where_they_were_put(
    session: SessionView,
    from: int,
    insert: int,
)
    requires
        0 <= from < session.workspaces.len() <= usize::MAX,
        0 <= insert <= session.workspaces.len(),
        session.selected < session.workspaces.len(),
    ensures
        ({
            let after = after_workspace_move(session, from, insert);
            let before = session.workspaces;
            &&& after.workspaces.len() == before.len()
            &&& insert > from ==> after.workspaces[insert - 1] == before[from]
            &&& insert <= from ==> after.workspaces[insert] == before[from]
            &&& forall|i: int|
                0 <= i < before.len() && i != from ==> #[trigger] before[i]
                    == after.workspaces[if i < from && i >= insert {
                    i + 1
                } else if i > from && i < insert {
                    i - 1
                } else {
                    i
                }]
            &&& after.selected < before.len()
            &&& after.workspaces[after.selected as int] == before[session.selected as int]
            &&& session.active is None ==> after.active is None
            &&& after.mode == session.mode
            &&& keeps_the_rest(session, after)
        }),
{
}

// Closing ----------------------------------------------------------------

proof fn lemma_kept_terminals(
    terminals: Seq<TerminalState>,
    closed: Seq<TabView>,
    rest: Seq<WorkspaceView>,
)
    ensures
        forall|k: int|
            0 <= k < kept_terminals(terminals, closed, rest).len() ==> terminals.contains(
                #[trigger] kept_terminals(terminals, closed, rest)[k],
            ) && !(tabs_show(closed, kept_terminals(terminals, closed, rest)[k].id@) && !attached(
                rest,
                kept_terminals(terminals, closed, rest)[k].id@,
            )),
        forall|i: int|
            0 <= i < terminals.len() && !(tabs_show(closed, (#[trigger] terminals[i]).id@)
                && !attached(rest, terminals[i].id@)) ==> kept_terminals(
                terminals,
                closed,
                rest,
            ).contains(terminals[i]),
    decreases terminals.len(),
{
    if terminals.len() > 0 {
        let less = terminals.drop_last();
        lemma_kept_terminals(less, closed, rest);
        let kept = kept_terminals(terminals, closed, rest);
        let before = kept_terminals(less, closed, rest);
        assert forall|k: int| 0 <= k < kept.len() implies terminals.contains(#[trigger] kept[k])
            && !(tabs_show(closed, kept[k].id@) && !attached(rest, kept[k].id@)) by {
            if k < before.len() {
                assert(kept[k] == before[k]);
                let i = choose|i: int| 0 <= i < less.len() && less[i] == before[k];
                assert(terminals[i] == kept[k]);
            } else {
                assert(kept[k] == terminals[terminals.len() - 1]);
            }
        }
        assert forall|i: int|
            0 <= i < terminals.len() && !(tabs_show(closed, (#[trigger] terminals[i]).id@)
                && !attached(rest, terminals[i].id@)) implies kept.contains(terminals[i]) by {
            if i < less.len() {
                assert(less[i] == terminals[i]);
                let k = choose|k: int| 0 <= k < before.len() && before[k] == terminals[i];
                assert(kept[k] == terminals[i]);
            } else {
                assert(kept[kept.len() - 1] == terminals[i]);
            }
        }
    }
}

proof fn lemma_kept_plugin_panes(panes: Seq<String>, closed: Seq<TabView>)
    ensures
        forall|k: int|
            0 <= k < kept_plugin_panes(panes, closed).len() ==> panes.contains(
                #[trigger] kept_plugin_panes(panes, closed)[k],
            ) && !tabs_have_pane(closed, kept_plugin_panes(panes, closed)[k]@),
        forall|i: int|
            0 <= i < panes.len() && !tabs_have_pane(closed, (#[trigger] panes[i])@)
                ==> kept_plugin_panes(panes, closed).contains(panes[i]),
    decreases panes.len(),
{
    if panes.len() > 0 {
        let less = panes.drop_last();
        lemma_kept_plugin_panes(less, closed);
        let kept = kept_plugin_panes(panes, closed);
        let before = kept_plugin_panes(less, closed);
        assert forall|k: int| 0 <= k < kept.len() implies panes.contains(#[trigger] kept[k])
            && !tabs_have_pane(closed, kept[k]@) by {
            if k < before.len() {
                assert(kept[k] == before[k]);
                let i = choose|i: int| 0 <= i < less.len() && less[i] == before[k];
                assert(panes[i] == kept[k]);
            } else {
                assert(kept[k] == panes[panes.len() - 1]);
            }
        }
        assert forall|i: int|
            0 <= i < panes.len() && !tabs_have_pane(closed, (
            #[trigger] panes[i])@) implies kept.contains(panes[i]) by {
            if i < less.len() {
                assert(less[i] == panes[i]);
                let k = choose|k: int| 0 <= k < before.len() && before[k] == panes[i];
                assert(kept[k] == panes[i]);
            } else {
                assert(kept[kept.len() - 1] == panes[i]);
            }
        }
    }
}

/// Some pane of some workspace shows the terminal.
pub open spec fn is_shown(workspaces: Seq<WorkspaceView>, terminal_id: Seq<char>) -> bool {
    exists|w: int, t: int, p: int|
        0 <= w < workspaces.len() && 0 <= t < workspaces[w].tabs.len() && 0 <= p
            < workspaces[w].tabs[t].panes.len() && (
        #[trigger] workspaces[w].tabs[t].panes[p]).terminal_id@ == terminal_id
}

/// Some pane of some of the tabs shows the terminal.
pub open spec fn is_shown_in(tabs: Seq<TabView>, terminal_id: Seq<char>) -> bool {
    exists|t: int, p: int|
        0 <= t < tabs.len() && 0 <= p < tabs[t].panes.len() && (
        #[trigger] tabs[t].panes[p]).terminal_id@ == terminal_id
}

proof fn lemma_shown(workspaces: Seq<WorkspaceView>, tabs: Seq<TabView>, terminal_id: Seq<char>)
    ensures
        tabs_show(tabs, terminal_id) == is_shown_in(tabs, terminal_id),
        attached(workspaces, terminal_id) == is_shown(workspaces, terminal_id),
{
    if is_shown_in(tabs, terminal_id) {
        let (t, p) = choose|t: int, p: int|
            0 <= t < tabs.len() && 0 <= p < tabs[t].panes.len() && (
            #[trigger] tabs[t].panes[p]).terminal_id@ == terminal_id;
        assert(crate::session_change::tab_shows(tabs[t], terminal_id));
    }
    if tabs_show(tabs, terminal_id) {
        let t = choose|t: int|
            0 <= t < tabs.len() && crate::session_change::tab_shows(
                #[trigger] tabs[t],
                terminal_id,
            );
        let p = choose|p: int|
            0 <= p < tabs[t].panes.len() && (#[trigger] tabs[t].panes[p]).terminal_id@
                == terminal_id;
        assert(tabs[t].panes[p].terminal_id@ == terminal_id);
    }
    if is_shown(workspaces, terminal_id) {
        let (w, t, p) = choose|w: int, t: int, p: int|
            0 <= w < workspaces.len() && 0 <= t < workspaces[w].tabs.len() && 0 <= p
                < workspaces[w].tabs[t].panes.len() && (
            #[trigger] workspaces[w].tabs[t].panes[p]).terminal_id@ == terminal_id;
        assert(crate::session_change::tab_shows(workspaces[w].tabs[t], terminal_id));
        assert(tabs_show(workspaces[w].tabs, terminal_id));
    }
    if attached(workspaces, terminal_id) {
        let w = choose|w: int|
            0 <= w < workspaces.len() && tabs_show((#[trigger] workspaces[w]).tabs, terminal_id);
        let here = workspaces[w].tabs;
        let t = choose|t: int|
            0 <= t < here.len() && crate::session_change::tab_shows(
                #[trigger] here[t],
                terminal_id,
            );
        let p = choose|p: int|
            0 <= p < here[t].panes.len() && (#[trigger] here[t].panes[p]).terminal_id@
                == terminal_id;
        assert(workspaces[w].tabs[t].panes[p].terminal_id@ == terminal_id);
    }
}

/// Closing a tab takes away that tab and no other. The active tab stays the same one,
/// or where it was closed itself, the next one is active, or the last one where it
/// was the last. A terminal goes exactly where the closed tab showed it and nothing
/// else does.
#[verifier::spinoff_prover]
pub proof fn closed_tabs_go(session: SessionView, w: int, t: int)
    requires
        session.ok(),
        0 <= w < session.workspaces.len(),
        0 <= t < session.workspaces[w].tabs.len() <= usize::MAX,
        session.workspaces[w].tabs.len() > 1,
    ensures
        ({
            let after = after_tab_close(session, w, t);
            let before = session.workspaces[w];
            let left = after.workspaces[w];
            &&& left.tabs.len() == before.tabs.len() - 1
            &&& forall|u: int| 0 <= u < t ==> #[trigger] left.tabs[u] == before.tabs[u]
            &&& forall|u: int|
                t < u < before.tabs.len() ==> left.tabs[u - 1] == #[trigger] before.tabs[u]
            &&& left.active_tab < left.tabs.len()
            &&& before.active_tab != t ==> left.tabs[left.active_tab as int]
                == before.tabs[before.active_tab as int]
            &&& before.active_tab == t ==> left.active_tab == (if t < left.tabs.len() {
                t
            } else {
                t - 1
            })
            &&& keeps_the_workspace(before, left)
            &&& after.workspaces.len() == session.workspaces.len()
            &&& forall|v: int|
                0 <= v < session.workspaces.len() && v != w ==> #[trigger] after.workspaces[v]
                    == session.workspaces[v]
            &&& forall|i: int|
                0 <= i < session.terminals.len() ==> after.terminals.contains(
                    #[trigger] session.terminals[i],
                ) == (is_shown(after.workspaces, session.terminals[i].id@) || !is_shown_in(
                    seq![before.tabs[t]],
                    session.terminals[i].id@,
                ))
            &&& after.active == session.active && after.selected == session.selected && after.mode
                == session.mode
            &&& after.pane_aliases == session.pane_aliases
        }),
{
    let after = after_tab_close(session, w, t);
    let before = session.workspaces[w];
    let closed = seq![before.tabs[t]];
    assert(before.ok());
    lemma_kept_terminals(session.terminals, closed, after.workspaces);
    assert forall|i: int| 0 <= i < session.terminals.len() implies after.terminals.contains(
        #[trigger] session.terminals[i],
    ) == (is_shown(after.workspaces, session.terminals[i].id@) || !is_shown_in(
        closed,
        session.terminals[i].id@,
    )) by {
        lemma_shown(after.workspaces, closed, session.terminals[i].id@);
        if after.terminals.contains(session.terminals[i]) {
            let k = choose|k: int|
                0 <= k < after.terminals.len() && after.terminals[k] == session.terminals[i];
            assert(!(tabs_show(closed, after.terminals[k].id@) && !attached(
                after.workspaces,
                after.terminals[k].id@,
            )));
        }
    }
}

/// Closing a workspace takes away that workspace and no other. The shown workspace
/// stays the same one, or where it was closed itself, the next one is shown, or the
/// last one; after the last workspace nothing is shown and the keys navigate. A
/// terminal goes exactly where the closed workspace showed it and nothing else does.
#[verifier::spinoff_prover]
pub proof fn closed_workspaces_go(session: SessionView, w: int)
    requires
        session.ok(),
        0 <= w < session.workspaces.len() <= usize::MAX,
    ensures
        ({
            let after = after_workspace_close(session, w);
            let before = session.workspaces;
            let left = after.workspaces;
            &&& left.len() == before.len() - 1
            &&& forall|v: int| 0 <= v < w ==> #[trigger] left[v] == before[v]
            &&& forall|v: int| w < v < before.len() ==> left[v - 1] == #[trigger] before[v]
            &&& after.active is Some <==> session.active is Some && left.len() > 0
            &&& after.active is Some && session.active->0 != w ==> left[after.active->0 as int]
                == before[session.active->0 as int]
            &&& after.active is Some && session.active->0 == w ==> after.active->0 == (if w
                < left.len() {
                w
            } else {
                w - 1
            })
            &&& left.len() > 0 ==> after.selected < left.len() && after.mode == session.mode
            &&& left.len() > 0 ==> after.selected == (if w < left.len() {
                w
            } else {
                w - 1
            })
            &&& left.len() == 0 ==> after.selected == 0 && after.mode == Mode::Navigate
            &&& forall|i: int|
                0 <= i < session.terminals.len() ==> after.terminals.contains(
                    #[trigger] session.terminals[i],
                ) == (is_shown(left, session.terminals[i].id@) || !is_shown_in(
                    before[w].tabs,
                    session.terminals[i].id@,
                ))
            &&& after.pane_aliases == session.pane_aliases
        }),
{
    let after = after_workspace_close(session, w);
    let closed = session.workspaces[w].tabs;
    lemma_kept_terminals(session.terminals, closed, after.workspaces);
    assert forall|i: int| 0 <= i < session.terminals.len() implies after.terminals.contains(
        #[trigger] session.terminals[i],
    ) == (is_shown(after.workspaces, session.terminals[i].id@) || !is_shown_in(
        closed,
        session.terminals[i].id@,
    )) by {
        lemma_shown(after.workspaces, closed, session.terminals[i].id@);
        if after.terminals.contains(session.terminals[i]) {
            let k = choose|k: int|
                0 <= k < after.terminals.len() && after.terminals[k] == session.terminals[i];
            assert(!(tabs_show(closed, after.terminals[k].id@) && !attached(
                after.workspaces,
                after.terminals[k].id@,
            )));
        }
    }
}

/// The panes of a plugin are forgotten exactly where a closed tab had them.
pub proof fn closed_plugin_panes_go(panes: Seq<String>, closed: Seq<TabView>, i: int)
    requires
        0 <= i < panes.len(),
    ensures
        kept_plugin_panes(panes, closed).contains(panes[i]) == !(exists|t: int, p: int|
            0 <= t < closed.len() && 0 <= p < closed[t].panes.len() && (
            #[trigger] closed[t].panes[p]).pane_id@ == panes[i]@),
{
    lemma_kept_plugin_panes(panes, closed);
    let kept = kept_plugin_panes(panes, closed);
    let id = panes[i]@;
    if kept.contains(panes[i]) {
        let k = choose|k: int| 0 <= k < kept.len() && kept[k] == panes[i];
        assert(!tabs_have_pane(closed, kept[k]@));
    }
    if exists|t: int, p: int|
        0 <= t < closed.len() && 0 <= p < closed[t].panes.len() && (
        #[trigger] closed[t].panes[p]).pane_id@ == id {
        let (t, p) = choose|t: int, p: int|
            0 <= t < closed.len() && 0 <= p < closed[t].panes.len() && (
            #[trigger] closed[t].panes[p]).pane_id@ == id;
        assert(crate::session_change::tab_has_pane(closed[t], id));
    } else if tabs_have_pane(closed, id) {
        let t = choose|t: int|
            0 <= t < closed.len() && crate::session_change::tab_has_pane(#[trigger] closed[t], id);
        let p = choose|p: int|
            0 <= p < closed[t].panes.len() && (#[trigger] closed[t].panes[p]).pane_id@ == id;
        assert(closed[t].panes[p].pane_id@ == id);
    }
}

// Opening ----------------------------------------------------------------

/// A new tab goes into the workspace that is named, and without a name into the shown
/// one; there must be such a workspace.
pub proof fn new_tabs_go_where_they_are_asked_to(
    session: SessionView,
    workspace_id: Option<String>,
)
    ensures
        match launch_workspace(session, workspace_id) {
            Ok(w) => match workspace_id {
                Some(id) => 0 <= w < session.workspaces.len()
                    && session.workspaces[w].workspace_id@ == id@,
                None => session.active is Some && session.active->0 == w,
            },
            Err(_) => match workspace_id {
                Some(id) => forall|w: int|
                    0 <= w < session.workspaces.len() ==> (
                    #[trigger] session.workspaces[w]).workspace_id@ != id@,
                None => session.active is None,
            },
        },
{
    if let Some(id) = workspace_id {
        workspaces_are_found_by_identifier(session, id@);
    }
}

/// A new tab, and a new workspace, are launched with the label, the focus and the
/// environment that were asked for, and in the directory that was asked for; without
/// one they follow the focused pane.
pub proof fn launches_are_as_asked(
    session: SessionView,
    w: int,
    tab: TabCreateParams,
    workspace: WorkspaceCreateParams,
    env: std::sync::Arc<Vec<(String, String)>>,
)
    requires
        0 <= w < session.workspaces.len() <= usize::MAX,
    ensures
        ({
            let launch = tab_launch(session, w, tab, env);
            &&& launch.workspace == w && launch.workspace_id
                == session.workspaces[w].workspace_id
            &&& launch.focus == tab.focus && launch.label == tab.label && launch.env == env
            &&& match launch.directory {
                LaunchDirectory::Given(cwd) => tab.cwd == Some(cwd),
                LaunchDirectory::Follow(cwd) => tab.cwd is None && cwd == focused_cwd(session, w),
            }
        }),
        ({
            let launch = workspace_launch(session, workspace, env);
            &&& launch.focus == workspace.focus && launch.label == workspace.label && launch.env
                == env
            &&& match launch.directory {
                LaunchDirectory::Given(cwd) => workspace.cwd == Some(cwd),
                LaunchDirectory::Follow(cwd) => workspace.cwd is None && (session.active is None
                    ==> cwd is None) && (session.active is Some ==> cwd == focused_cwd(
                    session,
                    session.active->0 as int,
                )),
            }
        }),
{
}

/// A tab that was launched stands last in its workspace, with its one pane and the
/// label that was asked for, or its own where none was. It is shown exactly where that
/// was asked for; otherwise what was shown stays shown. Its terminal is known, and all
/// other terminals stay.
#[verifier::spinoff_prover]
pub proof fn launched_tabs_stand_last(
    session: SessionView,
    w: int,
    launch: TabLaunch,
    launched: LaunchedTab,
)
    requires
        session.ok(),
        0 <= w < session.workspaces.len() <= usize::MAX,
        session.workspaces[w].tabs.len() < usize::MAX,
    ensures
        ({
            let after = after_tab_launch(session, w, launch, launched);
            let before = session.workspaces[w];
            let t = before.tabs.len() as int;
            let tab = after.workspaces[w].tabs[t];
            &&& after.workspaces[w].tabs.len() == t + 1
            &&& forall|u: int| 0 <= u < t ==> #[trigger] after.workspaces[w].tabs[u] == before.tabs[u]
            &&& tab.tab_id == launched.tab_id
            &&& tab.label == (if launch.label is Some {
                launch.label->0
            } else {
                launched.label
            })
            &&& tab.panes.len() == 1 && tab.focused == 0
            &&& tab.panes[0].pane_id == launched.pane_id && tab.panes[0].raw == launched.raw
                && tab.panes[0].terminal_id == launched.terminal.id
            &&& terminal_of(after.terminals, launched.terminal.id@) == Some(launched.terminal)
            &&& forall|id: Seq<char>|
                id != launched.terminal.id@ ==> #[trigger] terminal_of(after.terminals, id)
                    == terminal_of(session.terminals, id)
            &&& if launch.focus {
                after.active == Some(w as usize) && after.workspaces[w].active_tab == t
                    && after.mode == Mode::Terminal
            } else {
                after.active == session.active && after.workspaces[w].active_tab
                    == before.active_tab && after.mode == session.mode
            }
            &&& after.workspaces.len() == session.workspaces.len()
            &&& forall|v: int|
                0 <= v < session.workspaces.len() && v != w ==> #[trigger] after.workspaces[v]
                    == session.workspaces[v]
        }),
{
    lemma_terminal_added(session.terminals, launched.terminal);
}

proof fn lemma_terminal_added(terminals: Seq<TerminalState>, terminal: TerminalState)
    ensures
        terminal_of(
            crate::search::put(terminals, terminal_is(terminal.id@), terminal),
            terminal.id@,
        ) == Some(terminal),
        forall|id: Seq<char>|
            id != terminal.id@ ==> #[trigger] terminal_of(
                crate::search::put(terminals, terminal_is(terminal.id@), terminal),
                id,
            ) == terminal_of(terminals, id),
{
    let mine = terminal_is(terminal.id@);
    lemma_put_found(terminals, mine, terminal);
    assert forall|id: Seq<char>| id != terminal.id@ implies #[trigger] terminal_of(
        crate::search::put(terminals, mine, terminal),
        id,
    ) == terminal_of(terminals, id) by {
        lemma_put_others(terminals, mine, terminal, terminal_is(id));
    }
}

/// A workspace that was launched stands last, with its one tab and the label that was
/// asked for, or its own where none was. It is shown where that was asked for and
/// where nothing was shown; otherwise what was shown stays shown.
#[verifier::spinoff_prover]
pub proof fn launched_workspaces_stand_last(
    session: SessionView,
    launched: LaunchedWorkspace,
    label: Option<String>,
    focus: bool,
)
    requires
        session.workspaces.len() < usize::MAX,
    ensures
        ({
            let after = after_workspace_launch(session, launched, label, focus);
            let w = session.workspaces.len() as int;
            let workspace = after.workspaces[w];
            &&& after.workspaces.len() == w + 1
            &&& forall|v: int| 0 <= v < w ==> #[trigger] after.workspaces[v] == session.workspaces[v]
            &&& workspace.workspace_id == launched.workspace_id
            &&& workspace.label == (if label is Some {
                label->0
            } else {
                launched.label
            })
            &&& workspace.tabs.len() == 1 && workspace.active_tab == 0 && workspace.worktree is None
            &&& workspace.tabs[0].tab_id == launched.tab.tab_id && workspace.tabs[0].label
                == launched.tab.label
            &&& workspace.tabs[0].panes.len() == 1 && workspace.tabs[0].panes[0].pane_id
                == launched.tab.pane_id && workspace.tabs[0].panes[0].terminal_id
                == launched.tab.terminal.id
            &&& terminal_of(after.terminals, launched.tab.terminal.id@) == Some(
                launched.tab.terminal,
            )
            &&& if focus || session.active is None {
                after.active is Some && after.active->0 == w && after.selected == w && after.mode
                    == Mode::Terminal
            } else {
                after.active == session.active && after.selected == session.selected && after.mode
                    == session.mode
            }
        }),
{
    lemma_terminal_added(session.terminals, launched.tab.terminal);
}

/// A pane that is added beside another stands right after it. It has the focus exactly
/// where that was asked for; otherwise the pane that had it keeps it. All other panes
/// keep their order.
pub proof fn new_panes_stand_beside_their_neighbour(
    session: SessionView,
    w: int,
    t: int,
    p: int,
    pane: Pane,
    focus: bool,
)
    requires
        0 <= w < session.workspaces.len(),
        0 <= t < session.workspaces[w].tabs.len(),
        0 <= p < session.workspaces[w].tabs[t].panes.len() < usize::MAX,
        session.workspaces[w].tabs[t].ok(),
    ensures
        ({
            let after = with_new_pane(session, w, t, p, pane, focus);
            let before = session.workspaces[w].tabs[t];
            let tab = after.workspaces[w].tabs[t];
            &&& tab.panes.len() == before.panes.len() + 1
            &&& tab.panes[p + 1] == pane
            &&& forall|q: int| 0 <= q <= p ==> #[trigger] tab.panes[q] == before.panes[q]
            &&& forall|q: int|
                p < q < before.panes.len() ==> tab.panes[q + 1] == #[trigger] before.panes[q]
            &&& focus ==> tab.focused == p + 1
            &&& !focus ==> tab.panes[tab.focused as int] == before.panes[before.focused as int]
            &&& tab.tab_id == before.tab_id && tab.label == before.label
            &&& after.workspaces[w].active_tab == session.workspaces[w].active_tab
            &&& after.workspaces.len() == session.workspaces.len()
            &&& forall|u: int|
                0 <= u < session.workspaces[w].tabs.len() && u != t
                    ==> #[trigger] after.workspaces[w].tabs[u] == session.workspaces[w].tabs[u]
            &&& forall|v: int|
                0 <= v < session.workspaces.len() && v != w ==> #[trigger] after.workspaces[v]
                    == session.workspaces[v]
            &&& after.active == session.active && after.mode == session.mode
        }),
{
}

/// An agent that was started beside a pane stands right after it, in its own terminal,
/// under the name that it was started with. It is shown exactly where that was asked
/// for; otherwise what was shown stays shown. The session is to be saved.
#[verifier::spinoff_prover]
pub proof fn started_agents_stand_beside_their_neighbour(
    session: SessionView,
    w: int,
    t: int,
    p: int,
    command: AgentCommand,
    launched: LaunchedPane,
)
    requires
        session.ok(),
        0 <= w < session.workspaces.len() <= usize::MAX,
        0 <= t < session.workspaces[w].tabs.len() <= usize::MAX,
        0 <= p < session.workspaces[w].tabs[t].panes.len() < usize::MAX,
    ensures
        ({
            let after = after_agent_pane(session, w, t, p, command, launched);
            let tab = after.workspaces[w].tabs[t];
            let known = terminal_of(after.terminals, launched.terminal.id@);
            &&& tab.panes.len() == session.workspaces[w].tabs[t].panes.len() + 1
            &&& tab.panes[p + 1].pane_id == launched.pane_id && tab.panes[p + 1].raw == launched.raw
                && tab.panes[p + 1].terminal_id == launched.terminal.id
            &&& known is Some && known->0.agent_name == Some(command.name)
                && known->0.manual_label == Some(command.name) && known->0.cwd
                == launched.terminal.cwd
            &&& after.dirty
            &&& if command.focus {
                after.active == Some(w as usize) && after.workspaces[w].active_tab == t
                    && tab.focused == p + 1 && after.mode == Mode::Terminal
            } else {
                after.active == session.active && after.workspaces[w].active_tab
                    == session.workspaces[w].active_tab && after.mode == session.mode
                    && tab.panes[tab.focused as int]
                    == session.workspaces[w].tabs[t].panes[session.workspaces[w].tabs[t].focused as int]
                    && after.previous_focus == session.previous_focus
            }
        }),
{
    assert(session.workspaces[w].ok());
    assert(session.workspaces[w].tabs[t].ok());
    let terminal = called_terminal(launched.terminal, Some(command.name));
    lemma_terminal_added(session.terminals, terminal);
}

/// A pane that was split off stands right after its neighbour, has the focus and gets
/// the keys. What had the focus before is remembered, and the session is to be saved.
#[verifier::spinoff_prover]
pub proof fn split_panes_get_the_focus(
    session: SessionView,
    w: int,
    t: int,
    p: int,
    launched: LaunchedPane,
)
    requires
        session.ok(),
        0 <= w < session.workspaces.len() <= usize::MAX,
        0 <= t < session.workspaces[w].tabs.len() <= usize::MAX,
        0 <= p < session.workspaces[w].tabs[t].panes.len() < usize::MAX,
    ensures
        ({
            let after = after_split(session, w, t, p, launched);
            let tab = after.workspaces[w].tabs[t];
            &&& tab.panes.len() == session.workspaces[w].tabs[t].panes.len() + 1
            &&& tab.panes[p + 1].pane_id == launched.pane_id && tab.panes[p + 1].raw == launched.raw
                && tab.panes[p + 1].terminal_id == launched.terminal.id
            &&& tab.focused == p + 1
            &&& terminal_of(after.terminals, launched.terminal.id@) == Some(launched.terminal)
            &&& after.mode == Mode::Terminal
            &&& after.dirty
            &&& after.active == session.active
        }),
{
    lemma_terminal_added(session.terminals, launched.terminal);
}

/// A split is one of the focused pane of the shown workspace, in the direction that was
/// asked for. The new pane gets half of the room, but never less than the least size.
pub proof fn splits_halve_the_focused_pane(
    session: SessionView,
    direction: SplitDirection,
    rows: u16,
    cols: u16,
)
    requires
        session.ok(),
        session.workspaces.len() <= usize::MAX,
        forall|w: int|
            0 <= w < session.workspaces.len() ==> (#[trigger] session.workspaces[w]).tabs.len()
                <= usize::MAX,
    ensures
        match focused_split(session, direction, rows, cols) {
            Some(split) => session.active is Some && {
                let w = session.active->0 as int;
                let workspace = session.workspaces[w];
                let tab = workspace.tabs[workspace.active_tab as int];
                &&& split.target.place.workspace == w
                &&& split.target.place.tab == workspace.active_tab
                &&& split.target.place.pane == tab.focused
                &&& split.target.pane_id == tab.panes[tab.focused as int].pane_id
                &&& split.target.raw == tab.panes[tab.focused as int].raw
                &&& split.direction == direction
                &&& split.rows >= MIN_SPLIT_ROWS && split.cols >= MIN_SPLIT_COLS
                &&& split.rows > MIN_SPLIT_ROWS ==> 2 * split.rows <= rows < 2 * split.rows + 2
                &&& split.cols > MIN_SPLIT_COLS ==> 2 * split.cols <= cols < 2 * split.cols + 2
                &&& split.rows == MIN_SPLIT_ROWS ==> rows < 2 * MIN_SPLIT_ROWS + 2
                &&& split.cols == MIN_SPLIT_COLS ==> cols < 2 * MIN_SPLIT_COLS + 2
                &&& split.follow_cwd == focused_cwd(session, w)
            },
            None => session.active is None,
        },
{
    if let Some(active) = session.active {
        assert(session.workspaces[active as int].ok());
        let workspace = session.workspaces[active as int];
        assert(workspace.tabs[workspace.active_tab as int].ok());
    }
}

// Marks ------------------------------------------------------------------

/// What has the focus is the focused pane of the active tab of the shown workspace.
pub proof fn the_focus_is_on_the_focused_pane(session: SessionView)
    ensures
        match focus_target(session) {
            Some(target) => session.active is Some && {
                let workspace = session.workspaces[session.active->0 as int];
                let tab = workspace.tabs[workspace.active_tab as int];
                target.workspace_id == workspace.workspace_id && target.pane_id
                    == tab.panes[tab.focused as int].pane_id
            },
            None => session.active is None,
        },
{
}

/// What had the focus before is remembered unless it has it still; nothing else
/// changes.
pub proof fn the_former_focus_is_remembered(
    session: SessionView,
    previous: Option<PaneFocusTarget>,
    w: int,
    pane_id: Seq<char>,
)
    ensures
        ({
            let after = recording_focus(session, previous, w, pane_id);
            let same = previous matches Some(before) && before.workspace_id@
                == session.workspaces[w].workspace_id@ && before.pane_id@ == pane_id;
            &&& previous is Some && !same ==> after.previous_focus == previous
            &&& previous is None || same ==> after.previous_focus == session.previous_focus
            &&& after.workspaces == session.workspaces && after.active == session.active
                && after.mode == session.mode && after.terminals == session.terminals
        }),
{
}

/// A session that is marked is to be saved, and is otherwise the same. The tab bar
/// follows the active tab once a tab of the shown workspace moved.
pub proof fn marks_change_nothing_else(session: SessionView, w: int)
    requires
        0 <= w <= usize::MAX,
    ensures
        marked(session).dirty,
        marked(session).workspaces == session.workspaces && marked(session).active
            == session.active && marked(session).terminals == session.terminals && marked(
            session,
        ).mode == session.mode,
        following_tabs(session, w).tab_scroll_follow_active == (session.tab_scroll_follow_active || (
        session.active is Some && session.active->0 == w)),
        following_tabs(session, w).workspaces == session.workspaces,
{
}

// Attached views ---------------------------------------------------------

/// A view is found by its workspace, its pane and its terminal, all three.
pub proof fn views_are_found_by_all_their_identifiers(
    session: SessionView,
    target: RemoteAttachPaneTarget,
)
    ensures
        attach_place(session, target) matches Some((w, t, p)) ==> {
            &&& 0 <= w < session.workspaces.len()
            &&& 0 <= t < session.workspaces[w].tabs.len()
            &&& 0 <= p < session.workspaces[w].tabs[t].panes.len()
            &&& session.workspaces[w].workspace_id@ == target.workspace_id@
            &&& session.workspaces[w].tabs[t].panes[p].pane_id@ == target.pane_id@
            &&& session.workspaces[w].tabs[t].panes[p].terminal_id@ == target.terminal_id@
        },
{
    workspaces_are_found_by_identifier(session, target.workspace_id@);
    if let Some(w) = workspace_place(session, target.workspace_id@) {
        let tabs = session.workspaces[w].tabs;
        lemma_first_holds(tabs, tab_with(target));
        if let Some(t) = first_where(tabs, tab_with(target)) {
            assert(tab_with(target)(tabs[t]));
            lemma_first_holds(tabs[t].panes, shows(target));
            let p = first_where(tabs[t].panes, shows(target))->0;
            assert(shows(target)(tabs[t].panes[p]));
        }
    }
}

/// A view is detached exactly where it is there, its terminal is known, and it shows a
/// remote one.
pub proof fn only_attached_views_are_detached(
    session: SessionView,
    target: RemoteAttachPaneTarget,
)
    ensures
        (detach_refusal(session, target) is None) == (attach_place(session, target) is Some
            && terminal_of(session.terminals, target.terminal_id@) is Some && terminal_of(
            session.terminals,
            target.terminal_id@,
        )->0.remote_attach is Some),
        (detach_refusal(session, target) == Some(RemoteDetachViewError::PaneMissing)) == (
        attach_place(session, target) is None),
{
}

/// A detached view is a plain shell in the same pane and under the same labels, with
/// the focus and the keys. No other terminal changes, nor any pane, and the session is
/// to be saved.
#[verifier::spinoff_prover]
pub proof fn detached_views_become_shells(session: SessionView, target: RemoteAttachPaneTarget)
    requires
        session.ok(),
        session.workspaces.len() <= usize::MAX,
        forall|w: int|
            0 <= w < session.workspaces.len() ==> (#[trigger] session.workspaces[w]).tabs.len()
                <= usize::MAX,
        detach_refusal(session, target) is None,
    ensures
        ({
            let after = after_detach(session, target);
            let (w, t, p) = attach_place(session, target)->0;
            let before = terminal_of(session.terminals, target.terminal_id@)->0;
            &&& after.active is Some && after.active->0 == w
            &&& after.workspaces[w].active_tab == t
            &&& after.mode == Mode::Terminal
            &&& after.dirty
            &&& after.workspaces[w].tabs[t].panes == session.workspaces[w].tabs[t].panes
            &&& after.terminals.len() == session.terminals.len()
            &&& exists|i: int|
                0 <= i < session.terminals.len() && (#[trigger] session.terminals[i]) == before && {
                    let shell = after.terminals[i];
                    &&& shell.id == before.id && shell.remote_attach is None
                        && !shell.respawn_shell_on_exit && shell.launch_argv is None
                    &&& shell.agent is None && shell.display_agent is None
                        && shell.custom_status is None && shell.agent_session is None
                        && !shell.screen_detection_skipped && shell.agent_status is Unknown
                    &&& shell.agent_name == before.agent_name && shell.manual_label
                        == before.manual_label && shell.title == before.title && shell.cwd
                        == before.cwd
                    &&& forall|j: int|
                        0 <= j < session.terminals.len() && j != i ==> #[trigger] after.terminals[j]
                            == session.terminals[j]
                }
        }),
{
    views_are_found_by_all_their_identifiers(session, target);
    let mine = terminal_is(target.terminal_id@);
    lemma_first_holds(session.terminals, mine);
    let i = first_where(session.terminals, mine)->0;
    assert(mine(session.terminals[i]));
    let before = terminal_of(session.terminals, target.terminal_id@)->0;
    assert(session.terminals[i] == before);
}

/// A view is called by its label, without the space around it; one without a label is
/// called by its host and its terminal.
pub proof fn views_are_called_by_their_label(target: RemoteAttachTarget)
    ensures
        trimmed(target.label@).len() > 0 ==> display_label(target) == trimmed(target.label@),
        trimmed(target.label@).len() == 0 ==> display_label(target) == target.host@ + "/terminal:"@
            + target.terminal_id@,
{
}

/// The keys go to a pane where a workspace is shown, and navigate where none is.
pub proof fn keys_need_a_shown_workspace(session: SessionView)
    ensures
        in_terminal_mode(session).mode == Mode::Terminal <==> session.active is Some,
        in_terminal_mode(session).mode == Mode::Navigate <==> session.active is None,
        in_terminal_mode(session).workspaces == session.workspaces,
        in_terminal_mode(session).terminals == session.terminals,
{
}

} // verus!
