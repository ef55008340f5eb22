//! What the session keeps beside what it shows: former names of panes, the pane that
//! had the focus before, how the tab bar scrolls, and whether it is to be saved.
use vstd::prelude::*;
use crate::session::{PaneAlias, PaneFocusTarget, Session, SessionView};

verus! {

/// The aliases other than this one, in their order.
pub open spec fn other_aliases(aliases: Seq<PaneAlias>, pane_id: Seq<char>) -> Seq<PaneAlias>
    decreases aliases.len(),
{
    if aliases.len() == 0 {
        Seq::empty()
    } else {
        let before = other_aliases(aliases.drop_last(), pane_id);
        if aliases.last().alias@ == pane_id {
            before
        } else {
            before.push(aliases.last())
        }
    }
}

/// A new pane takes its name from any pane that still had it as a former one.
pub open spec fn without_alias(session: SessionView, pane_id: Seq<char>) -> SessionView {
    SessionView { pane_aliases: other_aliases(session.pane_aliases, pane_id), ..session }
}

/// The pane that has the focus.
pub open spec fn focus_target(session: SessionView) -> Option<PaneFocusTarget> {
    match session.active {
        None => None,
        Some(active) => {
            let workspace = session.workspaces[active as int];
            let tab = workspace.tabs[workspace.active_tab as int];
            Some(
                PaneFocusTarget {
                    workspace_id: workspace.workspace_id,
                    pane_id: tab.panes[tab.focused as int].pane_id,
                },
            )
        },
    }
}

/// The focus went from one pane to another. Where there was none before, or it did not
/// move, what was remembered stays.
pub open spec fn recording_focus(
    session: SessionView,
    previous: Option<PaneFocusTarget>,
    w: int,
    pane_id: Seq<char>,
) -> SessionView {
    SessionView {
        previous_focus: match previous {
            Some(before) => if before.workspace_id@ == session.workspaces[w].workspace_id@
                && before.pane_id@ == pane_id {
                session.previous_focus
            } else {
                previous
            },
            None => session.previous_focus,
        },
        ..session
    }
}

/// The session is to be saved.
pub open spec fn marked(session: SessionView) -> SessionView {
    SessionView { dirty: true, ..session }
}

/// The tab bar follows the active tab, where it shows the tabs of this workspace.
pub open spec fn following_tabs(session: SessionView, w: int) -> SessionView {
    SessionView {
        tab_scroll_follow_active: session.tab_scroll_follow_active || session.active == Some(
            w as usize,
        ),
        ..session
    }
}

impl Session {
    /// Drops the former name that a new pane has as its own.
    pub fn remove_alias_shadowed_by_new_pane(&mut self, pane_id: &str)
        requires
            old(self)@.ok(),
        ensures
            final(self)@ == without_alias(old(self)@, pane_id@),
            final(self)@.ok(),
    {
        let ghost before = self@;
        let mut rest: Vec<PaneAlias> = Vec::new();
        std::mem::swap(&mut self.pane_aliases, &mut rest);
        let ghost all = rest@;
        let ghost mut done: int = 0;
        let mut kept: Vec<PaneAlias> = Vec::new();
        assert(rest@ =~= all.skip(0));
        assert(all.take(0) =~= Seq::empty());
        while rest.len() > 0
            invariant
                0 <= done <= all.len(),
                rest@ == all.skip(done),
                kept@ == other_aliases(all.take(done), pane_id@),
            decreases rest@.len(),
        {
            let alias = rest.remove(0);
            proof {
                let taken = all.take(done + 1);
                assert(taken.drop_last() =~= all.take(done));
                assert(taken.last() == alias);
                assert(rest@ =~= all.skip(done + 1));
                done = done + 1;
            }
            if !crate::text::same_text(alias.alias.as_str(), pane_id) {
                kept.push(alias);
            }
        }
        assert(all.take(done) =~= all);
        self.pane_aliases = kept;
        assert(self@ =~= without_alias(before, pane_id@));
    }

    /// The pane that has the focus.
    pub fn current_pane_focus_target(&self) -> (target: Option<PaneFocusTarget>)
        requires
            self@.ok(),
        ensures
            target == focus_target(self@),
    {
        let active: usize = match self.active {
            Some(active) => active,
            None => {
                return None;
            },
        };
        assert(self@.workspaces[active as int].ok());
        let workspace = &self.workspaces[active];
        assert(workspace@ == self@.workspaces[active as int]);
        assert(workspace@.tabs[workspace.active_tab as int].ok());
        let tab = &workspace.tabs[workspace.active_tab];
        Some(
            PaneFocusTarget {
                workspace_id: workspace.workspace_id.clone(),
                pane_id: tab.panes[tab.focused].pane_id.clone(),
            },
        )
    }

    /// Remembers which pane had the focus before this one.
    pub fn record_pane_focus_change(
        &mut self,
        previous: Option<PaneFocusTarget>,
        w: usize,
        pane_id: &str,
    )
        requires
            old(self)@.ok(),
            w < old(self)@.workspaces.len(),
        ensures
            final(self)@ == recording_focus(old(self)@, previous, w as int, pane_id@),
            final(self)@.ok(),
    {
        let ghost before = self@;
        if let Some(target) = previous {
            assert(self.workspaces@[w as int]@ == before.workspaces[w as int]);
            if !(crate::text::same_text(
                target.workspace_id.as_str(),
                self.workspaces[w].workspace_id.as_str(),
            ) && crate::text::same_text(target.pane_id.as_str(), pane_id)) {
                self.previous_focus = Some(target);
            }
        }
        assert(self@ =~= recording_focus(before, previous, w as int, pane_id@));
    }

    /// Has the session saved.
    pub fn mark_session_dirty(&mut self)
        ensures
            final(self)@ == marked(old(self)@),
            old(self)@.ok() ==> final(self)@.ok(),
    {
        self.dirty = true;
    }

    /// Has the tab bar follow the active tab, where it shows this workspace.
    pub fn follow_active_tab(&mut self, w: usize)
        ensures
            final(self)@ == following_tabs(old(self)@, w as int),
            old(self)@.ok() ==> final(self)@.ok(),
    {
        if let Some(active) = self.active {
            if active == w {
                self.tab_scroll_follow_active = true;
            }
        }
    }
}

// Laws -------------------------------------------------------------------

/// A new pane is not found under the name of another, and no other alias goes.
pub proof fn new_panes_shadow_aliases(aliases: Seq<PaneAlias>, pane_id: Seq<char>, i: int)
    requires
        0 <= i < aliases.len(),
    ensures
        other_aliases(aliases, pane_id).contains(aliases[i]) == (aliases[i].alias@ != pane_id),
    decreases aliases.len(),
{
    let before = other_aliases(aliases.drop_last(), pane_id);
    let after = other_aliases(aliases, pane_id);
    lemma_others_differ(aliases, pane_id);
    if aliases[i].alias@ != pane_id {
        if i == aliases.len() - 1 {
            assert(after.last() == aliases[i]);
        } else {
            new_panes_shadow_aliases(aliases.drop_last(), pane_id, i);
            assert(aliases.drop_last()[i] == aliases[i]);
            let k = choose|k: int| 0 <= k < before.len() && before[k] == aliases[i];
            assert(after[k] == before[k]);
        }
    }
}

proof fn lemma_others_differ(aliases: Seq<PaneAlias>, pane_id: Seq<char>)
    ensures
        forall|k: int|
            0 <= k < other_aliases(aliases, pane_id).len() ==> (#[trigger] other_aliases(
                aliases,
                pane_id,
            )[k]).alias@ != pane_id,
    decreases aliases.len(),
{
    if aliases.len() > 0 {
        let before = other_aliases(aliases.drop_last(), pane_id);
        lemma_others_differ(aliases.drop_last(), pane_id);
        assert forall|k: int| 0 <= k < other_aliases(aliases, pane_id).len() implies (
        #[trigger] other_aliases(aliases, pane_id)[k]).alias@ != pane_id by {
            if k < before.len() {
                assert(before[k].alias@ != pane_id);
            }
        }
    }
}

} // verus!
