//! Detaching a pane from the remote terminal it shows.
//!
//! The remote terminal keeps running; the pane gets a local shell instead.
use vstd::prelude::*;
use crate::schema::AgentStatus;
use crate::search::{first_where, lemma_first_found, lemma_first_holds, lemma_first_missing};
use crate::session::{
    terminal_index, terminal_is, terminal_of, workspace_place, Mode, Pane, RemoteAttachTarget,
    Session, SessionView, Tab, TabView, TerminalState,
};
use crate::session_change::focusing_pane;
use crate::session_marks::marked;
use crate::text::{concat2, concat3, trim, trimmed};

verus! {

/// A pane, by where it was and what it showed.
#[derive(Debug, PartialEq, Eq)]
pub struct RemoteAttachPaneTarget {
    pub workspace_id: String,
    pub pane_id: String,
    pub terminal_id: String,
}

/// Why a view was not detached.
#[derive(Debug, PartialEq, Eq)]
pub enum RemoteDetachViewError {
    PaneMissing,
    TerminalMissing,
    NotAttached,
    Spawn(String),
}

impl RemoteDetachViewError {
    pub open spec fn text(self) -> Seq<char> {
        match self {
            RemoteDetachViewError::PaneMissing => "view already gone"@,
            RemoteDetachViewError::TerminalMissing => "view terminal no longer exists"@,
            RemoteDetachViewError::NotAttached => "pane is not attached to a remote view"@,
            RemoteDetachViewError::Spawn(err) => "failed to restore local shell: "@ + err@,
        }
    }

    /// What the error says.
    pub fn message(&self) -> (message: String)
        ensures
            message@ == self.text(),
    {
        match self {
            RemoteDetachViewError::PaneMissing => "view already gone".to_owned(),
            RemoteDetachViewError::TerminalMissing => "view terminal no longer exists".to_owned(),
            RemoteDetachViewError::NotAttached => {
                "pane is not attached to a remote view".to_owned()
            },
            RemoteDetachViewError::Spawn(err) => concat2(
                "failed to restore local shell: ",
                err.as_str(),
            ),
        }
    }
}

/// What a remote terminal is called: its label, or its host and id.
pub open spec fn display_label(target: RemoteAttachTarget) -> Seq<char> {
    if trimmed(target.label@).len() > 0 {
        trimmed(target.label@)
    } else {
        target.host@ + "/terminal:"@ + target.terminal_id@
    }
}

pub fn remote_attach_display_label(target: &RemoteAttachTarget) -> (label: String)
    ensures
        label@ == display_label(*target),
{
    let label = trim(target.label.as_str());
    if label.as_str().unicode_len() > 0 {
        label
    } else {
        concat3(target.host.as_str(), "/terminal:", target.terminal_id.as_str())
    }
}

/// What kind of news a notification brings.
#[derive(Debug, Clone, Copy, PartialEq, Eq, Structural)]
pub enum ToastKind {
    Finished,
    NeedsAttention,
}

/// A notification.
#[derive(Debug, PartialEq, Eq)]
pub struct ToastNotification {
    pub kind: ToastKind,
    pub title: String,
    pub context: String,
}

/// What a [`ToastNotification`] holds.
#[verifier::ext_equal]
pub struct ToastView {
    pub kind: ToastKind,
    pub title: Seq<char>,
    pub context: Seq<char>,
}

impl View for ToastNotification {
    type V = ToastView;

    open spec fn view(&self) -> ToastView {
        ToastView { kind: self.kind, title: self.title@, context: self.context@ }
    }
}

// Planning ---------------------------------------------------------------

pub open spec fn shows(target: RemoteAttachPaneTarget) -> spec_fn(Pane) -> bool {
    |pane: Pane|
        pane.pane_id@ == target.pane_id@ && pane.terminal_id@ == target.terminal_id@
}

pub open spec fn tab_with(target: RemoteAttachPaneTarget) -> spec_fn(TabView) -> bool {
    |tab: TabView| first_where(tab.panes, shows(target)) is Some
}

/// Where the pane stands, if it is still there and still shows that terminal.
pub open spec fn attach_place(session: SessionView, target: RemoteAttachPaneTarget) -> Option<
    (int, int, int),
> {
    match workspace_place(session, target.workspace_id@) {
        None => None,
        Some(w) => {
            let tabs = session.workspaces[w].tabs;
            match first_where(tabs, tab_with(target)) {
                None => None,
                Some(t) => Some((w, t, first_where(tabs[t].panes, shows(target))->0)),
            }
        },
    }
}

/// A view to be detached: a shell is to be started in its place.
#[derive(Debug, PartialEq, Eq)]
pub struct DetachPlan {
    pub label: String,
    pub cwd: Option<String>,
}

/// Why a view cannot be detached.
pub open spec fn detach_refusal(session: SessionView, target: RemoteAttachPaneTarget) -> Option<
    RemoteDetachViewError,
> {
    if attach_place(session, target) is None {
        Some(RemoteDetachViewError::PaneMissing)
    } else {
        match terminal_of(session.terminals, target.terminal_id@) {
            None => Some(RemoteDetachViewError::TerminalMissing),
            Some(terminal) => if terminal.remote_attach is None {
                Some(RemoteDetachViewError::NotAttached)
            } else {
                None
            },
        }
    }
}

fn shown_at(tab: &Tab, target: &RemoteAttachPaneTarget) -> (found: Option<usize>)
    ensures
        match found {
            Some(p) => p < tab@.panes.len() && first_where(tab@.panes, shows(*target)) == Some(
                p as int,
            ),
            None => first_where(tab@.panes, shows(*target)) is None,
        },
{
    let mut p: usize = 0;
    while p < tab.panes.len()
        invariant
            p <= tab.panes@.len(),
            forall|j: int| 0 <= j < p ==> !shows(*target)(#[trigger] tab@.panes[j]),
        decreases tab.panes@.len() - p,
    {
        if tab.panes[p].pane_id == target.pane_id && tab.panes[p].terminal_id
            == target.terminal_id {
            proof {
                lemma_first_found(tab@.panes, shows(*target), p as int);
            }
            return Some(p);
        }
        p = p + 1;
    }
    proof {
        lemma_first_missing(tab@.panes, shows(*target));
    }
    None
}

impl Session {
    /// Finds a pane that still shows a terminal.
    pub fn remote_attach_pane_indices(&self, target: &RemoteAttachPaneTarget) -> (found: Option<
        (usize, usize, usize),
    >)
        ensures
            match found {
                Some((w, t, p)) => {
                    &&& attach_place(self@, *target) == Some((w as int, t as int, p as int))
                    &&& w < self@.workspaces.len()
                    &&& t < self@.workspaces[w as int].tabs.len()
                    &&& p < self@.workspaces[w as int].tabs[t as int].panes.len()
                },
                None => attach_place(self@, *target) is None,
            },
    {
        let w: usize = match self.parse_workspace_id(target.workspace_id.as_str()) {
            Some(w) => w,
            None => {
                return None;
            },
        };
        let workspace = &self.workspaces[w];
        assert(workspace@ == self@.workspaces[w as int]);
        let mut t: usize = 0;
        while t < workspace.tabs.len()
            invariant
                w < self.workspaces@.len(),
                *workspace == self.workspaces@[w as int],
                workspace@ == self@.workspaces[w as int],
                workspace_place(self@, target.workspace_id@) == Some(w as int),
                t <= workspace.tabs@.len(),
                forall|j: int| 0 <= j < t ==> !tab_with(*target)(#[trigger] workspace@.tabs[j]),
            decreases workspace.tabs@.len() - t,
        {
            if let Some(p) = shown_at(&workspace.tabs[t], target) {
                proof {
                    lemma_first_found(workspace@.tabs, tab_with(*target), t as int);
                }
                return Some((w, t, p));
            }
            t = t + 1;
        }
        proof {
            lemma_first_missing(workspace@.tabs, tab_with(*target));
        }
        None
    }

    /// Plans the detaching of a view.
    pub fn plan_remote_detach(&self, target: &RemoteAttachPaneTarget) -> (plan: Result<
        DetachPlan,
        RemoteDetachViewError,
    >)
        ensures
            match detach_refusal(self@, *target) {
                Some(error) => plan == Err::<DetachPlan, RemoteDetachViewError>(error),
                None => {
                    let terminal = terminal_of(self@.terminals, target.terminal_id@)->0;
                    plan matches Ok(plan) && plan.cwd == terminal.cwd && plan.label@
                        == display_label(terminal.remote_attach->0)
                },
            },
    {
        if self.remote_attach_pane_indices(target).is_none() {
            return Err(RemoteDetachViewError::PaneMissing);
        }
        match terminal_index(&self.terminals, target.terminal_id.as_str()) {
            None => Err(RemoteDetachViewError::TerminalMissing),
            Some(i) => match &self.terminals[i].remote_attach {
                None => Err(RemoteDetachViewError::NotAttached),
                Some(attached) => Ok(
                    DetachPlan {
                        label: remote_attach_display_label(attached),
                        cwd: self.terminals[i].cwd.clone(),
                    },
                ),
            },
        }
    }
}

// Once the shell runs ----------------------------------------------------

/// A terminal that runs a local shell again.
pub open spec fn plain_shell(terminal: TerminalState) -> TerminalState {
    TerminalState {
        agent: None,
        display_agent: None,
        agent_status: AgentStatus::Unknown,
        screen_detection_skipped: false,
        custom_status: None,
        agent_session: None,
        remote_attach: None,
        respawn_shell_on_exit: false,
        launch_argv: None,
        ..terminal
    }
}

/// The mode of a session: a terminal, where one is shown.
pub open spec fn in_terminal_mode(session: SessionView) -> SessionView {
    SessionView {
        mode: if session.active is Some {
            Mode::Terminal
        } else {
            Mode::Navigate
        },
        ..session
    }
}

/// The session once a view was detached.
pub open spec fn after_detach(session: SessionView, target: RemoteAttachPaneTarget) -> SessionView {
    let (w, t, p) = attach_place(session, target)->0;
    let i = first_where(session.terminals, terminal_is(target.terminal_id@))->0;
    marked(
        in_terminal_mode(
            focusing_pane(
                SessionView {
                    terminals: session.terminals.update(i, plain_shell(session.terminals[i])),
                    ..session
                },
                w,
                t,
                p,
            ),
        ),
    )
}

impl Session {
    /// Shows a terminal, where there is one to show.
    pub fn set_terminal_mode(&mut self)
        ensures
            final(self)@ == in_terminal_mode(old(self)@),
    {
        self.mode = if self.active.is_some() {
            Mode::Terminal
        } else {
            Mode::Navigate
        };
    }

    /// Takes what starting the shell came to. Where it failed, the view stays as it was.
    pub fn detach_remote_attach_view(
        &mut self,
        target: &RemoteAttachPaneTarget,
        spawned: Result<(), String>,
    ) -> (result: Result<String, RemoteDetachViewError>)
        requires
            old(self)@.ok(),
        ensures
            final(self)@.ok(),
            match (detach_refusal(old(self)@, *target), spawned) {
                (Some(error), _) => {
                    &&& final(self)@ == old(self)@
                    &&& result == Err::<String, RemoteDetachViewError>(error)
                },
                (None, Err(message)) => {
                    &&& final(self)@ == old(self)@
                    &&& result == Err::<String, RemoteDetachViewError>(
                        RemoteDetachViewError::Spawn(message),
                    )
                },
                (None, Ok(_)) => {
                    &&& final(self)@ == after_detach(old(self)@, *target)
                    &&& result matches Ok(label) && label@ == display_label(
                        terminal_of(
                            old(self)@.terminals,
                            target.terminal_id@,
                        )->0.remote_attach->0,
                    )
                },
            },
    {
        let label = match self.plan_remote_detach(target) {
            Ok(plan) => plan.label,
            Err(err) => {
                return Err(err);
            },
        };
        if let Err(message) = spawned {
            return Err(RemoteDetachViewError::Spawn(message));
        }
        let ghost before = self@;
        match (
            self.remote_attach_pane_indices(target),
            terminal_index(&self.terminals, target.terminal_id.as_str()),
        ) {
            (Some((w, t, p)), Some(i)) => {
                self.terminals[i].agent = None;
                self.terminals[i].display_agent = None;
                self.terminals[i].agent_status = AgentStatus::Unknown;
                self.terminals[i].screen_detection_skipped = false;
                self.terminals[i].custom_status = None;
                self.terminals[i].agent_session = None;
                self.terminals[i].remote_attach = None;
                self.terminals[i].respawn_shell_on_exit = false;
                self.terminals[i].launch_argv = None;
                assert(self@.workspaces =~= before.workspaces);
                assert(self@.terminals =~= before.terminals.update(
                    i as int,
                    plain_shell(before.terminals[i as int]),
                ));
                self.focus_pane_in_workspace(w, t, p);
                self.set_terminal_mode();
                self.mark_session_dirty();
            },
            // Planning found both.
            _ => {},
        }
        Ok(label)
    }

    /// Takes what a request to detach a view came to, and says so where the view was
    /// detached or its shell could not be started.
    pub fn detach_remote_attach_view_or_toast(
        &mut self,
        target: &RemoteAttachPaneTarget,
        spawned: Result<(), String>,
    ) -> (toast: Option<ToastNotification>)
        requires
            old(self)@.ok(),
        ensures
            final(self)@.ok(),
            match (detach_refusal(old(self)@, *target), spawned) {
                (Some(_), _) => toast is None && final(self)@ == in_terminal_mode(old(self)@),
                (None, Err(message)) => {
                    &&& final(self)@ == in_terminal_mode(old(self)@)
                    &&& toast matches Some(toast) && toast@ == (ToastView {
                        kind: ToastKind::NeedsAttention,
                        title: "detach failed"@,
                        context: RemoteDetachViewError::Spawn(message).text(),
                    })
                },
                (None, Ok(_)) => {
                    &&& final(self)@ == after_detach(old(self)@, *target)
                    &&& toast matches Some(toast) && toast@ == (ToastView {
                        kind: ToastKind::Finished,
                        title: "Detached view"@,
                        context: display_label(
                            terminal_of(
                                old(self)@.terminals,
                                target.terminal_id@,
                            )->0.remote_attach->0,
                        ) + " is still running"@,
                    })
                },
            },
    {
        match self.detach_remote_attach_view(target, spawned) {
            Ok(label) => Some(
                ToastNotification {
                    kind: ToastKind::Finished,
                    title: "Detached view".to_owned(),
                    context: concat2(label.as_str(), " is still running"),
                },
            ),
            Err(RemoteDetachViewError::Spawn(message)) => {
                self.set_terminal_mode();
                Some(
                    ToastNotification {
                        kind: ToastKind::NeedsAttention,
                        title: "detach failed".to_owned(),
                        context: RemoteDetachViewError::Spawn(message).message(),
                    },
                )
            },
            Err(_) => {
                self.set_terminal_mode();
                None
            },
        }
    }
}

// Laws -------------------------------------------------------------------

/// A view that was detached is a plain shell: it is not attached any more, and
/// detaching it again is refused.
pub proof fn detached_views_are_local(session: SessionView, target: RemoteAttachPaneTarget)
    requires
        detach_refusal(session, target) is None,
    ensures
        terminal_of(after_detach(session, target).terminals, target.terminal_id@) matches Some(
            terminal,
        ) && terminal.remote_attach is None && !terminal.respawn_shell_on_exit
            && terminal.launch_argv is None,
        detach_refusal(after_detach(session, target), target) is Some,
{
    let is_it = terminal_is(target.terminal_id@);
    lemma_first_holds(session.terminals, is_it);
    let i = first_where(session.terminals, is_it)->0;
    let after = after_detach(session, target).terminals;
    assert(after == session.terminals.update(i, plain_shell(session.terminals[i])));
    assert(is_it(after[i]));
    assert forall|j: int| 0 <= j < i implies !is_it(#[trigger] after[j]) by {
        assert(after[j] == session.terminals[j]);
    }
    lemma_first_found(after, is_it, i);
}

} // verus!
