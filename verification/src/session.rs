//! The local session: workspaces, their tabs and panes, and the terminals they show.
use vstd::prelude::*;
use std::sync::Arc;
use crate::schema::{AgentStatus, PaneInfo, TabInfo, WorkspaceInfo, WorktreeInfo};
use crate::search::{
    element_where, first_where, lemma_first_found, lemma_first_holds, lemma_first_missing,
};
use crate::text::same_text;

verus! {

/// What the keyboard and the mouse are for.
#[derive(Debug, Clone, Copy, PartialEq, Eq, Structural)]
pub enum Mode {
    Terminal,
    Prefix,
    Navigate,
    Copy,
    Onboarding,
    ReleaseNotes,
    ProductAnnouncement,
    RenameWorkspace,
    RenameTab,
    RenamePane,
    NewLinkedWorktree,
    OpenExistingWorktree,
    ConfirmRemoveWorktree,
    Resize,
    ConfirmClose,
    ConfirmRemoteProjectedPaneClose,
    ConfirmRemoteProjectedTabClose,
    ContextMenu,
    Settings,
    GlobalMenu,
    KeybindHelp,
    Navigator,
}

/// The remote terminal that a local one shows.
#[derive(Debug, PartialEq, Eq)]
pub struct RemoteAttachTarget {
    pub host: String,
    pub session: String,
    pub terminal_id: String,
    pub label: String,
}

impl Clone for RemoteAttachTarget {
    fn clone(&self) -> (res: Self)
        ensures
            res == *self,
    {
        RemoteAttachTarget {
            host: self.host.clone(),
            session: self.session.clone(),
            terminal_id: self.terminal_id.clone(),
            label: self.label.clone(),
        }
    }
}

/// One terminal.
#[derive(Debug, PartialEq, Eq)]
pub struct TerminalState {
    pub id: String,
    /// The name that an agent was started or renamed with.
    pub agent_name: Option<String>,
    pub manual_label: Option<String>,
    /// The agent that was recognised in it.
    pub agent: Option<String>,
    pub title: Option<String>,
    pub display_agent: Option<String>,
    pub agent_status: AgentStatus,
    pub screen_detection_skipped: bool,
    pub custom_status: Option<String>,
    pub state_labels: Arc<Vec<(String, String)>>,
    pub agent_session: Option<String>,
    pub cwd: Option<String>,
    pub foreground_cwd: Option<String>,
    pub revision: u64,
    pub remote_attach: Option<RemoteAttachTarget>,
    pub respawn_shell_on_exit: bool,
    pub launch_argv: Option<Arc<Vec<String>>>,
}

/// One pane and the terminal it shows.
#[derive(Debug, PartialEq, Eq)]
pub struct Pane {
    pub pane_id: String,
    /// The number under which the pane is kept, which is never told to clients.
    pub raw: u32,
    pub terminal_id: String,
}

/// One tab: its panes, in layout order.
#[derive(Debug, PartialEq, Eq)]
pub struct Tab {
    pub tab_id: String,
    pub label: String,
    pub panes: Vec<Pane>,
    pub focused: usize,
    pub agent_status: AgentStatus,
}

/// One workspace: its tabs, in order.
#[derive(Debug, PartialEq, Eq)]
pub struct Workspace {
    pub workspace_id: String,
    pub label: String,
    pub tabs: Vec<Tab>,
    pub active_tab: usize,
    pub worktree: Option<WorktreeInfo>,
    pub agent_status: AgentStatus,
}

/// A former name of a pane, under which it is still found.
#[derive(Debug, PartialEq, Eq)]
pub struct PaneAlias {
    pub alias: String,
    pub pane_id: String,
}

/// A pane that has, or had, the focus.
#[derive(Debug, PartialEq, Eq)]
pub struct PaneFocusTarget {
    pub workspace_id: String,
    pub pane_id: String,
}

/// The session.
#[derive(Debug, PartialEq, Eq)]
pub struct Session {
    pub workspaces: Vec<Workspace>,
    /// The shown workspace.
    pub active: Option<usize>,
    /// The workspace that the sidebar's cursor is on.
    pub selected: usize,
    pub terminals: Vec<TerminalState>,
    /// The panes that belong to a plugin.
    pub plugin_panes: Vec<String>,
    pub pane_aliases: Vec<PaneAlias>,
    /// The pane that had the focus before the one that has it.
    pub previous_focus: Option<PaneFocusTarget>,
    pub mode: Mode,
    /// The tab bar scrolls to the active tab.
    pub tab_scroll_follow_active: bool,
    /// Something changed that is not saved yet.
    pub dirty: bool,
}

/// What a [`Tab`] holds.
#[verifier::ext_equal]
pub struct TabView {
    pub tab_id: String,
    pub label: String,
    pub panes: Seq<Pane>,
    pub focused: usize,
    pub agent_status: AgentStatus,
}

/// What a [`Workspace`] holds.
#[verifier::ext_equal]
pub struct WorkspaceView {
    pub workspace_id: String,
    pub label: String,
    pub tabs: Seq<TabView>,
    pub active_tab: usize,
    pub worktree: Option<WorktreeInfo>,
    pub agent_status: AgentStatus,
}

/// What a [`Session`] holds.
#[verifier::ext_equal]
pub struct SessionView {
    pub workspaces: Seq<WorkspaceView>,
    pub active: Option<usize>,
    pub selected: usize,
    pub terminals: Seq<TerminalState>,
    pub plugin_panes: Seq<String>,
    pub pane_aliases: Seq<PaneAlias>,
    pub previous_focus: Option<PaneFocusTarget>,
    pub mode: Mode,
    pub tab_scroll_follow_active: bool,
    pub dirty: bool,
}

impl View for Tab {
    type V = TabView;

    open spec fn view(&self) -> TabView {
        TabView {
            tab_id: self.tab_id,
            label: self.label,
            panes: self.panes@,
            focused: self.focused,
            agent_status: self.agent_status,
        }
    }
}

impl View for Workspace {
    type V = WorkspaceView;

    open spec fn view(&self) -> WorkspaceView {
        WorkspaceView {
            workspace_id: self.workspace_id,
            label: self.label,
            tabs: self.tabs@.map_values(|tab: Tab| tab@),
            active_tab: self.active_tab,
            worktree: self.worktree,
            agent_status: self.agent_status,
        }
    }
}

impl View for Session {
    type V = SessionView;

    open spec fn view(&self) -> SessionView {
        SessionView {
            workspaces: self.workspaces@.map_values(|workspace: Workspace| workspace@),
            active: self.active,
            selected: self.selected,
            terminals: self.terminals@,
            plugin_panes: self.plugin_panes@,
            pane_aliases: self.pane_aliases@,
            previous_focus: self.previous_focus,
            mode: self.mode,
            tab_scroll_follow_active: self.tab_scroll_follow_active,
            dirty: self.dirty,
        }
    }
}

impl TabView {
    /// A tab has a pane, and one of its panes has the focus.
    pub open spec fn ok(self) -> bool {
        self.focused < self.panes.len()
    }
}

impl WorkspaceView {
    /// A workspace has a tab, and one of its tabs is the active one.
    pub open spec fn ok(self) -> bool {
        &&& self.active_tab < self.tabs.len()
        &&& forall|t: int| 0 <= t < self.tabs.len() ==> (#[trigger] self.tabs[t]).ok()
    }
}

impl SessionView {
    /// Every workspace is sound, and what is shown and selected exists.
    pub open spec fn ok(self) -> bool {
        &&& forall|w: int| 0 <= w < self.workspaces.len() ==> (#[trigger] self.workspaces[w]).ok()
        &&& self.active matches Some(active) ==> active < self.workspaces.len()
        &&& self.selected < self.workspaces.len() || self.selected == 0
    }
}

// Looking things up ------------------------------------------------------

pub open spec fn workspace_is(workspace_id: Seq<char>) -> spec_fn(WorkspaceView) -> bool {
    |workspace: WorkspaceView| workspace.workspace_id@ == workspace_id
}

pub open spec fn tab_is(tab_id: Seq<char>) -> spec_fn(TabView) -> bool {
    |tab: TabView| tab.tab_id@ == tab_id
}

pub open spec fn has_tab(tab_id: Seq<char>) -> spec_fn(WorkspaceView) -> bool {
    |workspace: WorkspaceView| first_where(workspace.tabs, tab_is(tab_id)) is Some
}

pub open spec fn terminal_is(terminal_id: Seq<char>) -> spec_fn(TerminalState) -> bool {
    |terminal: TerminalState| terminal.id@ == terminal_id
}

/// Where a workspace stands.
pub open spec fn workspace_place(session: SessionView, workspace_id: Seq<char>) -> Option<int> {
    first_where(session.workspaces, workspace_is(workspace_id))
}

/// Where a tab stands: its workspace and its place there.
pub open spec fn tab_place(session: SessionView, tab_id: Seq<char>) -> Option<(int, int)> {
    match first_where(session.workspaces, has_tab(tab_id)) {
        Some(w) => Some((w, first_where(session.workspaces[w].tabs, tab_is(tab_id))->0)),
        None => None,
    }
}

/// The terminal with an id.
pub open spec fn terminal_of(
    terminals: Seq<TerminalState>,
    terminal_id: Seq<char>,
) -> Option<TerminalState> {
    element_where(terminals, terminal_is(terminal_id))
}

/// A place that was found exists.
pub proof fn lemma_tab_place(session: SessionView, tab_id: Seq<char>)
    ensures
        tab_place(session, tab_id) matches Some((w, t)) ==> {
            &&& 0 <= w < session.workspaces.len()
            &&& 0 <= t < session.workspaces[w].tabs.len()
            &&& session.workspaces[w].tabs[t].tab_id@ == tab_id
        },
{
    lemma_first_holds(session.workspaces, has_tab(tab_id));
    if let Some(w) = first_where(session.workspaces, has_tab(tab_id)) {
        lemma_first_holds(session.workspaces[w].tabs, tab_is(tab_id));
    }
}

// What the API tells -----------------------------------------------------

/// Whether a tab is the one that is shown.
pub open spec fn tab_is_shown(session: SessionView, w: int, t: int) -> bool {
    session.active == Some(w as usize) && session.workspaces[w].active_tab == t
}

pub open spec fn tab_info_of(session: SessionView, w: int, t: int) -> TabInfo {
    let workspace = session.workspaces[w];
    let tab = workspace.tabs[t];
    TabInfo {
        tab_id: tab.tab_id,
        workspace_id: workspace.workspace_id,
        number: (t + 1) as usize,
        label: tab.label,
        focused: tab_is_shown(session, w, t),
        pane_count: tab.panes.len() as usize,
        agent_status: tab.agent_status,
    }
}

/// The tabs of a workspace.
pub open spec fn workspace_tabs(session: SessionView, w: int) -> Seq<TabInfo> {
    Seq::new(session.workspaces[w].tabs.len(), |t: int| tab_info_of(session, w, t))
}

/// The tabs of the first `n` workspaces.
pub open spec fn tabs_of_first(session: SessionView, n: nat) -> Seq<TabInfo>
    decreases n,
{
    if n == 0 {
        Seq::empty()
    } else {
        tabs_of_first(session, (n - 1) as nat) + workspace_tabs(session, n - 1)
    }
}

/// The tabs of all workspaces.
pub open spec fn all_tabs(session: SessionView) -> Seq<TabInfo> {
    tabs_of_first(session, session.workspaces.len())
}

/// How many panes the first `n` tabs have, as far as the number can be told.
pub open spec fn panes_of_first(tabs: Seq<TabView>, n: nat) -> nat
    decreases n,
{
    if n == 0 {
        0
    } else {
        let sum = panes_of_first(tabs, (n - 1) as nat) + tabs[n - 1].panes.len();
        if sum > usize::MAX {
            usize::MAX as nat
        } else {
            sum
        }
    }
}

pub open spec fn workspace_info_of(session: SessionView, w: int) -> WorkspaceInfo {
    let workspace = session.workspaces[w];
    WorkspaceInfo {
        workspace_id: workspace.workspace_id,
        number: (w + 1) as usize,
        label: workspace.label,
        focused: session.active == Some(w as usize),
        pane_count: panes_of_first(workspace.tabs, workspace.tabs.len()) as usize,
        tab_count: workspace.tabs.len() as usize,
        active_tab_id: workspace.tabs[workspace.active_tab as int].tab_id,
        agent_status: workspace.agent_status,
        worktree: workspace.worktree,
    }
}

/// All workspaces.
pub open spec fn all_workspaces(session: SessionView) -> Seq<WorkspaceInfo> {
    Seq::new(session.workspaces.len(), |w: int| workspace_info_of(session, w))
}

/// A pane that shows a terminal.
pub open spec fn pane_info_of(
    workspace: WorkspaceView,
    tab: TabView,
    pane: Pane,
    terminal: TerminalState,
    focused: bool,
) -> PaneInfo {
    PaneInfo {
        pane_id: pane.pane_id,
        terminal_id: terminal.id,
        workspace_id: workspace.workspace_id,
        tab_id: tab.tab_id,
        focused,
        cwd: terminal.cwd,
        foreground_cwd: terminal.foreground_cwd,
        label: terminal.manual_label,
        agent: terminal.agent,
        title: terminal.title,
        display_agent: terminal.display_agent,
        agent_status: terminal.agent_status,
        custom_status: terminal.custom_status,
        state_labels: terminal.state_labels,
        agent_session: terminal.agent_session,
        revision: terminal.revision,
    }
}

/// Whether a pane has the focus of the whole session.
pub open spec fn pane_is_focused(session: SessionView, w: int, t: int, p: int) -> bool {
    tab_is_shown(session, w, t) && session.workspaces[w].tabs[t].focused == p
}

/// The pane at a place, where its terminal exists.
pub open spec fn pane_info_at(session: SessionView, w: int, t: int, p: int) -> Option<PaneInfo> {
    let workspace = session.workspaces[w];
    let tab = workspace.tabs[t];
    match terminal_of(session.terminals, tab.panes[p].terminal_id@) {
        Some(terminal) => Some(
            pane_info_of(
                workspace,
                tab,
                tab.panes[p],
                terminal,
                pane_is_focused(session, w, t, p),
            ),
        ),
        None => None,
    }
}

/// The working directory of the focused pane of a workspace.
pub open spec fn focused_cwd(session: SessionView, w: int) -> Option<String> {
    let workspace = session.workspaces[w];
    let tab = workspace.tabs[workspace.active_tab as int];
    match terminal_of(session.terminals, tab.panes[tab.focused as int].terminal_id@) {
        Some(terminal) => terminal.cwd,
        None => None,
    }
}

/// Finds a terminal.
pub fn terminal_index(terminals: &Vec<TerminalState>, terminal_id: &str) -> (found: Option<usize>)
    ensures
        match found {
            Some(i) => i < terminals@.len() && first_where(
                terminals@,
                terminal_is(terminal_id@),
            ) == Some(i as int),
            None => first_where(terminals@, terminal_is(terminal_id@)) is None,
        },
{
    let mut i: usize = 0;
    while i < terminals.len()
        invariant
            i <= terminals@.len(),
            forall|j: int| 0 <= j < i ==> !terminal_is(terminal_id@)(#[trigger] terminals@[j]),
        decreases terminals@.len() - i,
    {
        if same_text(terminals[i].id.as_str(), terminal_id) {
            proof {
                lemma_first_found(terminals@, terminal_is(terminal_id@), i as int);
            }
            return Some(i);
        }
        i = i + 1;
    }
    proof {
        lemma_first_missing(terminals@, terminal_is(terminal_id@));
    }
    None
}

impl Workspace {
    /// Finds a tab of the workspace.
    pub fn tab_index(&self, tab_id: &str) -> (found: Option<usize>)
        ensures
            match found {
                Some(t) => t < self.tabs@.len() && first_where(self@.tabs, tab_is(tab_id@)) == Some(
                    t as int,
                ),
                None => first_where(self@.tabs, tab_is(tab_id@)) is None,
            },
    {
        let mut t: usize = 0;
        while t < self.tabs.len()
            invariant
                t <= self.tabs@.len(),
                forall|j: int| 0 <= j < t ==> !tab_is(tab_id@)(#[trigger] self@.tabs[j]),
            decreases self.tabs@.len() - t,
        {
            if same_text(self.tabs[t].tab_id.as_str(), tab_id) {
                proof {
                    lemma_first_found(self@.tabs, tab_is(tab_id@), t as int);
                }
                return Some(t);
            }
            t = t + 1;
        }
        proof {
            lemma_first_missing(self@.tabs, tab_is(tab_id@));
        }
        None
    }

    /// How many panes the workspace has, as far as the number can be told.
    pub fn pane_count(&self) -> (count: usize)
        ensures
            count == panes_of_first(self@.tabs, self@.tabs.len()),
    {
        let mut count: usize = 0;
        let mut t: usize = 0;
        while t < self.tabs.len()
            invariant
                t <= self.tabs@.len(),
                count == panes_of_first(self@.tabs, t as nat),
            decreases self.tabs@.len() - t,
        {
            let panes: usize = self.tabs[t].panes.len();
            assert(self@.tabs[t as int].panes.len() == panes);
            count = if panes > usize::MAX - count {
                usize::MAX
            } else {
                count + panes
            };
            t = t + 1;
        }
        count
    }

    /// Whether the workspace has a tab, the active one exists, and so does each
    /// tab's focused pane.
    fn is_sound(&self) -> (sound: bool)
        ensures
            sound == self@.ok(),
    {
        if self.active_tab >= self.tabs.len() {
            return false;
        }
        let mut t: usize = 0;
        while t < self.tabs.len()
            invariant
                t <= self.tabs@.len(),
                self.active_tab < self.tabs@.len(),
                forall|j: int| 0 <= j < t ==> (#[trigger] self@.tabs[j]).ok(),
            decreases self.tabs@.len() - t,
        {
            if self.tabs[t].focused >= self.tabs[t].panes.len() {
                assert(!self@.tabs[t as int].ok());
                return false;
            }
            t = t + 1;
        }
        true
    }
}

impl Session {
    /// A session with nothing in it.
    pub fn new() -> (session: Self)
        ensures
            session@ == (SessionView {
                workspaces: Seq::empty(),
                active: None,
                selected: 0,
                terminals: Seq::empty(),
                plugin_panes: Seq::empty(),
                pane_aliases: Seq::empty(),
                previous_focus: None,
                mode: Mode::Navigate,
                tab_scroll_follow_active: false,
                dirty: false,
            }),
            session@.ok(),
    {
        let session = Session {
            workspaces: Vec::new(),
            active: None,
            selected: 0,
            terminals: Vec::new(),
            plugin_panes: Vec::new(),
            pane_aliases: Vec::new(),
            previous_focus: None,
            mode: Mode::Navigate,
            tab_scroll_follow_active: false,
            dirty: false,
        };
        assert(session@.workspaces =~= Seq::empty());
        assert(session@.terminals =~= Seq::empty());
        assert(session@.plugin_panes =~= Seq::empty());
        assert(session@.pane_aliases =~= Seq::empty());
        session
    }

    /// Whether the session is sound.
    pub fn is_sound(&self) -> (sound: bool)
        ensures
            sound == self@.ok(),
    {
        let mut w: usize = 0;
        while w < self.workspaces.len()
            invariant
                w <= self.workspaces@.len(),
                forall|j: int| 0 <= j < w ==> (#[trigger] self@.workspaces[j]).ok(),
            decreases self.workspaces@.len() - w,
        {
            if !self.workspaces[w].is_sound() {
                assert(!self@.workspaces[w as int].ok());
                return false;
            }
            w = w + 1;
        }
        let active = match self.active {
            Some(active) => active < self.workspaces.len(),
            None => true,
        };
        active && (self.selected < self.workspaces.len() || self.selected == 0)
    }

    /// Finds a workspace.
    pub fn parse_workspace_id(&self, workspace_id: &str) -> (found: Option<usize>)
        ensures
            match found {
                Some(w) => w < self@.workspaces.len() && workspace_place(self@, workspace_id@)
                    == Some(w as int),
                None => workspace_place(self@, workspace_id@) is None,
            },
    {
        let mut w: usize = 0;
        while w < self.workspaces.len()
            invariant
                w <= self.workspaces@.len(),
                forall|j: int|
                    0 <= j < w ==> !workspace_is(workspace_id@)(#[trigger] self@.workspaces[j]),
            decreases self.workspaces@.len() - w,
        {
            if same_text(self.workspaces[w].workspace_id.as_str(), workspace_id) {
                proof {
                    lemma_first_found(
                        self@.workspaces,
                        workspace_is(workspace_id@),
                        w as int,
                    );
                }
                return Some(w);
            }
            w = w + 1;
        }
        proof {
            lemma_first_missing(self@.workspaces, workspace_is(workspace_id@));
        }
        None
    }

    /// Finds a tab.
    pub fn parse_tab_id(&self, tab_id: &str) -> (found: Option<(usize, usize)>)
        ensures
            match found {
                Some((w, t)) => {
                    &&& w < self@.workspaces.len()
                    &&& t < self@.workspaces[w as int].tabs.len()
                    &&& tab_place(self@, tab_id@) == Some((w as int, t as int))
                },
                None => tab_place(self@, tab_id@) is None,
            },
    {
        let mut w: usize = 0;
        while w < self.workspaces.len()
            invariant
                w <= self.workspaces@.len(),
                forall|j: int| 0 <= j < w ==> !has_tab(tab_id@)(#[trigger] self@.workspaces[j]),
            decreases self.workspaces@.len() - w,
        {
            if let Some(t) = self.workspaces[w].tab_index(tab_id) {
                proof {
                    lemma_first_found(self@.workspaces, has_tab(tab_id@), w as int);
                }
                return Some((w, t));
            }
            w = w + 1;
        }
        proof {
            lemma_first_missing(self@.workspaces, has_tab(tab_id@));
        }
        None
    }

    /// What the API tells of a tab.
    pub fn tab_info(&self, w: usize, t: usize) -> (info: TabInfo)
        requires
            w < self@.workspaces.len(),
            t < self@.workspaces[w as int].tabs.len(),
        ensures
            info == tab_info_of(self@, w as int, t as int),
    {
        let workspace = &self.workspaces[w];
        let tab = &workspace.tabs[t];
        let shown = match self.active {
            Some(active) => active == w,
            None => false,
        };
        assert(t < workspace.tabs.len() <= usize::MAX);
        TabInfo {
            tab_id: tab.tab_id.clone(),
            workspace_id: workspace.workspace_id.clone(),
            number: t + 1,
            label: tab.label.clone(),
            focused: shown && workspace.active_tab == t,
            pane_count: tab.panes.len(),
            agent_status: tab.agent_status,
        }
    }

    /// What the API tells of the tabs of a workspace.
    pub fn tab_list_info(&self, w: usize) -> (tabs: Vec<TabInfo>)
        requires
            w < self@.workspaces.len(),
        ensures
            tabs@ == workspace_tabs(self@, w as int),
    {
        let mut tabs: Vec<TabInfo> = Vec::new();
        let mut t: usize = 0;
        while t < self.workspaces[w].tabs.len()
            invariant
                w < self.workspaces@.len(),
                t <= self.workspaces@[w as int].tabs@.len(),
                tabs@.len() == t,
                forall|j: int|
                    0 <= j < t ==> #[trigger] tabs@[j] == tab_info_of(self@, w as int, j),
            decreases self.workspaces@[w as int].tabs@.len() - t,
        {
            tabs.push(self.tab_info(w, t));
            t = t + 1;
        }
        assert(tabs@ =~= workspace_tabs(self@, w as int));
        tabs
    }

    /// What the API tells of all tabs.
    pub fn all_tab_infos(&self) -> (tabs: Vec<TabInfo>)
        ensures
            tabs@ == all_tabs(self@),
    {
        let mut tabs: Vec<TabInfo> = Vec::new();
        let mut w: usize = 0;
        while w < self.workspaces.len()
            invariant
                w <= self.workspaces@.len(),
                tabs@ == tabs_of_first(self@, w as nat),
            decreases self.workspaces@.len() - w,
        {
            let mut more = self.tab_list_info(w);
            tabs.append(&mut more);
            w = w + 1;
        }
        tabs
    }

    /// What the API tells of a workspace.
    pub fn workspace_info(&self, w: usize) -> (info: WorkspaceInfo)
        requires
            w < self@.workspaces.len(),
            self@.workspaces[w as int].ok(),
        ensures
            info == workspace_info_of(self@, w as int),
    {
        let workspace = &self.workspaces[w];
        assert(workspace@ == self@.workspaces[w as int]);
        let focused = match self.active {
            Some(active) => active == w,
            None => false,
        };
        assert(w < self.workspaces.len() <= usize::MAX);
        WorkspaceInfo {
            workspace_id: workspace.workspace_id.clone(),
            number: w + 1,
            label: workspace.label.clone(),
            focused,
            pane_count: workspace.pane_count(),
            tab_count: workspace.tabs.len(),
            active_tab_id: workspace.tabs[workspace.active_tab].tab_id.clone(),
            agent_status: workspace.agent_status,
            worktree: workspace.worktree.clone(),
        }
    }

    /// What the API tells of all workspaces.
    pub fn workspace_list_info(&self) -> (workspaces: Vec<WorkspaceInfo>)
        requires
            self@.ok(),
        ensures
            workspaces@ == all_workspaces(self@),
    {
        let mut workspaces: Vec<WorkspaceInfo> = Vec::new();
        let mut w: usize = 0;
        while w < self.workspaces.len()
            invariant
                self@.ok(),
                w <= self.workspaces@.len(),
                workspaces@.len() == w,
                forall|j: int|
                    0 <= j < w ==> #[trigger] workspaces@[j] == workspace_info_of(self@, j),
            decreases self.workspaces@.len() - w,
        {
            assert(self@.workspaces[w as int].ok());
            workspaces.push(self.workspace_info(w));
            w = w + 1;
        }
        assert(workspaces@ =~= all_workspaces(self@));
        workspaces
    }

    /// What the API tells of a pane, where its terminal exists.
    pub fn pane_info(&self, w: usize, t: usize, p: usize) -> (info: Option<PaneInfo>)
        requires
            w < self@.workspaces.len(),
            t < self@.workspaces[w as int].tabs.len(),
            p < self@.workspaces[w as int].tabs[t as int].panes.len(),
        ensures
            info == pane_info_at(self@, w as int, t as int, p as int),
    {
        let workspace = &self.workspaces[w];
        let tab = &workspace.tabs[t];
        let pane = &tab.panes[p];
        let shown = match self.active {
            Some(active) => active == w && workspace.active_tab == t,
            None => false,
        };
        match terminal_index(&self.terminals, pane.terminal_id.as_str()) {
            Some(i) => {
                let terminal = &self.terminals[i];
                Some(
                    PaneInfo {
                        pane_id: pane.pane_id.clone(),
                        terminal_id: terminal.id.clone(),
                        workspace_id: workspace.workspace_id.clone(),
                        tab_id: tab.tab_id.clone(),
                        focused: shown && tab.focused == p,
                        cwd: terminal.cwd.clone(),
                        foreground_cwd: terminal.foreground_cwd.clone(),
                        label: terminal.manual_label.clone(),
                        agent: terminal.agent.clone(),
                        title: terminal.title.clone(),
                        display_agent: terminal.display_agent.clone(),
                        agent_status: terminal.agent_status,
                        custom_status: terminal.custom_status.clone(),
                        state_labels: terminal.state_labels.clone(),
                        agent_session: terminal.agent_session.clone(),
                        revision: terminal.revision,
                    },
                )
            },
            None => None,
        }
    }

    /// The working directory of the focused pane of a workspace.
    pub fn focused_pane_cwd_in_workspace(&self, w: usize) -> (cwd: Option<String>)
        requires
            w < self@.workspaces.len(),
            self@.workspaces[w as int].ok(),
        ensures
            cwd == focused_cwd(self@, w as int),
    {
        let workspace = &self.workspaces[w];
        assert(workspace@ == self@.workspaces[w as int]);
        assert(workspace@.tabs[workspace.active_tab as int].ok());
        let tab = &workspace.tabs[workspace.active_tab];
        let pane = &tab.panes[tab.focused];
        match terminal_index(&self.terminals, pane.terminal_id.as_str()) {
            Some(i) => self.terminals[i].cwd.clone(),
            None => None,
        }
    }
}

} // verus!
