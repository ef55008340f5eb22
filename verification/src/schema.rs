//! The API's requests, replies and the records they carry.
//!
//! Lists that only travel through a request sit behind an [`Arc`], so that a
//! request can be rewritten and forwarded without copying them.
use vstd::prelude::*;
use std::sync::Arc;
use crate::remotes::RemoteLifecycleHostParams;
use crate::remotes::RemoteLifecycleResult;

verus! {

/// What an agent is doing.
#[derive(Debug, Clone, Copy, PartialEq, Eq, Structural)]
pub enum AgentStatus {
    Idle,
    Working,
    Blocked,
    Done,
    Unknown,
}

/// Which part of a terminal a read takes.
#[derive(Debug, Clone, Copy, PartialEq, Eq, Structural)]
pub enum ReadSource {
    Visible,
    Recent,
    RecentUnwrapped,
}

/// How a read renders the terminal's text.
#[derive(Debug, Clone, Copy, PartialEq, Eq, Structural)]
pub enum ReadFormat {
    Text,
    Ansi,
}

/// On which side of a pane a split opens the new one.
#[derive(Debug, Clone, Copy, PartialEq, Eq, Structural)]
pub enum SplitDirection {
    Right,
    Down,
}

/// The direction in which focus moves between panes.
#[derive(Debug, Clone, Copy, PartialEq, Eq, Structural)]
pub enum PaneDirection {
    Left,
    Right,
    Up,
    Down,
}

/// One agent terminal.
#[derive(Debug, PartialEq, Eq)]
pub struct AgentInfo {
    pub terminal_id: String,
    pub name: Option<String>,
    pub agent: Option<String>,
    pub title: Option<String>,
    pub display_agent: Option<String>,
    pub agent_status: AgentStatus,
    pub screen_detection_skipped: bool,
    pub custom_status: Option<String>,
    pub state_labels: Arc<Vec<(String, String)>>,
    pub agent_session: Option<String>,
    pub workspace_id: String,
    pub tab_id: String,
    pub pane_id: String,
    pub focused: bool,
    pub cwd: Option<String>,
    pub foreground_cwd: Option<String>,
    pub revision: u64,
}

impl Clone for AgentInfo {
    fn clone(&self) -> (res: Self)
        ensures
            res == *self,
    {
        AgentInfo {
            terminal_id: self.terminal_id.clone(),
            name: self.name.clone(),
            agent: self.agent.clone(),
            title: self.title.clone(),
            display_agent: self.display_agent.clone(),
            agent_status: self.agent_status,
            screen_detection_skipped: self.screen_detection_skipped,
            custom_status: self.custom_status.clone(),
            state_labels: self.state_labels.clone(),
            agent_session: self.agent_session.clone(),
            workspace_id: self.workspace_id.clone(),
            tab_id: self.tab_id.clone(),
            pane_id: self.pane_id.clone(),
            focused: self.focused,
            cwd: self.cwd.clone(),
            foreground_cwd: self.foreground_cwd.clone(),
            revision: self.revision,
        }
    }
}

/// One pane and the terminal it shows.
#[derive(Debug, PartialEq, Eq)]
pub struct PaneInfo {
    pub pane_id: String,
    pub terminal_id: String,
    pub workspace_id: String,
    pub tab_id: String,
    pub focused: bool,
    pub cwd: Option<String>,
    pub foreground_cwd: Option<String>,
    pub label: Option<String>,
    pub agent: Option<String>,
    pub title: Option<String>,
    pub display_agent: Option<String>,
    pub agent_status: AgentStatus,
    pub custom_status: Option<String>,
    pub state_labels: Arc<Vec<(String, String)>>,
    pub agent_session: Option<String>,
    pub revision: u64,
}

impl Clone for PaneInfo {
    fn clone(&self) -> (res: Self)
        ensures
            res == *self,
    {
        PaneInfo {
            pane_id: self.pane_id.clone(),
            terminal_id: self.terminal_id.clone(),
            workspace_id: self.workspace_id.clone(),
            tab_id: self.tab_id.clone(),
            focused: self.focused,
            cwd: self.cwd.clone(),
            foreground_cwd: self.foreground_cwd.clone(),
            label: self.label.clone(),
            agent: self.agent.clone(),
            title: self.title.clone(),
            display_agent: self.display_agent.clone(),
            agent_status: self.agent_status,
            custom_status: self.custom_status.clone(),
            state_labels: self.state_labels.clone(),
            agent_session: self.agent_session.clone(),
            revision: self.revision,
        }
    }
}

/// One tab of a workspace.
#[derive(Debug, PartialEq, Eq)]
pub struct TabInfo {
    pub tab_id: String,
    pub workspace_id: String,
    pub number: usize,
    pub label: String,
    pub focused: bool,
    pub pane_count: usize,
    pub agent_status: AgentStatus,
}

impl Clone for TabInfo {
    fn clone(&self) -> (res: Self)
        ensures
            res == *self,
    {
        TabInfo {
            tab_id: self.tab_id.clone(),
            workspace_id: self.workspace_id.clone(),
            number: self.number,
            label: self.label.clone(),
            focused: self.focused,
            pane_count: self.pane_count,
            agent_status: self.agent_status,
        }
    }
}

/// The worktree that a workspace was opened on.
#[derive(Debug, PartialEq, Eq)]
pub struct WorktreeInfo {
    pub key: String,
    pub label: String,
    pub repo_root: String,
    pub checkout_path: String,
    pub is_linked_worktree: bool,
}

impl Clone for WorktreeInfo {
    fn clone(&self) -> (res: Self)
        ensures
            res == *self,
    {
        WorktreeInfo {
            key: self.key.clone(),
            label: self.label.clone(),
            repo_root: self.repo_root.clone(),
            checkout_path: self.checkout_path.clone(),
            is_linked_worktree: self.is_linked_worktree,
        }
    }
}

/// One workspace.
#[derive(Debug, PartialEq, Eq)]
pub struct WorkspaceInfo {
    pub workspace_id: String,
    pub number: usize,
    pub label: String,
    pub focused: bool,
    pub pane_count: usize,
    pub tab_count: usize,
    pub active_tab_id: String,
    pub agent_status: AgentStatus,
    pub worktree: Option<WorktreeInfo>,
}

impl Clone for WorkspaceInfo {
    fn clone(&self) -> (res: Self)
        ensures
            res == *self,
    {
        WorkspaceInfo {
            workspace_id: self.workspace_id.clone(),
            number: self.number,
            label: self.label.clone(),
            focused: self.focused,
            pane_count: self.pane_count,
            tab_count: self.tab_count,
            active_tab_id: self.active_tab_id.clone(),
            agent_status: self.agent_status,
            worktree: self.worktree.clone(),
        }
    }
}

/// A leaf of an exported layout.
#[derive(Debug, PartialEq, Eq)]
pub struct LayoutPane {
    pub pane_id: Option<String>,
    pub terminal_id: Option<String>,
    pub label: Option<String>,
}

impl Clone for LayoutPane {
    fn clone(&self) -> (res: Self)
        ensures
            res == *self,
    {
        LayoutPane {
            pane_id: self.pane_id.clone(),
            terminal_id: self.terminal_id.clone(),
            label: self.label.clone(),
        }
    }
}

/// An exported layout: panes, split in two again and again. A split's ratio is
/// kept as the bits of the number it was exported with.
#[derive(Debug, PartialEq, Eq)]
pub enum LayoutNode {
    Pane { pane: LayoutPane },
    Split {
        direction: SplitDirection,
        ratio_bits: u32,
        first: Box<LayoutNode>,
        second: Box<LayoutNode>,
    },
}

impl Clone for LayoutNode {
    fn clone(&self) -> (res: Self)
        ensures
            res == *self,
        decreases *self,
    {
        match self {
            LayoutNode::Pane { pane } => LayoutNode::Pane { pane: pane.clone() },
            LayoutNode::Split { direction, ratio_bits, first, second } => LayoutNode::Split {
                direction: *direction,
                ratio_bits: *ratio_bits,
                first: Box::new((&**first).clone()),
                second: Box::new((&**second).clone()),
            },
        }
    }
}

/// A tab's layout as its host exports it.
#[derive(Debug, PartialEq, Eq)]
pub struct LayoutDescription {
    pub workspace_id: String,
    pub tab_id: String,
    pub zoomed: bool,
    pub focused_pane_id: String,
    pub root: LayoutNode,
}

impl Clone for LayoutDescription {
    fn clone(&self) -> (res: Self)
        ensures
            res == *self,
    {
        LayoutDescription {
            workspace_id: self.workspace_id.clone(),
            tab_id: self.tab_id.clone(),
            zoomed: self.zoomed,
            focused_pane_id: self.focused_pane_id.clone(),
            root: self.root.clone(),
        }
    }
}

/// Names one agent.
#[derive(Debug, PartialEq, Eq)]
pub struct AgentTarget {
    pub target: String,
}

impl Clone for AgentTarget {
    fn clone(&self) -> (res: Self)
        ensures
            res == *self,
    {
        AgentTarget {
            target: self.target.clone(),
        }
    }
}

/// `agent.read`
#[derive(Debug, PartialEq, Eq)]
pub struct AgentReadParams {
    pub target: String,
    pub source: ReadSource,
    pub lines: Option<u32>,
    pub format: ReadFormat,
    pub strip_ansi: bool,
}

impl Clone for AgentReadParams {
    fn clone(&self) -> (res: Self)
        ensures
            res == *self,
    {
        AgentReadParams {
            target: self.target.clone(),
            source: self.source,
            lines: self.lines,
            format: self.format,
            strip_ansi: self.strip_ansi,
        }
    }
}

/// `agent.send`
#[derive(Debug, PartialEq, Eq)]
pub struct AgentSendParams {
    pub target: String,
    pub text: String,
}

impl Clone for AgentSendParams {
    fn clone(&self) -> (res: Self)
        ensures
            res == *self,
    {
        AgentSendParams {
            target: self.target.clone(),
            text: self.text.clone(),
        }
    }
}

/// `agent.submit`
#[derive(Debug, PartialEq, Eq)]
pub struct AgentSubmitParams {
    pub target: String,
    pub text: String,
}

impl Clone for AgentSubmitParams {
    fn clone(&self) -> (res: Self)
        ensures
            res == *self,
    {
        AgentSubmitParams {
            target: self.target.clone(),
            text: self.text.clone(),
        }
    }
}

/// `agent.teardown`
#[derive(Debug, PartialEq, Eq)]
pub struct AgentTeardownParams {
    pub target: String,
    pub confirm: bool,
}

impl Clone for AgentTeardownParams {
    fn clone(&self) -> (res: Self)
        ensures
            res == *self,
    {
        AgentTeardownParams {
            target: self.target.clone(),
            confirm: self.confirm,
        }
    }
}

/// `agent.rename`
#[derive(Debug, PartialEq, Eq)]
pub struct AgentRenameParams {
    pub target: String,
    pub name: Option<String>,
}

impl Clone for AgentRenameParams {
    fn clone(&self) -> (res: Self)
        ensures
            res == *self,
    {
        AgentRenameParams {
            target: self.target.clone(),
            name: self.name.clone(),
        }
    }
}

/// `agent.start`
#[derive(Debug, PartialEq, Eq)]
pub struct AgentStartParams {
    pub host: Option<String>,
    pub name: String,
    pub cwd: Option<String>,
    pub workspace_id: Option<String>,
    pub tab_id: Option<String>,
    pub split: Option<SplitDirection>,
    pub focus: bool,
    pub new_workspace: bool,
    pub argv: Arc<Vec<String>>,
    pub env: Arc<Vec<(String, String)>>,
}

impl Clone for AgentStartParams {
    fn clone(&self) -> (res: Self)
        ensures
            res == *self,
    {
        AgentStartParams {
            host: self.host.clone(),
            name: self.name.clone(),
            cwd: self.cwd.clone(),
            workspace_id: self.workspace_id.clone(),
            tab_id: self.tab_id.clone(),
            split: self.split,
            focus: self.focus,
            new_workspace: self.new_workspace,
            argv: self.argv.clone(),
            env: self.env.clone(),
        }
    }
}

/// Names one pane.
#[derive(Debug, PartialEq, Eq)]
pub struct PaneTarget {
    pub pane_id: String,
}

impl Clone for PaneTarget {
    fn clone(&self) -> (res: Self)
        ensures
            res == *self,
    {
        PaneTarget {
            pane_id: self.pane_id.clone(),
        }
    }
}

/// `pane.focus_direction`
#[derive(Debug, PartialEq, Eq)]
pub struct PaneFocusDirectionParams {
    pub pane_id: Option<String>,
    pub direction: PaneDirection,
}

impl Clone for PaneFocusDirectionParams {
    fn clone(&self) -> (res: Self)
        ensures
            res == *self,
    {
        PaneFocusDirectionParams {
            pane_id: self.pane_id.clone(),
            direction: self.direction,
        }
    }
}

/// `pane.rename`
#[derive(Debug, PartialEq, Eq)]
pub struct PaneRenameParams {
    pub pane_id: String,
    pub label: Option<String>,
}

impl Clone for PaneRenameParams {
    fn clone(&self) -> (res: Self)
        ensures
            res == *self,
    {
        PaneRenameParams {
            pane_id: self.pane_id.clone(),
            label: self.label.clone(),
        }
    }
}

/// `pane.split`
#[derive(Debug, PartialEq, Eq)]
pub struct PaneSplitParams {
    pub workspace_id: Option<String>,
    pub target_pane_id: Option<String>,
    pub direction: SplitDirection,
    pub cwd: Option<String>,
    pub focus: bool,
}

impl Clone for PaneSplitParams {
    fn clone(&self) -> (res: Self)
        ensures
            res == *self,
    {
        PaneSplitParams {
            workspace_id: self.workspace_id.clone(),
            target_pane_id: self.target_pane_id.clone(),
            direction: self.direction,
            cwd: self.cwd.clone(),
            focus: self.focus,
        }
    }
}

/// `pane.close`
#[derive(Debug, PartialEq, Eq)]
pub struct PaneCloseParams {
    pub pane_id: String,
    pub confirm: bool,
}

impl Clone for PaneCloseParams {
    fn clone(&self) -> (res: Self)
        ensures
            res == *self,
    {
        PaneCloseParams {
            pane_id: self.pane_id.clone(),
            confirm: self.confirm,
        }
    }
}

/// `tab.list`
#[derive(Debug, PartialEq, Eq)]
pub struct TabListParams {
    pub workspace_id: Option<String>,
}

impl Clone for TabListParams {
    fn clone(&self) -> (res: Self)
        ensures
            res == *self,
    {
        TabListParams {
            workspace_id: self.workspace_id.clone(),
        }
    }
}

/// Names one tab.
#[derive(Debug, PartialEq, Eq)]
pub struct TabTarget {
    pub tab_id: String,
}

impl Clone for TabTarget {
    fn clone(&self) -> (res: Self)
        ensures
            res == *self,
    {
        TabTarget {
            tab_id: self.tab_id.clone(),
        }
    }
}

/// `tab.create`
#[derive(Debug, PartialEq, Eq)]
pub struct TabCreateParams {
    pub workspace_id: Option<String>,
    pub cwd: Option<String>,
    pub focus: bool,
    pub label: Option<String>,
    pub env: Arc<Vec<(String, String)>>,
}

impl Clone for TabCreateParams {
    fn clone(&self) -> (res: Self)
        ensures
            res == *self,
    {
        TabCreateParams {
            workspace_id: self.workspace_id.clone(),
            cwd: self.cwd.clone(),
            focus: self.focus,
            label: self.label.clone(),
            env: self.env.clone(),
        }
    }
}

/// `tab.close`
#[derive(Debug, PartialEq, Eq)]
pub struct TabCloseParams {
    pub tab_id: String,
    pub confirm: bool,
}

impl Clone for TabCloseParams {
    fn clone(&self) -> (res: Self)
        ensures
            res == *self,
    {
        TabCloseParams {
            tab_id: self.tab_id.clone(),
            confirm: self.confirm,
        }
    }
}

/// `tab.rename`
#[derive(Debug, PartialEq, Eq)]
pub struct TabRenameParams {
    pub tab_id: String,
    pub label: String,
}

impl Clone for TabRenameParams {
    fn clone(&self) -> (res: Self)
        ensures
            res == *self,
    {
        TabRenameParams {
            tab_id: self.tab_id.clone(),
            label: self.label.clone(),
        }
    }
}

/// `tab.move`
#[derive(Debug, PartialEq, Eq)]
pub struct TabMoveParams {
    pub tab_id: String,
    pub insert_index: usize,
}

impl Clone for TabMoveParams {
    fn clone(&self) -> (res: Self)
        ensures
            res == *self,
    {
        TabMoveParams {
            tab_id: self.tab_id.clone(),
            insert_index: self.insert_index,
        }
    }
}

/// Names one workspace.
#[derive(Debug, PartialEq, Eq)]
pub struct WorkspaceTarget {
    pub workspace_id: String,
}

impl Clone for WorkspaceTarget {
    fn clone(&self) -> (res: Self)
        ensures
            res == *self,
    {
        WorkspaceTarget {
            workspace_id: self.workspace_id.clone(),
        }
    }
}

/// `workspace.create`
#[derive(Debug, PartialEq, Eq)]
pub struct WorkspaceCreateParams {
    pub cwd: Option<String>,
    pub focus: bool,
    pub label: Option<String>,
    pub env: Arc<Vec<(String, String)>>,
}

impl Clone for WorkspaceCreateParams {
    fn clone(&self) -> (res: Self)
        ensures
            res == *self,
    {
        WorkspaceCreateParams {
            cwd: self.cwd.clone(),
            focus: self.focus,
            label: self.label.clone(),
            env: self.env.clone(),
        }
    }
}

/// `workspace.rename`
#[derive(Debug, PartialEq, Eq)]
pub struct WorkspaceRenameParams {
    pub workspace_id: String,
    pub label: String,
}

impl Clone for WorkspaceRenameParams {
    fn clone(&self) -> (res: Self)
        ensures
            res == *self,
    {
        WorkspaceRenameParams {
            workspace_id: self.workspace_id.clone(),
            label: self.label.clone(),
        }
    }
}

/// `workspace.move`
#[derive(Debug, PartialEq, Eq)]
pub struct WorkspaceMoveParams {
    pub workspace_id: String,
    pub insert_index: usize,
}

impl Clone for WorkspaceMoveParams {
    fn clone(&self) -> (res: Self)
        ensures
            res == *self,
    {
        WorkspaceMoveParams {
            workspace_id: self.workspace_id.clone(),
            insert_index: self.insert_index,
        }
    }
}

/// What a request asks for.
#[derive(Debug, PartialEq, Eq)]
pub enum Method {
    AgentList,
    AgentListLocal,
    AgentGet(AgentTarget),
    AgentFocus(AgentTarget),
    AgentRename(AgentRenameParams),
    AgentStart(AgentStartParams),
    AgentRead(AgentReadParams),
    AgentSend(AgentSendParams),
    AgentSubmit(AgentSubmitParams),
    AgentTeardown(AgentTeardownParams),
    PaneFocus(PaneTarget),
    PaneFocusDirection(PaneFocusDirectionParams),
    PaneRename(PaneRenameParams),
    PaneSplit(PaneSplitParams),
    PaneClose(PaneCloseParams),
    TabList(TabListParams),
    TabGet(TabTarget),
    TabCreate(TabCreateParams),
    TabFocus(TabTarget),
    TabClose(TabCloseParams),
    TabRename(TabRenameParams),
    TabMove(TabMoveParams),
    WorkspaceList,
    WorkspaceListLocal,
    WorkspaceGet(WorkspaceTarget),
    WorkspaceCreate(WorkspaceCreateParams),
    WorkspaceFocus(WorkspaceTarget),
    WorkspaceRename(WorkspaceRenameParams),
    WorkspaceMove(WorkspaceMoveParams),
    WorkspaceClose(WorkspaceTarget),
    LayoutExport(TabTarget),
    RemoteConnect(RemoteLifecycleHostParams),
    RemoteReconnect(RemoteLifecycleHostParams),
    RemoteDisconnect(RemoteLifecycleHostParams),
}

impl Clone for Method {
    fn clone(&self) -> (res: Self)
        ensures
            res == *self,
    {
        match self {
            Method::AgentList => Method::AgentList,
            Method::AgentListLocal => Method::AgentListLocal,
            Method::AgentGet(params) => Method::AgentGet(params.clone()),
            Method::AgentFocus(params) => Method::AgentFocus(params.clone()),
            Method::AgentRename(params) => Method::AgentRename(params.clone()),
            Method::AgentStart(params) => Method::AgentStart(params.clone()),
            Method::AgentRead(params) => Method::AgentRead(params.clone()),
            Method::AgentSend(params) => Method::AgentSend(params.clone()),
            Method::AgentSubmit(params) => Method::AgentSubmit(params.clone()),
            Method::AgentTeardown(params) => Method::AgentTeardown(params.clone()),
            Method::PaneFocus(params) => Method::PaneFocus(params.clone()),
            Method::PaneFocusDirection(params) => Method::PaneFocusDirection(params.clone()),
            Method::PaneRename(params) => Method::PaneRename(params.clone()),
            Method::PaneSplit(params) => Method::PaneSplit(params.clone()),
            Method::PaneClose(params) => Method::PaneClose(params.clone()),
            Method::TabList(params) => Method::TabList(params.clone()),
            Method::TabGet(params) => Method::TabGet(params.clone()),
            Method::TabCreate(params) => Method::TabCreate(params.clone()),
            Method::TabFocus(params) => Method::TabFocus(params.clone()),
            Method::TabClose(params) => Method::TabClose(params.clone()),
            Method::TabRename(params) => Method::TabRename(params.clone()),
            Method::TabMove(params) => Method::TabMove(params.clone()),
            Method::WorkspaceList => Method::WorkspaceList,
            Method::WorkspaceListLocal => Method::WorkspaceListLocal,
            Method::WorkspaceGet(params) => Method::WorkspaceGet(params.clone()),
            Method::WorkspaceCreate(params) => Method::WorkspaceCreate(params.clone()),
            Method::WorkspaceFocus(params) => Method::WorkspaceFocus(params.clone()),
            Method::WorkspaceRename(params) => Method::WorkspaceRename(params.clone()),
            Method::WorkspaceMove(params) => Method::WorkspaceMove(params.clone()),
            Method::WorkspaceClose(params) => Method::WorkspaceClose(params.clone()),
            Method::LayoutExport(params) => Method::LayoutExport(params.clone()),
            Method::RemoteConnect(params) => Method::RemoteConnect(params.clone()),
            Method::RemoteReconnect(params) => Method::RemoteReconnect(params.clone()),
            Method::RemoteDisconnect(params) => Method::RemoteDisconnect(params.clone()),
        }
    }
}

/// One API request.
#[derive(Debug, PartialEq, Eq)]
pub struct Request {
    pub id: String,
    pub method: Method,
}

impl Clone for Request {
    fn clone(&self) -> (res: Self)
        ensures
            res == *self,
    {
        Request {
            id: self.id.clone(),
            method: self.method.clone(),
        }
    }
}

/// The two texts of an error reply.
#[verifier::ext_equal]
pub struct ErrorText {
    pub code: Seq<char>,
    pub message: Seq<char>,
}

/// Why a request was refused.
#[derive(Debug, PartialEq, Eq)]
pub struct ErrorBody {
    pub code: String,
    pub message: String,
}

impl View for ErrorBody {
    type V = ErrorText;

    open spec fn view(&self) -> ErrorText {
        ErrorText { code: self.code@, message: self.message@ }
    }
}

/// Builds an error from its code and message.
pub fn error_body(code: &str, message: String) -> (body: ErrorBody)
    ensures
        body@ == (ErrorText { code: code@, message: message@ }),
        body.message == message,
{
    ErrorBody { code: code.to_owned(), message }
}

/// The text that a pane read returns.
#[derive(Debug, PartialEq, Eq)]
pub struct PaneReadResult {
    pub pane_id: String,
    pub workspace_id: String,
    pub tab_id: String,
    pub source: ReadSource,
    pub format: ReadFormat,
    pub text: String,
    pub revision: u64,
    pub truncated: bool,
}

/// What a request that succeeded hands back.
#[derive(Debug, PartialEq, Eq)]
pub enum ResponseResult {
    /// Done, with nothing to report.
    Acknowledged,
    AgentInfo { agent: AgentInfo },
    AgentList { agents: Vec<AgentInfo> },
    AgentStarted { agent: AgentInfo, argv: Arc<Vec<String>> },
    PaneRead { read: PaneReadResult },
    TabInfo { tab: TabInfo },
    TabList { tabs: Vec<TabInfo> },
    TabCreated { tab: TabInfo, root_pane: PaneInfo },
    WorkspaceInfo { workspace: WorkspaceInfo },
    WorkspaceList { workspaces: Vec<WorkspaceInfo> },
    WorkspaceCreated { workspace: WorkspaceInfo, tab: TabInfo, root_pane: PaneInfo },
    LayoutExport { layout: LayoutDescription },
    RemoteLifecycle { result: RemoteLifecycleResult },
}

/// The reply to one request: a result, an error, or the text that a remote host
/// answered with, to be handed on as it is.
#[derive(Debug, PartialEq, Eq)]
pub enum Reply {
    Success { id: String, result: ResponseResult },
    Error { id: String, error: ErrorBody },
    Forwarded { text: String },
}

/// What a [`Reply`] holds.
#[verifier::ext_equal]
pub enum ReplyView {
    Success { id: String, result: ResponseResult },
    Error { id: String, error: ErrorText },
    Forwarded { text: Seq<char> },
}

impl View for Reply {
    type V = ReplyView;

    open spec fn view(&self) -> ReplyView {
        match self {
            Reply::Success { id, result } => ReplyView::Success { id: *id, result: *result },
            Reply::Error { id, error } => ReplyView::Error { id: *id, error: error@ },
            Reply::Forwarded { text } => ReplyView::Forwarded { text: text@ },
        }
    }
}

impl Reply {
    /// The error reply to request `id` with these two texts.
    pub open spec fn is_error(self, id: String, error: ErrorText) -> bool {
        self matches Reply::Error { id: reply_id, error: body } && reply_id == id && body@ == error
    }

    /// The success reply to request `id` with this result.
    pub open spec fn is_success(self, id: String, result: ResponseResult) -> bool {
        self == (Reply::Success { id, result })
    }
}

/// Refuses request `id` with a code and a message.
pub fn encode_error(id: String, code: &str, message: String) -> (reply: Reply)
    ensures
        reply.is_error(id, ErrorText { code: code@, message: message@ }),
        reply@ == (ReplyView::Error { id, error: ErrorText { code: code@, message: message@ } }),
{
    Reply::Error { id, error: error_body(code, message) }
}

} // verus!
