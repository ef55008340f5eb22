//! How the API answers requests about local tabs and workspaces.
//!
//! A request that names something on a remote host is planned for that host; any
//! other is answered from the local session.
use vstd::prelude::*;
use std::sync::Arc;
use crate::routed_plan::{
    routed_plan, Federation, RoutedPlanOutcome, RoutedPlanView, RoutedSequenceDescriptor,
};
use crate::schema::{
    encode_error, AgentStatus, ErrorBody, ErrorText, Method, Reply, Request, ResponseResult,
    TabCloseParams, TabCreateParams, TabInfo, TabListParams, TabMoveParams, TabRenameParams,
    TabTarget, WorkspaceCreateParams, WorkspaceInfo, WorkspaceMoveParams, WorkspaceRenameParams,
    WorkspaceTarget,
};
use crate::session::{
    all_tabs, all_workspaces, focused_cwd, pane_info_at, tab_info_of, tab_place, workspace_info_of,
    workspace_place, workspace_tabs, Mode, Pane, Session, SessionView, Tab, TabView, TerminalState,
    Workspace, WorkspaceView,
};
use crate::session_change::{
    added_terminals_are_found, after_tab_close, after_tab_move, after_workspace_close,
    after_workspace_move, move_target, showing_tab, showing_workspace, with_new_tab,
    with_new_workspace, with_tab_label, with_terminal, with_workspace_label,
};
use crate::session_marks::{following_tabs, without_alias};
use crate::text::{concat3, decimal, decimal_text};

verus! {

/// What happened to the session, for whoever listens.
#[allow(inconsistent_fields)]
#[derive(Debug, PartialEq, Eq)]
pub enum SessionEvent {
    TabCreated { tab: TabInfo },
    TabRenamed { tab_id: String, workspace_id: String, label: String },
    TabMoved { tab_id: String, workspace_id: String, insert_index: usize, tabs: Vec<TabInfo> },
    TabClosed { tab_id: String, workspace_id: String },
    WorkspaceCreated { workspace: WorkspaceInfo },
    WorkspaceRenamed { workspace_id: String, label: String },
    WorkspaceMoved { workspace_id: String, insert_index: usize, workspaces: Vec<WorkspaceInfo> },
    WorkspaceClosed { workspace_id: String, workspace: Option<WorkspaceInfo> },
}

/// What a [`SessionEvent`] holds.
#[allow(inconsistent_fields)]
#[verifier::ext_equal]
pub enum EventView {
    TabCreated { tab: TabInfo },
    TabRenamed { tab_id: String, workspace_id: String, label: String },
    TabMoved { tab_id: String, workspace_id: String, insert_index: usize, tabs: Seq<TabInfo> },
    TabClosed { tab_id: String, workspace_id: String },
    WorkspaceCreated { workspace: WorkspaceInfo },
    WorkspaceRenamed { workspace_id: String, label: String },
    WorkspaceMoved { workspace_id: String, insert_index: usize, workspaces: Seq<WorkspaceInfo> },
    WorkspaceClosed { workspace_id: String, workspace: Option<WorkspaceInfo> },
}

impl View for SessionEvent {
    type V = EventView;

    open spec fn view(&self) -> EventView {
        match self {
            SessionEvent::TabCreated { tab } => EventView::TabCreated { tab: *tab },
            SessionEvent::TabRenamed { tab_id, workspace_id, label } => EventView::TabRenamed {
                tab_id: *tab_id,
                workspace_id: *workspace_id,
                label: *label,
            },
            SessionEvent::TabMoved { tab_id, workspace_id, insert_index, tabs } => {
                EventView::TabMoved {
                    tab_id: *tab_id,
                    workspace_id: *workspace_id,
                    insert_index: *insert_index,
                    tabs: tabs@,
                }
            },
            SessionEvent::TabClosed { tab_id, workspace_id } => EventView::TabClosed {
                tab_id: *tab_id,
                workspace_id: *workspace_id,
            },
            SessionEvent::WorkspaceCreated { workspace } => EventView::WorkspaceCreated {
                workspace: *workspace,
            },
            SessionEvent::WorkspaceRenamed { workspace_id, label } => EventView::WorkspaceRenamed {
                workspace_id: *workspace_id,
                label: *label,
            },
            SessionEvent::WorkspaceMoved { workspace_id, insert_index, workspaces } => {
                EventView::WorkspaceMoved {
                    workspace_id: *workspace_id,
                    insert_index: *insert_index,
                    workspaces: workspaces@,
                }
            },
            SessionEvent::WorkspaceClosed { workspace_id, workspace } => EventView::WorkspaceClosed {
                workspace_id: *workspace_id,
                workspace: *workspace,
            },
        }
    }
}

/// Where a new terminal starts.
#[derive(Debug, PartialEq, Eq)]
pub enum LaunchDirectory {
    Given(String),
    /// The directory of the terminal that it follows, where that is known.
    Follow(Option<String>),
}

/// A tab to be opened.
#[derive(Debug, PartialEq, Eq)]
pub struct TabLaunch {
    /// Where the workspace stands.
    pub workspace: usize,
    pub workspace_id: String,
    pub directory: LaunchDirectory,
    pub focus: bool,
    pub label: Option<String>,
    pub env: Arc<Vec<(String, String)>>,
}

/// A tab whose terminal runs.
#[derive(Debug, PartialEq, Eq)]
pub struct LaunchedTab {
    pub tab_id: String,
    pub label: String,
    pub pane_id: String,
    pub raw: u32,
    pub terminal: TerminalState,
}

/// A workspace to be opened.
#[derive(Debug, PartialEq, Eq)]
pub struct WorkspaceLaunch {
    pub directory: LaunchDirectory,
    pub focus: bool,
    pub label: Option<String>,
    pub env: Arc<Vec<(String, String)>>,
}

/// A workspace whose terminal runs.
#[derive(Debug, PartialEq, Eq)]
pub struct LaunchedWorkspace {
    pub workspace_id: String,
    pub label: String,
    pub tab: LaunchedTab,
}

/// An answer from the local session.
#[derive(Debug, PartialEq, Eq)]
pub struct LocalReply {
    pub reply: Reply,
    pub event: Option<SessionEvent>,
    /// The session is to be saved.
    pub save: bool,
}

/// What follows a request.
#[derive(Debug, PartialEq, Eq)]
pub enum HandlerStep {
    Answered(LocalReply),
    /// To be run on a remote host.
    Remote(Box<RoutedSequenceDescriptor>),
    LaunchTab(TabLaunch),
    LaunchWorkspace(WorkspaceLaunch),
}

// What replies say -------------------------------------------------------

pub open spec fn event_of(local: LocalReply) -> Option<EventView> {
    match local.event {
        Some(event) => Some(event@),
        None => None,
    }
}

/// The request is answered with this result.
pub open spec fn answers(
    local: LocalReply,
    id: String,
    result: ResponseResult,
    event: Option<EventView>,
    save: bool,
) -> bool {
    local.reply.is_success(id, result) && event_of(local) == event && local.save == save
}

/// The reply lists these tabs.
pub open spec fn lists_tabs(reply: Reply, id: String, tabs: Seq<TabInfo>) -> bool {
    reply matches Reply::Success { id: reply_id, result: ResponseResult::TabList { tabs: listed } }
        && reply_id == id && listed@ == tabs
}

/// The reply lists these workspaces.
pub open spec fn lists_workspaces(reply: Reply, id: String, workspaces: Seq<WorkspaceInfo>) -> bool {
    reply matches Reply::Success {
        id: reply_id,
        result: ResponseResult::WorkspaceList { workspaces: listed },
    } && reply_id == id && listed@ == workspaces
}

/// The request is refused, and nothing else happens.
pub open spec fn refuses(local: LocalReply, id: String, error: ErrorText) -> bool {
    local.reply.is_error(id, error) && local.event is None && !local.save
}

/// The request was not for the local session: it is refused, or it goes to its host.
pub open spec fn goes_remote(step: HandlerStep, id: String, plan: RoutedPlanView) -> bool {
    match plan {
        RoutedPlanView::NotHandled => false,
        RoutedPlanView::Refused(error) => step matches HandlerStep::Answered(local) && refuses(
            local,
            id,
            error,
        ),
        RoutedPlanView::Deferred(descriptor) => step matches HandlerStep::Remote(planned)
            && *planned == descriptor,
    }
}

pub open spec fn workspace_missing(workspace_id: Seq<char>) -> ErrorText {
    ErrorText {
        code: "workspace_not_found"@,
        message: "workspace "@ + workspace_id + " not found"@,
    }
}

pub open spec fn tab_missing(tab_id: Seq<char>) -> ErrorText {
    ErrorText { code: "tab_not_found"@, message: "tab "@ + tab_id + " not found"@ }
}

pub open spec fn out_of_bounds(code: Seq<char>, insert_index: usize) -> ErrorText {
    ErrorText {
        code,
        message: "insert_index "@ + decimal(insert_index as nat) + " is out of bounds"@,
    }
}

pub open spec fn last_tab_error() -> ErrorText {
    ErrorText {
        code: "tab_close_failed"@,
        message: "cannot close the last tab in a workspace"@,
    }
}

pub open spec fn no_active_workspace() -> ErrorText {
    ErrorText { code: "workspace_not_found"@, message: "no active workspace"@ }
}

/// A reply with which nothing else happens.
pub(crate) fn plain(reply: Reply) -> (local: LocalReply)
    ensures
        local == (LocalReply { reply, event: None, save: false }),
{
    LocalReply { reply, event: None, save: false }
}

pub fn workspace_not_found(id: &String, workspace_id: &str) -> (reply: Reply)
    ensures
        reply.is_error(*id, workspace_missing(workspace_id@)),
{
    encode_error(
        id.clone(),
        "workspace_not_found",
        concat3("workspace ", workspace_id, " not found"),
    )
}

pub fn tab_not_found(id: &String, tab_id: &str) -> (reply: Reply)
    ensures
        reply.is_error(*id, tab_missing(tab_id@)),
{
    encode_error(id.clone(), "tab_not_found", concat3("tab ", tab_id, " not found"))
}

fn beyond_bounds(id: &String, code: &str, insert_index: usize) -> (reply: Reply)
    ensures
        reply.is_error(*id, out_of_bounds(code@, insert_index)),
{
    encode_error(
        id.clone(),
        code,
        concat3("insert_index ", decimal_text(insert_index).as_str(), " is out of bounds"),
    )
}

/// Sends a request to the host that it names, where it names one.
fn routed(federation: &Federation, request: &Request) -> (step: Option<HandlerStep>)
    ensures
        match step {
            Some(step) => goes_remote(step, request.id, routed_plan(federation@, *request)),
            None => routed_plan(federation@, *request) is NotHandled,
        },
{
    match federation.plan_remote_routed_mutation(request) {
        RoutedPlanOutcome::NotHandled => None,
        RoutedPlanOutcome::Immediate(reply) => Some(HandlerStep::Answered(plain(reply))),
        RoutedPlanOutcome::Deferred(descriptor) => Some(HandlerStep::Remote(descriptor)),
    }
}

// Tabs -------------------------------------------------------------------

/// Lists the tabs of a workspace, or of all of them.
pub fn handle_tab_list(session: &Session, id: &String, params: &TabListParams) -> (reply: Reply)
    ensures
        match params.workspace_id {
            None => lists_tabs(reply, *id, all_tabs(session@)),
            Some(workspace_id) => match workspace_place(session@, workspace_id@) {
                Some(w) => lists_tabs(reply, *id, workspace_tabs(session@, w)),
                None => reply.is_error(*id, workspace_missing(workspace_id@)),
            },
        },
{
    let tabs = match &params.workspace_id {
        None => session.all_tab_infos(),
        Some(workspace_id) => match session.parse_workspace_id(workspace_id.as_str()) {
            Some(w) => session.tab_list_info(w),
            None => {
                return workspace_not_found(id, workspace_id.as_str());
            },
        },
    };
    Reply::Success { id: id.clone(), result: ResponseResult::TabList { tabs } }
}

/// Tells of one tab.
pub fn handle_tab_get(session: &Session, id: &String, target: &TabTarget) -> (reply: Reply)
    ensures
        match tab_place(session@, target.tab_id@) {
            Some((w, t)) => reply.is_success(
                *id,
                ResponseResult::TabInfo { tab: tab_info_of(session@, w, t) },
            ),
            None => reply.is_error(*id, tab_missing(target.tab_id@)),
        },
{
    match session.parse_tab_id(target.tab_id.as_str()) {
        Some((w, t)) => Reply::Success {
            id: id.clone(),
            result: ResponseResult::TabInfo { tab: session.tab_info(w, t) },
        },
        None => tab_not_found(id, target.tab_id.as_str()),
    }
}

/// Shows a tab.
pub fn handle_tab_focus(
    session: &mut Session,
    federation: &Federation,
    id: &String,
    target: &TabTarget,
) -> (step: HandlerStep)
    requires
        old(session)@.ok(),
    ensures
        final(session)@.ok(),
        ({
            let plan = routed_plan(
                federation@,
                Request { id: *id, method: Method::TabFocus(*target) },
            );
            if plan is NotHandled {
                match tab_place(old(session)@, target.tab_id@) {
                    Some((w, t)) => {
                        &&& final(session)@ == showing_tab(old(session)@, w, t)
                        &&& step matches HandlerStep::Answered(local) && answers(
                            local,
                            *id,
                            ResponseResult::TabInfo { tab: tab_info_of(final(session)@, w, t) },
                            None,
                            false,
                        )
                    },
                    None => {
                        &&& final(session)@ == old(session)@
                        &&& step matches HandlerStep::Answered(local) && refuses(
                            local,
                            *id,
                            tab_missing(target.tab_id@),
                        )
                    },
                }
            } else {
                final(session)@ == old(session)@ && goes_remote(step, *id, plan)
            }
        }),
{
    let request = Request { id: id.clone(), method: Method::TabFocus(target.clone()) };
    if let Some(step) = routed(federation, &request) {
        return step;
    }
    let local = match session.parse_tab_id(target.tab_id.as_str()) {
        Some((w, t)) => {
            session.switch_workspace_tab(w, t);
            plain(
                Reply::Success {
                    id: id.clone(),
                    result: ResponseResult::TabInfo { tab: session.tab_info(w, t) },
                },
            )
        },
        None => plain(tab_not_found(id, target.tab_id.as_str())),
    };
    HandlerStep::Answered(local)
}

/// Renames a tab.
pub fn handle_tab_rename(
    session: &mut Session,
    federation: &Federation,
    id: &String,
    params: &TabRenameParams,
) -> (step: HandlerStep)
    requires
        old(session)@.ok(),
    ensures
        final(session)@.ok(),
        ({
            let plan = routed_plan(
                federation@,
                Request { id: *id, method: Method::TabRename(*params) },
            );
            if plan is NotHandled {
                match tab_place(old(session)@, params.tab_id@) {
                    Some((w, t)) => {
                        &&& final(session)@ == with_tab_label(old(session)@, w, t, params.label)
                        &&& step matches HandlerStep::Answered(local) && answers(
                            local,
                            *id,
                            ResponseResult::TabInfo { tab: tab_info_of(final(session)@, w, t) },
                            Some(
                                EventView::TabRenamed {
                                    tab_id: old(session)@.workspaces[w].tabs[t].tab_id,
                                    workspace_id: old(session)@.workspaces[w].workspace_id,
                                    label: params.label,
                                },
                            ),
                            true,
                        )
                    },
                    None => {
                        &&& final(session)@ == old(session)@
                        &&& step matches HandlerStep::Answered(local) && refuses(
                            local,
                            *id,
                            tab_missing(params.tab_id@),
                        )
                    },
                }
            } else {
                final(session)@ == old(session)@ && goes_remote(step, *id, plan)
            }
        }),
{
    let request = Request { id: id.clone(), method: Method::TabRename(params.clone()) };
    if let Some(step) = routed(federation, &request) {
        return step;
    }
    let local = match session.parse_tab_id(params.tab_id.as_str()) {
        Some((w, t)) => {
            session.rename_tab(w, t, params.label.clone());
            let tab = session.tab_info(w, t);
            let event = SessionEvent::TabRenamed {
                tab_id: tab.tab_id.clone(),
                workspace_id: tab.workspace_id.clone(),
                label: params.label.clone(),
            };
            LocalReply {
                reply: Reply::Success {
                    id: id.clone(),
                    result: ResponseResult::TabInfo { tab },
                },
                event: Some(event),
                save: true,
            }
        },
        None => plain(tab_not_found(id, params.tab_id.as_str())),
    };
    HandlerStep::Answered(local)
}

fn copy_tab_infos(tabs: &Vec<TabInfo>) -> (copy: Vec<TabInfo>)
    ensures
        copy@ == tabs@,
{
    let mut copy: Vec<TabInfo> = Vec::new();
    let mut i: usize = 0;
    while i < tabs.len()
        invariant
            i <= tabs@.len(),
            copy@.len() == i,
            forall|j: int| 0 <= j < i ==> #[trigger] copy@[j] == tabs@[j],
        decreases tabs@.len() - i,
    {
        copy.push(tabs[i].clone());
        i = i + 1;
    }
    assert(copy@ =~= tabs@);
    copy
}

/// Moves a tab within its workspace. The tab keeps its id, and the tab bar follows the
/// active tab where that workspace is shown.
pub fn handle_tab_move(session: &mut Session, id: &String, params: &TabMoveParams) -> (local:
    LocalReply)
    requires
        old(session)@.ok(),
    ensures
        final(session)@.ok(),
        match tab_place(old(session)@, params.tab_id@) {
            None => {
                &&& final(session)@ == old(session)@
                &&& refuses(local, *id, tab_missing(params.tab_id@))
            },
            Some((w, t)) => {
                let workspace = old(session)@.workspaces[w];
                if params.insert_index > workspace.tabs.len() {
                    &&& final(session)@ == old(session)@
                    &&& refuses(local, *id, out_of_bounds("tab_move_failed"@, params.insert_index))
                } else {
                    let changed = move_target(t, params.insert_index as int) != t;
                    let tabs = workspace_tabs(final(session)@, w);
                    let after = after_tab_move(
                        old(session)@,
                        w,
                        t,
                        params.insert_index as int,
                    );
                    &&& final(session)@ == if changed {
                        following_tabs(after, w)
                    } else {
                        after
                    }
                    &&& lists_tabs(local.reply, *id, tabs)
                    &&& local.save == changed
                    &&& event_of(local) == if changed {
                        Some(
                            EventView::TabMoved {
                                tab_id: workspace.tabs[t].tab_id,
                                workspace_id: workspace.workspace_id,
                                insert_index: params.insert_index,
                                tabs,
                            },
                        )
                    } else {
                        None
                    }
                }
            },
        },
{
    let (w, t): (usize, usize) = match session.parse_tab_id(params.tab_id.as_str()) {
        Some(place) => place,
        None => {
            return plain(tab_not_found(id, params.tab_id.as_str()));
        },
    };
    assert(session@.workspaces[w as int].tabs.len() == session.workspaces@[w as int].tabs@.len());
    if params.insert_index > session.workspaces[w].tabs.len() {
        return plain(beyond_bounds(id, "tab_move_failed", params.insert_index));
    }
    let tab_id = session.workspaces[w].tabs[t].tab_id.clone();
    let workspace_id = session.workspaces[w].workspace_id.clone();
    let changed = session.move_tab(w, t, params.insert_index);
    if changed {
        session.follow_active_tab(w);
    }
    let tabs = session.tab_list_info(w);
    let event = if changed {
        Some(
            SessionEvent::TabMoved {
                tab_id,
                workspace_id,
                insert_index: params.insert_index,
                tabs: copy_tab_infos(&tabs),
            },
        )
    } else {
        None
    };
    LocalReply {
        reply: Reply::Success { id: id.clone(), result: ResponseResult::TabList { tabs } },
        event,
        save: changed,
    }
}

/// Closes a tab. The last tab of a workspace is never closed.
pub fn handle_tab_close(
    session: &mut Session,
    federation: &Federation,
    id: &String,
    target: &TabCloseParams,
) -> (step: HandlerStep)
    requires
        old(session)@.ok(),
    ensures
        final(session)@.ok(),
        ({
            let plan = routed_plan(
                federation@,
                Request { id: *id, method: Method::TabClose(*target) },
            );
            if plan is NotHandled {
                step matches HandlerStep::Answered(local) && match tab_place(
                    old(session)@,
                    target.tab_id@,
                ) {
                    None => {
                        &&& final(session)@ == old(session)@
                        &&& refuses(local, *id, tab_missing(target.tab_id@))
                    },
                    Some((w, t)) => if old(session)@.workspaces[w].tabs.len() <= 1 {
                        &&& final(session)@ == old(session)@
                        &&& refuses(local, *id, last_tab_error())
                    } else {
                        &&& final(session)@ == after_tab_close(old(session)@, w, t)
                        &&& answers(
                            local,
                            *id,
                            ResponseResult::Acknowledged,
                            Some(
                                EventView::TabClosed {
                                    tab_id: old(session)@.workspaces[w].tabs[t].tab_id,
                                    workspace_id: old(session)@.workspaces[w].workspace_id,
                                },
                            ),
                            true,
                        )
                    },
                }
            } else {
                final(session)@ == old(session)@ && goes_remote(step, *id, plan)
            }
        }),
{
    let request = Request { id: id.clone(), method: Method::TabClose(target.clone()) };
    if let Some(step) = routed(federation, &request) {
        return step;
    }
    let (w, t): (usize, usize) = match session.parse_tab_id(target.tab_id.as_str()) {
        Some(place) => place,
        None => {
            return HandlerStep::Answered(plain(tab_not_found(id, target.tab_id.as_str())));
        },
    };
    assert(session@.workspaces[w as int].tabs.len() == session.workspaces@[w as int].tabs@.len());
    if session.workspaces[w].tabs.len() <= 1 {
        return HandlerStep::Answered(
            plain(
                encode_error(
                    id.clone(),
                    "tab_close_failed",
                    "cannot close the last tab in a workspace".to_owned(),
                ),
            ),
        );
    }
    let tab_id = session.workspaces[w].tabs[t].tab_id.clone();
    let workspace_id = session.workspaces[w].workspace_id.clone();
    session.close_tab(w, t);
    HandlerStep::Answered(
        LocalReply {
            reply: Reply::Success { id: id.clone(), result: ResponseResult::Acknowledged },
            event: Some(SessionEvent::TabClosed { tab_id, workspace_id }),
            save: true,
        },
    )
}

/// The workspace in which a tab is opened: the one that is named, or the shown one.
pub open spec fn launch_workspace(session: SessionView, workspace_id: Option<String>) -> Result<
    int,
    ErrorText,
> {
    match workspace_id {
        Some(workspace_id) => match workspace_place(session, workspace_id@) {
            Some(w) => Ok(w),
            None => Err(workspace_missing(workspace_id@)),
        },
        None => match session.active {
            Some(active) => Ok(active as int),
            None => Err(no_active_workspace()),
        },
    }
}

/// The tab to open for a request. Without a directory of its own it follows the
/// focused pane of its workspace.
pub open spec fn tab_launch(
    session: SessionView,
    w: int,
    params: TabCreateParams,
    env: Arc<Vec<(String, String)>>,
) -> TabLaunch {
    TabLaunch {
        workspace: w as usize,
        workspace_id: session.workspaces[w].workspace_id,
        directory: match params.cwd {
            Some(cwd) => LaunchDirectory::Given(cwd),
            None => LaunchDirectory::Follow(focused_cwd(session, w)),
        },
        focus: params.focus,
        label: params.label,
        env,
    }
}

/// Plans a new tab. `env` is the request's environment, normalised, or why it was
/// refused.
pub fn handle_tab_create(
    session: &Session,
    federation: &Federation,
    id: &String,
    params: &TabCreateParams,
    env: Result<Arc<Vec<(String, String)>>, ErrorBody>,
) -> (step: HandlerStep)
    requires
        session@.ok(),
    ensures
        ({
            let plan = routed_plan(
                federation@,
                Request { id: *id, method: Method::TabCreate(*params) },
            );
            if plan is NotHandled {
                match (launch_workspace(session@, params.workspace_id), env) {
                    (Err(error), _) => step matches HandlerStep::Answered(local) && refuses(
                        local,
                        *id,
                        error,
                    ),
                    (Ok(_), Err(error)) => step matches HandlerStep::Answered(local) && refuses(
                        local,
                        *id,
                        error@,
                    ),
                    (Ok(w), Ok(env)) => step == HandlerStep::LaunchTab(
                        tab_launch(session@, w, *params, env),
                    ),
                }
            } else {
                goes_remote(step, *id, plan)
            }
        }),
{
    let request = Request { id: id.clone(), method: Method::TabCreate(params.clone()) };
    if let Some(step) = routed(federation, &request) {
        return step;
    }
    let w: usize = match &params.workspace_id {
        Some(workspace_id) => match session.parse_workspace_id(workspace_id.as_str()) {
            Some(w) => w,
            None => {
                return HandlerStep::Answered(
                    plain(workspace_not_found(id, workspace_id.as_str())),
                );
            },
        },
        None => match session.active {
            Some(active) => active,
            None => {
                return HandlerStep::Answered(
                    plain(
                        encode_error(
                            id.clone(),
                            "workspace_not_found",
                            "no active workspace".to_owned(),
                        ),
                    ),
                );
            },
        },
    };
    assert(session@.workspaces[w as int].ok());
    let directory = match &params.cwd {
        Some(cwd) => LaunchDirectory::Given(cwd.clone()),
        None => LaunchDirectory::Follow(session.focused_pane_cwd_in_workspace(w)),
    };
    match env {
        Err(error) => HandlerStep::Answered(plain(Reply::Error { id: id.clone(), error })),
        Ok(env) => HandlerStep::LaunchTab(
            TabLaunch {
                workspace: w,
                workspace_id: session.workspaces[w].workspace_id.clone(),
                directory,
                focus: params.focus,
                label: params.label.clone(),
                env,
            },
        ),
    }
}

/// A tab that was just opened.
pub open spec fn fresh_tab(launched: LaunchedTab, label: Option<String>) -> TabView {
    TabView {
        tab_id: launched.tab_id,
        label: match label {
            Some(label) => label,
            None => launched.label,
        },
        panes: seq![
            Pane {
                pane_id: launched.pane_id,
                raw: launched.raw,
                terminal_id: launched.terminal.id,
            },
        ],
        focused: 0,
        agent_status: AgentStatus::Unknown,
    }
}

/// The session once a tab was opened.
pub open spec fn after_tab_launch(
    session: SessionView,
    w: int,
    launch: TabLaunch,
    launched: LaunchedTab,
) -> SessionView {
    let t = session.workspaces[w].tabs.len() as int;
    let added = with_new_tab(
        with_terminal(without_alias(session, launched.pane_id@), launched.terminal),
        w,
        fresh_tab(launched, launch.label),
    );
    if launch.focus {
        SessionView { mode: Mode::Terminal, ..showing_tab(added, w, t) }
    } else {
        added
    }
}

fn open_tab(launched_tab_id: String, label: String, pane: Pane) -> (tab: Tab)
    ensures
        tab@ == (TabView {
            tab_id: launched_tab_id,
            label,
            panes: seq![pane],
            focused: 0,
            agent_status: AgentStatus::Unknown,
        }),
{
    let panes: Vec<Pane> = vec![pane];
    assert(panes@ =~= seq![pane]);
    Tab {
        tab_id: launched_tab_id,
        label,
        panes,
        focused: 0,
        agent_status: AgentStatus::Unknown,
    }
}

/// Takes what opening a tab came to.
pub fn handle_tab_launched(
    session: &mut Session,
    id: &String,
    launch: TabLaunch,
    outcome: Result<LaunchedTab, String>,
) -> (local: LocalReply)
    requires
        old(session)@.ok(),
    ensures
        final(session)@.ok(),
        match (launch.workspace < old(session)@.workspaces.len(), outcome) {
            (false, _) => {
                &&& final(session)@ == old(session)@
                &&& refuses(
                    local,
                    *id,
                    ErrorText { code: "tab_create_failed"@, message: "workspace disappeared"@ },
                )
            },
            (true, Err(message)) => {
                &&& final(session)@ == old(session)@
                &&& refuses(
                    local,
                    *id,
                    ErrorText { code: "tab_create_failed"@, message: message@ },
                )
            },
            (true, Ok(launched)) => {
                let w = launch.workspace as int;
                let t = old(session)@.workspaces[w].tabs.len() as int;
                let after = after_tab_launch(old(session)@, w, launch, launched);
                &&& final(session)@ == after
                &&& pane_info_at(after, w, t, 0) is Some
                &&& answers(
                    local,
                    *id,
                    ResponseResult::TabCreated {
                        tab: tab_info_of(after, w, t),
                        root_pane: pane_info_at(after, w, t, 0)->0,
                    },
                    Some(EventView::TabCreated { tab: tab_info_of(after, w, t) }),
                    true,
                )
            },
        },
{
    let w: usize = launch.workspace;
    if w >= session.workspaces.len() {
        return plain(
            encode_error(
                id.clone(),
                "tab_create_failed",
                "workspace disappeared".to_owned(),
            ),
        );
    }
    let launched = match outcome {
        Ok(launched) => launched,
        Err(message) => {
            return plain(encode_error(id.clone(), "tab_create_failed", message));
        },
    };
    let ghost before = session@;
    assert(before.workspaces[w as int].tabs.len() == session.workspaces@[w as int].tabs@.len());
    let t: usize = session.workspaces[w].tabs.len();
    let ghost given = launched;
    let label = match launch.label {
        Some(label) => label,
        None => launched.label,
    };
    let pane = Pane {
        pane_id: launched.pane_id,
        raw: launched.raw,
        terminal_id: launched.terminal.id.clone(),
    };
    session.remove_alias_shadowed_by_new_pane(pane.pane_id.as_str());
    session.add_terminal(launched.terminal);
    session.add_tab(w, open_tab(launched.tab_id, label, pane));
    if launch.focus {
        session.switch_workspace_tab(w, t);
        session.mode = Mode::Terminal;
    }
    proof {
        added_terminals_are_found(without_alias(before, given.pane_id@), given.terminal);
    }
    let tab = session.tab_info(w, t);
    match session.pane_info(w, t, 0) {
        Some(root_pane) => LocalReply {
            event: Some(SessionEvent::TabCreated { tab: tab.clone() }),
            reply: Reply::Success {
                id: id.clone(),
                result: ResponseResult::TabCreated { tab, root_pane },
            },
            save: true,
        },
        // The terminal was just added, so the pane is always found.
        None => plain(tab_not_found(id, "")),
    }
}

// Workspaces -------------------------------------------------------------

/// Lists the local workspaces.
pub fn handle_workspace_list(session: &Session, id: &String) -> (reply: Reply)
    requires
        session@.ok(),
    ensures
        lists_workspaces(reply, *id, all_workspaces(session@)),
{
    Reply::Success {
        id: id.clone(),
        result: ResponseResult::WorkspaceList { workspaces: session.workspace_list_info() },
    }
}

/// Lists the local workspaces, for a host that federates with this one.
pub fn handle_workspace_list_local(session: &Session, id: &String) -> (reply: Reply)
    requires
        session@.ok(),
    ensures
        lists_workspaces(reply, *id, all_workspaces(session@)),
{
    handle_workspace_list(session, id)
}

/// Tells of one workspace.
pub fn handle_workspace_get(session: &Session, id: &String, target: &WorkspaceTarget) -> (reply:
    Reply)
    requires
        session@.ok(),
    ensures
        match workspace_place(session@, target.workspace_id@) {
            Some(w) => reply.is_success(
                *id,
                ResponseResult::WorkspaceInfo { workspace: workspace_info_of(session@, w) },
            ),
            None => reply.is_error(*id, workspace_missing(target.workspace_id@)),
        },
{
    match session.parse_workspace_id(target.workspace_id.as_str()) {
        Some(w) => {
            assert(session@.workspaces[w as int].ok());
            Reply::Success {
                id: id.clone(),
                result: ResponseResult::WorkspaceInfo { workspace: session.workspace_info(w) },
            }
        },
        None => workspace_not_found(id, target.workspace_id.as_str()),
    }
}

/// Shows a workspace.
pub fn handle_workspace_focus(session: &mut Session, id: &String, target: &WorkspaceTarget) -> (
    local: LocalReply)
    requires
        old(session)@.ok(),
    ensures
        final(session)@.ok(),
        match workspace_place(old(session)@, target.workspace_id@) {
            Some(w) => {
                &&& final(session)@ == showing_workspace(old(session)@, w)
                &&& answers(
                    local,
                    *id,
                    ResponseResult::WorkspaceInfo {
                        workspace: workspace_info_of(final(session)@, w),
                    },
                    None,
                    false,
                )
            },
            None => {
                &&& final(session)@ == old(session)@
                &&& refuses(local, *id, workspace_missing(target.workspace_id@))
            },
        },
{
    match session.parse_workspace_id(target.workspace_id.as_str()) {
        Some(w) => {
            session.switch_workspace(w);
            assert(session@.workspaces[w as int].ok());
            plain(
                Reply::Success {
                    id: id.clone(),
                    result: ResponseResult::WorkspaceInfo { workspace: session.workspace_info(w) },
                },
            )
        },
        None => plain(workspace_not_found(id, target.workspace_id.as_str())),
    }
}

/// Renames a workspace.
pub fn handle_workspace_rename(
    session: &mut Session,
    federation: &Federation,
    id: &String,
    params: &WorkspaceRenameParams,
) -> (step: HandlerStep)
    requires
        old(session)@.ok(),
    ensures
        final(session)@.ok(),
        ({
            let plan = routed_plan(
                federation@,
                Request { id: *id, method: Method::WorkspaceRename(*params) },
            );
            if plan is NotHandled {
                match workspace_place(old(session)@, params.workspace_id@) {
                    Some(w) => {
                        &&& final(session)@ == with_workspace_label(
                            old(session)@,
                            w,
                            params.label,
                        )
                        &&& step matches HandlerStep::Answered(local) && answers(
                            local,
                            *id,
                            ResponseResult::WorkspaceInfo {
                                workspace: workspace_info_of(final(session)@, w),
                            },
                            Some(
                                EventView::WorkspaceRenamed {
                                    workspace_id: old(session)@.workspaces[w].workspace_id,
                                    label: params.label,
                                },
                            ),
                            true,
                        )
                    },
                    None => {
                        &&& final(session)@ == old(session)@
                        &&& step matches HandlerStep::Answered(local) && refuses(
                            local,
                            *id,
                            workspace_missing(params.workspace_id@),
                        )
                    },
                }
            } else {
                final(session)@ == old(session)@ && goes_remote(step, *id, plan)
            }
        }),
{
    let request = Request { id: id.clone(), method: Method::WorkspaceRename(params.clone()) };
    if let Some(step) = routed(federation, &request) {
        return step;
    }
    let local = match session.parse_workspace_id(params.workspace_id.as_str()) {
        Some(w) => {
            session.rename_workspace(w, params.label.clone());
            assert(session@.workspaces[w as int].ok());
            let workspace = session.workspace_info(w);
            let event = SessionEvent::WorkspaceRenamed {
                workspace_id: workspace.workspace_id.clone(),
                label: params.label.clone(),
            };
            LocalReply {
                reply: Reply::Success {
                    id: id.clone(),
                    result: ResponseResult::WorkspaceInfo { workspace },
                },
                event: Some(event),
                save: true,
            }
        },
        None => plain(workspace_not_found(id, params.workspace_id.as_str())),
    };
    HandlerStep::Answered(local)
}

fn copy_workspace_infos(workspaces: &Vec<WorkspaceInfo>) -> (copy: Vec<WorkspaceInfo>)
    ensures
        copy@ == workspaces@,
{
    let mut copy: Vec<WorkspaceInfo> = Vec::new();
    let mut i: usize = 0;
    while i < workspaces.len()
        invariant
            i <= workspaces@.len(),
            copy@.len() == i,
            forall|j: int| 0 <= j < i ==> #[trigger] copy@[j] == workspaces@[j],
        decreases workspaces@.len() - i,
    {
        copy.push(workspaces[i].clone());
        i = i + 1;
    }
    assert(copy@ =~= workspaces@);
    copy
}

/// Moves a workspace.
pub fn handle_workspace_move(session: &mut Session, id: &String, params: &WorkspaceMoveParams) -> (
    local: LocalReply)
    requires
        old(session)@.ok(),
    ensures
        final(session)@.ok(),
        match workspace_place(old(session)@, params.workspace_id@) {
            None => {
                &&& final(session)@ == old(session)@
                &&& refuses(local, *id, workspace_missing(params.workspace_id@))
            },
            Some(w) => if params.insert_index > old(session)@.workspaces.len() {
                &&& final(session)@ == old(session)@
                &&& refuses(
                    local,
                    *id,
                    out_of_bounds("workspace_move_failed"@, params.insert_index),
                )
            } else {
                let changed = move_target(w, params.insert_index as int) != w;
                let workspaces = all_workspaces(final(session)@);
                &&& final(session)@ == after_workspace_move(
                    old(session)@,
                    w,
                    params.insert_index as int,
                )
                &&& lists_workspaces(local.reply, *id, workspaces)
                &&& local.save == changed
                &&& event_of(local) == if changed {
                    Some(
                        EventView::WorkspaceMoved {
                            workspace_id: old(session)@.workspaces[w].workspace_id,
                            insert_index: params.insert_index,
                            workspaces,
                        },
                    )
                } else {
                    None
                }
            },
        },
{
    let w: usize = match session.parse_workspace_id(params.workspace_id.as_str()) {
        Some(w) => w,
        None => {
            return plain(workspace_not_found(id, params.workspace_id.as_str()));
        },
    };
    if params.insert_index > session.workspaces.len() {
        return plain(beyond_bounds(id, "workspace_move_failed", params.insert_index));
    }
    let workspace_id = session.workspaces[w].workspace_id.clone();
    let changed = session.move_workspace(w, params.insert_index);
    let workspaces = session.workspace_list_info();
    let event = if changed {
        Some(
            SessionEvent::WorkspaceMoved {
                workspace_id,
                insert_index: params.insert_index,
                workspaces: copy_workspace_infos(&workspaces),
            },
        )
    } else {
        None
    };
    LocalReply {
        reply: Reply::Success {
            id: id.clone(),
            result: ResponseResult::WorkspaceList { workspaces },
        },
        event,
        save: changed,
    }
}

/// Closes a workspace. The event tells what it was last; its worktree is left alone.
pub fn handle_workspace_close(session: &mut Session, id: &String, target: &WorkspaceTarget) -> (
    local: LocalReply)
    requires
        old(session)@.ok(),
    ensures
        final(session)@.ok(),
        match workspace_place(old(session)@, target.workspace_id@) {
            None => {
                &&& final(session)@ == old(session)@
                &&& refuses(local, *id, workspace_missing(target.workspace_id@))
            },
            Some(w) => {
                &&& final(session)@ == after_workspace_close(old(session)@, w)
                &&& answers(
                    local,
                    *id,
                    ResponseResult::Acknowledged,
                    Some(
                        EventView::WorkspaceClosed {
                            workspace_id: old(session)@.workspaces[w].workspace_id,
                            workspace: Some(workspace_info_of(old(session)@, w)),
                        },
                    ),
                    true,
                )
            },
        },
{
    let w: usize = match session.parse_workspace_id(target.workspace_id.as_str()) {
        Some(w) => w,
        None => {
            return plain(workspace_not_found(id, target.workspace_id.as_str()));
        },
    };
    assert(session@.workspaces[w as int].ok());
    let workspace = session.workspace_info(w);
    session.close_workspace(w);
    LocalReply {
        reply: Reply::Success { id: id.clone(), result: ResponseResult::Acknowledged },
        event: Some(
            SessionEvent::WorkspaceClosed {
                workspace_id: workspace.workspace_id.clone(),
                workspace: Some(workspace),
            },
        ),
        save: true,
    }
}

/// The workspace to open for a request. Without a directory of its own it follows
/// the focused pane of the shown workspace.
pub open spec fn workspace_launch(
    session: SessionView,
    params: WorkspaceCreateParams,
    env: Arc<Vec<(String, String)>>,
) -> WorkspaceLaunch {
    WorkspaceLaunch {
        directory: match params.cwd {
            Some(cwd) => LaunchDirectory::Given(cwd),
            None => LaunchDirectory::Follow(
                match session.active {
                    Some(active) => focused_cwd(session, active as int),
                    None => None,
                },
            ),
        },
        focus: params.focus,
        label: params.label,
        env,
    }
}

/// Plans a new workspace. `env` is the request's environment, normalised, or why it
/// was refused.
pub fn handle_workspace_create(
    session: &Session,
    id: &String,
    params: &WorkspaceCreateParams,
    env: Result<Arc<Vec<(String, String)>>, ErrorBody>,
) -> (step: HandlerStep)
    requires
        session@.ok(),
    ensures
        match env {
            Err(error) => step matches HandlerStep::Answered(local) && refuses(local, *id, error@),
            Ok(env) => step == HandlerStep::LaunchWorkspace(
                workspace_launch(session@, *params, env),
            ),
        },
{
    let directory = match &params.cwd {
        Some(cwd) => LaunchDirectory::Given(cwd.clone()),
        None => LaunchDirectory::Follow(
            match session.active {
                Some(active) => {
                    assert(session@.workspaces[active as int].ok());
                    session.focused_pane_cwd_in_workspace(active)
                },
                None => None,
            },
        ),
    };
    match env {
        Err(error) => HandlerStep::Answered(plain(Reply::Error { id: id.clone(), error })),
        Ok(env) => HandlerStep::LaunchWorkspace(
            WorkspaceLaunch { directory, focus: params.focus, label: params.label.clone(), env },
        ),
    }
}

/// A workspace that was just opened.
pub open spec fn fresh_workspace(launched: LaunchedWorkspace, label: Option<String>) -> WorkspaceView {
    WorkspaceView {
        workspace_id: launched.workspace_id,
        label: match label {
            Some(label) => label,
            None => launched.label,
        },
        tabs: seq![fresh_tab(launched.tab, None)],
        active_tab: 0,
        worktree: None,
        agent_status: AgentStatus::Unknown,
    }
}

/// The session once a workspace was opened. The first one is always shown.
pub open spec fn after_workspace_launch(
    session: SessionView,
    launched: LaunchedWorkspace,
    label: Option<String>,
    focus: bool,
) -> SessionView {
    let added = with_new_workspace(
        with_terminal(without_alias(session, launched.tab.pane_id@), launched.tab.terminal),
        fresh_workspace(launched, label),
    );
    if focus || session.active is None {
        SessionView {
            mode: Mode::Terminal,
            ..showing_workspace(added, session.workspaces.len() as int)
        }
    } else {
        added
    }
}

impl Session {
    /// Adds a workspace whose terminal runs, and tells where it stands.
    pub fn open_workspace(
        &mut self,
        launched: LaunchedWorkspace,
        label: Option<String>,
        focus: bool,
    ) -> (w: usize)
        requires
            old(self)@.ok(),
        ensures
            final(self)@ == after_workspace_launch(old(self)@, launched, label, focus),
            w == old(self)@.workspaces.len(),
            final(self)@.workspaces.len() == w + 1,
            final(self)@.ok(),
            pane_info_at(final(self)@, w as int, 0, 0) is Some,
    {
        let ghost before = self@;
        let ghost given = launched;
        let w: usize = self.workspaces.len();
        let label = match label {
            Some(label) => label,
            None => launched.label,
        };
        let pane_id = launched.tab.pane_id;
        let pane = Pane {
            pane_id: pane_id.clone(),
            raw: launched.tab.raw,
            terminal_id: launched.tab.terminal.id.clone(),
        };
        let tab = open_tab(launched.tab.tab_id, launched.tab.label, pane);
        let ghost tab_view = tab@;
        let tabs: Vec<Tab> = vec![tab];
        let workspace = Workspace {
            workspace_id: launched.workspace_id,
            label,
            tabs,
            active_tab: 0,
            worktree: None,
            agent_status: AgentStatus::Unknown,
        };
        assert(workspace@.tabs =~= seq![tab_view]);
        let first = self.active.is_none();
        self.remove_alias_shadowed_by_new_pane(pane_id.as_str());
        self.add_terminal(launched.tab.terminal);
        self.add_workspace(workspace);
        if focus || first {
            self.switch_workspace(w);
            self.mode = Mode::Terminal;
        }
        proof {
            added_terminals_are_found(
                without_alias(before, given.tab.pane_id@),
                given.tab.terminal,
            );
        }
        w
    }
}

/// Takes what opening a workspace came to.
pub fn handle_workspace_launched(
    session: &mut Session,
    id: &String,
    launch: WorkspaceLaunch,
    outcome: Result<LaunchedWorkspace, String>,
) -> (local: LocalReply)
    requires
        old(session)@.ok(),
    ensures
        final(session)@.ok(),
        match outcome {
            Err(message) => {
                &&& final(session)@ == old(session)@
                &&& refuses(
                    local,
                    *id,
                    ErrorText { code: "workspace_create_failed"@, message: message@ },
                )
            },
            Ok(launched) => {
                let w = old(session)@.workspaces.len() as int;
                let after = after_workspace_launch(
                    old(session)@,
                    launched,
                    launch.label,
                    launch.focus,
                );
                &&& final(session)@ == after
                &&& pane_info_at(after, w, 0, 0) is Some
                &&& answers(
                    local,
                    *id,
                    ResponseResult::WorkspaceCreated {
                        workspace: workspace_info_of(after, w),
                        tab: tab_info_of(after, w, 0),
                        root_pane: pane_info_at(after, w, 0, 0)->0,
                    },
                    Some(EventView::WorkspaceCreated { workspace: workspace_info_of(after, w) }),
                    true,
                )
            },
        },
{
    let launched = match outcome {
        Ok(launched) => launched,
        Err(message) => {
            return plain(encode_error(id.clone(), "workspace_create_failed", message));
        },
    };
    let w: usize = session.open_workspace(launched, launch.label, launch.focus);
    assert(session@.workspaces[w as int].ok());
    let workspace = session.workspace_info(w);
    let tab = session.tab_info(w, 0);
    match session.pane_info(w, 0, 0) {
        Some(root_pane) => LocalReply {
            event: Some(SessionEvent::WorkspaceCreated { workspace: workspace.clone() }),
            reply: Reply::Success {
                id: id.clone(),
                result: ResponseResult::WorkspaceCreated { workspace, tab, root_pane },
            },
            save: true,
        },
        // The terminal was just added, so the pane is always found.
        None => plain(workspace_not_found(id, "")),
    }
}

} // verus!
