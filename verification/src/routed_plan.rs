//! Planning of changes on remote hosts.
//!
//! A change that names something on a configured host is checked against the
//! local cache and, where nothing speaks against it, turned into one sequence
//! for that host: the request itself, rewritten to the host's own identifiers,
//! and then a refresh of what it may have changed. Planning sends nothing.
use vstd::prelude::*;
use vstd::string::*;
use std::sync::Arc;
use crate::remote_helpers::{
    capability_error, not_connected_error, remote_capability_unavailable_body,
    remote_host_connected_or_error, remote_route_plan_error_body, route_error, status_word,
};
use crate::remote_source::{
    capabilities_of, connected, prepared_state_of, HostView, RemoteApiBridgeState, RemoteHostKey,
    RemoteSources,
};
use crate::remote_target::{
    configured, pane_lookup, parse_target_route, resolve_remote_pane_target,
    resolve_remote_tab_target, resolve_remote_workspace_target, route_of, tab_lookup,
    workspace_lookup, PaneLookup, PlannedView, RemoteHostConfig, RemoteHostRegistry,
    RemotePaneResolution, RemoteRoutePlanError, RemoteTabResolution, RemoteTargetSelector,
    RemoteWorkspaceResolution, RouteView, SelectorView, TabLookup, TargetRoute, WorkspaceLookup,
};
use crate::resolve_errors::{
    pane_lookup_error, remote_pane_resolve_error_body, remote_tab_resolve_error_body,
    remote_workspace_resolve_error_body, tab_lookup_error, workspace_lookup_error,
};
use crate::schema::{
    encode_error, ErrorBody, ErrorText, Method, PaneCloseParams, PaneDirection,
    PaneFocusDirectionParams, PaneRenameParams, PaneSplitParams, PaneTarget, Reply, Request,
    TabCloseParams, TabCreateParams, TabRenameParams, TabTarget, WorkspaceRenameParams,
};
use crate::search::{first_where, lemma_first_found, lemma_first_missing};
use crate::server::FederationCapabilities;
use crate::text::{concat3, index_of_char};

verus! {

/// A running supervisor of one host, by the generation it was started under.
#[derive(Debug, PartialEq, Eq)]
pub struct RemoteSourceSupervisorHandle {
    pub host_key: RemoteHostKey,
    pub generation: u64,
}

/// Everything that planning looks at.
#[derive(Debug, PartialEq, Eq)]
pub struct Federation {
    pub remote_hosts: RemoteHostRegistry,
    pub remote_sources: RemoteSources,
    pub supervisors: Vec<RemoteSourceSupervisorHandle>,
}

/// What a [`Federation`] holds.
#[verifier::ext_equal]
pub struct FederationView {
    pub hosts: Seq<RemoteHostConfig>,
    pub sources: Seq<HostView>,
    pub supervisors: Seq<RemoteSourceSupervisorHandle>,
}

impl View for Federation {
    type V = FederationView;

    open spec fn view(&self) -> FederationView {
        FederationView {
            hosts: self.remote_hosts@,
            sources: self.remote_sources@,
            supervisors: self.supervisors@,
        }
    }
}

/// Where the tab to show after a change is taken from.
#[derive(Debug, Clone, Copy, PartialEq, Eq, Structural)]
pub enum PreferredTabFromPrimary {
    /// From nowhere: the focused tab is shown.
    Unset,
    /// From the pane that the change reports.
    PaneInfoTab,
    /// From the tab that the change created.
    TabCreatedTab,
    /// From the tab that the change reports.
    TabInfoTab,
}

/// How the cache takes up the result of a change.
#[derive(Debug, PartialEq, Eq)]
pub enum RoutedApply {
    RefreshOnly,
    TabUpsert,
    TabRemove { tab_id: String },
    WorkspaceUpsert,
    WorkspaceCreate { token: u64 },
}

/// What to refresh after a change.
#[derive(Debug, PartialEq, Eq)]
pub struct RoutedRefreshSpec {
    pub workspace_id: String,
    pub preferred_tab_id: Option<String>,
    pub preferred_from_primary: PreferredTabFromPrimary,
}

/// One change and the refresh after it.
#[derive(Debug, PartialEq, Eq)]
pub struct RoutedSequenceSpec {
    pub primary: Request,
    pub refresh: Option<RoutedRefreshSpec>,
    pub tab_list_capable: bool,
    pub layout_export_capable: bool,
    pub apply: RoutedApply,
}

/// Who waits for the outcome of a sequence.
#[derive(Debug, PartialEq, Eq)]
pub enum CompletionSink {
    /// An API client, by the number under which its reply channel is kept.
    ApiResponder { responder: u64, request_id: String },
    /// The interface, which waits for a new workspace under a token.
    UiCreate { token: u64 },
}

/// One planned sequence, with everything that running it needs.
#[derive(Debug, PartialEq, Eq)]
pub struct RoutedSequenceDescriptor {
    pub host: RemoteHostConfig,
    pub host_key: RemoteHostKey,
    /// The host's supervisor when the sequence was planned.
    pub source_generation: Option<u64>,
    pub bridge_state: Option<Arc<RemoteApiBridgeState>>,
    pub spec: RoutedSequenceSpec,
    pub sink: Option<CompletionSink>,
}

/// What planning a request came to.
#[derive(Debug, PartialEq, Eq)]
pub enum RoutedPlanOutcome {
    /// Not a change on a remote host.
    NotHandled,
    /// Refused.
    Immediate(Reply),
    /// To be queued for the host.
    Deferred(Box<RoutedSequenceDescriptor>),
}

/// What a plan is to be.
pub enum RoutedPlanView {
    NotHandled,
    Refused(ErrorText),
    Deferred(RoutedSequenceDescriptor),
}

/// `outcome` is the plan `view` for request `id`.
pub open spec fn is_routed_plan(
    outcome: RoutedPlanOutcome,
    id: String,
    view: RoutedPlanView,
) -> bool {
    match view {
        RoutedPlanView::NotHandled => outcome is NotHandled,
        RoutedPlanView::Refused(error) => outcome matches RoutedPlanOutcome::Immediate(reply)
            && reply.is_error(id, error),
        RoutedPlanView::Deferred(descriptor) => outcome matches RoutedPlanOutcome::Deferred(
            planned,
        ) && *planned == descriptor,
    }
}

// Routing ----------------------------------------------------------------

/// Where an identifier leads that may or may not be host-qualified: to a host
/// only where the text before its first slash is the alias of one.
pub open spec fn configured_route(hosts: Seq<RemoteHostConfig>, target: Seq<char>) -> PlannedView {
    match target.index_of_first('/') {
        None => PlannedView::Local,
        Some(slash) => match configured(hosts, target.take(slash)) {
            None => PlannedView::Local,
            Some(config) => match route_of(target) {
                RouteView::Local => PlannedView::Local,
                RouteView::Malformed(err) => PlannedView::Malformed(err),
                RouteView::Remote { target: selector, .. } => PlannedView::Remote {
                    host: config,
                    target: selector,
                },
            },
        },
    }
}

/// `route` is where `view` leads.
pub open spec fn is_configured_route(
    route: Result<Option<(RemoteHostConfig, RemoteTargetSelector)>, RemoteRoutePlanError>,
    view: PlannedView,
) -> bool {
    match route {
        Ok(None) => view is Local,
        Ok(Some((host, selector))) => view == (PlannedView::Remote { host, target: selector@ }),
        Err(RemoteRoutePlanError::Parse(err)) => view == PlannedView::Malformed(err),
        Err(RemoteRoutePlanError::UnknownHost(_)) => false,
    }
}

pub fn configured_remote_route_for_target(hosts: &RemoteHostRegistry, target: &str) -> (route:
    Result<Option<(RemoteHostConfig, RemoteTargetSelector)>, RemoteRoutePlanError>)
    ensures
        is_configured_route(route, configured_route(hosts@, target@)),
{
    let slash: usize = match index_of_char(target, '/') {
        None => {
            return Ok(None);
        },
        Some(slash) => slash,
    };
    let alias = target.substring_char(0, slash);
    assert(alias@ =~= target@.take(slash as int));
    match hosts.get(alias) {
        None => Ok(None),
        Some(host) => match parse_target_route(target) {
            Err(err) => Err(RemoteRoutePlanError::Parse(err)),
            Ok(TargetRoute::Local { .. }) => Ok(None),
            Ok(TargetRoute::Remote { target: selector, .. }) => Ok(
                Some((host.clone(), selector)),
            ),
        },
    }
}

/// Without configured hosts, every identifier is local.
pub proof fn everything_is_local_without_hosts(target: Seq<char>)
    ensures
        configured_route(Seq::empty(), target) is Local,
{
    match target.index_of_first('/') {
        Some(slash) => {
            lemma_first_missing(
                Seq::<RemoteHostConfig>::empty(),
                crate::remote_target::host_named(target.take(slash)),
            );
        },
        None => {},
    }
}

// Rewritten requests -----------------------------------------------------

pub fn remote_pane_focus_request(id: String, pane_id: &String) -> (request: Request)
    ensures
        request == (Request { id, method: Method::PaneFocus(PaneTarget { pane_id: *pane_id }) }),
{
    Request { id, method: Method::PaneFocus(PaneTarget { pane_id: pane_id.clone() }) }
}

pub fn remote_pane_focus_direction_request(
    id: String,
    pane_id: &String,
    direction: PaneDirection,
) -> (request: Request)
    ensures
        request == (Request {
            id,
            method: Method::PaneFocusDirection(
                PaneFocusDirectionParams { pane_id: Some(*pane_id), direction },
            ),
        }),
{
    Request {
        id,
        method: Method::PaneFocusDirection(
            PaneFocusDirectionParams { pane_id: Some(pane_id.clone()), direction },
        ),
    }
}

pub fn remote_pane_rename_request(id: String, pane_id: &String, label: Option<String>) -> (request:
    Request)
    ensures
        request == (Request {
            id,
            method: Method::PaneRename(PaneRenameParams { pane_id: *pane_id, label }),
        }),
{
    Request {
        id,
        method: Method::PaneRename(PaneRenameParams { pane_id: pane_id.clone(), label }),
    }
}

pub fn remote_pane_split_request(
    id: String,
    params: PaneSplitParams,
    workspace_id: &String,
    pane_id: &String,
) -> (request: Request)
    ensures
        request == (Request {
            id,
            method: Method::PaneSplit(
                PaneSplitParams {
                    workspace_id: Some(*workspace_id),
                    target_pane_id: Some(*pane_id),
                    ..params
                },
            ),
        }),
{
    Request {
        id,
        method: Method::PaneSplit(
            PaneSplitParams {
                workspace_id: Some(workspace_id.clone()),
                target_pane_id: Some(pane_id.clone()),
                ..params
            },
        ),
    }
}

pub fn remote_pane_close_request(id: String, pane_id: &String) -> (request: Request)
    ensures
        request == (Request {
            id,
            method: Method::PaneClose(PaneCloseParams { pane_id: *pane_id, confirm: true }),
        }),
{
    Request {
        id,
        method: Method::PaneClose(PaneCloseParams { pane_id: pane_id.clone(), confirm: true }),
    }
}

pub fn remote_tab_create_request(id: String, params: TabCreateParams, workspace_id: &String) -> (
    request: Request)
    ensures
        request == (Request {
            id,
            method: Method::TabCreate(
                TabCreateParams { workspace_id: Some(*workspace_id), ..params },
            ),
        }),
{
    Request {
        id,
        method: Method::TabCreate(
            TabCreateParams { workspace_id: Some(workspace_id.clone()), ..params },
        ),
    }
}

pub fn remote_tab_focus_request(id: String, tab_id: &String) -> (request: Request)
    ensures
        request == (Request { id, method: Method::TabFocus(TabTarget { tab_id: *tab_id }) }),
{
    Request { id, method: Method::TabFocus(TabTarget { tab_id: tab_id.clone() }) }
}

/// The forwarded close is always confirmed: an unconfirmed one is refused before
/// it gets here.
pub fn remote_tab_close_request(id: String, tab_id: &String) -> (request: Request)
    ensures
        request == (Request {
            id,
            method: Method::TabClose(TabCloseParams { tab_id: *tab_id, confirm: true }),
        }),
{
    Request {
        id,
        method: Method::TabClose(TabCloseParams { tab_id: tab_id.clone(), confirm: true }),
    }
}

pub fn remote_tab_rename_request(id: String, tab_id: &String, label: String) -> (request: Request)
    ensures
        request == (Request {
            id,
            method: Method::TabRename(TabRenameParams { tab_id: *tab_id, label }),
        }),
{
    Request { id, method: Method::TabRename(TabRenameParams { tab_id: tab_id.clone(), label }) }
}

pub fn remote_workspace_rename_request(id: String, workspace_id: &String, label: String) -> (
    request: Request)
    ensures
        request == (Request {
            id,
            method: Method::WorkspaceRename(
                WorkspaceRenameParams { workspace_id: *workspace_id, label },
            ),
        }),
{
    Request {
        id,
        method: Method::WorkspaceRename(
            WorkspaceRenameParams { workspace_id: workspace_id.clone(), label },
        ),
    }
}

/// A pane request in the host's own identifiers. The forwarded close is always
/// confirmed.
pub open spec fn pane_request(request: Request, workspace_id: String, pane_id: String) -> Request {
    Request {
        id: request.id,
        method: match request.method {
            Method::PaneFocus(_) => Method::PaneFocus(PaneTarget { pane_id }),
            Method::PaneFocusDirection(params) => Method::PaneFocusDirection(
                PaneFocusDirectionParams { pane_id: Some(pane_id), direction: params.direction },
            ),
            Method::PaneRename(params) => Method::PaneRename(
                PaneRenameParams { pane_id, label: params.label },
            ),
            Method::PaneSplit(params) => Method::PaneSplit(
                PaneSplitParams {
                    workspace_id: Some(workspace_id),
                    target_pane_id: Some(pane_id),
                    ..params
                },
            ),
            Method::PaneClose(_) => Method::PaneClose(PaneCloseParams { pane_id, confirm: true }),
            other => other,
        },
    }
}

/// A tab request in the host's own identifiers.
pub open spec fn tab_request(request: Request, tab_id: String) -> Request {
    Request {
        id: request.id,
        method: match request.method {
            Method::TabFocus(_) => Method::TabFocus(TabTarget { tab_id }),
            Method::TabClose(_) => Method::TabClose(TabCloseParams { tab_id, confirm: true }),
            Method::TabRename(params) => Method::TabRename(
                TabRenameParams { tab_id, label: params.label },
            ),
            other => other,
        },
    }
}

/// A request on a workspace in the host's own identifiers.
pub open spec fn workspace_request(request: Request, workspace_id: String) -> Request {
    Request {
        id: request.id,
        method: match request.method {
            Method::TabCreate(params) => Method::TabCreate(
                TabCreateParams { workspace_id: Some(workspace_id), ..params },
            ),
            Method::WorkspaceRename(params) => Method::WorkspaceRename(
                WorkspaceRenameParams { workspace_id, label: params.label },
            ),
            other => other,
        },
    }
}

fn build_pane_request(request: &Request, resolved: &RemotePaneResolution) -> (rewritten: Request)
    ensures
        rewritten == pane_request(*request, resolved.workspace_id, resolved.pane_id),
{
    let id = request.id.clone();
    match &request.method {
        Method::PaneFocus(_) => remote_pane_focus_request(id, &resolved.pane_id),
        Method::PaneFocusDirection(params) => remote_pane_focus_direction_request(
            id,
            &resolved.pane_id,
            params.direction,
        ),
        Method::PaneRename(params) => remote_pane_rename_request(
            id,
            &resolved.pane_id,
            params.label.clone(),
        ),
        Method::PaneSplit(params) => remote_pane_split_request(
            id,
            params.clone(),
            &resolved.workspace_id,
            &resolved.pane_id,
        ),
        Method::PaneClose(_) => remote_pane_close_request(id, &resolved.pane_id),
        _ => request.clone(),
    }
}

fn build_tab_request(request: &Request, resolved: &RemoteTabResolution) -> (rewritten: Request)
    ensures
        rewritten == tab_request(*request, resolved.tab.tab_id),
{
    let id = request.id.clone();
    match &request.method {
        Method::TabFocus(_) => remote_tab_focus_request(id, &resolved.tab.tab_id),
        Method::TabClose(_) => remote_tab_close_request(id, &resolved.tab.tab_id),
        Method::TabRename(params) => remote_tab_rename_request(
            id,
            &resolved.tab.tab_id,
            params.label.clone(),
        ),
        _ => request.clone(),
    }
}

fn build_workspace_request(request: &Request, resolved: &RemoteWorkspaceResolution) -> (rewritten:
    Request)
    ensures
        rewritten == workspace_request(*request, resolved.workspace.workspace_id),
{
    let id = request.id.clone();
    match &request.method {
        Method::TabCreate(params) => remote_tab_create_request(
            id,
            params.clone(),
            &resolved.workspace.workspace_id,
        ),
        Method::WorkspaceRename(params) => remote_workspace_rename_request(
            id,
            &resolved.workspace.workspace_id,
            params.label.clone(),
        ),
        _ => request.clone(),
    }
}

// Descriptors ------------------------------------------------------------

pub open spec fn supervises(key: (Seq<char>, Seq<char>)) -> spec_fn(
    RemoteSourceSupervisorHandle,
) -> bool {
    |handle: RemoteSourceSupervisorHandle| handle.host_key@ == key
}

/// The generation of the host's supervisor, where one runs.
pub open spec fn supervisor_generation(
    supervisors: Seq<RemoteSourceSupervisorHandle>,
    key: (Seq<char>, Seq<char>),
) -> Option<u64> {
    match first_where(supervisors, supervises(key)) {
        Some(i) => Some(supervisors[i].generation),
        None => None,
    }
}

/// The sequence for a change that passed every check.
pub open spec fn descriptor_for(
    federation: FederationView,
    host: RemoteHostConfig,
    primary: Request,
    refresh: Option<RoutedRefreshSpec>,
    apply: RoutedApply,
) -> RoutedSequenceDescriptor {
    let key = host.spec_key();
    let capabilities = capabilities_of(federation.sources, key@);
    RoutedSequenceDescriptor {
        host,
        host_key: key,
        source_generation: supervisor_generation(federation.supervisors, key@),
        bridge_state: prepared_state_of(federation.sources, key@),
        spec: RoutedSequenceSpec {
            primary,
            refresh,
            tab_list_capable: capabilities.tab_list,
            layout_export_capable: capabilities.layout_export,
            apply,
        },
        sink: None,
    }
}

pub open spec fn refresh_of(
    workspace_id: String,
    preferred: PreferredTabFromPrimary,
) -> RoutedRefreshSpec {
    RoutedRefreshSpec {
        workspace_id,
        preferred_tab_id: None,
        preferred_from_primary: preferred,
    }
}

/// What stands between a routed change and its host: the host must be connected
/// and must advertise the method.
pub open spec fn host_refusal(
    federation: FederationView,
    host: RemoteHostConfig,
    noun: Seq<char>,
    capability: Seq<char>,
) -> Option<ErrorText> {
    let key = host.spec_key()@;
    if !connected(federation.sources, key) {
        Some(not_connected_error(host.name@, status_word(federation.sources, key), noun))
    } else if !capabilities_of(federation.sources, key).routes(capability) {
        Some(capability_error(host.name@, capability))
    } else {
        None
    }
}

/// The plan of a change on a pane.
pub open spec fn pane_plan(
    federation: FederationView,
    request: Request,
    host: RemoteHostConfig,
    selector: SelectorView,
    capability: Seq<char>,
    preferred: PreferredTabFromPrimary,
) -> RoutedPlanView {
    match host_refusal(federation, host, "pane"@, capability) {
        Some(error) => RoutedPlanView::Refused(error),
        None => match pane_lookup(federation.sources, host, selector) {
            PaneLookup::One { workspace_id, pane_id } => RoutedPlanView::Deferred(
                descriptor_for(
                    federation,
                    host,
                    pane_request(request, workspace_id, pane_id),
                    Some(refresh_of(workspace_id, preferred)),
                    RoutedApply::RefreshOnly,
                ),
            ),
            other => RoutedPlanView::Refused(pane_lookup_error(other, selector)),
        },
    }
}

/// The plan of a change on a tab. A close is taken up by dropping the tab, the
/// others by recording it.
pub open spec fn tab_plan(
    federation: FederationView,
    request: Request,
    host: RemoteHostConfig,
    selector: SelectorView,
    capability: Seq<char>,
    closes: bool,
) -> RoutedPlanView {
    match host_refusal(federation, host, "tab"@, capability) {
        Some(error) => RoutedPlanView::Refused(error),
        None => match tab_lookup(federation.sources, host, selector) {
            TabLookup::One { workspace_id, tab } => RoutedPlanView::Deferred(
                descriptor_for(
                    federation,
                    host,
                    tab_request(request, tab.tab_id),
                    Some(
                        refresh_of(
                            workspace_id,
                            if closes {
                                PreferredTabFromPrimary::Unset
                            } else {
                                PreferredTabFromPrimary::TabInfoTab
                            },
                        ),
                    ),
                    if closes {
                        RoutedApply::TabRemove { tab_id: tab.tab_id }
                    } else {
                        RoutedApply::TabUpsert
                    },
                ),
            ),
            other => RoutedPlanView::Refused(tab_lookup_error(other, selector)),
        },
    }
}

/// The plan of a new tab in a workspace.
pub open spec fn tab_create_plan(
    federation: FederationView,
    request: Request,
    host: RemoteHostConfig,
    selector: SelectorView,
) -> RoutedPlanView {
    match host_refusal(federation, host, "tab"@, FederationCapabilities::TAB_CREATE@) {
        Some(error) => RoutedPlanView::Refused(error),
        None => match workspace_lookup(federation.sources, host, selector) {
            WorkspaceLookup::One(workspace) => RoutedPlanView::Deferred(
                descriptor_for(
                    federation,
                    host,
                    workspace_request(request, workspace.workspace_id),
                    Some(
                        refresh_of(
                            workspace.workspace_id,
                            PreferredTabFromPrimary::TabCreatedTab,
                        ),
                    ),
                    RoutedApply::TabUpsert,
                ),
            ),
            other => RoutedPlanView::Refused(workspace_lookup_error(other, selector)),
        },
    }
}

/// The plan of a workspace rename, after which nothing is refreshed.
pub open spec fn workspace_rename_plan(
    federation: FederationView,
    request: Request,
    host: RemoteHostConfig,
    selector: SelectorView,
) -> RoutedPlanView {
    match host_refusal(federation, host, "workspace"@, FederationCapabilities::WORKSPACE_RENAME@) {
        Some(error) => RoutedPlanView::Refused(error),
        None => match workspace_lookup(federation.sources, host, selector) {
            WorkspaceLookup::One(workspace) => RoutedPlanView::Deferred(
                descriptor_for(
                    federation,
                    host,
                    workspace_request(request, workspace.workspace_id),
                    None,
                    RoutedApply::WorkspaceUpsert,
                ),
            ),
            other => RoutedPlanView::Refused(workspace_lookup_error(other, selector)),
        },
    }
}

/// The refusal of an unconfirmed close of a remote pane.
pub open spec fn pane_close_unconfirmed() -> ErrorText {
    ErrorText {
        code: "confirmation_required"@,
        message: "pane.close on a remote pane is destructive; pass confirm: true to proceed"@,
    }
}

/// The refusal of an unconfirmed close of a remote tab.
pub open spec fn tab_close_unconfirmed(tab_id: Seq<char>) -> ErrorText {
    ErrorText {
        code: "confirmation_required"@,
        message: "tab.close on remote target "@ + tab_id
            + " is destructive; pass confirm=true to proceed"@,
    }
}

/// The identifier by which a change is routed, where it has one. A split goes by
/// its pane, and without one by its workspace.
pub open spec fn routed_target(method: Method) -> Option<String> {
    match method {
        Method::PaneFocus(target) => Some(target.pane_id),
        Method::PaneFocusDirection(params) => params.pane_id,
        Method::PaneRename(params) => Some(params.pane_id),
        Method::PaneSplit(params) => match params.target_pane_id {
            Some(pane_id) => Some(pane_id),
            None => params.workspace_id,
        },
        Method::PaneClose(params) => Some(params.pane_id),
        Method::TabCreate(params) => params.workspace_id,
        Method::TabFocus(target) => Some(target.tab_id),
        Method::TabClose(params) => Some(params.tab_id),
        Method::TabRename(params) => Some(params.tab_id),
        Method::WorkspaceRename(params) => Some(params.workspace_id),
        _ => None,
    }
}

/// The plan of a change on a known host. The confirmation of a close comes
/// before everything else about the host.
pub open spec fn host_plan(
    federation: FederationView,
    request: Request,
    host: RemoteHostConfig,
    selector: SelectorView,
) -> RoutedPlanView {
    match request.method {
        Method::PaneFocus(_) => pane_plan(
            federation,
            request,
            host,
            selector,
            FederationCapabilities::PANE_FOCUS@,
            PreferredTabFromPrimary::Unset,
        ),
        Method::PaneFocusDirection(_) => pane_plan(
            federation,
            request,
            host,
            selector,
            FederationCapabilities::PANE_FOCUS_DIRECTION@,
            PreferredTabFromPrimary::Unset,
        ),
        Method::PaneRename(_) => pane_plan(
            federation,
            request,
            host,
            selector,
            FederationCapabilities::PANE_RENAME@,
            PreferredTabFromPrimary::Unset,
        ),
        Method::PaneSplit(_) => pane_plan(
            federation,
            request,
            host,
            selector,
            FederationCapabilities::PANE_SPLIT@,
            PreferredTabFromPrimary::PaneInfoTab,
        ),
        Method::PaneClose(params) => if !params.confirm {
            RoutedPlanView::Refused(pane_close_unconfirmed())
        } else {
            pane_plan(
                federation,
                request,
                host,
                selector,
                FederationCapabilities::PANE_CLOSE@,
                PreferredTabFromPrimary::Unset,
            )
        },
        Method::TabCreate(_) => tab_create_plan(federation, request, host, selector),
        Method::TabFocus(_) => tab_plan(
            federation,
            request,
            host,
            selector,
            FederationCapabilities::TAB_FOCUS@,
            false,
        ),
        Method::TabClose(params) => if !params.confirm {
            RoutedPlanView::Refused(tab_close_unconfirmed(params.tab_id@))
        } else {
            tab_plan(
                federation,
                request,
                host,
                selector,
                FederationCapabilities::TAB_CLOSE@,
                true,
            )
        },
        Method::TabRename(_) => tab_plan(
            federation,
            request,
            host,
            selector,
            FederationCapabilities::TAB_RENAME@,
            false,
        ),
        Method::WorkspaceRename(_) => workspace_rename_plan(federation, request, host, selector),
        _ => RoutedPlanView::NotHandled,
    }
}

/// The plan of a request: not handled unless it is a change on a configured
/// host.
pub open spec fn routed_plan(federation: FederationView, request: Request) -> RoutedPlanView {
    match routed_target(request.method) {
        None => RoutedPlanView::NotHandled,
        Some(target) => match configured_route(federation.hosts, target@) {
            PlannedView::Remote { host, target: selector } => host_plan(
                federation,
                request,
                host,
                selector,
            ),
            PlannedView::Malformed(err) => RoutedPlanView::Refused(
                route_error(PlannedView::Malformed(err)),
            ),
            _ => RoutedPlanView::NotHandled,
        },
    }
}

fn routed_target_of(method: &Method) -> (target: Option<&String>)
    ensures
        match target {
            Some(target) => routed_target(*method) == Some(*target),
            None => routed_target(*method) is None,
        },
{
    match method {
        Method::PaneFocus(target) => Some(&target.pane_id),
        Method::PaneFocusDirection(params) => params.pane_id.as_ref(),
        Method::PaneRename(params) => Some(&params.pane_id),
        Method::PaneSplit(params) => match &params.target_pane_id {
            Some(pane_id) => Some(pane_id),
            None => params.workspace_id.as_ref(),
        },
        Method::PaneClose(params) => Some(&params.pane_id),
        Method::TabCreate(params) => params.workspace_id.as_ref(),
        Method::TabFocus(target) => Some(&target.tab_id),
        Method::TabClose(params) => Some(&params.tab_id),
        Method::TabRename(params) => Some(&params.tab_id),
        Method::WorkspaceRename(params) => Some(&params.workspace_id),
        _ => None,
    }
}

fn refuse(id: &String, error: ErrorBody) -> (outcome: RoutedPlanOutcome)
    ensures
        is_routed_plan(outcome, *id, RoutedPlanView::Refused(error@)),
{
    RoutedPlanOutcome::Immediate(Reply::Error { id: id.clone(), error })
}

impl Federation {
    /// The generation of the host's supervisor, where one runs.
    pub fn supervisor_generation_of(&self, key: &RemoteHostKey) -> (generation: Option<u64>)
        ensures
            generation == supervisor_generation(self@.supervisors, key@),
    {
        let mut i: usize = 0;
        while i < self.supervisors.len()
            invariant
                i <= self.supervisors@.len(),
                forall|j: int| 0 <= j < i ==> !supervises(key@)(#[trigger] self.supervisors@[j]),
            decreases self.supervisors@.len() - i,
        {
            if self.supervisors[i].host_key.same(key) {
                proof {
                    lemma_first_found(self.supervisors@, supervises(key@), i as int);
                }
                return Some(self.supervisors[i].generation);
            }
            i = i + 1;
        }
        proof {
            lemma_first_missing(self.supervisors@, supervises(key@));
        }
        None
    }

    /// Captures what running the sequence needs.
    pub fn finalize_mutation_descriptor(
        &self,
        host: &RemoteHostConfig,
        primary: Request,
        refresh: Option<RoutedRefreshSpec>,
        apply: RoutedApply,
    ) -> (outcome: RoutedPlanOutcome)
        ensures
            is_routed_plan(
                outcome,
                primary.id,
                RoutedPlanView::Deferred(descriptor_for(self@, *host, primary, refresh, apply)),
            ),
    {
        let host_key = host.key();
        let bridge_state = self.remote_sources.connected_bridge_state(&host_key);
        let source_generation = self.supervisor_generation_of(&host_key);
        let capabilities = self.remote_sources.host_capabilities(&host_key);
        RoutedPlanOutcome::Deferred(
            Box::new(
                RoutedSequenceDescriptor {
                    host: host.clone(),
                    host_key,
                    source_generation,
                    bridge_state,
                    spec: RoutedSequenceSpec {
                        primary,
                        refresh,
                        tab_list_capable: capabilities.tab_list,
                        layout_export_capable: capabilities.layout_export,
                        apply,
                    },
                    sink: None,
                },
            ),
        )
    }

    /// Refuses unless the host is connected and advertises `capability`.
    fn check_host(&self, host: &RemoteHostConfig, noun: &str, capability: &str) -> (refusal: Option<
        ErrorBody,
    >)
        ensures
            match refusal {
                Some(body) => host_refusal(self@, *host, noun@, capability@) == Some(body@),
                None => host_refusal(self@, *host, noun@, capability@) is None,
            },
    {
        match remote_host_connected_or_error(&self.remote_sources, host, noun) {
            Err(body) => Some(body),
            Ok(key) => if self.remote_sources.host_capabilities(&key).supports_route_method(
                capability,
            ) {
                None
            } else {
                Some(remote_capability_unavailable_body(host.name.as_str(), capability))
            },
        }
    }

    pub fn build_pane_descriptor(
        &self,
        request: &Request,
        host: &RemoteHostConfig,
        selector: &RemoteTargetSelector,
        capability: &str,
        preferred: PreferredTabFromPrimary,
    ) -> (outcome: RoutedPlanOutcome)
        ensures
            is_routed_plan(
                outcome,
                request.id,
                pane_plan(self@, *request, *host, selector@, capability@, preferred),
            ),
    {
        if let Some(body) = self.check_host(host, "pane", capability) {
            return refuse(&request.id, body);
        }
        match resolve_remote_pane_target(&self.remote_sources, host, selector) {
            Err(err) => refuse(&request.id, remote_pane_resolve_error_body(err)),
            Ok(resolved) => {
                let primary = build_pane_request(request, &resolved);
                let refresh = RoutedRefreshSpec {
                    workspace_id: resolved.workspace_id,
                    preferred_tab_id: None,
                    preferred_from_primary: preferred,
                };
                self.finalize_mutation_descriptor(
                    host,
                    primary,
                    Some(refresh),
                    RoutedApply::RefreshOnly,
                )
            },
        }
    }

    pub fn build_tab_descriptor(
        &self,
        request: &Request,
        host: &RemoteHostConfig,
        selector: &RemoteTargetSelector,
        capability: &str,
        closes: bool,
    ) -> (outcome: RoutedPlanOutcome)
        ensures
            is_routed_plan(
                outcome,
                request.id,
                tab_plan(self@, *request, *host, selector@, capability@, closes),
            ),
    {
        if let Some(body) = self.check_host(host, "tab", capability) {
            return refuse(&request.id, body);
        }
        match resolve_remote_tab_target(&self.remote_sources, host, selector) {
            Err(err) => refuse(&request.id, remote_tab_resolve_error_body(err)),
            Ok(resolved) => {
                let primary = build_tab_request(request, &resolved);
                let apply = if closes {
                    RoutedApply::TabRemove { tab_id: resolved.tab.tab_id.clone() }
                } else {
                    RoutedApply::TabUpsert
                };
                let refresh = RoutedRefreshSpec {
                    workspace_id: resolved.workspace_id,
                    preferred_tab_id: None,
                    preferred_from_primary: if closes {
                        PreferredTabFromPrimary::Unset
                    } else {
                        PreferredTabFromPrimary::TabInfoTab
                    },
                };
                self.finalize_mutation_descriptor(host, primary, Some(refresh), apply)
            },
        }
    }

    pub fn build_tab_workspace_descriptor(
        &self,
        request: &Request,
        host: &RemoteHostConfig,
        selector: &RemoteTargetSelector,
    ) -> (outcome: RoutedPlanOutcome)
        ensures
            is_routed_plan(
                outcome,
                request.id,
                tab_create_plan(self@, *request, *host, selector@),
            ),
    {
        if let Some(body) = self.check_host(host, "tab", FederationCapabilities::TAB_CREATE) {
            return refuse(&request.id, body);
        }
        match resolve_remote_workspace_target(&self.remote_sources, host, selector) {
            Err(err) => refuse(&request.id, remote_workspace_resolve_error_body(err)),
            Ok(resolved) => {
                let primary = build_workspace_request(request, &resolved);
                let refresh = RoutedRefreshSpec {
                    workspace_id: resolved.workspace.workspace_id,
                    preferred_tab_id: None,
                    preferred_from_primary: PreferredTabFromPrimary::TabCreatedTab,
                };
                self.finalize_mutation_descriptor(
                    host,
                    primary,
                    Some(refresh),
                    RoutedApply::TabUpsert,
                )
            },
        }
    }

    pub fn build_workspace_descriptor(
        &self,
        request: &Request,
        host: &RemoteHostConfig,
        selector: &RemoteTargetSelector,
    ) -> (outcome: RoutedPlanOutcome)
        ensures
            is_routed_plan(
                outcome,
                request.id,
                workspace_rename_plan(self@, *request, *host, selector@),
            ),
    {
        if let Some(body) = self.check_host(
            host,
            "workspace",
            FederationCapabilities::WORKSPACE_RENAME,
        ) {
            return refuse(&request.id, body);
        }
        match resolve_remote_workspace_target(&self.remote_sources, host, selector) {
            Err(err) => refuse(&request.id, remote_workspace_resolve_error_body(err)),
            Ok(resolved) => {
                let primary = build_workspace_request(request, &resolved);
                self.finalize_mutation_descriptor(host, primary, None, RoutedApply::WorkspaceUpsert)
            },
        }
    }

    /// Plans a change on a known host.
    pub fn plan_on_host(
        &self,
        request: &Request,
        host: &RemoteHostConfig,
        selector: &RemoteTargetSelector,
    ) -> (outcome: RoutedPlanOutcome)
        ensures
            is_routed_plan(outcome, request.id, host_plan(self@, *request, *host, selector@)),
    {
        match &request.method {
            Method::PaneFocus(_) => self.build_pane_descriptor(
                request,
                host,
                selector,
                FederationCapabilities::PANE_FOCUS,
                PreferredTabFromPrimary::Unset,
            ),
            Method::PaneFocusDirection(_) => self.build_pane_descriptor(
                request,
                host,
                selector,
                FederationCapabilities::PANE_FOCUS_DIRECTION,
                PreferredTabFromPrimary::Unset,
            ),
            Method::PaneRename(_) => self.build_pane_descriptor(
                request,
                host,
                selector,
                FederationCapabilities::PANE_RENAME,
                PreferredTabFromPrimary::Unset,
            ),
            Method::PaneSplit(_) => self.build_pane_descriptor(
                request,
                host,
                selector,
                FederationCapabilities::PANE_SPLIT,
                PreferredTabFromPrimary::PaneInfoTab,
            ),
            Method::PaneClose(params) => {
                if !params.confirm {
                    return RoutedPlanOutcome::Immediate(
                        encode_error(
                            request.id.clone(),
                            "confirmation_required",
                            "pane.close on a remote pane is destructive; pass confirm: true to proceed".to_owned(),
                        ),
                    );
                }
                self.build_pane_descriptor(
                    request,
                    host,
                    selector,
                    FederationCapabilities::PANE_CLOSE,
                    PreferredTabFromPrimary::Unset,
                )
            },
            Method::TabCreate(_) => self.build_tab_workspace_descriptor(request, host, &selector),
            Method::TabFocus(_) => self.build_tab_descriptor(
                request,
                host,
                selector,
                FederationCapabilities::TAB_FOCUS,
                false,
            ),
            Method::TabClose(params) => {
                if !params.confirm {
                    return RoutedPlanOutcome::Immediate(
                        encode_error(
                            request.id.clone(),
                            "confirmation_required",
                            concat3(
                                "tab.close on remote target ",
                                params.tab_id.as_str(),
                                " is destructive; pass confirm=true to proceed",
                            ),
                        ),
                    );
                }
                self.build_tab_descriptor(
                    request,
                    host,
                    selector,
                    FederationCapabilities::TAB_CLOSE,
                    true,
                )
            },
            Method::TabRename(_) => self.build_tab_descriptor(
                request,
                host,
                selector,
                FederationCapabilities::TAB_RENAME,
                false,
            ),
            Method::WorkspaceRename(_) => self.build_workspace_descriptor(request, host, &selector),
            _ => RoutedPlanOutcome::NotHandled,
        }
    }

    /// Plans one request. Nothing is sent and nothing is changed.
    pub fn plan_remote_routed_mutation(&self, request: &Request) -> (outcome: RoutedPlanOutcome)
        ensures
            is_routed_plan(outcome, request.id, routed_plan(self@, *request)),
    {
        let target = match routed_target_of(&request.method) {
            None => {
                return RoutedPlanOutcome::NotHandled;
            },
            Some(target) => target,
        };
        let route = configured_remote_route_for_target(&self.remote_hosts, target.as_str());
        let (host, selector) = match route {
            Err(err) => {
                return refuse(&request.id, remote_route_plan_error_body(err));
            },
            Ok(None) => {
                return RoutedPlanOutcome::NotHandled;
            },
            Ok(Some(route)) => route,
        };
        self.plan_on_host(request, &host, &selector)
    }
}

} // verus!
