//! Changes on remote hosts that the client waits for.
//!
//! A change is sent; where the host did it, the cache takes its result up at once
//! and is then refreshed: the workspace's tabs are listed, and the layout of the
//! tab that is now active is exported. Sending and reading answers is done
//! elsewhere; the functions here say what to send next and what each answer does
//! to the cache.
use vstd::prelude::*;
use crate::json::json_tree;
use crate::remote_helpers::{
    bridge_reply, bridge_reply_view, print_response, printed, rewrite_remote_response_id_value,
    text_response_for, text_result, BridgeError,
};
use crate::remote_source::{
    after_projection, after_tab, after_tab_listing, after_tab_removal, after_tabs_doubted,
    after_workspace, capabilities_of, tab_index, tab_named, HostView, RemoteHostKey,
    RemoteProjectionSnapshot, RemoteProjectionStatus, RemoteSources,
};
use crate::routed_plan::RoutedSequenceDescriptor;
use crate::routed_reduce::{fetched_projection, no_projection, unavailable_projection};
use crate::schema::{
    LayoutDescription, Method, Reply, Request, ResponseResult, TabInfo, TabListParams, TabTarget,
};
use crate::search::{first_where, lemma_first_found, lemma_first_missing};

verus! {

/// What to refresh after a change.
#[derive(Debug, PartialEq, Eq)]
pub struct RefreshTarget {
    pub workspace_id: String,
    /// The tab that is shown where the host reports none as focused.
    pub preferred_tab_id: Option<String>,
}

// The change -------------------------------------------------------------

/// Reads the answer to a change, under the client's own request identifier.
pub fn primary_answered(id: &String, bridged: Result<String, BridgeError>) -> (answered: Result<
    serde_json::Value,
    Reply,
>)
    ensures
        match text_result(bridged) {
            Err(err) => answered matches Err(reply) && reply@ == bridge_reply_view(*id, Err(err)),
            Ok(text) => match text_response_for(text, id@) {
                Err(err) => answered matches Err(reply) && reply@ == bridge_reply_view(
                    *id,
                    Err(err),
                ),
                Ok(tree) => answered matches Ok(value) && json_tree(value) == tree,
            },
        },
{
    let text = match bridged {
        Ok(text) => text,
        Err(err) => {
            return Err(bridge_reply(id.clone(), Err(err)));
        },
    };
    match rewrite_remote_response_id_value(text.as_str(), id.as_str()) {
        Ok(value) => Ok(value),
        Err(err) => Err(bridge_reply(id.clone(), Err(err))),
    }
}

/// The reply that hands the host's answer on.
pub fn primary_reply(id: &String, value: &serde_json::Value) -> (reply: Reply)
    ensures
        reply@ == bridge_reply_view(*id, printed(Ok(json_tree(*value)))),
{
    bridge_reply(id.clone(), print_response(value))
}

pub open spec fn refresh_workspace(descriptor: RoutedSequenceDescriptor) -> Option<String> {
    match descriptor.spec.refresh {
        Some(refresh) => Some(refresh.workspace_id),
        None => None,
    }
}

/// The cache after a change, and what to refresh then. `success` is the result,
/// where the host did it.
pub open spec fn after_primary(
    hosts: Seq<HostView>,
    descriptor: RoutedSequenceDescriptor,
    success: Option<ResponseResult>,
) -> (Seq<HostView>, Option<RefreshTarget>) {
    let key = descriptor.host_key;
    match (descriptor.spec.primary.method, success) {
        (Method::TabCreate(_), Some(ResponseResult::TabCreated { tab, .. })) => (
            after_tab(hosts, key, tab),
            Some(
                RefreshTarget {
                    workspace_id: tab.workspace_id,
                    preferred_tab_id: Some(tab.tab_id),
                },
            ),
        ),
        (Method::TabFocus(_), Some(ResponseResult::TabInfo { tab })) => (
            after_tab(hosts, key, tab),
            Some(
                RefreshTarget {
                    workspace_id: tab.workspace_id,
                    preferred_tab_id: Some(tab.tab_id),
                },
            ),
        ),
        (Method::TabRename(params), Some(ResponseResult::TabInfo { tab })) => (
            after_tab(hosts, key, tab),
            match refresh_workspace(descriptor) {
                Some(workspace_id) => Some(
                    RefreshTarget { workspace_id, preferred_tab_id: Some(params.tab_id) },
                ),
                None => None,
            },
        ),
        (Method::TabClose(params), Some(_)) => match refresh_workspace(descriptor) {
            Some(workspace_id) => (
                after_tabs_doubted(
                    after_tab_removal(hosts, key, params.tab_id@),
                    key,
                    workspace_id@,
                ),
                Some(RefreshTarget { workspace_id, preferred_tab_id: None }),
            ),
            None => (after_tab_removal(hosts, key, params.tab_id@), None),
        },
        (Method::WorkspaceRename(_), Some(ResponseResult::WorkspaceInfo { workspace })) => (
            after_workspace(hosts, key, workspace),
            None,
        ),
        _ => (hosts, None),
    }
}

/// Takes the result of a change up into the cache.
pub fn primary_applied(
    sources: &mut RemoteSources,
    descriptor: &RoutedSequenceDescriptor,
    success: Option<ResponseResult>,
) -> (refresh: Option<RefreshTarget>)
    ensures
        (final(sources)@, refresh) == after_primary(old(sources)@, *descriptor, success),
{
    let key = &descriptor.host_key;
    let workspace_id = match &descriptor.spec.refresh {
        Some(refresh) => Some(refresh.workspace_id.clone()),
        None => None,
    };
    match (&descriptor.spec.primary.method, success) {
        (Method::TabCreate(_), Some(ResponseResult::TabCreated { tab, .. })) => {
            let refresh = RefreshTarget {
                workspace_id: tab.workspace_id.clone(),
                preferred_tab_id: Some(tab.tab_id.clone()),
            };
            sources.upsert_tab(key, tab);
            Some(refresh)
        },
        (Method::TabFocus(_), Some(ResponseResult::TabInfo { tab })) => {
            let refresh = RefreshTarget {
                workspace_id: tab.workspace_id.clone(),
                preferred_tab_id: Some(tab.tab_id.clone()),
            };
            sources.upsert_tab(key, tab);
            Some(refresh)
        },
        (Method::TabRename(params), Some(ResponseResult::TabInfo { tab })) => {
            sources.upsert_tab(key, tab);
            match workspace_id {
                Some(workspace_id) => Some(
                    RefreshTarget { workspace_id, preferred_tab_id: Some(params.tab_id.clone()) },
                ),
                None => None,
            }
        },
        (Method::TabClose(params), Some(_)) => {
            sources.remove_tab(key, &params.tab_id);
            match workspace_id {
                Some(workspace_id) => {
                    sources.mark_tab_snapshot_unavailable(key, &workspace_id);
                    Some(RefreshTarget { workspace_id, preferred_tab_id: None })
                },
                None => None,
            }
        },
        (Method::WorkspaceRename(_), Some(ResponseResult::WorkspaceInfo { workspace })) => {
            sources.upsert_workspace(key, workspace);
            None
        },
        _ => None,
    }
}

// The refresh ------------------------------------------------------------

/// `request` asks for the tabs of a workspace.
pub open spec fn is_tab_list_request(request: Request, workspace_id: String) -> bool {
    &&& request.id@ == "remote-source.tab-list"@
    &&& request.method == Method::TabList(TabListParams { workspace_id: Some(workspace_id) })
}

pub fn tab_list_request(workspace_id: &String) -> (request: Request)
    ensures
        is_tab_list_request(request, *workspace_id),
{
    Request {
        id: "remote-source.tab-list".to_owned(),
        method: Method::TabList(TabListParams { workspace_id: Some(workspace_id.clone()) }),
    }
}

/// `request` asks for the layout of a tab.
pub open spec fn is_layout_request(request: Request, tab_id: String) -> bool {
    &&& request.id@ == "remote-source.layout-export"@
    &&& request.method == Method::LayoutExport(TabTarget { tab_id })
}

pub fn layout_export_request(tab_id: &String) -> (request: Request)
    ensures
        is_layout_request(request, *tab_id),
{
    Request {
        id: "remote-source.layout-export".to_owned(),
        method: Method::LayoutExport(TabTarget { tab_id: tab_id.clone() }),
    }
}

/// Starts a refresh. Without a request to send, the host does not list tabs: what
/// is cached of them may have changed.
pub fn refresh_started(
    sources: &mut RemoteSources,
    key: &RemoteHostKey,
    target: &RefreshTarget,
) -> (request: Option<Request>)
    ensures
        capabilities_of(old(sources)@, key@).tab_list ==> *final(sources) == *old(sources) && (
        request matches Some(request) && is_tab_list_request(request, target.workspace_id)),
        !capabilities_of(old(sources)@, key@).tab_list ==> request is None && final(sources)@
            == after_tabs_doubted(old(sources)@, *key, target.workspace_id@),
{
    if !sources.host_capabilities(key).tab_list {
        sources.mark_tab_snapshot_unavailable(key, &target.workspace_id);
        return None;
    }
    Some(tab_list_request(&target.workspace_id))
}

pub open spec fn focused_tab() -> spec_fn(TabInfo) -> bool {
    |tab: TabInfo| tab.focused
}

/// The tab that is now active: the focused one, or else the preferred one, or
/// else the first.
pub open spec fn active_tab(tabs: Seq<TabInfo>, preferred: Option<String>) -> Option<int> {
    match first_where(tabs, focused_tab()) {
        Some(i) => Some(i),
        None => {
            let named = match preferred {
                Some(tab_id) => first_where(tabs, tab_named(tab_id@)),
                None => None,
            };
            match named {
                Some(i) => Some(i),
                None => if tabs.len() > 0 {
                    Some(0)
                } else {
                    None
                },
            }
        },
    }
}

fn focused_index(tabs: &Vec<TabInfo>) -> (found: Option<usize>)
    ensures
        match found {
            Some(i) => i < tabs@.len() && first_where(tabs@, focused_tab()) == Some(i as int),
            None => first_where(tabs@, focused_tab()) is None,
        },
{
    let mut i: usize = 0;
    while i < tabs.len()
        invariant
            i <= tabs@.len(),
            forall|j: int| 0 <= j < i ==> !focused_tab()(#[trigger] tabs@[j]),
        decreases tabs@.len() - i,
    {
        if tabs[i].focused {
            proof {
                lemma_first_found(tabs@, focused_tab(), i as int);
            }
            return Some(i);
        }
        i = i + 1;
    }
    proof {
        lemma_first_missing(tabs@, focused_tab());
    }
    None
}

/// Finds the tab that is now active.
pub fn active_tab_index(tabs: &Vec<TabInfo>, preferred: &Option<String>) -> (found: Option<usize>)
    ensures
        match found {
            Some(i) => i < tabs@.len() && active_tab(tabs@, *preferred) == Some(i as int),
            None => active_tab(tabs@, *preferred) is None,
        },
{
    if let Some(i) = focused_index(tabs) {
        return Some(i);
    }
    if let Some(tab_id) = preferred {
        if let Some(i) = tab_index(tabs, tab_id) {
            return Some(i);
        }
    }
    if tabs.len() > 0 {
        Some(0)
    } else {
        None
    }
}

/// The tab whose layout is to be exported.
#[derive(Debug, PartialEq, Eq)]
pub struct LayoutLeg {
    pub workspace_id: String,
    pub tab_id: String,
    pub tab_label: String,
}

/// The cache once the tabs of a workspace were asked for, and the layout to
/// export then. Where nothing was listed, `tabs` is `None`.
pub open spec fn after_listing(
    hosts: Seq<HostView>,
    key: RemoteHostKey,
    target: RefreshTarget,
    tabs: Option<Seq<TabInfo>>,
) -> (Seq<HostView>, Option<LayoutLeg>) {
    match tabs {
        None => (
            after_projection(
                after_tabs_doubted(hosts, key, target.workspace_id@),
                key,
                no_projection(target.workspace_id, target.preferred_tab_id),
            ),
            None,
        ),
        Some(tabs) => {
            let listed = after_tab_listing(hosts, key, target.workspace_id, tabs);
            match active_tab(tabs, target.preferred_tab_id) {
                None => (
                    after_projection(listed, key, no_projection(target.workspace_id, None)),
                    None,
                ),
                Some(i) => if capabilities_of(hosts, key@).layout_export {
                    (
                        listed,
                        Some(
                            LayoutLeg {
                                workspace_id: target.workspace_id,
                                tab_id: tabs[i].tab_id,
                                tab_label: tabs[i].label,
                            },
                        ),
                    )
                } else {
                    (
                        after_projection(
                            listed,
                            key,
                            fetched_projection(
                                target.workspace_id,
                                Some(tabs[i].tab_id),
                                Some(tabs[i].label),
                                None,
                            ),
                        ),
                        None,
                    )
                },
            }
        },
    }
}

/// Takes a listing of tabs up into the cache. The result names the layout to
/// export next.
pub fn tabs_listed(
    sources: &mut RemoteSources,
    key: &RemoteHostKey,
    target: &RefreshTarget,
    tabs: Option<Vec<TabInfo>>,
) -> (leg: Option<LayoutLeg>)
    ensures
        (final(sources)@, leg) == after_listing(
            old(sources)@,
            *key,
            *target,
            match tabs {
                Some(tabs) => Some(tabs@),
                None => None,
            },
        ),
{
    let tabs = match tabs {
        Some(tabs) => tabs,
        None => {
            sources.mark_tab_snapshot_unavailable(key, &target.workspace_id);
            sources.upsert_projection_snapshot(
                key,
                unavailable_projection(&target.workspace_id, target.preferred_tab_id.clone()),
            );
            return None;
        },
    };
    let exports = sources.host_capabilities(key).layout_export;
    let active = match active_tab_index(&tabs, &target.preferred_tab_id) {
        Some(i) => Some((tabs[i].tab_id.clone(), tabs[i].label.clone())),
        None => None,
    };
    sources.replace_tab_snapshot(key, &target.workspace_id, tabs);
    match active {
        None => {
            sources.upsert_projection_snapshot(
                key,
                unavailable_projection(&target.workspace_id, None),
            );
            None
        },
        Some((tab_id, tab_label)) => {
            let workspace_id = target.workspace_id.clone();
            if exports {
                return Some(LayoutLeg { workspace_id, tab_id, tab_label });
            }
            sources.upsert_projection_snapshot(
                key,
                RemoteProjectionSnapshot {
                    workspace_id,
                    tab_id: Some(tab_id),
                    tab_label: Some(tab_label),
                    status: RemoteProjectionStatus::Unavailable,
                    layout: None,
                },
            );
            None
        },
    }
}

/// Takes an exported layout up into the cache; `None` where none was exported.
pub fn layout_exported(
    sources: &mut RemoteSources,
    key: &RemoteHostKey,
    leg: LayoutLeg,
    layout: Option<LayoutDescription>,
)
    ensures
        final(sources)@ == after_projection(
            old(sources)@,
            *key,
            fetched_projection(leg.workspace_id, Some(leg.tab_id), Some(leg.tab_label), layout),
        ),
{
    let status = if layout.is_some() {
        RemoteProjectionStatus::Available
    } else {
        RemoteProjectionStatus::Unavailable
    };
    sources.upsert_projection_snapshot(
        key,
        RemoteProjectionSnapshot {
            workspace_id: leg.workspace_id,
            tab_id: Some(leg.tab_id),
            tab_label: Some(leg.tab_label),
            status,
            layout,
        },
    );
}

// Laws -------------------------------------------------------------------

/// A listing leads to an active tab unless it is empty, and that tab is the
/// focused one where one is focused.
pub proof fn listings_have_an_active_tab(tabs: Seq<TabInfo>, preferred: Option<String>)
    ensures
        active_tab(tabs, preferred) is None <==> tabs.len() == 0,
        active_tab(tabs, preferred) matches Some(i) ==> 0 <= i < tabs.len(),
        (exists|i: int| 0 <= i < tabs.len() && (#[trigger] tabs[i]).focused) ==> tabs[active_tab(
            tabs,
            preferred,
        )->0].focused,
{
    crate::search::lemma_first_holds(tabs, focused_tab());
    if let Some(tab_id) = preferred {
        crate::search::lemma_first_holds(tabs, tab_named(tab_id@));
    }
    if tabs.len() == 0 {
        lemma_first_missing(tabs, focused_tab());
    }
}

/// A change that the host did not do leaves the cache as it is and is followed
/// by no refresh.
pub proof fn failed_changes_keep_the_cache(
    hosts: Seq<HostView>,
    descriptor: RoutedSequenceDescriptor,
)
    ensures
        after_primary(hosts, descriptor, None) == (hosts, None::<RefreshTarget>),
{
}

/// A host that does not export layouts is never asked for one.
pub proof fn unadvertised_exports_are_not_sent(
    hosts: Seq<HostView>,
    key: RemoteHostKey,
    target: RefreshTarget,
    tabs: Option<Seq<TabInfo>>,
)
    ensures
        after_listing(hosts, key, target, tabs).1 is Some ==> capabilities_of(
            hosts,
            key@,
        ).layout_export,
{
}

} // verus!
