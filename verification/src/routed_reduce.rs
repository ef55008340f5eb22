//! Taking finished sequences up into the cache.
use vstd::prelude::*;
use crate::remote_source::{
    after_projection, after_tab, after_tab_listing, after_tab_removal, after_tabs_doubted,
    after_workspace, hosts_distinct, updates_keep_hosts_distinct, with_host, HostView,
    RemoteHostKey, RemoteProjectionSnapshot, RemoteProjectionStatus, RemoteSources,
};
use crate::routed_exec::{RoutedCompletion, RoutedRefreshData};
use crate::routed_plan::RoutedApply;
use crate::schema::{LayoutDescription, ResponseResult};
use crate::search::{first_where, lemma_first_found, lemma_first_missing, put};

verus! {

/// Under which generation a host's last completion was taken up.
#[derive(Debug, PartialEq, Eq)]
pub struct ReconciledHost {
    pub key: RemoteHostKey,
    pub generation: u64,
}

pub open spec fn reconciled_for(key: (Seq<char>, Seq<char>)) -> spec_fn(ReconciledHost) -> bool {
    |entry: ReconciledHost| entry.key@ == key
}

/// The generation under which the host's last completion was taken up.
pub open spec fn reconciled_generation(
    entries: Seq<ReconciledHost>,
    key: (Seq<char>, Seq<char>),
) -> Option<u64> {
    match first_where(entries, reconciled_for(key)) {
        Some(i) => Some(entries[i].generation),
        None => None,
    }
}

/// A layout that is known to be unknown.
pub open spec fn no_projection(workspace_id: String, tab_id: Option<String>) -> RemoteProjectionSnapshot {
    RemoteProjectionSnapshot {
        workspace_id,
        tab_id,
        tab_label: None,
        status: RemoteProjectionStatus::Unavailable,
        layout: None,
    }
}

pub fn unavailable_projection(workspace_id: &String, tab_id: Option<String>) -> (snapshot:
    RemoteProjectionSnapshot)
    ensures
        snapshot == no_projection(*workspace_id, tab_id),
{
    RemoteProjectionSnapshot {
        workspace_id: workspace_id.clone(),
        tab_id,
        tab_label: None,
        status: RemoteProjectionStatus::Unavailable,
        layout: None,
    }
}

/// The layout that a refresh of a tab shows: available only with a layout.
pub open spec fn fetched_projection(
    workspace_id: String,
    tab_id: Option<String>,
    tab_label: Option<String>,
    layout: Option<LayoutDescription>,
) -> RemoteProjectionSnapshot {
    RemoteProjectionSnapshot {
        workspace_id,
        tab_id,
        tab_label,
        status: if layout is Some {
            RemoteProjectionStatus::Available
        } else {
            RemoteProjectionStatus::Unavailable
        },
        layout,
    }
}

/// The cache after a refresh.
pub open spec fn after_refresh(
    hosts: Seq<HostView>,
    key: RemoteHostKey,
    refresh: RoutedRefreshData,
) -> Seq<HostView> {
    match refresh.tabs {
        None => after_projection(
            after_tabs_doubted(hosts, key, refresh.workspace_id@),
            key,
            no_projection(refresh.workspace_id, None),
        ),
        Some(tabs) => after_projection(
            after_tab_listing(hosts, key, refresh.workspace_id, tabs@),
            key,
            match refresh.active_tab {
                Some(fetch) => fetched_projection(
                    refresh.workspace_id,
                    fetch.tab_id,
                    fetch.tab_label,
                    fetch.layout,
                ),
                None => no_projection(refresh.workspace_id, None),
            },
        ),
    }
}

/// The cache once the tabs and the layout of a workspace are in doubt.
pub open spec fn after_doubt(
    hosts: Seq<HostView>,
    key: RemoteHostKey,
    workspace_id: Option<String>,
) -> Seq<HostView> {
    match workspace_id {
        Some(workspace_id) => after_projection(
            after_tabs_doubted(hosts, key, workspace_id@),
            key,
            no_projection(workspace_id, None),
        ),
        None => hosts,
    }
}

/// The cache after the result of a change itself.
pub open spec fn after_result(
    hosts: Seq<HostView>,
    key: RemoteHostKey,
    outcome: RoutedCompletion,
) -> Seq<HostView> {
    match (outcome.apply, outcome.success) {
        (RoutedApply::TabUpsert, Some(ResponseResult::TabCreated { tab, .. })) => after_tab(
            hosts,
            key,
            tab,
        ),
        (RoutedApply::TabUpsert, Some(ResponseResult::TabInfo { tab })) => after_tab(
            hosts,
            key,
            tab,
        ),
        (RoutedApply::TabRemove { tab_id }, Some(_)) => match outcome.stale_workspace_id {
            Some(workspace_id) => after_tabs_doubted(
                after_tab_removal(hosts, key, tab_id@),
                key,
                workspace_id@,
            ),
            None => after_tab_removal(hosts, key, tab_id@),
        },
        (RoutedApply::WorkspaceUpsert, Some(ResponseResult::WorkspaceInfo { workspace })) =>
            after_workspace(hosts, key, workspace),
        _ => hosts,
    }
}

/// The cache after a finished sequence: doubt first, then the result, then what
/// the refresh brought.
pub open spec fn after_completion(
    hosts: Seq<HostView>,
    key: RemoteHostKey,
    outcome: RoutedCompletion,
) -> Seq<HostView> {
    let resolved = after_result(after_doubt(hosts, key, outcome.stale_workspace_id), key, outcome);
    match outcome.refresh {
        Some(refresh) => after_refresh(resolved, key, refresh),
        None => resolved,
    }
}

/// Takes a refresh up into the cache.
pub fn apply_routed_refresh(
    sources: &mut RemoteSources,
    key: &RemoteHostKey,
    refresh: RoutedRefreshData,
)
    ensures
        final(sources)@ == after_refresh(old(sources)@, *key, refresh),
{
    let workspace_id = refresh.workspace_id;
    match refresh.tabs {
        Some(tabs) => sources.replace_tab_snapshot(key, &workspace_id, tabs),
        None => {
            sources.mark_tab_snapshot_unavailable(key, &workspace_id);
            sources.upsert_projection_snapshot(key, unavailable_projection(&workspace_id, None));
            return;
        },
    }
    let projection = match refresh.active_tab {
        Some(fetch) => RemoteProjectionSnapshot {
            workspace_id: workspace_id.clone(),
            tab_id: fetch.tab_id,
            tab_label: fetch.tab_label,
            status: if fetch.layout.is_some() {
                RemoteProjectionStatus::Available
            } else {
                RemoteProjectionStatus::Unavailable
            },
            layout: fetch.layout,
        },
        None => unavailable_projection(&workspace_id, None),
    };
    sources.upsert_projection_snapshot(key, projection);
}

/// Records under which generation a host's completion was taken up.
pub fn record_reconciled(entries: &mut Vec<ReconciledHost>, key: &RemoteHostKey, generation: u64)
    ensures
        final(entries)@ == put(
            old(entries)@,
            reconciled_for(key@),
            match first_where(old(entries)@, reconciled_for(key@)) {
                Some(i) => ReconciledHost { generation, ..old(entries)@[i] },
                None => ReconciledHost { key: *key, generation },
            },
        ),
{
    let mut i: usize = 0;
    while i < entries.len()
        invariant
            i <= entries@.len(),
            entries@ == old(entries)@,
            forall|j: int| 0 <= j < i ==> !reconciled_for(key@)(#[trigger] entries@[j]),
        decreases entries@.len() - i,
    {
        if entries[i].key.same(key) {
            proof {
                lemma_first_found(entries@, reconciled_for(key@), i as int);
            }
            entries[i].generation = generation;
            assert(entries@ =~= old(entries)@.update(
                i as int,
                ReconciledHost { generation, ..old(entries)@[i as int] },
            ));
            return;
        }
        i = i + 1;
    }
    proof {
        lemma_first_missing(entries@, reconciled_for(key@));
    }
    entries.push(ReconciledHost { key: key.clone(), generation });
}

/// Takes a finished sequence up into the cache in one step.
pub fn apply_routed_completion(
    sources: &mut RemoteSources,
    reconciled: &mut Vec<ReconciledHost>,
    key: &RemoteHostKey,
    generation: u64,
    outcome: RoutedCompletion,
)
    ensures
        final(sources)@ == after_completion(old(sources)@, *key, outcome),
        final(reconciled)@ == put(
            old(reconciled)@,
            reconciled_for(key@),
            match first_where(old(reconciled)@, reconciled_for(key@)) {
                Some(i) => ReconciledHost { generation, ..old(reconciled)@[i] },
                None => ReconciledHost { key: *key, generation },
            },
        ),
{
    record_reconciled(reconciled, key, generation);
    if let Some(workspace_id) = &outcome.stale_workspace_id {
        sources.mark_tab_snapshot_unavailable(key, workspace_id);
        sources.upsert_projection_snapshot(key, unavailable_projection(workspace_id, None));
    }
    match (outcome.apply, outcome.success) {
        (RoutedApply::TabUpsert, Some(ResponseResult::TabCreated { tab, .. })) => {
            sources.upsert_tab(key, tab);
        },
        (RoutedApply::TabUpsert, Some(ResponseResult::TabInfo { tab })) => {
            sources.upsert_tab(key, tab);
        },
        (RoutedApply::TabRemove { tab_id }, Some(_)) => {
            sources.remove_tab(key, &tab_id);
            if let Some(workspace_id) = &outcome.stale_workspace_id {
                sources.mark_tab_snapshot_unavailable(key, workspace_id);
            }
        },
        (RoutedApply::WorkspaceUpsert, Some(ResponseResult::WorkspaceInfo { workspace })) => {
            sources.upsert_workspace(key, workspace);
        },
        _ => {},
    }
    if let Some(refresh) = outcome.refresh {
        apply_routed_refresh(sources, key, refresh);
    }
}

/// No finished sequence gives a host a second entry in the cache.
pub proof fn completions_keep_hosts_distinct(
    hosts: Seq<HostView>,
    key: RemoteHostKey,
    outcome: RoutedCompletion,
)
    requires
        hosts_distinct(hosts),
    ensures
        hosts_distinct(after_completion(hosts, key, outcome)),
{
    assert forall|before: Seq<HostView>, host: HostView| hosts_distinct(before) implies
        hosts_distinct(#[trigger] with_host(before, host)) by {
        updates_keep_hosts_distinct(before, host);
    }
}

} // verus!
