//! What the cache of the remote hosts says after a report, said of what is read from it.
use vstd::prelude::*;
use crate::remote_calls::{active_tab, after_listing, after_primary, focused_tab, RefreshTarget};
use crate::remote_source::{
    after_projection, after_status, after_tab, after_tab_listing, after_tab_removal,
    after_tabs_doubted, after_workspace, all_entries, cached_host, capabilities_of, host_entries,
    host_is, host_or_fresh, lemma_host_or_fresh_key, other_tabs, projection_for, projection_of,
    tab_named, tabs_for, tabs_of, updates_read_back, with_host, workspace_named, HostView,
    RemoteAgentEntry, RemoteConnectionStatus, RemoteHostKey, RemoteProjectionSnapshot,
    RemoteProjectionStatus, RemoteSpaceKey, TabsView,
};
use crate::routed_exec::{RoutedCompletion, RoutedRefreshData};
use crate::routed_plan::{RoutedApply, RoutedSequenceDescriptor};
use crate::routed_reduce::{after_completion, after_doubt, after_refresh, after_result};
use crate::schema::{Method, ResponseResult, TabInfo, WorkspaceInfo};
use crate::search::{
    element_where, first_where, lemma_first_found, lemma_first_holds, lemma_first_missing,
    lemma_put_found, lemma_put_others, put,
};

verus! {

/// The workspace of that identifier on a host.
pub open spec fn space_on(key: RemoteHostKey, workspace_id: String) -> RemoteSpaceKey {
    RemoteSpaceKey { host: key.host, session: key.session, workspace_id }
}

/// Only the entry of one host differs between two states of the cache.
pub open spec fn keeps_other_hosts(
    before: Seq<HostView>,
    after: Seq<HostView>,
    key: RemoteHostKey,
) -> bool {
    forall|other: RemoteHostKey|
        other.host@ != key.host@ || other.session@ != key.session@ ==> #[trigger] cached_host(
            after,
            other@,
        ) == cached_host(before, other@)
}

proof fn lemma_updated(hosts: Seq<HostView>, key: RemoteHostKey, host: HostView)
    requires
        host.key@ == key@,
    ensures
        cached_host(with_host(hosts, host), key@) == Some(host),
        keeps_other_hosts(hosts, with_host(hosts, host), key),
{
    updates_read_back(hosts, host, key@);
    let after = with_host(hosts, host);
    assert forall|other: RemoteHostKey|
        other.host@ != key.host@ || other.session@ != key.session@ implies #[trigger] cached_host(
        after,
        other@,
    ) == cached_host(hosts, other@) by {
        updates_read_back(hosts, host, other@);
    }
}

// Reports ----------------------------------------------------------------

/// A host of which something is reported for the first time is otherwise empty: not
/// connected, with nothing listed, advertised or prepared.
pub proof fn first_reports_start_from_nothing(hosts: Seq<HostView>, key: RemoteHostKey)
    requires
        cached_host(hosts, key@) is None,
    ensures
        ({
            let host = host_or_fresh(hosts, key);
            &&& host.key == key
            &&& host.status is Disconnected
            &&& host.agents.len() == 0 && host.tabs.len() == 0 && host.projections.len() == 0
            &&& host.workspaces is None && host.bridge_state is None
            &&& !host.capabilities.tab_list && !host.capabilities.layout_export
                && !host.capabilities.terminal_session_stream && !host.capabilities.tab_create
                && !host.capabilities.tab_focus && !host.capabilities.tab_close
                && !host.capabilities.tab_rename && !host.capabilities.pane_split
                && !host.capabilities.pane_close && !host.capabilities.pane_rename
                && !host.capabilities.pane_focus && !host.capabilities.pane_focus_direction
                && !host.capabilities.workspace_create && !host.capabilities.workspace_rename
                && !host.capabilities.workspace_list_local
        }),
{
}

/// A reported status is the host's status from then on. What was prepared stays only
/// while the host is connected; everything else that is known of it stays, and no other
/// host changes.
pub proof fn statuses_read_back(
    hosts: Seq<HostView>,
    key: RemoteHostKey,
    status: RemoteConnectionStatus,
)
    ensures
        ({
            let before = host_or_fresh(hosts, key);
            let after = cached_host(after_status(hosts, key, status), key@);
            &&& after is Some
            &&& after->0.status == status
            &&& after->0.bridge_state == (if status is Connected {
                before.bridge_state
            } else {
                None
            })
            &&& after->0.agents == before.agents && after->0.workspaces == before.workspaces
                && after->0.tabs == before.tabs && after->0.projections == before.projections
                && after->0.capabilities == before.capabilities
        }),
        keeps_other_hosts(hosts, after_status(hosts, key, status), key),
{
    lemma_host_or_fresh_key(hosts, key);
    lemma_updated(
        hosts,
        key,
        crate::remote_source::with_status(host_or_fresh(hosts, key), status),
    );
}

/// Listed tabs are the tabs of their workspace from then on, and up to date. The tabs
/// of other workspaces, the layouts, the agents and the other hosts stay.
pub proof fn listed_tabs_read_back(
    hosts: Seq<HostView>,
    key: RemoteHostKey,
    workspace_id: String,
    tabs: Seq<TabInfo>,
    other: String,
)
    ensures
        ({
            let after = after_tab_listing(hosts, key, workspace_id, tabs);
            let listed = tabs_for(after, space_on(key, workspace_id));
            &&& listed is Some
            &&& listed->0.tabs == tabs
            &&& listed->0.status is Available
            &&& listed->0.workspace_id@ == workspace_id@
            &&& other@ != workspace_id@ ==> tabs_for(after, space_on(key, other)) == tabs_for(
                hosts,
                space_on(key, other),
            )
            &&& projection_for(after, space_on(key, other)) == projection_for(
                hosts,
                space_on(key, other),
            )
            &&& cached_host(after, key@)->0.agents == host_or_fresh(hosts, key).agents
            &&& cached_host(after, key@)->0.status == host_or_fresh(hosts, key).status
            &&& cached_host(after, key@)->0.workspaces == host_or_fresh(hosts, key).workspaces
            &&& keeps_other_hosts(hosts, after, key)
        }),
{
    lemma_host_or_fresh_key(hosts, key);
    let before = host_or_fresh(hosts, key);
    let listing = TabsView { workspace_id, status: RemoteProjectionStatus::Available, tabs };
    lemma_updated(hosts, key, crate::remote_source::with_tabs(before, listing));
    lemma_put_found(before.tabs, tabs_of(workspace_id@), listing);
    if other@ != workspace_id@ {
        lemma_put_others(before.tabs, tabs_of(workspace_id@), listing, tabs_of(other@));
        lemma_first_holds(before.tabs, tabs_of(other@));
        lemma_nothing_known(other@);
    }
    lemma_nothing_known(other@);
}

/// Nothing is found in an empty entry.
proof fn lemma_nothing_known(id: Seq<char>)
    ensures
        first_where(Seq::<TabsView>::empty(), tabs_of(id)) is None,
        first_where(Seq::<RemoteProjectionSnapshot>::empty(), projection_of(id)) is None,
{
    lemma_first_missing(Seq::<TabsView>::empty(), tabs_of(id));
    lemma_first_missing(Seq::<RemoteProjectionSnapshot>::empty(), projection_of(id));
}

/// A reported layout is the layout of its workspace from then on. Those of other
/// workspaces, the tabs and the other hosts stay.
pub proof fn reported_layouts_read_back(
    hosts: Seq<HostView>,
    key: RemoteHostKey,
    snapshot: RemoteProjectionSnapshot,
    other: String,
)
    ensures
        ({
            let after = after_projection(hosts, key, snapshot);
            &&& projection_for(after, space_on(key, snapshot.workspace_id)) == Some(snapshot)
            &&& other@ != snapshot.workspace_id@ ==> projection_for(after, space_on(key, other))
                == projection_for(hosts, space_on(key, other))
            &&& tabs_for(after, space_on(key, other)) == tabs_for(hosts, space_on(key, other))
            &&& cached_host(after, key@)->0.agents == host_or_fresh(hosts, key).agents
            &&& cached_host(after, key@)->0.status == host_or_fresh(hosts, key).status
            &&& keeps_other_hosts(hosts, after, key)
        }),
{
    lemma_host_or_fresh_key(hosts, key);
    let before = host_or_fresh(hosts, key);
    let mine = projection_of(snapshot.workspace_id@);
    lemma_updated(
        hosts,
        key,
        HostView { projections: put(before.projections, mine, snapshot), ..before },
    );
    lemma_put_found(before.projections, mine, snapshot);
    if other@ != snapshot.workspace_id@ {
        lemma_put_others(before.projections, mine, snapshot, projection_of(other@));
        lemma_first_holds(before.projections, projection_of(other@));
    }
    lemma_nothing_known(other@);
}

/// A reported tab is found in the listing of its workspace from then on, and every
/// other tab that was listed there still is. A listing keeps its status; one that was
/// not there before is only last known.
pub proof fn reported_tabs_read_back(
    hosts: Seq<HostView>,
    key: RemoteHostKey,
    tab: TabInfo,
    other: Seq<char>,
)
    ensures
        ({
            let after = after_tab(hosts, key, tab);
            let before = tabs_for(hosts, space_on(key, tab.workspace_id));
            let listed = tabs_for(after, space_on(key, tab.workspace_id));
            &&& listed is Some
            &&& element_where(listed->0.tabs, tab_named(tab.tab_id@)) == Some(tab)
            &&& before is Some ==> listed->0.status == before->0.status
            &&& before is Some && other != tab.tab_id@ ==> element_where(
                listed->0.tabs,
                tab_named(other),
            ) == element_where(before->0.tabs, tab_named(other))
            &&& before is None ==> listed->0.status is StaleLastKnown && listed->0.tabs.len() == 1
            &&& keeps_other_hosts(hosts, after, key)
        }),
{
    lemma_host_or_fresh_key(hosts, key);
    let host = host_or_fresh(hosts, key);
    let mine = tabs_of(tab.workspace_id@);
    lemma_updated(hosts, key, crate::remote_source::with_tab(host, tab));
    lemma_first_holds(host.tabs, mine);
    lemma_nothing_known(tab.workspace_id@);
    match first_where(host.tabs, mine) {
        Some(i) => {
            let listing = host.tabs[i];
            assert(mine(listing));
            let grown = TabsView {
                tabs: put(listing.tabs, tab_named(tab.tab_id@), tab),
                ..listing
            };
            lemma_put_found(host.tabs, mine, grown);
            assert(put(host.tabs, mine, grown) == host.tabs.update(i, grown));
            lemma_put_found(listing.tabs, tab_named(tab.tab_id@), tab);
            if other != tab.tab_id@ {
                lemma_put_others(
                    listing.tabs,
                    tab_named(tab.tab_id@),
                    tab,
                    tab_named(other),
                );
            }
        },
        None => {
            let started = TabsView {
                workspace_id: tab.workspace_id,
                status: RemoteProjectionStatus::StaleLastKnown,
                tabs: seq![tab],
            };
            lemma_put_found(host.tabs, mine, started);
            assert(put(host.tabs, mine, started) == host.tabs.push(started));
            assert(tab_named(tab.tab_id@)(seq![tab][0]));
            lemma_first_found(seq![tab], tab_named(tab.tab_id@), 0);
        },
    }
}

proof fn lemma_other_tabs(tabs: Seq<TabInfo>, tab_id: Seq<char>)
    ensures
        forall|k: int|
            0 <= k < other_tabs(tabs, tab_id).len() ==> tabs.contains(
                #[trigger] other_tabs(tabs, tab_id)[k],
            ) && other_tabs(tabs, tab_id)[k].tab_id@ != tab_id,
        forall|i: int|
            0 <= i < tabs.len() && (#[trigger] tabs[i]).tab_id@ != tab_id ==> other_tabs(
                tabs,
                tab_id,
            ).contains(tabs[i]),
    decreases tabs.len(),
{
    if tabs.len() > 0 {
        let rest = tabs.drop_last();
        lemma_other_tabs(rest, tab_id);
        let kept = other_tabs(tabs, tab_id);
        let before = other_tabs(rest, tab_id);
        assert forall|k: int| 0 <= k < kept.len() implies tabs.contains(#[trigger] kept[k])
            && kept[k].tab_id@ != tab_id by {
            if k < before.len() {
                assert(kept[k] == before[k]);
                let i = choose|i: int| 0 <= i < rest.len() && rest[i] == before[k];
                assert(tabs[i] == kept[k]);
            } else {
                assert(kept[k] == tabs[tabs.len() - 1]);
            }
        }
        assert forall|i: int| 0 <= i < tabs.len() && (
        #[trigger] tabs[i]).tab_id@ != tab_id implies kept.contains(tabs[i]) by {
            if i < rest.len() {
                assert(rest[i] == tabs[i]);
                let k = choose|k: int| 0 <= k < before.len() && before[k] == tabs[i];
                assert(kept[k] == tabs[i]);
            } else {
                assert(kept[kept.len() - 1] == tabs[i]);
            }
        }
    }
}

/// A closed tab is in no listing of its host any more. Every other tab stays in its
/// listing, and every listing keeps its workspace and its status.
pub proof fn closed_tabs_are_forgotten(
    hosts: Seq<HostView>,
    key: RemoteHostKey,
    tab_id: Seq<char>,
    s: int,
    t: int,
)
    requires
        cached_host(hosts, key@) is Some,
        0 <= s < cached_host(hosts, key@)->0.tabs.len(),
    ensures
        ({
            let after = after_tab_removal(hosts, key, tab_id);
            let before = cached_host(hosts, key@)->0;
            let host = cached_host(after, key@);
            &&& host is Some
            &&& host->0.tabs.len() == before.tabs.len()
            &&& host->0.tabs[s].workspace_id == before.tabs[s].workspace_id
            &&& host->0.tabs[s].status == before.tabs[s].status
            &&& 0 <= t < host->0.tabs[s].tabs.len() ==> host->0.tabs[s].tabs[t].tab_id@ != tab_id
                && before.tabs[s].tabs.contains(host->0.tabs[s].tabs[t])
            &&& 0 <= t < before.tabs[s].tabs.len() && before.tabs[s].tabs[t].tab_id@ != tab_id
                ==> host->0.tabs[s].tabs.contains(before.tabs[s].tabs[t])
            &&& host->0.projections == before.projections && host->0.agents == before.agents
                && host->0.workspaces == before.workspaces
            &&& keeps_other_hosts(hosts, after, key)
        }),
{
    let before = cached_host(hosts, key@)->0;
    lemma_first_holds(hosts, host_is(key@));
    assert(before.key@ == key@);
    lemma_updated(hosts, key, crate::remote_source::without_tab(before, tab_id));
    lemma_other_tabs(before.tabs[s].tabs, tab_id);
}

/// Tabs that are put in doubt stay readable, as last known; those of other workspaces
/// stay as they are.
pub proof fn doubted_tabs_stay_readable(
    hosts: Seq<HostView>,
    key: RemoteHostKey,
    workspace_id: String,
    other: String,
)
    ensures
        ({
            let after = after_tabs_doubted(hosts, key, workspace_id@);
            let before = tabs_for(hosts, space_on(key, workspace_id));
            let listed = tabs_for(after, space_on(key, workspace_id));
            &&& (listed is Some) == (before is Some)
            &&& before is Some ==> listed->0.tabs == before->0.tabs
                && listed->0.status is StaleLastKnown
            &&& other@ != workspace_id@ ==> tabs_for(after, space_on(key, other)) == tabs_for(
                hosts,
                space_on(key, other),
            )
            &&& projection_for(after, space_on(key, other)) == projection_for(
                hosts,
                space_on(key, other),
            )
            &&& keeps_other_hosts(hosts, after, key)
        }),
{
    if let Some(host) = cached_host(hosts, key@) {
        lemma_first_holds(hosts, host_is(key@));
        assert(host.key@ == key@);
        lemma_updated(hosts, key, crate::remote_source::with_stale_tabs(host, workspace_id@));
        let mine = tabs_of(workspace_id@);
        lemma_first_holds(host.tabs, mine);
        if let Some(i) = first_where(host.tabs, mine) {
            assert(mine(host.tabs[i]));
            let stale = TabsView {
                status: RemoteProjectionStatus::StaleLastKnown,
                ..host.tabs[i]
            };
            lemma_put_found(host.tabs, mine, stale);
            assert(put(host.tabs, mine, stale) == host.tabs.update(i, stale));
            if other@ != workspace_id@ {
                lemma_put_others(host.tabs, mine, stale, tabs_of(other@));
                lemma_first_holds(host.tabs, tabs_of(other@));
            }
        }
    }
}

/// A reported workspace is found in its host's listing from then on, and every other
/// workspace that was listed still is.
pub proof fn reported_workspaces_read_back(
    hosts: Seq<HostView>,
    key: RemoteHostKey,
    workspace: WorkspaceInfo,
    other: Seq<char>,
)
    ensures
        ({
            let after = after_workspace(hosts, key, workspace);
            let before = host_or_fresh(hosts, key);
            let host = cached_host(after, key@);
            &&& host is Some && host->0.workspaces is Some
            &&& element_where(
                host->0.workspaces->0,
                workspace_named(workspace.workspace_id@),
            ) == Some(workspace)
            &&& before.workspaces is Some && other != workspace.workspace_id@ ==> element_where(
                host->0.workspaces->0,
                workspace_named(other),
            ) == element_where(before.workspaces->0, workspace_named(other))
            &&& before.workspaces is None ==> host->0.workspaces->0.len() == 1
            &&& host->0.tabs == before.tabs && host->0.projections == before.projections
                && host->0.agents == before.agents
            &&& keeps_other_hosts(hosts, after, key)
        }),
{
    lemma_host_or_fresh_key(hosts, key);
    let before = host_or_fresh(hosts, key);
    lemma_updated(hosts, key, crate::remote_source::with_workspace(before, workspace));
    let listed = match before.workspaces {
        Some(workspaces) => workspaces,
        None => Seq::empty(),
    };
    let mine = workspace_named(workspace.workspace_id@);
    lemma_put_found(listed, mine, workspace);
    if other != workspace.workspace_id@ {
        lemma_put_others(listed, mine, workspace, workspace_named(other));
    }
    if before.workspaces is None {
        lemma_first_missing(listed, mine);
    }
}

/// `entry` is an agent that is cached for one of the first `n` hosts, with that host's
/// name and status.
pub open spec fn is_cached(hosts: Seq<HostView>, n: nat, entry: RemoteAgentEntry) -> bool {
    exists|h: int, a: int|
        0 <= h < n && 0 <= a < hosts[h].agents.len() && entry.agent
            == #[trigger] hosts[h].agents[a] && entry.host == hosts[h].key && entry.status
            == hosts[h].status
}

/// The agents of all hosts are listed, each with its own host and that host's status,
/// and nobody else.
pub proof fn all_cached_agents_are_listed(hosts: Seq<HostView>)
    ensures
        forall|k: int|
            0 <= k < all_entries(hosts).len() ==> is_cached(
                hosts,
                hosts.len(),
                #[trigger] all_entries(hosts)[k],
            ),
        forall|h: int, a: int|
            0 <= h < hosts.len() && 0 <= a < hosts[h].agents.len() ==> all_entries(hosts).contains(
                RemoteAgentEntry {
                    host: hosts[h].key,
                    status: hosts[h].status,
                    agent: #[trigger] hosts[h].agents[a],
                },
            ),
    decreases hosts.len(),
{
    if hosts.len() > 0 {
        let rest = hosts.drop_last();
        all_cached_agents_are_listed(rest);
        let found = all_entries(hosts);
        let before = all_entries(rest);
        let last = hosts.len() - 1;
        let here = host_entries(hosts[last]);
        assert forall|k: int| 0 <= k < found.len() implies is_cached(
            hosts,
            hosts.len(),
            #[trigger] found[k],
        ) by {
            if k < before.len() {
                assert(found[k] == before[k]);
                assert(is_cached(rest, rest.len(), before[k]));
                let (h, a) = choose|h: int, a: int|
                    0 <= h < rest.len() && 0 <= a < rest[h].agents.len() && before[k].agent
                        == #[trigger] rest[h].agents[a] && before[k].host == rest[h].key
                        && before[k].status == rest[h].status;
                assert(hosts[h].agents[a] == found[k].agent);
            } else {
                let j = k - before.len();
                assert(found[k] == here[j]);
                assert(hosts[last].agents[j] == found[k].agent);
            }
        }
        assert forall|h: int, a: int|
            0 <= h < hosts.len() && 0 <= a < hosts[h].agents.len() implies found.contains(
            RemoteAgentEntry {
                host: hosts[h].key,
                status: hosts[h].status,
                agent: #[trigger] hosts[h].agents[a],
            },
        ) by {
            let entry = RemoteAgentEntry {
                host: hosts[h].key,
                status: hosts[h].status,
                agent: hosts[h].agents[a],
            };
            if h < rest.len() {
                assert(rest[h].agents[a] == hosts[h].agents[a]);
                let k = choose|k: int| 0 <= k < before.len() && before[k] == entry;
                assert(found[k] == entry);
            } else {
                assert(here[a] == entry);
                assert(found[before.len() + a] == entry);
            }
        }
    }
}

// After a change ---------------------------------------------------------

/// After a change the shown tab is the focused one; where none is focused it is the
/// preferred one, and where that is not listed, the first.
pub proof fn the_focused_tab_is_shown(tabs: Seq<TabInfo>, preferred: Option<String>)
    ensures
        match active_tab(tabs, preferred) {
            None => tabs.len() == 0,
            Some(i) => 0 <= i < tabs.len() && {
                ||| tabs[i].focused && forall|j: int| 0 <= j < i ==> !(#[trigger] tabs[j]).focused
                ||| (forall|j: int| 0 <= j < tabs.len() ==> !(#[trigger] tabs[j]).focused)
                    && preferred is Some && tabs[i].tab_id@ == preferred->0@
                ||| (forall|j: int| 0 <= j < tabs.len() ==> !(#[trigger] tabs[j]).focused) && i == 0
                    && (preferred is Some ==> forall|j: int|
                    0 <= j < tabs.len() ==> (#[trigger] tabs[j]).tab_id@ != preferred->0@)
            },
        },
{
    lemma_first_holds(tabs, focused_tab());
    match first_where(tabs, focused_tab()) {
        Some(i) => {
            assert(focused_tab()(tabs[i]));
            assert forall|j: int| 0 <= j < i implies !(#[trigger] tabs[j]).focused by {
                assert(!focused_tab()(tabs[j]));
            }
        },
        None => {
            assert forall|j: int| 0 <= j < tabs.len() implies !(#[trigger] tabs[j]).focused by {
                assert(!focused_tab()(tabs[j]));
            }
            if let Some(tab_id) = preferred {
                lemma_first_holds(tabs, tab_named(tab_id@));
                match first_where(tabs, tab_named(tab_id@)) {
                    Some(i) => {
                        assert(tab_named(tab_id@)(tabs[i]));
                    },
                    None => {
                        assert forall|j: int| 0 <= j < tabs.len() implies (
                        #[trigger] tabs[j]).tab_id@ != tab_id@ by {
                            assert(!tab_named(tab_id@)(tabs[j]));
                        }
                    },
                }
            }
        },
    }
}

/// A refresh makes the listed tabs the tabs of the workspace and the fetched layout its
/// layout, of that tab. Without a listing the tabs are only last known; without a
/// layout none is shown.
pub proof fn refreshes_read_back(
    hosts: Seq<HostView>,
    key: RemoteHostKey,
    refresh: RoutedRefreshData,
)
    ensures
        ({
            let after = after_refresh(hosts, key, refresh);
            let space = space_on(key, refresh.workspace_id);
            let shown = projection_for(after, space);
            &&& shown is Some
            &&& shown->0.workspace_id == refresh.workspace_id
            &&& match refresh.tabs {
                Some(tabs) => {
                    &&& tabs_for(after, space) is Some
                    &&& tabs_for(after, space)->0.tabs == tabs@
                    &&& tabs_for(after, space)->0.status is Available
                    &&& match refresh.active_tab {
                        Some(fetch) => shown->0.tab_id == fetch.tab_id && shown->0.tab_label
                            == fetch.tab_label && shown->0.layout == fetch.layout && (
                        shown->0.status is Available) == (fetch.layout is Some) && (
                        shown->0.status is Unavailable) == (fetch.layout is None),
                        None => shown->0.layout is None && shown->0.status is Unavailable,
                    }
                },
                None => {
                    &&& tabs_for(hosts, space) is Some ==> tabs_for(after, space) is Some
                        && tabs_for(after, space)->0.status is StaleLastKnown && tabs_for(
                        after,
                        space,
                    )->0.tabs == tabs_for(hosts, space)->0.tabs
                    &&& shown->0.layout is None && shown->0.status is Unavailable
                },
            }
            &&& keeps_other_hosts(hosts, after, key)
        }),
{
    let id = refresh.workspace_id;
    match refresh.tabs {
        Some(tabs) => {
            let listed = after_tab_listing(hosts, key, id, tabs@);
            listed_tabs_read_back(hosts, key, id, tabs@, id);
            reported_layouts_read_back(
                listed,
                key,
                match refresh.active_tab {
                    Some(fetch) => crate::routed_reduce::fetched_projection(
                        id,
                        fetch.tab_id,
                        fetch.tab_label,
                        fetch.layout,
                    ),
                    None => crate::routed_reduce::no_projection(id, None),
                },
                id,
            );
            lemma_both_keep(hosts, listed, after_refresh(hosts, key, refresh), key);
        },
        None => {
            let doubted = after_tabs_doubted(hosts, key, id@);
            doubted_tabs_stay_readable(hosts, key, id, id);
            reported_layouts_read_back(
                doubted,
                key,
                crate::routed_reduce::no_projection(id, None),
                id,
            );
            lemma_both_keep(hosts, doubted, after_refresh(hosts, key, refresh), key);
        },
    }
}

proof fn lemma_both_keep(
    before: Seq<HostView>,
    between: Seq<HostView>,
    after: Seq<HostView>,
    key: RemoteHostKey,
)
    requires
        keeps_other_hosts(before, between, key),
        keeps_other_hosts(between, after, key),
    ensures
        keeps_other_hosts(before, after, key),
{
    assert forall|other: RemoteHostKey|
        other.host@ != key.host@ || other.session@ != key.session@ implies #[trigger] cached_host(
        after,
        other@,
    ) == cached_host(before, other@) by {
        assert(cached_host(after, other@) == cached_host(between, other@));
    }
}

/// The result of a change is taken up as its plan says: a created, focused or renamed
/// tab is recorded as the host reported it, a closed one is forgotten, a renamed
/// workspace is recorded. Nothing is taken up of a change that did not succeed.
pub proof fn results_are_taken_up_as_planned(
    hosts: Seq<HostView>,
    key: RemoteHostKey,
    outcome: RoutedCompletion,
)
    ensures
        outcome.success is None ==> after_result(hosts, key, outcome) == hosts,
        outcome.apply is RefreshOnly ==> after_result(hosts, key, outcome) == hosts,
        match (outcome.apply, outcome.success) {
            (RoutedApply::TabUpsert, Some(ResponseResult::TabCreated { tab, .. })) => element_where(
                tabs_for(
                    after_result(hosts, key, outcome),
                    space_on(key, tab.workspace_id),
                )->0.tabs,
                tab_named(tab.tab_id@),
            ) == Some(tab),
            (RoutedApply::TabUpsert, Some(ResponseResult::TabInfo { tab })) => element_where(
                tabs_for(
                    after_result(hosts, key, outcome),
                    space_on(key, tab.workspace_id),
                )->0.tabs,
                tab_named(tab.tab_id@),
            ) == Some(tab),
            (
                RoutedApply::WorkspaceUpsert,
                Some(ResponseResult::WorkspaceInfo { workspace }),
            ) => element_where(
                cached_host(after_result(hosts, key, outcome), key@)->0.workspaces->0,
                workspace_named(workspace.workspace_id@),
            ) == Some(workspace),
            (RoutedApply::TabRemove { tab_id }, Some(_)) => cached_host(hosts, key@) is Some
                ==> forall|s: int, t: int|
                0 <= s < cached_host(after_result(hosts, key, outcome), key@)->0.tabs.len() && 0 <= t
                    < cached_host(after_result(hosts, key, outcome), key@)->0.tabs[s].tabs.len()
                    ==> (#[trigger] cached_host(
                    after_result(hosts, key, outcome),
                    key@,
                )->0.tabs[s].tabs[t]).tab_id@ != tab_id@,
            _ => true,
        },
{
    match (outcome.apply, outcome.success) {
        (RoutedApply::TabUpsert, Some(ResponseResult::TabCreated { tab, .. })) => {
            reported_tabs_read_back(hosts, key, tab, Seq::empty());
        },
        (RoutedApply::TabUpsert, Some(ResponseResult::TabInfo { tab })) => {
            reported_tabs_read_back(hosts, key, tab, Seq::empty());
        },
        (RoutedApply::WorkspaceUpsert, Some(ResponseResult::WorkspaceInfo { workspace })) => {
            reported_workspaces_read_back(hosts, key, workspace, Seq::empty());
        },
        (RoutedApply::TabRemove { tab_id }, Some(_)) => {
            if cached_host(hosts, key@) is Some {
                lemma_removed(hosts, key, tab_id@, outcome);
            }
        },
        _ => {},
    }
}

proof fn lemma_removed(
    hosts: Seq<HostView>,
    key: RemoteHostKey,
    tab_id: Seq<char>,
    outcome: RoutedCompletion,
)
    requires
        cached_host(hosts, key@) is Some,
        outcome.apply matches RoutedApply::TabRemove { tab_id: closed } && closed@ == tab_id,
        outcome.success is Some,
    ensures
        forall|s: int, t: int|
            0 <= s < cached_host(after_result(hosts, key, outcome), key@)->0.tabs.len() && 0 <= t
                < cached_host(after_result(hosts, key, outcome), key@)->0.tabs[s].tabs.len() ==> (
            #[trigger] cached_host(
                after_result(hosts, key, outcome),
                key@,
            )->0.tabs[s].tabs[t]).tab_id@ != tab_id,
{
    let before = cached_host(hosts, key@)->0;
    lemma_first_holds(hosts, host_is(key@));
    assert(before.key@ == key@);
    let removed = after_tab_removal(hosts, key, tab_id);
    lemma_updated(hosts, key, crate::remote_source::without_tab(before, tab_id));
    let host = cached_host(removed, key@)->0;
    assert forall|s: int, t: int|
        0 <= s < host.tabs.len() && 0 <= t < host.tabs[s].tabs.len() implies (
    #[trigger] host.tabs[s].tabs[t]).tab_id@ != tab_id by {
        lemma_other_tabs(before.tabs[s].tabs, tab_id);
    }
    if let Some(workspace_id) = outcome.stale_workspace_id {
        lemma_first_holds(removed, host_is(key@));
        assert(host.key@ == key@);
        lemma_updated(
            removed,
            key,
            crate::remote_source::with_stale_tabs(host, workspace_id@),
        );
        let after = cached_host(after_result(hosts, key, outcome), key@)->0;
        lemma_first_holds(host.tabs, tabs_of(workspace_id@));
        assert forall|s: int, t: int|
            0 <= s < after.tabs.len() && 0 <= t < after.tabs[s].tabs.len() implies (
        #[trigger] after.tabs[s].tabs[t]).tab_id@ != tab_id by {
            assert(after.tabs[s].tabs == host.tabs[s].tabs);
            assert(host.tabs[s].tabs[t].tab_id@ != tab_id);
        }
    }
}

/// A workspace that is in doubt keeps its tabs as last known and shows no layout; where
/// nothing is in doubt nothing changes.
pub proof fn doubts_hide_the_layout(
    hosts: Seq<HostView>,
    key: RemoteHostKey,
    workspace_id: String,
)
    ensures
        after_doubt(hosts, key, None) == hosts,
        ({
            let after = after_doubt(hosts, key, Some(workspace_id));
            let space = space_on(key, workspace_id);
            &&& projection_for(after, space) is Some
            &&& projection_for(after, space)->0.layout is None
            &&& projection_for(after, space)->0.status is Unavailable
            &&& tabs_for(hosts, space) is Some ==> tabs_for(after, space) is Some && tabs_for(
                after,
                space,
            )->0.status is StaleLastKnown && tabs_for(after, space)->0.tabs == tabs_for(
                hosts,
                space,
            )->0.tabs
            &&& keeps_other_hosts(hosts, after, key)
        }),
{
    let doubted = after_tabs_doubted(hosts, key, workspace_id@);
    doubted_tabs_stay_readable(hosts, key, workspace_id, workspace_id);
    reported_layouts_read_back(
        doubted,
        key,
        crate::routed_reduce::no_projection(workspace_id, None),
        workspace_id,
    );
    lemma_both_keep(hosts, doubted, after_doubt(hosts, key, Some(workspace_id)), key);
}

/// A finished change with fresh data leaves the cache as that data says it is.
pub proof fn finished_changes_show_fresh_data(
    hosts: Seq<HostView>,
    key: RemoteHostKey,
    outcome: RoutedCompletion,
)
    requires
        outcome.refresh is Some,
        outcome.refresh->0.tabs is Some,
    ensures
        ({
            let after = after_completion(hosts, key, outcome);
            let space = space_on(key, outcome.refresh->0.workspace_id);
            &&& tabs_for(after, space) is Some
            &&& tabs_for(after, space)->0.tabs == outcome.refresh->0.tabs->0@
            &&& tabs_for(after, space)->0.status is Available
            &&& outcome.refresh->0.active_tab matches Some(fetch) ==> projection_for(after, space)
                is Some && projection_for(after, space)->0.layout == fetch.layout
        }),
{
    let resolved = after_result(after_doubt(hosts, key, outcome.stale_workspace_id), key, outcome);
    refreshes_read_back(resolved, key, outcome.refresh->0);
}

/// A change that neither succeeded nor is in doubt leaves the cache alone.
pub proof fn refused_changes_leave_the_cache_alone(
    hosts: Seq<HostView>,
    key: RemoteHostKey,
    outcome: RoutedCompletion,
)
    requires
        outcome.success is None,
        outcome.refresh is None,
        outcome.stale_workspace_id is None,
    ensures
        after_completion(hosts, key, outcome) == hosts,
{
}

/// What follows a tab or workspace change that the host did: the reported tab or
/// workspace is recorded, a closed tab is forgotten, and the workspace of the tab is
/// refreshed, with the changed tab shown where none has the focus. A new label for a
/// workspace refreshes nothing.
pub proof fn changes_are_followed_by_their_refresh(
    hosts: Seq<HostView>,
    descriptor: RoutedSequenceDescriptor,
    success: ResponseResult,
)
    ensures
        ({
            let (after, target) = after_primary(hosts, descriptor, Some(success));
            let key = descriptor.host_key;
            match (descriptor.spec.primary.method, success) {
                (Method::TabCreate(_), ResponseResult::TabCreated { tab, .. }) => element_where(
                    tabs_for(after, space_on(key, tab.workspace_id))->0.tabs,
                    tab_named(tab.tab_id@),
                ) == Some(tab) && target is Some && target->0.workspace_id == tab.workspace_id
                    && target->0.preferred_tab_id == Some(tab.tab_id),
                (Method::TabFocus(_), ResponseResult::TabInfo { tab }) => element_where(
                    tabs_for(after, space_on(key, tab.workspace_id))->0.tabs,
                    tab_named(tab.tab_id@),
                ) == Some(tab) && target is Some && target->0.workspace_id == tab.workspace_id
                    && target->0.preferred_tab_id == Some(tab.tab_id),
                (Method::TabRename(asked), ResponseResult::TabInfo { tab }) => element_where(
                    tabs_for(after, space_on(key, tab.workspace_id))->0.tabs,
                    tab_named(tab.tab_id@),
                ) == Some(tab) && (target is Some) == (descriptor.spec.refresh is Some) && (
                target is Some ==> target->0.workspace_id
                    == descriptor.spec.refresh->0.workspace_id && target->0.preferred_tab_id
                    == Some(asked.tab_id)),
                (Method::TabClose(_), _) => (target is Some) == (descriptor.spec.refresh is Some)
                    && (target is Some ==> target->0.workspace_id
                    == descriptor.spec.refresh->0.workspace_id
                    && target->0.preferred_tab_id is None),
                (
                    Method::WorkspaceRename(_),
                    ResponseResult::WorkspaceInfo { workspace },
                ) => element_where(
                    cached_host(after, key@)->0.workspaces->0,
                    workspace_named(workspace.workspace_id@),
                ) == Some(workspace) && target is None,
                _ => after == hosts && target is None,
            }
        }),
{
    let key = descriptor.host_key;
    match (descriptor.spec.primary.method, success) {
        (Method::TabCreate(_), ResponseResult::TabCreated { tab, .. }) => {
            reported_tabs_read_back(hosts, key, tab, Seq::empty());
        },
        (Method::TabFocus(_), ResponseResult::TabInfo { tab }) => {
            reported_tabs_read_back(hosts, key, tab, Seq::empty());
        },
        (Method::TabRename(_), ResponseResult::TabInfo { tab }) => {
            reported_tabs_read_back(hosts, key, tab, Seq::empty());
        },
        (Method::WorkspaceRename(_), ResponseResult::WorkspaceInfo { workspace }) => {
            reported_workspaces_read_back(hosts, key, workspace, Seq::empty());
        },
        _ => {},
    }
}

/// A listing that arrived is the workspace's listing, and the layout of its shown tab
/// is asked for where the host exports layouts. Without that, and without a tab, no
/// layout is shown. A listing that did not arrive leaves the tabs as last known.
pub proof fn listings_are_followed_by_their_layout(
    hosts: Seq<HostView>,
    key: RemoteHostKey,
    target: RefreshTarget,
    tabs: Seq<TabInfo>,
)
    ensures
        ({
            let (after, leg) = after_listing(hosts, key, target, Some(tabs));
            let space = space_on(key, target.workspace_id);
            &&& tabs_for(after, space) is Some
            &&& tabs_for(after, space)->0.tabs == tabs
            &&& tabs_for(after, space)->0.status is Available
            &&& (leg is Some) == (tabs.len() > 0 && capabilities_of(hosts, key@).layout_export)
            &&& leg is Some ==> {
                let shown = tabs[active_tab(tabs, target.preferred_tab_id)->0];
                leg->0.workspace_id == target.workspace_id && leg->0.tab_id == shown.tab_id
                    && leg->0.tab_label == shown.label
            }
            &&& leg is None ==> projection_for(after, space) is Some && projection_for(
                after,
                space,
            )->0.layout is None
        }),
        ({
            let (after, leg) = after_listing(hosts, key, target, None);
            let space = space_on(key, target.workspace_id);
            &&& leg is None
            &&& tabs_for(hosts, space) is Some ==> tabs_for(after, space) is Some && tabs_for(
                after,
                space,
            )->0.status is StaleLastKnown && tabs_for(after, space)->0.tabs == tabs_for(
                hosts,
                space,
            )->0.tabs
            &&& projection_for(after, space) is Some && projection_for(
                after,
                space,
            )->0.layout is None
        }),
{
    let id = target.workspace_id;
    the_focused_tab_is_shown(tabs, target.preferred_tab_id);
    listed_tabs_read_back(hosts, key, id, tabs, id);
    let listed = after_tab_listing(hosts, key, id, tabs);
    reported_layouts_read_back(listed, key, crate::routed_reduce::no_projection(id, None), id);
    if let Some(i) = active_tab(tabs, target.preferred_tab_id) {
        reported_layouts_read_back(
            listed,
            key,
            crate::routed_reduce::fetched_projection(
                id,
                Some(tabs[i].tab_id),
                Some(tabs[i].label),
                None,
            ),
            id,
        );
    }
    doubted_tabs_stay_readable(hosts, key, id, id);
    reported_layouts_read_back(
        after_tabs_doubted(hosts, key, id@),
        key,
        crate::routed_reduce::no_projection(id, target.preferred_tab_id),
        id,
    );
}

} // verus!
