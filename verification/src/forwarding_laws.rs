//! What reaches a host of a request that a client made: to which host it goes, what
//! it is about there, and that it still asks for the same.
use vstd::prelude::*;
use crate::agent_plan::agent_plan;
use crate::remote_source::{cached_host, HostView};
use crate::remote_target::{
    agent_lookup, configured, pane_lookup, tab_lookup, workspace_lookup, RemoteHostConfig,
    SelectorView, TabLookup,
};
use crate::routed_laws::{capability_for, each_method_has_its_own_flag};
use crate::routed_plan::{
    configured_route, host_refusal, routed_plan, supervises, FederationView, RoutedApply,
};
use crate::schema::{Method, Request};
use crate::search::{first_where, lemma_first_holds};
use crate::target_laws::{
    empty_parts_are_malformed, hosts_go_by_their_names, is_plain_label,
    panes_go_by_their_identifier, sessions_go_by_both_names, tabs_go_by_their_identifier,
    targets_read_back, terminals_name_their_agent, workspaces_go_by_their_identifier,
    workspaces_stand_for_their_focused_pane,
};

verus! {

// Changes on a host ------------------------------------------------------

/// A change that is sent to a host is the change that the client asked for: the same
/// method with the same values. Only the identifiers of what it is about are the
/// host's own, and a close is confirmed.
#[verifier::spinoff_prover]
pub proof fn changes_keep_what_was_asked(federation: FederationView, request: Request)
    requires
        routed_plan(federation, request) is Deferred,
    ensures
        ({
            let sent = routed_plan(federation, request)->Deferred_0.spec.primary;
            &&& sent.id == request.id
            &&& match request.method {
                Method::PaneFocus(_) => sent.method is PaneFocus,
                Method::PaneFocusDirection(asked) => sent.method matches Method::PaneFocusDirection(
                    q,
                ) && q.pane_id is Some && q.direction == asked.direction,
                Method::PaneRename(asked) => sent.method matches Method::PaneRename(q) && q.label
                    == asked.label,
                Method::PaneSplit(asked) => sent.method matches Method::PaneSplit(q)
                    && q.workspace_id is Some && q.target_pane_id is Some && q.direction
                    == asked.direction && q.cwd == asked.cwd && q.focus == asked.focus,
                Method::PaneClose(asked) => sent.method matches Method::PaneClose(q) && q.confirm
                    && asked.confirm,
                Method::TabCreate(asked) => sent.method matches Method::TabCreate(q)
                    && q.workspace_id is Some && q.cwd == asked.cwd && q.focus == asked.focus
                    && q.label == asked.label && q.env == asked.env,
                Method::TabFocus(_) => sent.method is TabFocus,
                Method::TabClose(asked) => sent.method matches Method::TabClose(q) && q.confirm
                    && asked.confirm,
                Method::TabRename(asked) => sent.method matches Method::TabRename(q) && q.label
                    == asked.label,
                Method::WorkspaceRename(asked) => sent.method matches Method::WorkspaceRename(q)
                    && q.label == asked.label,
                _ => false,
            }
        }),
{
}

/// The route to something that is written as a host, a slash, a kind and an
/// identifier.
proof fn lemma_route(hosts: Seq<RemoteHostConfig>, alias: Seq<char>, id: Seq<char>)
    requires
        alias.len() > 0,
        !alias.contains('/'),
        id.len() > 0,
    ensures
        ({
            let pane = configured_route(hosts, alias + seq!['/'] + ("pane:"@ + id));
            let tab = configured_route(hosts, alias + seq!['/'] + ("tab:"@ + id));
            let workspace = configured_route(hosts, alias + seq!['/'] + ("workspace:"@ + id));
            match configured(hosts, alias) {
                Some(host) => {
                    &&& pane is Remote && pane->Remote_host == host && pane->Remote_target
                        == SelectorView::Pane(id)
                    &&& tab is Remote && tab->Remote_host == host && tab->Remote_target
                        == SelectorView::Tab(id)
                    &&& workspace is Remote && workspace->Remote_host == host
                        && workspace->Remote_target == SelectorView::Workspace(id)
                },
                None => pane is Local && tab is Local && workspace is Local,
            }
        }),
{
    targets_read_back(alias, id);
    lemma_before_slash(alias, "pane:"@ + id);
    lemma_before_slash(alias, "tab:"@ + id);
    lemma_before_slash(alias, "workspace:"@ + id);
}

proof fn lemma_before_slash(alias: Seq<char>, rest: Seq<char>)
    requires
        !alias.contains('/'),
    ensures
        (alias + seq!['/'] + rest).index_of_first('/') == Some(alias.len() as int),
        (alias + seq!['/'] + rest).take(alias.len() as int) == alias,
{
    let target = alias + seq!['/'] + rest;
    target.index_of_first_ensures('/');
    assert(target[alias.len() as int] == '/');
    assert forall|j: int| 0 <= j < alias.len() implies target[j] != '/' by {
        assert(target[j] == alias[j]);
    }
    assert(target.take(alias.len() as int) =~= alias);
}

/// A change on `alias/pane:id` goes to the host of that alias and is about its pane
/// `id`, whichever change it is. The workspace whose layout shows the pane is then
/// refreshed, and nothing else of the cache is touched by the reply itself.
#[verifier::spinoff_prover]
pub proof fn pane_changes_reach_the_named_pane(
    federation: FederationView,
    request: Request,
    alias: Seq<char>,
    id: Seq<char>,
)
    requires
        alias.len() > 0,
        !alias.contains('/'),
        id.len() > 0,
        routed_plan(federation, request) is Deferred,
        match request.method {
            Method::PaneFocus(asked) => asked.pane_id@ == alias + seq!['/'] + ("pane:"@ + id),
            Method::PaneFocusDirection(asked) => asked.pane_id is Some && asked.pane_id->0@ == alias
                + seq!['/'] + ("pane:"@ + id),
            Method::PaneRename(asked) => asked.pane_id@ == alias + seq!['/'] + ("pane:"@ + id),
            Method::PaneSplit(asked) => asked.target_pane_id is Some && asked.target_pane_id->0@
                == alias + seq!['/'] + ("pane:"@ + id),
            Method::PaneClose(asked) => asked.pane_id@ == alias + seq!['/'] + ("pane:"@ + id),
            _ => false,
        },
    ensures
        ({
            let planned = routed_plan(federation, request)->Deferred_0;
            &&& planned.host.name@ == alias
            &&& federation.hosts.contains(planned.host)
            &&& planned.host_key.host@ == alias
            &&& planned.host_key.session@ == planned.host.session@
            &&& match planned.spec.primary.method {
                Method::PaneFocus(sent) => sent.pane_id@ == id,
                Method::PaneFocusDirection(sent) => sent.pane_id matches Some(pane_id) && pane_id@
                    == id,
                Method::PaneRename(sent) => sent.pane_id@ == id,
                Method::PaneSplit(sent) => sent.target_pane_id matches Some(pane_id) && pane_id@
                    == id && sent.workspace_id == Some(planned.spec.refresh->0.workspace_id),
                Method::PaneClose(sent) => sent.pane_id@ == id,
                _ => false,
            }
            &&& planned.spec.apply is RefreshOnly
            &&& planned.spec.refresh is Some
            &&& planned.spec.refresh->0.preferred_tab_id is None
            &&& (planned.spec.refresh->0.preferred_from_primary is PaneInfoTab)
                == (request.method is PaneSplit)
        }),
{
    lemma_route(federation.hosts, alias, id);
    hosts_go_by_their_names(federation.hosts, alias);
    let host = configured(federation.hosts, alias)->0;
    panes_go_by_their_identifier(federation.sources, host, id);
    assert(pane_lookup(federation.sources, host, SelectorView::Pane(id)) is One);
    let i = choose|i: int|
        0 <= i < federation.hosts.len() && #[trigger] federation.hosts[i] == host;
    assert(federation.hosts.contains(federation.hosts[i]));
}

/// A split of `alias/workspace:id` goes to the host of that alias and splits the
/// focused pane of its workspace `id`.
#[verifier::spinoff_prover]
pub proof fn workspace_splits_split_the_focused_pane(
    federation: FederationView,
    request: Request,
    alias: Seq<char>,
    id: Seq<char>,
)
    requires
        alias.len() > 0,
        !alias.contains('/'),
        id.len() > 0,
        routed_plan(federation, request) is Deferred,
        request.method matches Method::PaneSplit(asked) && asked.target_pane_id is None
            && asked.workspace_id is Some && asked.workspace_id->0@ == alias + seq!['/'] + (
        "workspace:"@ + id),
    ensures
        ({
            let planned = routed_plan(federation, request)->Deferred_0;
            &&& planned.host.name@ == alias
            &&& planned.spec.primary.method matches Method::PaneSplit(sent)
                && sent.workspace_id is Some && sent.workspace_id->0@ == id
                && sent.target_pane_id is Some && exists|p: int|
                0 <= p < cached_host(
                    federation.sources,
                    planned.host_key@,
                )->0.projections.len() && {
                    let shown = #[trigger] cached_host(
                        federation.sources,
                        planned.host_key@,
                    )->0.projections[p];
                    shown.workspace_id@ == id && shown.layout is Some
                        && shown.layout->0.focused_pane_id == sent.target_pane_id->0
                }
        }),
{
    lemma_route(federation.hosts, alias, id);
    hosts_go_by_their_names(federation.hosts, alias);
    let host = configured(federation.hosts, alias)->0;
    workspaces_stand_for_their_focused_pane(federation.sources, host, id);
    assert(pane_lookup(federation.sources, host, SelectorView::Workspace(id)) is One);
}

/// A change on `alias/tab:id` goes to the host of that alias and is about its tab
/// `id`. A close drops that very tab from the cache, the others record the tab that
/// the host reports.
#[verifier::spinoff_prover]
pub proof fn tab_changes_reach_the_named_tab(
    federation: FederationView,
    request: Request,
    alias: Seq<char>,
    id: Seq<char>,
)
    requires
        alias.len() > 0,
        !alias.contains('/'),
        id.len() > 0,
        routed_plan(federation, request) is Deferred,
        match request.method {
            Method::TabFocus(asked) => asked.tab_id@ == alias + seq!['/'] + ("tab:"@ + id),
            Method::TabRename(asked) => asked.tab_id@ == alias + seq!['/'] + ("tab:"@ + id),
            Method::TabClose(asked) => asked.tab_id@ == alias + seq!['/'] + ("tab:"@ + id),
            _ => false,
        },
    ensures
        ({
            let planned = routed_plan(federation, request)->Deferred_0;
            &&& planned.host.name@ == alias
            &&& planned.host_key.host@ == alias
            &&& planned.host_key.session@ == planned.host.session@
            &&& match planned.spec.primary.method {
                Method::TabFocus(sent) => sent.tab_id@ == id && planned.spec.apply is TabUpsert,
                Method::TabRename(sent) => sent.tab_id@ == id && planned.spec.apply is TabUpsert,
                Method::TabClose(sent) => planned.spec.apply matches RoutedApply::TabRemove {
                    tab_id,
                } && tab_id@ == id && sent.tab_id@ == id,
                _ => false,
            }
            &&& planned.spec.refresh is Some
            &&& (planned.spec.refresh->0.preferred_from_primary is TabInfoTab) == !(
            request.method is TabClose)
            &&& exists|s: int|
                0 <= s < cached_host(federation.sources, planned.host_key@)->0.tabs.len() && {
                    let listing = #[trigger] cached_host(
                        federation.sources,
                        planned.host_key@,
                    )->0.tabs[s];
                    listing.workspace_id == planned.spec.refresh->0.workspace_id && exists|t: int|
                        0 <= t < listing.tabs.len() && (#[trigger] listing.tabs[t]).tab_id@ == id
                }
        }),
{
    lemma_route(federation.hosts, alias, id);
    hosts_go_by_their_names(federation.hosts, alias);
    let host = configured(federation.hosts, alias)->0;
    tabs_go_by_their_identifier(federation.sources, host, id);
    assert(tab_lookup(federation.sources, host, SelectorView::Tab(id)) is One);
    let source = cached_host(federation.sources, host.spec_key()@)->0;
    match tab_lookup(federation.sources, host, SelectorView::Tab(id)) {
        TabLookup::One { workspace_id, tab } => {
            let s = choose|s: int|
                0 <= s < source.tabs.len() && {
                    let listing = #[trigger] source.tabs[s];
                    listing.workspace_id == workspace_id && listing.status is Available
                        && listing.tabs.contains(tab)
                };
            let listing = source.tabs[s];
            let t = choose|t: int| 0 <= t < listing.tabs.len() && listing.tabs[t] == tab;
            assert(listing.tabs[t].tab_id@ == id);
        },
        _ => {},
    }
}

/// A new tab in `alias/workspace:id`, and a new label for it, go to the host of that
/// alias and are about its workspace `id`. The new tab is then shown; a label
/// refreshes nothing.
#[verifier::spinoff_prover]
pub proof fn workspace_changes_reach_the_named_workspace(
    federation: FederationView,
    request: Request,
    alias: Seq<char>,
    id: Seq<char>,
)
    requires
        alias.len() > 0,
        !alias.contains('/'),
        id.len() > 0,
        routed_plan(federation, request) is Deferred,
        match request.method {
            Method::TabCreate(asked) => asked.workspace_id is Some && asked.workspace_id->0@
                == alias + seq!['/'] + ("workspace:"@ + id),
            Method::WorkspaceRename(asked) => asked.workspace_id@ == alias + seq!['/'] + (
            "workspace:"@ + id),
            _ => false,
        },
    ensures
        ({
            let planned = routed_plan(federation, request)->Deferred_0;
            &&& planned.host.name@ == alias
            &&& planned.host_key.host@ == alias
            &&& planned.host_key.session@ == planned.host.session@
            &&& match planned.spec.primary.method {
                Method::TabCreate(sent) => sent.workspace_id is Some && sent.workspace_id->0@ == id
                    && planned.spec.apply is TabUpsert && planned.spec.refresh is Some
                    && planned.spec.refresh->0.workspace_id@ == id
                    && planned.spec.refresh->0.preferred_from_primary is TabCreatedTab,
                Method::WorkspaceRename(sent) => sent.workspace_id@ == id
                    && planned.spec.apply is WorkspaceUpsert && planned.spec.refresh is None,
                _ => false,
            }
        }),
{
    lemma_route(federation.hosts, alias, id);
    hosts_go_by_their_names(federation.hosts, alias);
    let host = configured(federation.hosts, alias)->0;
    workspaces_go_by_their_identifier(federation.sources, host, id);
    assert(workspace_lookup(federation.sources, host, SelectorView::Workspace(id)) is One);
}

/// The flag by which a host says that it takes a change.
pub open spec fn is_advertised(source: HostView, method: Method) -> bool {
    match method {
        Method::PaneFocus(_) => source.capabilities.pane_focus,
        Method::PaneFocusDirection(_) => source.capabilities.pane_focus_direction,
        Method::PaneRename(_) => source.capabilities.pane_rename,
        Method::PaneSplit(_) => source.capabilities.pane_split,
        Method::PaneClose(_) => source.capabilities.pane_close,
        Method::TabCreate(_) => source.capabilities.tab_create,
        Method::TabFocus(_) => source.capabilities.tab_focus,
        Method::TabClose(_) => source.capabilities.tab_close,
        Method::TabRename(_) => source.capabilities.tab_rename,
        Method::WorkspaceRename(_) => source.capabilities.workspace_rename,
        _ => false,
    }
}

/// The identifier that a change is about, in the client's words. A split goes by its
/// pane, and without one by its workspace.
pub open spec fn asked_about(method: Method, target: Seq<char>) -> bool {
    match method {
        Method::PaneFocus(asked) => asked.pane_id@ == target,
        Method::PaneFocusDirection(asked) => asked.pane_id matches Some(id) && id@ == target,
        Method::PaneRename(asked) => asked.pane_id@ == target,
        Method::PaneSplit(asked) => match asked.target_pane_id {
            Some(id) => id@ == target,
            None => asked.workspace_id matches Some(id) && id@ == target,
        },
        Method::PaneClose(asked) => asked.pane_id@ == target,
        Method::TabCreate(asked) => asked.workspace_id matches Some(id) && id@ == target,
        Method::TabFocus(asked) => asked.tab_id@ == target,
        Method::TabClose(asked) => asked.tab_id@ == target,
        Method::TabRename(asked) => asked.tab_id@ == target,
        Method::WorkspaceRename(asked) => asked.workspace_id@ == target,
        _ => false,
    }
}

/// What a host must have for a change to be sent there: it is connected, it
/// advertises that very method, and a close is confirmed.
pub open spec fn takes_change(source: Option<HostView>, method: Method) -> bool {
    &&& source matches Some(known) && known.status is Connected && is_advertised(known, method)
    &&& method matches Method::PaneClose(asked) ==> asked.confirm
    &&& method matches Method::TabClose(asked) ==> asked.confirm
}

proof fn lemma_refusal(federation: FederationView, host: RemoteHostConfig, method: Method)
    ensures
        ({
            let source = cached_host(federation.sources, host.spec_key()@);
            let refusal = host_refusal(
                federation,
                host,
                match method {
                    Method::TabCreate(_) | Method::TabFocus(_) | Method::TabClose(_)
                    | Method::TabRename(_) => "tab"@,
                    Method::WorkspaceRename(_) => "workspace"@,
                    _ => "pane"@,
                },
                capability_for(method),
            );
            is_change(method) ==> (refusal is None) == (source matches Some(known)
                && known.status is Connected && is_advertised(known, method))
        }),
{
    if let Some(source) = cached_host(federation.sources, host.spec_key()@) {
        each_method_has_its_own_flag(source.capabilities);
    }
}

/// The methods that may be routed to a host.
pub open spec fn is_change(method: Method) -> bool {
    match method {
        Method::PaneFocus(_) | Method::PaneFocusDirection(_) | Method::PaneRename(_)
        | Method::PaneSplit(_) | Method::PaneClose(_) => true,
        Method::TabCreate(_) | Method::TabFocus(_) | Method::TabClose(_)
        | Method::TabRename(_) => true,
        Method::WorkspaceRename(_) => true,
        _ => false,
    }
}

/// A change on `alias/pane:id` is sent exactly where nothing stands in its way: the
/// host takes it, and the pane is known there and up to date. A pane stands for no
/// tab and no workspace.
#[verifier::spinoff_prover]
pub proof fn pane_changes_are_sent_where_they_can(
    federation: FederationView,
    request: Request,
    alias: Seq<char>,
    id: Seq<char>,
    host: RemoteHostConfig,
)
    requires
        alias.len() > 0,
        !alias.contains('/'),
        id.len() > 0,
        configured(federation.hosts, alias) == Some(host),
        asked_about(request.method, alias + seq!['/'] + ("pane:"@ + id)),
    ensures
        !(routed_plan(federation, request) is NotHandled),
        (routed_plan(federation, request) is Deferred) == (takes_change(
            cached_host(federation.sources, host.spec_key()@),
            request.method,
        ) && (match request.method {
            Method::TabCreate(_) | Method::WorkspaceRename(_) => false,
            Method::TabFocus(_) | Method::TabClose(_) | Method::TabRename(_) => false,
            _ => pane_lookup(federation.sources, host, SelectorView::Pane(id)) is One,
        })),
{
    lemma_route(federation.hosts, alias, id);
    lemma_refusal(federation, host, request.method);
    tabs_go_by_their_identifier(federation.sources, host, id);
    workspaces_go_by_their_identifier(federation.sources, host, id);
}

/// A change on `alias/tab:id` is sent exactly where nothing stands in its way: the
/// host takes it, and the tab is known there and up to date. A tab stands for no
/// pane and no workspace.
#[verifier::spinoff_prover]
pub proof fn tab_changes_are_sent_where_they_can(
    federation: FederationView,
    request: Request,
    alias: Seq<char>,
    id: Seq<char>,
    host: RemoteHostConfig,
)
    requires
        alias.len() > 0,
        !alias.contains('/'),
        id.len() > 0,
        configured(federation.hosts, alias) == Some(host),
        asked_about(request.method, alias + seq!['/'] + ("tab:"@ + id)),
    ensures
        !(routed_plan(federation, request) is NotHandled),
        (routed_plan(federation, request) is Deferred) == (takes_change(
            cached_host(federation.sources, host.spec_key()@),
            request.method,
        ) && (match request.method {
            Method::TabFocus(_) | Method::TabClose(_) | Method::TabRename(_) => tab_lookup(
                federation.sources,
                host,
                SelectorView::Tab(id),
            ) is One,
            _ => false,
        })),
{
    lemma_route(federation.hosts, alias, id);
    lemma_refusal(federation, host, request.method);
    panes_go_by_their_identifier(federation.sources, host, id);
    workspaces_go_by_their_identifier(federation.sources, host, id);
}

/// A change on `alias/workspace:id` is sent exactly where nothing stands in its way:
/// the host takes it, and the workspace is known there; where it stands for its
/// focused pane, its layout too. A workspace stands for no tab.
#[verifier::spinoff_prover]
pub proof fn workspace_changes_are_sent_where_they_can(
    federation: FederationView,
    request: Request,
    alias: Seq<char>,
    id: Seq<char>,
    host: RemoteHostConfig,
)
    requires
        alias.len() > 0,
        !alias.contains('/'),
        id.len() > 0,
        configured(federation.hosts, alias) == Some(host),
        asked_about(request.method, alias + seq!['/'] + ("workspace:"@ + id)),
    ensures
        !(routed_plan(federation, request) is NotHandled),
        (routed_plan(federation, request) is Deferred) == (takes_change(
            cached_host(federation.sources, host.spec_key()@),
            request.method,
        ) && (match request.method {
            Method::TabCreate(_) | Method::WorkspaceRename(_) => workspace_lookup(
                federation.sources,
                host,
                SelectorView::Workspace(id),
            ) is One,
            Method::TabFocus(_) | Method::TabClose(_) | Method::TabRename(_) => false,
            _ => pane_lookup(federation.sources, host, SelectorView::Workspace(id)) is One,
        })),
{
    lemma_route(federation.hosts, alias, id);
    lemma_refusal(federation, host, request.method);
    tabs_go_by_their_identifier(federation.sources, host, id);
}

/// Without a slash, or where the text before the first one is no configured host's
/// name, a change is not for a host.
pub proof fn other_names_stay_local(
    federation: FederationView,
    request: Request,
    alias: Seq<char>,
    rest: Seq<char>,
)
    requires
        !alias.contains('/'),
    ensures
        asked_about(request.method, alias) ==> routed_plan(federation, request) is NotHandled,
        asked_about(request.method, alias + seq!['/'] + rest) && (forall|i: int|
            0 <= i < federation.hosts.len() ==> (#[trigger] federation.hosts[i]).name@ != alias)
            ==> routed_plan(federation, request) is NotHandled,
{
    alias.index_of_first_ensures('/');
    lemma_before_slash(alias, rest);
    hosts_go_by_their_names(federation.hosts, alias);
}

/// A planned change carries what is cached of its own host: what was prepared for
/// it, whether it lists tabs and exports layouts, and its supervisor's generation.
#[verifier::spinoff_prover]
pub proof fn changes_carry_their_hosts_state(federation: FederationView, request: Request)
    requires
        routed_plan(federation, request) is Deferred,
    ensures
        ({
            let planned = routed_plan(federation, request)->Deferred_0;
            &&& planned.sink is None
            &&& exists|s: int|
                0 <= s < federation.sources.len() && {
                    let source = #[trigger] federation.sources[s];
                    &&& source.key.host@ == planned.host.name@
                    &&& source.key.session@ == planned.host.session@
                    &&& source.status is Connected
                    &&& planned.bridge_state == source.bridge_state
                    &&& planned.spec.tab_list_capable == source.capabilities.tab_list
                    &&& planned.spec.layout_export_capable == source.capabilities.layout_export
                }
            &&& match planned.source_generation {
                Some(generation) => exists|v: int|
                    0 <= v < federation.supervisors.len() && {
                        let handle = #[trigger] federation.supervisors[v];
                        &&& handle.generation == generation
                        &&& handle.host_key.host@ == planned.host.name@
                        &&& handle.host_key.session@ == planned.host.session@
                    },
                None => forall|v: int|
                    0 <= v < federation.supervisors.len() ==> (
                    #[trigger] federation.supervisors[v]).host_key.host@ != planned.host.name@
                        || federation.supervisors[v].host_key.session@ != planned.host.session@,
            }
        }),
{
    let planned = routed_plan(federation, request)->Deferred_0;
    let key = planned.host.spec_key();
    assert(planned.host_key == key);
    sessions_go_by_both_names(federation.sources, key);
    let source = cached_host(federation.sources, key@)->0;
    let s = choose|s: int| 0 <= s < federation.sources.len() && federation.sources[s] == source;
    assert(federation.sources[s] == source);
    let watched = supervises(key@);
    lemma_first_holds(federation.supervisors, watched);
    match first_where(federation.supervisors, watched) {
        Some(v) => {
            assert(watched(federation.supervisors[v]));
        },
        None => {
            assert forall|v: int| 0 <= v < federation.supervisors.len() implies (
            #[trigger] federation.supervisors[v]).host_key.host@ != planned.host.name@
                || federation.supervisors[v].host_key.session@ != planned.host.session@ by {
                assert(!watched(federation.supervisors[v]));
            }
        },
    }
}

// Agents on a host -------------------------------------------------------

/// What is sent to an agent on a host is what the client asked of it: the same method
/// with the same values. Only the target is the host's own identifier of the agent's
/// terminal. A start names no host any more, keeps what is started and where, and
/// asks for a new workspace exactly where it names no place.
#[verifier::spinoff_prover]
pub proof fn dispatches_keep_what_was_asked(federation: FederationView, request: Request)
    requires
        agent_plan(federation, request) is Deferred,
    ensures
        ({
            let sent = agent_plan(federation, request)->Deferred_0.request;
            &&& sent.id == request.id
            &&& match request.method {
                Method::AgentFocus(_) => sent.method is AgentFocus,
                Method::AgentRead(asked) => sent.method matches Method::AgentRead(q) && q.source
                    == asked.source && q.lines == asked.lines && q.format == asked.format
                    && q.strip_ansi == asked.strip_ansi,
                Method::AgentSend(asked) => sent.method matches Method::AgentSend(q) && q.text
                    == asked.text,
                Method::AgentSubmit(asked) => sent.method matches Method::AgentSubmit(q) && q.text
                    == asked.text,
                Method::AgentTeardown(asked) => sent.method matches Method::AgentTeardown(q)
                    && q.confirm && asked.confirm,
                Method::AgentStart(asked) => sent.method matches Method::AgentStart(q)
                    && q.host is None && q.name == asked.name && q.cwd == asked.cwd
                    && q.workspace_id == asked.workspace_id && q.tab_id == asked.tab_id && q.split
                    == asked.split && q.focus == asked.focus && q.argv == asked.argv && q.env
                    == asked.env && q.new_workspace == (asked.workspace_id is None
                    && asked.tab_id is None),
                _ => false,
            }
        }),
{
}

/// The target of a request to an agent, in the client's words.
pub open spec fn asked_agent(method: Method, target: Seq<char>) -> bool {
    match method {
        Method::AgentFocus(asked) => asked.target@ == target,
        Method::AgentRead(asked) => asked.target@ == target,
        Method::AgentSend(asked) => asked.target@ == target,
        Method::AgentSubmit(asked) => asked.target@ == target,
        Method::AgentTeardown(asked) => asked.target@ == target,
        _ => false,
    }
}

/// The target of a request to an agent, as it is sent.
pub open spec fn sent_target(method: Method) -> Option<Seq<char>> {
    match method {
        Method::AgentFocus(sent) => Some(sent.target@),
        Method::AgentRead(sent) => Some(sent.target@),
        Method::AgentSend(sent) => Some(sent.target@),
        Method::AgentSubmit(sent) => Some(sent.target@),
        Method::AgentTeardown(sent) => Some(sent.target@),
        _ => None,
    }
}

proof fn lemma_agent_target(alias: Seq<char>, id: Seq<char>)
    requires
        alias.len() > 0,
        !alias.contains('/'),
        id.len() > 0,
    ensures
        crate::remote_target::route_of(alias + seq!['/'] + ("terminal:"@ + id)) == (
        crate::remote_target::RouteView::Remote {
            host: alias,
            target: SelectorView::Terminal(id),
        }),
{
    targets_read_back(alias, id);
}

/// A request to the agent `alias/terminal:id` goes to the host of that alias and to
/// its terminal `id`. It goes there exactly where the host lists one such agent and
/// is connected, or the agent is only read; a teardown must be confirmed. Only the
/// identifier of the reply is replaced.
#[verifier::spinoff_prover]
pub proof fn terminal_requests_reach_the_named_terminal(
    federation: FederationView,
    request: Request,
    alias: Seq<char>,
    id: Seq<char>,
    host: RemoteHostConfig,
)
    requires
        alias.len() > 0,
        !alias.contains('/'),
        id.len() > 0,
        configured(federation.hosts, alias) == Some(host),
        asked_agent(request.method, alias + seq!['/'] + ("terminal:"@ + id)),
    ensures
        ({
            let plan = agent_plan(federation, request);
            let lookup = agent_lookup(federation.sources, host, SelectorView::Terminal(id));
            &&& !(plan is NotHandled)
            &&& (plan is Deferred) == (lookup is One && (request.method is AgentRead
                || lookup->One_0.status is Connected) && (
            request.method matches Method::AgentTeardown(asked) ==> asked.confirm))
            &&& plan is Deferred ==> plan->Deferred_0.host == host && plan->Deferred_0.host.name@
                == alias && sent_target(plan->Deferred_0.request.method) == Some(id)
                && plan->Deferred_0.rewrite is Id
        }),
{
    lemma_agent_target(alias, id);
    hosts_go_by_their_names(federation.hosts, alias);
    terminals_name_their_agent(federation.sources, host, id);
    assert(federation.hosts.len() > 0);
}

/// A request to the agent `alias/label` goes to the terminal of the one agent of
/// that host that carries the label.
#[verifier::spinoff_prover]
pub proof fn label_requests_reach_the_labelled_agent(
    federation: FederationView,
    request: Request,
    alias: Seq<char>,
    label: Seq<char>,
    host: RemoteHostConfig,
)
    requires
        alias.len() > 0,
        !alias.contains('/'),
        label.len() > 0,
        is_plain_label(label),
        configured(federation.hosts, alias) == Some(host),
        asked_agent(request.method, alias + seq!['/'] + label),
    ensures
        ({
            let plan = agent_plan(federation, request);
            let lookup = agent_lookup(federation.sources, host, SelectorView::Label(label));
            &&& !(plan is NotHandled)
            &&& (plan is Deferred) == (lookup is One && (request.method is AgentRead
                || lookup->One_0.status is Connected) && (
            request.method matches Method::AgentTeardown(asked) ==> asked.confirm))
            &&& plan is Deferred ==> plan->Deferred_0.host == host && sent_target(
                plan->Deferred_0.request.method,
            ) == Some(lookup->One_0.agent.terminal_id@) && plan->Deferred_0.rewrite is Id
        }),
{
    targets_read_back(alias, label);
    hosts_go_by_their_names(federation.hosts, alias);
    assert(federation.hosts.len() > 0);
}

/// A start on a host goes to the configured host of that alias. It is refused where
/// no host has the alias, where the host is only connected by hand, and where the
/// host was reported as anything but connected; a host of which nothing was
/// reported may be tried. The labels of the started agent then carry the host.
#[verifier::spinoff_prover]
pub proof fn starts_go_to_the_named_host(federation: FederationView, request: Request)
    requires
        request.method matches Method::AgentStart(asked) && asked.host is Some,
    ensures
        ({
            let alias = request.method->AgentStart_0.host->0@;
            let plan = agent_plan(federation, request);
            &&& !(plan is NotHandled)
            &&& (plan is Deferred) == (configured(federation.hosts, alias) matches Some(host) && !(
            host.connection_policy is Manual) && match cached_host(
                federation.sources,
                host.spec_key()@,
            ) {
                Some(source) => source.status is Connected,
                None => true,
            })
            &&& plan is Deferred ==> plan->Deferred_0.host.name@ == alias
                && federation.hosts.contains(plan->Deferred_0.host)
                && plan->Deferred_0.rewrite is AgentStart
        }),
{
    let alias = request.method->AgentStart_0.host->0@;
    hosts_go_by_their_names(federation.hosts, alias);
    if let Some(host) = configured(federation.hosts, alias) {
        let i = choose|i: int|
            0 <= i < federation.hosts.len() && #[trigger] federation.hosts[i] == host;
        assert(federation.hosts.contains(federation.hosts[i]));
    }
}

/// A request to an agent carries what was prepared for its own host while that is
/// connected, and nothing otherwise.
#[verifier::spinoff_prover]
pub proof fn dispatches_carry_their_hosts_state(federation: FederationView, request: Request)
    requires
        agent_plan(federation, request) is Deferred,
    ensures
        ({
            let planned = agent_plan(federation, request)->Deferred_0;
            planned.bridge_state == (match cached_host(
                federation.sources,
                planned.host.spec_key()@,
            ) {
                Some(source) => if source.status is Connected {
                    source.bridge_state
                } else {
                    None
                },
                None => None,
            })
        }),
{
}

/// A start without a host, and a target without a slash, are local.
pub proof fn other_agents_stay_local(
    federation: FederationView,
    request: Request,
    target: Seq<char>,
)
    requires
        !target.contains('/'),
    ensures
        asked_agent(request.method, target) && (
        request.method matches Method::AgentTeardown(asked) ==> asked.confirm) ==> agent_plan(
            federation,
            request,
        ) is NotHandled,
        request.method matches Method::AgentStart(asked) && asked.host is None ==> agent_plan(
            federation,
            request,
        ) is NotHandled,
{
    empty_parts_are_malformed(target, Seq::empty());
}

} // verus!
