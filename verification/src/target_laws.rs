//! What a target names, said of the hosts, agents, workspaces, tabs and panes
//! themselves.
use vstd::prelude::*;
use crate::layout::{leaves, pane_id_in, pane_named};
use crate::remote_source::{
    cached_host, host_is, projection_of, tab_named, workspace_named, HostView, RemoteHostKey,
};
use crate::remote_target::{
    agent_lookup, agents_named, configured, host_named, lists_tab, names_agent, pane_lookup,
    planned_route, route_of, shows_pane, tab_lookup, workspace_lookup, AgentLookup, PaneLookup,
    PlannedView, RemoteHostConfig, RemoteTargetParseError, RouteView, SelectorView, TabLookup,
    WorkspaceLookup,
};
use crate::schema::{AgentInfo, LayoutNode};
use crate::search::{first_where, lemma_first_holds};

verus! {

// Hosts ------------------------------------------------------------------

/// A host is configured under its name: the first host of that name is found, and
/// one is found wherever there is one.
pub proof fn hosts_go_by_their_names(hosts: Seq<RemoteHostConfig>, alias: Seq<char>)
    ensures
        match configured(hosts, alias) {
            Some(host) => exists|i: int|
                0 <= i < hosts.len() && #[trigger] hosts[i] == host && host.name@ == alias && forall|
                    j: int,
                |
                    0 <= j < i ==> (#[trigger] hosts[j]).name@ != alias,
            None => forall|j: int| 0 <= j < hosts.len() ==> (#[trigger] hosts[j]).name@ != alias,
        },
{
    lemma_first_holds(hosts, host_named(alias));
    let named = host_named(alias);
    match first_where(hosts, named) {
        Some(i) => {
            assert(named(hosts[i]));
            assert forall|j: int| 0 <= j < i implies (#[trigger] hosts[j]).name@ != alias by {
                assert(!named(hosts[j]));
            }
        },
        None => {
            assert forall|j: int| 0 <= j < hosts.len() implies (#[trigger] hosts[j]).name@
                != alias by {
                assert(!named(hosts[j]));
            }
        },
    }
}

/// What is cached of a session is found under its host and its own name: neither
/// another host's session of that name nor another session of that host.
pub proof fn sessions_go_by_both_names(hosts: Seq<HostView>, key: RemoteHostKey)
    ensures
        match cached_host(hosts, key@) {
            Some(host) => host.key.host@ == key.host@ && host.key.session@ == key.session@
                && hosts.contains(host),
            None => forall|j: int|
                0 <= j < hosts.len() ==> (#[trigger] hosts[j]).key.host@ != key.host@
                    || hosts[j].key.session@ != key.session@,
        },
{
    lemma_first_holds(hosts, host_is(key@));
    let named = host_is(key@);
    match first_where(hosts, named) {
        Some(i) => {
            assert(named(hosts[i]));
            assert(hosts.contains(hosts[i]));
        },
        None => {
            assert forall|j: int| 0 <= j < hosts.len() implies (#[trigger] hosts[j]).key.host@
                != key.host@ || hosts[j].key.session@ != key.session@ by {
                assert(!named(hosts[j]));
            }
        },
    }
}

/// A configured host is looked up in the cache under its own name and session.
pub proof fn configured_hosts_have_their_own_entry(hosts: Seq<HostView>, host: RemoteHostConfig)
    ensures
        match cached_host(hosts, host.spec_key()@) {
            Some(source) => source.key.host@ == host.name@ && source.key.session@ == host.session@,
            None => forall|j: int|
                0 <= j < hosts.len() ==> (#[trigger] hosts[j]).key.host@ != host.name@
                    || hosts[j].key.session@ != host.session@,
        },
{
    sessions_go_by_both_names(hosts, host.spec_key());
}

// Reading a target -------------------------------------------------------

/// A word that reads as no kind of identifier.
pub open spec fn is_plain_label(label: Seq<char>) -> bool {
    &&& !"workspace:"@.is_prefix_of(label)
    &&& !"tab:"@.is_prefix_of(label)
    &&& !"pane:"@.is_prefix_of(label)
    &&& !"terminal:"@.is_prefix_of(label)
}

proof fn lemma_first_slash(alias: Seq<char>, rest: Seq<char>)
    requires
        !alias.contains('/'),
    ensures
        (alias + seq!['/'] + rest).index_of_first('/') == Some(alias.len() as int),
        (alias + seq!['/'] + rest).take(alias.len() as int) == alias,
        (alias + seq!['/'] + rest).skip(alias.len() as int + 1) == rest,
{
    let target = alias + seq!['/'] + rest;
    target.index_of_first_ensures('/');
    assert(target[alias.len() as int] == '/');
    assert forall|j: int| 0 <= j < alias.len() implies target[j] != '/' by {
        assert(target[j] == alias[j]);
    }
    assert(target.take(alias.len() as int) =~= alias);
    assert(target.skip(alias.len() as int + 1) =~= rest);
}

/// The words before an identifier start with different letters.
proof fn lemma_kinds_differ(id: Seq<char>)
    ensures
        !"workspace:"@.is_prefix_of("tab:"@ + id),
        !"workspace:"@.is_prefix_of("pane:"@ + id),
        !"workspace:"@.is_prefix_of("terminal:"@ + id),
        !"tab:"@.is_prefix_of("pane:"@ + id),
        !"tab:"@.is_prefix_of("terminal:"@ + id),
        !"pane:"@.is_prefix_of("terminal:"@ + id),
        "workspace:"@.is_prefix_of("workspace:"@ + id),
        "tab:"@.is_prefix_of("tab:"@ + id),
        "pane:"@.is_prefix_of("pane:"@ + id),
        "terminal:"@.is_prefix_of("terminal:"@ + id),
        ("workspace:"@ + id).skip("workspace:"@.len() as int) == id,
        ("tab:"@ + id).skip("tab:"@.len() as int) == id,
        ("pane:"@ + id).skip("pane:"@.len() as int) == id,
        ("terminal:"@ + id).skip("terminal:"@.len() as int) == id,
{
    reveal_strlit("workspace:");
    reveal_strlit("tab:");
    reveal_strlit("pane:");
    reveal_strlit("terminal:");
    let tab = "tab:"@ + id;
    let pane = "pane:"@ + id;
    let terminal = "terminal:"@ + id;
    assert(tab[0] == 't' && tab[1] == 'a');
    assert(pane[0] == 'p');
    assert(terminal[0] == 't' && terminal[1] == 'e');
    assert("workspace:"@[0] == 'w');
    assert("tab:"@[1] == 'a');
    assert("workspace:"@.is_prefix_of(tab) ==> tab.subrange(0, 10)[0] == 'w');
    assert("workspace:"@.is_prefix_of(pane) ==> pane.subrange(0, 10)[0] == 'w');
    assert("workspace:"@.is_prefix_of(terminal) ==> terminal.subrange(0, 10)[0] == 'w');
    assert("tab:"@.is_prefix_of(pane) ==> pane.subrange(0, 4)[0] == 't');
    assert("tab:"@.is_prefix_of(terminal) ==> terminal.subrange(0, 4)[1] == 'a');
    assert("pane:"@.is_prefix_of(terminal) ==> terminal.subrange(0, 5)[0] == 'p');
    assert(("workspace:"@ + id).subrange(0, 10) =~= "workspace:"@);
    assert(tab.subrange(0, 4) =~= "tab:"@);
    assert(pane.subrange(0, 5) =~= "pane:"@);
    assert(terminal.subrange(0, 9) =~= "terminal:"@);
    assert(("workspace:"@ + id).skip(10) =~= id);
    assert(tab.skip(4) =~= id);
    assert(pane.skip(5) =~= id);
    assert(terminal.skip(9) =~= id);
}

/// A target that is written as a host, a slash, a kind and an identifier reads back
/// as that host and that identifier of that kind. The identifier may hold slashes
/// and colons of its own.
pub proof fn targets_read_back(alias: Seq<char>, id: Seq<char>)
    requires
        alias.len() > 0,
        !alias.contains('/'),
        id.len() > 0,
    ensures
        route_of(alias + seq!['/'] + ("workspace:"@ + id)) == (RouteView::Remote {
            host: alias,
            target: SelectorView::Workspace(id),
        }),
        route_of(alias + seq!['/'] + ("tab:"@ + id)) == (RouteView::Remote {
            host: alias,
            target: SelectorView::Tab(id),
        }),
        route_of(alias + seq!['/'] + ("pane:"@ + id)) == (RouteView::Remote {
            host: alias,
            target: SelectorView::Pane(id),
        }),
        route_of(alias + seq!['/'] + ("terminal:"@ + id)) == (RouteView::Remote {
            host: alias,
            target: SelectorView::Terminal(id),
        }),
        is_plain_label(id) ==> route_of(alias + seq!['/'] + id) == (RouteView::Remote {
            host: alias,
            target: SelectorView::Label(id),
        }),
{
    lemma_first_slash(alias, "workspace:"@ + id);
    lemma_first_slash(alias, "tab:"@ + id);
    lemma_first_slash(alias, "pane:"@ + id);
    lemma_first_slash(alias, "terminal:"@ + id);
    lemma_first_slash(alias, id);
    lemma_kinds_differ(id);
}

/// Without a slash a target is local. With one, neither side of it may be empty,
/// nor the identifier after a kind.
pub proof fn empty_parts_are_malformed(alias: Seq<char>, rest: Seq<char>)
    requires
        !alias.contains('/'),
    ensures
        route_of(alias) is Local,
        route_of(seq!['/'] + rest) == RouteView::Malformed(RemoteTargetParseError::EmptyHost),
        alias.len() > 0 ==> {
            let none = RouteView::Malformed(RemoteTargetParseError::EmptyTarget);
            &&& route_of(alias + seq!['/']) == none
            &&& route_of(alias + seq!['/'] + "workspace:"@) == none
            &&& route_of(alias + seq!['/'] + "tab:"@) == none
            &&& route_of(alias + seq!['/'] + "pane:"@) == none
            &&& route_of(alias + seq!['/'] + "terminal:"@) == none
        },
{
    alias.index_of_first_ensures('/');
    let nothing = Seq::<char>::empty();
    assert(!nothing.contains('/'));
    lemma_first_slash(nothing, rest);
    assert(nothing + seq!['/'] + rest =~= seq!['/'] + rest);
    lemma_first_slash(alias, nothing);
    assert(alias + seq!['/'] + nothing =~= alias + seq!['/']);
    lemma_kinds_differ(nothing);
    assert("workspace:"@ + nothing =~= "workspace:"@);
    assert("tab:"@ + nothing =~= "tab:"@);
    assert("pane:"@ + nothing =~= "pane:"@);
    assert("terminal:"@ + nothing =~= "terminal:"@);
    lemma_first_slash(alias, "workspace:"@);
    lemma_first_slash(alias, "tab:"@);
    lemma_first_slash(alias, "pane:"@);
    lemma_first_slash(alias, "terminal:"@);
    reveal_strlit("workspace:");
    reveal_strlit("tab:");
    reveal_strlit("pane:");
    reveal_strlit("terminal:");
}

/// A target is planned for the configured host that it names, and for no other: an
/// unknown name is refused by that name.
pub proof fn targets_are_planned_for_their_host(
    hosts: Seq<RemoteHostConfig>,
    alias: Seq<char>,
    id: Seq<char>,
)
    requires
        alias.len() > 0,
        !alias.contains('/'),
        id.len() > 0,
    ensures
        match planned_route(hosts, alias + seq!['/'] + ("pane:"@ + id)) {
            PlannedView::Remote { host, target } => host.name@ == alias && hosts.contains(host)
                && target == SelectorView::Pane(id),
            PlannedView::UnknownHost(name) => name == alias && forall|j: int|
                0 <= j < hosts.len() ==> (#[trigger] hosts[j]).name@ != alias,
            _ => false,
        },
        is_plain_label(id) ==> match planned_route(hosts, alias + seq!['/'] + id) {
            PlannedView::Remote { host, target } => host.name@ == alias && hosts.contains(host)
                && target == SelectorView::Label(id),
            PlannedView::UnknownHost(name) => name == alias && forall|j: int|
                0 <= j < hosts.len() ==> (#[trigger] hosts[j]).name@ != alias,
            _ => false,
        },
{
    targets_read_back(alias, id);
    hosts_go_by_their_names(hosts, alias);
}

// Agents -----------------------------------------------------------------

/// `agent` carries the label `label` in one of the three places where it may.
pub open spec fn carries_label(agent: AgentInfo, label: Seq<char>) -> bool {
    ||| agent.name matches Some(name) && name@ == label
    ||| agent.display_agent matches Some(name) && name@ == label
    ||| agent.agent matches Some(name) && name@ == label
}

proof fn lemma_agents_named(agents: Seq<AgentInfo>, selector: SelectorView)
    ensures
        forall|k: int|
            0 <= k < agents_named(agents, selector).len() ==> agents.contains(
                #[trigger] agents_named(agents, selector)[k],
            ) && names_agent(agents_named(agents, selector)[k], selector),
        agents_named(agents, selector).len() == 0 ==> forall|j: int|
            0 <= j < agents.len() ==> !names_agent(
                #[trigger] agents[j],
                selector,
            ),
        agents_named(agents, selector).len() == 1 ==> forall|i: int, j: int|
            0 <= i < j < agents.len() ==> !(names_agent(
                #[trigger] agents[i],
                selector,
            ) && names_agent(#[trigger] agents[j], selector)),
        agents_named(agents, selector).len() > 1 ==> exists|i: int, j: int|
            0 <= i < j < agents.len() && names_agent(
                #[trigger] agents[i],
                selector,
            ) && names_agent(#[trigger] agents[j], selector),
    decreases agents.len(),
{
    if agents.len() > 0 {
        let rest = agents.drop_last();
        lemma_agents_named(rest, selector);
        let found = agents_named(agents, selector);
        let before = agents_named(rest, selector);
        assert forall|j: int| 0 <= j < rest.len() implies rest[j] == agents[j] by {}
        assert forall|k: int| 0 <= k < found.len() implies agents.contains(#[trigger] found[k])
            && names_agent(found[k], selector) by {
            if k < before.len() {
                assert(found[k] == before[k]);
                let i = choose|i: int| 0 <= i < rest.len() && rest[i] == before[k];
                assert(agents[i] == found[k]);
            } else {
                assert(found[k] == agents[agents.len() - 1]);
            }
        }
        if names_agent(agents.last(), selector) && before.len() > 0 {
            let k = 0int;
            let i = choose|i: int| 0 <= i < rest.len() && rest[i] == before[k];
            assert(rest[i] == agents[i]);
            assert(names_agent(agents[i], selector));
            assert(names_agent(agents[agents.len() - 1], selector));
        }
        if found.len() == 0 {
            assert forall|j: int| 0 <= j < agents.len() implies !names_agent(
                #[trigger] agents[j],
                selector,
            ) by {
                if j < rest.len() {
                    assert(rest[j] == agents[j]);
                }
            }
        }
        if found.len() == 1 {
            assert forall|i: int, j: int| 0 <= i < j < agents.len() implies !(
            names_agent(#[trigger] agents[i], selector)
                && names_agent(#[trigger] agents[j], selector)) by {
                assert(rest[i] == agents[i]);
                if j < rest.len() {
                    assert(rest[j] == agents[j]);
                }
            }
        }
        if before.len() > 1 {
            let (i, j) = choose|i: int, j: int|
                0 <= i < j < rest.len() && names_agent(
                    #[trigger] rest[i],
                    selector,
                ) && names_agent(#[trigger] rest[j], selector);
            assert(agents[i] == rest[i] && agents[j] == rest[j]);
        }
    }
}

/// Looking up a terminal on a host finds the one agent that runs in it, with the
/// host's own status; it finds none where no agent of the host runs in it.
pub proof fn terminals_name_their_agent(
    hosts: Seq<HostView>,
    host: RemoteHostConfig,
    id: Seq<char>,
)
    ensures
        match agent_lookup(hosts, host, SelectorView::Terminal(id)) {
            AgentLookup::One(entry) => exists|s: int, a: int|
                0 <= s < hosts.len() && 0 <= a < hosts[s].agents.len() && entry.agent
                    == #[trigger] hosts[s].agents[a] && entry.agent.terminal_id@ == id
                    && hosts[s].key.host@ == host.name@ && hosts[s].key.session@ == host.session@
                    && entry.status == hosts[s].status && entry.host == hosts[s].key,
            AgentLookup::Missing => match cached_host(hosts, host.spec_key()@) {
                Some(source) => forall|a: int|
                    0 <= a < source.agents.len() ==> (#[trigger] source.agents[a]).terminal_id@
                        != id,
                None => true,
            },
            AgentLookup::Many(found) => found.len() > 1 && forall|k: int|
                0 <= k < found.len() ==> (#[trigger] found[k]).terminal_id@ == id,
            AgentLookup::Unsupported => false,
        },
{
    let selector = SelectorView::Terminal(id);
    configured_hosts_have_their_own_entry(hosts, host);
    lemma_first_holds(hosts, host_is(host.spec_key()@));
    if let Some(source) = cached_host(hosts, host.spec_key()@) {
        lemma_agents_named(source.agents, selector);
        if agents_named(source.agents, selector).len() == 1 {
            let s = first_where(hosts, host_is(host.spec_key()@))->0;
            let agent = agents_named(source.agents, selector)[0];
            let a = choose|a: int| 0 <= a < source.agents.len() && source.agents[a] == agent;
            assert(hosts[s].agents[a] == agent);
        }
    }
}

/// Looking up a pane on a host finds the one agent that runs in it.
pub proof fn panes_name_their_agent(hosts: Seq<HostView>, host: RemoteHostConfig, id: Seq<char>)
    ensures
        match agent_lookup(hosts, host, SelectorView::Pane(id)) {
            AgentLookup::One(entry) => entry.agent.pane_id@ == id && entry.host.host@ == host.name@
                && entry.host.session@ == host.session@,
            AgentLookup::Missing => match cached_host(hosts, host.spec_key()@) {
                Some(source) => forall|a: int|
                    0 <= a < source.agents.len() ==> (#[trigger] source.agents[a]).pane_id@ != id,
                None => true,
            },
            AgentLookup::Many(found) => found.len() > 1 && forall|k: int|
                0 <= k < found.len() ==> (#[trigger] found[k]).pane_id@ == id,
            AgentLookup::Unsupported => false,
        },
{
    let selector = SelectorView::Pane(id);
    configured_hosts_have_their_own_entry(hosts, host);
    if let Some(source) = cached_host(hosts, host.spec_key()@) {
        lemma_agents_named(source.agents, selector);
    }
}

/// A label finds an agent of the host that carries it, by its name, its shown name
/// or its kind; where two agents carry it, none is picked.
pub proof fn labels_name_one_agent(hosts: Seq<HostView>, host: RemoteHostConfig, label: Seq<char>)
    ensures
        match cached_host(hosts, host.spec_key()@) {
            Some(source) => match agent_lookup(hosts, host, SelectorView::Label(label)) {
                AgentLookup::One(entry) => source.agents.contains(entry.agent) && carries_label(
                    entry.agent,
                    label,
                ) && entry.status == source.status && forall|i: int, j: int|
                    0 <= i < j < source.agents.len() ==> !(carries_label(
                        #[trigger] source.agents[i],
                        label,
                    ) && carries_label(#[trigger] source.agents[j], label)),
                AgentLookup::Missing => forall|a: int|
                    0 <= a < source.agents.len() ==> !carries_label(
                        #[trigger] source.agents[a],
                        label,
                    ),
                AgentLookup::Many(found) => exists|i: int, j: int|
                    0 <= i < j < source.agents.len() && carries_label(
                        #[trigger] source.agents[i],
                        label,
                    ) && carries_label(#[trigger] source.agents[j], label),
                AgentLookup::Unsupported => false,
            },
            None => agent_lookup(hosts, host, SelectorView::Label(label)) is Missing,
        },
{
    let selector = SelectorView::Label(label);
    if let Some(source) = cached_host(hosts, host.spec_key()@) {
        let agents = source.agents;
        lemma_agents_named(agents, selector);
        assert forall|agent: AgentInfo|
            #[trigger] names_agent(agent, selector) == carries_label(
                agent,
                label,
            ) by {}
        if agents_named(agents, selector).len() == 0 {
            assert forall|a: int| 0 <= a < agents.len() implies !carries_label(
                #[trigger] agents[a],
                label,
            ) by {
                assert(!names_agent(agents[a], selector));
            }
        } else if agents_named(agents, selector).len() == 1 {
            assert forall|i: int, j: int| 0 <= i < j < agents.len() implies !(carries_label(
                #[trigger] agents[i],
                label,
            ) && carries_label(#[trigger] agents[j], label)) by {
                assert(!(names_agent(agents[i], selector)
                    && names_agent(agents[j], selector)));
            }
        } else {
            let (i, j) = choose|i: int, j: int|
                0 <= i < j < agents.len() && names_agent(
                    #[trigger] agents[i],
                    selector,
                ) && names_agent(#[trigger] agents[j], selector);
            assert(carries_label(agents[i], label) && carries_label(agents[j], label));
        }
    }
}

/// A tab or a workspace never stands for an agent.
pub proof fn wider_selectors_name_no_agent(
    hosts: Seq<HostView>,
    host: RemoteHostConfig,
    id: Seq<char>,
)
    ensures
        agent_lookup(hosts, host, SelectorView::Tab(id)) is Unsupported,
        agent_lookup(hosts, host, SelectorView::Workspace(id)) is Unsupported,
{
}

// Workspaces, tabs and panes ---------------------------------------------

/// A workspace is found in the host's listing by its own identifier. Without a
/// listing nothing is said of it; with one that lacks it, it is missing.
pub proof fn workspaces_go_by_their_identifier(
    hosts: Seq<HostView>,
    host: RemoteHostConfig,
    id: Seq<char>,
)
    ensures
        match workspace_lookup(hosts, host, SelectorView::Workspace(id)) {
            WorkspaceLookup::One(workspace) => workspace.workspace_id@ == id && cached_host(
                hosts,
                host.spec_key()@,
            )->0.workspaces->0.contains(workspace),
            WorkspaceLookup::Missing => forall|w: int|
                0 <= w < cached_host(hosts, host.spec_key()@)->0.workspaces->0.len()
                    ==> (#[trigger] cached_host(
                    hosts,
                    host.spec_key()@,
                )->0.workspaces->0[w]).workspace_id@ != id,
            WorkspaceLookup::NoMetadata => cached_host(hosts, host.spec_key()@) is None
                || cached_host(hosts, host.spec_key()@)->0.workspaces is None,
            WorkspaceLookup::Unsupported => false,
        },
        workspace_lookup(hosts, host, SelectorView::Tab(id)) is Unsupported,
        workspace_lookup(hosts, host, SelectorView::Pane(id)) is Unsupported,
        workspace_lookup(hosts, host, SelectorView::Terminal(id)) is Unsupported,
        workspace_lookup(hosts, host, SelectorView::Label(id)) is Unsupported,
{
    if let Some(source) = cached_host(hosts, host.spec_key()@) {
        if let Some(workspaces) = source.workspaces {
            let named = workspace_named(id);
            lemma_first_holds(workspaces, named);
            match first_where(workspaces, named) {
                Some(i) => {
                    assert(named(workspaces[i]));
                    assert(workspaces.contains(workspaces[i]));
                },
                None => {
                    assert forall|w: int| 0 <= w < workspaces.len() implies (
                    #[trigger] workspaces[w]).workspace_id@ != id by {
                        assert(!named(workspaces[w]));
                    }
                },
            }
        }
    }
}

/// A tab is found by its own identifier, in the listing of its workspace, and only
/// where that listing is up to date. It is missing only where no listing has it.
pub proof fn tabs_go_by_their_identifier(
    hosts: Seq<HostView>,
    host: RemoteHostConfig,
    id: Seq<char>,
)
    ensures
        match tab_lookup(hosts, host, SelectorView::Tab(id)) {
            TabLookup::One { workspace_id, tab } => tab.tab_id@ == id && exists|s: int|
                0 <= s < cached_host(hosts, host.spec_key()@)->0.tabs.len() && {
                    let listing = #[trigger] cached_host(hosts, host.spec_key()@)->0.tabs[s];
                    listing.workspace_id == workspace_id && listing.status is Available
                        && listing.tabs.contains(tab)
                },
            TabLookup::Missing => forall|s: int, t: int|
                0 <= s < cached_host(hosts, host.spec_key()@)->0.tabs.len() && 0 <= t < cached_host(
                    hosts,
                    host.spec_key()@,
                )->0.tabs[s].tabs.len() ==> (#[trigger] cached_host(
                    hosts,
                    host.spec_key()@,
                )->0.tabs[s].tabs[t]).tab_id@ != id,
            TabLookup::Stale => exists|s: int|
                0 <= s < cached_host(hosts, host.spec_key()@)->0.tabs.len() && !((
                #[trigger] cached_host(hosts, host.spec_key()@)->0.tabs[s]).status is Available),
            TabLookup::NoMetadata => cached_host(hosts, host.spec_key()@) is None || cached_host(
                hosts,
                host.spec_key()@,
            )->0.tabs.len() == 0,
            TabLookup::Unsupported => false,
        },
        tab_lookup(hosts, host, SelectorView::Workspace(id)) is Unsupported,
        tab_lookup(hosts, host, SelectorView::Pane(id)) is Unsupported,
        tab_lookup(hosts, host, SelectorView::Terminal(id)) is Unsupported,
        tab_lookup(hosts, host, SelectorView::Label(id)) is Unsupported,
{
    if let Some(source) = cached_host(hosts, host.spec_key()@) {
        let listings = source.tabs;
        lemma_first_holds(listings, lists_tab(id));
        match first_where(listings, lists_tab(id)) {
            Some(s) => {
                assert(lists_tab(id)(listings[s]));
                lemma_first_holds(listings[s].tabs, tab_named(id));
                let t = first_where(listings[s].tabs, tab_named(id))->0;
                assert(tab_named(id)(listings[s].tabs[t]));
                assert(listings[s].tabs.contains(listings[s].tabs[t]));
            },
            None => {
                assert forall|s: int, t: int|
                    0 <= s < listings.len() && 0 <= t < listings[s].tabs.len() implies (
                #[trigger] listings[s].tabs[t]).tab_id@ != id by {
                    assert(!lists_tab(id)(listings[s]));
                    lemma_first_holds(listings[s].tabs, tab_named(id));
                    assert(!tab_named(id)(listings[s].tabs[t]));
                }
            },
        }
    }
}

/// A layout holds a pane exactly where one of its leaves has that identifier, and
/// the pane that is found has it.
pub proof fn layouts_find_their_panes(root: LayoutNode, id: Seq<char>)
    ensures
        match pane_id_in(root, id) {
            Some(found) => found@ == id,
            None => forall|i: int|
                0 <= i < leaves(root).len() ==> !((#[trigger] leaves(root)[i]).pane_id matches Some(
                    pane_id,
                ) && pane_id@ == id),
        },
{
    let named = pane_named(id);
    lemma_first_holds(leaves(root), named);
    match first_where(leaves(root), named) {
        Some(i) => {
            assert(named(leaves(root)[i]));
        },
        None => {
            assert forall|i: int| 0 <= i < leaves(root).len() implies !((
            #[trigger] leaves(root)[i]).pane_id matches Some(pane_id) && pane_id@ == id) by {
                assert(!named(leaves(root)[i]));
            }
        },
    }
}

/// A pane is found by its own identifier, together with the workspace whose layout
/// shows it, and only where that layout is up to date.
pub proof fn panes_go_by_their_identifier(
    hosts: Seq<HostView>,
    host: RemoteHostConfig,
    id: Seq<char>,
)
    ensures
        match pane_lookup(hosts, host, SelectorView::Pane(id)) {
            PaneLookup::One { workspace_id, pane_id } => pane_id@ == id && exists|p: int|
                0 <= p < cached_host(hosts, host.spec_key()@)->0.projections.len() && {
                    let shown = #[trigger] cached_host(hosts, host.spec_key()@)->0.projections[p];
                    shown.workspace_id == workspace_id && shown.status is Available
                        && shown.layout is Some && pane_id_in(shown.layout->0.root, id) == Some(
                        pane_id,
                    )
                },
            PaneLookup::Missing => forall|p: int|
                0 <= p < cached_host(hosts, host.spec_key()@)->0.projections.len() && (
                #[trigger] cached_host(hosts, host.spec_key()@)->0.projections[p]).layout is Some
                    ==> pane_id_in(
                    cached_host(hosts, host.spec_key()@)->0.projections[p].layout->0.root,
                    id,
                ) is None,
            PaneLookup::Stale => exists|p: int|
                0 <= p < cached_host(hosts, host.spec_key()@)->0.projections.len() && !((
                #[trigger] cached_host(
                    hosts,
                    host.spec_key()@,
                )->0.projections[p]).status is Available),
            PaneLookup::NoMetadata => cached_host(hosts, host.spec_key()@) is None || cached_host(
                hosts,
                host.spec_key()@,
            )->0.projections.len() == 0,
            PaneLookup::Unsupported => false,
        },
        pane_lookup(hosts, host, SelectorView::Tab(id)) is Unsupported,
        pane_lookup(hosts, host, SelectorView::Terminal(id)) is Unsupported,
        pane_lookup(hosts, host, SelectorView::Label(id)) is Unsupported,
{
    if let Some(source) = cached_host(hosts, host.spec_key()@) {
        let shown = source.projections;
        lemma_first_holds(shown, shows_pane(id));
        match first_where(shown, shows_pane(id)) {
            Some(p) => {
                assert(shows_pane(id)(shown[p]));
                layouts_find_their_panes(shown[p].layout->0.root, id);
            },
            None => {
                assert forall|p: int|
                    0 <= p < shown.len() && (#[trigger] shown[p]).layout is Some implies pane_id_in(
                    shown[p].layout->0.root,
                    id,
                ) is None by {
                    assert(!shows_pane(id)(shown[p]));
                }
            },
        }
    }
}

/// A workspace stands for its focused pane, where its layout is known and up to
/// date.
pub proof fn workspaces_stand_for_their_focused_pane(
    hosts: Seq<HostView>,
    host: RemoteHostConfig,
    id: Seq<char>,
)
    ensures
        match pane_lookup(hosts, host, SelectorView::Workspace(id)) {
            PaneLookup::One { workspace_id, pane_id } => workspace_id@ == id && exists|p: int|
                0 <= p < cached_host(hosts, host.spec_key()@)->0.projections.len() && {
                    let shown = #[trigger] cached_host(hosts, host.spec_key()@)->0.projections[p];
                    shown.workspace_id == workspace_id && shown.status is Available
                        && shown.layout is Some && shown.layout->0.focused_pane_id == pane_id
                },
            PaneLookup::Stale => exists|p: int|
                0 <= p < cached_host(hosts, host.spec_key()@)->0.projections.len() && {
                    let shown = #[trigger] cached_host(hosts, host.spec_key()@)->0.projections[p];
                    shown.workspace_id@ == id && !(shown.status is Available)
                },
            PaneLookup::NoMetadata => true,
            _ => false,
        },
{
    if let Some(source) = cached_host(hosts, host.spec_key()@) {
        let shown = source.projections;
        lemma_first_holds(shown, projection_of(id));
        if let Some(p) = first_where(shown, projection_of(id)) {
            assert(projection_of(id)(shown[p]));
        }
    }
}

} // verus!
