//! What holds of every lifecycle action.
use vstd::prelude::*;
use crate::lifecycle::{
    admitted, after_lifecycle_request, all_superseded_effects, answered_pending,
    connected_on_request, disconnect_changes, disconnected_on_request, generation_active,
    lifecycle_host, other_pending, other_supervisors, reconnected_on_request, reported,
    superseded_effects, supervised, LifecycleAsk, LifecycleEffectView, LifecycleView,
    PendingRemoteLifecycleResponder, RemoteSourceReport,
};
use crate::remote_source::{
    after_status, cached_host, connected, host_or_fresh, hosts_distinct, lemma_host_or_fresh_key,
    status_of, updates_keep_hosts_distinct, updates_read_back, with_host, with_status, HostView,
    RemoteConnectionStatus, RemoteHostKey,
};
use crate::remote_target::RemoteHostConfig;
use crate::remotes::RemoteLifecycleAction;
use crate::routed_plan::{supervises, RemoteSourceSupervisorHandle};
use crate::schema::{Method, Request};
use crate::search::{lemma_first_holds, lemma_first_missing, lemma_remove_one_each, one_each};

verus! {

// Answers ------------------------------------------------------------------

/// How often `responder` stands among those who wait.
pub open spec fn times_pending(
    pending: Seq<PendingRemoteLifecycleResponder>,
    responder: u64,
) -> nat
    decreases pending.len(),
{
    if pending.len() == 0 {
        0
    } else {
        times_pending(pending.drop_last(), responder) + if pending.last().responder == responder {
            1nat
        } else {
            0nat
        }
    }
}

pub open spec fn answers(effect: LifecycleEffectView, responder: u64) -> bool {
    effect matches LifecycleEffectView::Respond { responder: own, .. } && own == responder
}

/// How many of the effects answer `responder`.
pub open spec fn times_answered(effects: Seq<LifecycleEffectView>, responder: u64) -> nat
    decreases effects.len(),
{
    if effects.len() == 0 {
        0
    } else {
        times_answered(effects.drop_last(), responder) + if answers(effects.last(), responder) {
            1nat
        } else {
            0nat
        }
    }
}

proof fn lemma_answered_push(
    effects: Seq<LifecycleEffectView>,
    effect: LifecycleEffectView,
    responder: u64,
)
    ensures
        times_answered(effects.push(effect), responder) == times_answered(effects, responder)
            + if answers(effect, responder) {
            1nat
        } else {
            0nat
        },
{
    assert(effects.push(effect).drop_last() =~= effects);
}

proof fn lemma_pending_push(
    pending: Seq<PendingRemoteLifecycleResponder>,
    own: PendingRemoteLifecycleResponder,
    responder: u64,
)
    ensures
        times_pending(pending.push(own), responder) == times_pending(pending, responder)
            + if own.responder == responder {
            1nat
        } else {
            0nat
        },
{
    assert(pending.push(own).drop_last() =~= pending);
}

/// Superseding answers everyone who waits for the host, each as often as they
/// wait, and leaves the others waiting.
pub proof fn superseding_answers_each_once(
    pending: Seq<PendingRemoteLifecycleResponder>,
    key: (Seq<char>, Seq<char>),
    responder: u64,
)
    ensures
        times_answered(superseded_effects(pending, key), responder) + times_pending(
            other_pending(pending, key),
            responder,
        ) == times_pending(pending, responder),
    decreases pending.len(),
{
    if pending.len() > 0 {
        let before = pending.drop_last();
        superseding_answers_each_once(before, key, responder);
        if pending.last().host_key@ == key {
            lemma_answered_push(
                superseded_effects(before, key),
                superseded_effects(pending, key).last(),
                responder,
            );
        } else {
            lemma_pending_push(other_pending(before, key), pending.last(), responder);
        }
    }
}

/// A reload of the configuration answers everyone who waits, each as often as
/// they wait.
pub proof fn reloading_answers_everyone_once(
    pending: Seq<PendingRemoteLifecycleResponder>,
    responder: u64,
)
    ensures
        times_answered(all_superseded_effects(pending), responder) == times_pending(
            pending,
            responder,
        ),
    decreases pending.len(),
{
    if pending.len() > 0 {
        reloading_answers_everyone_once(pending.drop_last(), responder);
        assert(all_superseded_effects(pending).drop_last() =~= all_superseded_effects(
            pending.drop_last(),
        ));
    }
}

/// A lifecycle request answers or keeps every client: nobody is answered twice
/// and nobody is forgotten, neither the client that asks nor those who waited.
pub proof fn lifecycle_clients_are_answered_once(
    state: LifecycleView,
    request: Request,
    asking: u64,
    generation: u64,
    responder: u64,
)
    requires
        after_lifecycle_request(state, request, asking, generation) is Some,
    ensures
        ({
            let (after, effects) = after_lifecycle_request(
                state,
                request,
                asking,
                generation,
            )->0;
            times_answered(effects, responder) + times_pending(after.pending, responder)
                == times_pending(state.pending, responder) + if responder == asking {
                1nat
            } else {
                0nat
            }
        }),
{
    let (after, effects) = after_lifecycle_request(state, request, asking, generation)->0;
    if effects.len() == 1 && after.pending == state.pending && effects[0] is Respond {
        assert(effects =~= Seq::empty().push(effects[0]));
        lemma_answered_push(Seq::empty(), effects[0], responder);
        assert(times_answered(Seq::<LifecycleEffectView>::empty(), responder) == 0);
    } else {
        let own = after.pending.last();
        let key = own.host_key@;
        let kept = other_pending(state.pending, key);
        let told = superseded_effects(state.pending, key);
        assert(after.pending.drop_last() =~= kept);
        superseding_answers_each_once(state.pending, key, responder);
        lemma_pending_push(kept, own, responder);
        assert(after.pending =~= kept.push(own));
        if effects.len() == told.len() + 1 {
            assert(effects =~= told.push(effects.last()));
            lemma_answered_push(told, effects.last(), responder);
        } else {
            let cancel = effects[effects.len() - 2];
            assert(effects =~= told.push(cancel).push(effects.last()));
            lemma_answered_push(told, cancel, responder);
            lemma_answered_push(told.push(cancel), effects.last(), responder);
        }
    }
}

/// A report that answers a client takes exactly that client off the list.
pub proof fn reports_answer_whoever_waits_once(
    pending: Seq<PendingRemoteLifecycleResponder>,
    key: (Seq<char>, Seq<char>),
    generation: u64,
    responder: u64,
)
    requires
        answered_pending(pending, key, generation) is Some,
    ensures
        ({
            let i = answered_pending(pending, key, generation)->0;
            &&& 0 <= i < pending.len()
            &&& pending[i].generation == generation
            &&& pending[i].host_key@ == key
            &&& times_pending(pending.remove(i), responder) + (if pending[i].responder == responder {
                1nat
            } else {
                0nat
            }) == times_pending(pending, responder)
        }),
{
    let i = answered_pending(pending, key, generation)->0;
    lemma_first_holds(pending, crate::lifecycle::waits_for(generation));
    lemma_pending_remove(pending, i, responder);
}

proof fn lemma_pending_remove(
    pending: Seq<PendingRemoteLifecycleResponder>,
    i: int,
    responder: u64,
)
    requires
        0 <= i < pending.len(),
    ensures
        times_pending(pending.remove(i), responder) + (if pending[i].responder == responder {
            1nat
        } else {
            0nat
        }) == times_pending(pending, responder),
    decreases pending.len(),
{
    if i == pending.len() - 1 {
        assert(pending.remove(i) =~= pending.drop_last());
    } else {
        lemma_pending_remove(pending.drop_last(), i, responder);
        assert(pending.remove(i).drop_last() =~= pending.drop_last().remove(i));
    }
}

// Supervisors --------------------------------------------------------------

/// No host has two supervisors.
pub open spec fn one_supervisor_each(supervisors: Seq<RemoteSourceSupervisorHandle>) -> bool {
    forall|i: int, j: int|
        0 <= i < j < supervisors.len() ==> (#[trigger] supervisors[i]).host_key@ != (
        #[trigger] supervisors[j]).host_key@
}

proof fn lemma_other_supervisors(
    supervisors: Seq<RemoteSourceSupervisorHandle>,
    key: (Seq<char>, Seq<char>),
)
    ensures
        forall|i: int|
            0 <= i < other_supervisors(supervisors, key).len() ==> (#[trigger] other_supervisors(
                supervisors,
                key,
            )[i]).host_key@ != key && supervisors.contains(other_supervisors(supervisors, key)[i]),
        forall|i: int|
            0 <= i < supervisors.len() && (#[trigger] supervisors[i]).host_key@ != key
                ==> other_supervisors(supervisors, key).contains(supervisors[i]),
        one_supervisor_each(supervisors) ==> one_supervisor_each(
            other_supervisors(supervisors, key),
        ),
    decreases supervisors.len(),
{
    if supervisors.len() > 0 {
        let before = supervisors.drop_last();
        let last = supervisors.last();
        lemma_other_supervisors(before, key);
        let rest = other_supervisors(before, key);
        let kept = other_supervisors(supervisors, key);
        assert forall|i: int| 0 <= i < kept.len() implies (#[trigger] kept[i]).host_key@ != key
            && supervisors.contains(kept[i]) by {
            if i < rest.len() {
                assert(kept[i] == rest[i]);
                let k = choose|k: int| 0 <= k < before.len() && before[k] == rest[i];
                assert(supervisors[k] == rest[i]);
            } else {
                assert(supervisors[supervisors.len() - 1] == last);
            }
        }
        assert forall|i: int| 0 <= i < supervisors.len() && (
        #[trigger] supervisors[i]).host_key@ != key implies kept.contains(supervisors[i]) by {
            if i < before.len() {
                assert(before[i] == supervisors[i]);
                let k = choose|k: int| 0 <= k < rest.len() && rest[k] == before[i];
                assert(kept[k] == supervisors[i]);
            } else {
                assert(kept[kept.len() - 1] == last);
            }
        }
        if one_supervisor_each(supervisors) {
            assert(one_supervisor_each(before)) by {
                assert forall|i: int, j: int| 0 <= i < j < before.len() implies (
                #[trigger] before[i]).host_key@ != (#[trigger] before[j]).host_key@ by {
                    assert(before[i] == supervisors[i] && before[j] == supervisors[j]);
                }
            }
            assert forall|i: int, j: int| 0 <= i < j < kept.len() implies (
            #[trigger] kept[i]).host_key@ != (#[trigger] kept[j]).host_key@ by {
                assert(kept[i] == rest[i]);
                if j < rest.len() {
                    assert(kept[j] == rest[j]);
                } else {
                    let k = choose|k: int| 0 <= k < before.len() && before[k] == rest[i];
                    assert(supervisors[k].host_key@ != supervisors[supervisors.len()
                        - 1].host_key@);
                }
            }
        }
    }
}

/// A host never gets a second supervisor by a lifecycle action.
pub proof fn hosts_keep_one_supervisor(
    state: LifecycleView,
    request: Request,
    asking: u64,
    generation: u64,
)
    requires
        after_lifecycle_request(state, request, asking, generation) is Some,
        one_supervisor_each(state.federation.supervisors),
    ensures
        one_supervisor_each(
            (after_lifecycle_request(state, request, asking, generation)->0).0.federation.supervisors,
        ),
{
    let after = (after_lifecycle_request(state, request, asking, generation)->0).0;
    if after != state {
        let key = after.pending.last().host_key;
        lemma_other_supervisors(state.federation.supervisors, key@);
        let kept = other_supervisors(state.federation.supervisors, key@);
        if after.federation.supervisors.len() > kept.len() {
            assert forall|i: int, j: int|
                0 <= i < j < after.federation.supervisors.len() implies (
            #[trigger] after.federation.supervisors[i]).host_key@ != (
            #[trigger] after.federation.supervisors[j]).host_key@ by {
                assert(after.federation.supervisors[i] == kept[i]);
                if j < kept.len() {
                    assert(after.federation.supervisors[j] == kept[j]);
                }
            }
        }
    }
}

/// After a reconnect, only the fresh generation of that host is taken up: what
/// its predecessors still report is refused.
pub proof fn reconnecting_refuses_older_generations(
    state: LifecycleView,
    ask: LifecycleAsk,
    fresh: u64,
    older: u64,
)
    requires
        lifecycle_host(
            state.federation.hosts,
            ask.alias,
            RemoteLifecycleAction::Reconnect,
        ) is Ok,
        older != fresh,
    ensures
        ({
            let key = lifecycle_host(
                state.federation.hosts,
                ask.alias,
                RemoteLifecycleAction::Reconnect,
            )->Ok_0.spec_key()@;
            let after = reconnected_on_request(state, ask, fresh).0.federation;
            &&& !admitted(after, key, older)
            &&& generation_active(after.supervisors, key, fresh)
            &&& !connected(after.sources, key)
        }),
{
    let host = lifecycle_host(
        state.federation.hosts,
        ask.alias,
        RemoteLifecycleAction::Reconnect,
    )->Ok_0;
    let key = host.spec_key();
    let after = reconnected_on_request(state, ask, fresh).0.federation;
    let kept = other_supervisors(state.federation.supervisors, key@);
    lemma_other_supervisors(state.federation.supervisors, key@);
    assert forall|i: int| 0 <= i < after.supervisors.len() && (
    #[trigger] after.supervisors[i]).host_key@ == key@ implies after.supervisors[i].generation
        == fresh by {
        if i < kept.len() {
            assert(after.supervisors[i] == kept[i]);
        }
    }
    assert(after.supervisors[kept.len() as int].host_key@ == key@);
    lemma_status_read_back(state.federation.sources, key);
}

proof fn lemma_status_read_back(hosts: Seq<HostView>, key: crate::remote_source::RemoteHostKey)
    ensures
        status_of(after_status(hosts, key, RemoteConnectionStatus::Disconnected), key@) == Some(
            RemoteConnectionStatus::Disconnected,
        ),
        forall|other: (Seq<char>, Seq<char>)|
            other != key@ ==> #[trigger] cached_host(
                after_status(hosts, key, RemoteConnectionStatus::Disconnected),
                other,
            ) == cached_host(hosts, other),
{
    lemma_host_or_fresh_key(hosts, key);
    let host = with_status(host_or_fresh(hosts, key), RemoteConnectionStatus::Disconnected);
    updates_read_back(hosts, host, key@);
    assert forall|other: (Seq<char>, Seq<char>)| other != key@ implies #[trigger] cached_host(
        after_status(hosts, key, RemoteConnectionStatus::Disconnected),
        other,
    ) == cached_host(hosts, other) by {
        updates_read_back(hosts, host, other);
    }
}

/// After a disconnect nothing that the host's supervisors still report is taken
/// up, the host does not count as connected, and disconnecting it again changes
/// nothing.
pub proof fn disconnecting_settles(
    state: LifecycleView,
    ask: LifecycleAsk,
    fresh: u64,
    generation: u64,
)
    requires
        lifecycle_host(
            state.federation.hosts,
            ask.alias,
            RemoteLifecycleAction::Disconnect,
        ) is Ok,
    ensures
        ({
            let key = lifecycle_host(
                state.federation.hosts,
                ask.alias,
                RemoteLifecycleAction::Disconnect,
            )->Ok_0.spec_key()@;
            let after = disconnected_on_request(state, ask, fresh).0.federation;
            &&& !admitted(after, key, generation)
            &&& !connected(after.sources, key)
            &&& !disconnect_changes(after, key)
        }),
{
    let host = lifecycle_host(
        state.federation.hosts,
        ask.alias,
        RemoteLifecycleAction::Disconnect,
    )->Ok_0;
    let key = host.spec_key();
    let after = disconnected_on_request(state, ask, fresh).0.federation;
    lemma_other_supervisors(state.federation.supervisors, key@);
    lemma_first_missing(after.supervisors, supervises(key@));
    lemma_status_read_back(state.federation.sources, key);
}

/// Disconnecting a host that was never cached and is not supervised leaves the
/// cache as it is.
pub proof fn disconnecting_unknown_state_is_a_no_op(
    state: LifecycleView,
    ask: LifecycleAsk,
    fresh: u64,
)
    requires
        lifecycle_host(
            state.federation.hosts,
            ask.alias,
            RemoteLifecycleAction::Disconnect,
        ) matches Ok(host) && cached_host(state.federation.sources, host.spec_key()@) is None
            && !supervised(state.federation.supervisors, host.spec_key()@),
    ensures
        disconnected_on_request(state, ask, fresh).0.federation.sources == state.federation.sources,
        disconnected_on_request(state, ask, fresh).0.pending.last().disconnect_changed == Some(
            false,
        ),
{
}

/// Connecting a host that is supervised and connected changes nothing and is
/// answered at once.
pub proof fn connecting_is_idempotent(state: LifecycleView, ask: LifecycleAsk, fresh: u64)
    requires
        lifecycle_host(
            state.federation.hosts,
            ask.alias,
            RemoteLifecycleAction::Connect,
        ) matches Ok(host) && supervised(state.federation.supervisors, host.spec_key()@)
            && connected(state.federation.sources, host.spec_key()@),
    ensures
        connected_on_request(state, ask, fresh).0 == state,
        connected_on_request(state, ask, fresh).1.len() == 1,
        times_answered(connected_on_request(state, ask, fresh).1, ask.responder) == 1,
{
    let effects = connected_on_request(state, ask, fresh).1;
    assert(effects =~= Seq::empty().push(effects[0]));
    lemma_answered_push(Seq::empty(), effects[0], ask.responder);
    assert(times_answered(Seq::<LifecycleEffectView>::empty(), ask.responder) == 0);
}

/// The host that a lifecycle request acts on, if any.
pub open spec fn acted_on(hosts: Seq<RemoteHostConfig>, request: Request) -> Option<
    (Seq<char>, Seq<char>),
> {
    let asked = match request.method {
        Method::RemoteConnect(params) => Some((params.host@, RemoteLifecycleAction::Connect)),
        Method::RemoteReconnect(params) => Some((params.host@, RemoteLifecycleAction::Reconnect)),
        Method::RemoteDisconnect(params) => Some((params.host@, RemoteLifecycleAction::Disconnect)),
        _ => None,
    };
    match asked {
        Some((alias, action)) => match lifecycle_host(hosts, alias, action) {
            Ok(host) => Some(host.spec_key()@),
            Err(_) => None,
        },
        None => None,
    }
}

/// A lifecycle action touches one host only: the cache and the supervisors of
/// every other stay.
pub proof fn other_hosts_are_not_touched(
    state: LifecycleView,
    request: Request,
    asking: u64,
    generation: u64,
    other: (Seq<char>, Seq<char>),
    older: u64,
)
    requires
        after_lifecycle_request(state, request, asking, generation) is Some,
        acted_on(state.federation.hosts, request) != Some(other),
    ensures
        ({
            let after = (after_lifecycle_request(state, request, asking, generation)->0).0.federation;
            &&& cached_host(after.sources, other) == cached_host(state.federation.sources, other)
            &&& generation_active(after.supervisors, other, older) == generation_active(
                state.federation.supervisors,
                other,
                older,
            )
        }),
{
    let after = (after_lifecycle_request(state, request, asking, generation)->0).0;
    if after != state {
        let key = after.pending.last().host_key;
        let before = state.federation.supervisors;
        let kept = other_supervisors(before, key@);
        lemma_other_supervisors(before, key@);
        lemma_status_read_back(state.federation.sources, key);
        if generation_active(before, other, older) {
            let i = choose|i: int|
                0 <= i < before.len() && (#[trigger] before[i]).host_key@ == other
                    && before[i].generation == older;
            assert(kept.contains(before[i]));
            let k = choose|k: int| 0 <= k < kept.len() && kept[k] == before[i];
            assert(after.federation.supervisors[k] == before[i]);
        }
        if generation_active(after.federation.supervisors, other, older) {
            let i = choose|i: int|
                0 <= i < after.federation.supervisors.len() && (
                #[trigger] after.federation.supervisors[i]).host_key@ == other
                    && after.federation.supervisors[i].generation == older;
            assert(after.federation.supervisors[i] == kept[i]);
            assert(before.contains(kept[i]));
            let k = choose|k: int| 0 <= k < before.len() && before[k] == kept[i];
            assert(before[k].host_key@ == other);
        }
    }
}

// One of each -------------------------------------------------------------

/// The generation under which a client waits.
pub open spec fn waiting_generation() -> spec_fn(PendingRemoteLifecycleResponder) -> u64 {
    |pending: PendingRemoteLifecycleResponder| pending.generation
}

/// No two clients wait under the same generation.
pub open spec fn generations_distinct(pending: Seq<PendingRemoteLifecycleResponder>) -> bool {
    one_each(pending, waiting_generation())
}

proof fn lemma_other_pending(
    pending: Seq<PendingRemoteLifecycleResponder>,
    key: (Seq<char>, Seq<char>),
)
    ensures
        forall|k: int|
            0 <= k < other_pending(pending, key).len() ==> pending.contains(
                #[trigger] other_pending(pending, key)[k],
            ),
        generations_distinct(pending) ==> generations_distinct(other_pending(pending, key)),
    decreases pending.len(),
{
    if pending.len() > 0 {
        let before = pending.drop_last();
        let kept = other_pending(before, key);
        let others = other_pending(pending, key);
        lemma_other_pending(before, key);
        assert forall|k: int| 0 <= k < others.len() implies pending.contains(
            #[trigger] others[k],
        ) by {
            if k < kept.len() {
                assert(before.contains(kept[k]));
                let i = choose|i: int| 0 <= i < before.len() && before[i] == kept[k];
                assert(pending[i] == others[k]);
            } else {
                assert(pending[pending.len() - 1] == others[k]);
            }
        }
        if generations_distinct(pending) {
            assert forall|i: int, j: int| 0 <= i < j < before.len() implies waiting_generation()(
                #[trigger] before[i],
            ) != waiting_generation()(#[trigger] before[j]) by {
                assert(before[i] == pending[i] && before[j] == pending[j]);
            }
            assert forall|i: int, j: int| 0 <= i < j < others.len() implies waiting_generation()(
                #[trigger] others[i],
            ) != waiting_generation()(#[trigger] others[j]) by {
                assert(others[i] == kept[i]);
                if j < kept.len() {
                    assert(others[j] == kept[j]);
                } else {
                    assert(before.contains(kept[i]));
                    let k = choose|k: int| 0 <= k < before.len() && before[k] == kept[i];
                    assert(pending[k] == kept[i]);
                    assert(others[j] == pending[pending.len() - 1]);
                }
            }
        }
    }
}

/// A request that comes with a generation of its own leaves one waiting client per
/// generation, and one entry per host in the cache.
pub proof fn requests_keep_one_of_each(
    state: LifecycleView,
    request: Request,
    asking: u64,
    generation: u64,
)
    requires
        after_lifecycle_request(state, request, asking, generation) is Some,
        generations_distinct(state.pending),
        hosts_distinct(state.federation.sources),
        forall|i: int|
            0 <= i < state.pending.len() ==> (#[trigger] state.pending[i]).generation != generation,
    ensures
        ({
            let after = (after_lifecycle_request(state, request, asking, generation)->0).0;
            &&& generations_distinct(after.pending)
            &&& hosts_distinct(after.federation.sources)
        }),
{
    let after = (after_lifecycle_request(state, request, asking, generation)->0).0;
    assert forall|host: HostView| hosts_distinct(
        #[trigger] with_host(state.federation.sources, host),
    ) by {
        updates_keep_hosts_distinct(state.federation.sources, host);
    }
    if after.pending != state.pending {
        let last = after.pending.last();
        let others = other_pending(state.pending, last.host_key@);
        lemma_other_pending(state.pending, last.host_key@);
        assert(after.pending == others.push(last));
        assert forall|i: int, j: int| 0 <= i < j < after.pending.len() implies waiting_generation()(
            #[trigger] after.pending[i],
        ) != waiting_generation()(#[trigger] after.pending[j]) by {
            assert(after.pending[i] == others[i]);
            if j < others.len() {
                assert(after.pending[j] == others[j]);
            } else {
                assert(state.pending.contains(others[i]));
            }
        }
    }
}

/// Answering a client, and superseding those of a host, leave one waiting client per
/// generation.
pub proof fn answers_keep_generations_distinct(
    pending: Seq<PendingRemoteLifecycleResponder>,
    i: int,
    key: (Seq<char>, Seq<char>),
)
    requires
        generations_distinct(pending),
        0 <= i < pending.len(),
    ensures
        generations_distinct(pending.remove(i)),
        generations_distinct(other_pending(pending, key)),
{
    lemma_remove_one_each(pending, waiting_generation(), i);
    lemma_other_pending(pending, key);
}

/// When the supervisor of a host reports that it was lost, what waits for it is taken
/// back, and it does not count as connected. No host gets a second cache entry by a
/// report, and nobody who waits is forgotten.
pub proof fn lost_hosts_take_back_their_changes(
    state: LifecycleView,
    key: RemoteHostKey,
    generation: u64,
    report: RemoteSourceReport,
)
    ensures
        ({
            let (after, effects) = reported(state, key, generation, report);
            &&& admitted(state.federation, key@, generation) && report is Disconnected
                <==> effects.contains(LifecycleEffectView::CancelQueued { host: key })
            &&& admitted(state.federation, key@, generation) && (
            report matches RemoteSourceReport::Disconnected(status) && !(status is Connected))
                ==> !connected(after.federation.sources, key@)
            &&& hosts_distinct(state.federation.sources) ==> hosts_distinct(
                after.federation.sources,
            )
            &&& after.pending == state.pending
        }),
{
    let (after, effects) = reported(state, key, generation, report);
    if let RemoteSourceReport::Disconnected(status) = report {
        lemma_host_or_fresh_key(state.federation.sources, key);
        updates_read_back(
            state.federation.sources,
            with_status(host_or_fresh(state.federation.sources, key), status),
            key@,
        );
        if admitted(state.federation, key@, generation) {
            assert(effects[0] == (LifecycleEffectView::CancelQueued { host: key }));
        }
    }
    if hosts_distinct(state.federation.sources) {
        assert forall|host: HostView| hosts_distinct(
            #[trigger] with_host(state.federation.sources, host),
        ) by {
            updates_keep_hosts_distinct(state.federation.sources, host);
        }
    }
}

} // verus!
