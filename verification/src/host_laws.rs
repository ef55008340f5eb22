//! What connecting, reconnecting and disconnecting a host come to, how many requests may
//! be on their way to it, and what is shown of it.
use vstd::prelude::*;
use crate::bridge_limiter::{after_acquire, after_release, in_flight_of};
use crate::host_glass::{
    after_send, at_least_one, begun, cue_until, drop_reason, state_of, state_or_unseen, stream_of,
    surface_for, surface_of, with_cue, without_cues, GlassInputDropReason, GlassSend, GlassSurface,
    GlassesView, HostGlassState, HostGlassStream, HostSurface,
};
use crate::lifecycle::{
    admitted, after_lifecycle_request, after_report, answered_pending, attempt_status,
    connected_on_request, detail_text, disconnected_on_request, done_reply, lifecycle_host,
    other_supervisors, reconnected_on_request, reported, result_status, superseded_effects,
    superseded_reply, LifecycleAsk, LifecycleEffectView, LifecycleReplyView, LifecycleView,
    PendingRemoteLifecycleResponder, RemoteSourceLifecycleOutcome, RemoteSourceReport,
};
use crate::remote_source::{
    after_status, cached_host, connected, host_or_fresh, lemma_host_or_fresh_key, updates_read_back,
    HostView, RemoteConnectionStatus, RemoteHostKey,
};
use crate::remote_target::{configured, RemoteHostConfig};
use crate::remotes::{RemoteLifecycleAction, RemoteLifecycleResultStatus};
use crate::routed_plan::{FederationView, RemoteSourceSupervisorHandle};
use crate::schema::{Method, Request};
use crate::search::{
    element_where, first_where, lemma_first_found, lemma_first_holds, lemma_put_found,
    lemma_put_others, put,
};
use crate::target_laws::hosts_go_by_their_names;
use crate::text::{contains_part, stands_at};

verus! {

// Lifecycle requests -----------------------------------------------------

/// A lifecycle request acts on the configured host of its alias. An empty alias and an
/// unknown one are refused, and the client is told at once; then nothing changes.
pub proof fn lifecycle_requests_act_on_the_named_host(
    hosts: Seq<RemoteHostConfig>,
    alias: Seq<char>,
    action: RemoteLifecycleAction,
)
    ensures
        match lifecycle_host(hosts, alias, action) {
            Ok(host) => alias.len() > 0 && host.name@ == alias && hosts.contains(host),
            Err(_) => alias.len() == 0 || forall|i: int|
                0 <= i < hosts.len() ==> (#[trigger] hosts[i]).name@ != alias,
        },
{
    hosts_go_by_their_names(hosts, alias);
    if let Some(host) = configured(hosts, alias) {
        let i = choose|i: int| 0 <= i < hosts.len() && #[trigger] hosts[i] == host;
        assert(hosts.contains(hosts[i]));
    }
}

/// Which lifecycle action a request asks for, and of which alias.
pub proof fn lifecycle_requests_are_told_apart(
    state: LifecycleView,
    request: Request,
    responder: u64,
    generation: u64,
)
    ensures
        match request.method {
            Method::RemoteConnect(params) => after_lifecycle_request(
                state,
                request,
                responder,
                generation,
            ) == Some(
                connected_on_request(
                    state,
                    LifecycleAsk { id: request.id, alias: params.host@, responder },
                    generation,
                ),
            ),
            Method::RemoteReconnect(params) => after_lifecycle_request(
                state,
                request,
                responder,
                generation,
            ) == Some(
                reconnected_on_request(
                    state,
                    LifecycleAsk { id: request.id, alias: params.host@, responder },
                    generation,
                ),
            ),
            Method::RemoteDisconnect(params) => after_lifecycle_request(
                state,
                request,
                responder,
                generation,
            ) == Some(
                disconnected_on_request(
                    state,
                    LifecycleAsk { id: request.id, alias: params.host@, responder },
                    generation,
                ),
            ),
            _ => after_lifecycle_request(state, request, responder, generation) is None,
        },
{
}

/// A host that is not both supervised and connected gets a fresh supervisor on a
/// connect, and on a reconnect always. It reports under the generation that was given,
/// the client waits for that report, and the host's former supervisors go. A
/// reconnect first takes back what waits for the host and counts it as disconnected.
#[verifier::spinoff_prover]
pub proof fn connects_start_a_supervisor(
    state: LifecycleView,
    ask: LifecycleAsk,
    generation: u64,
    host: RemoteHostConfig,
)
    requires
        ask.alias.len() > 0,
        configured(state.federation.hosts, ask.alias) == Some(host),
    ensures
        ({
            let (after, effects) = reconnected_on_request(state, ask, generation);
            &&& effects.last() == (LifecycleEffectView::StartSupervisor { host, generation })
            &&& effects.contains(LifecycleEffectView::CancelQueued { host: host.spec_key() })
            &&& waits_last(after, ask, host, RemoteLifecycleAction::Reconnect, generation)
            &&& supervised_last(after.federation, host, generation)
            &&& !connected(after.federation.sources, host.spec_key()@)
            &&& after.federation.hosts == state.federation.hosts
        }),
        ({
            let (after, effects) = connected_on_request(state, ask, generation);
            let running = exists|i: int|
                0 <= i < state.federation.supervisors.len() && (
                #[trigger] state.federation.supervisors[i]).host_key@ == host.spec_key()@;
            if running && connected(state.federation.sources, host.spec_key()@) {
                &&& after == state
                &&& effects.len() == 1
                &&& effects[0] is Respond
                &&& effects[0]->Respond_responder == ask.responder
                &&& effects[0]->Respond_reply matches LifecycleReplyView::Done {
                    id,
                    host: on,
                    session,
                    action,
                    status,
                    changed,
                    ..
                } && id == ask.id && on == host.name && session == host.session
                    && action is Connect && status is Connected && !changed
            } else {
                &&& effects.last() == (LifecycleEffectView::StartSupervisor { host, generation })
                &&& waits_last(after, ask, host, RemoteLifecycleAction::Connect, generation)
                &&& supervised_last(after.federation, host, generation)
                &&& after.federation.sources == state.federation.sources
                &&& after.federation.hosts == state.federation.hosts
            }
        }),
{
    let key = host.spec_key();
    let (after, effects) = reconnected_on_request(state, ask, generation);
    let n = superseded_effects(state.pending, key@).len() as int;
    assert(effects[n] == (LifecycleEffectView::CancelQueued { host: key }));
    lemma_disconnected(state.federation.sources, key);
    lemma_first_holds(state.federation.supervisors, crate::routed_plan::supervises(key@));
    let mine = crate::routed_plan::supervises(key@);
    if let Some(i) = first_where(state.federation.supervisors, mine) {
        assert(mine(state.federation.supervisors[i]));
    } else {
        assert forall|i: int| 0 <= i < state.federation.supervisors.len() implies (
        #[trigger] state.federation.supervisors[i]).host_key@ != key@ by {
            assert(!mine(state.federation.supervisors[i]));
        }
    }
}

proof fn lemma_disconnected(hosts: Seq<HostView>, key: RemoteHostKey)
    ensures
        !connected(after_status(hosts, key, RemoteConnectionStatus::Disconnected), key@),
{
    lemma_host_or_fresh_key(hosts, key);
    updates_read_back(
        hosts,
        crate::remote_source::with_status(
            host_or_fresh(hosts, key),
            RemoteConnectionStatus::Disconnected,
        ),
        key@,
    );
}

/// The client that asks waits last, for a report of its host under that generation.
pub open spec fn waits_last(
    state: LifecycleView,
    ask: LifecycleAsk,
    host: RemoteHostConfig,
    action: RemoteLifecycleAction,
    generation: u64,
) -> bool {
    &&& state.pending.len() > 0
    &&& state.pending.last().generation == generation
    &&& state.pending.last().request_id == ask.id
    &&& state.pending.last().responder == ask.responder
    &&& state.pending.last().action == action
    &&& state.pending.last().host_key.host == host.name
    &&& state.pending.last().host_key.session == host.session
}

/// The host's newest supervisor reports under that generation.
pub open spec fn supervised_last(
    federation: FederationView,
    host: RemoteHostConfig,
    generation: u64,
) -> bool {
    &&& federation.supervisors.len() > 0
    &&& federation.supervisors.last().generation == generation
    &&& federation.supervisors.last().host_key.host == host.name
    &&& federation.supervisors.last().host_key.session == host.session
}

/// A disconnect ends the host's supervisors, closes its parked connections under the
/// generation that was given, and lets the client wait for that. It is told to have
/// changed something exactly where the host was supervised or reported as anything
/// but disconnected.
#[verifier::spinoff_prover]
pub proof fn disconnects_drain_the_host(
    state: LifecycleView,
    ask: LifecycleAsk,
    generation: u64,
    host: RemoteHostConfig,
)
    requires
        ask.alias.len() > 0,
        configured(state.federation.hosts, ask.alias) == Some(host),
    ensures
        ({
            let (after, effects) = disconnected_on_request(state, ask, generation);
            let source = cached_host(state.federation.sources, host.spec_key()@);
            let running = exists|i: int|
                0 <= i < state.federation.supervisors.len() && (
                #[trigger] state.federation.supervisors[i]).host_key@ == host.spec_key()@;
            let changes = running || source is Some && !(source->0.status is Disconnected);
            &&& effects.last() == (LifecycleEffectView::DrainPool {
                host: host.spec_key(),
                generation,
            })
            &&& waits_last(after, ask, host, RemoteLifecycleAction::Disconnect, generation)
            &&& after.pending.last().disconnect_changed == Some(changes)
            &&& forall|i: int|
                0 <= i < after.federation.supervisors.len() ==> (
                #[trigger] after.federation.supervisors[i]).host_key@ != host.spec_key()@
            &&& !changes ==> after.federation.sources == state.federation.sources
            &&& !connected(after.federation.sources, host.spec_key()@)
        }),
{
    let key = host.spec_key();
    lemma_disconnected(state.federation.sources, key);
    lemma_other_supervisors(state.federation.supervisors, key@);
    let mine = crate::routed_plan::supervises(key@);
    lemma_first_holds(state.federation.supervisors, mine);
    if let Some(i) = first_where(state.federation.supervisors, mine) {
        assert(mine(state.federation.supervisors[i]));
    } else {
        assert forall|i: int| 0 <= i < state.federation.supervisors.len() implies (
        #[trigger] state.federation.supervisors[i]).host_key@ != key@ by {
            assert(!mine(state.federation.supervisors[i]));
        }
    }
}

proof fn lemma_other_supervisors(
    supervisors: Seq<RemoteSourceSupervisorHandle>,
    key: (Seq<char>, Seq<char>),
)
    ensures
        forall|k: int|
            0 <= k < other_supervisors(supervisors, key).len() ==> (#[trigger] other_supervisors(
                supervisors,
                key,
            )[k]).host_key@ != key && supervisors.contains(other_supervisors(supervisors, key)[k]),
        forall|i: int|
            0 <= i < supervisors.len() && (#[trigger] supervisors[i]).host_key@ != key
                ==> other_supervisors(supervisors, key).contains(supervisors[i]),
    decreases supervisors.len(),
{
    if supervisors.len() > 0 {
        let rest = supervisors.drop_last();
        lemma_other_supervisors(rest, key);
        let kept = other_supervisors(supervisors, key);
        let before = other_supervisors(rest, key);
        assert forall|k: int| 0 <= k < kept.len() implies (#[trigger] kept[k]).host_key@ != key
            && supervisors.contains(kept[k]) by {
            if k < before.len() {
                assert(kept[k] == before[k]);
                let i = choose|i: int| 0 <= i < rest.len() && rest[i] == before[k];
                assert(supervisors[i] == kept[k]);
            } else {
                assert(kept[k] == supervisors[supervisors.len() - 1]);
            }
        }
        assert forall|i: int| 0 <= i < supervisors.len() && (
        #[trigger] supervisors[i]).host_key@ != key implies kept.contains(supervisors[i]) by {
            if i < rest.len() {
                assert(rest[i] == supervisors[i]);
                let k = choose|k: int| 0 <= k < before.len() && before[k] == supervisors[i];
                assert(kept[k] == supervisors[i]);
            } else {
                assert(kept[kept.len() - 1] == supervisors[i]);
            }
        }
    }
}

/// Ending a host's supervisors ends exactly those.
pub proof fn only_the_hosts_supervisors_end(
    supervisors: Seq<RemoteSourceSupervisorHandle>,
    key: RemoteHostKey,
    i: int,
)
    requires
        0 <= i < supervisors.len(),
    ensures
        other_supervisors(supervisors, key@).contains(supervisors[i]) == (
        supervisors[i].host_key.host@ != key.host@ || supervisors[i].host_key.session@
            != key.session@),
{
    lemma_other_supervisors(supervisors, key@);
    let kept = other_supervisors(supervisors, key@);
    if kept.contains(supervisors[i]) {
        let k = choose|k: int| 0 <= k < kept.len() && kept[k] == supervisors[i];
        assert(kept[k].host_key@ != key@);
    }
}

/// Whoever waited for a host and is superseded is told so, under the identifier and on
/// the channel of the request that waited, in words that name the action and the host.
pub proof fn superseded_clients_are_told(
    pending: Seq<PendingRemoteLifecycleResponder>,
    key: RemoteHostKey,
    i: int,
)
    requires
        0 <= i < pending.len(),
        pending[i].host_key@ == key@,
    ensures
        superseded_effects(pending, key@).contains(
            LifecycleEffectView::Respond {
                responder: pending[i].responder,
                reply: superseded_reply(pending[i]),
            },
        ),
        superseded_reply(pending[i]) matches LifecycleReplyView::Refused { id, error } && id
            == pending[i].request_id && error.code == "remote_lifecycle_superseded"@,
    decreases pending.len(),
{
    let rest = pending.drop_last();
    let told = superseded_effects(pending, key@);
    let before = superseded_effects(rest, key@);
    let mine = LifecycleEffectView::Respond {
        responder: pending[i].responder,
        reply: superseded_reply(pending[i]),
    };
    if i < rest.len() {
        assert(rest[i] == pending[i]);
        superseded_clients_are_told(rest, key, i);
        let k = choose|k: int| 0 <= k < before.len() && before[k] == mine;
        assert(told[k] == mine);
    } else {
        assert(told[told.len() - 1] == mine);
    }
}

/// A report answers the client that waits for that very generation, where it waits for
/// that very host.
pub proof fn reports_answer_their_own_client(
    pending: Seq<PendingRemoteLifecycleResponder>,
    key: RemoteHostKey,
    generation: u64,
    i: int,
)
    requires
        0 <= i < pending.len(),
        pending[i].generation == generation,
        forall|j: int| 0 <= j < i ==> (#[trigger] pending[j]).generation != generation,
    ensures
        answered_pending(pending, key@, generation) == (if pending[i].host_key.host@ == key.host@
            && pending[i].host_key.session@ == key.session@ {
            Some(i)
        } else {
            None
        }),
{
    let mine = crate::lifecycle::waits_for(generation);
    assert forall|j: int| 0 <= j < i implies !mine(#[trigger] pending[j]) by {}
    lemma_first_found(pending, mine, i);
}

/// What a client is told at the end: its own request, its host and session, what was
/// asked for and what came of it. The remote program is never stopped, and anything
/// but a connection comes with a hint, where there is one to give.
pub proof fn lifecycle_answers_say_what_was_done(
    id: String,
    key: RemoteHostKey,
    action: RemoteLifecycleAction,
    status: RemoteLifecycleResultStatus,
    changed: bool,
)
    ensures
        done_reply(id, key, action, status, changed) matches LifecycleReplyView::Done {
            id: told,
            host,
            session,
            action: done,
            status: came,
            changed: did,
            remote_authoritative,
            detail,
        } && told == id && host == key.host && session == key.session && done == action && came
            == status && did == changed && remote_authoritative && detail == detail_text(status),
        detail_text(status) is None <==> status is Connected || status is Unhealthy,
{
}

/// What came of an attempt is what the supervisor reported.
pub proof fn attempts_are_told_as_reported(status: RemoteConnectionStatus)
    ensures
        attempt_status(RemoteSourceLifecycleOutcome::Connected) is Connected,
        attempt_status(RemoteSourceLifecycleOutcome::Disconnected(status)) == result_status(status),
        (result_status(status) is Connected) == (status is Connected),
        (result_status(status) is Disconnected) == (status is Disconnected),
        (result_status(status) is NeedsUpdate) == (status is NeedsUpdate),
        (result_status(status) is Unreachable) == (status is Unreachable),
{
}

// Reports ----------------------------------------------------------------

/// A report is taken up exactly where the host is configured for that session and a
/// supervisor of that generation runs for it.
pub proof fn reports_of_running_supervisors_are_taken_up(
    federation: FederationView,
    key: RemoteHostKey,
    generation: u64,
)
    ensures
        admitted(federation, key@, generation) == (configured(federation.hosts, key.host@) is Some
            && configured(federation.hosts, key.host@)->0.session@ == key.session@ && exists|i: int|
            0 <= i < federation.supervisors.len() && (
            #[trigger] federation.supervisors[i]).host_key.host@ == key.host@
                && federation.supervisors[i].host_key.session@ == key.session@
                && federation.supervisors[i].generation == generation),
{
    if admitted(federation, key@, generation) {
        let i = choose|i: int|
            0 <= i < federation.supervisors.len() && (
            #[trigger] federation.supervisors[i]).host_key@ == key@
                && federation.supervisors[i].generation == generation;
        assert(federation.supervisors[i].host_key.host@ == key.host@);
    }
    if exists|i: int|
        0 <= i < federation.supervisors.len() && (
        #[trigger] federation.supervisors[i]).host_key.host@ == key.host@
            && federation.supervisors[i].host_key.session@ == key.session@
            && federation.supervisors[i].generation == generation {
        let i = choose|i: int|
            0 <= i < federation.supervisors.len() && (
            #[trigger] federation.supervisors[i]).host_key.host@ == key.host@
                && federation.supervisors[i].host_key.session@ == key.session@
                && federation.supervisors[i].generation == generation;
        assert(federation.supervisors[i].host_key@ == key@);
    }
}

/// A host that answered is connected, and requests may reuse what it answered with; one
/// that cannot be used has the status that was reported. What is known of it otherwise
/// stays.
pub proof fn reports_set_the_status(
    hosts: Seq<HostView>,
    key: RemoteHostKey,
    report: RemoteSourceReport,
)
    ensures
        ({
            let before = host_or_fresh(hosts, key);
            let after = cached_host(after_report(hosts, key, report), key@);
            &&& after is Some
            &&& match report {
                RemoteSourceReport::BridgeState(state) => after->0.status is Connected
                    && after->0.bridge_state == Some(state),
                RemoteSourceReport::Disconnected(status) => after->0.status == status,
            }
            &&& after->0.agents == before.agents && after->0.tabs == before.tabs
                && after->0.projections == before.projections && after->0.workspaces
                == before.workspaces && after->0.capabilities == before.capabilities
        }),
{
    lemma_host_or_fresh_key(hosts, key);
    let before = host_or_fresh(hosts, key);
    match report {
        RemoteSourceReport::BridgeState(state) => {
            updates_read_back(
                hosts,
                HostView {
                    status: RemoteConnectionStatus::Connected,
                    bridge_state: Some(state),
                    ..before
                },
                key@,
            );
        },
        RemoteSourceReport::Disconnected(status) => {
            updates_read_back(hosts, crate::remote_source::with_status(before, status), key@);
        },
    }
}

// Permits ----------------------------------------------------------------

/// A permit that goes out counts one more for its session, and one that comes back one
/// less, down to none.
pub proof fn permits_are_counted(
    counts: Map<(Seq<char>, Seq<char>), nat>,
    key: (Seq<char>, Seq<char>),
)
    ensures
        in_flight_of(after_acquire(counts, key), key) == in_flight_of(counts, key) + 1,
        in_flight_of(counts, key) > 0 ==> in_flight_of(after_release(counts, key), key)
            == in_flight_of(counts, key) - 1,
        in_flight_of(counts, key) == 0 ==> in_flight_of(after_release(counts, key), key) == 0,
        !counts.contains_key(key) ==> in_flight_of(counts, key) == 0,
        counts.contains_key(key) ==> in_flight_of(counts, key) == counts[key],
{
}

// Glasses ----------------------------------------------------------------

/// The state of a host's glass is its own, found under its host and session; one that
/// was never seen is connecting and shows no cue.
pub proof fn glasses_go_by_both_names(states: Seq<HostGlassState>, host: RemoteHostKey)
    ensures
        ({
            let state = state_or_unseen(states, host);
            &&& state.host.host@ == host.host@ && state.host.session@ == host.session@
            &&& states.contains(state) || state.status is Connecting
                && state.input_drop_cue is None && state.generation == 0 && forall|i: int|
                0 <= i < states.len() ==> (#[trigger] states[i]).host.host@ != host.host@
                    || states[i].host.session@ != host.session@
        }),
{
    let mine = state_of(host@);
    lemma_first_holds(states, mine);
    match first_where(states, mine) {
        Some(i) => {
            assert(mine(states[i]));
            assert(states.contains(states[i]));
        },
        None => {
            assert forall|i: int| 0 <= i < states.len() implies (#[trigger] states[i]).host.host@
                != host.host@ || states[i].host.session@ != host.session@ by {
                assert(!mine(states[i]));
            }
        },
    }
}

/// Input to a glass is dropped for the first reason that holds: it is still connecting,
/// it is stale, it has no stream, the stream is another generation's, or the stream is
/// closed; otherwise it goes through.
pub proof fn input_is_dropped_for_a_reason(glasses: GlassesView, host: RemoteHostKey)
    ensures
        ({
            let state = state_or_unseen(glasses.states, host);
            let stream = element_where(glasses.streams, stream_of(host@));
            match drop_reason(glasses, host) {
                None => state.status is Live && stream is Some && stream->0.connected
                    && stream->0.generation == state.generation,
                Some(GlassInputDropReason::Connecting) => state.status is Connecting,
                Some(GlassInputDropReason::Stale) => state.status is Stale,
                Some(GlassInputDropReason::MissingStream) => state.status is Live && stream is None,
                Some(GlassInputDropReason::GenerationChanged) => state.status is Live
                    && stream is Some && stream->0.generation != state.generation,
                Some(GlassInputDropReason::Disconnected) => state.status is Live && stream is Some
                    && stream->0.generation == state.generation && !stream->0.connected,
                Some(_) => false,
            }
        }),
{
}

/// A cue is set on its host's glass, with its reason and until its time; every other
/// glass and all streams stay.
pub proof fn cues_are_set_on_their_own_glass(
    glasses: GlassesView,
    host: RemoteHostKey,
    reason: GlassInputDropReason,
    until: u64,
    other: RemoteHostKey,
)
    ensures
        ({
            let after = with_cue(glasses, host, reason, until);
            let before = state_or_unseen(glasses.states, host);
            let state = state_or_unseen(after.states, host);
            &&& state.input_drop_cue == Some(reason)
            &&& state.status == before.status && state.generation == before.generation
            &&& after.drop_cue_deadline == Some(until)
            &&& after.streams == glasses.streams
            &&& other@ != host@ ==> state_or_unseen(after.states, other) == state_or_unseen(
                glasses.states,
                other,
            )
        }),
{
    glasses_go_by_both_names(glasses.states, host);
    let placed = HostGlassState {
        input_drop_cue: Some(reason),
        ..state_or_unseen(glasses.states, host)
    };
    assert(placed.host@ == host@);
    lemma_put_found(glasses.states, state_of(host@), placed);
    if other@ != host@ {
        lemma_put_others(glasses.states, state_of(host@), placed, state_of(other@));
    }
}

/// Input that was handed over changes nothing. Where the queue was full or closed the
/// user is told which, and a closed one takes no more input.
pub proof fn refused_input_is_told(
    glasses: GlassesView,
    host: RemoteHostKey,
    outcome: GlassSend,
    until: u64,
)
    ensures
        ({
            let after = after_send(glasses, host, outcome, until);
            let cue = state_or_unseen(after.states, host).input_drop_cue;
            match outcome {
                GlassSend::Sent => after == glasses,
                GlassSend::Full => cue == Some(GlassInputDropReason::QueueFull) && after.streams
                    == glasses.streams,
                GlassSend::Closed => cue == Some(GlassInputDropReason::QueueClosed)
                    && !(drop_reason(after, host) is None),
            }
        }),
{
    match outcome {
        GlassSend::Sent => {},
        GlassSend::Full => {
            cues_are_set_on_their_own_glass(
                glasses,
                host,
                GlassInputDropReason::QueueFull,
                until,
                host,
            );
        },
        GlassSend::Closed => {
            let mine = stream_of(host@);
            lemma_first_holds(glasses.streams, mine);
            let streams = match first_where(glasses.streams, mine) {
                Some(i) => glasses.streams.update(
                    i,
                    HostGlassStream { connected: false, ..glasses.streams[i] },
                ),
                None => glasses.streams,
            };
            let closed = GlassesView { streams, ..glasses };
            cues_are_set_on_their_own_glass(
                closed,
                host,
                GlassInputDropReason::QueueClosed,
                until,
                host,
            );
            if let Some(i) = first_where(glasses.streams, mine) {
                assert(mine(streams[i]));
                assert forall|j: int| 0 <= j < i implies !mine(#[trigger] streams[j]) by {
                    assert(streams[j] == glasses.streams[j]);
                }
                lemma_first_found(streams, mine, i);
            }
        },
    }
}

/// A new generation of a glass is another than the one before, is still connecting, and
/// shows no cue.
pub proof fn new_generations_start_connecting(state: HostGlassState)
    ensures
        begun(state).host == state.host,
        begun(state).generation != state.generation,
        begun(state).generation != 0,
        begun(state).status is Connecting,
        begun(state).input_drop_cue is None,
{
}

/// Once the cues go they go from every glass; nothing else of a glass changes. A cue
/// stays for as long as it is shown, as far as time can be counted.
pub proof fn cues_go_from_every_glass(states: Seq<HostGlassState>, i: int, now: u64, shown_for: u64)
    requires
        0 <= i < states.len(),
    ensures
        without_cues(states).len() == states.len(),
        without_cues(states)[i].input_drop_cue is None,
        without_cues(states)[i].host == states[i].host && without_cues(states)[i].generation
            == states[i].generation && without_cues(states)[i].status == states[i].status,
        now + shown_for <= u64::MAX ==> cue_until(now, shown_for) == now + shown_for,
        now + shown_for > u64::MAX ==> cue_until(now, shown_for) == u64::MAX,
{
}

/// A surface is found under its own host, keeping one does not hide another's, and a
/// glass has at least one cell each way.
pub proof fn surfaces_go_by_their_host(
    surfaces: Seq<HostSurface>,
    host: RemoteHostKey,
    surface: GlassSurface,
    other: RemoteHostKey,
    cells: u16,
)
    ensures
        other@ != host@ ==> surface_for(
            put(surfaces, surface_of(host@), HostSurface { host, surface }),
            other@,
        ) == surface_for(surfaces, other@),
        surface_for(surfaces, host@) is None ==> forall|i: int|
            0 <= i < surfaces.len() ==> (#[trigger] surfaces[i]).host.host@ != host.host@
                || surfaces[i].host.session@ != host.session@,
        at_least_one(cells) >= 1,
        cells >= 1 ==> at_least_one(cells) == cells,
{
    let mine = surface_of(host@);
    lemma_first_holds(surfaces, mine);
    if other@ != host@ {
        lemma_put_others(surfaces, mine, HostSurface { host, surface }, surface_of(other@));
        lemma_first_holds(surfaces, surface_of(other@));
    }
    if first_where(surfaces, mine) is None {
        assert forall|i: int| 0 <= i < surfaces.len() implies (#[trigger] surfaces[i]).host.host@
            != host.host@ || surfaces[i].host.session@ != host.session@ by {
            assert(!mine(surfaces[i]));
        }
    }
}

/// A request that names no host, and one that names an unknown one, are refused under the
/// client's own identifier and on its own channel, with a code for each; nothing
/// changes.
pub proof fn unknown_hosts_are_refused(state: LifecycleView, ask: LifecycleAsk, generation: u64)
    requires
        ask.alias.len() == 0 || configured(state.federation.hosts, ask.alias) is None,
    ensures
        connected_on_request(state, ask, generation).0 == state,
        reconnected_on_request(state, ask, generation).0 == state,
        disconnected_on_request(state, ask, generation).0 == state,
        is_refused(connected_on_request(state, ask, generation).1, ask),
        is_refused(reconnected_on_request(state, ask, generation).1, ask),
        is_refused(disconnected_on_request(state, ask, generation).1, ask),
{
}

/// The client that asks is refused, and nothing else happens.
pub open spec fn is_refused(effects: Seq<LifecycleEffectView>, ask: LifecycleAsk) -> bool {
    &&& effects.len() == 1
    &&& effects[0] is Respond
    &&& effects[0]->Respond_responder == ask.responder
    &&& effects[0]->Respond_reply matches LifecycleReplyView::Refused { id, error } && id == ask.id
        && (ask.alias.len() == 0 ==> error.code == "invalid_params"@) && (ask.alias.len() > 0
        ==> error.code == "unknown_host"@)
}

/// A refusal for want of a host names the method that was asked for, and one of an
/// unknown host names that host.
pub proof fn refusals_name_what_was_asked(
    hosts: Seq<RemoteHostConfig>,
    alias: Seq<char>,
    action: RemoteLifecycleAction,
)
    requires
        lifecycle_host(hosts, alias, action) is Err,
    ensures
        alias.len() == 0 ==> contains_part(
            lifecycle_host(hosts, alias, action)->Err_0.message,
            action.method(),
        ),
        alias.len() > 0 ==> contains_part(
            lifecycle_host(hosts, alias, action)->Err_0.message,
            alias,
        ),
{
    let said = lifecycle_host(hosts, alias, action)->Err_0.message;
    if alias.len() == 0 {
        assert(said.subrange(0, action.method().len() as int) =~= action.method());
        assert(stands_at(said, action.method(), 0));
    } else {
        let at = said.len() - alias.len();
        assert(said.subrange(at, at + alias.len()) =~= alias);
        assert(stands_at(said, alias, at));
    }
}

} // verus!
