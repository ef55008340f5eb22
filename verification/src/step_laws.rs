//! What single calls leave behind, said of every call: cached agents that are told, reports
//! that are taken up, streams that are kept, and hosts that are reconciled.
use vstd::prelude::*;
use crate::agent_api::{handle_agent_get, handle_agent_list, handle_agent_rename};
use crate::agent_plan::{run_remote_agent_dispatch_with_bridge, RemoteAgentDispatchDescriptor};
use crate::host_glass::GlassSurface;
use crate::geometry::Rect;
use crate::host_laws::only_the_hosts_supervisors_end;
use crate::lifecycle::{
    admitted, lifecycle_effects, supervised, LifecycleEffect, RemoteLifecycles,
    RemoteSourceReport,
};
use crate::local_agents::{agent_info_at, local_agents, target_lookup, TargetLookup};
use crate::projection_frames::{frame_is, ProjectionFrames};
use crate::projection_plan::{
    DesiredStream, RemoteProjectionHitArea, RemoteProjectionStreamStatus, RemoteProjectionTerminalKey,
};
use crate::projection_runtime::{
    desired_seeds, InputDecision, RemoteProjectionRuntime, RuntimeView, StreamChange,
};
use crate::remote_attach::{DetachPlan, RemoteAttachPaneTarget, RemoteDetachViewError};
use crate::remote_calls::primary_answered;
use crate::remote_helpers::{remote_host_connected_or_error, BridgeError};
use crate::remotes::RemoteLifecycleHostParams;
use crate::remote_source::{
    all_entries, connected, status_of, RemoteConnectionStatus, RemoteHostKey,
    RemoteSources, RemoteSpaceKey,
};
use crate::remote_target::{
    agent_lookup, planned_route, RemoteHostConfig,
};
use crate::routed_exec::{
    effect_views, EffectView, RoutedCompletion, RoutedExecutorPool, SinkEffect,
};
use crate::routed_plan::{supervises, CompletionSink, Federation, RoutedSequenceDescriptor};
use crate::routed_reduce::{
    apply_routed_completion, reconciled_for, reconciled_generation, record_reconciled,
    ReconciledHost,
};
use crate::schema::{
    AgentRenameParams, AgentTarget, ErrorBody, Reply, ReplyView, ResponseResult,
};
use crate::search::{
    first_where, lemma_first_holds, lemma_put_found, lemma_put_others, put,
};
use crate::session::{terminal_of, Session};
use crate::stream_laws::{admitted_terminals_keep_their_last_frame, shown_of};

verus! {

// Agents -----------------------------------------------------------------

/// Asking for an agent of a host tells the cached agent that the target names, under the
/// identifier of the request, with its name marked as the host's; nothing else is told.
pub proof fn cached_agents_are_told(
    session: &Session,
    federation: &Federation,
    id: &String,
    target: &AgentTarget,
    reply: Reply,
    host: RemoteHostConfig,
)
    requires
        call_ensures(handle_agent_get, (session, federation, id, target), reply),
        planned_route(federation@.hosts, target.target@) is Remote,
        planned_route(federation@.hosts, target.target@)->host == host,
    ensures
        match reply {
            Reply::Success { id: told, result: ResponseResult::AgentInfo { agent } } => {
                let found = agent_lookup(
                    federation@.sources,
                    host,
                    planned_route(federation@.hosts, target.target@)->target,
                );
                &&& told == *id
                &&& found is One
                &&& agent.terminal_id == found->One_0.agent.terminal_id
                &&& agent.pane_id == found->One_0.agent.pane_id
                &&& agent.agent_status == found->One_0.agent.agent_status
            },
            Reply::Error { id: told, .. } => told == *id && !(agent_lookup(
                federation@.sources,
                host,
                planned_route(federation@.hosts, target.target@)->target,
            ) is One),
            _ => false,
        },
{
}

/// Listing the agents tells every local agent, in its place, and after them one agent for
/// each cached one, with the terminal that it has on its host.
pub proof fn all_agents_are_listed(
    session: &Session,
    sources: &RemoteSources,
    id: &String,
    reply: Reply,
)
    requires
        call_ensures(handle_agent_list, (session, sources, id), reply),
    ensures
        reply is Success && reply->Success_id == *id && reply->Success_result is AgentList,
        ({
            let agents = reply->Success_result->agents@;
            let local = local_agents(session@);
            let cached = all_entries(sources@);
            &&& agents.len() == local.len() + cached.len()
            &&& forall|i: int| 0 <= i < local.len() ==> #[trigger] agents[i] == local[i]
            &&& forall|i: int|
                0 <= i < cached.len() ==> (#[trigger] agents[local.len() + i]).terminal_id
                    == cached[i].agent.terminal_id
        }),
{
    let agents = reply->Success_result->agents@;
    let local = local_agents(session@);
    assert forall|i: int| 0 <= i < local.len() implies #[trigger] agents[i] == local[i] by {
        assert(agents.take(local.len() as int)[i] == local[i]);
    }
}

/// A renamed agent is told as it then is, under the identifier of the request; a target
/// that leads to no agent changes nothing.
pub proof fn renamed_agents_are_told(
    session: &mut Session,
    id: &String,
    params: &AgentRenameParams,
    reply: Reply,
)
    requires
        old(session)@.ok(),
        call_ensures(handle_agent_rename, (session, id, params), reply),
    ensures
        match target_lookup(old(session)@, params.target@) {
            TargetLookup::Found(w, t, p) => reply is Success ==> reply->Success_id == *id
                && reply->Success_result is AgentInfo && agent_info_at(final(session)@, w, t, p)
                == Some(reply->Success_result->AgentInfo_agent),
            _ => reply is Error && final(session)@ == old(session)@,
        },
        reply is Error ==> reply->Error_id == *id,
        reply is Success || reply is Error,
{
}

// Hosts ------------------------------------------------------------------

/// A change may be sent only to a host that is connected, and it is sent to that host
/// under its name and session.
pub proof fn changes_need_a_connected_host(
    sources: &RemoteSources,
    host: &RemoteHostConfig,
    noun: &str,
    key: Result<RemoteHostKey, ErrorBody>,
)
    requires
        call_ensures(remote_host_connected_or_error, (sources, host, noun), key),
    ensures
        (key is Ok) == (status_of(sources@, (host.name@, host.session@)) == Some(
            RemoteConnectionStatus::Connected,
        )),
        key matches Ok(key) ==> key.host@ == host.name@ && key.session@ == host.session@,
{
}

/// A report is taken up only while its supervisor runs; one of an older supervisor leaves
/// everything as it was, and no report touches who waits or who is supervised.
pub proof fn late_reports_change_nothing(
    lifecycles: &mut RemoteLifecycles,
    host: &RemoteHostKey,
    generation: u64,
    report: RemoteSourceReport,
    applied: bool,
)
    requires
        call_ensures(
            RemoteLifecycles::apply_source_report,
            (lifecycles, host, generation, report),
            applied,
        ),
    ensures
        !applied ==> final(lifecycles)@ == old(lifecycles)@,
        applied == admitted(old(lifecycles)@.federation, host@, generation),
        final(lifecycles)@.pending == old(lifecycles)@.pending,
        final(lifecycles)@.federation.supervisors == old(lifecycles)@.federation.supervisors,
        final(lifecycles)@.federation.hosts == old(lifecycles)@.federation.hosts,
{
}

/// The outcome of a change is taken up only while the supervisor that it was sent under
/// runs; the host is then reconciled for that generation.
pub proof fn late_outcomes_change_nothing(
    lifecycles: &mut RemoteLifecycles,
    reconciled: &mut Vec<ReconciledHost>,
    host: &RemoteHostKey,
    generation: u64,
    outcome: RoutedCompletion,
    applied: bool,
)
    requires
        call_ensures(
            RemoteLifecycles::apply_routed_report,
            (lifecycles, reconciled, host, generation, outcome),
            applied,
        ),
    ensures
        !applied ==> final(lifecycles)@ == old(lifecycles)@ && *final(reconciled) == *old(
            reconciled,
        ),
        applied == admitted(old(lifecycles)@.federation, host@, generation),
        applied ==> reconciled_generation(final(reconciled)@, host@) == Some(generation),
        final(lifecycles)@.pending == old(lifecycles)@.pending,
        final(lifecycles)@.federation.supervisors == old(lifecycles)@.federation.supervisors,
{
}

/// Recovering a host is asking for its reconnection: both leave the same state behind and
/// have the same effects; recovery under an older supervisor does nothing.
pub proof fn recovering_is_reconnecting(
    recovered: &mut RemoteLifecycles,
    reconnected: &mut RemoteLifecycles,
    request_id: &String,
    host: &RemoteHostKey,
    params: &RemoteLifecycleHostParams,
    generation: u64,
    responder: u64,
    fresh: u64,
    effects: Option<Vec<LifecycleEffect>>,
    asked: Vec<LifecycleEffect>,
)
    requires
        old(recovered)@ == old(reconnected)@,
        params.host@ == host.host@,
        call_ensures(
            RemoteLifecycles::start_remote_routed_recovery,
            (recovered, request_id, host, generation, responder, fresh),
            effects,
        ),
        call_ensures(
            RemoteLifecycles::start_remote_lifecycle_reconnect,
            (reconnected, request_id, params, responder, fresh),
            asked,
        ),
    ensures
        (effects is Some) == admitted(old(recovered)@.federation, host@, generation),
        effects is None ==> final(recovered)@ == old(recovered)@,
        effects matches Some(effects) ==> final(recovered)@ == final(reconnected)@
            && lifecycle_effects(effects@) == lifecycle_effects(asked@),
{
}

/// A supervisor is active where one runs for the host and the host is connected.
pub proof fn active_supervisors_are_connected(
    lifecycles: &RemoteLifecycles,
    host: &RemoteHostKey,
    active: bool,
)
    requires
        call_ensures(
            RemoteLifecycles::host_has_active_connected_supervisor,
            (lifecycles, host),
            active,
        ),
    ensures
        active ==> status_of(lifecycles@.federation.sources, host@) == Some(
            RemoteConnectionStatus::Connected,
        ),
        active ==> supervised(lifecycles@.federation.supervisors, host@),
        !active ==> !supervised(lifecycles@.federation.supervisors, host@) || !connected(
            lifecycles@.federation.sources,
            host@,
        ),
{
}

/// Retiring a host's supervisors ends exactly those, and says whether there were any.
pub proof fn retired_supervisors_are_gone(
    lifecycles: &mut RemoteLifecycles,
    host: &RemoteHostKey,
    had_handle: bool,
    i: int,
)
    requires
        call_ensures(RemoteLifecycles::retire_supervisor_for_host, (lifecycles, host), had_handle),
        0 <= i < old(lifecycles).federation.supervisors@.len(),
    ensures
        ({
            let handle = old(lifecycles).federation.supervisors@[i];
            let its = handle.host_key.host@ == host.host@ && handle.host_key.session@
                == host.session@;
            &&& final(lifecycles).federation.supervisors@.contains(handle) == !its
            &&& its ==> had_handle
        }),
        final(lifecycles).pending == old(lifecycles).pending,
        final(lifecycles).federation.remote_sources == old(lifecycles).federation.remote_sources,
{
    let handles = old(lifecycles).federation.supervisors@;
    only_the_hosts_supervisors_end(handles, *host, i);
    lemma_first_holds(handles, supervises(host@));
}

/// A host that was reconciled is so for the generation that was noted, and no other
/// host's generation changes.
pub proof fn reconciled_hosts_read_back(
    entries: &mut Vec<ReconciledHost>,
    key: &RemoteHostKey,
    generation: u64,
    other: (Seq<char>, Seq<char>),
    done: (),
)
    requires
        call_ensures(record_reconciled, (entries, key, generation), done),
    ensures
        reconciled_generation(final(entries)@, key@) == Some(generation),
        other != key@ ==> reconciled_generation(final(entries)@, other) == reconciled_generation(
            old(entries)@,
            other,
        ),
{
    lemma_reconciled(old(entries)@, *key, generation, other);
}

/// The outcome of a change is noted of its own host only.
pub proof fn outcomes_reconcile_their_host(
    sources: &mut RemoteSources,
    reconciled: &mut Vec<ReconciledHost>,
    key: &RemoteHostKey,
    generation: u64,
    outcome: RoutedCompletion,
    other: (Seq<char>, Seq<char>),
    done: (),
)
    requires
        call_ensures(
            apply_routed_completion,
            (sources, reconciled, key, generation, outcome),
            done,
        ),
    ensures
        reconciled_generation(final(reconciled)@, key@) == Some(generation),
        other != key@ ==> reconciled_generation(final(reconciled)@, other)
            == reconciled_generation(old(reconciled)@, other),
{
    lemma_reconciled(old(reconciled)@, *key, generation, other);
}

// Sequences --------------------------------------------------------------

/// A change that was never sent is told to whoever waits for it, once: the client on its
/// own channel and under its own identifier, the creation under its own token and host.
/// Where the connection could not be opened, the reason is told.
pub proof fn unsent_changes_are_told(
    descriptor: RoutedSequenceDescriptor,
    message: String,
    gave_up: Vec<SinkEffect>,
    not_opened: Vec<SinkEffect>,
)
    requires
        call_ensures(RoutedExecutorPool::sequence_gave_up, (descriptor,), gave_up),
        call_ensures(RoutedExecutorPool::sequence_not_opened, (descriptor, message), not_opened),
    ensures
        tells_whoever_waits(descriptor, effect_views(gave_up@)),
        tells_whoever_waits(descriptor, effect_views(not_opened@)),
        descriptor.sink is Some ==> told_message(effect_views(not_opened@)[0]) == Some(message@),
{
}

/// The effects fail what the descriptor's change was waited for by, and do nothing else.
pub open spec fn tells_whoever_waits(
    descriptor: RoutedSequenceDescriptor,
    effects: Seq<EffectView>,
) -> bool {
    match descriptor.sink {
        None => effects.len() == 0,
        Some(CompletionSink::ApiResponder { responder, request_id }) => effects.len() == 1 && match
        effects[0] {
            EffectView::Respond { responder: channel, reply: ReplyView::Error { id, .. } } => channel
                == responder && id == request_id,
            _ => false,
        },
        Some(CompletionSink::UiCreate { token }) => effects.len() == 1 && match effects[0] {
            EffectView::CreateFailed { host, token: failed, .. } => host == descriptor.host_key
                && failed == token,
            _ => false,
        },
    }
}

/// The words in which an effect tells a failure.
pub open spec fn told_message(effect: EffectView) -> Option<Seq<char>> {
    match effect {
        EffectView::Respond { reply: ReplyView::Error { error, .. }, .. } => Some(error.message),
        EffectView::CreateFailed { message, .. } => Some(message),
        _ => None,
    }
}

/// A request that did not reach its host is answered with what the bridge said, under the
/// identifier of the request.
pub proof fn failed_bridges_are_told(
    id: &String,
    descriptor: &RemoteAgentDispatchDescriptor,
    bridged: Result<String, BridgeError>,
    answered: Result<serde_json::Value, Reply>,
    reply: Reply,
)
    requires
        bridged is Err,
        call_ensures(primary_answered, (id, bridged), answered),
        call_ensures(run_remote_agent_dispatch_with_bridge, (descriptor, bridged), reply),
    ensures
        answered matches Err(told) && told@ is Error && told@->Error_id == *id
            && told@->Error_error.message == bridged->Err_0@.message,
        reply@ is Error && reply@->Error_id == descriptor.request.id && reply@->Error_error.message
            == bridged->Err_0@.message,
{
}

// Streams ----------------------------------------------------------------

/// The status that is told of a terminal is that of its own frame, and none is told where
/// it has no frame.
pub proof fn statuses_are_those_of_the_frames(
    frames: &ProjectionFrames,
    key: &RemoteProjectionTerminalKey,
    status: Option<RemoteProjectionStreamStatus>,
)
    requires
        call_ensures(ProjectionFrames::status_of, (frames, key), status),
    ensures
        status is None ==> forall|i: int|
            0 <= i < frames@.frames.len() ==> (#[trigger] frames@.frames[i]).key@ != key@,
        status matches Some(status) ==> exists|i: int|
            0 <= i < frames@.frames.len() && (#[trigger] frames@.frames[i]).key@ == key@
                && frames@.frames[i].status == status,
{
    let all = frames@.frames;
    lemma_first_holds(all, frame_is(key@));
    assert forall|i: int|
        status is None && 0 <= i < all.len() implies (#[trigger] all[i]).key@ != key@ by {
        assert(!(frame_is(key@))(all[i]));
    }
    if let Some(i) = first_where(all, frame_is(key@)) {
        assert(all[i].key@ == key@);
    }
}

/// Where the bridge of the shown generation could not be opened, every terminal that it was
/// to stream needs attention, in words that end in the reason.
pub proof fn unopened_bridges_need_attention(
    runtime: &RemoteProjectionRuntime,
    frames: &mut ProjectionFrames,
    streams: &Vec<DesiredStream>,
    message: &str,
    done: (),
    i: int,
)
    requires
        call_ensures(
            RemoteProjectionRuntime::bridge_failed,
            (runtime, frames, streams, message),
            done,
        ),
        runtime@.generation == old(frames)@.generation,
        0 <= i < streams@.len(),
        forall|a: int, b: int|
            0 <= a < b < streams@.len() ==> (#[trigger] streams@[a]).key@ != (
            #[trigger] streams@[b]).key@,
    ensures
        shown_of(final(frames)@.frames, streams@[i].key) matches Some(shown)
            && shown.status is NeedsAttention && shown.role == streams@[i].role
            && (shown.message matches Some(told) && told.len() >= message@.len() && told.skip(
            told.len() - message@.len(),
        ) == message@),
{
    let words = "projection bridge failed closed: "@;
    let seeds = desired_seeds(
        streams@,
        RemoteProjectionStreamStatus::NeedsAttention,
        words + message@,
    );
    assert forall|a: int, b: int| 0 <= a < b < seeds.len() implies (#[trigger] seeds[a]).key@ != (
    #[trigger] seeds[b]).key@ by {
        assert(streams@[a].key@ != streams@[b].key@);
    }
    admitted_terminals_keep_their_last_frame(old(frames)@, runtime@.generation, seeds);
    assert(seeds[i].key == streams@[i].key);
    assert((words + message@).skip(words.len() as int) =~= message@);
}

/// Sending input, noting a change and dropping what has ended touch only the streams: what
/// is shown, its generation and the bridge stay as they are.
pub proof fn streams_change_alone(
    sending: &mut RemoteProjectionRuntime,
    changing: &mut RemoteProjectionRuntime,
    pruning: &mut RemoteProjectionRuntime,
    frames: &ProjectionFrames,
    selected: &Option<RemoteSpaceKey>,
    areas: &Vec<RemoteProjectionHitArea>,
    serial: u64,
    change: StreamChange,
    decision: InputDecision,
    changed: (),
    finished: Vec<u64>,
)
    requires
        call_ensures(
            RemoteProjectionRuntime::send_input,
            (sending, frames, selected, areas),
            decision,
        ),
        call_ensures(RemoteProjectionRuntime::stream_changed, (changing, serial, change), changed),
        call_ensures(RemoteProjectionRuntime::prune_finished_streams, (pruning,), finished),
    ensures
        same_but_streams(old(sending)@, final(sending)@),
        same_but_streams(old(changing)@, final(changing)@),
        same_but_streams(old(pruning)@, final(pruning)@),
{
}

/// Two states of the runtime show the same, in the same generation, over the same bridge.
pub open spec fn same_but_streams(before: RuntimeView, after: RuntimeView) -> bool {
    &&& after.source == before.source
    &&& after.signature == before.signature
    &&& after.generation == before.generation
    &&& after.bridge_open == before.bridge_open
}

/// A surface that was opened shows the terminal that was opened for it, in the area and
/// the generation that it was opened for; where none could be opened, the reason is told.
pub proof fn opened_surfaces_are_as_asked(
    area: Rect,
    generation: u64,
    terminal: Result<u64, String>,
    surface: Result<GlassSurface, String>,
)
    requires
        call_ensures(GlassSurface::opened, (area, generation, terminal), surface),
    ensures
        match (terminal, surface) {
            (Ok(terminal), Ok(surface)) => surface.terminal == terminal && surface.area == area
                && surface.generation == generation,
            (Err(reason), Err(told)) => told == reason,
            _ => false,
        },
{
}

/// A view is detached only where its terminal is attached; the shell in its place starts
/// in the directory of that terminal.
pub proof fn detached_views_keep_their_directory(
    session: &Session,
    target: &RemoteAttachPaneTarget,
    plan: Result<DetachPlan, RemoteDetachViewError>,
)
    requires
        call_ensures(Session::plan_remote_detach, (session, target), plan),
    ensures
        plan matches Ok(plan) ==> {
            let terminal = terminal_of(session@.terminals, target.terminal_id@);
            &&& terminal is Some
            &&& terminal->0.remote_attach is Some
            &&& plan.cwd == terminal->0.cwd
        },
{
}

/// Noting a generation is read back, of its own host alone.
proof fn lemma_reconciled(
    entries: Seq<ReconciledHost>,
    key: RemoteHostKey,
    generation: u64,
    other: (Seq<char>, Seq<char>),
)
    ensures
        ({
            let entry = match first_where(entries, reconciled_for(key@)) {
                Some(i) => ReconciledHost { generation, ..entries[i] },
                None => ReconciledHost { key, generation },
            };
            let after = put(entries, reconciled_for(key@), entry);
            &&& reconciled_generation(after, key@) == Some(generation)
            &&& other != key@ ==> reconciled_generation(after, other) == reconciled_generation(
                entries,
                other,
            )
        }),
{
    let entry = match first_where(entries, reconciled_for(key@)) {
        Some(i) => ReconciledHost { generation, ..entries[i] },
        None => ReconciledHost { key, generation },
    };
    if first_where(entries, reconciled_for(key@)) is Some {
        lemma_first_holds(entries, reconciled_for(key@));
    }
    lemma_put_found(entries, reconciled_for(key@), entry);
    if other != key@ {
        lemma_put_others(entries, reconciled_for(key@), entry, reconciled_for(other));
    }
}

} // verus!
