//! What the calls that keep something do to it: queues, permits, glasses, streams, waiting
//! clients and the memory of the mouse, said of every call.
use vstd::prelude::*;
use std::sync::Arc;
use crate::agent_plan::{acquire_remote_agent_bridge_permit_or_busy, RemoteAgentDispatchDescriptor};
use crate::agent_start::{AgentCommand, AgentStartError, LaunchedPane, SplitTarget, StartErrorView};
use crate::bridge_limiter::{in_flight_of, RemoteAgentBridgeLimiter, RemoteAgentBridgePermit};
use crate::host_glass::{
    state_or_unseen, stream_of, GlassStatus, GlassSurface, HostGlassStream, HostGlasses,
};
use crate::host_laws::{glasses_go_by_both_names, reports_answer_their_own_client};
use crate::input_keys::{pastes, takes_text, InputState, KeyEvent, KeyRoute, PasteRoute, Platform};
use crate::input_mouse::{
    plugin_answered, ClickWindows, MouseEvent, MouseMemory, MouseStep, MouseSurroundings, Sidebar,
    SidebarWidthSource,
};
use crate::lifecycle::{
    LifecycleEffect, LifecycleReplyView, RemoteLifecycles, RemoteSourceLifecycleOutcome,
};
use crate::local_api::LaunchedWorkspace;
use crate::projection_frames::StreamReport;
use crate::projection_plan::DesiredStream;
use crate::projection_runtime::{ProjectionSignature, RemoteProjectionRuntime};
use crate::projection_stream::{StreamAttempt, StreamEnd, StreamMessage, StreamRequest};
use crate::remote_attach::{RemoteAttachPaneTarget, RemoteDetachViewError, ToastNotification};
use crate::remote_calls::{layout_exported, refresh_started, LayoutLeg, RefreshTarget};
use crate::remote_source::{
    capabilities_of, projection_for, tabs_for, RemoteHostKey, RemoteSources, RemoteSpaceKey,
};
use crate::cache_laws::{doubted_tabs_stay_readable, reported_layouts_read_back, space_on};
use crate::routed_exec::{
    effect_views, host_queue, is_clean, waiting, worker_runs, QueueView, RoutedEnqueueError,
    RoutedExecutorPool, SequenceFinal, SinkEffect, ROUTED_MUTATION_QUEUE_DEPTH,
};
use crate::routed_laws::queues_are_first_in_first_out;
use crate::routed_plan::{
    routed_plan, CompletionSink, Federation, RoutedPlanView, RoutedSequenceDescriptor,
};
use crate::routed_run::{
    is_lost_final, is_sequence_end, DeferredRoutedOutcome, PermitWait, PoolAction, RoutedTiming,
    WorkerEnd,
};
use crate::schema::{AgentInfo, LayoutDescription, Reply, Request};
use crate::search::{
    element_where, first_where, lemma_first_found, lemma_first_holds, lemma_put_found,
    lemma_put_others,
};
use crate::session::{Mode, Session};
use crate::outcome_laws::{
    clean_sequences_were_answered, connections_are_kept_only_clean,
    finished_sequences_have_their_effects, queues_go_by_both_names,
};

verus! {

// The mouse --------------------------------------------------------------

/// A link under the press ends the click and is offered to the plugins; a plugin that
/// takes it ends the event, and otherwise the link is opened as it is.
pub proof fn links_are_opened_unless_a_plugin_takes_them(
    memory: &mut MouseMemory,
    around: &MouseSurroundings,
    mouse: MouseEvent,
    now: u64,
    windows: ClickWindows,
    url: String,
    asked: MouseStep,
    handled: Result<bool, String>,
    step: MouseStep,
)
    requires
        call_ensures(
            MouseMemory::link_answered,
            (memory, around, mouse, now, windows, Some(url)),
            asked,
        ),
        call_ensures(plugin_answered, (url, handled), step),
    ensures
        asked == (MouseStep::AskPlugin { url }),
        final(memory).last_pane_click is None,
        final(memory).last_sidebar_divider_click == old(memory).last_sidebar_divider_click,
        (step is Finished) == (handled == Ok::<bool, String>(true)),
        !(step is Finished) ==> step == (MouseStep::OpenLink { url }),
{
}

/// A word that was copied stays highlighted for as long as it is shown, and the event is
/// done; one that was not is an ordinary click.
pub proof fn copied_words_stay_highlighted(
    memory: &mut MouseMemory,
    around: &MouseSurroundings,
    mouse: MouseEvent,
    copied: bool,
    now: u64,
    shown_for: u64,
    step: MouseStep,
)
    requires
        now + shown_for <= u64::MAX,
        call_ensures(MouseMemory::word_copied, (memory, around, mouse, copied, now, shown_for), step),
    ensures
        (step is FollowUps) == copied,
        (step is Ordinary) == !copied,
        copied ==> final(memory).highlight_clear_deadline == Some((now + shown_for) as u64),
        !copied ==> *final(memory) == *old(memory),
        final(memory).last_pane_click == old(memory).last_pane_click,
{
}

/// A sidebar that is reset has its configured width, from the configuration and for good,
/// and nothing is dragged any more; the session is to be saved.
pub proof fn reset_sidebars_have_their_width(sidebar: &mut Sidebar, session: &mut Session, done: ())
    requires
        call_ensures(Sidebar::reset_width, (sidebar, session), done),
    ensures
        final(sidebar).width == old(sidebar).default_width,
        final(sidebar).default_width == old(sidebar).default_width,
        final(sidebar).width_source == SidebarWidthSource::ConfigDefault,
        !final(sidebar).width_auto && !final(sidebar).dragging,
        final(session)@.dirty,
        final(session)@.workspaces == old(session)@.workspaces,
{
}

// Keys -------------------------------------------------------------------

/// The paste key goes to the clipboard exactly where a text input takes text, and every
/// other key to its mode; what is pasted outside a text input changes none.
pub proof fn paste_keys_need_a_text_input(
    state: &InputState,
    key: &KeyEvent,
    platform: Platform,
    route: KeyRoute,
)
    requires
        call_ensures(InputState::key_route, (state, key, platform), route),
    ensures
        (route is PasteClipboard) == (takes_text(state@) && pastes(*key, platform)),
        state@.mode == Mode::Terminal ==> route is Terminal,
{
}

/// Text that is pasted while the keys go to a pane changes no text input.
pub proof fn pastes_into_panes_change_no_input(
    state: &mut InputState,
    glass_active: bool,
    projection_active: bool,
    active: Option<usize>,
    text: String,
    route: PasteRoute,
)
    requires
        old(state)@.mode == Mode::Terminal,
        call_ensures(
            InputState::handle_paste,
            (state, glass_active, projection_active, active, text),
            route,
        ),
    ensures
        final(state)@ == old(state)@,
        !(route is TextInput),
        glass_active ==> route == PasteRoute::Glass(text),
{
}

// Glasses ----------------------------------------------------------------

/// A status is taken up exactly under the glass's current generation; then it is the
/// status of that glass, and nothing else changes.
pub proof fn glass_statuses_need_their_generation(
    glasses: &mut HostGlasses,
    host: &RemoteHostKey,
    generation: u64,
    status: GlassStatus,
    taken: bool,
    i: int,
)
    requires
        0 <= i < old(glasses)@.states.len(),
        old(glasses)@.states[i].host@ == host@,
        forall|j: int| 0 <= j < i ==> (#[trigger] old(glasses)@.states[j]).host@ != host@,
        call_ensures(
            HostGlasses::set_host_glass_status,
            (glasses, host, generation, status),
            taken,
        ),
    ensures
        taken == (old(glasses)@.states[i].generation == generation),
        !taken ==> final(glasses)@ == old(glasses)@,
        taken ==> final(glasses)@.states[i].status == status && final(glasses)@.states[i].generation
            == generation && final(glasses)@.states.len() == old(glasses)@.states.len(),
        forall|j: int|
            0 <= j < old(glasses)@.states.len() && j != i ==> #[trigger] final(glasses)@.states[j]
                == old(glasses)@.states[j],
        final(glasses)@.streams == old(glasses)@.streams,
{
    let mine = crate::host_glass::state_of(host@);
    assert forall|j: int| 0 <= j < i implies !mine(#[trigger] old(glasses)@.states[j]) by {}
    lemma_first_found(old(glasses)@.states, mine, i);
}

/// A stream that connected is the host's stream, under its generation.
pub proof fn connected_streams_are_the_hosts(
    glasses: &mut HostGlasses,
    host: &RemoteHostKey,
    generation: u64,
    done: (),
)
    requires
        call_ensures(HostGlasses::stream_connected, (glasses, host, generation), done),
    ensures
        element_where(final(glasses)@.streams, stream_of(host@)) == Some(
            HostGlassStream { host: *host, generation, connected: true },
        ),
        final(glasses)@.states == old(glasses)@.states,
{
    lemma_put_found(
        old(glasses)@.streams,
        stream_of(host@),
        HostGlassStream { host: *host, generation, connected: true },
    );
}

/// Cues go exactly once their time has come.
pub proof fn cues_go_when_their_time_has_come(glasses: &mut HostGlasses, now: u64, expired: bool)
    requires
        call_ensures(HostGlasses::expire_drop_cue, (glasses, now), expired),
    ensures
        expired == (old(glasses)@.drop_cue_deadline is Some && old(glasses)@.drop_cue_deadline->0
            <= now),
        !expired ==> final(glasses)@ == old(glasses)@,
        expired ==> final(glasses)@.drop_cue_deadline is None && forall|i: int|
            0 <= i < final(glasses)@.states.len() ==> (
            #[trigger] final(glasses)@.states[i]).input_drop_cue is None,
        final(glasses)@.streams == old(glasses)@.streams,
{
}

/// A new generation of a glass is told, is that glass's generation, and makes it connect
/// anew.
pub proof fn begun_generations_are_the_glasss(
    glasses: &mut HostGlasses,
    host: &RemoteHostKey,
    generation: u64,
)
    requires
        call_ensures(HostGlasses::begin_host_glass_generation, (glasses, host), generation),
    ensures
        state_or_unseen(final(glasses)@.states, *host).generation == generation,
        state_or_unseen(final(glasses)@.states, *host).status is Connecting,
        generation != state_or_unseen(old(glasses)@.states, *host).generation,
        generation != 0,
{
    glasses_go_by_both_names(old(glasses)@.states, *host);
    let begun = crate::host_glass::begun(state_or_unseen(old(glasses)@.states, *host));
    lemma_put_found(old(glasses)@.states, crate::host_glass::state_of(host@), begun);
}

/// A surface that is resized has the new area exactly where its terminal took it, and
/// never another terminal or generation.
pub proof fn resized_surfaces_have_their_area(
    surface: &mut GlassSurface,
    area: crate::geometry::Rect,
    outcome: Result<(), String>,
    result: Result<(), String>,
)
    requires
        call_ensures(GlassSurface::resized, (surface, area, outcome), result),
    ensures
        result == outcome,
        outcome is Ok ==> final(surface).area == area,
        outcome is Err ==> final(surface).area == old(surface).area,
        final(surface).terminal == old(surface).terminal,
        final(surface).generation == old(surface).generation,
{
}

// Permits ----------------------------------------------------------------

/// A request gets a permit for its own host exactly where that host has one free;
/// otherwise its client is refused under its own identifier and nothing changes.
pub proof fn permits_are_for_the_requests_host(
    limiter: &mut RemoteAgentBridgeLimiter,
    descriptor: &RemoteAgentDispatchDescriptor,
    permit: Result<RemoteAgentBridgePermit, Reply>,
)
    requires
        call_ensures(
            acquire_remote_agent_bridge_permit_or_busy,
            (limiter, descriptor),
            permit,
        ),
    ensures
        ({
            let key = (descriptor.host.name@, descriptor.host.session@);
            let before = in_flight_of(old(limiter).counts(), key);
            &&& (permit is Ok) == (before < old(limiter).spec_limit())
            &&& permit is Ok ==> permit->Ok_0.key.host == descriptor.host.name
                && permit->Ok_0.key.session == descriptor.host.session && in_flight_of(
                final(limiter).counts(),
                key,
            ) == before + 1
            &&& permit is Err ==> permit->Err_0 is Error && permit->Err_0->Error_id
                == descriptor.request.id && final(limiter).counts() == old(limiter).counts()
        }),
{
}

/// A wait for a permit ends when the longest wait is over, as far as time can be counted.
pub proof fn waits_end_after_the_longest_wait(now_ms: u64, timing: RoutedTiming, wait: PermitWait)
    requires
        call_ensures(PermitWait::begin, (now_ms, timing), wait),
        now_ms + timing.permit_wait_max_ms <= u64::MAX,
    ensures
        wait.deadline_ms == now_ms + timing.permit_wait_max_ms,
        wait.starving_since is None,
{
}

// Queues -----------------------------------------------------------------

/// A change is queued last for its own host, exactly where there is room; a worker is to
/// be started exactly where none runs. What waits for other hosts stays.
pub proof fn changes_are_queued_where_there_is_room(
    pool: &mut RoutedExecutorPool,
    descriptor: RoutedSequenceDescriptor,
    queued: Result<bool, RoutedEnqueueError>,
    other: (Seq<char>, Seq<char>),
)
    requires
        call_ensures(RoutedExecutorPool::enqueue, (pool, descriptor), queued),
    ensures
        (queued is Ok) == (waiting(old(pool)@, descriptor.host_key@).len()
            < ROUTED_MUTATION_QUEUE_DEPTH),
        queued is Ok ==> waiting(final(pool)@, descriptor.host_key@) == waiting(
            old(pool)@,
            descriptor.host_key@,
        ).push(descriptor) && queued->Ok_0 == !worker_runs(old(pool)@, descriptor.host_key@)
            && worker_runs(final(pool)@, descriptor.host_key@),
        queued is Err ==> final(pool)@ == old(pool)@,
        other != descriptor.host_key@ ==> waiting(final(pool)@, other) == waiting(
            old(pool)@,
            other,
        ),
{
    queues_are_first_in_first_out(old(pool)@, descriptor, other);
}

/// A worker takes what has waited longest, and stops exactly where nothing waits.
#[verifier::spinoff_prover]
pub proof fn workers_take_the_oldest_first(
    pool: &mut RoutedExecutorPool,
    key: &RemoteHostKey,
    next: Option<RoutedSequenceDescriptor>,
)
    requires
        call_ensures(RoutedExecutorPool::next_sequence, (pool, key), next),
    ensures
        (next is Some) == (waiting(old(pool)@, key@).len() > 0),
        next is Some ==> next->0 == waiting(old(pool)@, key@)[0] && waiting(final(pool)@, key@)
            == waiting(old(pool)@, key@).drop_first() && worker_runs(final(pool)@, key@)
            == worker_runs(old(pool)@, key@),
        next is None ==> waiting(final(pool)@, key@).len() == 0 && !worker_runs(final(pool)@, key@),
{
    queues_go_by_both_names(old(pool)@, *key);
    if let Some(queue) = host_queue(old(pool)@, key@) {
        assert(queue.key@ == key@);
        lemma_put_found(
            old(pool)@,
            crate::routed_exec::queue_is(key@),
            QueueView { queue: queue.queue.drop_first(), ..queue },
        );
        lemma_put_found(
            old(pool)@,
            crate::routed_exec::queue_is(key@),
            QueueView { worker_alive: false, ..queue },
        );
    }
}

/// Taking back what waits for a host takes back all of it.
#[verifier::spinoff_prover]
pub proof fn all_that_waits_is_taken_back(
    pool: &mut RoutedExecutorPool,
    key: &RemoteHostKey,
    cancelled: Vec<RoutedSequenceDescriptor>,
)
    requires
        call_ensures(RoutedExecutorPool::cancel_all_queued, (pool, key), cancelled),
    ensures
        cancelled@ == waiting(old(pool)@, key@),
        waiting(final(pool)@, key@).len() == 0,
{
    queues_go_by_both_names(old(pool)@, *key);
    if let Some(queue) = host_queue(old(pool)@, key@) {
        assert(queue.key@ == key@);
        lemma_put_found(
            old(pool)@,
            crate::routed_exec::queue_is(key@),
            QueueView { queue: Seq::empty(), ..queue },
        );
    }
}

/// Taking back a new workspace takes back the change that waits under its token, and no
/// other.
#[verifier::spinoff_prover]
pub proof fn creations_are_taken_back_by_token(
    pool: &mut RoutedExecutorPool,
    key: &RemoteHostKey,
    token: u64,
    cancelled: Option<RoutedSequenceDescriptor>,
)
    requires
        call_ensures(RoutedExecutorPool::cancel_queued_create, (pool, key, token), cancelled),
    ensures
        cancelled is Some ==> cancelled->0.sink == Some(CompletionSink::UiCreate { token })
            && waiting(old(pool)@, key@).contains(cancelled->0),
        cancelled is None ==> final(pool)@ == old(pool)@ && forall|i: int|
            0 <= i < waiting(old(pool)@, key@).len() ==> (#[trigger] waiting(
                old(pool)@,
                key@,
            )[i]).sink != Some(CompletionSink::UiCreate { token }),
{
    let queue = waiting(old(pool)@, key@);
    let mine = crate::routed_exec::awaits_create(token);
    lemma_first_holds(queue, mine);
    match first_where(queue, mine) {
        Some(i) => {
            assert(mine(queue[i]));
            assert(queue.contains(queue[i]));
        },
        None => {
            assert forall|i: int| 0 <= i < queue.len() implies (#[trigger] queue[i]).sink != Some(
                CompletionSink::UiCreate { token },
            ) by {
                assert(!mine(queue[i]));
            }
        },
    }
}

/// A client's change on a host is queued for that host and waits under the client's own
/// channel and identifier; what is refused is refused under that identifier; and what is
/// not for a host is left alone.
#[verifier::spinoff_prover]
pub proof fn clients_changes_are_queued_for_them(
    pool: &mut RoutedExecutorPool,
    federation: &Federation,
    request: &Request,
    responder: u64,
    outcome: DeferredRoutedOutcome,
)
    requires
        call_ensures(
            RoutedExecutorPool::handle_deferred_remote_routed_api_request,
            (pool, federation, request, responder),
            outcome,
        ),
    ensures
        (outcome is NotHandled) == (routed_plan(federation@, *request) is NotHandled),
        !(outcome is Queued) ==> final(pool)@ == old(pool)@,
        outcome matches DeferredRoutedOutcome::Queued { host_key, start_worker } ==> {
            let planned = routed_plan(federation@, *request)->Deferred_0;
            let queue = waiting(final(pool)@, host_key@);
            &&& routed_plan(federation@, *request) is Deferred
            &&& host_key == planned.host_key
            &&& queue.len() == waiting(old(pool)@, host_key@).len() + 1
            &&& queue.last().spec == planned.spec && queue.last().host == planned.host
            &&& queue.last().sink == Some(
                CompletionSink::ApiResponder { responder, request_id: planned.spec.primary.id },
            )
            &&& start_worker == !worker_runs(old(pool)@, host_key@)
        },
        outcome matches DeferredRoutedOutcome::Answered(reply) ==> reply is Error && (
        routed_plan(federation@, *request) is Refused ==> reply->Error_id == request.id),
{
    if let RoutedPlanView::Deferred(descriptor) = routed_plan(federation@, *request) {
        queues_are_first_in_first_out(
            old(pool)@,
            crate::routed_run::for_client(descriptor, responder),
            descriptor.host_key@,
        );
    }
}

// Waiting clients --------------------------------------------------------

/// A report of an attempt answers the client that waits for it, on its own channel and
/// under its own identifier, with what was reported; that client waits no longer, and
/// nobody else is answered.
#[verifier::spinoff_prover]
pub proof fn attempts_answer_the_client_that_waits(
    lifecycles: &mut RemoteLifecycles,
    host: &RemoteHostKey,
    generation: u64,
    outcome: RemoteSourceLifecycleOutcome,
    effect: Option<LifecycleEffect>,
    i: int,
)
    requires
        0 <= i < old(lifecycles)@.pending.len(),
        old(lifecycles)@.pending[i].generation == generation,
        forall|j: int|
            0 <= j < i ==> (#[trigger] old(lifecycles)@.pending[j]).generation != generation,
        call_ensures(
            RemoteLifecycles::handle_remote_lifecycle_attempt,
            (lifecycles, host, generation, outcome),
            effect,
        ),
    ensures
        ({
            let own = old(lifecycles)@.pending[i];
            let mine = own.host_key.host@ == host.host@ && own.host_key.session@ == host.session@;
            &&& (effect is Some) == mine
            &&& mine ==> final(lifecycles)@.pending == old(lifecycles)@.pending.remove(i)
            &&& !mine ==> final(lifecycles)@.pending == old(lifecycles)@.pending
            &&& mine ==> effect->0@ is Respond && effect->0@->Respond_responder == own.responder && (
            effect->0@->Respond_reply matches LifecycleReplyView::Done {
                id,
                host: on,
                action,
                status,
                changed,
                ..
            } && id == own.request_id && on == own.host_key.host && action == own.action && changed
                && (status is Connected) == (outcome is Connected
                || outcome->Disconnected_0 is Connected))
            &&& final(lifecycles).federation == old(lifecycles).federation
        }),
{
    reports_answer_their_own_client(old(lifecycles)@.pending, *host, generation, i);
}

/// Once a host's connections are closed, the client that waits for it is told that the
/// host is disconnected, and whether that changed anything.
#[verifier::spinoff_prover]
pub proof fn drains_answer_the_client_that_waits(
    lifecycles: &mut RemoteLifecycles,
    host: &RemoteHostKey,
    generation: u64,
    effect: Option<LifecycleEffect>,
    i: int,
)
    requires
        0 <= i < old(lifecycles)@.pending.len(),
        old(lifecycles)@.pending[i].generation == generation,
        old(lifecycles)@.pending[i].host_key@ == host@,
        forall|j: int|
            0 <= j < i ==> (#[trigger] old(lifecycles)@.pending[j]).generation != generation,
        call_ensures(
            RemoteLifecycles::handle_remote_pool_drain_completed,
            (lifecycles, host, generation),
            effect,
        ),
    ensures
        ({
            let own = old(lifecycles)@.pending[i];
            &&& effect is Some
            &&& final(lifecycles)@.pending == old(lifecycles)@.pending.remove(i)
            &&& effect->0@ is Respond && effect->0@->Respond_responder == own.responder
            &&& effect->0@->Respond_reply matches LifecycleReplyView::Done {
                id,
                status,
                changed,
                ..
            } && id == own.request_id && status is Disconnected && (own.disconnect_changed is Some
                ==> changed == own.disconnect_changed->0)
        }),
{
    reports_answer_their_own_client(old(lifecycles)@.pending, *host, generation, i);
}

// Streams ----------------------------------------------------------------

/// Two wishes need the same streams exactly where they are for the same workspace over
/// the same prepared state and, place by place, for the same terminal in the same role.
/// They are the same exactly where the panes have the same sizes too.
pub proof fn wishes_are_told_apart_by_their_streams(
    a: &ProjectionSignature,
    b: &ProjectionSignature,
    same_streams: bool,
    same: bool,
)
    requires
        call_ensures(ProjectionSignature::same_stream_identity, (a, b), same_streams),
        call_ensures(ProjectionSignature::same, (a, b), same),
    ensures
        same_streams == (a.source.host@ == b.source.host@ && a.source.session@ == b.source.session@
            && a.source.workspace_id@ == b.source.workspace_id@ && a.prepared_shell_path@
            == b.prepared_shell_path@ && a.streams@.len() == b.streams@.len() && forall|i: int|
            0 <= i < a.streams@.len() ==> crate::projection_laws::same_purpose(
                #[trigger] a.streams@[i],
                b.streams@[i],
            )),
        same == (same_streams && forall|i: int|
            0 <= i < a.streams@.len() ==> (#[trigger] a.streams@[i]).cols == b.streams@[i].cols
                && a.streams@[i].rows == b.streams@[i].rows),
{
    let s = a.streams@;
    let t = b.streams@;
    if same_streams {
        assert forall|i: int| 0 <= i < s.len() implies crate::projection_laws::same_purpose(
            #[trigger] s[i],
            t[i],
        ) by {
            assert(crate::projection_runtime::same_terminal_and_role(a@.streams[i], b@.streams[i]));
        }
        if same {
            assert forall|i: int| 0 <= i < s.len() implies (#[trigger] s[i]).cols == t[i].cols
                && s[i].rows == t[i].rows by {
                assert(crate::projection_runtime::same_size(a@.streams[i], b@.streams[i]));
            }
        } else {
            let i = choose|i: int|
                0 <= i < a@.streams.len() && !crate::projection_runtime::same_size(
                    #[trigger] a@.streams[i],
                    b@.streams[i],
                );
            assert(!(s[i].cols == t[i].cols && s[i].rows == t[i].rows));
        }
    } else if a@.source@ == b@.source@ && a@.prepared_shell_path@ == b@.prepared_shell_path@
        && s.len() == t.len() {
        let i = choose|i: int|
            0 <= i < a@.streams.len() && !crate::projection_runtime::same_terminal_and_role(
                #[trigger] a@.streams[i],
                b@.streams[i],
            );
        assert(!crate::projection_laws::same_purpose(s[i], t[i]));
    }
}

/// A stream that was opened is its terminal's stream, in the role it was opened for;
/// the streams of other terminals stay.
#[verifier::spinoff_prover]
pub proof fn opened_streams_are_their_terminals(
    runtime: &mut RemoteProjectionRuntime,
    wanted: &DesiredStream,
    serial: u64,
    done: (),
    other: Seq<char>,
)
    requires
        call_ensures(RemoteProjectionRuntime::stream_opened, (runtime, wanted, serial), done),
    ensures
        ({
            let mine = crate::projection_runtime::stream_of(wanted.key.terminal_id@);
            let theirs = crate::projection_runtime::stream_of(other);
            let opened = element_where(final(runtime)@.streams, mine);
            &&& opened is Some && opened->0.serial == serial && opened->0.role == wanted.role
                && !opened->0.writable && !opened->0.done
            &&& other != wanted.key.terminal_id@ ==> element_where(final(runtime)@.streams, theirs)
                == element_where(old(runtime)@.streams, theirs)
            &&& final(runtime)@.signature == old(runtime)@.signature
            &&& final(runtime)@.generation == old(runtime)@.generation
        }),
{
    let mine = crate::projection_runtime::stream_of(wanted.key.terminal_id@);
    let fresh = crate::projection_runtime::fresh_stream(*wanted, serial);
    lemma_put_found(old(runtime)@.streams, mine, fresh);
    if other != wanted.key.terminal_id@ {
        lemma_put_others(
            old(runtime)@.streams,
            mine,
            fresh,
            crate::projection_runtime::stream_of(other),
        );
    }
}

/// Input of which nobody knows whether it arrived is told as needing attention, for its
/// own terminal and generation, and its stream takes no more.
#[verifier::spinoff_prover]
pub proof fn uncertain_input_needs_attention(
    runtime: &mut RemoteProjectionRuntime,
    space: &RemoteSpaceKey,
    serial: u64,
    terminal_id: &String,
    message: &str,
    report: StreamReport,
    h: int,
)
    requires
        0 <= h < old(runtime)@.streams.len(),
        old(runtime)@.streams[h].serial == serial,
        forall|j: int|
            0 <= j < h ==> (#[trigger] old(runtime)@.streams[j]).serial != serial,
        call_ensures(
            RemoteProjectionRuntime::input_failed,
            (runtime, space, serial, terminal_id, message),
            report,
        ),
    ensures
        report.status is NeedsAttention,
        report.generation == old(runtime)@.generation,
        report.key.host == space.host && report.key.session == space.session
            && report.key.workspace_id == space.workspace_id && report.key.terminal_id
            == *terminal_id,
        report.frame is None,
        !final(runtime)@.streams[h].writable,
        final(runtime)@.streams[h].role == old(runtime)@.streams[h].role,
{
    crate::projection_laws::changes_are_noted_of_one_stream(
        old(runtime)@.streams,
        crate::projection_runtime::StreamChange::Writable(false),
        h,
    );
}

/// A stream that is welcome asks for its own terminal, to control it where this attempt
/// is to.
pub proof fn welcome_streams_ask_for_their_terminal(
    attempt: &StreamAttempt,
    desired: &DesiredStream,
    answer: Result<StreamMessage, String>,
    next: Result<StreamRequest, StreamEnd>,
)
    requires
        call_ensures(StreamAttempt::welcomed, (attempt, desired, answer), next),
    ensures
        (next is Ok) == (answer matches Ok(StreamMessage::Welcome { encoding, error })
            && encoding is SemanticFrame && error is None),
        next matches Ok(StreamRequest::ControlTerminal { target, takeover }) ==> target
            == desired.key.terminal_id && !takeover && attempt.actual_role is Control,
        next matches Ok(StreamRequest::ObserveTerminal { target }) ==> target
            == desired.key.terminal_id && attempt.actual_role is Observe,
{
}

// The cache --------------------------------------------------------------

/// A refresh asks for the tabs of its workspace exactly where the host lists tabs;
/// otherwise they are only last known.
#[verifier::spinoff_prover]
pub proof fn refreshes_ask_for_the_workspaces_tabs(
    sources: &mut RemoteSources,
    key: &RemoteHostKey,
    target: &RefreshTarget,
    request: Option<Request>,
)
    requires
        call_ensures(refresh_started, (sources, key, target), request),
    ensures
        (request is Some) == capabilities_of(old(sources)@, key@).tab_list,
        request is Some ==> final(sources)@ == old(sources)@ && request->0.method is TabList
            && request->0.method->TabList_0.workspace_id == Some(target.workspace_id),
        request is None && tabs_for(old(sources)@, space_on(*key, target.workspace_id)) is Some
            ==> tabs_for(
            final(sources)@,
            space_on(*key, target.workspace_id),
        )->0.status is StaleLastKnown,
{
    doubted_tabs_stay_readable(
        old(sources)@,
        *key,
        target.workspace_id,
        target.workspace_id,
    );
}

/// A layout that was exported is the layout of its workspace, of the tab that it was
/// asked for; where none came, none is shown.
#[verifier::spinoff_prover]
pub proof fn exported_layouts_are_shown(
    sources: &mut RemoteSources,
    key: &RemoteHostKey,
    leg: LayoutLeg,
    layout: Option<LayoutDescription>,
    done: (),
)
    requires
        call_ensures(layout_exported, (sources, key, leg, layout), done),
    ensures
        ({
            let shown = projection_for(final(sources)@, space_on(*key, leg.workspace_id));
            &&& shown is Some
            &&& shown->0.layout == layout
            &&& shown->0.tab_id == Some(leg.tab_id)
            &&& shown->0.tab_label == Some(leg.tab_label)
            &&& (shown->0.status is Available) == (layout is Some)
        }),
{
    reported_layouts_read_back(
        old(sources)@,
        *key,
        crate::routed_reduce::fetched_projection(
            leg.workspace_id,
            Some(leg.tab_id),
            Some(leg.tab_label),
            layout,
        ),
        leg.workspace_id,
    );
}

// The session ------------------------------------------------------------

/// An agent that was started beside a pane is told with its command, and a start that
/// failed, or whose place is gone, changes nothing.
#[verifier::spinoff_prover]
pub proof fn failed_starts_change_nothing(
    session: &mut Session,
    target: &SplitTarget,
    command: AgentCommand,
    outcome: Option<Result<LaunchedPane, String>>,
    result: Result<(AgentInfo, Arc<Vec<String>>), AgentStartError>,
)
    requires
        old(session)@.ok(),
        call_ensures(
            Session::agent_pane_started,
            (session, target, command, outcome),
            result,
        ),
    ensures
        outcome is None || outcome->0 is Err || !target.place.within(old(session)@) ==> result is Err
            && final(session)@ == old(session)@,
        outcome is Some && outcome->0 is Err && target.place.within(old(session)@) ==> (
        result->Err_0@ == StartErrorView::SpawnFailed(outcome->0->Err_0@)),
        result is Ok ==> (result->Ok_0).1 == command.argv && (result->Ok_0).0.pane_id
            == outcome->0->Ok_0.pane_id && final(session)@.dirty,
{
}

/// An agent that was started in a workspace of its own is told with its command and is
/// that workspace's one pane; a start that failed changes nothing and is told in its own
/// words.
#[verifier::spinoff_prover]
pub proof fn agents_get_their_own_workspace(
    session: &mut Session,
    command: AgentCommand,
    outcome: Result<LaunchedWorkspace, String>,
    result: Result<(AgentInfo, Arc<Vec<String>>), AgentStartError>,
)
    requires
        old(session)@.ok(),
        call_ensures(Session::agent_workspace_started, (session, command, outcome), result),
    ensures
        outcome is Err ==> final(session)@ == old(session)@ && result is Err && result->Err_0@
            == StartErrorView::SpawnFailed(outcome->Err_0@),
        outcome is Ok ==> final(session)@.workspaces.len() == old(session)@.workspaces.len() + 1
            && final(session)@.workspaces.last().workspace_id == outcome->Ok_0.workspace_id
            && final(session)@.dirty,
        result is Ok ==> (result->Ok_0).1 == command.argv && (result->Ok_0).0.name == Some(
            command.name,
        ) && (result->Ok_0).0.pane_id == outcome->Ok_0.tab.pane_id,
{
    if outcome is Ok {
        let launched = crate::agent_start::with_agent_in(outcome->Ok_0, command.name);
        crate::session_change::added_terminals_are_found(
            crate::session_marks::without_alias(old(session)@, launched.tab.pane_id@),
            launched.tab.terminal,
        );
    }
}

/// A split that failed, or whose place is gone, changes nothing.
pub proof fn failed_splits_change_nothing(
    session: &mut Session,
    target: &SplitTarget,
    outcome: Result<LaunchedPane, String>,
    done: (),
)
    requires
        old(session)@.ok(),
        call_ensures(Session::pane_was_split, (session, target, outcome), done),
    ensures
        outcome is Err || !target.place.within(old(session)@) ==> final(session)@ == old(session)@,
        outcome is Ok && target.place.within(old(session)@) ==> final(session)@.dirty
            && final(session)@.mode == Mode::Terminal,
{
}

/// A view is detached, and told under its label, only where its shell could be started;
/// otherwise everything stays as it was.
#[verifier::spinoff_prover]
pub proof fn views_stay_attached_without_a_shell(
    session: &mut Session,
    target: &RemoteAttachPaneTarget,
    spawned: Result<(), String>,
    result: Result<String, RemoteDetachViewError>,
)
    requires
        old(session)@.ok(),
        call_ensures(Session::detach_remote_attach_view, (session, target, spawned), result),
    ensures
        result is Err ==> final(session)@ == old(session)@,
        spawned is Err ==> result is Err,
        result is Ok ==> final(session)@.dirty && final(session)@.mode == Mode::Terminal,
{
}

/// A detach that could not start its shell is shown as needing attention; one of a view
/// that is gone or was never attached is not shown.
#[verifier::spinoff_prover]
pub proof fn failed_detaches_are_shown(
    session: &mut Session,
    target: &RemoteAttachPaneTarget,
    spawned: Result<(), String>,
    toast: Option<ToastNotification>,
)
    requires
        old(session)@.ok(),
        call_ensures(
            Session::detach_remote_attach_view_or_toast,
            (session, target, spawned),
            toast,
        ),
    ensures
        (toast is None) == (crate::remote_attach::detach_refusal(old(session)@, *target) is Some),
        toast is Some ==> (toast->0.kind is NeedsAttention) == (spawned is Err),
        toast is Some ==> (toast->0.kind is Finished) == (spawned is Ok),
        toast is None || spawned is Err ==> final(session)@.workspaces
            == old(session)@.workspaces && final(session)@.terminals == old(session)@.terminals,
{
}

/// A sequence that its worker finished leaves its connection fit for reuse only where it
/// was answered; one whose worker was lost without a word counts as uncertain, so that
/// its host is recovered, and its slot is freed where it had one.
#[verifier::spinoff_prover]
pub proof fn lost_workers_leave_an_uncertain_outcome(
    pool: &mut RoutedExecutorPool,
    key: &RemoteHostKey,
    descriptor: RoutedSequenceDescriptor,
    end: WorkerEnd,
    was_pooled: bool,
    ended: (PoolAction, Vec<SinkEffect>),
)
    requires
        call_ensures(
            RoutedExecutorPool::sequence_ended,
            (pool, key, descriptor, end, was_pooled),
            ended,
        ),
    ensures
        end is Lost ==> (ended.0 is Release) == was_pooled && (ended.0 is Nothing) == !was_pooled,
        end is Lost ==> effect_views(ended.1@).len() > 0 && effect_views(ended.1@)[0]
            is RecoveryNeeded,
        end matches WorkerEnd::Finished { final_, handed_back } ==> (ended.0 is Park ==> handed_back
            && final_.primary is Answered && !(final_.primary->Answered_kind is Malformed)),
        end matches WorkerEnd::Finished { final_, .. } && final_.primary is Failed
            && !final_.wrote ==> final(pool)@ == old(pool)@,
{
    match end {
        WorkerEnd::Lost => {
            let final_ = choose|final_: SequenceFinal| #[trigger]
                is_lost_final(final_) && is_sequence_end(
                    old(pool)@,
                    final(pool)@,
                    *key,
                    descriptor,
                    final_,
                    false,
                    was_pooled,
                    ended.0,
                    effect_views(ended.1@),
                );
            finished_sequences_have_their_effects(old(pool)@, *key, descriptor, final_);
            connections_are_kept_only_clean(
                is_clean(final_, descriptor.spec.layout_export_capable),
                false,
                was_pooled,
            );
        },
        WorkerEnd::Finished { final_, handed_back } => {
            clean_sequences_were_answered(final_, descriptor.spec.layout_export_capable);
        },
    }
}

} // verus!
