//! What holds of routed changes from planning to their end.
use vstd::prelude::*;
use crate::remote_source::{capabilities_of, connected, RemoteHostKey, RemoteSourceCapabilities};
use crate::routed_exec::{
    after_enqueue, after_recovery, after_sequence, cancel_effects, completion_effects,
    failure_effect, generation_of, host_queue, is_clean, newer_sequences, normal_effects,
    planned_by, queue_is, recovery_effects, sink_effect, success_reply, taxonomy_of,
    terminal_effects, waiting, with_queue, worker_runs, EffectView, PrimaryOutcome, QueueView,
    SequenceFinal, TerminalOutcome, ROUTED_MUTATION_QUEUE_DEPTH,
};
use crate::remote_target::{RemoteHostConfig, SelectorView};
use crate::routed_plan::{
    configured_route, pane_plan, routed_plan, routed_target, tab_plan, CompletionSink,
    FederationView, PreferredTabFromPrimary, RoutedSequenceDescriptor,
};
use crate::routed_run::disposal;
use crate::schema::{Method, Request};
use crate::search::{first_where, lemma_first_holds, lemma_put_found, lemma_put_others};
use crate::server::FederationCapabilities;

verus! {

// Planning ---------------------------------------------------------------

/// An unconfirmed close of something on a host is never queued.
pub proof fn unconfirmed_closes_are_never_queued(federation: FederationView, request: Request)
    requires
        match request.method {
            Method::PaneClose(params) => !params.confirm,
            Method::TabClose(params) => !params.confirm,
            _ => false,
        },
    ensures
        !(routed_plan(federation, request) is Deferred),
{
}

/// The method that a host must advertise to be sent a change.
pub open spec fn capability_for(method: Method) -> Seq<char> {
    match method {
        Method::PaneFocus(_) => FederationCapabilities::PANE_FOCUS@,
        Method::PaneFocusDirection(_) => FederationCapabilities::PANE_FOCUS_DIRECTION@,
        Method::PaneRename(_) => FederationCapabilities::PANE_RENAME@,
        Method::PaneSplit(_) => FederationCapabilities::PANE_SPLIT@,
        Method::PaneClose(_) => FederationCapabilities::PANE_CLOSE@,
        Method::TabCreate(_) => FederationCapabilities::TAB_CREATE@,
        Method::TabFocus(_) => FederationCapabilities::TAB_FOCUS@,
        Method::TabClose(_) => FederationCapabilities::TAB_CLOSE@,
        Method::TabRename(_) => FederationCapabilities::TAB_RENAME@,
        Method::WorkspaceRename(_) => FederationCapabilities::WORKSPACE_RENAME@,
        _ => Seq::empty(),
    }
}

/// A planned change goes to a host that is connected and advertises `capability`,
/// under the client's own request identifier, and with nobody told yet.
pub open spec fn is_allowed(
    federation: FederationView,
    request: Request,
    planned: RoutedSequenceDescriptor,
    capability: Seq<char>,
) -> bool {
    &&& planned.host_key == planned.host.spec_key()
    &&& connected(federation.sources, planned.host_key@)
    &&& capabilities_of(federation.sources, planned.host_key@).routes(capability)
    &&& planned.spec.primary.id == request.id
    &&& planned.sink is None
}

proof fn lemma_pane_plan_allowed(
    federation: FederationView,
    request: Request,
    host: RemoteHostConfig,
    selector: SelectorView,
    capability: Seq<char>,
    preferred: PreferredTabFromPrimary,
)
    requires
        pane_plan(federation, request, host, selector, capability, preferred) is Deferred,
    ensures
        is_allowed(
            federation,
            request,
            pane_plan(federation, request, host, selector, capability, preferred)->Deferred_0,
            capability,
        ),
{
}

proof fn lemma_tab_plan_allowed(
    federation: FederationView,
    request: Request,
    host: RemoteHostConfig,
    selector: SelectorView,
    capability: Seq<char>,
    closes: bool,
)
    requires
        tab_plan(federation, request, host, selector, capability, closes) is Deferred,
    ensures
        is_allowed(
            federation,
            request,
            tab_plan(federation, request, host, selector, capability, closes)->Deferred_0,
            capability,
        ),
{
}

/// A change is queued only for a host that is connected and advertises that very
/// method, under the client's own request identifier, and with nobody told yet.
#[verifier::spinoff_prover]
pub proof fn queued_changes_are_allowed(federation: FederationView, request: Request)
    requires
        routed_plan(federation, request) is Deferred,
    ensures
        is_allowed(
            federation,
            request,
            routed_plan(federation, request)->Deferred_0,
            capability_for(request.method),
        ),
{
    let target = routed_target(request.method)->0;
    let route = configured_route(federation.hosts, target@);
    let host = route->host;
    let selector = route->target;
    let capability = capability_for(request.method);
    match request.method {
        Method::PaneSplit(_) => {
            lemma_pane_plan_allowed(
                federation,
                request,
                host,
                selector,
                capability,
                PreferredTabFromPrimary::PaneInfoTab,
            );
        },
        Method::PaneFocus(_) | Method::PaneFocusDirection(_) | Method::PaneRename(_)
        | Method::PaneClose(_) => {
            lemma_pane_plan_allowed(
                federation,
                request,
                host,
                selector,
                capability,
                PreferredTabFromPrimary::Unset,
            );
        },
        Method::TabFocus(_) | Method::TabRename(_) => {
            lemma_tab_plan_allowed(federation, request, host, selector, capability, false);
        },
        Method::TabClose(_) => {
            lemma_tab_plan_allowed(federation, request, host, selector, capability, true);
        },
        _ => {},
    }
}

/// A close that is forwarded is confirmed.
pub proof fn forwarded_closes_are_confirmed(federation: FederationView, request: Request)
    requires
        routed_plan(federation, request) is Deferred,
    ensures
        match routed_plan(federation, request)->Deferred_0.spec.primary.method {
            Method::PaneClose(params) => params.confirm,
            Method::TabClose(params) => params.confirm,
            _ => true,
        },
{
}

/// Each routed method is allowed by its own flag and by no other.
pub proof fn each_method_has_its_own_flag(capabilities: RemoteSourceCapabilities)
    ensures
        capabilities.routes(FederationCapabilities::WORKSPACE_RENAME@)
            == capabilities.workspace_rename,
        capabilities.routes(FederationCapabilities::TAB_CREATE@) == capabilities.tab_create,
        capabilities.routes(FederationCapabilities::TAB_FOCUS@) == capabilities.tab_focus,
        capabilities.routes(FederationCapabilities::TAB_CLOSE@) == capabilities.tab_close,
        capabilities.routes(FederationCapabilities::TAB_RENAME@) == capabilities.tab_rename,
        capabilities.routes(FederationCapabilities::PANE_SPLIT@) == capabilities.pane_split,
        capabilities.routes(FederationCapabilities::PANE_CLOSE@) == capabilities.pane_close,
        capabilities.routes(FederationCapabilities::PANE_RENAME@) == capabilities.pane_rename,
        capabilities.routes(FederationCapabilities::PANE_FOCUS@) == capabilities.pane_focus,
        capabilities.routes(FederationCapabilities::PANE_FOCUS_DIRECTION@)
            == capabilities.pane_focus_direction,
{
    reveal_strlit("workspace_rename");
    reveal_strlit("workspace_create");
    reveal_strlit("tab_create");
    reveal_strlit("tab_focus");
    reveal_strlit("tab_close");
    reveal_strlit("tab_rename");
    reveal_strlit("pane_split");
    reveal_strlit("pane_close");
    reveal_strlit("pane_rename");
    reveal_strlit("pane_focus");
    reveal_strlit("pane_focus_direction");
    assert("workspace_create"@[10] != "workspace_rename"@[10]);
    assert("tab_create"@[4] == 'c' && "tab_create"@[5] == 'r');
    assert("tab_rename"@[4] == 'r');
    assert("tab_focus"@[4] == 'f');
    assert("tab_close"@[4] == 'c' && "tab_close"@[5] == 'l');
    assert("pane_split"@[5] == 's' && "pane_split"@[0] == 'p');
    assert("pane_close"@[5] == 'c' && "pane_close"@[0] == 'p');
    assert("pane_focus"@[5] == 'f' && "pane_focus"@[0] == 'p');
    assert("tab_create"@[0] == 't' && "tab_rename"@[0] == 't');
    assert("pane_focus_direction"@.len() == 20);
    assert("workspace_rename"@.len() == 16 && "workspace_create"@.len() == 16);
    assert("pane_rename"@.len() == 11);
}

// Answering exactly once ---------------------------------------------------

/// Whether two sinks stand for the same waiting client or interface.
pub open spec fn same_waiter(a: CompletionSink, b: CompletionSink) -> bool {
    match (a, b) {
        (
            CompletionSink::ApiResponder { responder: a, .. },
            CompletionSink::ApiResponder { responder: b, .. },
        ) => a == b,
        (CompletionSink::UiCreate { token: a }, CompletionSink::UiCreate { token: b }) => a == b,
        _ => false,
    }
}

/// Whether an effect tells `sink` the outcome of its sequence.
pub open spec fn tells(effect: EffectView, sink: CompletionSink) -> bool {
    match (effect, sink) {
        (
            EffectView::Respond { responder: told, .. },
            CompletionSink::ApiResponder { responder, .. },
        ) => told == responder,
        (
            EffectView::CreateFailed { token: told, .. },
            CompletionSink::UiCreate { token },
        ) => told == token,
        (
            EffectView::CreateSucceeded { token: told, .. },
            CompletionSink::UiCreate { token },
        ) => told == token,
        _ => false,
    }
}

/// How many of the effects tell `sink` an outcome.
pub open spec fn times_told(effects: Seq<EffectView>, sink: CompletionSink) -> nat
    decreases effects.len(),
{
    if effects.len() == 0 {
        0
    } else {
        times_told(effects.drop_last(), sink) + if tells(effects.last(), sink) {
            1nat
        } else {
            0nat
        }
    }
}

proof fn lemma_told_add(a: Seq<EffectView>, b: Seq<EffectView>, sink: CompletionSink)
    ensures
        times_told(a + b, sink) == times_told(a, sink) + times_told(b, sink),
    decreases b.len(),
{
    if b.len() == 0 {
        assert(a + b =~= a);
    } else {
        lemma_told_add(a, b.drop_last(), sink);
        assert((a + b).drop_last() =~= a + b.drop_last());
        assert((a + b).last() == b.last());
    }
}

proof fn lemma_told_one(effect: EffectView, sink: CompletionSink)
    ensures
        times_told(seq![effect], sink) == if tells(effect, sink) {
            1nat
        } else {
            0nat
        },
{
    assert(seq![effect].drop_last() =~= Seq::<EffectView>::empty());
    assert(times_told(Seq::<EffectView>::empty(), sink) == 0);
}

/// How many of the sequences that a recovery cancels wait for `sink`.
pub open spec fn cancelled_for(
    queue: Seq<RoutedSequenceDescriptor>,
    generation: u64,
    sink: CompletionSink,
) -> nat
    decreases queue.len(),
{
    if queue.len() == 0 {
        0
    } else {
        cancelled_for(queue.drop_last(), generation, sink) + if planned_by(
            queue.last(),
            generation,
        ) && queue.last().sink is Some && same_waiter(queue.last().sink->0, sink) {
            1nat
        } else {
            0nat
        }
    }
}

/// A recovery tells every waiter once for each of its sequences that it cancels,
/// and nobody else.
pub proof fn cancelled_waiters_are_told_once_each(
    queue: Seq<RoutedSequenceDescriptor>,
    generation: u64,
    host: RemoteHostKey,
    sink: CompletionSink,
)
    ensures
        times_told(cancel_effects(queue, generation, host), sink) == cancelled_for(
            queue,
            generation,
            sink,
        ),
    decreases queue.len(),
{
    if queue.len() > 0 {
        cancelled_waiters_are_told_once_each(queue.drop_last(), generation, host, sink);
        let before = cancel_effects(queue.drop_last(), generation, host);
        let last = queue.last();
        if planned_by(last, generation) && last.sink is Some {
            let effect = failure_effect(
                last.sink->0,
                host,
                crate::routed_exec::cancelled_error(),
            );
            assert(before.push(effect).drop_last() =~= before);
            assert(tells(effect, sink) == same_waiter(last.sink->0, sink));
        }
    }
}

proof fn lemma_nobody_cancelled(
    queue: Seq<RoutedSequenceDescriptor>,
    generation: u64,
    sink: CompletionSink,
)
    requires
        forall|i: int|
            0 <= i < queue.len() ==> !((#[trigger] queue[i]).sink is Some && same_waiter(
                queue[i].sink->0,
                sink,
            )),
    ensures
        cancelled_for(queue, generation, sink) == 0,
    decreases queue.len(),
{
    if queue.len() > 0 {
        assert(queue.last() == queue[queue.len() - 1]);
        assert forall|i: int| 0 <= i < queue.drop_last().len() implies !((
        #[trigger] queue.drop_last()[i]).sink is Some && same_waiter(
            queue.drop_last()[i].sink->0,
            sink,
        )) by {
            assert(queue.drop_last()[i] == queue[i]);
        }
        lemma_nobody_cancelled(queue.drop_last(), generation, sink);
    }
}

/// Whoever waits for a sequence that ran is told its outcome exactly once,
/// whatever the outcome is.
pub proof fn finished_sequences_are_answered_exactly_once(
    queues: Seq<QueueView>,
    host: RemoteHostKey,
    descriptor: RoutedSequenceDescriptor,
    final_: SequenceFinal,
)
    requires
        descriptor.sink is Some,
        forall|i: int|
            0 <= i < waiting(queues, host@).len() ==> !((#[trigger] waiting(
                queues,
                host@,
            )[i]).sink is Some && same_waiter(
                waiting(queues, host@)[i].sink->0,
                descriptor.sink->0,
            )),
    ensures
        times_told(normal_effects(queues, host, descriptor, final_), descriptor.sink->0) == 1,
{
    let sink = descriptor.sink->0;
    let recovery = recovery_effects(queues, host, descriptor, final_);
    let own = seq![sink_effect(sink, descriptor.host_key, final_)];
    let completion = completion_effects(descriptor, final_);
    let queue = waiting(queues, host@);
    let generation = generation_of(descriptor);
    assert(times_told(recovery, sink) == 0) by {
        if taxonomy_of(final_) is Indeterminate {
            let needed = EffectView::RecoveryNeeded { host, generation };
            lemma_told_one(needed, sink);
            cancelled_waiters_are_told_once_each(queue, generation, host, sink);
            lemma_nobody_cancelled(queue, generation, sink);
            lemma_told_add(seq![needed], cancel_effects(queue, generation, host), sink);
        }
    }
    lemma_told_one(own[0], sink);
    assert(tells(own[0], sink));
    assert(times_told(completion, sink) == 0) by {
        if completion.len() > 0 {
            assert(completion =~= seq![completion[0]]);
            lemma_told_one(completion[0], sink);
        }
    }
    lemma_told_add(recovery, own, sink);
    lemma_told_add(recovery + own, completion, sink);
}

/// Whoever waits for a sequence that ended before anything was sent is told so
/// exactly once, and nothing else happens.
pub proof fn unsent_sequences_are_answered_exactly_once(
    descriptor: RoutedSequenceDescriptor,
    outcome: TerminalOutcome,
)
    requires
        descriptor.sink is Some,
    ensures
        times_told(terminal_effects(descriptor, outcome), descriptor.sink->0) == 1,
        terminal_effects(descriptor, outcome).len() == 1,
{
    let effects = terminal_effects(descriptor, outcome);
    lemma_told_one(effects[0], descriptor.sink->0);
}

// Recovery -----------------------------------------------------------------

/// How many of the effects ask for a recovery.
pub open spec fn recoveries(effects: Seq<EffectView>) -> nat
    decreases effects.len(),
{
    if effects.len() == 0 {
        0
    } else {
        recoveries(effects.drop_last()) + if effects.last() is RecoveryNeeded {
            1nat
        } else {
            0nat
        }
    }
}

proof fn lemma_recoveries_add(a: Seq<EffectView>, b: Seq<EffectView>)
    ensures
        recoveries(a + b) == recoveries(a) + recoveries(b),
    decreases b.len(),
{
    if b.len() == 0 {
        assert(a + b =~= a);
    } else {
        lemma_recoveries_add(a, b.drop_last());
        assert((a + b).drop_last() =~= a + b.drop_last());
        assert((a + b).last() == b.last());
    }
}

proof fn lemma_recoveries_one(effect: EffectView)
    ensures
        recoveries(seq![effect]) == if effect is RecoveryNeeded {
            1nat
        } else {
            0nat
        },
{
    assert(seq![effect].drop_last() =~= Seq::<EffectView>::empty());
    assert(recoveries(Seq::<EffectView>::empty()) == 0);
}

proof fn lemma_cancelling_recovers_nothing(
    queue: Seq<RoutedSequenceDescriptor>,
    generation: u64,
    host: RemoteHostKey,
)
    ensures
        recoveries(cancel_effects(queue, generation, host)) == 0,
    decreases queue.len(),
{
    if queue.len() > 0 {
        lemma_cancelling_recovers_nothing(queue.drop_last(), generation, host);
        let before = cancel_effects(queue.drop_last(), generation, host);
        let last = queue.last();
        if planned_by(last, generation) && last.sink is Some {
            let effect = failure_effect(
                last.sink->0,
                host,
                crate::routed_exec::cancelled_error(),
            );
            assert(before.push(effect).drop_last() =~= before);
        }
    }
}

/// A host is recovered exactly once after an uncertain outcome, and after no
/// other.
pub proof fn only_uncertain_outcomes_recover(
    queues: Seq<QueueView>,
    host: RemoteHostKey,
    descriptor: RoutedSequenceDescriptor,
    final_: SequenceFinal,
)
    ensures
        recoveries(normal_effects(queues, host, descriptor, final_)) == if taxonomy_of(
            final_,
        ) is Indeterminate {
            1nat
        } else {
            0nat
        },
{
    let recovery = recovery_effects(queues, host, descriptor, final_);
    let own = match descriptor.sink {
        Some(sink) => seq![sink_effect(sink, descriptor.host_key, final_)],
        None => Seq::empty(),
    };
    let completion = completion_effects(descriptor, final_);
    let generation = generation_of(descriptor);
    if taxonomy_of(final_) is Indeterminate {
        let needed = EffectView::RecoveryNeeded { host, generation };
        lemma_recoveries_one(needed);
        lemma_cancelling_recovers_nothing(waiting(queues, host@), generation, host);
        lemma_recoveries_add(
            seq![needed],
            cancel_effects(waiting(queues, host@), generation, host),
        );
    }
    if own.len() > 0 {
        lemma_recoveries_one(own[0]);
    }
    if completion.len() > 0 {
        assert(completion =~= seq![completion[0]]);
        lemma_recoveries_one(completion[0]);
    }
    lemma_recoveries_add(recovery, own);
    lemma_recoveries_add(recovery + own, completion);
}

/// A sequence that ended before anything was sent never recovers the host and
/// never touches the cache.
pub proof fn unsent_sequences_leave_the_host_alone(
    descriptor: RoutedSequenceDescriptor,
    outcome: TerminalOutcome,
    i: int,
)
    requires
        0 <= i < terminal_effects(descriptor, outcome).len(),
    ensures
        !(terminal_effects(descriptor, outcome)[i] is RecoveryNeeded),
        !(terminal_effects(descriptor, outcome)[i] is SequenceCompleted),
{
}

/// A connection that failed before the first write changes nothing: no recovery,
/// nothing for the cache, and what waits goes on waiting.
pub proof fn failures_before_writing_are_safe_to_retry(
    queues: Seq<QueueView>,
    host: RemoteHostKey,
    descriptor: RoutedSequenceDescriptor,
    final_: SequenceFinal,
)
    requires
        final_.primary is Failed,
        !final_.wrote,
    ensures
        after_sequence(queues, host, descriptor, final_) == queues,
        completion_effects(descriptor, final_).len() == 0,
        recoveries(normal_effects(queues, host, descriptor, final_)) == 0,
{
    only_uncertain_outcomes_recover(queues, host, descriptor, final_);
}

/// A refusal by the host is handed on to the client, is no reason to recover,
/// and leaves the connection fit for reuse.
pub proof fn refusals_are_handed_on(
    queues: Seq<QueueView>,
    host: RemoteHostKey,
    descriptor: RoutedSequenceDescriptor,
    final_: SequenceFinal,
    layout_export_capable: bool,
)
    requires
        final_.primary matches PrimaryOutcome::Answered { kind, .. } && kind is Error,
        final_.refresh is NotRun,
    ensures
        is_clean(final_, layout_export_capable),
        recoveries(normal_effects(queues, host, descriptor, final_)) == 0,
        after_sequence(queues, host, descriptor, final_) == queues,
        descriptor.sink matches Some(CompletionSink::ApiResponder { responder, request_id })
            ==> normal_effects(queues, host, descriptor, final_)[0] == (EffectView::Respond {
            responder,
            reply: success_reply(request_id, final_.primary->text@),
        }),
{
    only_uncertain_outcomes_recover(queues, host, descriptor, final_);
}

proof fn lemma_newer_are_newer(
    queue: Seq<RoutedSequenceDescriptor>,
    generation: u64,
    i: int,
)
    requires
        0 <= i < newer_sequences(queue, generation).len(),
    ensures
        !planned_by(newer_sequences(queue, generation)[i], generation),
        queue.contains(newer_sequences(queue, generation)[i]),
    decreases queue.len(),
{
    if queue.len() > 0 {
        let before = newer_sequences(queue.drop_last(), generation);
        if i < before.len() {
            lemma_newer_are_newer(queue.drop_last(), generation, i);
            let k = choose|k: int|
                0 <= k < queue.drop_last().len() && queue.drop_last()[k] == before[i];
            assert(queue[k] == before[i]);
        } else {
            assert(queue[queue.len() - 1] == queue.last());
        }
    }
}

/// After an uncertain outcome nothing waits for the host any more that was
/// planned under the same or an older supervisor; what was planned under a newer
/// one still waits.
pub proof fn uncertain_outcomes_clear_the_queue(
    queues: Seq<QueueView>,
    host: RemoteHostKey,
    descriptor: RoutedSequenceDescriptor,
    final_: SequenceFinal,
)
    requires
        taxonomy_of(final_) is Indeterminate,
    ensures
        ({
            let left = waiting(after_sequence(queues, host, descriptor, final_), host@);
            &&& left == newer_sequences(waiting(queues, host@), generation_of(descriptor))
            &&& forall|i: int|
                0 <= i < left.len() ==> !planned_by(#[trigger] left[i], generation_of(descriptor))
        }),
{
    let generation = generation_of(descriptor);
    lemma_first_holds(queues, queue_is(host@));
    match host_queue(queues, host@) {
        Some(queue) => {
            lemma_put_found(
                queues,
                queue_is(queue.key@),
                QueueView { queue: newer_sequences(queue.queue, generation), ..queue },
            );
        },
        None => {},
    }
    let left = waiting(after_sequence(queues, host, descriptor, final_), host@);
    assert(left =~= newer_sequences(waiting(queues, host@), generation));
    assert forall|i: int| 0 <= i < left.len() implies !planned_by(
        #[trigger] left[i],
        generation,
    ) by {
        lemma_newer_are_newer(waiting(queues, host@), generation, i);
    }
}

// Queues -------------------------------------------------------------------

/// What holds of the queues at all times: one queue per host, none too long, and
/// a worker wherever something waits.
pub open spec fn queues_ok(queues: Seq<QueueView>) -> bool {
    &&& forall|i: int, j: int|
        0 <= i < j < queues.len() ==> (#[trigger] queues[i]).key@ != (#[trigger] queues[j]).key@
    &&& forall|i: int|
        0 <= i < queues.len() ==> queue_ok(#[trigger] queues[i])
}

pub open spec fn queue_ok(queue: QueueView) -> bool {
    queue.queue.len() <= ROUTED_MUTATION_QUEUE_DEPTH && (queue.queue.len() > 0
        ==> queue.worker_alive)
}

/// An update that leaves the updated queue in order leaves all of them in order.
pub proof fn updates_keep_queues_ok(queues: Seq<QueueView>, queue: QueueView)
    requires
        queues_ok(queues),
        queue_ok(queue),
    ensures
        queues_ok(with_queue(queues, queue)),
{
    let after = with_queue(queues, queue);
    lemma_first_holds(queues, queue_is(queue.key@));
    let place = match first_where(queues, queue_is(queue.key@)) {
        Some(i) => i,
        None => queues.len() as int,
    };
    assert forall|i: int, j: int| 0 <= i < j < after.len() implies (#[trigger] after[i]).key@ != (
    #[trigger] after[j]).key@ by {
        if i == place {
            assert(after[j] == queues[j]);
            assert(queue_is(queue.key@)(queues[place]));
            assert(queues[i].key@ != queues[j].key@);
        } else if j == place {
            assert(after[i] == queues[i]);
            assert(!queue_is(queue.key@)(queues[i]));
        } else {
            assert(after[i] == queues[i] && after[j] == queues[j]);
        }
    }
    assert forall|i: int| 0 <= i < after.len() implies queue_ok(#[trigger] after[i]) by {
        if i != place {
            assert(after[i] == queues[i]);
        }
    }
}

/// Queueing keeps the queues in order; in particular something that waits always
/// has a worker, so that it will run.
pub proof fn queueing_keeps_queues_ok(
    queues: Seq<QueueView>,
    descriptor: RoutedSequenceDescriptor,
)
    requires
        queues_ok(queues),
        waiting(queues, descriptor.host_key@).len() < ROUTED_MUTATION_QUEUE_DEPTH,
    ensures
        queues_ok(after_enqueue(queues, descriptor)),
{
    let key = descriptor.host_key;
    lemma_first_holds(queues, queue_is(key@));
    match host_queue(queues, key@) {
        Some(queue) => {
            updates_keep_queues_ok(
                queues,
                QueueView { queue: queue.queue.push(descriptor), worker_alive: true, ..queue },
            );
        },
        None => {
            let queue = QueueView { key, queue: seq![descriptor], worker_alive: true };
            updates_keep_queues_ok(queues, queue);
        },
    }
}

/// Taking the next sequence, or ending the worker where none waits, keeps the
/// queues in order.
pub proof fn draining_keeps_queues_ok(queues: Seq<QueueView>, key: (Seq<char>, Seq<char>))
    requires
        queues_ok(queues),
        host_queue(queues, key) is Some,
    ensures
        ({
            let queue = host_queue(queues, key)->0;
            if queue.queue.len() > 0 {
                queues_ok(with_queue(queues, QueueView { queue: queue.queue.drop_first(), ..queue }))
            } else {
                queues_ok(with_queue(queues, QueueView { worker_alive: false, ..queue }))
            }
        }),
{
    lemma_first_holds(queues, queue_is(key));
    let queue = host_queue(queues, key)->0;
    if queue.queue.len() > 0 {
        updates_keep_queues_ok(queues, QueueView { queue: queue.queue.drop_first(), ..queue });
    } else {
        updates_keep_queues_ok(queues, QueueView { worker_alive: false, ..queue });
    }
}

proof fn lemma_newer_are_fewer(queue: Seq<RoutedSequenceDescriptor>, generation: u64)
    ensures
        newer_sequences(queue, generation).len() <= queue.len(),
    decreases queue.len(),
{
    if queue.len() > 0 {
        lemma_newer_are_fewer(queue.drop_last(), generation);
    }
}

/// A recovery keeps the queues in order.
pub proof fn recovering_keeps_queues_ok(
    queues: Seq<QueueView>,
    key: (Seq<char>, Seq<char>),
    generation: u64,
)
    requires
        queues_ok(queues),
    ensures
        queues_ok(after_recovery(queues, key, generation)),
{
    lemma_first_holds(queues, queue_is(key));
    match host_queue(queues, key) {
        Some(queue) => {
            lemma_newer_are_fewer(queue.queue, generation);
            updates_keep_queues_ok(
                queues,
                QueueView { queue: newer_sequences(queue.queue, generation), ..queue },
            );
        },
        None => {},
    }
}

/// Sequences of one host wait in the order in which they were queued: a new one
/// comes last, and what waits for other hosts is not touched.
pub proof fn queues_are_first_in_first_out(
    queues: Seq<QueueView>,
    descriptor: RoutedSequenceDescriptor,
    other: (Seq<char>, Seq<char>),
)
    ensures
        waiting(after_enqueue(queues, descriptor), descriptor.host_key@) == waiting(
            queues,
            descriptor.host_key@,
        ).push(descriptor),
        worker_runs(after_enqueue(queues, descriptor), descriptor.host_key@),
        other != descriptor.host_key@ ==> waiting(after_enqueue(queues, descriptor), other)
            == waiting(queues, other),
{
    let key = descriptor.host_key;
    lemma_first_holds(queues, queue_is(key@));
    let queue = match host_queue(queues, key@) {
        Some(queue) => QueueView {
            queue: queue.queue.push(descriptor),
            worker_alive: true,
            ..queue
        },
        None => QueueView { key, queue: seq![descriptor], worker_alive: true },
    };
    assert(after_enqueue(queues, descriptor) == with_queue(queues, queue));
    lemma_put_found(queues, queue_is(key@), queue);
    assert(seq![descriptor] =~= Seq::empty().push(descriptor));
    if other != key@ {
        lemma_put_others(queues, queue_is(key@), queue, queue_is(other));
    }
}

// Connections ----------------------------------------------------------------

/// A pooled connection is parked only after a clean sequence, and a slot that was
/// taken is always either parked with it or freed.
pub proof fn pool_slots_are_never_lost(clean: bool, handed_back: bool, was_pooled: bool)
    ensures
        disposal(clean, handed_back, was_pooled) is Park ==> clean && handed_back,
        handed_back || was_pooled ==> !(disposal(clean, handed_back, was_pooled) is Nothing),
        !handed_back && !was_pooled ==> disposal(clean, handed_back, was_pooled) is Nothing,
{
}

} // verus!
