//! Running one routed sequence, step by step, and the two ways in.
//!
//! The steps that touch the outside are done elsewhere: trying for a permit,
//! opening the connection, talking to the host. The functions here say what to do
//! next, given how each of them went.
use vstd::prelude::*;
use crate::remote_source::RemoteHostKey;
use crate::routed_exec::{
    after_enqueue, after_recovery, after_sequence, cancel_effects, effect_views, is_clean,
    newer_sequences, normal_effects, queue_is, resolve_sink_terminal, sequence_is_clean_success, terminal_effects, waiting, worker_runs, EffectView, PrimaryOutcome,
    QueueView, RefreshLegOutcome, RoutedEnqueueError, RoutedExecutorPool, SequenceFinal, SinkEffect,
    TerminalOutcome, ROUTED_MUTATION_QUEUE_DEPTH, ROUTED_PERMIT_POLL_MS, ROUTED_PERMIT_STARVATION_MS,
    ROUTED_PERMIT_WAIT_MAX_MS,
};
use crate::routed_plan::{
    routed_plan, CompletionSink, Federation, RoutedPlanOutcome, RoutedPlanView,
    RoutedSequenceDescriptor,
};
use crate::schema::{encode_error, ErrorText, Reply, Request};
use crate::search::{first_where, lemma_first_holds, lemma_put_found};

verus! {

/// The time limits of a sequence's wait for a permit, in milliseconds.
#[derive(Debug, Clone, Copy, PartialEq, Eq, Structural)]
pub struct RoutedTiming {
    pub permit_poll_ms: u64,
    pub starvation_after_ms: u64,
    pub permit_wait_max_ms: u64,
}

impl RoutedTiming {
    /// The limits in use.
    pub fn production() -> (timing: Self)
        ensures
            timing.permit_poll_ms == ROUTED_PERMIT_POLL_MS,
            timing.starvation_after_ms == ROUTED_PERMIT_STARVATION_MS,
            timing.permit_wait_max_ms == ROUTED_PERMIT_WAIT_MAX_MS,
    {
        RoutedTiming {
            permit_poll_ms: ROUTED_PERMIT_POLL_MS,
            starvation_after_ms: ROUTED_PERMIT_STARVATION_MS,
            permit_wait_max_ms: ROUTED_PERMIT_WAIT_MAX_MS,
        }
    }
}

/// A sequence's wait for a permit.
#[derive(Debug, Clone, Copy, PartialEq, Eq, Structural)]
pub struct PermitWait {
    pub deadline_ms: u64,
    /// Since when every try has failed, counted anew after each warning.
    pub starving_since: Option<u64>,
}

/// What to do after a try for a permit.
#[derive(Debug, Clone, Copy, PartialEq, Eq, Structural)]
pub enum PermitDecision {
    /// The permit is held: open the connection.
    Proceed,
    /// Out of time: the sequence ends, and nothing was sent.
    GiveUp,
    /// Wait and try again, after a warning where the wait has become long.
    Retry { warn: bool },
}

/// What to do after a try for a permit, and the wait that goes on.
pub open spec fn permit_decision(
    wait: PermitWait,
    acquired: bool,
    now_ms: u64,
    timing: RoutedTiming,
) -> (PermitDecision, PermitWait) {
    if acquired {
        (PermitDecision::Proceed, wait)
    } else if now_ms >= wait.deadline_ms {
        (PermitDecision::GiveUp, wait)
    } else {
        let since = match wait.starving_since {
            Some(since) => since,
            None => now_ms,
        };
        if now_ms - since >= timing.starvation_after_ms {
            (
                PermitDecision::Retry { warn: true },
                PermitWait { starving_since: Some(now_ms), ..wait },
            )
        } else {
            (
                PermitDecision::Retry { warn: false },
                PermitWait { starving_since: Some(since), ..wait },
            )
        }
    }
}

impl PermitWait {
    /// Starts waiting.
    pub fn begin(now_ms: u64, timing: RoutedTiming) -> (wait: Self)
        ensures
            wait.deadline_ms == if now_ms + timing.permit_wait_max_ms <= u64::MAX {
                (now_ms + timing.permit_wait_max_ms) as u64
            } else {
                u64::MAX
            },
            wait.starving_since is None,
    {
        PermitWait {
            deadline_ms: now_ms.saturating_add(timing.permit_wait_max_ms),
            starving_since: None,
        }
    }

    /// Goes on after one try.
    pub fn step(&mut self, acquired: bool, now_ms: u64, timing: RoutedTiming) -> (decision:
        PermitDecision)
        ensures
            (decision, *final(self)) == permit_decision(*old(self), acquired, now_ms, timing),
    {
        if acquired {
            return PermitDecision::Proceed;
        }
        if now_ms >= self.deadline_ms {
            return PermitDecision::GiveUp;
        }
        let since: u64 = match self.starving_since {
            Some(since) => since,
            None => now_ms,
        };
        if now_ms >= since && now_ms - since >= timing.starvation_after_ms {
            self.starving_since = Some(now_ms);
            PermitDecision::Retry { warn: true }
        } else {
            self.starving_since = Some(since);
            PermitDecision::Retry { warn: false }
        }
    }
}

/// A wait for a permit is bounded: once its time is up, the next failed try ends
/// it, and until then it goes on under the same limit.
pub proof fn permit_waits_are_bounded(
    wait: PermitWait,
    acquired: bool,
    now_ms: u64,
    timing: RoutedTiming,
)
    ensures
        !acquired && now_ms >= wait.deadline_ms ==> permit_decision(
            wait,
            acquired,
            now_ms,
            timing,
        ).0 is GiveUp,
        permit_decision(wait, acquired, now_ms, timing).0 is Retry ==> now_ms < wait.deadline_ms,
        permit_decision(wait, acquired, now_ms, timing).1.deadline_ms == wait.deadline_ms,
{
}

/// What becomes of the pooled connection of a finished sequence.
#[derive(Debug, Clone, Copy, PartialEq, Eq, Structural)]
pub enum PoolAction {
    /// Back into the pool, fit for reuse.
    Park,
    /// Drop it and free its slot.
    DropAndRelease,
    /// It is gone already: free its slot.
    Release,
    /// The sequence used none.
    Nothing,
}

/// A connection goes back only after a clean sequence; a slot that was taken is
/// freed in every other case.
pub open spec fn disposal(clean: bool, handed_back: bool, was_pooled: bool) -> PoolAction {
    if handed_back {
        if clean {
            PoolAction::Park
        } else {
            PoolAction::DropAndRelease
        }
    } else if was_pooled {
        PoolAction::Release
    } else {
        PoolAction::Nothing
    }
}

/// How the worker of a sequence ended.
#[derive(Debug, PartialEq, Eq)]
pub enum WorkerEnd {
    /// With an outcome, and with its pooled connection if it had one.
    Finished { final_: SequenceFinal, handed_back: bool },
    /// Without a word.
    Lost,
}

/// The outcome of a worker that ended without a word: anything may have been
/// written.
pub open spec fn is_lost_final(final_: SequenceFinal) -> bool {
    &&& final_.primary matches PrimaryOutcome::Failed { message } && message@
        == "routed worker exited without a final message"@
    &&& final_.refresh is NotRun
    &&& final_.wrote
}

pub fn synthetic_indeterminate_final(message: &str) -> (final_: SequenceFinal)
    ensures
        final_.primary matches PrimaryOutcome::Failed { message: own } && own@ == message@,
        final_.refresh is NotRun,
        final_.wrote,
{
    SequenceFinal {
        primary: PrimaryOutcome::Failed { message: message.to_owned() },
        refresh: RefreshLegOutcome::NotRun,
        wrote: true,
    }
}

/// What a sequence's end brings about, with `final_` as its outcome.
pub open spec fn is_sequence_end(
    before: Seq<QueueView>,
    after: Seq<QueueView>,
    key: RemoteHostKey,
    descriptor: RoutedSequenceDescriptor,
    final_: SequenceFinal,
    handed_back: bool,
    was_pooled: bool,
    action: PoolAction,
    effects: Seq<EffectView>,
) -> bool {
    &&& action == disposal(
        is_clean(final_, descriptor.spec.layout_export_capable),
        handed_back,
        was_pooled,
    )
    &&& effects == normal_effects(before, key, descriptor, final_)
    &&& after == after_sequence(before, key, descriptor, final_)
}

/// Every sequence was planned by the newest generation or an older one.
pub proof fn nothing_is_newer_than_the_newest(queue: Seq<RoutedSequenceDescriptor>)
    ensures
        newer_sequences(queue, u64::MAX).len() == 0,
    decreases queue.len(),
{
    if queue.len() > 0 {
        nothing_is_newer_than_the_newest(queue.drop_last());
    }
}

impl RoutedExecutorPool {
    /// Cancels whatever waits for a host that is reconnected: each client is told that
    /// its request can safely be made again.
    pub fn cancel_queued_routed_for_reconnect(&mut self, key: &RemoteHostKey) -> (effects: Vec<
        SinkEffect,
    >)
        ensures
            effect_views(effects@) == cancel_effects(waiting(old(self)@, key@), u64::MAX, *key),
            final(self)@ == after_recovery(old(self)@, key@, u64::MAX),
            waiting(final(self)@, key@).len() == 0,
    {
        let ghost before = self@;
        let effects = self.cancel_queued_for_recovery(key, u64::MAX);
        proof {
            lemma_first_holds(before, queue_is(key@));
            match first_where(before, queue_is(key@)) {
                Some(h) => {
                    let cleared = QueueView {
                        queue: newer_sequences(before[h].queue, u64::MAX),
                        ..before[h]
                    };
                    nothing_is_newer_than_the_newest(before[h].queue);
                    lemma_put_found(before, queue_is(key@), cleared);
                },
                None => {},
            }
        }
        effects
    }

    /// Ends a sequence that never got a permit.
    pub fn sequence_gave_up(descriptor: RoutedSequenceDescriptor) -> (effects: Vec<SinkEffect>)
        ensures
            effect_views(effects@) == terminal_effects(
                descriptor,
                TerminalOutcome::PermitWaitExpired,
            ),
    {
        resolve_sink_terminal(descriptor, TerminalOutcome::PermitWaitExpired)
    }

    /// Ends a sequence whose connection could not be opened.
    pub fn sequence_not_opened(descriptor: RoutedSequenceDescriptor, message: String) -> (effects:
        Vec<SinkEffect>)
        ensures
            effect_views(effects@) == terminal_effects(
                descriptor,
                TerminalOutcome::PreWriteFailure(message),
            ),
    {
        resolve_sink_terminal(descriptor, TerminalOutcome::PreWriteFailure(message))
    }

    /// Ends a sequence that was handed to a worker: says what becomes of its
    /// connection and what follows from its outcome.
    pub fn sequence_ended(
        &mut self,
        key: &RemoteHostKey,
        descriptor: RoutedSequenceDescriptor,
        end: WorkerEnd,
        was_pooled: bool,
    ) -> (ended: (PoolAction, Vec<SinkEffect>))
        ensures
            match end {
                WorkerEnd::Finished { final_, handed_back } => is_sequence_end(
                    old(self)@,
                    final(self)@,
                    *key,
                    descriptor,
                    final_,
                    handed_back,
                    was_pooled,
                    ended.0,
                    effect_views(ended.1@),
                ),
                WorkerEnd::Lost => exists|lost: SequenceFinal| #[trigger]
                    is_lost_final(lost) && is_sequence_end(
                        old(self)@,
                        final(self)@,
                        *key,
                        descriptor,
                        lost,
                        false,
                        was_pooled,
                        ended.0,
                        effect_views(ended.1@),
                    ),
            },
    {
        let (final_, handed_back) = match end {
            WorkerEnd::Finished { final_, handed_back } => (final_, handed_back),
            WorkerEnd::Lost => (
                synthetic_indeterminate_final("routed worker exited without a final message"),
                false,
            ),
        };
        proof {
            if end is Lost {
                assert(is_lost_final(final_));
            }
        }
        let clean = sequence_is_clean_success(&final_, descriptor.spec.layout_export_capable);
        let action = if handed_back {
            if clean {
                PoolAction::Park
            } else {
                PoolAction::DropAndRelease
            }
        } else if was_pooled {
            PoolAction::Release
        } else {
            PoolAction::Nothing
        };
        let effects = self.resolve_normal(key, descriptor, final_);
        (action, effects)
    }
}

// The ways in ------------------------------------------------------------

/// What became of an API request offered to the queues.
#[derive(Debug, PartialEq, Eq)]
pub enum DeferredRoutedOutcome {
    /// Not a change on a remote host: the request is still to be served.
    NotHandled,
    /// Answered at once.
    Answered(Reply),
    /// Queued: the client is answered later. Tells whether a worker is to be
    /// started for the host.
    Queued { host_key: RemoteHostKey, start_worker: bool },
}

pub open spec fn queue_full_error() -> ErrorText {
    ErrorText {
        code: "remote_bridge_busy"@,
        message: "remote host mutation queue is saturated; retry shortly"@,
    }
}

pub open spec fn deferred_notice() -> ErrorText {
    ErrorText {
        code: "remote_request_deferred"@,
        message:
            "routed remote mutation queued; the result arrives through the remote source cache"@,
    }
}

/// A planned sequence for the client behind `responder`.
pub open spec fn for_client(
    descriptor: RoutedSequenceDescriptor,
    responder: u64,
) -> RoutedSequenceDescriptor {
    RoutedSequenceDescriptor {
        sink: Some(
            CompletionSink::ApiResponder { responder, request_id: descriptor.spec.primary.id },
        ),
        ..descriptor
    }
}

impl RoutedExecutorPool {
    /// Plans an API request and queues it. A full queue is reported to the
    /// client at once.
    pub fn handle_deferred_remote_routed_api_request(
        &mut self,
        federation: &Federation,
        request: &Request,
        responder: u64,
    ) -> (outcome: DeferredRoutedOutcome)
        ensures
            match routed_plan(federation@, *request) {
                RoutedPlanView::NotHandled => outcome is NotHandled && final(self)@ == old(self)@,
                RoutedPlanView::Refused(error) => outcome matches DeferredRoutedOutcome::Answered(
                    reply,
                ) && reply.is_error(request.id, error) && final(self)@ == old(self)@,
                RoutedPlanView::Deferred(descriptor) => if waiting(
                    old(self)@,
                    descriptor.host_key@,
                ).len() >= ROUTED_MUTATION_QUEUE_DEPTH {
                    outcome matches DeferredRoutedOutcome::Answered(reply) && reply.is_error(
                        descriptor.spec.primary.id,
                        queue_full_error(),
                    ) && final(self)@ == old(self)@
                } else {
                    outcome == (DeferredRoutedOutcome::Queued {
                        host_key: descriptor.host_key,
                        start_worker: !worker_runs(old(self)@, descriptor.host_key@),
                    }) && final(self)@ == after_enqueue(
                        old(self)@,
                        for_client(descriptor, responder),
                    )
                },
            },
    {
        match federation.plan_remote_routed_mutation(request) {
            RoutedPlanOutcome::NotHandled => DeferredRoutedOutcome::NotHandled,
            RoutedPlanOutcome::Immediate(reply) => DeferredRoutedOutcome::Answered(reply),
            RoutedPlanOutcome::Deferred(planned) => {
                let mut descriptor = *planned;
                let request_id = descriptor.spec.primary.id.clone();
                let host_key = descriptor.host_key.clone();
                descriptor.sink = Some(
                    CompletionSink::ApiResponder { responder, request_id: request_id.clone() },
                );
                match self.enqueue(descriptor) {
                    Ok(start_worker) => DeferredRoutedOutcome::Queued { host_key, start_worker },
                    Err(RoutedEnqueueError::Busy) => DeferredRoutedOutcome::Answered(
                        encode_error(
                            request_id,
                            "remote_bridge_busy",
                            "remote host mutation queue is saturated; retry shortly".to_owned(),
                        ),
                    ),
                }
            },
        }
    }

    /// Plans a request of the interface and queues it; the interface does not
    /// wait, so it is told at once whether the change was queued. The second part
    /// names the host for which a worker is to be started.
    pub fn try_defer_remote_routed_internal(
        &mut self,
        federation: &Federation,
        request: &Request,
        responder: u64,
    ) -> (outcome: Option<(Reply, Option<RemoteHostKey>)>)
        ensures
            match routed_plan(federation@, *request) {
                RoutedPlanView::NotHandled => outcome is None && final(self)@ == old(self)@,
                RoutedPlanView::Refused(error) => outcome matches Some((reply, start))
                    && reply.is_error(request.id, error) && start is None && final(self)@
                    == old(self)@,
                RoutedPlanView::Deferred(descriptor) => if waiting(
                    old(self)@,
                    descriptor.host_key@,
                ).len() >= ROUTED_MUTATION_QUEUE_DEPTH {
                    outcome matches Some((reply, start)) && reply.is_error(
                        request.id,
                        queue_full_error(),
                    ) && start is None && final(self)@ == old(self)@
                } else {
                    outcome matches Some((reply, start)) && reply.is_error(
                        request.id,
                        deferred_notice(),
                    ) && start == (if worker_runs(old(self)@, descriptor.host_key@) {
                        None
                    } else {
                        Some(descriptor.host_key)
                    }) && final(self)@ == after_enqueue(
                        old(self)@,
                        for_client(descriptor, responder),
                    )
                },
            },
    {
        match federation.plan_remote_routed_mutation(request) {
            RoutedPlanOutcome::NotHandled => None,
            RoutedPlanOutcome::Immediate(reply) => Some((reply, None)),
            RoutedPlanOutcome::Deferred(planned) => {
                let mut descriptor = *planned;
                let request_id = descriptor.spec.primary.id.clone();
                let host_key = descriptor.host_key.clone();
                descriptor.sink = Some(CompletionSink::ApiResponder { responder, request_id });
                match self.enqueue(descriptor) {
                    Ok(start_worker) => {
                        let reply = encode_error(
                            request.id.clone(),
                            "remote_request_deferred",
                            "routed remote mutation queued; the result arrives through the remote source cache".to_owned(),
                        );
                        Some(
                            (
                                reply,
                                if start_worker {
                                    Some(host_key)
                                } else {
                                    None
                                },
                            ),
                        )
                    },
                    Err(RoutedEnqueueError::Busy) => {
                        let reply = encode_error(
                            request.id.clone(),
                            "remote_bridge_busy",
                            "remote host mutation queue is saturated; retry shortly".to_owned(),
                        );
                        Some((reply, None))
                    },
                }
            },
        }
    }
}

} // verus!
