//! The per-host queues of routed changes, and what becomes of each of them.
//!
//! Changes for one host run one after the other, in the order in which they were
//! queued. A queue holds at most [`ROUTED_MUTATION_QUEUE_DEPTH`] waiting
//! sequences. Whoever waits for a sequence is told its outcome exactly once,
//! whichever way it ends.
use vstd::prelude::*;
use crate::remote_helpers::{
    bridge_reply, bridge_reply_view, print_response, printed, rewrite_remote_response_id_value,
    text_response_for,
};
use crate::remote_source::RemoteHostKey;
use crate::routed_plan::{CompletionSink, RoutedApply, RoutedSequenceDescriptor};
use crate::schema::{
    encode_error, ErrorText, LayoutDescription, Reply, ReplyView, ResponseResult, TabInfo,
    WorkspaceInfo,
};
use crate::search::{first_where, lemma_first_found, lemma_first_holds, lemma_first_missing, put};
use crate::text::concat2;

verus! {

/// How many sequences may wait for one host.
pub const ROUTED_MUTATION_QUEUE_DEPTH: usize = 8;

/// How often a waiting sequence tries for a permit, in milliseconds.
pub const ROUTED_PERMIT_POLL_MS: u64 = 25;

/// After how long without a permit starvation is reported, in milliseconds.
pub const ROUTED_PERMIT_STARVATION_MS: u64 = 5000;

/// For how long a sequence waits for a permit, in milliseconds. Nothing was sent
/// by then, so running out of time is no fault of the host.
pub const ROUTED_PERMIT_WAIT_MAX_MS: u64 = 30000;

// Outcomes ---------------------------------------------------------------

/// What an answer to a change turned out to be.
#[derive(Debug, PartialEq, Eq)]
pub enum AnswerKind {
    /// A result.
    Success(ResponseResult),
    /// The host's own refusal.
    Error { message: String },
    /// Neither: no API response at all.
    Malformed,
}

/// How the change itself went.
#[derive(Debug, PartialEq, Eq)]
pub enum PrimaryOutcome {
    /// The connection failed.
    Failed { message: String },
    /// The host answered.
    Answered { text: String, kind: AnswerKind },
}

/// The tab that a refresh found active, and its layout.
#[derive(Debug, PartialEq, Eq)]
pub struct RoutedActiveTabFetch {
    pub tab_id: Option<String>,
    pub tab_label: Option<String>,
    pub layout: Option<LayoutDescription>,
}

/// What a refresh brought back.
#[derive(Debug, PartialEq, Eq)]
pub struct RoutedRefreshData {
    pub workspace_id: String,
    pub tabs: Option<Vec<TabInfo>>,
    pub active_tab: Option<RoutedActiveTabFetch>,
}

/// How the refresh after a change went.
#[derive(Debug, PartialEq, Eq)]
pub enum RefreshLegOutcome {
    NotRun,
    Failed,
    Data(RoutedRefreshData),
}

/// How a sequence ended.
#[derive(Debug, PartialEq, Eq)]
pub struct SequenceFinal {
    pub primary: PrimaryOutcome,
    pub refresh: RefreshLegOutcome,
    /// Whether anything was written to the host.
    pub wrote: bool,
}

/// What a sequence came to, for whoever waits for it.
#[derive(Debug, Clone, Copy, PartialEq, Eq, Structural)]
pub enum TaxonomyChoice {
    /// Nothing reached the host.
    PreWriteFailure,
    /// Done and refreshed.
    Completed,
    /// Answered, without refreshed data.
    PrimaryPreserved,
    /// The host may or may not have done it.
    Indeterminate,
}

/// Whether the host answered with an API response.
pub open spec fn is_authoritative(primary: PrimaryOutcome) -> bool {
    primary matches PrimaryOutcome::Answered { kind, .. } && !(kind is Malformed)
}

/// What a sequence came to. An answer that is no API response says as little
/// about the change as a connection lost after writing.
pub open spec fn taxonomy_of(final_: SequenceFinal) -> TaxonomyChoice {
    match final_.primary {
        PrimaryOutcome::Answered { .. } => if !is_authoritative(final_.primary) {
            TaxonomyChoice::Indeterminate
        } else if final_.refresh is Data {
            TaxonomyChoice::Completed
        } else {
            TaxonomyChoice::PrimaryPreserved
        },
        PrimaryOutcome::Failed { .. } => if final_.wrote {
            TaxonomyChoice::Indeterminate
        } else {
            TaxonomyChoice::PreWriteFailure
        },
    }
}

pub fn taxonomy_choice(final_: &SequenceFinal) -> (choice: TaxonomyChoice)
    ensures
        choice == taxonomy_of(*final_),
{
    match &final_.primary {
        PrimaryOutcome::Answered { kind: AnswerKind::Malformed, .. } => TaxonomyChoice::Indeterminate,
        PrimaryOutcome::Answered { .. } => match final_.refresh {
            RefreshLegOutcome::Data(_) => TaxonomyChoice::Completed,
            _ => TaxonomyChoice::PrimaryPreserved,
        },
        PrimaryOutcome::Failed { .. } => if final_.wrote {
            TaxonomyChoice::Indeterminate
        } else {
            TaxonomyChoice::PreWriteFailure
        },
    }
}

/// Whether a finished sequence leaves its connection fit for reuse: the host
/// gave an API response, be it a refusal, and every refresh step that was tried
/// worked.
pub open spec fn is_clean(final_: SequenceFinal, layout_export_capable: bool) -> bool {
    is_authoritative(final_.primary) && match final_.refresh {
        RefreshLegOutcome::NotRun => true,
        RefreshLegOutcome::Failed => false,
        RefreshLegOutcome::Data(data) => match data.active_tab {
            Some(fetch) => !layout_export_capable || fetch.layout is Some,
            None => true,
        },
    }
}

pub fn sequence_is_clean_success(final_: &SequenceFinal, layout_export_capable: bool) -> (clean:
    bool)
    ensures
        clean == is_clean(*final_, layout_export_capable),
{
    match &final_.primary {
        PrimaryOutcome::Failed { .. } => {
            return false;
        },
        PrimaryOutcome::Answered { kind: AnswerKind::Malformed, .. } => {
            return false;
        },
        _ => {},
    }
    match &final_.refresh {
        RefreshLegOutcome::NotRun => true,
        RefreshLegOutcome::Failed => false,
        RefreshLegOutcome::Data(data) => match &data.active_tab {
            Some(fetch) => !layout_export_capable || fetch.layout.is_some(),
            None => true,
        },
    }
}

/// What is said of a change that failed.
pub open spec fn failure_text(primary: PrimaryOutcome) -> Seq<char> {
    match primary {
        PrimaryOutcome::Failed { message } => message@,
        PrimaryOutcome::Answered { kind: AnswerKind::Success(_), .. } => Seq::empty(),
        PrimaryOutcome::Answered { .. } =>
            "primary response did not parse as a valid remote API response"@,
    }
}

impl SequenceFinal {
    pub fn primary_error_message(&self) -> (message: String)
        ensures
            message@ == failure_text(self.primary),
    {
        match &self.primary {
            PrimaryOutcome::Failed { message } => message.clone(),
            PrimaryOutcome::Answered { kind: AnswerKind::Success(_), .. } => String::new(),
            PrimaryOutcome::Answered { .. } =>
                "primary response did not parse as a valid remote API response".to_owned(),
        }
    }
}

/// What the cache learns of a finished sequence.
#[derive(Debug, Clone, Copy, PartialEq, Eq, Structural)]
pub enum RoutedTaxonomy {
    Completed,
    PrimarySuccessPreserved,
    IndeterminateAfterWrite,
}

/// A finished sequence, for the cache to take up.
#[derive(Debug, PartialEq, Eq)]
pub struct RoutedCompletion {
    pub taxonomy: RoutedTaxonomy,
    /// The result, where the change succeeded.
    pub success: Option<ResponseResult>,
    pub refresh: Option<RoutedRefreshData>,
    /// The workspace whose cached tabs and layout are in doubt.
    pub stale_workspace_id: Option<String>,
    pub apply: RoutedApply,
}

/// What the cache takes up of a finished sequence: nothing, where nothing
/// reached the host.
pub open spec fn completion_of(
    final_: SequenceFinal,
    workspace_id: Option<String>,
    apply: RoutedApply,
) -> Option<RoutedCompletion> {
    let taxonomy = taxonomy_of(final_);
    if taxonomy is PreWriteFailure {
        None
    } else {
        Some(
            RoutedCompletion {
                taxonomy: match taxonomy {
                    TaxonomyChoice::Completed => RoutedTaxonomy::Completed,
                    TaxonomyChoice::Indeterminate => RoutedTaxonomy::IndeterminateAfterWrite,
                    _ => RoutedTaxonomy::PrimarySuccessPreserved,
                },
                success: match final_.primary {
                    PrimaryOutcome::Answered { kind: AnswerKind::Success(result), .. } => Some(
                        result,
                    ),
                    _ => None,
                },
                refresh: if taxonomy is Completed {
                    Some(final_.refresh->Data_0)
                } else {
                    None
                },
                stale_workspace_id: if taxonomy is Indeterminate || (taxonomy is PrimaryPreserved
                    && final_.refresh is Failed) {
                    workspace_id
                } else {
                    None
                },
                apply,
            },
        )
    }
}

pub fn completion_from_parts(
    final_: SequenceFinal,
    workspace_id: Option<String>,
    apply: RoutedApply,
) -> (completion: Option<RoutedCompletion>)
    ensures
        completion == completion_of(final_, workspace_id, apply),
{
    let choice = taxonomy_choice(&final_);
    let doubtful = match choice {
        TaxonomyChoice::Indeterminate => true,
        TaxonomyChoice::PrimaryPreserved => matches!(final_.refresh, RefreshLegOutcome::Failed),
        _ => false,
    };
    let taxonomy = match choice {
        TaxonomyChoice::PreWriteFailure => {
            return None;
        },
        TaxonomyChoice::Completed => RoutedTaxonomy::Completed,
        TaxonomyChoice::Indeterminate => RoutedTaxonomy::IndeterminateAfterWrite,
        TaxonomyChoice::PrimaryPreserved => RoutedTaxonomy::PrimarySuccessPreserved,
    };
    let refresh = match choice {
        TaxonomyChoice::Completed => match final_.refresh {
            RefreshLegOutcome::Data(data) => Some(data),
            _ => None,
        },
        _ => None,
    };
    let success = match final_.primary {
        PrimaryOutcome::Answered { kind: AnswerKind::Success(result), .. } => Some(result),
        _ => None,
    };
    Some(
        RoutedCompletion {
            taxonomy,
            success,
            refresh,
            stale_workspace_id: if doubtful {
                workspace_id
            } else {
                None
            },
            apply,
        },
    )
}

// Effects ----------------------------------------------------------------

/// What is to be done about a sequence that ended.
#[derive(Debug, PartialEq, Eq)]
pub enum SinkEffect {
    /// Send the reply on the channel kept under this number.
    Respond { responder: u64, reply: Reply },
    CreateFailed { host: RemoteHostKey, token: u64, message: String },
    CreateSucceeded { host: RemoteHostKey, token: u64, workspace: WorkspaceInfo },
    /// The host's supervisor of this generation is to be replaced.
    RecoveryNeeded { host: RemoteHostKey, generation: u64 },
    /// The cache is to take this up.
    SequenceCompleted { host: RemoteHostKey, generation: u64, outcome: RoutedCompletion },
}

/// What a [`SinkEffect`] says.
#[verifier::ext_equal]
pub enum EffectView {
    Respond { responder: u64, reply: ReplyView },
    CreateFailed { host: RemoteHostKey, token: u64, message: Seq<char> },
    CreateSucceeded { host: RemoteHostKey, token: u64, workspace: WorkspaceInfo },
    RecoveryNeeded { host: RemoteHostKey, generation: u64 },
    SequenceCompleted { host: RemoteHostKey, generation: u64, outcome: RoutedCompletion },
}

impl View for SinkEffect {
    type V = EffectView;

    open spec fn view(&self) -> EffectView {
        match self {
            SinkEffect::Respond { responder, reply } => EffectView::Respond {
                responder: *responder,
                reply: reply@,
            },
            SinkEffect::CreateFailed { host, token, message } => EffectView::CreateFailed {
                host: *host,
                token: *token,
                message: message@,
            },
            SinkEffect::CreateSucceeded { host, token, workspace } => EffectView::CreateSucceeded {
                host: *host,
                token: *token,
                workspace: *workspace,
            },
            SinkEffect::RecoveryNeeded { host, generation } => EffectView::RecoveryNeeded {
                host: *host,
                generation: *generation,
            },
            SinkEffect::SequenceCompleted { host, generation, outcome } =>
                EffectView::SequenceCompleted {
                host: *host,
                generation: *generation,
                outcome: *outcome,
            },
        }
    }
}

pub open spec fn effect_views(effects: Seq<SinkEffect>) -> Seq<EffectView> {
    effects.map_values(|effect: SinkEffect| effect@)
}

/// How a sink learns of a failure: a client by an error, the interface by a
/// failed creation.
pub open spec fn failure_effect(
    sink: CompletionSink,
    host: RemoteHostKey,
    error: ErrorText,
) -> EffectView {
    match sink {
        CompletionSink::ApiResponder { responder, request_id } => EffectView::Respond {
            responder,
            reply: ReplyView::Error { id: request_id, error },
        },
        CompletionSink::UiCreate { token } => EffectView::CreateFailed {
            host,
            token,
            message: error.message,
        },
    }
}

impl CompletionSink {
    /// Tells the sink of a failure.
    pub fn resolve_error(self, host: &RemoteHostKey, code: &str, message: String) -> (effect:
        SinkEffect)
        ensures
            effect@ == failure_effect(
                self,
                *host,
                ErrorText { code: code@, message: message@ },
            ),
    {
        match self {
            CompletionSink::ApiResponder { responder, request_id } => SinkEffect::Respond {
                responder,
                reply: encode_error(request_id, code, message),
            },
            CompletionSink::UiCreate { token } => SinkEffect::CreateFailed {
                host: host.clone(),
                token,
                message,
            },
        }
    }
}

/// The reply that hands an answer on to the client that sent `request_id`.
pub open spec fn success_reply(request_id: String, answer: Seq<char>) -> ReplyView {
    bridge_reply_view(request_id, printed(text_response_for(answer, request_id@)))
}

/// Hands an answer on to a client: with its own `id`, and otherwise as the host
/// gave it. What cannot be rewritten is a failed request.
pub fn resolve_success(request_id: String, answer: &str) -> (reply: Reply)
    ensures
        reply@ == success_reply(request_id, answer@),
{
    let rewritten = match rewrite_remote_response_id_value(answer, request_id.as_str()) {
        Ok(value) => print_response(&value),
        Err(err) => Err(err),
    };
    bridge_reply(request_id, rewritten)
}

/// What the interface learns of a creation that the host answered.
pub open spec fn create_effect(
    host: RemoteHostKey,
    token: u64,
    primary: PrimaryOutcome,
) -> EffectView {
    match primary {
        PrimaryOutcome::Answered {
            kind: AnswerKind::Success(ResponseResult::WorkspaceCreated { workspace, .. }),
            ..
        } => EffectView::CreateSucceeded { host, token, workspace },
        PrimaryOutcome::Answered { kind: AnswerKind::Error { message }, .. } =>
            EffectView::CreateFailed { host, token, message: message@ },
        PrimaryOutcome::Answered { .. } => EffectView::CreateFailed {
            host,
            token,
            message: "unexpected remote workspace.create response"@,
        },
        PrimaryOutcome::Failed { message } => EffectView::CreateFailed {
            host,
            token,
            message: message@,
        },
    }
}

pub fn resolve_create_events(host: RemoteHostKey, token: u64, primary: PrimaryOutcome) -> (effect:
    SinkEffect)
    ensures
        effect@ == create_effect(host, token, primary),
{
    match primary {
        PrimaryOutcome::Answered {
            kind: AnswerKind::Success(ResponseResult::WorkspaceCreated { workspace, .. }),
            ..
        } => SinkEffect::CreateSucceeded { host, token, workspace },
        PrimaryOutcome::Answered { kind: AnswerKind::Error { message }, .. } =>
            SinkEffect::CreateFailed { host, token, message },
        PrimaryOutcome::Answered { .. } => SinkEffect::CreateFailed {
            host,
            token,
            message: "unexpected remote workspace.create response".to_owned(),
        },
        PrimaryOutcome::Failed { message } => SinkEffect::CreateFailed { host, token, message },
    }
}

/// A sequence that ended before anything was sent.
#[derive(Debug, PartialEq, Eq)]
pub enum TerminalOutcome {
    PreWriteFailure(String),
    PermitWaitExpired,
}

pub open spec fn terminal_error(outcome: TerminalOutcome) -> ErrorText {
    match outcome {
        TerminalOutcome::PreWriteFailure(message) => ErrorText {
            code: "remote_request_failed"@,
            message: message@,
        },
        TerminalOutcome::PermitWaitExpired => ErrorText {
            code: "remote_bridge_busy"@,
            message:
                "remote host mutation queue is saturated (permit wait exceeded); retry shortly"@,
        },
    }
}

/// What follows from a sequence that ended before anything was sent: whoever
/// waits is told, and nothing else happens.
pub open spec fn terminal_effects(
    descriptor: RoutedSequenceDescriptor,
    outcome: TerminalOutcome,
) -> Seq<EffectView> {
    match descriptor.sink {
        None => Seq::empty(),
        Some(sink) => seq![failure_effect(sink, descriptor.host_key, terminal_error(outcome))],
    }
}

pub fn resolve_sink_terminal(descriptor: RoutedSequenceDescriptor, outcome: TerminalOutcome) -> (
    effects: Vec<SinkEffect>)
    ensures
        effect_views(effects@) == terminal_effects(descriptor, outcome),
{
    let mut effects: Vec<SinkEffect> = Vec::new();
    let host = descriptor.host_key;
    if let Some(sink) = descriptor.sink {
        let effect = match outcome {
            TerminalOutcome::PreWriteFailure(message) => sink.resolve_error(
                &host,
                "remote_request_failed",
                message,
            ),
            TerminalOutcome::PermitWaitExpired => sink.resolve_error(
                &host,
                "remote_bridge_busy",
                "remote host mutation queue is saturated (permit wait exceeded); retry shortly".to_owned(),
            ),
        };
        effects.push(effect);
    }
    assert(effect_views(effects@) =~= terminal_effects(descriptor, outcome));
    effects
}

// Queues -----------------------------------------------------------------

/// The sequences that wait for one host.
#[derive(Debug, PartialEq, Eq)]
pub struct HostQueue {
    pub key: RemoteHostKey,
    pub queue: Vec<RoutedSequenceDescriptor>,
    pub worker_alive: bool,
}

/// What a [`HostQueue`] holds.
#[verifier::ext_equal]
pub struct QueueView {
    pub key: RemoteHostKey,
    pub queue: Seq<RoutedSequenceDescriptor>,
    pub worker_alive: bool,
}

impl View for HostQueue {
    type V = QueueView;

    open spec fn view(&self) -> QueueView {
        QueueView { key: self.key, queue: self.queue@, worker_alive: self.worker_alive }
    }
}

pub open spec fn queue_is(key: (Seq<char>, Seq<char>)) -> spec_fn(QueueView) -> bool {
    |queue: QueueView| queue.key@ == key
}

/// The queue of a host, if it ever had one.
pub open spec fn host_queue(queues: Seq<QueueView>, key: (Seq<char>, Seq<char>)) -> Option<
    QueueView,
> {
    match first_where(queues, queue_is(key)) {
        Some(i) => Some(queues[i]),
        None => None,
    }
}

/// The sequences that wait for a host, first in first.
pub open spec fn waiting(queues: Seq<QueueView>, key: (Seq<char>, Seq<char>)) -> Seq<
    RoutedSequenceDescriptor,
> {
    match host_queue(queues, key) {
        Some(queue) => queue.queue,
        None => Seq::empty(),
    }
}

/// Whether a worker drains the host's queue.
pub open spec fn worker_runs(queues: Seq<QueueView>, key: (Seq<char>, Seq<char>)) -> bool {
    match host_queue(queues, key) {
        Some(queue) => queue.worker_alive,
        None => false,
    }
}

/// `queues` after an update that leaves `queue` as its host's queue.
pub open spec fn with_queue(queues: Seq<QueueView>, queue: QueueView) -> Seq<QueueView> {
    put(queues, queue_is(queue.key@), queue)
}

/// Why a sequence was not queued.
#[derive(Debug, Clone, Copy, PartialEq, Eq, Structural)]
pub enum RoutedEnqueueError {
    Busy,
}

/// The queues with one more sequence at the end of its host's queue, which a
/// worker then drains.
pub open spec fn after_enqueue(
    queues: Seq<QueueView>,
    descriptor: RoutedSequenceDescriptor,
) -> Seq<QueueView> {
    let key = descriptor.host_key;
    match host_queue(queues, key@) {
        Some(queue) => with_queue(
            queues,
            QueueView { queue: queue.queue.push(descriptor), worker_alive: true, ..queue },
        ),
        None => queues.push(QueueView { key, queue: seq![descriptor], worker_alive: true }),
    }
}

/// Whether a waiting creation of that token is a sequence.
pub open spec fn awaits_create(token: u64) -> spec_fn(RoutedSequenceDescriptor) -> bool {
    |descriptor: RoutedSequenceDescriptor|
        descriptor.sink == Some(CompletionSink::UiCreate { token })
}

/// Whether a waiting sequence was planned under a supervisor no newer than
/// `generation`.
pub open spec fn planned_by(descriptor: RoutedSequenceDescriptor, generation: u64) -> bool {
    match descriptor.source_generation {
        Some(own) => own <= generation,
        None => true,
    }
}

/// The waiting sequences of newer supervisors, in their order.
pub open spec fn newer_sequences(
    queue: Seq<RoutedSequenceDescriptor>,
    generation: u64,
) -> Seq<RoutedSequenceDescriptor>
    decreases queue.len(),
{
    if queue.len() == 0 {
        queue
    } else if planned_by(queue.last(), generation) {
        newer_sequences(queue.drop_last(), generation)
    } else {
        newer_sequences(queue.drop_last(), generation).push(queue.last())
    }
}

pub open spec fn cancelled_error() -> ErrorText {
    ErrorText {
        code: "remote_request_cancelled"@,
        message:
            "remote host generation changed before this request executed; safe to retry"@,
    }
}

/// What those who wait for cancelled sequences are told, in the order of the
/// queue.
pub open spec fn cancel_effects(
    queue: Seq<RoutedSequenceDescriptor>,
    generation: u64,
    host: RemoteHostKey,
) -> Seq<EffectView>
    decreases queue.len(),
{
    if queue.len() == 0 {
        Seq::empty()
    } else {
        let before = cancel_effects(queue.drop_last(), generation, host);
        let last = queue.last();
        if !planned_by(last, generation) {
            before
        } else {
            match last.sink {
                Some(sink) => before.push(failure_effect(sink, host, cancelled_error())),
                None => before,
            }
        }
    }
}

/// The queues after a recovery of a host: only sequences of newer supervisors
/// still wait for it.
pub open spec fn after_recovery(
    queues: Seq<QueueView>,
    key: (Seq<char>, Seq<char>),
    generation: u64,
) -> Seq<QueueView> {
    match host_queue(queues, key) {
        Some(queue) => with_queue(
            queues,
            QueueView { queue: newer_sequences(queue.queue, generation), ..queue },
        ),
        None => queues,
    }
}

// Resolving --------------------------------------------------------------

pub open spec fn indeterminate_error(primary: PrimaryOutcome) -> ErrorText {
    ErrorText {
        code: "remote_request_indeterminate"@,
        message: "outcome unknown \u{2014} refresh before retrying: "@ + failure_text(primary),
    }
}

/// How a sink learns what its sequence came to.
pub open spec fn sink_effect(
    sink: CompletionSink,
    host: RemoteHostKey,
    final_: SequenceFinal,
) -> EffectView {
    match taxonomy_of(final_) {
        TaxonomyChoice::PreWriteFailure => failure_effect(
            sink,
            host,
            ErrorText { code: "remote_request_failed"@, message: failure_text(final_.primary) },
        ),
        TaxonomyChoice::Indeterminate => failure_effect(
            sink,
            host,
            indeterminate_error(final_.primary),
        ),
        _ => match sink {
            CompletionSink::ApiResponder { responder, request_id } => EffectView::Respond {
                responder,
                reply: success_reply(request_id, final_.primary->text@),
            },
            CompletionSink::UiCreate { token } => create_effect(host, token, final_.primary),
        },
    }
}

pub open spec fn generation_of(descriptor: RoutedSequenceDescriptor) -> u64 {
    match descriptor.source_generation {
        Some(generation) => generation,
        None => 0,
    }
}

pub open spec fn refreshed_workspace(descriptor: RoutedSequenceDescriptor) -> Option<String> {
    match descriptor.spec.refresh {
        Some(refresh) => Some(refresh.workspace_id),
        None => None,
    }
}

/// What an uncertain outcome sets off at once: the host is recovered, and what
/// waits for it is cancelled.
pub open spec fn recovery_effects(
    queues: Seq<QueueView>,
    host: RemoteHostKey,
    descriptor: RoutedSequenceDescriptor,
    final_: SequenceFinal,
) -> Seq<EffectView> {
    if taxonomy_of(final_) is Indeterminate {
        seq![
            EffectView::RecoveryNeeded { host, generation: generation_of(descriptor) },
        ] + cancel_effects(waiting(queues, host@), generation_of(descriptor), host)
    } else {
        Seq::empty()
    }
}

/// What the cache is told of a finished sequence. A creation is taken up through
/// its own event.
pub open spec fn completion_effects(
    descriptor: RoutedSequenceDescriptor,
    final_: SequenceFinal,
) -> Seq<EffectView> {
    match descriptor.sink {
        Some(CompletionSink::ApiResponder { .. }) => match completion_of(
            final_,
            refreshed_workspace(descriptor),
            descriptor.spec.apply,
        ) {
            Some(outcome) => seq![
                EffectView::SequenceCompleted {
                    host: descriptor.host_key,
                    generation: generation_of(descriptor),
                    outcome,
                },
            ],
            None => Seq::empty(),
        },
        _ => Seq::empty(),
    }
}

/// Everything that follows from a finished sequence, in order: recovery, then
/// whoever waits for it, then the cache.
pub open spec fn normal_effects(
    queues: Seq<QueueView>,
    host: RemoteHostKey,
    descriptor: RoutedSequenceDescriptor,
    final_: SequenceFinal,
) -> Seq<EffectView> {
    recovery_effects(queues, host, descriptor, final_) + match descriptor.sink {
        Some(sink) => seq![sink_effect(sink, descriptor.host_key, final_)],
        None => Seq::empty(),
    } + completion_effects(descriptor, final_)
}

/// The queues after a finished sequence.
pub open spec fn after_sequence(
    queues: Seq<QueueView>,
    host: RemoteHostKey,
    descriptor: RoutedSequenceDescriptor,
    final_: SequenceFinal,
) -> Seq<QueueView> {
    if taxonomy_of(final_) is Indeterminate {
        after_recovery(queues, host@, generation_of(descriptor))
    } else {
        queues
    }
}

/// The queues of all hosts.
#[derive(Debug, PartialEq, Eq)]
pub struct RoutedExecutorPool {
    pub hosts: Vec<HostQueue>,
}

impl View for RoutedExecutorPool {
    type V = Seq<QueueView>;

    open spec fn view(&self) -> Seq<QueueView> {
        self.hosts@.map_values(|queue: HostQueue| queue@)
    }
}

impl RoutedExecutorPool {
    pub fn new() -> (pool: Self)
        ensures
            pool@ == Seq::<QueueView>::empty(),
    {
        let pool = RoutedExecutorPool { hosts: Vec::new() };
        assert(pool@ =~= Seq::<QueueView>::empty());
        pool
    }

    fn index_of(&self, key: &RemoteHostKey) -> (found: Option<usize>)
        ensures
            match found {
                Some(i) => i < self.hosts@.len() && first_where(self@, queue_is(key@)) == Some(
                    i as int,
                ),
                None => first_where(self@, queue_is(key@)) is None,
            },
    {
        let mut i: usize = 0;
        while i < self.hosts.len()
            invariant
                i <= self.hosts@.len(),
                forall|j: int| 0 <= j < i ==> !queue_is(key@)(#[trigger] self@[j]),
            decreases self.hosts@.len() - i,
        {
            if self.hosts[i].key.same(key) {
                proof {
                    lemma_first_found(self@, queue_is(key@), i as int);
                }
                return Some(i);
            }
            assert(!queue_is(key@)(self@[i as int]));
            i = i + 1;
        }
        proof {
            lemma_first_missing(self@, queue_is(key@));
        }
        None
    }

    /// Queues a sequence, unless its host's queue is full. The result tells
    /// whether a worker is to be started for the host.
    pub fn enqueue(&mut self, descriptor: RoutedSequenceDescriptor) -> (queued: Result<
        bool,
        RoutedEnqueueError,
    >)
        ensures
            match queued {
                Ok(start_worker) => waiting(old(self)@, descriptor.host_key@).len()
                    < ROUTED_MUTATION_QUEUE_DEPTH && final(self)@ == after_enqueue(
                    old(self)@,
                    descriptor,
                ) && start_worker == !worker_runs(old(self)@, descriptor.host_key@),
                Err(RoutedEnqueueError::Busy) => waiting(old(self)@, descriptor.host_key@).len()
                    >= ROUTED_MUTATION_QUEUE_DEPTH && final(self)@ == old(self)@,
            },
    {
        match self.index_of(&descriptor.host_key) {
            Some(i) => {
                proof {
                    lemma_first_holds(self@, queue_is(descriptor.host_key@));
                }
                if self.hosts[i].queue.len() >= ROUTED_MUTATION_QUEUE_DEPTH {
                    return Err(RoutedEnqueueError::Busy);
                }
                let start_worker = !self.hosts[i].worker_alive;
                self.hosts[i].queue.push(descriptor);
                self.hosts[i].worker_alive = true;
                assert(self@ =~= after_enqueue(old(self)@, descriptor));
                Ok(start_worker)
            },
            None => {
                let key = descriptor.host_key.clone();
                let mut queue: Vec<RoutedSequenceDescriptor> = Vec::new();
                queue.push(descriptor);
                assert(queue@ =~= seq![descriptor]);
                self.hosts.push(HostQueue { key, queue, worker_alive: true });
                assert(self@ =~= after_enqueue(old(self)@, descriptor));
                Ok(true)
            },
        }
    }

    /// Takes the next sequence off a host's queue, for its worker to run. Where
    /// none waits, the worker ends.
    pub fn next_sequence(&mut self, key: &RemoteHostKey) -> (next: Option<RoutedSequenceDescriptor>)
        ensures
            match next {
                Some(descriptor) => waiting(old(self)@, key@).len() > 0 && descriptor == waiting(
                    old(self)@,
                    key@,
                )[0] && final(self)@ == with_queue(
                    old(self)@,
                    QueueView {
                        queue: waiting(old(self)@, key@).drop_first(),
                        ..host_queue(old(self)@, key@)->0
                    },
                ),
                None => waiting(old(self)@, key@).len() == 0 && final(self)@ == match host_queue(
                    old(self)@,
                    key@,
                ) {
                    Some(queue) => with_queue(
                        old(self)@,
                        QueueView { worker_alive: false, ..queue },
                    ),
                    None => old(self)@,
                },
            },
    {
        match self.index_of(key) {
            None => None,
            Some(i) => {
                proof {
                    lemma_first_holds(self@, queue_is(key@));
                }
                let ghost before = self@;
                if self.hosts[i].queue.len() == 0 {
                    self.hosts[i].worker_alive = false;
                    assert(self@ =~= before.update(
                        i as int,
                        QueueView { worker_alive: false, ..before[i as int] },
                    ));
                    return None;
                }
                let descriptor = self.hosts[i].queue.remove(0);
                assert(self@[i as int].queue =~= before[i as int].queue.drop_first());
                assert(self@ =~= before.update(
                    i as int,
                    QueueView {
                        queue: before[i as int].queue.drop_first(),
                        ..before[i as int]
                    },
                ));
                Some(descriptor)
            },
        }
    }

    /// Takes a creation back that still waits. One that already runs cannot be
    /// taken back.
    pub fn cancel_queued_create(&mut self, key: &RemoteHostKey, token: u64) -> (cancelled: Option<
        RoutedSequenceDescriptor,
    >)
        ensures
            match cancelled {
                Some(descriptor) => {
                    let queue = waiting(old(self)@, key@);
                    let place = first_where(queue, awaits_create(token));
                    place is Some && descriptor == queue[place->0] && final(self)@ == with_queue(
                        old(self)@,
                        QueueView {
                            queue: queue.remove(place->0),
                            ..host_queue(old(self)@, key@)->0
                        },
                    )
                },
                None => first_where(waiting(old(self)@, key@), awaits_create(token)) is None
                    && final(self)@ == old(self)@,
            },
    {
        match self.index_of(key) {
            None => {
                proof {
                    lemma_first_missing(waiting(self@, key@), awaits_create(token));
                }
                None
            },
            Some(h) => {
                proof {
                    lemma_first_holds(self@, queue_is(key@));
                }
                let ghost before = self@;
                let ghost queue = waiting(before, key@);
                assert(queue == self.hosts@[h as int].queue@);
                let mut i: usize = 0;
                let mut found: Option<usize> = None;
                while i < self.hosts[h].queue.len() && found.is_none()
                    invariant
                        h < self.hosts@.len(),
                        self@ == before,
                        queue == self.hosts@[h as int].queue@,
                        i <= queue.len(),
                        match found {
                            Some(f) => f < queue.len() && first_where(queue, awaits_create(token))
                                == Some(f as int),
                            None => forall|j: int|
                                0 <= j < i ==> !awaits_create(token)(#[trigger] queue[j]),
                        },
                    decreases queue.len() - i,
                {
                    let matching = match &self.hosts[h].queue[i].sink {
                        Some(CompletionSink::UiCreate { token: pending }) => *pending == token,
                        _ => false,
                    };
                    if matching {
                        proof {
                            lemma_first_found(queue, awaits_create(token), i as int);
                        }
                        found = Some(i);
                    } else {
                        assert(!awaits_create(token)(queue[i as int]));
                    }
                    i = i + 1;
                }
                match found {
                    None => {
                        proof {
                            lemma_first_missing(queue, awaits_create(token));
                        }
                        None
                    },
                    Some(f) => {
                        let descriptor = self.hosts[h].queue.remove(f);
                        assert(self@ =~= before.update(
                            h as int,
                            QueueView { queue: queue.remove(f as int), ..before[h as int] },
                        ));
                        Some(descriptor)
                    },
                }
            },
        }
    }

    /// Takes back everything that still waits for a host. What already runs is
    /// left to end by itself.
    pub fn cancel_all_queued(&mut self, key: &RemoteHostKey) -> (cancelled: Vec<
        RoutedSequenceDescriptor,
    >)
        ensures
            cancelled@ == waiting(old(self)@, key@),
            final(self)@ == match host_queue(old(self)@, key@) {
                Some(queue) => with_queue(
                    old(self)@,
                    QueueView { queue: Seq::empty(), ..queue },
                ),
                None => old(self)@,
            },
    {
        let mut cancelled: Vec<RoutedSequenceDescriptor> = Vec::new();
        match self.index_of(key) {
            None => {},
            Some(i) => {
                proof {
                    lemma_first_holds(self@, queue_is(key@));
                }
                let ghost before = self@;
                std::mem::swap(&mut self.hosts[i].queue, &mut cancelled);
                assert(self@[i as int].queue =~= Seq::empty());
                assert(self@ =~= before.update(
                    i as int,
                    QueueView { queue: Seq::empty(), ..before[i as int] },
                ));
            },
        }
        cancelled
    }

    /// Cancels what waits for a host and was planned under a supervisor no newer
    /// than `generation`, and tells those who wait for it.
    pub fn cancel_queued_for_recovery(&mut self, key: &RemoteHostKey, generation: u64) -> (effects:
        Vec<SinkEffect>)
        ensures
            effect_views(effects@) == cancel_effects(waiting(old(self)@, key@), generation, *key),
            final(self)@ == after_recovery(old(self)@, key@, generation),
    {
        let mut effects: Vec<SinkEffect> = Vec::new();
        match self.index_of(key) {
            None => {
                assert(effect_views(effects@) =~= Seq::empty());
            },
            Some(h) => {
                proof {
                    lemma_first_holds(self@, queue_is(key@));
                }
                let ghost before = self@;
                let ghost queue = before[h as int].queue;
                let mut rest: Vec<RoutedSequenceDescriptor> = Vec::new();
                std::mem::swap(&mut self.hosts[h].queue, &mut rest);
                let mut remaining: Vec<RoutedSequenceDescriptor> = Vec::new();
                let ghost mut done: int = 0;
                assert(rest@ =~= queue.skip(0));
                assert(queue.take(0) =~= Seq::empty());
                assert(effect_views(effects@) =~= Seq::empty());
                while rest.len() > 0
                    invariant
                        0 <= done <= queue.len(),
                        rest@ == queue.skip(done),
                        remaining@ == newer_sequences(queue.take(done), generation),
                        effect_views(effects@) == cancel_effects(
                            queue.take(done),
                            generation,
                            *key,
                        ),
                    decreases rest@.len(),
                {
                    let descriptor = rest.remove(0);
                    proof {
                        let taken = queue.take(done + 1);
                        assert(taken.drop_last() =~= queue.take(done));
                        assert(taken.last() == descriptor);
                        assert(rest@ =~= queue.skip(done + 1));
                        done = done + 1;
                    }
                    let eligible = match descriptor.source_generation {
                        Some(own) => own <= generation,
                        None => true,
                    };
                    let ghost effects_before = effects@;
                    if eligible {
                        if let Some(sink) = descriptor.sink {
                            let effect = sink.resolve_error(
                                key,
                                "remote_request_cancelled",
                                "remote host generation changed before this request executed; safe to retry".to_owned(),
                            );
                            effects.push(effect);
                            assert(effect_views(effects@) =~= effect_views(effects_before).push(
                                effect@,
                            ));
                        }
                    } else {
                        remaining.push(descriptor);
                    }
                }
                assert(queue.take(done) =~= queue);
                self.hosts[h].queue = remaining;
                assert(self@ =~= before.update(
                    h as int,
                    QueueView {
                        queue: newer_sequences(queue, generation),
                        ..before[h as int]
                    },
                ));
            },
        }
        effects
    }

    /// Says everything that follows from a finished sequence. After an uncertain
    /// outcome the host's queue is cleared here, before its worker can take the
    /// next sequence.
    pub fn resolve_normal(
        &mut self,
        key: &RemoteHostKey,
        descriptor: RoutedSequenceDescriptor,
        final_: SequenceFinal,
    ) -> (effects: Vec<SinkEffect>)
        ensures
            effect_views(effects@) == normal_effects(old(self)@, *key, descriptor, final_),
            final(self)@ == after_sequence(old(self)@, *key, descriptor, final_),
    {
        let mut effects: Vec<SinkEffect> = Vec::new();
        let generation: u64 = match descriptor.source_generation {
            Some(generation) => generation,
            None => 0,
        };
        let workspace_id = match &descriptor.spec.refresh {
            Some(refresh) => Some(refresh.workspace_id.clone()),
            None => None,
        };
        let taxonomy = taxonomy_choice(&final_);
        if matches!(taxonomy, TaxonomyChoice::Indeterminate) {
            effects.push(SinkEffect::RecoveryNeeded { host: key.clone(), generation });
            let ghost first = effects@;
            let mut cancelled = self.cancel_queued_for_recovery(key, generation);
            let ghost cancelled_views = effect_views(cancelled@);
            effects.append(&mut cancelled);
            assert(effect_views(effects@) =~= effect_views(first) + cancelled_views);
            assert(effect_views(first) =~= seq![
                EffectView::RecoveryNeeded { host: *key, generation: generation_of(descriptor) },
            ]);
        } else {
            assert(effect_views(effects@) =~= Seq::empty());
        }
        let ghost recovery = effects@;
        assert(effect_views(recovery) == recovery_effects(old(self)@, *key, descriptor, final_));
        let host = descriptor.host_key;
        let sink = match descriptor.sink {
            None => {
                assert(effect_views(effects@) =~= normal_effects(
                    old(self)@,
                    *key,
                    descriptor,
                    final_,
                ));
                return effects;
            },
            Some(sink) => sink,
        };
        match sink {
            CompletionSink::UiCreate { token } => {
                let effect = match taxonomy {
                    TaxonomyChoice::PreWriteFailure => SinkEffect::CreateFailed {
                        host,
                        token,
                        message: final_.primary_error_message(),
                    },
                    TaxonomyChoice::Indeterminate => SinkEffect::CreateFailed {
                        host,
                        token,
                        message: concat2(
                            "outcome unknown \u{2014} refresh before retrying: ",
                            final_.primary_error_message().as_str(),
                        ),
                    },
                    _ => resolve_create_events(host, token, final_.primary),
                };
                effects.push(effect);
                assert(effect_views(effects@) =~= effect_views(recovery).push(effect@));
                assert(effect_views(effects@) =~= normal_effects(
                    old(self)@,
                    *key,
                    descriptor,
                    final_,
                ));
            },
            CompletionSink::ApiResponder { responder, request_id } => {
                let reply = match taxonomy {
                    TaxonomyChoice::PreWriteFailure => encode_error(
                        request_id,
                        "remote_request_failed",
                        final_.primary_error_message(),
                    ),
                    TaxonomyChoice::Indeterminate => encode_error(
                        request_id,
                        "remote_request_indeterminate",
                        concat2(
                            "outcome unknown \u{2014} refresh before retrying: ",
                            final_.primary_error_message().as_str(),
                        ),
                    ),
                    _ => match &final_.primary {
                        PrimaryOutcome::Answered { text, .. } => resolve_success(
                            request_id,
                            text.as_str(),
                        ),
                        PrimaryOutcome::Failed { .. } => encode_error(
                            request_id,
                            "remote_request_failed",
                            final_.primary_error_message(),
                        ),
                    },
                };
                let effect = SinkEffect::Respond { responder, reply };
                effects.push(effect);
                assert(effect@ == sink_effect(sink, descriptor.host_key, final_));
                assert(effect_views(effects@) =~= effect_views(recovery).push(effect@));
                let ghost told = effects@;
                match completion_from_parts(final_, workspace_id, descriptor.spec.apply) {
                    Some(outcome) => {
                        let completed = SinkEffect::SequenceCompleted {
                            host,
                            generation,
                            outcome,
                        };
                        effects.push(completed);
                        assert(effect_views(effects@) =~= effect_views(told).push(completed@));
                    },
                    None => {},
                }
                assert(effect_views(effects@) =~= normal_effects(
                    old(self)@,
                    *key,
                    descriptor,
                    final_,
                ));
            },
        }
        effects
    }
}

} // verus!
