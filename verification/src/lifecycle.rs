//! Connecting, reconnecting and disconnecting hosts on request.
//!
//! These actions change only what the local server keeps: its supervisors, its
//! cache and who waits for an outcome. Nothing here touches a remote program. A
//! client that asked for an action is answered exactly once: at once, when the
//! action's own generation reports, or when a newer action takes its place.
use vstd::prelude::*;
use std::sync::Arc;
use crate::remote_source::{
    after_status, connected, host_or_fresh, status_of, with_host, HostView, RemoteApiBridgeState,
    RemoteConnectionStatus, RemoteHostKey,
};
use crate::remote_target::{configured, RemoteHostConfig};
use crate::remotes::{
    RemoteLifecycleAction, RemoteLifecycleHostParams, RemoteLifecycleResult,
    RemoteLifecycleResultStatus,
};
use crate::routed_exec::RoutedCompletion;
use crate::routed_plan::{
    supervises, Federation, FederationView, RemoteSourceSupervisorHandle,
};
use crate::routed_reduce::{apply_routed_completion, after_completion, ReconciledHost};
use crate::schema::{encode_error, ErrorText, Method, Reply, Request, ResponseResult};
use crate::search::{first_where, lemma_first_found, lemma_first_missing};
use crate::text::{concat2, concat4};

verus! {

/// How the first attempt of a fresh supervisor went.
#[derive(Debug, Clone, Copy, PartialEq, Eq, Structural)]
pub enum RemoteSourceLifecycleOutcome {
    Connected,
    Disconnected(RemoteConnectionStatus),
}

/// A client that waits for the outcome of a lifecycle action.
#[derive(Debug, PartialEq, Eq)]
pub struct PendingRemoteLifecycleResponder {
    /// The generation whose report answers the client.
    pub generation: u64,
    pub request_id: String,
    pub host_key: RemoteHostKey,
    pub action: RemoteLifecycleAction,
    /// The number under which the client's reply channel is kept.
    pub responder: u64,
    /// Whether a disconnect changed anything, known when it was asked for.
    pub disconnect_changed: Option<bool>,
}

/// What is to be done outside for a lifecycle action.
#[allow(inconsistent_fields)]
#[derive(Debug, PartialEq, Eq)]
pub enum LifecycleEffect {
    /// Send the reply on the channel kept under this number.
    Respond { responder: u64, reply: Reply },
    /// Start a supervisor that reports under this generation.
    StartSupervisor { host: RemoteHostConfig, generation: u64 },
    /// Take back the changes that still wait for the host.
    CancelQueued { host: RemoteHostKey },
    /// Close the host's parked connections, and report under this generation.
    DrainPool { host: RemoteHostKey, generation: u64 },
}

/// What a lifecycle reply holds.
pub enum LifecycleReplyView {
    Refused { id: String, error: ErrorText },
    Done {
        id: String,
        host: String,
        session: String,
        action: RemoteLifecycleAction,
        status: RemoteLifecycleResultStatus,
        changed: bool,
        remote_authoritative: bool,
        detail: Option<Seq<char>>,
    },
    /// No reply of a lifecycle action.
    Other(Reply),
}

pub open spec fn lifecycle_reply(reply: Reply) -> LifecycleReplyView {
    match reply {
        Reply::Error { id, error } => LifecycleReplyView::Refused { id, error: error@ },
        Reply::Success { id, result: ResponseResult::RemoteLifecycle { result } } =>
            LifecycleReplyView::Done {
            id,
            host: result.host,
            session: result.session,
            action: result.action,
            status: result.status,
            changed: result.changed,
            remote_authoritative: result.remote_authoritative,
            detail: match result.detail {
                Some(detail) => Some(detail@),
                None => None,
            },
        },
        other => LifecycleReplyView::Other(other),
    }
}

/// What a [`LifecycleEffect`] holds.
#[allow(inconsistent_fields)]
pub enum LifecycleEffectView {
    Respond { responder: u64, reply: LifecycleReplyView },
    StartSupervisor { host: RemoteHostConfig, generation: u64 },
    CancelQueued { host: RemoteHostKey },
    DrainPool { host: RemoteHostKey, generation: u64 },
}

impl View for LifecycleEffect {
    type V = LifecycleEffectView;

    open spec fn view(&self) -> LifecycleEffectView {
        match self {
            LifecycleEffect::Respond { responder, reply } => LifecycleEffectView::Respond {
                responder: *responder,
                reply: lifecycle_reply(*reply),
            },
            LifecycleEffect::StartSupervisor { host, generation } =>
                LifecycleEffectView::StartSupervisor { host: *host, generation: *generation },
            LifecycleEffect::CancelQueued { host } => LifecycleEffectView::CancelQueued {
                host: *host,
            },
            LifecycleEffect::DrainPool { host, generation } => LifecycleEffectView::DrainPool {
                host: *host,
                generation: *generation,
            },
        }
    }
}

pub open spec fn lifecycle_effects(effects: Seq<LifecycleEffect>) -> Seq<LifecycleEffectView> {
    effects.map_values(|effect: LifecycleEffect| effect@)
}

// Replies ----------------------------------------------------------------

/// The result status that a cached status stands for.
pub open spec fn result_status(status: RemoteConnectionStatus) -> RemoteLifecycleResultStatus {
    match status {
        RemoteConnectionStatus::Connected => RemoteLifecycleResultStatus::Connected,
        RemoteConnectionStatus::Disconnected => RemoteLifecycleResultStatus::Disconnected,
        RemoteConnectionStatus::NeedsUpdate => RemoteLifecycleResultStatus::NeedsUpdate,
        RemoteConnectionStatus::Unreachable => RemoteLifecycleResultStatus::Unreachable,
    }
}

pub fn lifecycle_result_status(status: RemoteConnectionStatus) -> (result:
    RemoteLifecycleResultStatus)
    ensures
        result == result_status(status),
{
    match status {
        RemoteConnectionStatus::Connected => RemoteLifecycleResultStatus::Connected,
        RemoteConnectionStatus::Disconnected => RemoteLifecycleResultStatus::Disconnected,
        RemoteConnectionStatus::NeedsUpdate => RemoteLifecycleResultStatus::NeedsUpdate,
        RemoteConnectionStatus::Unreachable => RemoteLifecycleResultStatus::Unreachable,
    }
}

/// What to do about a result that is no success.
pub open spec fn detail_text(status: RemoteLifecycleResultStatus) -> Option<Seq<char>> {
    match status {
        RemoteLifecycleResultStatus::Connected => None,
        RemoteLifecycleResultStatus::Disconnected => Some(
            "could not establish a connection yet; the local supervisor keeps retrying"@,
        ),
        RemoteLifecycleResultStatus::Unreachable => Some(
            "could not reach the remote host (SSH/transport); the local supervisor keeps retrying"@,
        ),
        RemoteLifecycleResultStatus::NeedsUpdate => Some(
            "remote Herdr is missing or incompatible; run `herdr remote setup <HOST>` to install/update (no install ran here)"@,
        ),
        RemoteLifecycleResultStatus::Unhealthy => None,
    }
}

pub fn lifecycle_detail(status: RemoteLifecycleResultStatus) -> (detail: Option<String>)
    ensures
        match detail {
            Some(detail) => detail_text(status) == Some(detail@),
            None => detail_text(status) is None,
        },
{
    match status {
        RemoteLifecycleResultStatus::Connected => None,
        RemoteLifecycleResultStatus::Disconnected => Some(
            "could not establish a connection yet; the local supervisor keeps retrying".to_owned(),
        ),
        RemoteLifecycleResultStatus::Unreachable => Some(
            "could not reach the remote host (SSH/transport); the local supervisor keeps retrying".to_owned(),
        ),
        RemoteLifecycleResultStatus::NeedsUpdate => Some(
            "remote Herdr is missing or incompatible; run `herdr remote setup <HOST>` to install/update (no install ran here)".to_owned(),
        ),
        RemoteLifecycleResultStatus::Unhealthy => None,
    }
}

/// The reply to an action that ended with `status`.
pub open spec fn done_reply(
    id: String,
    key: RemoteHostKey,
    action: RemoteLifecycleAction,
    status: RemoteLifecycleResultStatus,
    changed: bool,
) -> LifecycleReplyView {
    LifecycleReplyView::Done {
        id,
        host: key.host,
        session: key.session,
        action,
        status,
        changed,
        remote_authoritative: true,
        detail: detail_text(status),
    }
}

pub fn build_lifecycle_success_response_from_planned(
    request_id: String,
    host_key: &RemoteHostKey,
    action: RemoteLifecycleAction,
    status: RemoteLifecycleResultStatus,
    changed: bool,
) -> (reply: Reply)
    ensures
        lifecycle_reply(reply) == done_reply(request_id, *host_key, action, status, changed),
{
    Reply::Success {
        id: request_id,
        result: ResponseResult::RemoteLifecycle {
            result: RemoteLifecycleResult {
                host: host_key.host.clone(),
                session: host_key.session.clone(),
                action,
                status,
                changed,
                remote_authoritative: true,
                detail: lifecycle_detail(status),
            },
        },
    }
}

pub fn build_lifecycle_success_response(
    pending: &PendingRemoteLifecycleResponder,
    status: RemoteLifecycleResultStatus,
    changed: bool,
) -> (reply: Reply)
    ensures
        lifecycle_reply(reply) == done_reply(
            pending.request_id,
            pending.host_key,
            pending.action,
            status,
            changed,
        ),
{
    build_lifecycle_success_response_from_planned(
        pending.request_id.clone(),
        &pending.host_key,
        pending.action,
        status,
        changed,
    )
}

/// The reply to an action whose place a newer one took.
pub open spec fn superseded_reply(pending: PendingRemoteLifecycleResponder) -> LifecycleReplyView {
    LifecycleReplyView::Refused {
        id: pending.request_id,
        error: ErrorText {
            code: "remote_lifecycle_superseded"@,
            message: pending.action.word() + " for "@ + pending.host_key.host@
                + " superseded by a newer lifecycle action or config reload"@,
        },
    }
}

pub fn build_lifecycle_superseded_error(pending: &PendingRemoteLifecycleResponder) -> (reply: Reply)
    ensures
        lifecycle_reply(reply) == superseded_reply(*pending),
{
    encode_error(
        pending.request_id.clone(),
        "remote_lifecycle_superseded",
        concat4(
            pending.action.label(),
            " for ",
            pending.host_key.host.as_str(),
            " superseded by a newer lifecycle action or config reload",
        ),
    )
}

// State ------------------------------------------------------------------

/// The supervisors and the cache, and who waits for a lifecycle action.
#[derive(Debug, PartialEq, Eq)]
pub struct RemoteLifecycles {
    pub federation: Federation,
    pub pending: Vec<PendingRemoteLifecycleResponder>,
}

/// What [`RemoteLifecycles`] holds.
#[verifier::ext_equal]
pub struct LifecycleView {
    pub federation: FederationView,
    pub pending: Seq<PendingRemoteLifecycleResponder>,
}

impl View for RemoteLifecycles {
    type V = LifecycleView;

    open spec fn view(&self) -> LifecycleView {
        LifecycleView { federation: self.federation@, pending: self.pending@ }
    }
}

/// Whether a host is supervised.
pub open spec fn supervised(
    supervisors: Seq<RemoteSourceSupervisorHandle>,
    key: (Seq<char>, Seq<char>),
) -> bool {
    first_where(supervisors, supervises(key)) is Some
}

/// Whether the host's supervisor of that generation is still there.
pub open spec fn generation_active(
    supervisors: Seq<RemoteSourceSupervisorHandle>,
    key: (Seq<char>, Seq<char>),
    generation: u64,
) -> bool {
    exists|i: int|
        0 <= i < supervisors.len() && (#[trigger] supervisors[i]).host_key@ == key
            && supervisors[i].generation == generation
}

/// The supervisors of the other hosts, in their order.
pub open spec fn other_supervisors(
    supervisors: Seq<RemoteSourceSupervisorHandle>,
    key: (Seq<char>, Seq<char>),
) -> Seq<RemoteSourceSupervisorHandle>
    decreases supervisors.len(),
{
    if supervisors.len() == 0 {
        supervisors
    } else if supervisors.last().host_key@ == key {
        other_supervisors(supervisors.drop_last(), key)
    } else {
        other_supervisors(supervisors.drop_last(), key).push(supervisors.last())
    }
}

/// Those who wait for another host, in their order.
pub open spec fn other_pending(
    pending: Seq<PendingRemoteLifecycleResponder>,
    key: (Seq<char>, Seq<char>),
) -> Seq<PendingRemoteLifecycleResponder>
    decreases pending.len(),
{
    if pending.len() == 0 {
        pending
    } else if pending.last().host_key@ == key {
        other_pending(pending.drop_last(), key)
    } else {
        other_pending(pending.drop_last(), key).push(pending.last())
    }
}

/// The answers to those who wait for this host.
pub open spec fn superseded_effects(
    pending: Seq<PendingRemoteLifecycleResponder>,
    key: (Seq<char>, Seq<char>),
) -> Seq<LifecycleEffectView>
    decreases pending.len(),
{
    if pending.len() == 0 {
        Seq::empty()
    } else if pending.last().host_key@ == key {
        superseded_effects(pending.drop_last(), key).push(
            LifecycleEffectView::Respond {
                responder: pending.last().responder,
                reply: superseded_reply(pending.last()),
            },
        )
    } else {
        superseded_effects(pending.drop_last(), key)
    }
}

/// The answers to everyone who waits.
pub open spec fn all_superseded_effects(pending: Seq<PendingRemoteLifecycleResponder>) -> Seq<
    LifecycleEffectView,
> {
    pending.map_values(
        |own: PendingRemoteLifecycleResponder|
            LifecycleEffectView::Respond {
                responder: own.responder,
                reply: superseded_reply(own),
            },
    )
}

pub open spec fn waits_for(generation: u64) -> spec_fn(PendingRemoteLifecycleResponder) -> bool {
    |pending: PendingRemoteLifecycleResponder| pending.generation == generation
}

/// Which host a lifecycle action is for.
pub open spec fn lifecycle_host(
    hosts: Seq<RemoteHostConfig>,
    alias: Seq<char>,
    action: RemoteLifecycleAction,
) -> Result<RemoteHostConfig, ErrorText> {
    if alias.len() == 0 {
        Err(
            ErrorText {
                code: "invalid_params"@,
                message: action.method() + " requires a host alias"@,
            },
        )
    } else {
        match configured(hosts, alias) {
            Some(host) => Ok(host),
            None => Err(
                ErrorText { code: "unknown_host"@, message: "unknown remote host: "@ + alias },
            ),
        }
    }
}

/// One action, as its client asked for it.
pub struct LifecycleAsk {
    pub id: String,
    pub alias: Seq<char>,
    pub responder: u64,
}

/// The state and the effects after a fresh supervisor was started for `host`.
pub open spec fn fresh_supervisor(
    state: LifecycleView,
    ask: LifecycleAsk,
    host: RemoteHostConfig,
    action: RemoteLifecycleAction,
    generation: u64,
    sources: Seq<HostView>,
    cancel: Seq<LifecycleEffectView>,
) -> (LifecycleView, Seq<LifecycleEffectView>) {
    let key = host.spec_key();
    (
        LifecycleView {
            federation: FederationView {
                sources,
                supervisors: other_supervisors(state.federation.supervisors, key@).push(
                    RemoteSourceSupervisorHandle { host_key: key, generation },
                ),
                ..state.federation
            },
            pending: other_pending(state.pending, key@).push(
                PendingRemoteLifecycleResponder {
                    generation,
                    request_id: ask.id,
                    host_key: key,
                    action,
                    responder: ask.responder,
                    disconnect_changed: None,
                },
            ),
        },
        (superseded_effects(state.pending, key@) + cancel).push(
            LifecycleEffectView::StartSupervisor { host, generation },
        ),
    )
}

pub open spec fn refusal(ask: LifecycleAsk, error: ErrorText) -> LifecycleEffectView {
    LifecycleEffectView::Respond {
        responder: ask.responder,
        reply: LifecycleReplyView::Refused { id: ask.id, error },
    }
}

/// What a connect does. A host that is supervised and connected is left alone;
/// otherwise one fresh supervisor takes the place of whatever was there.
pub open spec fn connected_on_request(state: LifecycleView, ask: LifecycleAsk, generation: u64) -> (
    LifecycleView,
    Seq<LifecycleEffectView>,
) {
    match lifecycle_host(state.federation.hosts, ask.alias, RemoteLifecycleAction::Connect) {
        Err(error) => (state, seq![refusal(ask, error)]),
        Ok(host) => {
            let key = host.spec_key();
            if supervised(state.federation.supervisors, key@) && connected(
                state.federation.sources,
                key@,
            ) {
                (
                    state,
                    seq![
                        LifecycleEffectView::Respond {
                            responder: ask.responder,
                            reply: done_reply(
                                ask.id,
                                key,
                                RemoteLifecycleAction::Connect,
                                RemoteLifecycleResultStatus::Connected,
                                false,
                            ),
                        },
                    ],
                )
            } else {
                fresh_supervisor(
                    state,
                    ask,
                    host,
                    RemoteLifecycleAction::Connect,
                    generation,
                    state.federation.sources,
                    Seq::empty(),
                )
            }
        },
    }
}

/// What a reconnect does: always one fresh supervisor, with the cache marked
/// disconnected until that one reports.
pub open spec fn reconnected_on_request(
    state: LifecycleView,
    ask: LifecycleAsk,
    generation: u64,
) -> (LifecycleView, Seq<LifecycleEffectView>) {
    match lifecycle_host(state.federation.hosts, ask.alias, RemoteLifecycleAction::Reconnect) {
        Err(error) => (state, seq![refusal(ask, error)]),
        Ok(host) => fresh_supervisor(
            state,
            ask,
            host,
            RemoteLifecycleAction::Reconnect,
            generation,
            after_status(
                state.federation.sources,
                host.spec_key(),
                RemoteConnectionStatus::Disconnected,
            ),
            seq![LifecycleEffectView::CancelQueued { host: host.spec_key() }],
        ),
    }
}

/// Whether a disconnect changes anything: a supervisor is stopped, or a cached
/// status changes.
pub open spec fn disconnect_changes(
    federation: FederationView,
    key: (Seq<char>, Seq<char>),
) -> bool {
    supervised(federation.supervisors, key) || match status_of(federation.sources, key) {
        Some(status) => !(status is Disconnected),
        None => false,
    }
}

/// What a disconnect does. A host that was never cached gets no entry by it. The
/// client is answered once the parked connections are closed.
pub open spec fn disconnected_on_request(
    state: LifecycleView,
    ask: LifecycleAsk,
    generation: u64,
) -> (LifecycleView, Seq<LifecycleEffectView>) {
    match lifecycle_host(state.federation.hosts, ask.alias, RemoteLifecycleAction::Disconnect) {
        Err(error) => (state, seq![refusal(ask, error)]),
        Ok(host) => {
            let key = host.spec_key();
            let changed = disconnect_changes(state.federation, key@);
            (
                LifecycleView {
                    federation: FederationView {
                        sources: if changed {
                            after_status(
                                state.federation.sources,
                                key,
                                RemoteConnectionStatus::Disconnected,
                            )
                        } else {
                            state.federation.sources
                        },
                        supervisors: other_supervisors(state.federation.supervisors, key@),
                        ..state.federation
                    },
                    pending: other_pending(state.pending, key@).push(
                        PendingRemoteLifecycleResponder {
                            generation,
                            request_id: ask.id,
                            host_key: key,
                            action: RemoteLifecycleAction::Disconnect,
                            responder: ask.responder,
                            disconnect_changed: Some(changed),
                        },
                    ),
                },
                superseded_effects(state.pending, key@).push(
                    LifecycleEffectView::DrainPool { host: key, generation },
                ),
            )
        },
    }
}

/// What a request does, where it is a lifecycle action.
pub open spec fn after_lifecycle_request(
    state: LifecycleView,
    request: Request,
    responder: u64,
    generation: u64,
) -> Option<(LifecycleView, Seq<LifecycleEffectView>)> {
    match request.method {
        Method::RemoteConnect(params) => Some(
            connected_on_request(
                state,
                LifecycleAsk { id: request.id, alias: params.host@, responder },
                generation,
            ),
        ),
        Method::RemoteReconnect(params) => Some(
            reconnected_on_request(
                state,
                LifecycleAsk { id: request.id, alias: params.host@, responder },
                generation,
            ),
        ),
        Method::RemoteDisconnect(params) => Some(
            disconnected_on_request(
                state,
                LifecycleAsk { id: request.id, alias: params.host@, responder },
                generation,
            ),
        ),
        _ => None,
    }
}

/// What a report under `generation` about `key` does: it answers the client that
/// waits for it, and only one that asked about the same host.
pub open spec fn answered_pending(
    pending: Seq<PendingRemoteLifecycleResponder>,
    key: (Seq<char>, Seq<char>),
    generation: u64,
) -> Option<int> {
    match first_where(pending, waits_for(generation)) {
        Some(i) => if pending[i].host_key@ == key {
            Some(i)
        } else {
            None
        },
        None => None,
    }
}

/// The status that a first attempt ended with.
pub open spec fn attempt_status(outcome: RemoteSourceLifecycleOutcome) -> RemoteLifecycleResultStatus {
    match outcome {
        RemoteSourceLifecycleOutcome::Connected => RemoteLifecycleResultStatus::Connected,
        RemoteSourceLifecycleOutcome::Disconnected(status) => result_status(status),
    }
}

fn pending_index(pending: &Vec<PendingRemoteLifecycleResponder>, generation: u64) -> (found: Option<
    usize,
>)
    ensures
        match found {
            Some(i) => i < pending@.len() && first_where(pending@, waits_for(generation)) == Some(
                i as int,
            ),
            None => first_where(pending@, waits_for(generation)) is None,
        },
{
    let mut i: usize = 0;
    while i < pending.len()
        invariant
            i <= pending@.len(),
            forall|j: int| 0 <= j < i ==> !waits_for(generation)(#[trigger] pending@[j]),
        decreases pending@.len() - i,
    {
        if pending[i].generation == generation {
            proof {
                lemma_first_found(pending@, waits_for(generation), i as int);
            }
            return Some(i);
        }
        i = i + 1;
    }
    proof {
        lemma_first_missing(pending@, waits_for(generation));
    }
    None
}

impl RemoteLifecycles {
    /// Answers everyone who waits for `host`: a newer action takes their place.
    pub fn supersede_pending_remote_lifecycle_for_host(&mut self, host: &RemoteHostKey) -> (effects:
        Vec<LifecycleEffect>)
        ensures
            final(self).federation == old(self).federation,
            final(self)@.pending == other_pending(old(self)@.pending, host@),
            lifecycle_effects(effects@) == superseded_effects(old(self)@.pending, host@),
    {
        let mut rest: Vec<PendingRemoteLifecycleResponder> = Vec::new();
        std::mem::swap(&mut self.pending, &mut rest);
        let ghost all = rest@;
        let mut kept: Vec<PendingRemoteLifecycleResponder> = Vec::new();
        let mut effects: Vec<LifecycleEffect> = Vec::new();
        let ghost mut done: int = 0;
        assert(rest@ =~= all.skip(0));
        assert(all.take(0) =~= Seq::empty());
        assert(lifecycle_effects(effects@) =~= Seq::empty());
        while rest.len() > 0
            invariant
                0 <= done <= all.len(),
                rest@ == all.skip(done),
                kept@ == other_pending(all.take(done), host@),
                lifecycle_effects(effects@) == superseded_effects(all.take(done), host@),
            decreases rest@.len(),
        {
            let own = rest.remove(0);
            proof {
                let taken = all.take(done + 1);
                assert(taken.drop_last() =~= all.take(done));
                assert(taken.last() == own);
                assert(rest@ =~= all.skip(done + 1));
                done = done + 1;
            }
            if own.host_key.same(host) {
                let ghost before = effects@;
                let effect = LifecycleEffect::Respond {
                    responder: own.responder,
                    reply: build_lifecycle_superseded_error(&own),
                };
                effects.push(effect);
                assert(lifecycle_effects(effects@) =~= lifecycle_effects(before).push(effect@));
            } else {
                kept.push(own);
            }
        }
        assert(all.take(done) =~= all);
        self.pending = kept;
        effects
    }

    /// Answers everyone who waits: the configuration is being reloaded.
    pub fn supersede_all_pending_remote_lifecycle(&mut self) -> (effects: Vec<LifecycleEffect>)
        ensures
            final(self).federation == old(self).federation,
            final(self)@.pending == Seq::<PendingRemoteLifecycleResponder>::empty(),
            lifecycle_effects(effects@) == all_superseded_effects(old(self)@.pending),
    {
        let mut effects: Vec<LifecycleEffect> = Vec::new();
        let mut i: usize = 0;
        while i < self.pending.len()
            invariant
                i <= self.pending@.len(),
                *self == *old(self),
                effects@.len() == i,
                forall|j: int|
                    0 <= j < i ==> (#[trigger] effects@[j])@ == (LifecycleEffectView::Respond {
                        responder: self.pending@[j].responder,
                        reply: superseded_reply(self.pending@[j]),
                    }),
            decreases self.pending@.len() - i,
        {
            effects.push(
                LifecycleEffect::Respond {
                    responder: self.pending[i].responder,
                    reply: build_lifecycle_superseded_error(&self.pending[i]),
                },
            );
            i = i + 1;
        }
        assert(lifecycle_effects(effects@) =~= all_superseded_effects(self.pending@));
        self.pending = Vec::new();
        assert(self.pending@ =~= Seq::empty());
        effects
    }

    /// Drops the host's supervisors. What they still report is then refused.
    pub fn retire_supervisor_for_host(&mut self, host: &RemoteHostKey) -> (had_handle: bool)
        ensures
            had_handle == supervised(old(self)@.federation.supervisors, host@),
            final(self).federation.supervisors@ == other_supervisors(
                old(self).federation.supervisors@,
                host@,
            ),
            final(self).federation.remote_hosts == old(self).federation.remote_hosts,
            final(self).federation.remote_sources == old(self).federation.remote_sources,
            final(self).pending == old(self).pending,
    {
        let mut rest: Vec<RemoteSourceSupervisorHandle> = Vec::new();
        std::mem::swap(&mut self.federation.supervisors, &mut rest);
        let ghost all = rest@;
        let mut kept: Vec<RemoteSourceSupervisorHandle> = Vec::new();
        let mut had_handle = false;
        let ghost mut done: int = 0;
        assert(rest@ =~= all.skip(0));
        assert(all.take(0) =~= Seq::empty());
        while rest.len() > 0
            invariant
                0 <= done <= all.len(),
                rest@ == all.skip(done),
                kept@ == other_supervisors(all.take(done), host@),
                had_handle ==> first_where(all, supervises(host@)) is Some,
                !had_handle ==> forall|j: int|
                    0 <= j < done ==> !supervises(host@)(#[trigger] all[j]),
            decreases rest@.len(),
        {
            let own = rest.remove(0);
            proof {
                let taken = all.take(done + 1);
                assert(taken.drop_last() =~= all.take(done));
                assert(taken.last() == own);
                assert(all[done] == own);
                assert(rest@ =~= all.skip(done + 1));
                if own.host_key@ == host@ && !had_handle {
                    lemma_first_found(all, supervises(host@), done);
                }
                done = done + 1;
            }
            if own.host_key.same(host) {
                had_handle = true;
            } else {
                kept.push(own);
            }
        }
        proof {
            if !had_handle {
                lemma_first_missing(all, supervises(host@));
            }
        }
        assert(all.take(done) =~= all);
        self.federation.supervisors = kept;
        had_handle
    }

    /// Whether the host is supervised and connected.
    pub fn host_has_active_connected_supervisor(&self, host: &RemoteHostKey) -> (active: bool)
        ensures
            active == (supervised(self@.federation.supervisors, host@) && connected(
                self@.federation.sources,
                host@,
            )),
    {
        if self.federation.supervisor_generation_of(host).is_none() {
            return false;
        }
        match self.federation.remote_sources.host_status(host) {
            Some(status) => status.is_connected(),
            None => false,
        }
    }

    /// Whether this session of the host is configured.
    pub fn remote_host_session_is_configured(&self, host: &RemoteHostKey) -> (known: bool)
        ensures
            known == session_configured(self@.federation.hosts, host@),
    {
        match self.federation.remote_hosts.get(host.host.as_str()) {
            Some(config) => crate::text::same_text(config.session.as_str(), host.session.as_str()),
            None => false,
        }
    }

    /// Whether the host's supervisor of that generation is still there.
    pub fn remote_source_generation_is_active(&self, host: &RemoteHostKey, generation: u64) -> (
        active: bool)
        ensures
            active == generation_active(self@.federation.supervisors, host@, generation),
    {
        let mut i: usize = 0;
        while i < self.federation.supervisors.len()
            invariant
                i <= self.federation.supervisors@.len(),
                forall|j: int|
                    0 <= j < i ==> !((#[trigger] self.federation.supervisors@[j]).host_key@ == host@
                        && self.federation.supervisors@[j].generation == generation),
            decreases self.federation.supervisors@.len() - i,
        {
            let handle = &self.federation.supervisors[i];
            if handle.generation == generation && handle.host_key.same(host) {
                assert(self@.federation.supervisors[i as int].host_key@ == host@);
                return true;
            }
            i = i + 1;
        }
        false
    }

    /// Refuses an action that names no configured host.
    pub fn resolve_lifecycle_host(
        &self,
        request_id: &String,
        alias: &String,
        action: RemoteLifecycleAction,
    ) -> (host: Result<RemoteHostConfig, Reply>)
        ensures
            match host {
                Ok(host) => lifecycle_host(self@.federation.hosts, alias@, action) == Ok::<
                    RemoteHostConfig,
                    ErrorText,
                >(host),
                Err(reply) => lifecycle_host(self@.federation.hosts, alias@, action) matches Err(
                    error,
                ) && lifecycle_reply(reply) == (LifecycleReplyView::Refused {
                    id: *request_id,
                    error,
                }),
            },
    {
        if alias.as_str().is_empty() {
            return Err(
                encode_error(
                    request_id.clone(),
                    "invalid_params",
                    concat2(action.method_name(), " requires a host alias"),
                ),
            );
        }
        match self.federation.remote_hosts.get(alias.as_str()) {
            Some(config) => Ok(config.clone()),
            None => Err(
                encode_error(
                    request_id.clone(),
                    "unknown_host",
                    concat2("unknown remote host: ", alias.as_str()),
                ),
            ),
        }
    }

    /// Starts one fresh supervisor, whose first report answers the client.
    fn start_lifecycle_supervisor(
        &mut self,
        request_id: &String,
        host: &RemoteHostConfig,
        action: RemoteLifecycleAction,
        responder: u64,
        generation: u64,
    ) -> (effect: LifecycleEffect)
        ensures
            effect@ == (LifecycleEffectView::StartSupervisor { host: *host, generation }),
            final(self).federation.remote_hosts == old(self).federation.remote_hosts,
            final(self).federation.remote_sources == old(self).federation.remote_sources,
            final(self).federation.supervisors@ == old(self).federation.supervisors@.push(
                RemoteSourceSupervisorHandle { host_key: host.spec_key(), generation },
            ),
            final(self).pending@ == old(self).pending@.push(
                PendingRemoteLifecycleResponder {
                    generation,
                    request_id: *request_id,
                    host_key: host.spec_key(),
                    action,
                    responder,
                    disconnect_changed: None,
                },
            ),
    {
        self.federation.supervisors.push(
            RemoteSourceSupervisorHandle { host_key: host.key(), generation },
        );
        self.pending.push(
            PendingRemoteLifecycleResponder {
                generation,
                request_id: request_id.clone(),
                host_key: host.key(),
                action,
                responder,
                disconnect_changed: None,
            },
        );
        LifecycleEffect::StartSupervisor { host: host.clone(), generation }
    }

    /// `remote.connect`. `generation` is one that was never used.
    pub fn start_remote_lifecycle_connect(
        &mut self,
        request_id: &String,
        params: &RemoteLifecycleHostParams,
        responder: u64,
        generation: u64,
    ) -> (effects: Vec<LifecycleEffect>)
        ensures
            (final(self)@, lifecycle_effects(effects@)) == connected_on_request(
                old(self)@,
                LifecycleAsk { id: *request_id, alias: params.host@, responder },
                generation,
            ),
    {
        let mut effects: Vec<LifecycleEffect> = Vec::new();
        let action = RemoteLifecycleAction::Connect;
        let host = match self.resolve_lifecycle_host(request_id, &params.host, action) {
            Ok(host) => host,
            Err(reply) => {
                let effect = LifecycleEffect::Respond { responder, reply };
                effects.push(effect);
                assert(lifecycle_effects(effects@) =~= seq![effect@]);
                return effects;
            },
        };
        let key = host.key();
        if self.host_has_active_connected_supervisor(&key) {
            let reply = build_lifecycle_success_response_from_planned(
                request_id.clone(),
                &key,
                action,
                RemoteLifecycleResultStatus::Connected,
                false,
            );
            let effect = LifecycleEffect::Respond { responder, reply };
            effects.push(effect);
            assert(lifecycle_effects(effects@) =~= seq![effect@]);
            return effects;
        }
        effects = self.supersede_pending_remote_lifecycle_for_host(&key);
        let ghost superseded = effects@;
        self.retire_supervisor_for_host(&key);
        let started = self.start_lifecycle_supervisor(
            request_id,
            &host,
            action,
            responder,
            generation,
        );
        effects.push(started);
        assert(lifecycle_effects(effects@) =~= (lifecycle_effects(superseded) + Seq::empty()).push(
            started@,
        ));
        effects
    }

    /// `remote.reconnect`. `generation` is one that was never used.
    pub fn start_remote_lifecycle_reconnect(
        &mut self,
        request_id: &String,
        params: &RemoteLifecycleHostParams,
        responder: u64,
        generation: u64,
    ) -> (effects: Vec<LifecycleEffect>)
        ensures
            (final(self)@, lifecycle_effects(effects@)) == reconnected_on_request(
                old(self)@,
                LifecycleAsk { id: *request_id, alias: params.host@, responder },
                generation,
            ),
    {
        let action = RemoteLifecycleAction::Reconnect;
        let host = match self.resolve_lifecycle_host(request_id, &params.host, action) {
            Ok(host) => host,
            Err(reply) => {
                let mut effects: Vec<LifecycleEffect> = Vec::new();
                let effect = LifecycleEffect::Respond { responder, reply };
                effects.push(effect);
                assert(lifecycle_effects(effects@) =~= seq![effect@]);
                return effects;
            },
        };
        let key = host.key();
        let mut effects = self.supersede_pending_remote_lifecycle_for_host(&key);
        let ghost superseded = effects@;
        self.retire_supervisor_for_host(&key);
        self.federation.remote_sources.mark_status(&key, RemoteConnectionStatus::Disconnected);
        let cancel = LifecycleEffect::CancelQueued { host: key };
        effects.push(cancel);
        let started = self.start_lifecycle_supervisor(
            request_id,
            &host,
            action,
            responder,
            generation,
        );
        effects.push(started);
        assert(lifecycle_effects(effects@) =~= (lifecycle_effects(superseded) + seq![cancel@]).push(
            started@,
        ));
        effects
    }

    /// `remote.disconnect`. `generation` is one that was never used.
    pub fn start_remote_lifecycle_disconnect(
        &mut self,
        request_id: &String,
        params: &RemoteLifecycleHostParams,
        responder: u64,
        generation: u64,
    ) -> (effects: Vec<LifecycleEffect>)
        ensures
            (final(self)@, lifecycle_effects(effects@)) == disconnected_on_request(
                old(self)@,
                LifecycleAsk { id: *request_id, alias: params.host@, responder },
                generation,
            ),
    {
        let action = RemoteLifecycleAction::Disconnect;
        let host = match self.resolve_lifecycle_host(request_id, &params.host, action) {
            Ok(host) => host,
            Err(reply) => {
                let mut effects: Vec<LifecycleEffect> = Vec::new();
                let effect = LifecycleEffect::Respond { responder, reply };
                effects.push(effect);
                assert(lifecycle_effects(effects@) =~= seq![effect@]);
                return effects;
            },
        };
        let key = host.key();
        let mut effects = self.supersede_pending_remote_lifecycle_for_host(&key);
        let ghost superseded = effects@;
        let had_handle = self.retire_supervisor_for_host(&key);
        let changed = had_handle || match self.federation.remote_sources.host_status(&key) {
            Some(RemoteConnectionStatus::Disconnected) => false,
            Some(_) => true,
            None => false,
        };
        if changed {
            self.federation.remote_sources.mark_status(&key, RemoteConnectionStatus::Disconnected);
        }
        self.pending.push(
            PendingRemoteLifecycleResponder {
                generation,
                request_id: request_id.clone(),
                host_key: key.clone(),
                action,
                responder,
                disconnect_changed: Some(changed),
            },
        );
        let drain = LifecycleEffect::DrainPool { host: key, generation };
        effects.push(drain);
        assert(lifecycle_effects(effects@) =~= lifecycle_effects(superseded).push(drain@));
        effects
    }

    /// Serves a lifecycle request; `None` for any other. `generation` is one that
    /// was never used.
    pub fn handle_deferred_remote_lifecycle_api_request(
        &mut self,
        request: &Request,
        responder: u64,
        generation: u64,
    ) -> (effects: Option<Vec<LifecycleEffect>>)
        ensures
            match after_lifecycle_request(old(self)@, *request, responder, generation) {
                Some(after) => effects matches Some(effects) && (
                    final(self)@,
                    lifecycle_effects(effects@),
                ) == after,
                None => effects is None && *final(self) == *old(self),
            },
    {
        match &request.method {
            Method::RemoteConnect(params) => Some(
                self.start_remote_lifecycle_connect(&request.id, params, responder, generation),
            ),
            Method::RemoteReconnect(params) => Some(
                self.start_remote_lifecycle_reconnect(&request.id, params, responder, generation),
            ),
            Method::RemoteDisconnect(params) => Some(
                self.start_remote_lifecycle_disconnect(&request.id, params, responder, generation),
            ),
            _ => None,
        }
    }

    /// Answers the client of a connect or reconnect once its supervisor reported.
    /// A report that nobody waits for does nothing.
    pub fn handle_remote_lifecycle_attempt(
        &mut self,
        host: &RemoteHostKey,
        generation: u64,
        outcome: RemoteSourceLifecycleOutcome,
    ) -> (effect: Option<LifecycleEffect>)
        ensures
            final(self).federation == old(self).federation,
            match answered_pending(old(self)@.pending, host@, generation) {
                Some(i) => final(self)@.pending == old(self)@.pending.remove(i) && (
                effect matches Some(effect) && effect@ == (LifecycleEffectView::Respond {
                    responder: old(self)@.pending[i].responder,
                    reply: done_reply(
                        old(self)@.pending[i].request_id,
                        old(self)@.pending[i].host_key,
                        old(self)@.pending[i].action,
                        attempt_status(outcome),
                        true,
                    ),
                })),
                None => effect is None && final(self)@.pending == old(self)@.pending,
            },
    {
        let i: usize = match pending_index(&self.pending, generation) {
            Some(i) => i,
            None => {
                return None;
            },
        };
        if !self.pending[i].host_key.same(host) {
            return None;
        }
        let pending = self.pending.remove(i);
        let status = match outcome {
            RemoteSourceLifecycleOutcome::Connected => RemoteLifecycleResultStatus::Connected,
            RemoteSourceLifecycleOutcome::Disconnected(failure) => lifecycle_result_status(failure),
        };
        let reply = build_lifecycle_success_response(&pending, status, true);
        Some(LifecycleEffect::Respond { responder: pending.responder, reply })
    }

    /// Answers the client of a disconnect once the parked connections are closed.
    pub fn handle_remote_pool_drain_completed(&mut self, host: &RemoteHostKey, generation: u64) -> (
        effect: Option<LifecycleEffect>)
        ensures
            final(self).federation == old(self).federation,
            match answered_pending(old(self)@.pending, host@, generation) {
                Some(i) => final(self)@.pending == old(self)@.pending.remove(i) && (
                effect matches Some(effect) && effect@ == (LifecycleEffectView::Respond {
                    responder: old(self)@.pending[i].responder,
                    reply: done_reply(
                        old(self)@.pending[i].request_id,
                        old(self)@.pending[i].host_key,
                        old(self)@.pending[i].action,
                        RemoteLifecycleResultStatus::Disconnected,
                        match old(self)@.pending[i].disconnect_changed {
                            Some(changed) => changed,
                            None => true,
                        },
                    ),
                })),
                None => effect is None && final(self)@.pending == old(self)@.pending,
            },
    {
        let i: usize = match pending_index(&self.pending, generation) {
            Some(i) => i,
            None => {
                return None;
            },
        };
        if !self.pending[i].host_key.same(host) {
            return None;
        }
        let pending = self.pending.remove(i);
        let changed = match pending.disconnect_changed {
            Some(changed) => changed,
            None => true,
        };
        let reply = build_lifecycle_success_response(
            &pending,
            RemoteLifecycleResultStatus::Disconnected,
            changed,
        );
        Some(LifecycleEffect::Respond { responder: pending.responder, reply })
    }
}

// Reports ----------------------------------------------------------------

/// Whether this session of a host is configured.
pub open spec fn session_configured(
    hosts: Seq<RemoteHostConfig>,
    key: (Seq<char>, Seq<char>),
) -> bool {
    match configured(hosts, key.0) {
        Some(config) => config.session@ == key.1,
        None => false,
    }
}

/// Whether a report under `generation` is taken up: its host is configured, and
/// the supervisor that reports is still there.
pub open spec fn admitted(
    federation: FederationView,
    key: (Seq<char>, Seq<char>),
    generation: u64,
) -> bool {
    session_configured(federation.hosts, key) && generation_active(
        federation.supervisors,
        key,
        generation,
    )
}

/// What a supervisor reports about its host.
#[derive(Debug, PartialEq, Eq)]
pub enum RemoteSourceReport {
    /// It answered; requests may reuse this state.
    BridgeState(Arc<RemoteApiBridgeState>),
    /// It cannot be used.
    Disconnected(RemoteConnectionStatus),
}

/// The cache after a report that was taken up.
pub open spec fn after_report(
    hosts: Seq<HostView>,
    key: RemoteHostKey,
    report: RemoteSourceReport,
) -> Seq<HostView> {
    match report {
        RemoteSourceReport::BridgeState(state) => with_host(
            hosts,
            HostView {
                status: RemoteConnectionStatus::Connected,
                bridge_state: Some(state),
                ..host_or_fresh(hosts, key)
            },
        ),
        RemoteSourceReport::Disconnected(status) => after_status(hosts, key, status),
    }
}

/// The state after a report, and what follows it. A report of a supervisor that was
/// replaced changes nothing.
pub open spec fn reported(
    state: LifecycleView,
    key: RemoteHostKey,
    generation: u64,
    report: RemoteSourceReport,
) -> (LifecycleView, Seq<LifecycleEffectView>) {
    if admitted(state.federation, key@, generation) {
        (
            LifecycleView {
                federation: FederationView {
                    sources: after_report(state.federation.sources, key, report),
                    ..state.federation
                },
                ..state
            },
            if report is Disconnected {
                seq![LifecycleEffectView::CancelQueued { host: key }]
            } else {
                Seq::empty()
            },
        )
    } else {
        (state, Seq::empty())
    }
}

impl RemoteLifecycles {
    /// Whether a report under `generation` is taken up.
    pub fn admits(&self, host: &RemoteHostKey, generation: u64) -> (taken_up: bool)
        ensures
            taken_up == admitted(self@.federation, host@, generation),
    {
        self.remote_host_session_is_configured(host) && self.remote_source_generation_is_active(
            host,
            generation,
        )
    }

    /// Takes up a supervisor's report, unless that supervisor was replaced.
    pub fn apply_source_report(
        &mut self,
        host: &RemoteHostKey,
        generation: u64,
        report: RemoteSourceReport,
    ) -> (applied: bool)
        ensures
            applied == admitted(old(self)@.federation, host@, generation),
            final(self)@ == (LifecycleView {
                federation: FederationView {
                    sources: if applied {
                        after_report(old(self)@.federation.sources, *host, report)
                    } else {
                        old(self)@.federation.sources
                    },
                    ..old(self)@.federation
                },
                ..old(self)@
            }),
    {
        if !self.admits(host, generation) {
            return false;
        }
        match report {
            RemoteSourceReport::BridgeState(state) => {
                self.federation.remote_sources.set_connected_bridge_state(host, state);
            },
            RemoteSourceReport::Disconnected(status) => {
                self.federation.remote_sources.mark_status(host, status);
            },
        }
        true
    }

    /// Takes up a supervisor's report, and says what follows. Where a host was lost, the
    /// changes that still wait for it are taken back: none of them runs late.
    pub fn handle_source_report(
        &mut self,
        host: &RemoteHostKey,
        generation: u64,
        report: RemoteSourceReport,
    ) -> (effects: Vec<LifecycleEffect>)
        ensures
            (final(self)@, lifecycle_effects(effects@)) == reported(
                old(self)@,
                *host,
                generation,
                report,
            ),
    {
        let lost = matches!(report, RemoteSourceReport::Disconnected(_));
        let applied = self.apply_source_report(host, generation, report);
        let mut effects: Vec<LifecycleEffect> = Vec::new();
        if applied && lost {
            effects.push(LifecycleEffect::CancelQueued { host: host.clone() });
        }
        assert(lifecycle_effects(effects@) =~= reported(
            old(self)@,
            *host,
            generation,
            report,
        ).1);
        effects
    }

    /// Takes up a finished sequence, unless it was planned under a supervisor
    /// that was replaced since.
    pub fn apply_routed_report(
        &mut self,
        reconciled: &mut Vec<ReconciledHost>,
        host: &RemoteHostKey,
        generation: u64,
        outcome: RoutedCompletion,
    ) -> (applied: bool)
        ensures
            applied == admitted(old(self)@.federation, host@, generation),
            !applied ==> *final(reconciled) == *old(reconciled),
            applied ==> crate::routed_reduce::reconciled_generation(
                final(reconciled)@,
                host@,
            ) == Some(generation),
            final(self)@ == (LifecycleView {
                federation: FederationView {
                    sources: if applied {
                        after_completion(old(self)@.federation.sources, *host, outcome)
                    } else {
                        old(self)@.federation.sources
                    },
                    ..old(self)@.federation
                },
                ..old(self)@
            }),
    {
        if !self.admits(host, generation) {
            return false;
        }
        apply_routed_completion(
            &mut self.federation.remote_sources,
            reconciled,
            host,
            generation,
            outcome,
        );
        proof {
            let p = crate::routed_reduce::reconciled_for(host@);
            crate::search::lemma_first_holds(old(reconciled)@, p);
            let entry = match first_where(old(reconciled)@, p) {
                Some(i) => ReconciledHost { generation, ..old(reconciled)@[i] },
                None => ReconciledHost { key: *host, generation },
            };
            crate::search::lemma_put_found(old(reconciled)@, p, entry);
        }
        true
    }

    /// Replaces the supervisor of a host on which a change ended in doubt, unless
    /// that was done already.
    pub fn start_remote_routed_recovery(
        &mut self,
        request_id: &String,
        host: &RemoteHostKey,
        generation: u64,
        responder: u64,
        fresh: u64,
    ) -> (effects: Option<Vec<LifecycleEffect>>)
        ensures
            admitted(old(self)@.federation, host@, generation) ==> (effects matches Some(effects)
                && (final(self)@, lifecycle_effects(effects@)) == reconnected_on_request(
                old(self)@,
                LifecycleAsk { id: *request_id, alias: host.host@, responder },
                fresh,
            )),
            !admitted(old(self)@.federation, host@, generation) ==> effects is None && *final(self)
                == *old(self),
    {
        if !self.admits(host, generation) {
            return None;
        }
        let params = RemoteLifecycleHostParams { host: host.host.clone() };
        Some(self.start_remote_lifecycle_reconnect(request_id, &params, responder, fresh))
    }
}

} // verus!
