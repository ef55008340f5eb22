//! What comes of a request that was sent to a host: what is known of its outcome, who is
//! told what, and what becomes of the connection.
use vstd::prelude::*;
use crate::agent_plan::{
    after_pool, agent_method_name, dispatch_result, first_leg, BridgeLeg, BridgeStep, RemoteAgentDispatchDescriptor,
    RemoteAgentResponseRewrite,
};
use crate::json::{json_parse, json_print, JsonTree};
use crate::local_agents::{is_agent_listing, is_host_qualified};
use crate::remote_helpers::{
    agent_on_host, bridge_reply_view, error_code_of, label_on_host, printed, response_for,
    started_on_host, status_word, text_response_for, BridgeError, BridgeErrorView,
};
use crate::remote_source::{
    cached_host, HostView, RemoteAgentEntry, RemoteApiBridgeState, RemoteConnectionStatus,
    RemoteHostKey,
};
use crate::routed_exec::{
    completion_of, create_effect, failure_effect, host_queue, is_clean, newer_sequences,
    normal_effects, queue_is, sink_effect, success_reply, taxonomy_of, terminal_effects, waiting,
    AnswerKind, EffectView, PrimaryOutcome, QueueView, SequenceFinal, TerminalOutcome,
};
use crate::routed_plan::{CompletionSink, RoutedApply, RoutedSequenceDescriptor};
use crate::routed_run::{disposal, for_client, permit_decision, PermitWait, RoutedTiming};
use crate::schema::{AgentInfo, Method, ReplyView, ResponseResult};
use crate::search::{first_where, lemma_first_holds};
use crate::server::FederationCapabilities;
use crate::text::stands_at;

verus! {

// What is known ----------------------------------------------------------

/// A host that answered in the terms of the API said what happened. Where it answered
/// otherwise, and where the connection failed after something was written, nobody
/// knows; where it failed before, nothing happened.
pub proof fn outcomes_are_known_where_the_host_said(final_: SequenceFinal)
    ensures
        (taxonomy_of(final_) is PreWriteFailure) == (final_.primary is Failed && !final_.wrote),
        (taxonomy_of(final_) is Indeterminate) == (final_.primary is Failed && final_.wrote || (
        final_.primary is Answered && final_.primary->Answered_kind is Malformed)),
        (taxonomy_of(final_) is Completed) == (final_.primary is Answered && !(
        final_.primary->Answered_kind is Malformed) && final_.refresh is Data),
        (taxonomy_of(final_) is PrimaryPreserved) == (final_.primary is Answered && !(
        final_.primary->Answered_kind is Malformed) && !(final_.refresh is Data)),
{
}

/// A connection is fit for reuse after a sequence that was answered in the terms of the
/// API, whose refresh did not fail, and that got a layout where it asked for one.
pub proof fn clean_sequences_were_answered(final_: SequenceFinal, layout_export_capable: bool)
    ensures
        is_clean(final_, layout_export_capable) ==> final_.primary is Answered && !(
        final_.primary->Answered_kind is Malformed) && !(final_.refresh is Failed),
        final_.primary is Answered && !(final_.primary->Answered_kind is Malformed)
            && final_.refresh is NotRun ==> is_clean(final_, layout_export_capable),
        final_.primary is Answered && !(final_.primary->Answered_kind is Malformed)
            && final_.refresh is Data ==> is_clean(final_, layout_export_capable) == !(
        layout_export_capable && final_.refresh->Data_0.active_tab is Some
            && final_.refresh->Data_0.active_tab->0.layout is None),
{
}

/// What the cache is to take up: the host's result exactly where it reported one, fresh
/// data exactly where the refresh brought some, and the workspace as being in doubt
/// exactly where nobody knows what happened or the refresh failed. Nothing is to be
/// taken up where nothing was sent.
pub proof fn completions_say_what_is_known(
    final_: SequenceFinal,
    workspace_id: Option<String>,
    apply: RoutedApply,
)
    ensures
        (completion_of(final_, workspace_id, apply) is None) == (final_.primary is Failed
            && !final_.wrote),
        completion_of(final_, workspace_id, apply) matches Some(outcome) ==> {
            let answered = final_.primary is Answered && !(
            final_.primary->Answered_kind is Malformed);
            &&& outcome.apply == apply
            &&& match final_.primary {
                PrimaryOutcome::Answered { kind: AnswerKind::Success(result), .. } =>
                    outcome.success == Some(result),
                _ => outcome.success is None,
            }
            &&& answered && final_.refresh is Data ==> outcome.refresh == Some(
                final_.refresh->Data_0,
            )
            &&& !(answered && final_.refresh is Data) ==> outcome.refresh is None
            &&& !answered || final_.refresh is Failed ==> outcome.stale_workspace_id
                == workspace_id
            &&& answered && !(final_.refresh is Failed) ==> outcome.stale_workspace_id is None
            &&& (outcome.taxonomy is IndeterminateAfterWrite) == !answered
            &&& (outcome.taxonomy is Completed) == (answered && final_.refresh is Data)
        },
{
}

// Who is told ------------------------------------------------------------

/// A client is told on its own channel and under its own request identifier. What the
/// host answered in the terms of the API is handed on; otherwise it is an error: one
/// that is safe to retry where nothing was sent, in the words of the failure, and one
/// that says that the outcome is unknown where something was.
pub proof fn clients_are_told_the_outcome(
    host: RemoteHostKey,
    responder: u64,
    request_id: String,
    final_: SequenceFinal,
)
    ensures
        ({
            let told = sink_effect(
                CompletionSink::ApiResponder { responder, request_id },
                host,
                final_,
            );
            &&& told is Respond
            &&& told->Respond_responder == responder
            &&& match final_.primary {
                PrimaryOutcome::Failed { message } => {
                    &&& told->Respond_reply is Error
                    &&& told->Respond_reply->Error_id == request_id
                    &&& !final_.wrote ==> told->Respond_reply->Error_error.code
                        == "remote_request_failed"@ && told->Respond_reply->Error_error.message
                        == message@
                    &&& final_.wrote ==> told->Respond_reply->Error_error.code
                        == "remote_request_indeterminate"@ && ends_with(
                        told->Respond_reply->Error_error.message,
                        message@,
                    )
                },
                PrimaryOutcome::Answered { text, kind } => if kind is Malformed {
                    told->Respond_reply is Error && told->Respond_reply->Error_id == request_id
                        && told->Respond_reply->Error_error.code == "remote_request_indeterminate"@
                } else {
                    told->Respond_reply == success_reply(request_id, text@)
                },
            }
        }),
{
    if let PrimaryOutcome::Failed { message } = final_.primary {
        let head = "outcome unknown \u{2014} refresh before retrying: "@;
        let said = head + message@;
        assert(said.subrange(said.len() - message@.len(), said.len() as int) =~= message@);
    }
}

/// `text` ends with `end`.
pub open spec fn ends_with(text: Seq<char>, end: Seq<char>) -> bool {
    stands_at(text, end, text.len() - end.len())
}

/// What a host answered reaches the client as it was, but for the identifier, which is
/// the client's own.
pub proof fn answers_carry_the_clients_identifier(request_id: String, answer: Seq<char>)
    ensures
        match success_reply(request_id, answer) {
            ReplyView::Forwarded { text } => json_parse(answer) is Ok && exists|tree: JsonTree|
                #[trigger] json_print(tree) == Ok::<Seq<char>, Seq<char>>(text) && tree.member(
                    "id"@,
                ) == Some(JsonTree::Text(request_id@)) && forall|key: Seq<char>|
                    key != "id"@ ==> #[trigger] tree.member(key) == json_parse(answer)->Ok_0.member(
                        key,
                    ),
            ReplyView::Error { id, error } => id == request_id && error.code
                == "remote_request_failed"@,
            ReplyView::Success { .. } => false,
        },
{
    if let ReplyView::Forwarded { text } = success_reply(request_id, answer) {
        let before = json_parse(answer)->Ok_0;
        let tree = before.with_member("id"@, JsonTree::Text(request_id@));
        assert(json_print(tree) == Ok::<Seq<char>, Seq<char>>(text));
    }
}

/// A failure is told to whoever waits: to a client as an error under its own
/// identifier, to the interface for the token that it waits under.
pub proof fn failures_reach_whoever_waits(
    sink: CompletionSink,
    host: RemoteHostKey,
    error: crate::schema::ErrorText,
)
    ensures
        match sink {
            CompletionSink::ApiResponder { responder, request_id } => failure_effect(
                sink,
                host,
                error,
            ) == (EffectView::Respond {
                responder,
                reply: ReplyView::Error { id: request_id, error },
            }),
            CompletionSink::UiCreate { token } => {
                let told = failure_effect(sink, host, error);
                told is CreateFailed && told->CreateFailed_token == token
                    && told->CreateFailed_host == host && told->CreateFailed_message
                    == error.message
            },
        },
{
}

/// The interface is told of a new workspace exactly where the host reported that it
/// created one, and of that workspace; of a refusal it is told the host's words.
pub proof fn created_workspaces_are_told(
    host: RemoteHostKey,
    token: u64,
    primary: PrimaryOutcome,
)
    ensures
        match create_effect(host, token, primary) {
            EffectView::CreateSucceeded { host: on, token: awaited, workspace } => on == host
                && awaited == token && match primary {
                PrimaryOutcome::Answered {
                    kind: AnswerKind::Success(
                        ResponseResult::WorkspaceCreated { workspace: created, .. },
                    ),
                    ..
                } => workspace == created,
                _ => false,
            },
            EffectView::CreateFailed { host: on, token: awaited, message } => on == host && awaited
                == token && match primary {
                PrimaryOutcome::Answered {
                    kind: AnswerKind::Success(ResponseResult::WorkspaceCreated { .. }),
                    ..
                } => false,
                PrimaryOutcome::Answered { kind: AnswerKind::Error { message: said }, .. } =>
                    message == said@,
                PrimaryOutcome::Failed { message: said } => message == said@,
                _ => true,
            },
            _ => false,
        },
{
}

/// A sequence that nobody waits for tells nobody, and one for a client is planned under
/// that client's own request identifier; nothing else of it changes.
pub proof fn clients_wait_under_their_own_identifier(
    descriptor: RoutedSequenceDescriptor,
    responder: u64,
    outcome: TerminalOutcome,
)
    ensures
        descriptor.sink is None ==> terminal_effects(descriptor, outcome).len() == 0,
        for_client(descriptor, responder).sink == Some(
            CompletionSink::ApiResponder { responder, request_id: descriptor.spec.primary.id },
        ),
        for_client(descriptor, responder).spec == descriptor.spec,
        for_client(descriptor, responder).host == descriptor.host,
        for_client(descriptor, responder).host_key == descriptor.host_key,
        for_client(descriptor, responder).source_generation == descriptor.source_generation,
        for_client(descriptor, responder).bridge_state == descriptor.bridge_state,
{
}

// Queues -----------------------------------------------------------------

/// A queue is found under its host and its session.
pub proof fn queues_go_by_both_names(queues: Seq<QueueView>, key: RemoteHostKey)
    ensures
        match host_queue(queues, key@) {
            Some(queue) => queue.key.host@ == key.host@ && queue.key.session@ == key.session@
                && queues.contains(queue) && waiting(queues, key@) == queue.queue,
            None => (forall|j: int|
                0 <= j < queues.len() ==> (#[trigger] queues[j]).key.host@ != key.host@
                    || queues[j].key.session@ != key.session@) && waiting(queues, key@).len() == 0,
        },
{
    let mine = queue_is(key@);
    lemma_first_holds(queues, mine);
    match first_where(queues, mine) {
        Some(i) => {
            assert(mine(queues[i]));
            assert(queues.contains(queues[i]));
        },
        None => {
            assert forall|j: int| 0 <= j < queues.len() implies (#[trigger] queues[j]).key.host@
                != key.host@ || queues[j].key.session@ != key.session@ by {
                assert(!mine(queues[j]));
            }
        },
    }
}

/// What goes on waiting after a recovery is exactly what was planned under a newer
/// supervisor than the one that is replaced.
pub proof fn newer_plans_go_on_waiting(queue: Seq<RoutedSequenceDescriptor>, generation: u64)
    ensures
        forall|i: int|
            0 <= i < queue.len() && (#[trigger] queue[i]).source_generation is Some
                && queue[i].source_generation->0 > generation ==> newer_sequences(
                queue,
                generation,
            ).contains(queue[i]),
        forall|k: int|
            0 <= k < newer_sequences(queue, generation).len() ==> queue.contains(
                #[trigger] newer_sequences(queue, generation)[k],
            ) && newer_sequences(queue, generation)[k].source_generation is Some
                && newer_sequences(queue, generation)[k].source_generation->0 > generation,
    decreases queue.len(),
{
    if queue.len() > 0 {
        let rest = queue.drop_last();
        newer_plans_go_on_waiting(rest, generation);
        let kept = newer_sequences(queue, generation);
        let before = newer_sequences(rest, generation);
        assert forall|i: int|
            0 <= i < queue.len() && (#[trigger] queue[i]).source_generation is Some
                && queue[i].source_generation->0 > generation implies kept.contains(queue[i]) by {
            if i < rest.len() {
                assert(rest[i] == queue[i]);
                let k = choose|k: int| 0 <= k < before.len() && before[k] == queue[i];
                assert(kept[k] == queue[i]);
            } else {
                assert(kept[kept.len() - 1] == queue[i]);
            }
        }
        assert forall|k: int| 0 <= k < kept.len() implies queue.contains(#[trigger] kept[k])
            && kept[k].source_generation is Some && kept[k].source_generation->0 > generation by {
            if k < before.len() {
                assert(kept[k] == before[k]);
                let i = choose|i: int| 0 <= i < rest.len() && rest[i] == before[k];
                assert(queue[i] == kept[k]);
            } else {
                assert(kept[k] == queue[queue.len() - 1]);
            }
        }
    }
}

/// A permit that was got is used. One that was not is waited for until the time is up;
/// a wait that has become long is warned of, and counted anew from the warning.
pub proof fn permits_are_waited_for(
    wait: PermitWait,
    acquired: bool,
    now_ms: u64,
    timing: RoutedTiming,
)
    ensures
        ({
            let (decision, after) = permit_decision(wait, acquired, now_ms, timing);
            &&& (decision is Proceed) == acquired
            &&& (decision is GiveUp) == (!acquired && now_ms >= wait.deadline_ms)
            &&& decision is Retry && wait.starving_since is None ==> after.starving_since == Some(
                now_ms,
            )
            &&& decision is Retry && wait.starving_since is Some && wait.starving_since->0 <= now_ms
                ==> decision->warn == (now_ms - wait.starving_since->0
                >= timing.starvation_after_ms)
            &&& decision is Retry && decision->warn ==> after.starving_since == Some(now_ms)
            &&& decision is Retry && !decision->warn && wait.starving_since is Some
                ==> after.starving_since == wait.starving_since
        }),
{
}

/// A connection that comes back after a clean sequence is kept for reuse; after any
/// other it is dropped and its slot is free again. One that does not come back frees
/// its slot where it had one.
pub proof fn connections_are_kept_only_clean(clean: bool, handed_back: bool, was_pooled: bool)
    ensures
        (disposal(clean, handed_back, was_pooled) is Park) == (handed_back && clean),
        (disposal(clean, handed_back, was_pooled) is DropAndRelease) == (handed_back && !clean),
        (disposal(clean, handed_back, was_pooled) is Release) == (!handed_back && was_pooled),
        (disposal(clean, handed_back, was_pooled) is Nothing) == (!handed_back && !was_pooled),
{
}

// Requests to agents -----------------------------------------------------

/// A request goes over the pool exactly where its host keeps connections open, over a
/// connection of its own with what was prepared where it does not, and over one that
/// is prepared anew where nothing was.
pub proof fn requests_take_the_shortest_way(
    state: Option<std::sync::Arc<RemoteApiBridgeState>>,
)
    ensures
        (first_leg(state) is Full) == (state is None),
        (first_leg(state) is Pooled) == (state is Some && state->0.capabilities@.contains(
            FederationCapabilities::REMOTE_API_BRIDGE_PERSISTENT@,
        )),
        (first_leg(state) is Prepared) == (state is Some && !state->0.capabilities@.contains(
            FederationCapabilities::REMOTE_API_BRIDGE_PERSISTENT@,
        )),
{
}

/// What the pool brought back is the outcome; where it had no connection the request
/// goes over one of its own.
pub proof fn pooled_answers_are_the_outcome(attempt: Result<Option<String>, BridgeError>)
    ensures
        match attempt {
            Ok(Some(text)) => after_pool(attempt) matches BridgeStep::Done(Ok(said)) && said == text,
            Ok(None) => after_pool(attempt) == BridgeStep::Try(BridgeLeg::Prepared),
            Err(err) => after_pool(attempt) matches BridgeStep::Done(Err(said)) && said == err,
        },
{
}

/// What a host answered to a request to an agent reaches the client under the request's
/// identifier; a failure of the connection is handed on as it is. For a start the
/// labels of the started agent carry the host.
pub proof fn agent_answers_carry_the_requests_identifier(
    descriptor: RemoteAgentDispatchDescriptor,
    bridged: Result<Seq<char>, BridgeErrorView>,
)
    ensures
        bridged is Err ==> dispatch_result(descriptor, bridged) == bridged,
        match (bridged, dispatch_result(descriptor, bridged)) {
            (Ok(answer), Ok(text)) => json_parse(answer) is Ok && exists|tree: JsonTree|
                #[trigger] json_print(tree) == Ok::<Seq<char>, Seq<char>>(text) && tree.member(
                    "id"@,
                ) == Some(JsonTree::Text(descriptor.request.id@)) && tree.member("error"@)
                    == json_parse(answer)->Ok_0.member("error"@) && (
                descriptor.rewrite is Id ==> tree.member("result"@) == json_parse(
                    answer,
                )->Ok_0.member("result"@)),
            _ => true,
        },
{
    reveal_strlit("id");
    reveal_strlit("result");
    reveal_strlit("error");
    assert("id"@.len() == 2 && "result"@.len() == 6 && "error"@.len() == 5);
    if let (Ok(answer), Ok(text)) = (bridged, dispatch_result(descriptor, bridged)) {
        let before = json_parse(answer)->Ok_0;
        let plain = before.with_member("id"@, JsonTree::Text(descriptor.request.id@));
        match descriptor.rewrite {
            RemoteAgentResponseRewrite::Id => {
                assert(json_print(plain) == Ok::<Seq<char>, Seq<char>>(text));
            },
            RemoteAgentResponseRewrite::AgentStart => {
                let tree = started_on_host(plain, descriptor.host.name@);
                assert(json_print(tree) == Ok::<Seq<char>, Seq<char>>(text));
            },
        }
    }
}

/// An answer is rewritten exactly where it is an object with a result or an error.
pub proof fn only_responses_are_rewritten(tree: JsonTree, id: Seq<char>)
    ensures
        (response_for(tree, id) is Ok) == (tree is Object && (tree.member("result"@) is Some
            || tree.member("error"@) is Some)),
{
}

/// A label that is a text carries the host's name and a slash before it; every other
/// member stays, and a label that is no text stays too.
pub proof fn labels_carry_the_host(
    agent: JsonTree,
    field: Seq<char>,
    host: Seq<char>,
    other: Seq<char>,
)
    ensures
        match agent.member(field) {
            Some(JsonTree::Text(label)) => label_on_host(agent, field, host).member(field) == Some(
                JsonTree::Text(host + "/"@ + label),
            ),
            _ => label_on_host(agent, field, host) == agent,
        },
        other != field ==> label_on_host(agent, field, host).member(other) == agent.member(other),
{
}

/// All four labels of a started agent carry its host, and nothing else of it changes.
pub proof fn started_agents_carry_their_host(agent: JsonTree, host: Seq<char>, other: Seq<char>)
    requires
        agent is Object,
    ensures
        ({
            let told = agent_on_host(agent, host);
            &&& told is Object
            &&& agent.member("name"@) matches Some(JsonTree::Text(label)) ==> told.member("name"@)
                == Some(JsonTree::Text(host + "/"@ + label))
            &&& agent.member("display_agent"@) matches Some(JsonTree::Text(label)) ==> told.member(
                "display_agent"@,
            ) == Some(JsonTree::Text(host + "/"@ + label))
            &&& agent.member("agent"@) matches Some(JsonTree::Text(label)) ==> told.member(
                "agent"@,
            ) == Some(JsonTree::Text(host + "/"@ + label))
            &&& agent.member("title"@) matches Some(JsonTree::Text(label)) ==> told.member(
                "title"@,
            ) == Some(JsonTree::Text(host + "/"@ + label))
            &&& other != "name"@ && other != "display_agent"@ && other != "agent"@ && other
                != "title"@ ==> told.member(other) == agent.member(other)
        }),
{
    reveal_strlit("name");
    reveal_strlit("display_agent");
    reveal_strlit("agent");
    reveal_strlit("title");
    assert("name"@.len() == 4 && "display_agent"@.len() == 13 && "agent"@.len() == 5
        && "title"@.len() == 5);
    assert("agent"@[0] == 'a' && "title"@[0] == 't');
    let first = label_on_host(agent, "name"@, host);
    let second = label_on_host(first, "display_agent"@, host);
    let third = label_on_host(second, "agent"@, host);
    labels_carry_the_host(agent, "name"@, host, "display_agent"@);
    labels_carry_the_host(agent, "name"@, host, "agent"@);
    labels_carry_the_host(agent, "name"@, host, "title"@);
    labels_carry_the_host(agent, "name"@, host, other);
    labels_carry_the_host(first, "display_agent"@, host, "name"@);
    labels_carry_the_host(first, "display_agent"@, host, "agent"@);
    labels_carry_the_host(first, "display_agent"@, host, "title"@);
    labels_carry_the_host(first, "display_agent"@, host, other);
    labels_carry_the_host(second, "agent"@, host, "name"@);
    labels_carry_the_host(second, "agent"@, host, "display_agent"@);
    labels_carry_the_host(second, "agent"@, host, "title"@);
    labels_carry_the_host(second, "agent"@, host, other);
    labels_carry_the_host(third, "title"@, host, "name"@);
    labels_carry_the_host(third, "title"@, host, "display_agent"@);
    labels_carry_the_host(third, "title"@, host, "agent"@);
    labels_carry_the_host(third, "title"@, host, other);
}

/// The labels are rewritten in the report of a started agent, and in no other answer.
pub proof fn only_started_agents_are_qualified(response: JsonTree, host: Seq<char>)
    ensures
        match response.member("result"@) {
            Some(result) => {
                let started = result.member("type"@) == Some(JsonTree::Text("agent_started"@))
                    && result.member("agent"@) is Some && result.member("agent"@)->0 is Object;
                &&& !started ==> started_on_host(response, host) == response
                &&& started ==> {
                    let told = started_on_host(response, host).member("result"@);
                    &&& told is Some
                    &&& told->0.member("agent"@) == Some(
                        agent_on_host(result.member("agent"@)->0, host),
                    )
                    &&& forall|key: Seq<char>|
                        key != "agent"@ ==> #[trigger] told->0.member(key) == result.member(key)
                }
            },
            None => started_on_host(response, host) == response,
        },
{
}

/// The code of a refusal is that of the answer's error, where it has one.
pub proof fn refusal_codes_are_the_hosts_own(parsed: Result<JsonTree, Seq<char>>, code: Seq<char>)
    ensures
        (error_code_of(parsed) == Some(code)) == (parsed is Ok && parsed->Ok_0.member("error"@)
            is Some && parsed->Ok_0.member("error"@)->0.member("code"@) == Some(
            JsonTree::Text(code),
        )),
{
}

/// An agent on a host is told with that host before each of its labels and, while the
/// host is not connected, with the host's state as its own; everything else is as the
/// host listed it.
pub proof fn cached_agents_carry_their_host(agent: AgentInfo, entry: RemoteAgentEntry)
    requires
        is_host_qualified(agent, entry),
    ensures
        entry.agent.name is Some ==> agent.name is Some && agent.name->0@ == entry.host.host@ + "/"@
            + entry.agent.name->0@,
        entry.agent.display_agent is Some ==> agent.display_agent is Some
            && agent.display_agent->0@ == entry.host.host@ + "/"@ + entry.agent.display_agent->0@,
        entry.agent.agent is Some ==> agent.agent is Some && agent.agent->0@ == entry.host.host@
            + "/"@ + entry.agent.agent->0@,
        entry.agent.title is Some ==> agent.title is Some && agent.title->0@ == entry.host.host@
            + "/"@ + entry.agent.title->0@,
        (agent.name is Some) == (entry.agent.name is Some),
        (agent.agent is Some) == (entry.agent.agent is Some),
        entry.status is Connected ==> agent.custom_status == entry.agent.custom_status,
        !(entry.status is Connected) ==> agent.custom_status is Some,
        agent.terminal_id == entry.agent.terminal_id && agent.pane_id == entry.agent.pane_id,
        agent.workspace_id == entry.agent.workspace_id && agent.tab_id == entry.agent.tab_id,
        agent.agent_status == entry.agent.agent_status && agent.focused == entry.agent.focused,
        agent.cwd == entry.agent.cwd && agent.revision == entry.agent.revision,
{
}

/// The list of agents is that of the local ones and then that of the cached ones, each
/// with its host.
pub proof fn listings_tell_local_agents_first(
    agents: Seq<AgentInfo>,
    local: Seq<AgentInfo>,
    cached: Seq<RemoteAgentEntry>,
    i: int,
)
    requires
        is_agent_listing(agents, local, cached),
        0 <= i < agents.len(),
    ensures
        agents.len() == local.len() + cached.len(),
        i < local.len() ==> agents[i] == local[i],
        i >= local.len() ==> is_host_qualified(agents[i], cached[i - local.len()])
            && agents[i].terminal_id == cached[i - local.len()].agent.terminal_id,
{
    if i < local.len() {
        assert(agents.take(local.len() as int)[i] == local[i]);
    } else {
        let j = i - local.len();
        assert(is_host_qualified(agents[local.len() + j], cached[j]));
    }
}

/// How a host that is not connected is described: by what was reported of it, and as
/// disconnected where nothing was. No two states are described alike.
pub proof fn states_are_described_apart(
    hosts: Seq<HostView>,
    key: (Seq<char>, Seq<char>),
    a: RemoteConnectionStatus,
    b: RemoteConnectionStatus,
)
    ensures
        (a.stale_text() is None) == (a is Connected),
        a != b ==> a.stale_text() != b.stale_text(),
        cached_host(hosts, key) is None ==> status_word(hosts, key)
            == RemoteConnectionStatus::Disconnected.stale_text()->0,
        cached_host(hosts, key) matches Some(host) && !(host.status is Connected) ==> status_word(
            hosts,
            key,
        ) == cached_host(hosts, key)->0.status.stale_text()->0,
{
    reveal_strlit("disconnected");
    reveal_strlit("needs update");
    reveal_strlit("unreachable");
    assert("disconnected"@.len() == 12 && "needs update"@.len() == 12 && "unreachable"@.len()
        == 11);
    assert("disconnected"@[0] == 'd' && "needs update"@[0] == 'n');
}

/// What is no API response is told as invalid data, and what cannot be written as
/// another failure; a text that does not parse is told with the parser's own words.
pub proof fn bad_answers_are_told_apart(answer: Seq<char>, id: Seq<char>)
    ensures
        json_parse(answer) is Err ==> text_response_for(answer, id) is Err && text_response_for(
            answer,
            id,
        )->Err_0.kind is InvalidData && ends_with(
            text_response_for(answer, id)->Err_0.message,
            json_parse(answer)->Err_0,
        ),
        text_response_for(answer, id) is Err ==> text_response_for(answer, id)->Err_0.kind
            is InvalidData,
        text_response_for(answer, id) is Ok ==> json_parse(answer) is Ok,
        text_response_for(answer, id) is Ok ==> match json_print(
            text_response_for(answer, id)->Ok_0,
        ) {
            Ok(text) => printed(text_response_for(answer, id)) == Ok::<Seq<char>, BridgeErrorView>(
                text,
            ),
            Err(said) => printed(text_response_for(answer, id)) is Err && printed(
                text_response_for(answer, id),
            )->Err_0.kind is Other && printed(text_response_for(answer, id))->Err_0.message == said,
        },
{
    if json_parse(answer) is Err {
        let said = text_response_for(answer, id)->Err_0.message;
        let end = json_parse(answer)->Err_0;
        assert(said.subrange(said.len() - end.len(), said.len() as int) =~= end);
    }
}

/// The effects of a finished sequence: first, after an uncertain outcome, the host is
/// recovered under the generation that the sequence was planned under; then whoever
/// waits is told; and last, for a client's sequence of which anything is known, the
/// cache is told.
#[verifier::spinoff_prover]
pub proof fn finished_sequences_have_their_effects(
    queues: Seq<QueueView>,
    host: RemoteHostKey,
    descriptor: RoutedSequenceDescriptor,
    final_: SequenceFinal,
)
    ensures
        ({
            let effects = normal_effects(queues, host, descriptor, final_);
            let unknown = final_.primary is Failed && final_.wrote || (final_.primary is Answered
                && final_.primary->Answered_kind is Malformed);
            let unsent = final_.primary is Failed && !final_.wrote;
            &&& unknown ==> effects.len() > 0 && effects[0] == (EffectView::RecoveryNeeded {
                host,
                generation: match descriptor.source_generation {
                    Some(generation) => generation,
                    None => 0,
                },
            })
            &&& descriptor.sink is Some ==> effects.contains(
                sink_effect(descriptor.sink->0, descriptor.host_key, final_),
            )
            &&& descriptor.sink is Some && descriptor.sink->0 is ApiResponder && !unsent ==> {
                &&& effects.last() is SequenceCompleted
                &&& effects.last()->SequenceCompleted_host == descriptor.host_key
                &&& effects.last()->SequenceCompleted_outcome.apply == descriptor.spec.apply
                &&& unknown && descriptor.spec.refresh is Some
                    ==> effects.last()->SequenceCompleted_outcome.stale_workspace_id == Some(
                    descriptor.spec.refresh->0.workspace_id,
                )
            }
        }),
{
    let effects = normal_effects(queues, host, descriptor, final_);
    let first = crate::routed_exec::recovery_effects(queues, host, descriptor, final_);
    if let Some(sink) = descriptor.sink {
        assert(effects[first.len() as int] == sink_effect(sink, descriptor.host_key, final_));
    }
}

/// A client whose connection failed is told the failure under its own identifier; what
/// came back is handed on.
pub proof fn connections_that_failed_are_told(
    id: String,
    outcome: Result<Seq<char>, BridgeErrorView>,
)
    ensures
        match outcome {
            Ok(text) => bridge_reply_view(id, outcome) == (ReplyView::Forwarded { text }),
            Err(err) => bridge_reply_view(id, outcome) is Error && bridge_reply_view(
                id,
                outcome,
            )->Error_id == id && bridge_reply_view(id, outcome)->Error_error.message == err.message,
        },
{
}

/// The methods that go to agents are called by different names.
pub proof fn agent_methods_are_named_apart(a: Method, b: Method)
    requires
        agent_method_name(a) == agent_method_name(b),
    ensures
        (a is AgentRead) == (b is AgentRead),
        (a is AgentFocus) == (b is AgentFocus),
        (a is AgentSend) == (b is AgentSend),
        (a is AgentSubmit) == (b is AgentSubmit),
        (a is AgentTeardown) == (b is AgentTeardown),
        (a is AgentStart) == (b is AgentStart),
{
    reveal_strlit("agent.read");
    reveal_strlit("agent.focus");
    reveal_strlit("agent.send");
    reveal_strlit("agent.submit");
    reveal_strlit("agent.teardown");
    reveal_strlit("agent.start");
    reveal_strlit("agent");
    assert("agent.read"@.len() == 10 && "agent.focus"@.len() == 11 && "agent.send"@.len() == 10
        && "agent.submit"@.len() == 12 && "agent.teardown"@.len() == 14 && "agent.start"@.len()
        == 11 && "agent"@.len() == 5);
    assert("agent.read"@[6] == 'r' && "agent.send"@[6] == 's');
    assert("agent.focus"@[6] == 'f' && "agent.start"@[6] == 's');
}

} // verus!
