//! What refusals say: a code for each reason, and words that name what was asked for.
use vstd::prelude::*;
use crate::agent_plan::{bridge_busy_error, manual_policy_error};
use crate::agent_start::{start_error, StartErrorView};
use crate::local_agents::{
    agent_ambiguous, agent_missing, agent_name_taken, candidate_text, candidates_text,
};
use crate::local_api::{out_of_bounds, tab_missing, workspace_missing};
use crate::projection_stream::{opening_failed, projection_socket_name, OpeningStep, StreamEnd};
use crate::remote_helpers::{
    bridge_reply, capability_error, not_connected_error, route_error,
    BridgeError,
};
use crate::remote_target::{
    AgentLookup, PaneLookup, PlannedView, RemoteTargetParseError, SelectorView, TabLookup,
    WorkspaceLookup,
};
use crate::resolve_errors::{
    agent_lookup_error, pane_lookup_error, tab_lookup_error, terminal_ids, workspace_lookup_error,
};
use crate::schema::{AgentInfo, ErrorText, Reply};
use crate::text::{contains_part, decimal, joined, stands_at};
use crate::text_laws::{
    digits_tell_numbers_apart, joined_texts_hold_their_parts, numbers_read_back,
    parts_of_parts_are_parts, parts_stand_between_two_texts,
};

verus! {

/// The code and the words of an error name what it is about.
pub open spec fn names(error: ErrorText, part: Seq<char>) -> bool {
    contains_part(error.message, part)
}

proof fn lemma_between(before: Seq<char>, part: Seq<char>, after: Seq<char>)
    ensures
        contains_part(before + part + after, part),
{
    parts_stand_between_two_texts(before + part + after, part);
}

proof fn lemma_at_end(before: Seq<char>, part: Seq<char>)
    ensures
        contains_part(before + part, part),
{
    lemma_between(before, part, Seq::empty());
    assert(before + part + Seq::<char>::empty() =~= before + part);
}

// Local things -----------------------------------------------------------

/// What was not found here is named, and each kind of thing has its own code.
pub proof fn missing_things_are_named(id: Seq<char>, code: Seq<char>, index: usize)
    ensures
        names(workspace_missing(id), id),
        names(tab_missing(id), id),
        names(agent_missing(id), id),
        workspace_missing(id).code == "workspace_not_found"@,
        tab_missing(id).code == "tab_not_found"@,
        agent_missing(id).code == "agent_not_found"@,
        out_of_bounds(code, index).code == code,
        names(out_of_bounds(code, index), decimal(index as nat)),
{
    lemma_between("workspace "@, id, " not found"@);
    lemma_between("tab "@, id, " not found"@);
    lemma_between("agent target "@, id, " not found"@);
    lemma_between("insert_index "@, decimal(index as nat), " is out of bounds"@);
}

/// Agents that stand in the way of a choice or of a name are named, each by its terminal
/// and its pane.
pub proof fn candidates_are_named(target: Seq<char>, candidates: Seq<AgentInfo>, i: int)
    requires
        0 <= i < candidates.len(),
    ensures
        names(agent_ambiguous(target, candidates), candidates[i].terminal_id@),
        names(agent_ambiguous(target, candidates), candidates[i].pane_id@),
        names(agent_name_taken(target, candidates), candidates[i].terminal_id@),
        names(agent_ambiguous(target, candidates), target),
        names(agent_name_taken(target, candidates), target),
        agent_ambiguous(target, candidates).code == "agent_target_ambiguous"@,
        agent_name_taken(target, candidates).code == "agent_name_taken"@,
{
    let agent = candidates[i];
    let parts = candidates.map_values(|agent: AgentInfo| candidate_text(agent));
    let listed = candidates_text(candidates);
    joined_texts_hold_their_parts(parts, "; "@, i);
    assert(parts[i] == candidate_text(agent));
    let rest = " workspace_id="@ + agent.workspace_id@ + " tab_id="@ + agent.tab_id@ + " cwd="@
        + match agent.cwd {
        Some(cwd) => cwd@,
        None => "unknown"@,
    } + " status="@ + crate::local_agents::status_name(agent.agent_status);
    let head = "terminal_id="@ + agent.terminal_id@ + " pane_id="@;
    assert(candidate_text(agent) =~= head + agent.pane_id@ + rest);
    lemma_between(head, agent.pane_id@, rest);
    assert(candidate_text(agent) =~= "terminal_id="@ + agent.terminal_id@ + (" pane_id="@
        + agent.pane_id@ + rest));
    lemma_between("terminal_id="@, agent.terminal_id@, " pane_id="@ + agent.pane_id@ + rest);
    let many = "agent target "@ + target + " is ambiguous; candidates: "@;
    let used = "agent name "@ + target + " is already used; candidates: "@;
    lemma_at_end(many, listed);
    lemma_at_end(used, listed);
    parts_of_parts_are_parts(listed, candidate_text(agent), agent.terminal_id@);
    parts_of_parts_are_parts(listed, candidate_text(agent), agent.pane_id@);
    parts_of_parts_are_parts(many + listed, listed, agent.terminal_id@);
    parts_of_parts_are_parts(many + listed, listed, agent.pane_id@);
    parts_of_parts_are_parts(used + listed, listed, agent.terminal_id@);
    assert(many + listed =~= "agent target "@ + target + (" is ambiguous; candidates: "@ + listed));
    assert(used + listed =~= "agent name "@ + target + (" is already used; candidates: "@ + listed));
    lemma_between("agent target "@, target, " is ambiguous; candidates: "@ + listed);
    lemma_between("agent name "@, target, " is already used; candidates: "@ + listed);
}

/// A refused start has a code for its reason; a place that was not found is named, and a
/// failure to start is told in its own words.
pub proof fn refused_starts_say_why(err: StartErrorView)
    ensures
        match err {
            StartErrorView::InvalidName => start_error(err).code == "invalid_agent_name"@,
            StartErrorView::EmptyArgv => start_error(err).code == "invalid_agent_argv"@,
            StartErrorView::TargetNotFound(target) => start_error(err).code
                == "agent_placement_not_found"@ && names(start_error(err), target),
            StartErrorView::PlacementConflict => start_error(err).code
                == "agent_placement_conflict"@,
            StartErrorView::SpawnFailed(message) => start_error(err).code
                == "agent_start_failed"@ && start_error(err).message == message,
            StartErrorView::DuplicateName(name, candidates) => start_error(err)
                == agent_name_taken(name, candidates),
        },
{
    if let StartErrorView::TargetNotFound(target) = err {
        lemma_between("agent placement target "@, target, " not found"@);
    }
}

// Remote things ----------------------------------------------------------

/// What was not found on a host is named as it was asked for, and each reason for which
/// something is not found there has its own code.
pub proof fn unresolved_targets_are_named(target: SelectorView)
    ensures
        names(agent_lookup_error(AgentLookup::Missing, target), target.shown()),
        names(agent_lookup_error(AgentLookup::Unsupported, target), target.shown()),
        names(workspace_lookup_error(WorkspaceLookup::Missing, target), target.shown()),
        names(tab_lookup_error(TabLookup::Missing, target), target.shown()),
        names(pane_lookup_error(PaneLookup::Missing, target), target.shown()),
        agent_lookup_error(AgentLookup::Missing, target).code == "remote_agent_not_found"@,
        agent_lookup_error(AgentLookup::Unsupported, target).code == "remote_target_error"@,
        workspace_lookup_error(WorkspaceLookup::Missing, target).code
            == "remote_workspace_not_found"@,
        workspace_lookup_error(WorkspaceLookup::NoMetadata, target).code
            == "remote_workspace_unavailable"@,
        workspace_lookup_error(WorkspaceLookup::Unsupported, target).code
            == "remote_target_error"@,
        tab_lookup_error(TabLookup::Missing, target).code == "remote_tab_not_found"@,
        tab_lookup_error(TabLookup::NoMetadata, target).code
            == "remote_tab_metadata_unavailable"@,
        tab_lookup_error(TabLookup::Stale, target).code == "remote_tab_metadata_stale"@,
        tab_lookup_error(TabLookup::Unsupported, target).code == "remote_target_error"@,
        pane_lookup_error(PaneLookup::Missing, target).code == "remote_pane_not_found"@,
        pane_lookup_error(PaneLookup::NoMetadata, target).code
            == "remote_pane_metadata_unavailable"@,
        pane_lookup_error(PaneLookup::Stale, target).code == "remote_pane_metadata_stale"@,
        pane_lookup_error(PaneLookup::Unsupported, target).code == "remote_target_error"@,
{
    lemma_at_end("remote agent target not found: "@, target.shown());
    lemma_at_end("remote selector is not a single-agent target: "@, target.shown());
    lemma_at_end("remote workspace target not found: "@, target.shown());
    lemma_at_end("remote tab target not found: "@, target.shown());
    lemma_at_end("remote pane target not found: "@, target.shown());
}

/// Where several agents of a host were meant, each is named by its terminal.
pub proof fn ambiguous_agents_are_named(target: SelectorView, found: Seq<AgentInfo>, i: int)
    requires
        0 <= i < found.len(),
    ensures
        names(agent_lookup_error(AgentLookup::Many(found), target), found[i].terminal_id@),
        names(agent_lookup_error(AgentLookup::Many(found), target), decimal(found.len())),
        agent_lookup_error(AgentLookup::Many(found), target).code == "remote_agent_ambiguous"@,
{
    let ids = terminal_ids(found);
    let listed = joined(ids, ", "@);
    joined_texts_hold_their_parts(ids, ", "@, i);
    assert(ids[i] == found[i].terminal_id@);
    let head = "remote agent target matched "@ + decimal(found.len()) + " agents: "@;
    lemma_at_end(head, listed);
    parts_of_parts_are_parts(head + listed, listed, found[i].terminal_id@);
    assert(head + listed =~= "remote agent target matched "@ + decimal(found.len()) + (
    " agents: "@ + listed));
    lemma_between("remote agent target matched "@, decimal(found.len()), " agents: "@ + listed);
}

/// How a selector is shown tells what kind of thing it names.
pub proof fn selectors_are_shown_by_their_kind(id: Seq<char>)
    ensures
        stands_at(SelectorView::Label(id).shown(), "Label("@, 0),
        stands_at(SelectorView::Terminal(id).shown(), "Terminal("@, 0),
        stands_at(SelectorView::Pane(id).shown(), "Pane("@, 0),
        stands_at(SelectorView::Tab(id).shown(), "Tab("@, 0),
        stands_at(SelectorView::Workspace(id).shown(), "Workspace("@, 0),
{
    assert(SelectorView::Label(id).shown().subrange(0, "Label("@.len() as int) =~= "Label("@);
    assert(SelectorView::Terminal(id).shown().subrange(0, "Terminal("@.len() as int)
        =~= "Terminal("@);
    assert(SelectorView::Pane(id).shown().subrange(0, "Pane("@.len() as int) =~= "Pane("@);
    assert(SelectorView::Tab(id).shown().subrange(0, "Tab("@.len() as int) =~= "Tab("@);
    assert(SelectorView::Workspace(id).shown().subrange(0, "Workspace("@.len() as int)
        =~= "Workspace("@);
}

/// A host that cannot take a request is named, with the reason: its state, the method
/// that it lacks, its policy, or how many requests are on their way to it already.
pub proof fn unusable_hosts_are_named(
    host: Seq<char>,
    status: Seq<char>,
    noun: Seq<char>,
    method: Seq<char>,
    session: Seq<char>,
    limit: nat,
)
    ensures
        names(not_connected_error(host, status, noun), host),
        names(not_connected_error(host, status, noun), status),
        not_connected_error(host, status, noun).code == "remote_host_not_connected"@,
        names(capability_error(host, method), host),
        names(capability_error(host, method), method),
        capability_error(host, method).code == "remote_capability_unavailable"@,
        names(manual_policy_error(host), host),
        manual_policy_error(host).code == "remote_host_connection_policy_manual"@,
        names(bridge_busy_error(host, session, limit), host),
        names(bridge_busy_error(host, session, limit), decimal(limit)),
        bridge_busy_error(host, session, limit).code == "remote_bridge_busy"@,
{
    let tail = "; wait for it to reconnect before mutating a remote "@ + noun;
    let gone = not_connected_error(host, status, noun).message;
    assert(gone =~= "remote host "@ + host + (" is "@ + status + tail));
    lemma_between("remote host "@, host, " is "@ + status + tail);
    assert(gone =~= ("remote host "@ + host + " is "@) + status + tail);
    lemma_between("remote host "@ + host + " is "@, status, tail);
    let lacks = capability_error(host, method).message;
    let says = " does not advertise federation method "@;
    assert(lacks =~= "remote host "@ + host + (says + method));
    lemma_between("remote host "@, host, says + method);
    lemma_at_end("remote host "@ + host + says, method);
    let by_hand =
        " uses the manual connection policy; connect it before starting an agent on it"@;
    lemma_between("remote host "@, host, by_hand);
    let busy = bridge_busy_error(host, session, limit).message;
    let begins = "remote agent bridge dispatch limit reached for "@;
    let ends = " in-flight dispatches already in progress"@;
    assert(busy =~= begins + host + ("/"@ + session + ": "@ + (decimal(limit) + ends)));
    lemma_between(begins, host, "/"@ + session + ": "@ + (decimal(limit) + ends));
    assert(busy =~= (begins + host + "/"@ + session + ": "@) + decimal(limit) + ends);
    lemma_between(begins + host + "/"@ + session + ": "@, decimal(limit), ends);
}

/// A malformed target is told what it lacks, and an unknown host is named.
pub proof fn bad_routes_are_told(err: RemoteTargetParseError, host: Seq<char>)
    ensures
        route_error(PlannedView::Malformed(err)).code == "remote_target_error"@,
        route_error(PlannedView::UnknownHost(host)).code == "remote_target_error"@,
        names(route_error(PlannedView::UnknownHost(host)), host),
        route_error(PlannedView::Malformed(err)).message == err.text(),
        RemoteTargetParseError::EmptyHost.text() != RemoteTargetParseError::EmptyTarget.text(),
{
    lemma_at_end("unknown remote host: "@, host);
    reveal_strlit("remote target host must not be empty");
    reveal_strlit("remote target must not be empty");
    assert(RemoteTargetParseError::EmptyHost.text().len() == 36);
    assert(RemoteTargetParseError::EmptyTarget.text().len() == 31);
}

/// A connection that failed is told to the client under its own identifier and in its
/// own words; what came back is handed on as it is.
pub proof fn failed_connections_are_told(
    id: String,
    outcome: Result<String, BridgeError>,
    reply: Reply,
)
    requires
        call_ensures(bridge_reply, (id, outcome), reply),
    ensures
        match outcome {
            Ok(text) => reply is Forwarded && reply->text@ == text@,
            Err(err) => reply is Error && reply->Error_id == id && reply->Error_error.message@
                == err.message@ && reply->Error_error.code@ == "remote_request_failed"@,
        },
{
}

// Streams ----------------------------------------------------------------

/// A stream that could not be opened is told at which step, and why.
pub proof fn failed_openings_say_why(step: OpeningStep, message: &str, end: StreamEnd)
    requires
        call_ensures(opening_failed, (step, message), end),
    ensures
        end@ is Closed,
        contains_part(end@->Closed_0, message@),
        step is Connect ==> contains_part(end@->Closed_0, "projection stream connect failed: "@),
        step is SendHello ==> contains_part(end@->Closed_0, "projection handshake send failed: "@),
        step is SendRequest ==> contains_part(
            end@->Closed_0,
            "projection stream request failed: "@,
        ),
        step is CloneWriter ==> contains_part(
            end@->Closed_0,
            "projection stream clone failed: "@,
        ),
{
    let head = crate::projection_stream::step_failure(step);
    lemma_at_end(head, message@);
    lemma_between(Seq::empty(), head, message@);
    assert(Seq::<char>::empty() + head + message@ =~= head + message@);
}

proof fn lemma_digits_end(a: Seq<char>, b: Seq<char>, x: Seq<char>, y: Seq<char>)
    requires
        a + seq!['-'] + x == b + seq!['-'] + y,
        !a.contains('-'),
        !b.contains('-'),
    ensures
        a == b,
        x == y,
{
    let left = a + seq!['-'] + x;
    let right = b + seq!['-'] + y;
    if a.len() < b.len() {
        assert(left[a.len() as int] == '-');
        assert(right[a.len() as int] == b[a.len() as int]);
        assert(b.contains('-'));
    }
    if b.len() < a.len() {
        assert(right[b.len() as int] == '-');
        assert(left[b.len() as int] == a[b.len() as int]);
        assert(a.contains('-'));
    }
    assert forall|i: int| 0 <= i < a.len() implies a[i] == b[i] by {
        assert(left[i] == right[i]);
    }
    assert(a =~= b);
    assert(x.len() == left.len() - a.len() - 1 && y.len() == right.len() - b.len() - 1);
    assert forall|i: int| 0 <= i < x.len() implies x[i] == y[i] by {
        let at = a.len() + 1 + i;
        assert(left[at] == x[i]);
        assert(right[at] == y[i]);
    }
    assert(x =~= y);
}

/// No two processes and no two generations share a socket's name.
#[verifier::spinoff_prover]
pub proof fn sockets_are_named_apart(
    process_id: u32,
    generation: u64,
    other_process: u32,
    other_generation: u64,
    name: String,
    other: String,
)
    requires
        call_ensures(projection_socket_name, (process_id, generation), name),
        call_ensures(projection_socket_name, (other_process, other_generation), other),
        name@ == other@,
    ensures
        process_id == other_process && generation == other_generation,
{
    let head = "herdr-projection-"@;
    let end = ".sock"@;
    let p = decimal(process_id as nat);
    let q = decimal(other_process as nat);
    let g = decimal(generation as nat);
    let h = decimal(other_generation as nat);
    numbers_read_back(process_id as nat);
    numbers_read_back(other_process as nat);
    assert(!p.contains('-'));
    assert(!q.contains('-'));
    reveal_strlit("-");
    assert("-"@ =~= seq!['-']);
    let left = p + seq!['-'] + (g + end);
    let right = q + seq!['-'] + (h + end);
    assert(name@ =~= head + left);
    assert(other@ =~= head + right);
    assert(left =~= (head + left).skip(head.len() as int));
    assert(right =~= (head + right).skip(head.len() as int));
    lemma_digits_end(p, q, g + end, h + end);
    assert(g =~= (g + end).take(g.len() as int));
    assert(h =~= (h + end).take(h.len() as int));
    digits_tell_numbers_apart(process_id as nat, other_process as nat);
    digits_tell_numbers_apart(generation as nat, other_generation as nat);
}

} // verus!
