//! Answers of remote hosts, rewritten for the local client, and the errors that
//! every routed method shares.
use vstd::prelude::*;
use crate::json::{
    is_object, json_parse, json_print, json_tree, member, parse_value, print_value, set_member, text_of,
    text_value, JsonTree,
};
use crate::remote_source::{status_of, HostView, RemoteHostKey, RemoteSources};
use crate::remote_target::{PlannedView, RemoteHostConfig, RemoteRoutePlanError};
use crate::schema::{error_body, ErrorBody, ErrorText, Reply, ReplyView};
use crate::text::{concat2, concat3, concat4, concat5};

verus! {

/// What sort of failure a [`BridgeError`] is.
#[derive(Debug, Clone, Copy, PartialEq, Eq, Structural)]
pub enum BridgeErrorKind {
    /// The other side answered with something that is no API response.
    InvalidData,
    /// Anything else.
    Other,
}

/// Why a request to a remote host brought back no usable answer.
#[derive(Debug, PartialEq, Eq)]
pub struct BridgeError {
    pub kind: BridgeErrorKind,
    pub message: String,
}

/// What a [`BridgeError`] holds.
pub struct BridgeErrorView {
    pub kind: BridgeErrorKind,
    pub message: Seq<char>,
}

impl View for BridgeError {
    type V = BridgeErrorView;

    open spec fn view(&self) -> BridgeErrorView {
        BridgeErrorView { kind: self.kind, message: self.message@ }
    }
}

pub open spec fn invalid_data(message: Seq<char>) -> BridgeErrorView {
    BridgeErrorView { kind: BridgeErrorKind::InvalidData, message }
}

fn invalid(message: String) -> (err: BridgeError)
    ensures
        err@ == invalid_data(message@),
{
    BridgeError { kind: BridgeErrorKind::InvalidData, message }
}

/// An API response for the client that sent `id`: everything stays as the remote
/// host answered but for the `id`. A value that is no object, or an object with
/// neither a result nor an error, is no API response.
pub open spec fn response_for(tree: JsonTree, id: Seq<char>) -> Result<JsonTree, BridgeErrorView> {
    if !(tree is Object) {
        Err(invalid_data("remote API response must be a JSON object"@))
    } else if tree.member("result"@) is None && tree.member("error"@) is None {
        Err(invalid_data("remote API response must contain result or error"@))
    } else {
        Ok(tree.with_member("id"@, JsonTree::Text(id)))
    }
}

/// The response that a text holds, for the client that sent `id`.
pub open spec fn text_response_for(text: Seq<char>, id: Seq<char>) -> Result<
    JsonTree,
    BridgeErrorView,
> {
    match json_parse(text) {
        Err(err) => Err(invalid_data("invalid remote API response JSON: "@ + err)),
        Ok(tree) => response_for(tree, id),
    }
}

/// A response as text.
pub open spec fn printed(response: Result<JsonTree, BridgeErrorView>) -> Result<
    Seq<char>,
    BridgeErrorView,
> {
    match response {
        Err(err) => Err(err),
        Ok(tree) => match json_print(tree) {
            Ok(text) => Ok(text),
            Err(err) => Err(BridgeErrorView { kind: BridgeErrorKind::Other, message: err }),
        },
    }
}

/// A text result or an error, seen as what they hold.
pub open spec fn text_result(result: Result<String, BridgeError>) -> Result<
    Seq<char>,
    BridgeErrorView,
> {
    match result {
        Ok(text) => Ok(text@),
        Err(err) => Err(err@),
    }
}

/// Puts the local request's `id` into a response.
pub fn set_response_id(value: serde_json::Value, id: &str) -> (response: Result<
    serde_json::Value,
    BridgeError,
>)
    ensures
        match response {
            Ok(response) => response_for(json_tree(value), id@) == Ok::<JsonTree, BridgeErrorView>(
                json_tree(response),
            ),
            Err(err) => response_for(json_tree(value), id@) == Err::<JsonTree, BridgeErrorView>(
                err@,
            ),
        },
{
    if !is_object(&value) {
        return Err(invalid("remote API response must be a JSON object".to_owned()));
    }
    if member(&value, "result").is_none() && member(&value, "error").is_none() {
        return Err(invalid("remote API response must contain result or error".to_owned()));
    }
    let mut response = value;
    set_member(&mut response, "id", text_value(id.to_owned()));
    Ok(response)
}

/// Reads a remote answer and puts the local request's `id` into it.
pub fn rewrite_remote_response_id_value(response: &str, id: &str) -> (rewritten: Result<
    serde_json::Value,
    BridgeError,
>)
    ensures
        match rewritten {
            Ok(value) => text_response_for(response@, id@) == Ok::<JsonTree, BridgeErrorView>(
                json_tree(value),
            ),
            Err(err) => text_response_for(response@, id@) == Err::<JsonTree, BridgeErrorView>(err@),
        },
{
    match parse_value(response) {
        Err(err) => Err(invalid(concat2("invalid remote API response JSON: ", err.as_str()))),
        Ok(value) => set_response_id(value, id),
    }
}

/// Writes a response.
pub fn print_response(value: &serde_json::Value) -> (text: Result<String, BridgeError>)
    ensures
        text_result(text) == printed(Ok(json_tree(*value))),
{
    match print_value(value) {
        Ok(text) => Ok(text),
        Err(message) => Err(BridgeError { kind: BridgeErrorKind::Other, message }),
    }
}

/// Rewrites the `id` of a remote answer for the local client.
pub fn rewrite_remote_response_id(response: &str, id: &str) -> (rewritten: Result<
    String,
    BridgeError,
>)
    ensures
        text_result(rewritten) == printed(text_response_for(response@, id@)),
{
    match rewrite_remote_response_id_value(response, id) {
        Ok(value) => print_response(&value),
        Err(err) => Err(err),
    }
}

/// A text label with its host in front; anything else as it is.
pub open spec fn label_on_host(agent: JsonTree, field: Seq<char>, host: Seq<char>) -> JsonTree {
    match agent.member(field) {
        Some(JsonTree::Text(label)) => agent.with_member(
            field,
            JsonTree::Text(host + "/"@ + label),
        ),
        _ => agent,
    }
}

/// A started agent, with every label of it that is text carrying its host.
pub open spec fn agent_on_host(agent: JsonTree, host: Seq<char>) -> JsonTree {
    label_on_host(
        label_on_host(
            label_on_host(label_on_host(agent, "name"@, host), "display_agent"@, host),
            "agent"@,
            host,
        ),
        "title"@,
        host,
    )
}

/// A response in which a started agent carries its host; any other response is
/// left as it is.
pub open spec fn started_on_host(response: JsonTree, host: Seq<char>) -> JsonTree {
    match response.member("result"@) {
        Some(result) => match result.member("agent"@) {
            Some(agent) => if agent is Object && result.member("type"@) == Some(
                JsonTree::Text("agent_started"@),
            ) {
                response.with_member(
                    "result"@,
                    result.with_member("agent"@, agent_on_host(agent, host)),
                )
            } else {
                response
            },
            None => response,
        },
        None => response,
    }
}

/// Puts the host in front of one label of an agent, where it is text.
pub fn prefix_remote_agent_label_field(agent: &mut serde_json::Value, field: &str, host: &str)
    requires
        json_tree(*old(agent)) is Object,
    ensures
        json_tree(*final(agent)) == label_on_host(json_tree(*old(agent)), field@, host@),
        json_tree(*final(agent)) is Object,
{
    if let Some(value) = member(agent, field) {
        if let Some(label) = text_of(&value) {
            let qualified = concat3(host, "/", label.as_str());
            set_member(agent, field, text_value(qualified));
        }
    }
}

/// Puts the host in front of a started agent's labels.
pub fn qualify_started_agent(response: serde_json::Value, host: &str) -> (qualified:
    serde_json::Value)
    ensures
        json_tree(qualified) == started_on_host(json_tree(response), host@),
{
    let mut response = response;
    if let Some(result) = member(&response, "result") {
        let started = match member(&result, "type") {
            Some(kind) => match text_of(&kind) {
                Some(kind) => crate::text::same_text(kind.as_str(), "agent_started"),
                None => false,
            },
            None => false,
        };
        if started {
            if let Some(agent) = member(&result, "agent") {
                if is_object(&agent) {
                    let mut result = result;
                    let mut agent = agent;
                    prefix_remote_agent_label_field(&mut agent, "name", host);
                    prefix_remote_agent_label_field(&mut agent, "display_agent", host);
                    prefix_remote_agent_label_field(&mut agent, "agent", host);
                    prefix_remote_agent_label_field(&mut agent, "title", host);
                    set_member(&mut result, "agent", agent);
                    set_member(&mut response, "result", result);
                }
            }
        }
    }
    response
}

/// The response to a start on a host, for the client that sent `id`.
pub open spec fn start_response_for(text: Seq<char>, id: Seq<char>, host: Seq<char>) -> Result<
    JsonTree,
    BridgeErrorView,
> {
    match text_response_for(text, id) {
        Ok(tree) => Ok(started_on_host(tree, host)),
        Err(err) => Err(err),
    }
}

/// Rewrites the answer to a start on a host: the local `id`, and labels that
/// carry the host.
pub fn rewrite_remote_agent_start_response(response: &str, id: &str, host: &str) -> (rewritten:
    Result<String, BridgeError>)
    ensures
        text_result(rewritten) == printed(start_response_for(response@, id@, host@)),
{
    match rewrite_remote_response_id_value(response, id) {
        Ok(value) => print_response(&qualify_started_agent(value, host)),
        Err(err) => Err(err),
    }
}

/// The code of an error response; `None` for anything else.
pub open spec fn error_code_of(parsed: Result<JsonTree, Seq<char>>) -> Option<Seq<char>> {
    match parsed {
        Ok(tree) => match tree.member("error"@) {
            Some(error) => match error.member("code"@) {
                Some(JsonTree::Text(code)) => Some(code),
                _ => None,
            },
            None => None,
        },
        Err(_) => None,
    }
}

/// The code of a parsed error response.
pub fn response_value_error_code(value: &serde_json::Value) -> (code: Option<String>)
    ensures
        match code {
            Some(code) => error_code_of(Ok(json_tree(*value))) == Some(code@),
            None => error_code_of(Ok(json_tree(*value))) is None,
        },
{
    match member(value, "error") {
        Some(error) => match member(&error, "code") {
            Some(code) => text_of(&code),
            None => None,
        },
        None => None,
    }
}

/// The code of an error response. `None` for a success and for a text that is no
/// JSON: never a message or any other part of the response.
pub fn remote_response_error_code(response: &str) -> (code: Option<String>)
    ensures
        match code {
            Some(code) => error_code_of(json_parse(response@)) == Some(code@),
            None => error_code_of(json_parse(response@)) is None,
        },
{
    match parse_value(response) {
        Ok(value) => response_value_error_code(&value),
        Err(_) => None,
    }
}

/// The refusal of a target that cannot be routed.
pub open spec fn route_error(view: PlannedView) -> ErrorText {
    match view {
        PlannedView::Malformed(err) => ErrorText {
            code: "remote_target_error"@,
            message: err.text(),
        },
        PlannedView::UnknownHost(host) => ErrorText {
            code: "remote_target_error"@,
            message: "unknown remote host: "@ + host,
        },
        _ => ErrorText { code: Seq::empty(), message: Seq::empty() },
    }
}

pub open spec fn plan_error_view(err: RemoteRoutePlanError) -> PlannedView {
    match err {
        RemoteRoutePlanError::Parse(err) => PlannedView::Malformed(err),
        RemoteRoutePlanError::UnknownHost(host) => PlannedView::UnknownHost(host@),
    }
}

pub fn remote_route_plan_error_body(err: RemoteRoutePlanError) -> (body: ErrorBody)
    ensures
        body@ == route_error(plan_error_view(err)),
{
    match err {
        RemoteRoutePlanError::Parse(err) => error_body("remote_target_error", err.message()),
        RemoteRoutePlanError::UnknownHost(host) => error_body(
            "remote_target_error",
            concat2("unknown remote host: ", host.as_str()),
        ),
    }
}

/// The refusal of a method that the host does not advertise.
pub open spec fn capability_error(host: Seq<char>, method: Seq<char>) -> ErrorText {
    ErrorText {
        code: "remote_capability_unavailable"@,
        message: "remote host "@ + host + " does not advertise federation method "@ + method,
    }
}

pub fn remote_capability_unavailable_body(host: &str, method: &str) -> (body: ErrorBody)
    ensures
        body@ == capability_error(host@, method@),
{
    error_body(
        "remote_capability_unavailable",
        concat4("remote host ", host, " does not advertise federation method ", method),
    )
}

/// The refusal of a change on a host that is not connected.
pub open spec fn not_connected_error(
    host: Seq<char>,
    status: Seq<char>,
    noun: Seq<char>,
) -> ErrorText {
    ErrorText {
        code: "remote_host_not_connected"@,
        message: "remote host "@ + host + " is "@ + status
            + "; wait for it to reconnect before mutating a remote "@ + noun,
    }
}

pub fn remote_host_not_connected_body(host: &str, status: &str, noun: &str) -> (body: ErrorBody)
    ensures
        body@ == not_connected_error(host@, status@, noun@),
{
    let head = concat5(
        "remote host ",
        host,
        " is ",
        status,
        "; wait for it to reconnect before mutating a remote ",
    );
    error_body("remote_host_not_connected", concat2(head.as_str(), noun))
}

/// How a host that is not connected is described: one about which nothing was
/// reported is disconnected.
pub open spec fn status_word(hosts: Seq<HostView>, key: (Seq<char>, Seq<char>)) -> Seq<char> {
    match status_of(hosts, key) {
        Some(status) => match status.stale_text() {
            Some(text) => text,
            None => "disconnected"@,
        },
        None => "disconnected"@,
    }
}

/// Refuses unless the host is connected.
pub fn remote_host_connected_or_error(
    sources: &RemoteSources,
    host: &RemoteHostConfig,
    noun: &str,
) -> (key: Result<RemoteHostKey, ErrorBody>)
    ensures
        match key {
            Ok(key) => crate::remote_source::connected(sources@, host.spec_key()@) && key
                == host.spec_key(),
            Err(body) => !crate::remote_source::connected(sources@, host.spec_key()@) && body@
                == not_connected_error(
                host.name@,
                status_word(sources@, host.spec_key()@),
                noun@,
            ),
        },
{
    let key = host.key();
    let label = match sources.host_status(&key) {
        Some(status) => {
            if status.is_connected() {
                return Ok(key);
            }
            match status.stale_label() {
                Some(label) => label,
                None => "disconnected",
            }
        },
        None => "disconnected",
    };
    Err(remote_host_not_connected_body(host.name.as_str(), label, noun))
}

/// The reply to request `id` after a remote call: the rewritten answer, or a
/// failed request.
pub open spec fn is_bridge_reply(
    reply: Reply,
    id: String,
    outcome: Result<Seq<char>, BridgeErrorView>,
) -> bool {
    match outcome {
        Ok(text) => reply matches Reply::Forwarded { text: forwarded } && forwarded@ == text,
        Err(err) => reply.is_error(
            id,
            ErrorText { code: "remote_request_failed"@, message: err.message },
        ),
    }
}

/// The reply to request `id` after a remote call.
pub open spec fn bridge_reply_view(
    id: String,
    outcome: Result<Seq<char>, BridgeErrorView>,
) -> ReplyView {
    match outcome {
        Ok(text) => ReplyView::Forwarded { text },
        Err(err) => ReplyView::Error {
            id,
            error: ErrorText { code: "remote_request_failed"@, message: err.message },
        },
    }
}

/// Turns the outcome of a remote call into the reply to request `id`.
pub fn bridge_reply(id: String, outcome: Result<String, BridgeError>) -> (reply: Reply)
    ensures
        is_bridge_reply(reply, id, text_result(outcome)),
        reply@ == bridge_reply_view(id, text_result(outcome)),
{
    match outcome {
        Ok(text) => Reply::Forwarded { text },
        Err(err) => Reply::Error { id, error: error_body("remote_request_failed", err.message) },
    }
}

/// Rewriting an answer changes its `id` and nothing else: every other member
/// stays, and a result or an error stays as the host gave it.
pub proof fn rewriting_keeps_the_body(tree: JsonTree, id: Seq<char>, key: Seq<char>)
    requires
        response_for(tree, id) is Ok,
    ensures
        response_for(tree, id)->Ok_0.member("id"@) == Some(JsonTree::Text(id)),
        key != "id"@ ==> response_for(tree, id)->Ok_0.member(key) == tree.member(key),
        response_for(tree, id)->Ok_0.member("result"@) == tree.member("result"@),
        response_for(tree, id)->Ok_0.member("error"@) == tree.member("error"@),
{
    reveal_strlit("id");
    reveal_strlit("result");
    reveal_strlit("error");
    assert("result"@.len() != "id"@.len());
    assert("error"@.len() != "id"@.len());
}

/// Rewriting twice is rewriting with the later `id`.
pub proof fn rewriting_again_replaces_the_id(tree: JsonTree, first: Seq<char>, second: Seq<char>)
    requires
        response_for(tree, first) is Ok,
    ensures
        response_for(response_for(tree, first)->Ok_0, second) == response_for(tree, second),
{
    rewriting_keeps_the_body(tree, first, "result"@);
    let members = tree->Object_0;
    assert(members.insert("id"@, JsonTree::Text(first)).insert("id"@, JsonTree::Text(second))
        =~= members.insert("id"@, JsonTree::Text(second)));
}

/// Qualifying a started agent leaves an error response as it is.
pub proof fn errors_are_never_qualified(response: JsonTree, host: Seq<char>)
    requires
        response.member("result"@) is None,
    ensures
        started_on_host(response, host) == response,
{
}

} // verus!
