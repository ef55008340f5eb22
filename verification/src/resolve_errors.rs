//! The refusals of targets that lead to nothing that can be acted on.
use vstd::prelude::*;
use crate::remote_target::{
    AgentLookup, PaneLookup, RemoteAgentResolveError, RemotePaneResolveError, RemoteTabResolveError,
    RemoteTargetSelector, RemoteWorkspaceResolveError, SelectorView, TabLookup, WorkspaceLookup,
};
use crate::schema::{error_body, AgentInfo, ErrorBody, ErrorText};
use crate::text::{concat2, concat4, decimal, decimal_text, join, joined, texts};

verus! {

/// The terminals of some agents, in their order.
pub open spec fn terminal_ids(agents: Seq<AgentInfo>) -> Seq<Seq<char>> {
    agents.map_values(|agent: AgentInfo| agent.terminal_id@)
}

/// The refusal of a selector that names no single agent.
pub open spec fn agent_lookup_error(lookup: AgentLookup, target: SelectorView) -> ErrorText {
    match lookup {
        AgentLookup::Missing => ErrorText {
            code: "remote_agent_not_found"@,
            message: "remote agent target not found: "@ + target.shown(),
        },
        AgentLookup::Many(candidates) => ErrorText {
            code: "remote_agent_ambiguous"@,
            message: "remote agent target matched "@ + decimal(candidates.len()) + " agents: "@
                + joined(terminal_ids(candidates), ", "@),
        },
        _ => ErrorText {
            code: "remote_target_error"@,
            message: "remote selector is not a single-agent target: "@ + target.shown(),
        },
    }
}

/// The lookup that an agent resolve error reports.
pub open spec fn agent_error_lookup(err: RemoteAgentResolveError) -> AgentLookup {
    match err {
        RemoteAgentResolveError::NotFound { .. } => AgentLookup::Missing,
        RemoteAgentResolveError::Ambiguous { candidates, .. } => AgentLookup::Many(candidates@),
        RemoteAgentResolveError::UnsupportedSelector { .. } => AgentLookup::Unsupported,
    }
}

pub open spec fn agent_error_target(err: RemoteAgentResolveError) -> RemoteTargetSelector {
    match err {
        RemoteAgentResolveError::NotFound { target } => target,
        RemoteAgentResolveError::Ambiguous { target, .. } => target,
        RemoteAgentResolveError::UnsupportedSelector { target } => target,
    }
}

pub fn remote_agent_resolve_error_body(err: RemoteAgentResolveError) -> (body: ErrorBody)
    ensures
        body@ == agent_lookup_error(agent_error_lookup(err), agent_error_target(err)@),
{
    match err {
        RemoteAgentResolveError::NotFound { target } => error_body(
            "remote_agent_not_found",
            concat2("remote agent target not found: ", target.show().as_str()),
        ),
        RemoteAgentResolveError::Ambiguous { candidates, .. } => {
            let mut ids: Vec<String> = Vec::new();
            let mut i: usize = 0;
            while i < candidates.len()
                invariant
                    i <= candidates@.len(),
                    ids@.len() == i,
                    forall|j: int|
                        0 <= j < i ==> (#[trigger] ids@[j])@ == candidates@[j].terminal_id@,
                decreases candidates@.len() - i,
            {
                ids.push(candidates[i].terminal_id.clone());
                i = i + 1;
            }
            assert(texts(ids@) =~= terminal_ids(candidates@));
            let count = decimal_text(candidates.len());
            error_body(
                "remote_agent_ambiguous",
                concat4(
                    "remote agent target matched ",
                    count.as_str(),
                    " agents: ",
                    join(&ids, ", ").as_str(),
                ),
            )
        },
        RemoteAgentResolveError::UnsupportedSelector { target } => error_body(
            "remote_target_error",
            concat2("remote selector is not a single-agent target: ", target.show().as_str()),
        ),
    }
}

/// The refusal of a selector that names no known workspace.
pub open spec fn workspace_lookup_error(lookup: WorkspaceLookup, target: SelectorView) -> ErrorText {
    match lookup {
        WorkspaceLookup::Missing => ErrorText {
            code: "remote_workspace_not_found"@,
            message: "remote workspace target not found: "@ + target.shown(),
        },
        WorkspaceLookup::NoMetadata => ErrorText {
            code: "remote_workspace_unavailable"@,
            message: "remote workspace metadata is unavailable for "@ + target.shown(),
        },
        _ => ErrorText {
            code: "remote_target_error"@,
            message: "remote selector is not a workspace target: "@ + target.shown(),
        },
    }
}

pub open spec fn workspace_error_lookup(err: RemoteWorkspaceResolveError) -> WorkspaceLookup {
    match err {
        RemoteWorkspaceResolveError::NotFound { .. } => WorkspaceLookup::Missing,
        RemoteWorkspaceResolveError::MetadataUnavailable { .. } => WorkspaceLookup::NoMetadata,
        RemoteWorkspaceResolveError::UnsupportedSelector { .. } => WorkspaceLookup::Unsupported,
    }
}

pub open spec fn workspace_error_target(err: RemoteWorkspaceResolveError) -> RemoteTargetSelector {
    match err {
        RemoteWorkspaceResolveError::NotFound { target } => target,
        RemoteWorkspaceResolveError::MetadataUnavailable { target } => target,
        RemoteWorkspaceResolveError::UnsupportedSelector { target } => target,
    }
}

pub fn remote_workspace_resolve_error_body(err: RemoteWorkspaceResolveError) -> (body: ErrorBody)
    ensures
        body@ == workspace_lookup_error(workspace_error_lookup(err), workspace_error_target(err)@),
{
    match err {
        RemoteWorkspaceResolveError::NotFound { target } => error_body(
            "remote_workspace_not_found",
            concat2("remote workspace target not found: ", target.show().as_str()),
        ),
        RemoteWorkspaceResolveError::MetadataUnavailable { target } => error_body(
            "remote_workspace_unavailable",
            concat2("remote workspace metadata is unavailable for ", target.show().as_str()),
        ),
        RemoteWorkspaceResolveError::UnsupportedSelector { target } => error_body(
            "remote_target_error",
            concat2("remote selector is not a workspace target: ", target.show().as_str()),
        ),
    }
}

/// The refusal of a selector that names no tab that can be acted on.
pub open spec fn tab_lookup_error(lookup: TabLookup, target: SelectorView) -> ErrorText {
    match lookup {
        TabLookup::Missing => ErrorText {
            code: "remote_tab_not_found"@,
            message: "remote tab target not found: "@ + target.shown(),
        },
        TabLookup::NoMetadata => ErrorText {
            code: "remote_tab_metadata_unavailable"@,
            message: "remote tab metadata is unavailable for "@ + target.shown(),
        },
        TabLookup::Stale => ErrorText {
            code: "remote_tab_metadata_stale"@,
            message: "remote tab metadata is stale for "@ + target.shown(),
        },
        _ => ErrorText {
            code: "remote_target_error"@,
            message: "remote selector is not a tab target: "@ + target.shown(),
        },
    }
}

pub open spec fn tab_error_lookup(err: RemoteTabResolveError) -> TabLookup {
    match err {
        RemoteTabResolveError::NotFound { .. } => TabLookup::Missing,
        RemoteTabResolveError::MetadataUnavailable { .. } => TabLookup::NoMetadata,
        RemoteTabResolveError::MetadataStale { .. } => TabLookup::Stale,
        RemoteTabResolveError::UnsupportedSelector { .. } => TabLookup::Unsupported,
    }
}

pub open spec fn tab_error_target(err: RemoteTabResolveError) -> RemoteTargetSelector {
    match err {
        RemoteTabResolveError::NotFound { target } => target,
        RemoteTabResolveError::MetadataUnavailable { target } => target,
        RemoteTabResolveError::MetadataStale { target } => target,
        RemoteTabResolveError::UnsupportedSelector { target } => target,
    }
}

pub fn remote_tab_resolve_error_body(err: RemoteTabResolveError) -> (body: ErrorBody)
    ensures
        body@ == tab_lookup_error(tab_error_lookup(err), tab_error_target(err)@),
{
    match err {
        RemoteTabResolveError::NotFound { target } => error_body(
            "remote_tab_not_found",
            concat2("remote tab target not found: ", target.show().as_str()),
        ),
        RemoteTabResolveError::MetadataUnavailable { target } => error_body(
            "remote_tab_metadata_unavailable",
            concat2("remote tab metadata is unavailable for ", target.show().as_str()),
        ),
        RemoteTabResolveError::MetadataStale { target } => error_body(
            "remote_tab_metadata_stale",
            concat2("remote tab metadata is stale for ", target.show().as_str()),
        ),
        RemoteTabResolveError::UnsupportedSelector { target } => error_body(
            "remote_target_error",
            concat2("remote selector is not a tab target: ", target.show().as_str()),
        ),
    }
}

/// The refusal of a selector that names no pane that can be acted on.
pub open spec fn pane_lookup_error(lookup: PaneLookup, target: SelectorView) -> ErrorText {
    match lookup {
        PaneLookup::Missing => ErrorText {
            code: "remote_pane_not_found"@,
            message: "remote pane target not found: "@ + target.shown(),
        },
        PaneLookup::NoMetadata => ErrorText {
            code: "remote_pane_metadata_unavailable"@,
            message: "remote pane metadata is unavailable for "@ + target.shown(),
        },
        PaneLookup::Stale => ErrorText {
            code: "remote_pane_metadata_stale"@,
            message: "remote pane metadata is stale for "@ + target.shown(),
        },
        _ => ErrorText {
            code: "remote_target_error"@,
            message: "remote selector is not a pane target: "@ + target.shown(),
        },
    }
}

pub open spec fn pane_error_lookup(err: RemotePaneResolveError) -> PaneLookup {
    match err {
        RemotePaneResolveError::NotFound { .. } => PaneLookup::Missing,
        RemotePaneResolveError::MetadataUnavailable { .. } => PaneLookup::NoMetadata,
        RemotePaneResolveError::MetadataStale { .. } => PaneLookup::Stale,
        RemotePaneResolveError::UnsupportedSelector { .. } => PaneLookup::Unsupported,
    }
}

pub open spec fn pane_error_target(err: RemotePaneResolveError) -> RemoteTargetSelector {
    match err {
        RemotePaneResolveError::NotFound { target } => target,
        RemotePaneResolveError::MetadataUnavailable { target } => target,
        RemotePaneResolveError::MetadataStale { target } => target,
        RemotePaneResolveError::UnsupportedSelector { target } => target,
    }
}

pub fn remote_pane_resolve_error_body(err: RemotePaneResolveError) -> (body: ErrorBody)
    ensures
        body@ == pane_lookup_error(pane_error_lookup(err), pane_error_target(err)@),
{
    match err {
        RemotePaneResolveError::NotFound { target } => error_body(
            "remote_pane_not_found",
            concat2("remote pane target not found: ", target.show().as_str()),
        ),
        RemotePaneResolveError::MetadataUnavailable { target } => error_body(
            "remote_pane_metadata_unavailable",
            concat2("remote pane metadata is unavailable for ", target.show().as_str()),
        ),
        RemotePaneResolveError::MetadataStale { target } => error_body(
            "remote_pane_metadata_stale",
            concat2("remote pane metadata is stale for ", target.show().as_str()),
        ),
        RemotePaneResolveError::UnsupportedSelector { target } => error_body(
            "remote_target_error",
            concat2("remote selector is not a pane target: ", target.show().as_str()),
        ),
    }
}

} // verus!
