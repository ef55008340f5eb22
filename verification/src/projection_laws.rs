//! What a projected workspace comes to: which streams are wanted for its panes, which
//! of the open ones stay, and what is shown of each terminal.
use vstd::prelude::*;
use crate::projection_frames::{frame_is, FrameView, FramesView};
use crate::projection_plan::{AdmissionView, DesiredStream, RemoteProjectionHitArea};
use crate::projection_runtime::{
    after_change, after_input, finished_serials, focused_capture, fresh_stream, input_decision,
    reconciled, resize_targets, running_streams, stream_numbered, stream_of, takes_input,
    InputDecision, ProjectionStreamHandle, ResizeTarget, RuntimeView, StepView, StreamChange,
};
use crate::remote_source::RemoteSpaceKey;
use crate::remote_target::RemoteHostConfig;
use crate::search::{first_where, lemma_first_found, lemma_first_holds};
use crate::target_laws::hosts_go_by_their_names;

verus! {

// Which streams stay -----------------------------------------------------

/// Two streams are for the same terminal of the same workspace, in the same role.
pub open spec fn same_purpose(a: DesiredStream, b: DesiredStream) -> bool {
    &&& a.key.host@ == b.key.host@
    &&& a.key.session@ == b.key.session@
    &&& a.key.workspace_id@ == b.key.workspace_id@
    &&& a.key.terminal_id@ == b.key.terminal_id@
    &&& a.role == b.role
}

/// What is open was opened for the workspace that is wanted, over the prepared state
/// that is wanted, and for the same streams in the same order.
pub open spec fn serves_wish(runtime: RuntimeView, wanted: AdmissionView) -> bool {
    &&& wanted is Ready
    &&& runtime.source matches Some(source) && source.host@ == wanted->Ready_source.host@
        && source.session@ == wanted->Ready_source.session@ && source.workspace_id@
        == wanted->Ready_source.workspace_id@
    &&& runtime.signature matches Some(opened) && opened.source.host@ == wanted->Ready_source.host@
        && opened.source.session@ == wanted->Ready_source.session@ && opened.source.workspace_id@
        == wanted->Ready_source.workspace_id@ && opened.prepared_shell_path@
        == wanted->Ready_prepared.shell_path@ && opened.streams.len()
        == wanted->Ready_streams.len() && forall|i: int|
        0 <= i < opened.streams.len() ==> same_purpose(
            #[trigger] opened.streams[i],
            wanted->Ready_streams[i],
        )
}

/// What is open stays exactly where it serves the wish: same workspace, same prepared
/// state, and each stream for the same terminal in the same role. Then only sizes may
/// have changed: with the same sizes the ended streams are let go, with others the
/// streams are told.
#[verifier::spinoff_prover]
pub proof fn streams_stay_where_they_serve(
    runtime: RuntimeView,
    frames: FramesView,
    wanted: AdmissionView,
    hosts: Seq<RemoteHostConfig>,
    streaming: bool,
)
    requires
        wanted is Ready,
    ensures
        ({
            let (after, _, torn, step) = reconciled(runtime, frames, wanted, hosts, streaming);
            let streams = wanted->Ready_streams;
            &&& (step is Prune || step is Resize) == serves_wish(runtime, wanted)
            &&& serves_wish(runtime, wanted) ==> {
                &&& !torn
                &&& (step is Prune) == (forall|i: int|
                    0 <= i < streams.len() ==> (#[trigger] streams[i]).cols
                        == runtime.signature->0.streams[i].cols && streams[i].rows
                        == runtime.signature->0.streams[i].rows)
            }
            &&& !serves_wish(runtime, wanted) ==> {
                &&& torn
                &&& step is Open || step is Idle
                &&& after.streams.len() == 0
                &&& !after.bridge_open
            }
        }),
{
    let streams = wanted->Ready_streams;
    if serves_wish(runtime, wanted) {
        let opened = runtime.signature->0;
        assert forall|i: int| 0 <= i < opened.streams.len() implies (#[trigger] opened.streams[i]).key@
            == streams[i].key@ && opened.streams[i].role == streams[i].role by {
            assert(same_purpose(opened.streams[i], streams[i]));
        }
        if forall|i: int|
            0 <= i < streams.len() ==> (#[trigger] streams[i]).cols == opened.streams[i].cols
                && streams[i].rows == opened.streams[i].rows {
            assert forall|i: int| 0 <= i < opened.streams.len() implies
                (#[trigger] opened.streams[i]).cols == streams[i].cols && opened.streams[i].rows
                == streams[i].rows by {
                assert(streams[i].cols == opened.streams[i].cols);
            }
        } else {
            let i = choose|i: int|
                0 <= i < streams.len() && !((#[trigger] streams[i]).cols == opened.streams[i].cols
                    && streams[i].rows == opened.streams[i].rows);
            assert(opened.streams[i].cols != streams[i].cols || opened.streams[i].rows
                != streams[i].rows);
        }
    } else if runtime.signature is Some {
        let opened = runtime.signature->0;
        if opened.streams.len() == streams.len() && !(forall|i: int|
            0 <= i < opened.streams.len() ==> same_purpose(#[trigger] opened.streams[i], streams[i])) {
            let i = choose|i: int|
                0 <= i < opened.streams.len() && !same_purpose(
                    #[trigger] opened.streams[i],
                    streams[i],
                );
            assert(!(opened.streams[i].key@ == streams[i].key@ && opened.streams[i].role
                == streams[i].role));
        }
    }
}

/// A stream shows one of the wanted terminals, in the role that is wanted for it.
pub open spec fn serves(handle: ProjectionStreamHandle, wanted: Seq<DesiredStream>) -> bool {
    exists|i: int|
        0 <= i < wanted.len() && (#[trigger] wanted[i]).key.terminal_id@ == handle.terminal_id@
            && wanted[i].role == handle.role
}

/// After reconciling, every open stream shows a terminal that is wanted, in the role
/// that is wanted for it: a pane that should be controlled is never left watched, nor
/// the other way round.
#[verifier::spinoff_prover]
pub proof fn open_streams_have_the_wanted_roles(
    runtime: RuntimeView,
    frames: FramesView,
    wanted: AdmissionView,
    hosts: Seq<RemoteHostConfig>,
    streaming: bool,
)
    requires
        wanted is Ready,
        runtime.signature is None ==> runtime.streams.len() == 0,
        runtime.signature matches Some(opened) ==> forall|h: int|
            0 <= h < runtime.streams.len() ==> serves(#[trigger] runtime.streams[h], opened.streams),
    ensures
        ({
            let after = reconciled(runtime, frames, wanted, hosts, streaming).0;
            &&& after.signature is Some
            &&& after.signature->0.streams.len() == wanted->Ready_streams.len()
            &&& forall|i: int|
                0 <= i < wanted->Ready_streams.len() ==> same_purpose(
                    #[trigger] after.signature->0.streams[i],
                    wanted->Ready_streams[i],
                )
            &&& forall|h: int|
                0 <= h < after.streams.len() ==> serves(
                    #[trigger] after.streams[h],
                    wanted->Ready_streams,
                )
        }),
{
    let after = reconciled(runtime, frames, wanted, hosts, streaming).0;
    let streams = wanted->Ready_streams;
    streams_stay_where_they_serve(runtime, frames, wanted, hosts, streaming);
    if serves_wish(runtime, wanted) {
        let opened = runtime.signature->0.streams;
        lemma_running(runtime.streams);
        assert forall|h: int| 0 <= h < after.streams.len() implies serves(
            #[trigger] after.streams[h],
            streams,
        ) by {
            let g = choose|g: int|
                0 <= g < runtime.streams.len() && runtime.streams[g] == after.streams[h];
            assert(runtime.streams.contains(after.streams[h]));
            assert(serves(runtime.streams[g], opened));
            let i = choose|i: int|
                0 <= i < opened.len() && (#[trigger] opened[i]).key.terminal_id@
                    == runtime.streams[g].terminal_id@ && opened[i].role == runtime.streams[g].role;
            assert(same_purpose(opened[i], streams[i]));
        }
    }
}

/// New streams are opened exactly where what is open does not serve, streams can be
/// opened at all, and the host of that name is configured for that session. They are
/// opened on that host, over the wanted prepared state, and they are the wanted ones.
#[verifier::spinoff_prover]
pub proof fn streams_are_opened_on_the_workspaces_host(
    runtime: RuntimeView,
    frames: FramesView,
    wanted: AdmissionView,
    hosts: Seq<RemoteHostConfig>,
    streaming: bool,
)
    requires
        wanted is Ready,
        !serves_wish(runtime, wanted),
    ensures
        ({
            let (after, _, _, step) = reconciled(runtime, frames, wanted, hosts, streaming);
            let source = wanted->Ready_source;
            &&& match step {
                StepView::Open { host, prepared, generation, streams } => {
                    &&& streaming
                    &&& host.name@ == source.host@ && host.session@ == source.session@
                    &&& hosts.contains(host)
                    &&& prepared == wanted->Ready_prepared
                    &&& generation == after.generation
                    &&& streams == wanted->Ready_streams
                },
                StepView::Idle => !streaming || forall|i: int|
                    0 <= i < hosts.len() && (#[trigger] hosts[i]).name@ == source.host@ && (forall|
                        j: int,
                    |
                        0 <= j < i ==> (#[trigger] hosts[j]).name@ != source.host@)
                        ==> hosts[i].session@ != source.session@,
                _ => false,
            }
            &&& after.signature is Some
            &&& after.signature->0.streams == wanted->Ready_streams
            &&& after.signature->0.prepared_shell_path == wanted->Ready_prepared.shell_path
            &&& after.generation != 0
        }),
{
    streams_stay_where_they_serve(runtime, frames, wanted, hosts, streaming);
    let source = wanted->Ready_source;
    hosts_go_by_their_names(hosts, source.host@);
    if let Some(host) = crate::remote_target::configured(hosts, source.host@) {
        let k = choose|i: int|
            0 <= i < hosts.len() && #[trigger] hosts[i] == host && host.name@ == source.host@
                && forall|j: int| 0 <= j < i ==> (#[trigger] hosts[j]).name@ != source.host@;
        assert(hosts.contains(hosts[k]));
        assert forall|i: int|
            0 <= i < hosts.len() && (#[trigger] hosts[i]).name@ == source.host@ && (forall|j: int|
                0 <= j < i ==> (#[trigger] hosts[j]).name@ != source.host@) implies hosts[i]
            == host by {
            if i < k {
                assert(hosts[i].name@ != source.host@);
            } else if k < i {
                assert(hosts[k].name@ != source.host@);
            }
        }
    }
}

/// Without a wish that can be met nothing stays open and nothing is opened.
pub proof fn nothing_stays_open_while_waiting(
    runtime: RuntimeView,
    frames: FramesView,
    wanted: AdmissionView,
    hosts: Seq<RemoteHostConfig>,
    streaming: bool,
)
    requires
        !(wanted is Ready),
        runtime.signature is None && !runtime.bridge_open ==> runtime.streams.len() == 0,
        runtime.source is None ==> runtime.signature is None && !runtime.bridge_open,
    ensures
        ({
            let (after, _, torn, step) = reconciled(runtime, frames, wanted, hosts, streaming);
            &&& step is Idle
            &&& after.streams.len() == 0
            &&& !after.bridge_open
            &&& after.signature is None
            &&& runtime.bridge_open || runtime.signature is Some ==> torn
        }),
{
}

/// The selection that is followed is the one that is wanted.
pub proof fn the_selection_is_followed(
    runtime: RuntimeView,
    frames: FramesView,
    wanted: AdmissionView,
    hosts: Seq<RemoteHostConfig>,
    streaming: bool,
)
    ensures
        ({
            let after = reconciled(runtime, frames, wanted, hosts, streaming).0;
            match wanted {
                AdmissionView::Inactive => after.source is None,
                AdmissionView::Waiting { source, .. } => after.source is Some
                    && after.source->0.host@ == source.host@ && after.source->0.session@
                    == source.session@ && after.source->0.workspace_id@ == source.workspace_id@,
                AdmissionView::Ready { source, .. } => after.source is Some
                    && after.source->0.host@ == source.host@ && after.source->0.session@
                    == source.session@ && after.source->0.workspace_id@ == source.workspace_id@,
            }
        }),
{
}

/// A stream of that number ended.
pub open spec fn some_ended(streams: Seq<ProjectionStreamHandle>, serial: u64) -> bool {
    exists|h: int|
        0 <= h < streams.len() && (#[trigger] streams[h]).done && streams[h].serial == serial
}

proof fn lemma_running(streams: Seq<ProjectionStreamHandle>)
    ensures
        forall|k: int|
            0 <= k < running_streams(streams).len() ==> streams.contains(
                #[trigger] running_streams(streams)[k],
            ) && !running_streams(streams)[k].done,
        forall|h: int|
            0 <= h < streams.len() && !(#[trigger] streams[h]).done ==> running_streams(
                streams,
            ).contains(streams[h]),
        forall|h: int|
            0 <= h < streams.len() && (#[trigger] streams[h]).done ==> finished_serials(
                streams,
            ).contains(streams[h].serial),
        forall|k: int|
            0 <= k < finished_serials(streams).len() ==> some_ended(
                streams,
                #[trigger] finished_serials(streams)[k],
            ),
        running_streams(streams).len() + finished_serials(streams).len() == streams.len(),
    decreases streams.len(),
{
    if streams.len() > 0 {
        let rest = streams.drop_last();
        lemma_running(rest);
        let running = running_streams(streams);
        let before = running_streams(rest);
        let ended = finished_serials(streams);
        let ended_before = finished_serials(rest);
        assert forall|k: int| 0 <= k < running.len() implies streams.contains(#[trigger] running[k])
            && !running[k].done by {
            if k < before.len() {
                assert(running[k] == before[k]);
                let h = choose|h: int| 0 <= h < rest.len() && rest[h] == before[k];
                assert(streams[h] == running[k]);
            } else {
                assert(running[k] == streams[streams.len() - 1]);
            }
        }
        assert forall|h: int| 0 <= h < streams.len() && !(#[trigger] streams[h]).done implies
            running.contains(streams[h]) by {
            if h < rest.len() {
                assert(rest[h] == streams[h]);
                let k = choose|k: int| 0 <= k < before.len() && before[k] == streams[h];
                assert(running[k] == streams[h]);
            } else {
                assert(running[running.len() - 1] == streams[h]);
            }
        }
        assert forall|h: int| 0 <= h < streams.len() && (#[trigger] streams[h]).done implies
            ended.contains(streams[h].serial) by {
            if h < rest.len() {
                assert(rest[h] == streams[h]);
                let k = choose|k: int|
                    0 <= k < ended_before.len() && ended_before[k] == streams[h].serial;
                assert(ended[k] == streams[h].serial);
            } else {
                assert(ended[ended.len() - 1] == streams[h].serial);
            }
        }
        assert forall|k: int| 0 <= k < ended.len() implies some_ended(
            streams,
            #[trigger] ended[k],
        ) by {
            if k < ended_before.len() {
                assert(ended[k] == ended_before[k]);
                assert(some_ended(rest, ended_before[k]));
                let h = choose|h: int|
                    0 <= h < rest.len() && (#[trigger] rest[h]).done && rest[h].serial
                        == ended_before[k];
                assert(streams[h] == rest[h]);
            } else {
                assert(streams[streams.len() - 1].done);
            }
        }
    }
}

/// Letting ended streams go keeps exactly the streams that still run, and names
/// exactly those that ended.
pub proof fn only_ended_streams_go(streams: Seq<ProjectionStreamHandle>)
    ensures
        forall|h: int|
            0 <= h < streams.len() ==> running_streams(streams).contains(#[trigger] streams[h])
                == !streams[h].done,
        forall|h: int|
            0 <= h < streams.len() && (#[trigger] streams[h]).done ==> finished_serials(
                streams,
            ).contains(streams[h].serial),
        forall|k: int|
            0 <= k < finished_serials(streams).len() ==> some_ended(
                streams,
                #[trigger] finished_serials(streams)[k],
            ),
        running_streams(streams).len() + finished_serials(streams).len() == streams.len(),
{
    lemma_running(streams);
    let running = running_streams(streams);
    assert forall|h: int| 0 <= h < streams.len() implies running.contains(#[trigger] streams[h])
        == !streams[h].done by {
        if running.contains(streams[h]) {
            let k = choose|k: int| 0 <= k < running.len() && running[k] == streams[h];
            assert(!running[k].done);
        }
    }
}

/// `target` tells the stream `handle` the size that is wanted for its terminal.
pub open spec fn tells(
    target: ResizeTarget,
    wanted: DesiredStream,
    handle: ProjectionStreamHandle,
) -> bool {
    &&& target.serial == handle.serial
    &&& handle.terminal_id@ == wanted.key.terminal_id@
    &&& target.cols == wanted.cols
    &&& target.rows == wanted.rows
}

/// `target` tells one of the streams the size that is wanted for its terminal.
pub open spec fn tells_some(
    target: ResizeTarget,
    wanted: Seq<DesiredStream>,
    streams: Seq<ProjectionStreamHandle>,
) -> bool {
    exists|i: int, h: int|
        0 <= i < wanted.len() && 0 <= h < streams.len() && #[trigger] tells(
            target,
            wanted[i],
            streams[h],
        )
}

/// One of the targets has the size that is wanted.
pub open spec fn size_told(targets: Seq<ResizeTarget>, wanted: DesiredStream) -> bool {
    exists|k: int|
        0 <= k < targets.len() && (#[trigger] targets[k]).cols == wanted.cols && targets[k].rows
            == wanted.rows
}

/// Whoever is told a size is the open stream of a wanted terminal and is told that
/// terminal's size.
pub proof fn sizes_go_to_their_own_streams(
    streams: Seq<ProjectionStreamHandle>,
    wanted: Seq<DesiredStream>,
)
    ensures
        forall|k: int|
            0 <= k < resize_targets(streams, wanted).len() ==> tells_some(
                #[trigger] resize_targets(streams, wanted)[k],
                wanted,
                streams,
            ),
    decreases wanted.len(),
{
    if wanted.len() > 0 {
        let rest = wanted.drop_last();
        sizes_go_to_their_own_streams(streams, rest);
        let last = wanted.last();
        let mine = stream_of(last.key.terminal_id@);
        lemma_first_holds(streams, mine);
        let targets = resize_targets(streams, wanted);
        let before = resize_targets(streams, rest);
        assert forall|k: int| 0 <= k < targets.len() implies tells_some(
            #[trigger] targets[k],
            wanted,
            streams,
        ) by {
            if k < before.len() {
                assert(targets[k] == before[k]);
                assert(tells_some(before[k], rest, streams));
                let (i, h) = choose|i: int, h: int|
                    0 <= i < rest.len() && 0 <= h < streams.len() && #[trigger] tells(
                        before[k],
                        rest[i],
                        streams[h],
                    );
                assert(tells(targets[k], wanted[i], streams[h]));
            } else {
                let h = first_where(streams, mine)->0;
                assert(mine(streams[h]));
                assert(tells(targets[k], wanted[wanted.len() - 1], streams[h]));
            }
        }
    }
}

/// Every wanted terminal that has an open stream is told its size.
pub proof fn every_open_stream_is_told_its_size(
    streams: Seq<ProjectionStreamHandle>,
    wanted: Seq<DesiredStream>,
    i: int,
    h: int,
)
    requires
        0 <= i < wanted.len(),
        0 <= h < streams.len(),
        wanted[i].key.terminal_id@ == streams[h].terminal_id@,
    ensures
        size_told(resize_targets(streams, wanted), wanted[i]),
    decreases wanted.len(),
{
    let rest = wanted.drop_last();
    let mine = stream_of(wanted.last().key.terminal_id@);
    lemma_first_holds(streams, mine);
    let targets = resize_targets(streams, wanted);
    let before = resize_targets(streams, rest);
    if i < rest.len() {
        every_open_stream_is_told_its_size(streams, rest, i, h);
        let k = choose|k: int|
            0 <= k < before.len() && (#[trigger] before[k]).cols == rest[i].cols && before[k].rows
                == rest[i].rows;
        assert(targets[k] == before[k]);
    } else {
        assert(mine(streams[h]));
        assert(targets[targets.len() - 1].cols == wanted[i].cols);
    }
}

// Input ------------------------------------------------------------------

/// Input goes to the stream of the terminal that the focused, live pane of the
/// selected workspace's host shows, where that stream controls its terminal, can be
/// written to, and what is shown of the terminal is live; in all other cases it goes
/// nowhere.
pub proof fn input_goes_to_the_focused_pane(
    runtime: RuntimeView,
    frames: FramesView,
    space: RemoteSpaceKey,
    areas: Seq<RemoteProjectionHitArea>,
    a: int,
    h: int,
    f: int,
)
    requires
        0 <= a < areas.len(),
        areas[a].focused && areas[a].live && areas[a].host@ == space.host@ && areas[a].session@
            == space.session@,
        forall|j: int|
            0 <= j < a ==> !((#[trigger] areas[j]).focused && areas[j].live && areas[j].host@
                == space.host@ && areas[j].session@ == space.session@),
        areas[a].terminal_id is Some,
        0 <= h < runtime.streams.len(),
        runtime.streams[h].terminal_id@ == areas[a].terminal_id->0@,
        forall|j: int|
            0 <= j < h ==> (#[trigger] runtime.streams[j]).terminal_id@
                != areas[a].terminal_id->0@,
        0 <= f < frames.frames.len(),
        is_frame_of(frames.frames[f], space, areas[a].terminal_id->0@),
        forall|j: int|
            0 <= j < f ==> !is_frame_of(
                #[trigger] frames.frames[j],
                space,
                areas[a].terminal_id->0@,
            ),
    ensures
        input_decision(runtime, frames, Some(space), areas) == if runtime.streams[h].role is Control
            && runtime.streams[h].writable && frames.frames[f].status is LiveController {
            InputDecision::Send {
                serial: runtime.streams[h].serial,
                terminal_id: areas[a].terminal_id->0,
            }
        } else {
            InputDecision::Dropped
        },
{
    let terminal_id = areas[a].terminal_id->0;
    let takes = takes_input(space);
    assert forall|j: int| 0 <= j < a implies !takes(#[trigger] areas[j]) by {}
    lemma_first_found(areas, takes, a);
    let mine = stream_of(terminal_id@);
    assert forall|j: int| 0 <= j < h implies !mine(#[trigger] runtime.streams[j]) by {}
    lemma_first_found(runtime.streams, mine, h);
    let shown = frame_is(crate::projection_plan::terminal_key(space, terminal_id)@);
    assert forall|j: int| 0 <= j < f implies !shown(#[trigger] frames.frames[j]) by {
        assert(!is_frame_of(frames.frames[j], space, terminal_id@));
    }
    lemma_first_found(frames.frames, shown, f);
}

/// `frame` is what is shown of a terminal of the workspace.
pub open spec fn is_frame_of(frame: FrameView, space: RemoteSpaceKey, terminal_id: Seq<char>) -> bool {
    &&& frame.key.host@ == space.host@
    &&& frame.key.session@ == space.session@
    &&& frame.key.workspace_id@ == space.workspace_id@
    &&& frame.key.terminal_id@ == terminal_id
}

/// Input is sent to nobody unless a focused, live pane of the selected workspace's
/// host shows that terminal, its own stream controls it and can be written to, and
/// what is shown of it is live.
pub proof fn sent_input_was_asked_for(
    runtime: RuntimeView,
    frames: FramesView,
    space: RemoteSpaceKey,
    areas: Seq<RemoteProjectionHitArea>,
)
    requires
        input_decision(runtime, frames, Some(space), areas) is Send,
    ensures
        ({
            let decision = input_decision(runtime, frames, Some(space), areas);
            let terminal_id = decision->Send_terminal_id;
            &&& exists|a: int|
                0 <= a < areas.len() && (#[trigger] areas[a]).focused && areas[a].live
                    && areas[a].host@ == space.host@ && areas[a].session@ == space.session@
                    && areas[a].terminal_id == Some(terminal_id)
            &&& exists|h: int|
                0 <= h < runtime.streams.len() && (#[trigger] runtime.streams[h]).serial
                    == decision->Send_serial && runtime.streams[h].terminal_id@ == terminal_id@
                    && runtime.streams[h].role is Control && runtime.streams[h].writable
            &&& exists|f: int|
                0 <= f < frames.frames.len() && is_frame_of(
                    #[trigger] frames.frames[f],
                    space,
                    terminal_id@,
                ) && frames.frames[f].status is LiveController
        }),
{
    let decision = input_decision(runtime, frames, Some(space), areas);
    let terminal_id = decision->Send_terminal_id;
    lemma_first_holds(areas, takes_input(space));
    lemma_first_holds(runtime.streams, stream_of(terminal_id@));
    let shown = frame_is(crate::projection_plan::terminal_key(space, terminal_id)@);
    lemma_first_holds(frames.frames, shown);
    let f = first_where(frames.frames, shown)->0;
    assert(shown(frames.frames[f]));
    assert(is_frame_of(frames.frames[f], space, terminal_id@));
}

/// Input marks the stream that it goes to as written to, and no other; nothing else
/// of any stream changes.
pub proof fn input_marks_its_own_stream(
    streams: Seq<ProjectionStreamHandle>,
    decision: InputDecision,
)
    ensures
        after_input(streams, decision).len() == streams.len(),
        forall|h: int|
            0 <= h < streams.len() ==> {
                let after = #[trigger] after_input(streams, decision)[h];
                &&& after.serial == streams[h].serial
                &&& after.terminal_id == streams[h].terminal_id
                &&& after.role == streams[h].role
                &&& after.writable == streams[h].writable
                &&& after.mouse_capture == streams[h].mouse_capture
                &&& after.done == streams[h].done
                &&& streams[h].input_sent ==> after.input_sent
                &&& after.input_sent && !streams[h].input_sent
                    ==> decision is Send && decision->Send_terminal_id@ == streams[h].terminal_id@
            },
        decision matches InputDecision::Send { terminal_id, .. } ==> forall|h: int|
            0 <= h < streams.len() && (#[trigger] streams[h]).terminal_id@ == terminal_id@ ==> exists|
                g: int,
            |
                0 <= g < streams.len() && (#[trigger] after_input(
                    streams,
                    decision,
                )[g]).terminal_id@ == terminal_id@ && after_input(streams, decision)[g].input_sent,
{
    if let InputDecision::Send { terminal_id, .. } = decision {
        let mine = stream_of(terminal_id@);
        lemma_first_holds(streams, mine);
        if let Some(i) = first_where(streams, mine) {
            assert(mine(streams[i]));
            assert(after_input(streams, decision)[i].input_sent);
        } else {
            assert forall|h: int| 0 <= h < streams.len() implies (
            #[trigger] streams[h]).terminal_id@ != terminal_id@ by {
                assert(!mine(streams[h]));
            }
        }
    }
}

/// What happened to one stream is noted of that stream alone: whether it can be
/// written to, whether its terminal wants the mouse, or that it ended.
pub proof fn changes_are_noted_of_one_stream(
    streams: Seq<ProjectionStreamHandle>,
    change: StreamChange,
    h: int,
)
    requires
        0 <= h < streams.len(),
        forall|j: int| 0 <= j < h ==> (#[trigger] streams[j]).serial != streams[h].serial,
    ensures
        ({
            let after = after_change(streams, streams[h].serial, change);
            &&& after.len() == streams.len()
            &&& forall|j: int| 0 <= j < streams.len() && j != h ==> #[trigger] after[j] == streams[j]
            &&& after[h].serial == streams[h].serial
            &&& after[h].terminal_id == streams[h].terminal_id
            &&& after[h].role == streams[h].role
            &&& after[h].input_sent == streams[h].input_sent
            &&& after[h].writable == (match change {
                StreamChange::Writable(writable) => writable,
                _ => streams[h].writable,
            })
            &&& after[h].mouse_capture == (match change {
                StreamChange::Capture(capture) => capture,
                _ => streams[h].mouse_capture,
            })
            &&& after[h].done == (change is Ended || streams[h].done)
        }),
{
    let mine = stream_numbered(streams[h].serial);
    assert forall|j: int| 0 <= j < h implies !mine(#[trigger] streams[j]) by {}
    lemma_first_found(streams, mine, h);
}

/// A stream that was just opened shows the wanted terminal in the wanted role. Nothing
/// can be written to it yet, and nothing was.
pub proof fn fresh_streams_are_quiet(wanted: DesiredStream, serial: u64)
    ensures
        ({
            let handle = fresh_stream(wanted, serial);
            &&& handle.serial == serial
            &&& handle.terminal_id == wanted.key.terminal_id
            &&& handle.role == wanted.role
            &&& !handle.writable && !handle.input_sent && !handle.done
            &&& handle.mouse_capture is Unknown
        }),
{
}

/// Whether the focused pane's terminal wants the mouse is what its own controlling
/// stream last said; before it said anything, and without such a stream, nobody knows.
pub proof fn the_mouse_is_wanted_where_the_terminal_said_so(
    runtime: RuntimeView,
    space: RemoteSpaceKey,
    areas: Seq<RemoteProjectionHitArea>,
)
    ensures
        focused_capture(runtime, None, areas) is None,
        focused_capture(runtime, Some(space), areas) matches Some(wants) ==> exists|a: int, h: int|
            0 <= a < areas.len() && 0 <= h < runtime.streams.len() && (#[trigger] areas[a]).focused
                && areas[a].live && areas[a].host@ == space.host@ && areas[a].session@
                == space.session@ && areas[a].terminal_id is Some
                && areas[a].terminal_id->0@ == (#[trigger] runtime.streams[h]).terminal_id@
                && runtime.streams[h].role is Control && (wants
                <==> runtime.streams[h].mouse_capture is Enabled) && !(
            runtime.streams[h].mouse_capture is Unknown),
{
    if focused_capture(runtime, Some(space), areas) is Some {
        let takes = takes_input(space);
        lemma_first_holds(areas, takes);
        let a = first_where(areas, takes)->0;
        assert(takes(areas[a]));
        let mine = stream_of(areas[a].terminal_id->0@);
        lemma_first_holds(runtime.streams, mine);
        let h = first_where(runtime.streams, mine)->0;
        assert(mine(runtime.streams[h]));
    }
}

} // verus!
