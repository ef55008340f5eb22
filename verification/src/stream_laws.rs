//! What a stream of a projected pane is for, what it reports, and what is shown of
//! its terminal then.
use vstd::prelude::*;
use crate::layout::leaves;
use crate::projection_frames::{
    after_begin, after_seeding, after_stream_report, frame_is, frames_of, with_seed, with_seeds,
    FrameView, FramesView, ReportView, SeedView,
};
use crate::projection_plan::{
    admission, leaf_fault, leaf_roles, placed_stream, places, DesiredStream,
    RemoteProjectionHitArea, RemoteProjectionStreamRole, RemoteProjectionTerminalKey,
    MAX_LAYOUT_PANES,
};
use crate::projection_runtime::{MouseCapture, StreamChange};
use crate::projection_stream::{
    after_read, attempt_outcome, read_step, shutdown_end, stream_request, welcome_fault, EndView,
    StreamAttempt, StreamMessage, StreamRead, StreamRequest,
};
use crate::remote_source::{
    cached_host, projection_for, projection_of, HostView, RemoteProjectionSnapshot, RemoteSpaceKey,
};
use crate::schema::{LayoutDescription, LayoutNode, LayoutPane};
use crate::search::{first_where, lemma_first_holds, lemma_put_found, lemma_put_others, put};
use crate::text::stands_at;

verus! {

// Layouts ----------------------------------------------------------------

/// The panes of a split are those of its first side and then those of its second; a
/// pane has itself.
pub proof fn panes_are_in_reading_order(node: LayoutNode)
    ensures
        match node {
            LayoutNode::Pane { pane } => leaves(node).len() == 1 && leaves(node)[0] == pane,
            LayoutNode::Split { first, second, .. } => leaves(node).len() == leaves(*first).len()
                + leaves(*second).len() && (forall|i: int|
                0 <= i < leaves(*first).len() ==> #[trigger] leaves(node)[i] == leaves(*first)[i])
                && (forall|j: int|
                0 <= j < leaves(*second).len() ==> leaves(node)[leaves(*first).len() + j]
                    == #[trigger] leaves(*second)[j]),
        },
{
}

/// The layout that is cached for a workspace is that workspace's own, on its own
/// host and session.
pub proof fn layouts_go_by_their_workspace(hosts: Seq<HostView>, space: RemoteSpaceKey)
    ensures
        match projection_for(hosts, space) {
            Some(shown) => shown.workspace_id@ == space.workspace_id@ && exists|s: int|
                0 <= s < hosts.len() && (#[trigger] hosts[s]).key.host@ == space.host@
                    && hosts[s].key.session@ == space.session@ && hosts[s].projections.contains(
                    shown,
                ),
            None => match cached_host(hosts, (space.host@, space.session@)) {
                Some(source) => forall|p: int|
                    0 <= p < source.projections.len() ==> (
                    #[trigger] source.projections[p]).workspace_id@ != space.workspace_id@,
                None => true,
            },
        },
{
    let named = crate::remote_source::host_is((space.host@, space.session@));
    lemma_first_holds(hosts, named);
    if let Some(s) = first_where(hosts, named) {
        assert(named(hosts[s]));
        let mine = projection_of(space.workspace_id@);
        lemma_first_holds(hosts[s].projections, mine);
        match first_where(hosts[s].projections, mine) {
            Some(p) => {
                assert(mine(hosts[s].projections[p]));
                assert(hosts[s].projections.contains(hosts[s].projections[p]));
            },
            None => {
                assert forall|p: int| 0 <= p < hosts[s].projections.len() implies (
                #[trigger] hosts[s].projections[p]).workspace_id@ != space.workspace_id@ by {
                    assert(!mine(hosts[s].projections[p]));
                }
            },
        }
    }
}

// What is wanted ---------------------------------------------------------

/// The cells inside a frame of one cell on each side, and at least one.
pub open spec fn inside(cells: u16) -> int {
    if cells - 2 >= 1 {
        cells - 2
    } else {
        1
    }
}

/// An area of the screen shows that terminal of the workspace's host.
pub open spec fn shows(
    area: RemoteProjectionHitArea,
    space: RemoteSpaceKey,
    terminal_id: Seq<char>,
) -> bool {
    &&& area.host@ == space.host@
    &&& area.session@ == space.session@
    &&& area.terminal_id matches Some(shown) && shown@ == terminal_id
}

/// `stream` is for `pane`: it shows the pane's terminal, it controls it exactly where
/// the pane is the focused one of its layout, and it has the size of an area that
/// shows the terminal, inside its frame.
pub open spec fn is_stream_of(
    stream: DesiredStream,
    pane: LayoutPane,
    focused_pane_id: Seq<char>,
    space: RemoteSpaceKey,
    areas: Seq<RemoteProjectionHitArea>,
) -> bool {
    &&& pane.terminal_id == Some(stream.key.terminal_id)
    &&& (stream.role is Control) == (pane.pane_id is Some && pane.pane_id->0@ == focused_pane_id)
    &&& exists|a: int|
        0 <= a < areas.len() && shows(#[trigger] areas[a], space, stream.key.terminal_id@)
            && stream.cols == inside(areas[a].rect.width) && stream.rows == inside(
            areas[a].rect.height,
        )
}

/// The streams that are wanted for a workspace are those of its panes, one each and in
/// their order.
#[verifier::spinoff_prover]
pub proof fn wanted_streams_are_those_of_the_panes(
    space: RemoteSpaceKey,
    hosts: Seq<HostView>,
    areas: Seq<RemoteProjectionHitArea>,
)
    requires
        admission(Some(space), hosts, areas) is Ready,
    ensures
        ({
            let layout = projection_for(hosts, space)->0.layout->0;
            let streams = admission(Some(space), hosts, areas)->Ready_streams;
            &&& admission(Some(space), hosts, areas)->Ready_source == space
            &&& streams.len() == leaves(layout.root).len()
            &&& forall|i: int|
                0 <= i < streams.len() ==> is_stream_of(
                    #[trigger] streams[i],
                    leaves(layout.root)[i],
                    layout.focused_pane_id@,
                    space,
                    areas,
                )
        }),
{
    let layout = projection_for(hosts, space)->0.layout->0;
    let panes = leaves(layout.root);
    let streams = admission(Some(space), hosts, areas)->Ready_streams;
    let roles = leaf_roles(space, panes, layout.focused_pane_id@);
    lemma_no_fault(panes);
    assert forall|i: int| 0 <= i < streams.len() implies is_stream_of(
        #[trigger] streams[i],
        panes[i],
        layout.focused_pane_id@,
        space,
        areas,
    ) by {
        assert(placed_stream(areas, roles[i]) is Some);
        let placed = places(roles[i].0);
        lemma_first_holds(areas, placed);
        let a = first_where(areas, placed)->0;
        assert(placed(areas[a]));
        assert(panes[i].terminal_id is Some);
        assert(shows(areas[a], space, streams[i].key.terminal_id@));
    }
}

/// Every pane has a terminal, and no two have the same.
pub open spec fn can_be_streamed(panes: Seq<LayoutPane>) -> bool {
    &&& forall|i: int| 0 <= i < panes.len() ==> (#[trigger] panes[i]).terminal_id is Some
    &&& forall|i: int, j: int|
        0 <= i < j < panes.len() ==> (#[trigger] panes[i]).terminal_id->0@ != (
        #[trigger] panes[j]).terminal_id->0@
}

proof fn lemma_no_fault(panes: Seq<LayoutPane>)
    ensures
        (leaf_fault(panes) is None) == can_be_streamed(panes),
    decreases panes.len(),
{
    if panes.len() > 0 {
        let rest = panes.drop_last();
        lemma_no_fault(rest);
        let n = panes.len() - 1;
        assert forall|i: int| 0 <= i < n implies rest[i] == panes[i] by {}
        if can_be_streamed(panes) {
            assert forall|i: int| 0 <= i < rest.len() implies (
            #[trigger] rest[i]).terminal_id is Some by {
                assert(panes[i].terminal_id is Some);
            }
            assert forall|i: int, j: int| 0 <= i < j < rest.len() implies (
            #[trigger] rest[i]).terminal_id->0@ != (#[trigger] rest[j]).terminal_id->0@ by {
                assert(panes[i].terminal_id->0@ != panes[j].terminal_id->0@);
            }
            assert(panes[n].terminal_id is Some);
            assert forall|j: int| 0 <= j < n implies !crate::projection_plan::shows_terminal(
                #[trigger] panes[j],
                panes[n].terminal_id->0@,
            ) by {
                assert(panes[j].terminal_id->0@ != panes[n].terminal_id->0@);
            }
        }
        if leaf_fault(panes) is None {
            assert forall|i: int| 0 <= i < panes.len() implies (
            #[trigger] panes[i]).terminal_id is Some by {
                if i < n {
                    assert(rest[i].terminal_id is Some);
                }
            }
            assert forall|i: int, j: int| 0 <= i < j < panes.len() implies (
            #[trigger] panes[i]).terminal_id->0@ != (#[trigger] panes[j]).terminal_id->0@ by {
                if j < n {
                    assert(rest[i].terminal_id->0@ != rest[j].terminal_id->0@);
                } else {
                    assert(!crate::projection_plan::shows_terminal(
                        panes[i],
                        panes[n].terminal_id->0@,
                    ));
                    assert(panes[i].terminal_id is Some);
                }
            }
        }
    }
}

/// Every pane has an area of the screen that shows its terminal.
pub open spec fn all_shown(
    panes: Seq<LayoutPane>,
    space: RemoteSpaceKey,
    areas: Seq<RemoteProjectionHitArea>,
) -> bool {
    forall|i: int|
        0 <= i < panes.len() ==> exists|a: int|
            0 <= a < areas.len() && shows(
                #[trigger] areas[a],
                space,
                (#[trigger] panes[i]).terminal_id->0@,
            )
}

/// The panes of a workspace with a known layout are streamed exactly where nothing is
/// missing. Otherwise they wait, and what is missing first decides how they are
/// shown: too many panes or panes without a terminal are not supported, repeated
/// terminals need attention, a stale or disconnected host shows what was last known,
/// a host that streams nothing is not supported, and the rest is on its way.
#[verifier::spinoff_prover]
pub proof fn panes_are_streamed_where_nothing_is_missing(
    space: RemoteSpaceKey,
    hosts: Seq<HostView>,
    areas: Seq<RemoteProjectionHitArea>,
    shown: RemoteProjectionSnapshot,
    layout: LayoutDescription,
    source: HostView,
)
    requires
        projection_for(hosts, space) == Some(shown),
        shown.layout == Some(layout),
        cached_host(hosts, (space.host@, space.session@)) == Some(source),
    ensures
        ({
            let panes = leaves(layout.root);
            let decided = admission(Some(space), hosts, areas);
            let status = decided->Waiting_status;
            let kept = decided->Waiting_preserve_last_known;
            if panes.len() > MAX_LAYOUT_PANES {
                decided is Waiting && status is Unsupported && !kept
            } else if !can_be_streamed(panes) {
                decided is Waiting && (status is Unsupported || status is NeedsAttention) && !kept
                    && decided->Waiting_streams.len() == 0
            } else if !(shown.status is Available) || !(source.status is Connected) {
                decided is Waiting && status is StaleLastKnown && kept
                    && decided->Waiting_streams.len() == panes.len()
            } else if !source.capabilities.terminal_session_stream {
                decided is Waiting && status is Unsupported && !kept
            } else if source.bridge_state is None {
                decided is Waiting && status is Connecting && kept
            } else if all_shown(panes, space, areas) {
                decided is Ready && decided->Ready_prepared == source.bridge_state->0
            } else {
                decided is Waiting && status is Connecting && kept
            }
        }),
{
    let panes = leaves(layout.root);
    let roles = leaf_roles(space, panes, layout.focused_pane_id@);
    lemma_no_fault(panes);
    if all_shown(panes, space, areas) {
        assert forall|i: int| 0 <= i < roles.len() implies placed_stream(
            areas,
            #[trigger] roles[i],
        ) is Some by {
            let a = choose|a: int|
                0 <= a < areas.len() && shows(
                    #[trigger] areas[a],
                    space,
                    panes[i].terminal_id->0@,
                );
            assert(panes[i] == panes[i]);
            let placed = places(roles[i].0);
            lemma_first_holds(areas, placed);
            assert(placed(areas[a]));
        }
    } else {
        let i = choose|i: int|
            0 <= i < panes.len() && !(exists|a: int|
                0 <= a < areas.len() && shows(
                    #[trigger] areas[a],
                    space,
                    (#[trigger] panes[i]).terminal_id->0@,
                ));
        let placed = places(roles[i].0);
        lemma_first_holds(areas, placed);
        if let Some(a) = first_where(areas, placed) {
            assert(placed(areas[a]));
            assert(shows(areas[a], space, panes[i].terminal_id->0@));
        }
        assert(placed_stream(areas, roles[i]) is None);
    }
}

/// Without a selected workspace nothing is wanted; with one whose layout is not known
/// its panes wait.
pub proof fn unknown_layouts_wait(
    space: RemoteSpaceKey,
    hosts: Seq<HostView>,
    areas: Seq<RemoteProjectionHitArea>,
)
    ensures
        admission(None, hosts, areas) is Inactive,
        projection_for(hosts, space) is None || projection_for(hosts, space)->0.layout is None ==> {
            let decided = admission(Some(space), hosts, areas);
            &&& decided is Waiting
            &&& decided->Waiting_source == space
            &&& decided->Waiting_streams.len() == 0
        },
{
}

// What is shown ----------------------------------------------------------

proof fn lemma_frames_of(frames: Seq<FrameView>, space: RemoteSpaceKey)
    ensures
        forall|k: int|
            0 <= k < frames_of(frames, space).len() ==> frames.contains(
                #[trigger] frames_of(frames, space)[k],
            ) && belongs(frames_of(frames, space)[k], space),
        forall|i: int|
            0 <= i < frames.len() && belongs(#[trigger] frames[i], space) ==> frames_of(
                frames,
                space,
            ).contains(frames[i]),
    decreases frames.len(),
{
    if frames.len() > 0 {
        let rest = frames.drop_last();
        lemma_frames_of(rest, space);
        let kept = frames_of(frames, space);
        let before = frames_of(rest, space);
        assert forall|k: int| 0 <= k < kept.len() implies frames.contains(#[trigger] kept[k])
            && belongs(kept[k], space) by {
            if k < before.len() {
                assert(kept[k] == before[k]);
                let i = choose|i: int| 0 <= i < rest.len() && rest[i] == before[k];
                assert(frames[i] == kept[k]);
            } else {
                assert(kept[k] == frames[frames.len() - 1]);
            }
        }
        assert forall|i: int| 0 <= i < frames.len() && belongs(#[trigger] frames[i], space) implies
            kept.contains(frames[i]) by {
            if i < rest.len() {
                assert(rest[i] == frames[i]);
                let k = choose|k: int| 0 <= k < before.len() && before[k] == frames[i];
                assert(kept[k] == frames[i]);
            } else {
                assert(kept[kept.len() - 1] == frames[i]);
            }
        }
    }
}

/// What is shown is of a terminal of that workspace.
pub open spec fn belongs(frame: FrameView, space: RemoteSpaceKey) -> bool {
    &&& frame.key.host@ == space.host@
    &&& frame.key.session@ == space.session@
    &&& frame.key.workspace_id@ == space.workspace_id@
}

/// A new generation is another than the one before, and never zero. What was shown
/// stays only where it may be shown as last known, and then exactly what belongs to
/// the workspace.
pub proof fn generations_keep_only_the_workspaces_frames(
    frames: FramesView,
    space: RemoteSpaceKey,
    preserve_last_known: bool,
)
    ensures
        after_begin(frames, Some(space), preserve_last_known).generation != frames.generation,
        after_begin(frames, Some(space), preserve_last_known).generation != 0,
        after_begin(frames, None, preserve_last_known).generation != frames.generation,
        after_begin(frames, None, preserve_last_known).frames.len() == 0,
        !preserve_last_known ==> after_begin(
            frames,
            Some(space),
            preserve_last_known,
        ).frames.len() == 0,
        preserve_last_known ==> forall|i: int|
            0 <= i < frames.frames.len() ==> after_begin(
                frames,
                Some(space),
                true,
            ).frames.contains(#[trigger] frames.frames[i]) == belongs(frames.frames[i], space),
        preserve_last_known ==> forall|k: int|
            0 <= k < after_begin(frames, Some(space), true).frames.len()
                ==> frames.frames.contains(
                #[trigger] after_begin(frames, Some(space), true).frames[k],
            ),
{
    lemma_frames_of(frames.frames, space);
    let kept = frames_of(frames.frames, space);
    assert forall|i: int| 0 <= i < frames.frames.len() implies kept.contains(
        #[trigger] frames.frames[i],
    ) == belongs(frames.frames[i], space) by {
        if kept.contains(frames.frames[i]) {
            let k = choose|k: int| 0 <= k < kept.len() && kept[k] == frames.frames[i];
            assert(belongs(kept[k], space));
        }
    }
}

/// What is shown of a terminal, by its key.
pub open spec fn shown_of(
    frames: Seq<FrameView>,
    key: RemoteProjectionTerminalKey,
) -> Option<FrameView> {
    match first_where(frames, frame_is(key@)) {
        Some(i) => Some(frames[i]),
        None => None,
    }
}

/// What is shown of a terminal is of that very terminal of that workspace, and is
/// there wherever anything is shown of it.
pub proof fn frames_go_by_their_terminal(
    frames: Seq<FrameView>,
    key: RemoteProjectionTerminalKey,
)
    ensures
        match shown_of(frames, key) {
            Some(frame) => frame.key.host@ == key.host@ && frame.key.session@ == key.session@
                && frame.key.workspace_id@ == key.workspace_id@ && frame.key.terminal_id@
                == key.terminal_id@ && frames.contains(frame),
            None => forall|i: int|
                0 <= i < frames.len() ==> !((#[trigger] frames[i]).key.host@ == key.host@
                    && frames[i].key.session@ == key.session@ && frames[i].key.workspace_id@
                    == key.workspace_id@ && frames[i].key.terminal_id@ == key.terminal_id@),
        },
{
    let mine = frame_is(key@);
    lemma_first_holds(frames, mine);
    match first_where(frames, mine) {
        Some(i) => {
            assert(mine(frames[i]));
            assert(frames.contains(frames[i]));
        },
        None => {
            assert forall|i: int| 0 <= i < frames.len() implies !((
            #[trigger] frames[i]).key.host@ == key.host@ && frames[i].key.session@ == key.session@
                && frames[i].key.workspace_id@ == key.workspace_id@ && frames[i].key.terminal_id@
                == key.terminal_id@) by {
                assert(!mine(frames[i]));
            }
        },
    }
}

proof fn lemma_seeded(frames: Seq<FrameView>, generation: u64, seed: SeedView)
    ensures
        shown_of(with_seed(frames, generation, seed), seed.key) == Some(
            FrameView {
                key: seed.key,
                generation,
                role: seed.role,
                status: seed.status,
                frame: match shown_of(frames, seed.key) {
                    Some(before) => before.frame,
                    None => None,
                },
                message: seed.message,
            },
        ),
        forall|key: RemoteProjectionTerminalKey|
            key@ != seed.key@ ==> #[trigger] shown_of(with_seed(frames, generation, seed), key)
                == shown_of(frames, key),
{
    let placed = FrameView {
        key: seed.key,
        generation,
        role: seed.role,
        status: seed.status,
        frame: match first_where(frames, frame_is(seed.key@)) {
            Some(i) => frames[i].frame,
            None => None,
        },
        message: seed.message,
    };
    lemma_put_found(frames, frame_is(seed.key@), placed);
    assert forall|key: RemoteProjectionTerminalKey| key@ != seed.key@ implies #[trigger] shown_of(
        with_seed(frames, generation, seed),
        key,
    ) == shown_of(frames, key) by {
        lemma_put_others(frames, frame_is(seed.key@), placed, frame_is(key@));
        lemma_first_holds(frames, frame_is(key@));
    }
}

/// Terminals that are admitted under the current generation are shown in their role,
/// with their status and their message, and keep the last frame that was shown of
/// them; what is shown of any other terminal stays as it is. Under any other
/// generation nothing changes.
pub proof fn admitted_terminals_keep_their_last_frame(
    frames: FramesView,
    generation: u64,
    seeds: Seq<SeedView>,
)
    requires
        forall|i: int, j: int|
            0 <= i < j < seeds.len() ==> (#[trigger] seeds[i]).key@ != (#[trigger] seeds[j]).key@,
    ensures
        generation != frames.generation ==> after_seeding(frames, generation, seeds) == frames,
        after_seeding(frames, generation, seeds).generation == frames.generation,
        generation == frames.generation ==> forall|i: int|
            0 <= i < seeds.len() ==> shown_of(
                after_seeding(frames, generation, seeds).frames,
                (#[trigger] seeds[i]).key,
            ) == Some(
                FrameView {
                    key: seeds[i].key,
                    generation,
                    role: seeds[i].role,
                    status: seeds[i].status,
                    frame: match shown_of(frames.frames, seeds[i].key) {
                        Some(before) => before.frame,
                        None => None,
                    },
                    message: seeds[i].message,
                },
            ),
        forall|key: RemoteProjectionTerminalKey|
            (forall|i: int| 0 <= i < seeds.len() ==> (#[trigger] seeds[i]).key@ != key@)
                ==> #[trigger] shown_of(after_seeding(frames, generation, seeds).frames, key)
                == shown_of(frames.frames, key),
    decreases seeds.len(),
{
    if generation == frames.generation && seeds.len() > 0 {
        let rest = seeds.drop_last();
        let last = seeds.last();
        assert forall|i: int, j: int| 0 <= i < j < rest.len() implies (#[trigger] rest[i]).key@ != (
        #[trigger] rest[j]).key@ by {
            assert(seeds[i].key@ != seeds[j].key@);
        }
        admitted_terminals_keep_their_last_frame(frames, generation, rest);
        let before = with_seeds(frames.frames, generation, rest);
        lemma_seeded(before, generation, last);
        let n = seeds.len() - 1;
        assert forall|i: int| 0 <= i < rest.len() implies (#[trigger] rest[i]).key@ != last.key@ by {
            assert(seeds[i].key@ != seeds[n].key@);
        }
        assert(shown_of(before, last.key) == shown_of(frames.frames, last.key));
        assert forall|i: int| 0 <= i < seeds.len() implies shown_of(
            after_seeding(frames, generation, seeds).frames,
            (#[trigger] seeds[i]).key,
        ) == Some(
            FrameView {
                key: seeds[i].key,
                generation,
                role: seeds[i].role,
                status: seeds[i].status,
                frame: match shown_of(frames.frames, seeds[i].key) {
                    Some(before) => before.frame,
                    None => None,
                },
                message: seeds[i].message,
            },
        ) by {
            if i < n {
                assert(rest[i] == seeds[i]);
            }
        }
        assert forall|key: RemoteProjectionTerminalKey|
            (forall|i: int| 0 <= i < seeds.len() ==> (
            #[trigger] seeds[i]).key@ != key@) implies #[trigger] shown_of(
            after_seeding(frames, generation, seeds).frames,
            key,
        ) == shown_of(frames.frames, key) by {
            assert(seeds[n].key@ != key@);
            assert forall|i: int| 0 <= i < rest.len() implies (
            #[trigger] rest[i]).key@ != key@ by {
                assert(seeds[i].key@ != key@);
            }
        }
    }
}

/// A report is taken up exactly where its workspace is selected and its terminal is
/// shown, both under the current generation. It then says what is shown of that
/// terminal: the role, the status, the message and the frame; without a frame the
/// last one stays. Of every other terminal nothing changes.
#[verifier::spinoff_prover]
pub proof fn reports_say_what_is_shown(
    frames: FramesView,
    selected: Option<RemoteSpaceKey>,
    report: ReportView,
)
    ensures
        ({
            let after = after_stream_report(frames, selected, report);
            let taken = report.generation == frames.generation && selected is Some
                && report.key.host@ == selected->0.host@ && report.key.session@
                == selected->0.session@ && report.key.workspace_id@ == selected->0.workspace_id@
                && shown_of(frames.frames, report.key) is Some && shown_of(
                frames.frames,
                report.key,
            )->0.generation == report.generation;
            &&& after.generation == frames.generation
            &&& !taken ==> after == frames
            &&& taken ==> {
                let before = shown_of(frames.frames, report.key)->0;
                shown_of(after.frames, report.key) == Some(
                    FrameView {
                        key: before.key,
                        generation: before.generation,
                        role: report.role,
                        status: report.status,
                        frame: if report.frame is Some {
                            report.frame
                        } else {
                            before.frame
                        },
                        message: report.message,
                    },
                )
            }
            &&& forall|key: RemoteProjectionTerminalKey|
                key@ != report.key@ ==> #[trigger] shown_of(after.frames, key) == shown_of(
                    frames.frames,
                    key,
                )
        }),
{
    let mine = frame_is(report.key@);
    lemma_first_holds(frames.frames, mine);
    if let Some(i) = first_where(frames.frames, mine) {
        assert(mine(frames.frames[i]));
        let v = FrameView {
            role: report.role,
            status: report.status,
            frame: match report.frame {
                Some(frame) => Some(frame),
                None => frames.frames[i].frame,
            },
            message: report.message,
            ..frames.frames[i]
        };
        lemma_put_found(frames.frames, mine, v);
        assert forall|key: RemoteProjectionTerminalKey| key@ != report.key@ implies shown_of(
            put(frames.frames, mine, v),
            key,
        ) == #[trigger] shown_of(frames.frames, key) by {
            lemma_put_others(frames.frames, mine, v, frame_is(key@));
            lemma_first_holds(frames.frames, frame_is(key@));
        }
    }
}

// What a stream says -----------------------------------------------------

/// The opening of a stream succeeds exactly where the host welcomes it without an
/// error and sends frames by their meaning. A refusal is told in the host's own words.
pub proof fn streams_open_where_they_are_welcome(answer: Result<StreamMessage, String>)
    ensures
        (welcome_fault(answer) is None) == (answer matches Ok(
            StreamMessage::Welcome { encoding, error },
        ) && encoding is SemanticFrame && error is None),
        !(welcome_fault(answer) matches Some(EndView::OwnershipConflict(_))),
        match answer {
            Ok(StreamMessage::Welcome { error: Some(error), .. }) => {
                let said = welcome_fault(answer)->0->Closed_0;
                stands_at(said, error@, said.len() - error@.len())
            },
            _ => true,
        },
{
    if let Ok(StreamMessage::Welcome { encoding: _, error: Some(error) }) = answer {
        let said = welcome_fault(answer)->0->Closed_0;
        let at = said.len() - error@.len();
        assert(said.subrange(at, at + error@.len()) =~= error@);
    }
}

/// A stream asks for its own terminal: to control it where it is to be controlled,
/// and else to watch it.
pub proof fn streams_ask_for_their_terminal(
    role: RemoteProjectionStreamRole,
    terminal_id: String,
)
    ensures
        match stream_request(role, terminal_id) {
            StreamRequest::ObserveTerminal { target } => role is Observe && target == terminal_id,
            StreamRequest::ControlTerminal { target, takeover } => role is Control && target
                == terminal_id && !takeover,
        },
{
}

/// A frame is reported under its number for the stream's own terminal and
/// generation. It makes the pane live: controlled and writable where the stream
/// controls its terminal, read-only where it had to watch instead, and watched where
/// it was to watch.
pub proof fn frames_make_panes_live(
    attempt: StreamAttempt,
    desired: DesiredStream,
    generation: u64,
    frame: u64,
)
    ensures
        ({
            let step = read_step(
                attempt,
                desired,
                generation,
                StreamRead::Message(StreamMessage::Frame(frame)),
            );
            &&& step.end is None
            &&& !step.drop_writer
            &&& (step.change == Some(StreamChange::Writable(true))) == (
            attempt.actual_role is Control)
            &&& attempt.actual_role is Observe ==> step.change is None
            &&& step.report is Some
            &&& step.report->0.key == desired.key
            &&& step.report->0.generation == generation
            &&& step.report->0.role == desired.role
            &&& step.report->0.frame == Some(frame)
            &&& step.report->0.message is None
            &&& (step.report->0.status is LiveController) == (attempt.actual_role is Control)
            &&& (step.report->0.status is OwnedReadOnly) == (attempt.actual_role is Observe
                && attempt.reported_role is Control)
            &&& (step.report->0.status is LiveObserver) == (attempt.actual_role is Observe
                && attempt.reported_role is Observe)
            &&& after_read(
                attempt,
                StreamRead::Message(StreamMessage::Frame(frame)),
            ).received_frame
        }),
{
}

/// A stream goes on until the host closes it, it breaks off or it cannot be read. Then
/// nothing can be written to it any more.
pub proof fn streams_end_where_they_are_closed(
    attempt: StreamAttempt,
    desired: DesiredStream,
    generation: u64,
    read: StreamRead,
)
    ensures
        ({
            let step = read_step(attempt, desired, generation, read);
            &&& (step.end is Some) == (match read {
                StreamRead::Message(StreamMessage::ServerShutdown { .. }) => true,
                StreamRead::Message(_) => false,
                StreamRead::UnexpectedEof => true,
                StreamRead::Failed(_) => true,
            })
            &&& step.end is Some ==> step.change == Some(StreamChange::Writable(false))
            &&& step.drop_writer == (read matches StreamRead::Message(
                StreamMessage::ServerShutdown { .. },
            ))
            &&& step.end is Some ==> step.report is None
            &&& read matches StreamRead::Message(StreamMessage::MouseCapture { enabled }) ==> (
            step.change == Some(StreamChange::Capture(MouseCapture::Enabled))) == enabled && (
            step.change == Some(StreamChange::Capture(MouseCapture::Disabled))) == !enabled
                && step.report is None
        }),
{
}

/// Somebody else's control is met only by a stream that asked for control and has
/// seen no frame, when the host says so; the reason is told in the host's own words.
pub proof fn conflicts_are_what_the_host_says(attempt: StreamAttempt, reason: String)
    ensures
        ({
            let owned = (exists|i: int|
                #[trigger] stands_at(reason@, "already has an attached client"@, i)) || exists|
                i: int,
            |
                #[trigger] stands_at(reason@, "already has a controller"@, i);
            match shutdown_end(attempt, Some(reason)) {
                EndView::OwnershipConflict(said) => said == reason@ && owned
                    && attempt.actual_role is Control && !attempt.received_frame,
                EndView::Closed(said) => said == reason@ && !(owned && attempt.actual_role is Control
                    && !attempt.received_frame),
            }
        }),
{
}

/// How an attempt that did what it was to do ends: where somebody else controls the
/// terminal, it is watched instead and shown read-only; any other end is told with
/// its reason, as one that needs attention exactly where input was sent.
pub proof fn ends_are_told(
    attempt: StreamAttempt,
    desired: DesiredStream,
    generation: u64,
    input_sent: bool,
    end: EndView,
)
    requires
        attempt.actual_role == attempt.reported_role,
    ensures
        ({
            let outcome = attempt_outcome(attempt, desired, generation, input_sent, end);
            &&& outcome.report is Some
            &&& outcome.report->0.key == desired.key
            &&& outcome.report->0.generation == generation
            &&& outcome.report->0.role == desired.role
            &&& outcome.report->0.frame is None
            &&& outcome.changes.contains(StreamChange::Writable(false))
            &&& match end {
                EndView::OwnershipConflict(reason) => {
                    &&& outcome.report->0.status is OwnedReadOnly
                    &&& outcome.report->0.message == Some(reason)
                    &&& outcome.next matches Some(next) && next.actual_role is Observe
                        && next.reported_role is Control && !next.received_frame
                    &&& !outcome.changes.contains(StreamChange::Ended)
                    &&& outcome.changes.contains(StreamChange::Capture(MouseCapture::Unknown))
                },
                EndView::Closed(reason) => {
                    &&& (outcome.report->0.status is NeedsAttention) == input_sent
                    &&& (outcome.report->0.status is Disconnected) == !input_sent
                    &&& outcome.report->0.message == Some(reason)
                    &&& outcome.next is None
                    &&& outcome.changes.contains(StreamChange::Ended)
                },
            }
        }),
{
    let outcome = attempt_outcome(attempt, desired, generation, input_sent, end);
    assert(outcome.changes[0] == StreamChange::Writable(false));
    match end {
        EndView::OwnershipConflict(_) => {
            assert(outcome.changes[1] == StreamChange::Capture(MouseCapture::Unknown));
        },
        EndView::Closed(_) => {
            assert(outcome.changes[1] == StreamChange::Ended);
        },
    }
}

} // verus!
