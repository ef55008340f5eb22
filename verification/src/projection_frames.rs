//! The frames of the shown remote workspace.
//!
//! Every change of what is shown starts a new generation. A frame is taken up
//! only under the current generation, for a terminal that was admitted under it,
//! and while its workspace is still selected.
use vstd::prelude::*;
use crate::projection_plan::{
    RemoteProjectionStreamRole, RemoteProjectionStreamStatus, RemoteProjectionTerminalKey,
};
use crate::remote_source::RemoteSpaceKey;
use crate::search::{first_where, lemma_first_found, lemma_first_holds, lemma_first_missing, put};

verus! {

/// What is shown of one terminal.
#[derive(Debug, PartialEq, Eq)]
pub struct ProjectionFrame {
    pub key: RemoteProjectionTerminalKey,
    /// The generation under which the terminal was admitted.
    pub generation: u64,
    pub role: RemoteProjectionStreamRole,
    pub status: RemoteProjectionStreamStatus,
    /// The number under which the last frame is kept.
    pub frame: Option<u64>,
    pub message: Option<String>,
}

/// What a [`ProjectionFrame`] holds.
#[verifier::ext_equal]
pub struct FrameView {
    pub key: RemoteProjectionTerminalKey,
    pub generation: u64,
    pub role: RemoteProjectionStreamRole,
    pub status: RemoteProjectionStreamStatus,
    pub frame: Option<u64>,
    pub message: Option<Seq<char>>,
}

pub open spec fn text_view(text: Option<String>) -> Option<Seq<char>> {
    match text {
        Some(text) => Some(text@),
        None => None,
    }
}

impl View for ProjectionFrame {
    type V = FrameView;

    open spec fn view(&self) -> FrameView {
        FrameView {
            key: self.key,
            generation: self.generation,
            role: self.role,
            status: self.status,
            frame: self.frame,
            message: text_view(self.message),
        }
    }
}

/// A terminal that is admitted, and how it stands.
#[derive(Debug, PartialEq, Eq)]
pub struct StreamSeed {
    pub key: RemoteProjectionTerminalKey,
    pub role: RemoteProjectionStreamRole,
    pub status: RemoteProjectionStreamStatus,
    pub message: Option<String>,
}

/// What a [`StreamSeed`] holds.
#[verifier::ext_equal]
pub struct SeedView {
    pub key: RemoteProjectionTerminalKey,
    pub role: RemoteProjectionStreamRole,
    pub status: RemoteProjectionStreamStatus,
    pub message: Option<Seq<char>>,
}

impl View for StreamSeed {
    type V = SeedView;

    open spec fn view(&self) -> SeedView {
        SeedView {
            key: self.key,
            role: self.role,
            status: self.status,
            message: text_view(self.message),
        }
    }
}

pub open spec fn seed_views(seeds: Seq<StreamSeed>) -> Seq<SeedView> {
    seeds.map_values(|seed: StreamSeed| seed@)
}

/// What a stream reports about its terminal.
#[derive(Debug, PartialEq, Eq)]
pub struct StreamReport {
    pub key: RemoteProjectionTerminalKey,
    pub generation: u64,
    pub role: RemoteProjectionStreamRole,
    pub status: RemoteProjectionStreamStatus,
    pub frame: Option<u64>,
    pub message: Option<String>,
}

/// What a [`StreamReport`] holds.
#[verifier::ext_equal]
pub struct ReportView {
    pub key: RemoteProjectionTerminalKey,
    pub generation: u64,
    pub role: RemoteProjectionStreamRole,
    pub status: RemoteProjectionStreamStatus,
    pub frame: Option<u64>,
    pub message: Option<Seq<char>>,
}

impl View for StreamReport {
    type V = ReportView;

    open spec fn view(&self) -> ReportView {
        ReportView {
            key: self.key,
            generation: self.generation,
            role: self.role,
            status: self.status,
            frame: self.frame,
            message: text_view(self.message),
        }
    }
}

/// The frames of the shown workspace.
#[derive(Debug, PartialEq, Eq)]
pub struct ProjectionFrames {
    pub generation: u64,
    pub frames: Vec<ProjectionFrame>,
}

/// What [`ProjectionFrames`] hold.
#[verifier::ext_equal]
pub struct FramesView {
    pub generation: u64,
    pub frames: Seq<FrameView>,
}

impl View for ProjectionFrames {
    type V = FramesView;

    open spec fn view(&self) -> FramesView {
        FramesView {
            generation: self.generation,
            frames: self.frames@.map_values(|frame: ProjectionFrame| frame@),
        }
    }
}

/// The generation after `generation`. Zero stands for none.
pub open spec fn next_generation(generation: u64) -> u64 {
    if generation == u64::MAX {
        1
    } else {
        (generation + 1) as u64
    }
}

/// Whether a terminal belongs to a workspace.
pub open spec fn in_space(key: RemoteProjectionTerminalKey, space: RemoteSpaceKey) -> bool {
    key.host@ == space.host@ && key.session@ == space.session@ && key.workspace_id@
        == space.workspace_id@
}

pub fn belongs_to(key: &RemoteProjectionTerminalKey, space: &RemoteSpaceKey) -> (belongs: bool)
    ensures
        belongs == in_space(*key, *space),
{
    key.host == space.host && key.session == space.session && key.workspace_id
        == space.workspace_id
}

/// The frames of one workspace, in their order.
pub open spec fn frames_of(frames: Seq<FrameView>, space: RemoteSpaceKey) -> Seq<FrameView>
    decreases frames.len(),
{
    if frames.len() == 0 {
        frames
    } else if in_space(frames.last().key, space) {
        frames_of(frames.drop_last(), space).push(frames.last())
    } else {
        frames_of(frames.drop_last(), space)
    }
}

/// A new generation for `next`. Frames stay only where they may be shown as last
/// known, and only those of the same workspace.
pub open spec fn after_begin(
    frames: FramesView,
    next: Option<RemoteSpaceKey>,
    preserve_last_known: bool,
) -> FramesView {
    FramesView {
        generation: next_generation(frames.generation),
        frames: match next {
            Some(space) => if preserve_last_known {
                frames_of(frames.frames, space)
            } else {
                Seq::empty()
            },
            None => Seq::empty(),
        },
    }
}

pub open spec fn frame_is(key: (Seq<char>, Seq<char>, Seq<char>, Seq<char>)) -> spec_fn(
    FrameView,
) -> bool {
    |frame: FrameView| frame.key@ == key
}

/// The frames once a terminal is admitted: what was last shown of it stays.
pub open spec fn with_seed(frames: Seq<FrameView>, generation: u64, seed: SeedView) -> Seq<FrameView> {
    put(
        frames,
        frame_is(seed.key@),
        FrameView {
            key: seed.key,
            generation,
            role: seed.role,
            status: seed.status,
            frame: match first_where(frames, frame_is(seed.key@)) {
                Some(i) => frames[i].frame,
                None => None,
            },
            message: seed.message,
        },
    )
}

pub open spec fn with_seeds(
    frames: Seq<FrameView>,
    generation: u64,
    seeds: Seq<SeedView>,
) -> Seq<FrameView>
    decreases seeds.len(),
{
    if seeds.len() == 0 {
        frames
    } else {
        with_seed(with_seeds(frames, generation, seeds.drop_last()), generation, seeds.last())
    }
}

/// The frames once terminals are admitted under `generation`. Under any but the
/// current one nothing is admitted.
pub open spec fn after_seeding(
    frames: FramesView,
    generation: u64,
    seeds: Seq<SeedView>,
) -> FramesView {
    if generation != frames.generation {
        frames
    } else {
        FramesView { frames: with_seeds(frames.frames, generation, seeds), ..frames }
    }
}

/// Where the terminal of a report stands, where the report is taken up.
pub open spec fn reported_place(
    frames: FramesView,
    selected: Option<RemoteSpaceKey>,
    key: RemoteProjectionTerminalKey,
    generation: u64,
) -> Option<int> {
    if generation != frames.generation || selected is None || !in_space(key, selected->0) {
        None
    } else {
        match first_where(frames.frames, frame_is(key@)) {
            Some(i) => if frames.frames[i].generation == generation {
                Some(i)
            } else {
                None
            },
            None => None,
        }
    }
}

/// The frames after a report. Without a new frame, the last one stays.
pub open spec fn after_stream_report(
    frames: FramesView,
    selected: Option<RemoteSpaceKey>,
    report: ReportView,
) -> FramesView {
    match reported_place(frames, selected, report.key, report.generation) {
        Some(i) => FramesView {
            frames: frames.frames.update(
                i,
                FrameView {
                    role: report.role,
                    status: report.status,
                    frame: match report.frame {
                        Some(frame) => Some(frame),
                        None => frames.frames[i].frame,
                    },
                    message: report.message,
                    ..frames.frames[i]
                },
            ),
            ..frames
        },
        None => frames,
    }
}

impl ProjectionFrames {
    pub fn new() -> (frames: Self)
        ensures
            frames@ == (FramesView { generation: 0, frames: Seq::empty() }),
    {
        let frames = ProjectionFrames { generation: 0, frames: Vec::new() };
        assert(frames@.frames =~= Seq::empty());
        frames
    }

    fn index_of(&self, key: &RemoteProjectionTerminalKey) -> (found: Option<usize>)
        ensures
            match found {
                Some(i) => i < self.frames@.len() && first_where(
                    self@.frames,
                    frame_is(key@),
                ) == Some(i as int),
                None => first_where(self@.frames, frame_is(key@)) is None,
            },
    {
        let mut i: usize = 0;
        while i < self.frames.len()
            invariant
                i <= self.frames@.len(),
                forall|j: int| 0 <= j < i ==> !frame_is(key@)(#[trigger] self@.frames[j]),
            decreases self.frames@.len() - i,
        {
            if self.frames[i].key.same(key) {
                proof {
                    lemma_first_found(self@.frames, frame_is(key@), i as int);
                }
                return Some(i);
            }
            assert(!frame_is(key@)(self@.frames[i as int]));
            i = i + 1;
        }
        proof {
            lemma_first_missing(self@.frames, frame_is(key@));
        }
        None
    }

    /// The status of one shown terminal.
    pub fn status_of(&self, key: &RemoteProjectionTerminalKey) -> (status: Option<
        RemoteProjectionStreamStatus,
    >)
        ensures
            status == match first_where(self@.frames, frame_is(key@)) {
                Some(i) => Some(self@.frames[i].status),
                None => None,
            },
    {
        match self.index_of(key) {
            Some(i) => Some(self.frames[i].status),
            None => None,
        }
    }

    /// Starts a new generation for `next`.
    pub fn begin_remote_projection_generation(
        &mut self,
        next: &Option<RemoteSpaceKey>,
        preserve_last_known: bool,
    ) -> (generation: u64)
        ensures
            final(self)@ == after_begin(old(self)@, *next, preserve_last_known),
            generation == final(self)@.generation,
    {
        let mut kept: Vec<ProjectionFrame> = Vec::new();
        let ghost all = self@.frames;
        if let Some(space) = next {
            if preserve_last_known {
                let mut rest: Vec<ProjectionFrame> = Vec::new();
                std::mem::swap(&mut self.frames, &mut rest);
                let ghost mut done: int = 0;
                let ghost whole = rest@;
                assert(rest@ =~= whole.skip(0));
                assert(all.take(0) =~= Seq::empty());
                assert(kept@.map_values(|frame: ProjectionFrame| frame@) =~= Seq::empty());
                while rest.len() > 0
                    invariant
                        0 <= done <= whole.len(),
                        rest@ == whole.skip(done),
                        all == whole.map_values(|frame: ProjectionFrame| frame@),
                        kept@.map_values(|frame: ProjectionFrame| frame@) == frames_of(
                            all.take(done),
                            *space,
                        ),
                    decreases rest@.len(),
                {
                    let frame = rest.remove(0);
                    proof {
                        let taken = all.take(done + 1);
                        assert(taken.drop_last() =~= all.take(done));
                        assert(taken.last() == frame@);
                        assert(rest@ =~= whole.skip(done + 1));
                        done = done + 1;
                    }
                    if belongs_to(&frame.key, space) {
                        let ghost before = kept@;
                        kept.push(frame);
                        assert(kept@.map_values(|frame: ProjectionFrame| frame@)
                            =~= before.map_values(|frame: ProjectionFrame| frame@).push(frame@));
                    }
                }
                assert(all.take(done) =~= all);
            }
        }
        assert(kept@.map_values(|frame: ProjectionFrame| frame@) =~= after_begin(
            old(self)@,
            *next,
            preserve_last_known,
        ).frames);
        self.frames = kept;
        self.generation = if self.generation == u64::MAX {
            1
        } else {
            self.generation + 1
        };
        self.generation
    }

    fn put_seed(&mut self, generation: u64, seed: StreamSeed)
        ensures
            final(self)@ == (FramesView {
                frames: with_seed(old(self)@.frames, generation, seed@),
                ..old(self)@
            }),
    {
        let found = self.index_of(&seed.key);
        let frame: Option<u64> = match found {
            Some(i) => self.frames[i].frame,
            None => None,
        };
        let entry = ProjectionFrame {
            key: seed.key,
            generation,
            role: seed.role,
            status: seed.status,
            frame,
            message: seed.message,
        };
        match found {
            Some(i) => {
                self.frames[i] = entry;
                assert(self@.frames =~= old(self)@.frames.update(i as int, entry@));
            },
            None => {
                self.frames.push(entry);
                assert(self@.frames =~= old(self)@.frames.push(entry@));
            },
        }
    }

    /// Admits terminals under `generation`.
    pub fn seed_remote_projection_streams(&mut self, generation: u64, seeds: Vec<StreamSeed>)
        ensures
            final(self)@ == after_seeding(old(self)@, generation, seed_views(seeds@)),
    {
        if generation != self.generation {
            return;
        }
        let mut rest = seeds;
        let ghost all = seed_views(seeds@);
        let ghost mut done: int = 0;
        assert(rest@ =~= seeds@.skip(0));
        assert(all.take(0) =~= Seq::empty());
        while rest.len() > 0
            invariant
                0 <= done <= seeds@.len(),
                rest@ == seeds@.skip(done),
                all == seed_views(seeds@),
                self@ == (FramesView {
                    frames: with_seeds(old(self)@.frames, generation, all.take(done)),
                    ..old(self)@
                }),
            decreases rest@.len(),
        {
            let seed = rest.remove(0);
            proof {
                let taken = all.take(done + 1);
                assert(taken.drop_last() =~= all.take(done));
                assert(taken.last() == seed@);
                assert(rest@ =~= seeds@.skip(done + 1));
                done = done + 1;
            }
            self.put_seed(generation, seed);
        }
        assert(all.take(done) =~= all);
    }

    /// Takes up a stream's report, unless it comes from an earlier generation,
    /// from a terminal that was not admitted or from another workspace.
    pub fn apply_remote_projection_stream_event(
        &mut self,
        selected: &Option<RemoteSpaceKey>,
        report: StreamReport,
    )
        ensures
            final(self)@ == after_stream_report(old(self)@, *selected, report@),
    {
        if report.generation != self.generation {
            return;
        }
        match selected {
            Some(space) => {
                if !belongs_to(&report.key, space) {
                    return;
                }
            },
            None => {
                return;
            },
        }
        match self.index_of(&report.key) {
            Some(i) => {
                if self.frames[i].generation != report.generation {
                    return;
                }
                let ghost before = self@.frames;
                self.frames[i].role = report.role;
                self.frames[i].status = report.status;
                if report.frame.is_some() {
                    self.frames[i].frame = report.frame;
                }
                self.frames[i].message = report.message;
                assert(self@.frames =~= before.update(i as int, self@.frames[i as int]));
            },
            None => {},
        }
    }
}

// Laws -------------------------------------------------------------------

/// A report from before the current generation changes nothing.
pub proof fn late_reports_are_refused(
    frames: FramesView,
    selected: Option<RemoteSpaceKey>,
    report: ReportView,
)
    requires
        report.generation != frames.generation,
    ensures
        after_stream_report(frames, selected, report) == frames,
{
}

/// A report about a terminal that was not admitted under the current generation
/// changes nothing.
pub proof fn unadmitted_reports_are_refused(
    frames: FramesView,
    selected: Option<RemoteSpaceKey>,
    report: ReportView,
)
    requires
        forall|i: int|
            0 <= i < frames.frames.len() ==> !((#[trigger] frames.frames[i]).key@ == report.key@
                && frames.frames[i].generation == report.generation),
    ensures
        after_stream_report(frames, selected, report) == frames,
{
    lemma_first_holds(frames.frames, frame_is(report.key@));
}

/// Switching to another workspace clears what was shown, and a report of the
/// former generation is refused from then on.
pub proof fn switching_forgets_the_former_workspace(
    frames: FramesView,
    next: Option<RemoteSpaceKey>,
    selected: Option<RemoteSpaceKey>,
    report: ReportView,
)
    requires
        report.generation == frames.generation,
        frames.generation != 0,
    ensures
        after_begin(frames, next, false).frames.len() == 0,
        after_stream_report(after_begin(frames, next, false), selected, report) == after_begin(
            frames,
            next,
            false,
        ),
{
    lemma_first_missing(Seq::<FrameView>::empty(), frame_is(report.key@));
}

} // verus!
