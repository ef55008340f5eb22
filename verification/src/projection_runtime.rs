//! The streams that show the selected remote workspace.
//!
//! One bridge per shown workspace carries one stream per pane. Reconciling
//! compares what should be open with what is: nothing changes, panes are resized,
//! or everything is closed and opened anew under a fresh generation. Opening,
//! closing and writing are done elsewhere.
use vstd::prelude::*;
use std::sync::Arc;
use crate::projection_frames::{
    after_begin, after_seeding, frame_is, seed_views, FramesView, ProjectionFrames, ReportView,
    SeedView, StreamReport, StreamSeed,
};
use crate::projection_plan::{
    admission, plan_projection_admission, terminal_key, AdmissionView, DesiredStream,
    ProjectionAdmission, RemoteProjectionHitArea, RemoteProjectionStreamRole,
    RemoteProjectionStreamStatus, RemoteProjectionTerminalKey,
};
use crate::remote_source::{RemoteApiBridgeState, RemoteSources, RemoteSpaceKey};
use crate::remote_target::{configured, RemoteHostConfig, RemoteHostRegistry};
use crate::search::{
    first_where, lemma_first_found, lemma_first_holds, lemma_first_missing, lemma_put_one_each,
    one_each, put,
};
use crate::text::{concat2, concat3, same_text};

verus! {

/// Whether a remote terminal wants mouse events, as far as it said so.
#[derive(Debug, Clone, Copy, PartialEq, Eq, Structural)]
pub enum MouseCapture {
    Unknown,
    Disabled,
    Enabled,
}

/// One open stream.
#[derive(Debug, PartialEq, Eq)]
pub struct ProjectionStreamHandle {
    /// Its own number: a stream that took its place has another.
    pub serial: u64,
    pub terminal_id: String,
    pub role: RemoteProjectionStreamRole,
    pub writable: bool,
    pub input_sent: bool,
    pub mouse_capture: MouseCapture,
    pub done: bool,
}

/// What the open streams were opened for.
#[derive(Debug, PartialEq, Eq)]
pub struct ProjectionSignature {
    pub source: RemoteSpaceKey,
    pub prepared_shell_path: String,
    pub streams: Vec<DesiredStream>,
}

/// What a [`ProjectionSignature`] holds.
#[verifier::ext_equal]
pub struct SignatureView {
    pub source: RemoteSpaceKey,
    pub prepared_shell_path: String,
    pub streams: Seq<DesiredStream>,
}

impl View for ProjectionSignature {
    type V = SignatureView;

    open spec fn view(&self) -> SignatureView {
        SignatureView {
            source: self.source,
            prepared_shell_path: self.prepared_shell_path,
            streams: self.streams@,
        }
    }
}

pub open spec fn same_terminal_and_role(a: DesiredStream, b: DesiredStream) -> bool {
    a.key@ == b.key@ && a.role == b.role
}

pub open spec fn same_size(a: DesiredStream, b: DesiredStream) -> bool {
    a.cols == b.cols && a.rows == b.rows
}

/// Whether both need the same streams, whatever the sizes of the panes.
pub open spec fn same_identity(a: SignatureView, b: SignatureView) -> bool {
    &&& a.source@ == b.source@
    &&& a.prepared_shell_path@ == b.prepared_shell_path@
    &&& a.streams.len() == b.streams.len()
    &&& forall|i: int|
        0 <= i < a.streams.len() ==> same_terminal_and_role(#[trigger] a.streams[i], b.streams[i])
}

/// Whether both need the same streams in panes of the same sizes.
pub open spec fn same_signature(a: SignatureView, b: SignatureView) -> bool {
    &&& same_identity(a, b)
    &&& forall|i: int|
        0 <= i < a.streams.len() ==> same_size(#[trigger] a.streams[i], b.streams[i])
}

impl ProjectionSignature {
    /// Whether both need the same streams, whatever the sizes of the panes.
    pub fn same_stream_identity(&self, other: &Self) -> (same: bool)
        ensures
            same == same_identity(self@, other@),
    {
        if !self.source.same(&other.source) || !same_text(
            self.prepared_shell_path.as_str(),
            other.prepared_shell_path.as_str(),
        ) || self.streams.len() != other.streams.len() {
            return false;
        }
        let mut i: usize = 0;
        while i < self.streams.len()
            invariant
                i <= self.streams@.len(),
                self.streams@.len() == other.streams@.len(),
                forall|j: int|
                    0 <= j < i ==> same_terminal_and_role(
                        #[trigger] self@.streams[j],
                        other@.streams[j],
                    ),
            decreases self.streams@.len() - i,
        {
            if !self.streams[i].key.same(&other.streams[i].key) || self.streams[i].role
                != other.streams[i].role {
                assert(!same_terminal_and_role(self@.streams[i as int], other@.streams[i as int]));
                return false;
            }
            i = i + 1;
        }
        true
    }

    /// Whether both need the same streams in panes of the same sizes.
    pub fn same(&self, other: &Self) -> (same: bool)
        ensures
            same == same_signature(self@, other@),
    {
        if !self.same_stream_identity(other) {
            return false;
        }
        let mut i: usize = 0;
        while i < self.streams.len()
            invariant
                i <= self.streams@.len(),
                self.streams@.len() == other.streams@.len(),
                forall|j: int|
                    0 <= j < i ==> same_size(#[trigger] self@.streams[j], other@.streams[j]),
            decreases self.streams@.len() - i,
        {
            if self.streams[i].cols != other.streams[i].cols || self.streams[i].rows
                != other.streams[i].rows {
                assert(!same_size(self@.streams[i as int], other@.streams[i as int]));
                return false;
            }
            i = i + 1;
        }
        true
    }
}

/// What is open.
#[derive(Debug, PartialEq, Eq)]
pub struct RemoteProjectionRuntime {
    pub source: Option<RemoteSpaceKey>,
    pub signature: Option<ProjectionSignature>,
    pub generation: u64,
    pub bridge_open: bool,
    pub streams: Vec<ProjectionStreamHandle>,
}

/// What a [`RemoteProjectionRuntime`] holds.
#[verifier::ext_equal]
pub struct RuntimeView {
    pub source: Option<RemoteSpaceKey>,
    pub signature: Option<SignatureView>,
    pub generation: u64,
    pub bridge_open: bool,
    pub streams: Seq<ProjectionStreamHandle>,
}

impl View for RemoteProjectionRuntime {
    type V = RuntimeView;

    open spec fn view(&self) -> RuntimeView {
        RuntimeView {
            source: self.source,
            signature: match self.signature {
                Some(signature) => Some(signature@),
                None => None,
            },
            generation: self.generation,
            bridge_open: self.bridge_open,
            streams: self.streams@,
        }
    }
}

/// A pane to be resized: the number of its stream and its new size.
#[derive(Debug, Clone, Copy, PartialEq, Eq, Structural)]
pub struct ResizeTarget {
    pub serial: u64,
    pub cols: u16,
    pub rows: u16,
}

/// What to do about the streams.
#[allow(inconsistent_fields)]
#[derive(Debug, PartialEq, Eq)]
pub enum ReconcileStep {
    Idle,
    /// These streams ended by themselves: their workers can be joined.
    Prune(Vec<u64>),
    /// Tell these streams the new sizes of their panes.
    Resize(Vec<ResizeTarget>),
    /// Open a bridge to the host, and these streams through it.
    Open {
        host: RemoteHostConfig,
        prepared: Arc<RemoteApiBridgeState>,
        generation: u64,
        streams: Vec<DesiredStream>,
    },
}

/// What a [`ReconcileStep`] holds.
#[allow(inconsistent_fields)]
#[verifier::ext_equal]
pub enum StepView {
    Idle,
    Prune(Seq<u64>),
    Resize(Seq<ResizeTarget>),
    Open {
        host: RemoteHostConfig,
        prepared: Arc<RemoteApiBridgeState>,
        generation: u64,
        streams: Seq<DesiredStream>,
    },
}

impl View for ReconcileStep {
    type V = StepView;

    open spec fn view(&self) -> StepView {
        match self {
            ReconcileStep::Idle => StepView::Idle,
            ReconcileStep::Prune(serials) => StepView::Prune(serials@),
            ReconcileStep::Resize(targets) => StepView::Resize(targets@),
            ReconcileStep::Open { host, prepared, generation, streams } => StepView::Open {
                host: *host,
                prepared: *prepared,
                generation: *generation,
                streams: streams@,
            },
        }
    }
}

/// What reconciling came to: whether everything that was open is to be closed
/// first, and what to do then.
#[derive(Debug, PartialEq, Eq)]
pub struct Reconciled {
    pub teardown: bool,
    pub step: ReconcileStep,
}

// Streams ----------------------------------------------------------------

/// The streams that ended by themselves.
pub open spec fn finished_serials(streams: Seq<ProjectionStreamHandle>) -> Seq<u64>
    decreases streams.len(),
{
    if streams.len() == 0 {
        Seq::empty()
    } else if streams.last().done {
        finished_serials(streams.drop_last()).push(streams.last().serial)
    } else {
        finished_serials(streams.drop_last())
    }
}

/// The streams that still run, in their order.
pub open spec fn running_streams(streams: Seq<ProjectionStreamHandle>) -> Seq<ProjectionStreamHandle>
    decreases streams.len(),
{
    if streams.len() == 0 {
        streams
    } else if streams.last().done {
        running_streams(streams.drop_last())
    } else {
        running_streams(streams.drop_last()).push(streams.last())
    }
}

pub open spec fn stream_of(terminal_id: Seq<char>) -> spec_fn(ProjectionStreamHandle) -> bool {
    |handle: ProjectionStreamHandle| handle.terminal_id@ == terminal_id
}

pub open spec fn stream_numbered(serial: u64) -> spec_fn(ProjectionStreamHandle) -> bool {
    |handle: ProjectionStreamHandle| handle.serial == serial
}

/// The open streams among those wanted, with the sizes wanted.
pub open spec fn resize_targets(
    streams: Seq<ProjectionStreamHandle>,
    wanted: Seq<DesiredStream>,
) -> Seq<ResizeTarget>
    decreases wanted.len(),
{
    if wanted.len() == 0 {
        Seq::empty()
    } else {
        let before = resize_targets(streams, wanted.drop_last());
        match first_where(streams, stream_of(wanted.last().key.terminal_id@)) {
            Some(i) => before.push(
                ResizeTarget {
                    serial: streams[i].serial,
                    cols: wanted.last().cols,
                    rows: wanted.last().rows,
                },
            ),
            None => before,
        }
    }
}

// Reconciling ------------------------------------------------------------

pub open spec fn admission_source(wanted: AdmissionView) -> Option<RemoteSpaceKey> {
    match wanted {
        AdmissionView::Inactive => None,
        AdmissionView::Waiting { source, .. } => Some(source),
        AdmissionView::Ready { source, .. } => Some(source),
    }
}

pub open spec fn same_source(a: Option<RemoteSpaceKey>, b: Option<RemoteSpaceKey>) -> bool {
    match (a, b) {
        (Some(a), Some(b)) => a@ == b@,
        (None, None) => true,
        _ => false,
    }
}

/// Nothing open, under a new generation.
pub open spec fn torn_down(runtime: RuntimeView, generation: u64) -> RuntimeView {
    RuntimeView {
        signature: None,
        generation,
        bridge_open: false,
        streams: Seq::empty(),
        ..runtime
    }
}

/// Following the selection: another workspace closes everything under a new
/// generation, before anything else happens.
pub open spec fn followed(
    runtime: RuntimeView,
    frames: FramesView,
    next: Option<RemoteSpaceKey>,
) -> (RuntimeView, FramesView, bool) {
    if !same_source(runtime.source, next) {
        let begun = after_begin(frames, next, false);
        (RuntimeView { source: next, ..torn_down(runtime, begun.generation) }, begun, true)
    } else if runtime.generation == 0 && next is Some {
        let begun = after_begin(frames, next, false);
        (RuntimeView { generation: begun.generation, ..runtime }, begun, false)
    } else {
        (runtime, frames, false)
    }
}

pub open spec fn role_seeds(
    streams: Seq<(RemoteProjectionTerminalKey, RemoteProjectionStreamRole)>,
    status: RemoteProjectionStreamStatus,
    message: Seq<char>,
) -> Seq<SeedView> {
    Seq::new(
        streams.len(),
        |i: int|
            SeedView { key: streams[i].0, role: streams[i].1, status, message: Some(message) },
    )
}

pub open spec fn desired_seeds(
    streams: Seq<DesiredStream>,
    status: RemoteProjectionStreamStatus,
    message: Seq<char>,
) -> Seq<SeedView> {
    Seq::new(
        streams.len(),
        |i: int|
            SeedView {
                key: streams[i].key,
                role: streams[i].role,
                status,
                message: Some(message),
            },
    )
}

/// The configured host of the workspace, under the session it was selected in.
pub open spec fn source_host(
    hosts: Seq<RemoteHostConfig>,
    source: RemoteSpaceKey,
) -> Option<RemoteHostConfig> {
    match configured(hosts, source.host@) {
        Some(host) => if host.session@ == source.session@ {
            Some(host)
        } else {
            None
        },
        None => None,
    }
}

/// What streams are opened for.
pub open spec fn wanted_signature(
    source: RemoteSpaceKey,
    prepared: Arc<RemoteApiBridgeState>,
    streams: Seq<DesiredStream>,
) -> SignatureView {
    SignatureView { source, prepared_shell_path: prepared.shell_path, streams }
}

/// Reconciling with streams that should be open.
pub open spec fn reconciled_ready(
    runtime: RuntimeView,
    frames: FramesView,
    torn: bool,
    source: RemoteSpaceKey,
    prepared: Arc<RemoteApiBridgeState>,
    streams: Seq<DesiredStream>,
    hosts: Seq<RemoteHostConfig>,
    streaming: bool,
) -> (RuntimeView, FramesView, bool, StepView) {
    let wanted = wanted_signature(source, prepared, streams);
    if runtime.signature matches Some(existing) && same_signature(existing, wanted) {
        (
            RuntimeView { streams: running_streams(runtime.streams), ..runtime },
            frames,
            torn,
            StepView::Prune(finished_serials(runtime.streams)),
        )
    } else if runtime.signature matches Some(existing) && same_identity(existing, wanted) {
        (
            RuntimeView { signature: Some(wanted), ..runtime },
            frames,
            torn,
            StepView::Resize(resize_targets(runtime.streams, streams)),
        )
    } else {
        let begun = after_begin(frames, Some(source), true);
        let opening = after_seeding(
            begun,
            begun.generation,
            desired_seeds(
                streams,
                RemoteProjectionStreamStatus::Connecting,
                "opening no-start terminal session stream"@,
            ),
        );
        let next = RuntimeView {
            signature: Some(wanted),
            ..torn_down(runtime, begun.generation)
        };
        if !streaming {
            (
                next,
                after_seeding(
                    opening,
                    begun.generation,
                    desired_seeds(
                        streams,
                        RemoteProjectionStreamStatus::Unsupported,
                        "in-place remote terminal streaming is unsupported on Windows"@,
                    ),
                ),
                true,
                StepView::Idle,
            )
        } else {
            match source_host(hosts, source) {
                Some(host) => (
                    next,
                    opening,
                    true,
                    StepView::Open { host, prepared, generation: begun.generation, streams },
                ),
                None => (
                    next,
                    after_seeding(
                        opening,
                        begun.generation,
                        desired_seeds(
                            streams,
                            RemoteProjectionStreamStatus::NeedsAttention,
                            "selected remote host/session is no longer configured"@,
                        ),
                    ),
                    true,
                    StepView::Idle,
                ),
            }
        }
    }
}

/// Reconciling what is open with what should be.
pub open spec fn reconciled(
    runtime: RuntimeView,
    frames: FramesView,
    wanted: AdmissionView,
    hosts: Seq<RemoteHostConfig>,
    streaming: bool,
) -> (RuntimeView, FramesView, bool, StepView) {
    let (runtime, frames, torn) = followed(runtime, frames, admission_source(wanted));
    match wanted {
        AdmissionView::Inactive => (runtime, frames, torn, StepView::Idle),
        AdmissionView::Waiting { source, streams, status, message, preserve_last_known } => if runtime.bridge_open
            || runtime.signature is Some {
            let begun = after_begin(frames, Some(source), preserve_last_known);
            (
                torn_down(runtime, begun.generation),
                after_seeding(begun, begun.generation, role_seeds(streams, status, message)),
                true,
                StepView::Idle,
            )
        } else {
            (
                runtime,
                after_seeding(frames, runtime.generation, role_seeds(streams, status, message)),
                torn,
                StepView::Idle,
            )
        },
        AdmissionView::Ready { source, prepared, streams } => reconciled_ready(
            runtime,
            frames,
            torn,
            source,
            prepared,
            streams,
            hosts,
            streaming,
        ),
    }
}

fn seeds_for_roles(
    streams: &Vec<(RemoteProjectionTerminalKey, RemoteProjectionStreamRole)>,
    status: RemoteProjectionStreamStatus,
    message: &String,
) -> (seeds: Vec<StreamSeed>)
    ensures
        seed_views(seeds@) == role_seeds(streams@, status, message@),
{
    let mut seeds: Vec<StreamSeed> = Vec::new();
    let mut i: usize = 0;
    while i < streams.len()
        invariant
            i <= streams@.len(),
            seeds@.len() == i,
            forall|j: int|
                0 <= j < i ==> (#[trigger] seeds@[j])@ == role_seeds(streams@, status, message@)[j],
        decreases streams@.len() - i,
    {
        seeds.push(
            StreamSeed {
                key: streams[i].0.clone(),
                role: streams[i].1,
                status,
                message: Some(message.clone()),
            },
        );
        i = i + 1;
    }
    assert(seed_views(seeds@) =~= role_seeds(streams@, status, message@));
    seeds
}

fn seeds_for_streams(
    streams: &Vec<DesiredStream>,
    status: RemoteProjectionStreamStatus,
    message: &String,
) -> (seeds: Vec<StreamSeed>)
    ensures
        seed_views(seeds@) == desired_seeds(streams@, status, message@),
{
    let mut seeds: Vec<StreamSeed> = Vec::new();
    let mut i: usize = 0;
    while i < streams.len()
        invariant
            i <= streams@.len(),
            seeds@.len() == i,
            forall|j: int|
                0 <= j < i ==> (#[trigger] seeds@[j])@ == desired_seeds(
                    streams@,
                    status,
                    message@,
                )[j],
        decreases streams@.len() - i,
    {
        seeds.push(
            StreamSeed {
                key: streams[i].key.clone(),
                role: streams[i].role,
                status,
                message: Some(message.clone()),
            },
        );
        i = i + 1;
    }
    assert(seed_views(seeds@) =~= desired_seeds(streams@, status, message@));
    seeds
}

fn copy_streams(streams: &Vec<DesiredStream>) -> (copy: Vec<DesiredStream>)
    ensures
        copy@ == streams@,
{
    let mut copy: Vec<DesiredStream> = Vec::new();
    let mut i: usize = 0;
    while i < streams.len()
        invariant
            i <= streams@.len(),
            copy@.len() == i,
            forall|j: int| 0 <= j < i ==> #[trigger] copy@[j] == streams@[j],
        decreases streams@.len() - i,
    {
        copy.push(streams[i].clone());
        i = i + 1;
    }
    assert(copy@ =~= streams@);
    copy
}

impl RemoteProjectionRuntime {
    pub fn new() -> (runtime: Self)
        ensures
            runtime@ == (RuntimeView {
                source: None,
                signature: None,
                generation: 0,
                bridge_open: false,
                streams: Seq::empty(),
            }),
    {
        let runtime = RemoteProjectionRuntime {
            source: None,
            signature: None,
            generation: 0,
            bridge_open: false,
            streams: Vec::new(),
        };
        assert(runtime@.streams =~= Seq::empty());
        runtime
    }

    fn stream_index(&self, terminal_id: &String) -> (found: Option<usize>)
        ensures
            match found {
                Some(i) => i < self.streams@.len() && first_where(
                    self.streams@,
                    stream_of(terminal_id@),
                ) == Some(i as int),
                None => first_where(self.streams@, stream_of(terminal_id@)) is None,
            },
    {
        let mut i: usize = 0;
        while i < self.streams.len()
            invariant
                i <= self.streams@.len(),
                forall|j: int| 0 <= j < i ==> !stream_of(terminal_id@)(#[trigger] self.streams@[j]),
            decreases self.streams@.len() - i,
        {
            if self.streams[i].terminal_id == *terminal_id {
                proof {
                    lemma_first_found(self.streams@, stream_of(terminal_id@), i as int);
                }
                return Some(i);
            }
            i = i + 1;
        }
        proof {
            lemma_first_missing(self.streams@, stream_of(terminal_id@));
        }
        None
    }

    /// Forgets every stream and the bridge, under a new generation.
    fn teardown(&mut self, generation: u64)
        ensures
            final(self)@ == torn_down(old(self)@, generation),
    {
        self.signature = None;
        self.generation = generation;
        self.bridge_open = false;
        self.streams = Vec::new();
        assert(self@.streams =~= Seq::empty());
    }

    /// Drops the streams that ended by themselves.
    pub fn prune_finished_streams(&mut self) -> (finished: Vec<u64>)
        ensures
            finished@ == finished_serials(old(self)@.streams),
            final(self)@ == (RuntimeView {
                streams: running_streams(old(self)@.streams),
                ..old(self)@
            }),
    {
        let mut rest: Vec<ProjectionStreamHandle> = Vec::new();
        std::mem::swap(&mut self.streams, &mut rest);
        let ghost all = rest@;
        let mut running: Vec<ProjectionStreamHandle> = Vec::new();
        let mut finished: Vec<u64> = Vec::new();
        let ghost mut done: int = 0;
        assert(rest@ =~= all.skip(0));
        assert(all.take(0) =~= Seq::empty());
        while rest.len() > 0
            invariant
                0 <= done <= all.len(),
                rest@ == all.skip(done),
                running@ == running_streams(all.take(done)),
                finished@ == finished_serials(all.take(done)),
            decreases rest@.len(),
        {
            let handle = rest.remove(0);
            proof {
                let taken = all.take(done + 1);
                assert(taken.drop_last() =~= all.take(done));
                assert(taken.last() == handle);
                assert(rest@ =~= all.skip(done + 1));
                done = done + 1;
            }
            if handle.done {
                finished.push(handle.serial);
            } else {
                running.push(handle);
            }
        }
        assert(all.take(done) =~= all);
        self.streams = running;
        finished
    }

    /// The open streams whose panes have new sizes.
    pub fn resize_streams(&self, wanted: &Vec<DesiredStream>) -> (targets: Vec<ResizeTarget>)
        ensures
            targets@ == resize_targets(self@.streams, wanted@),
    {
        let mut targets: Vec<ResizeTarget> = Vec::new();
        let mut i: usize = 0;
        assert(wanted@.take(0) =~= Seq::empty());
        while i < wanted.len()
            invariant
                i <= wanted@.len(),
                targets@ == resize_targets(self@.streams, wanted@.take(i as int)),
            decreases wanted@.len() - i,
        {
            proof {
                let taken = wanted@.take(i as int + 1);
                assert(taken.drop_last() =~= wanted@.take(i as int));
                assert(taken.last() == wanted@[i as int]);
            }
            match self.stream_index(&wanted[i].key.terminal_id) {
                Some(s) => {
                    targets.push(
                        ResizeTarget {
                            serial: self.streams[s].serial,
                            cols: wanted[i].cols,
                            rows: wanted[i].rows,
                        },
                    );
                },
                None => {},
            }
            i = i + 1;
        }
        assert(wanted@.take(i as int) =~= wanted@);
        targets
    }

    /// Follows the selection.
    fn follow(&mut self, frames: &mut ProjectionFrames, next: &Option<RemoteSpaceKey>) -> (torn: bool)
        ensures
            (final(self)@, final(frames)@, torn) == followed(old(self)@, old(frames)@, *next),
    {
        let same = match (&self.source, next) {
            (Some(source), Some(next)) => source.same(next),
            (None, None) => true,
            _ => false,
        };
        if !same {
            let generation: u64 = frames.begin_remote_projection_generation(next, false);
            self.teardown(generation);
            self.source = next.clone();
            true
        } else if self.generation == 0 && next.is_some() {
            self.generation = frames.begin_remote_projection_generation(next, false);
            false
        } else {
            false
        }
    }

    /// Reconciles with streams that should be open.
    fn reconcile_ready(
        &mut self,
        frames: &mut ProjectionFrames,
        torn: bool,
        source: RemoteSpaceKey,
        prepared: Arc<RemoteApiBridgeState>,
        streams: Vec<DesiredStream>,
        hosts: &RemoteHostRegistry,
        streaming: bool,
    ) -> (done: Reconciled)
        ensures
            (final(self)@, final(frames)@, done.teardown, done.step@) == reconciled_ready(
                old(self)@,
                old(frames)@,
                torn,
                source,
                prepared,
                streams@,
                hosts@,
                streaming,
            ),
    {
        let wanted = ProjectionSignature {
            source: source.clone(),
            prepared_shell_path: prepared.shell_path.clone(),
            streams: copy_streams(&streams),
        };
        let (same, identical) = match &self.signature {
            Some(existing) => (existing.same(&wanted), existing.same_stream_identity(&wanted)),
            None => (false, false),
        };
        if same {
            return Reconciled {
                teardown: torn,
                step: ReconcileStep::Prune(self.prune_finished_streams()),
            };
        }
        if identical {
            let targets = self.resize_streams(&streams);
            self.signature = Some(wanted);
            return Reconciled { teardown: torn, step: ReconcileStep::Resize(targets) };
        }
        let generation: u64 = frames.begin_remote_projection_generation(
            &Some(source.clone()),
            true,
        );
        self.teardown(generation);
        let opening = seeds_for_streams(
            &streams,
            RemoteProjectionStreamStatus::Connecting,
            &"opening no-start terminal session stream".to_owned(),
        );
        frames.seed_remote_projection_streams(generation, opening);
        self.signature = Some(wanted);
        if !streaming {
            let unsupported = seeds_for_streams(
                &streams,
                RemoteProjectionStreamStatus::Unsupported,
                &"in-place remote terminal streaming is unsupported on Windows".to_owned(),
            );
            frames.seed_remote_projection_streams(generation, unsupported);
            return Reconciled { teardown: true, step: ReconcileStep::Idle };
        }
        let host = match hosts.get(source.host.as_str()) {
            Some(host) => if same_text(host.session.as_str(), source.session.as_str()) {
                Some(host.clone())
            } else {
                None
            },
            None => None,
        };
        match host {
            Some(host) => Reconciled {
                teardown: true,
                step: ReconcileStep::Open { host, prepared, generation, streams },
            },
            None => {
                let refused = seeds_for_streams(
                    &streams,
                    RemoteProjectionStreamStatus::NeedsAttention,
                    &"selected remote host/session is no longer configured".to_owned(),
                );
                frames.seed_remote_projection_streams(generation, refused);
                Reconciled { teardown: true, step: ReconcileStep::Idle }
            },
        }
    }

    /// Reconciles what is open with what should be. `streaming` says whether this
    /// platform can stream terminals at all.
    pub fn reconcile(
        &mut self,
        frames: &mut ProjectionFrames,
        selected: &Option<RemoteSpaceKey>,
        sources: &RemoteSources,
        areas: &Vec<RemoteProjectionHitArea>,
        hosts: &RemoteHostRegistry,
        streaming: bool,
    ) -> (done: Reconciled)
        ensures
            (final(self)@, final(frames)@, done.teardown, done.step@) == reconciled(
                old(self)@,
                old(frames)@,
                admission(*selected, sources@, areas@),
                hosts@,
                streaming,
            ),
    {
        let wanted = plan_projection_admission(selected, sources, areas);
        let next = match &wanted {
            ProjectionAdmission::Inactive => None,
            ProjectionAdmission::Waiting { source, .. } => Some(source.clone()),
            ProjectionAdmission::Ready { source, .. } => Some(source.clone()),
        };
        let torn = self.follow(frames, &next);
        match wanted {
            ProjectionAdmission::Inactive => Reconciled {
                teardown: torn,
                step: ReconcileStep::Idle,
            },
            ProjectionAdmission::Waiting {
                source,
                streams,
                status,
                message,
                preserve_last_known,
            } => {
                let seeds = seeds_for_roles(&streams, status, &message);
                if self.bridge_open || self.signature.is_some() {
                    let generation: u64 = frames.begin_remote_projection_generation(
                        &Some(source),
                        preserve_last_known,
                    );
                    self.teardown(generation);
                    frames.seed_remote_projection_streams(generation, seeds);
                    Reconciled { teardown: true, step: ReconcileStep::Idle }
                } else {
                    frames.seed_remote_projection_streams(self.generation, seeds);
                    Reconciled { teardown: torn, step: ReconcileStep::Idle }
                }
            },
            ProjectionAdmission::Ready { source, prepared, streams } => self.reconcile_ready(
                frames,
                torn,
                source,
                prepared,
                streams,
                hosts,
                streaming,
            ),
        }
    }

    /// Records that the bridge is open.
    pub fn bridge_opened(&mut self)
        ensures
            final(self)@ == (RuntimeView { bridge_open: true, ..old(self)@ }),
    {
        self.bridge_open = true;
    }

    /// Records that the bridge could not be opened: its panes need attention.
    pub fn bridge_failed(
        &self,
        frames: &mut ProjectionFrames,
        streams: &Vec<DesiredStream>,
        message: &str,
    )
        ensures
            final(frames)@ == after_seeding(
                old(frames)@,
                self@.generation,
                desired_seeds(
                    streams@,
                    RemoteProjectionStreamStatus::NeedsAttention,
                    "projection bridge failed closed: "@ + message@,
                ),
            ),
    {
        let seeds = seeds_for_streams(
            streams,
            RemoteProjectionStreamStatus::NeedsAttention,
            &concat2("projection bridge failed closed: ", message),
        );
        frames.seed_remote_projection_streams(self.generation, seeds);
    }

    /// Records a stream that was opened. It starts without a word about the mouse,
    /// whatever the stream that it replaces said.
    pub fn stream_opened(&mut self, wanted: &DesiredStream, serial: u64)
        ensures
            final(self)@ == (RuntimeView {
                streams: put(
                    old(self)@.streams,
                    stream_of(wanted.key.terminal_id@),
                    fresh_stream(*wanted, serial),
                ),
                ..old(self)@
            }),
    {
        let handle = ProjectionStreamHandle {
            serial,
            terminal_id: wanted.key.terminal_id.clone(),
            role: wanted.role,
            writable: false,
            input_sent: false,
            mouse_capture: MouseCapture::Unknown,
            done: false,
        };
        match self.stream_index(&wanted.key.terminal_id) {
            Some(i) => {
                self.streams[i] = handle;
            },
            None => {
                self.streams.push(handle);
            },
        }
    }

    /// Records what a stream did. A stream that is no longer kept changes nothing.
    pub fn stream_changed(&mut self, serial: u64, change: StreamChange)
        ensures
            final(self)@ == (RuntimeView {
                streams: after_change(old(self)@.streams, serial, change),
                ..old(self)@
            }),
    {
        let mut i: usize = 0;
        while i < self.streams.len()
            invariant
                i <= self.streams@.len(),
                *self == *old(self),
                forall|j: int| 0 <= j < i ==> !stream_numbered(serial)(#[trigger] self.streams@[j]),
            decreases self.streams@.len() - i,
        {
            if self.streams[i].serial == serial {
                proof {
                    lemma_first_found(self.streams@, stream_numbered(serial), i as int);
                }
                match change {
                    StreamChange::Writable(writable) => {
                        self.streams[i].writable = writable;
                    },
                    StreamChange::Capture(capture) => {
                        self.streams[i].mouse_capture = capture;
                    },
                    StreamChange::Ended => {
                        self.streams[i].done = true;
                    },
                }
                assert(self@.streams =~= old(self)@.streams.update(
                    i as int,
                    changed_stream(old(self)@.streams[i as int], change),
                ));
                return;
            }
            i = i + 1;
        }
        proof {
            lemma_first_missing(self.streams@, stream_numbered(serial));
        }
    }
}

/// A stream that was just opened.
pub open spec fn fresh_stream(wanted: DesiredStream, serial: u64) -> ProjectionStreamHandle {
    ProjectionStreamHandle {
        serial,
        terminal_id: wanted.key.terminal_id,
        role: wanted.role,
        writable: false,
        input_sent: false,
        mouse_capture: MouseCapture::Unknown,
        done: false,
    }
}

/// What a stream did.
#[derive(Debug, Clone, Copy, PartialEq, Eq, Structural)]
pub enum StreamChange {
    Writable(bool),
    Capture(MouseCapture),
    Ended,
}

pub open spec fn changed_stream(
    handle: ProjectionStreamHandle,
    change: StreamChange,
) -> ProjectionStreamHandle {
    match change {
        StreamChange::Writable(writable) => ProjectionStreamHandle { writable, ..handle },
        StreamChange::Capture(mouse_capture) => ProjectionStreamHandle { mouse_capture, ..handle },
        StreamChange::Ended => ProjectionStreamHandle { done: true, ..handle },
    }
}

pub open spec fn after_change(
    streams: Seq<ProjectionStreamHandle>,
    serial: u64,
    change: StreamChange,
) -> Seq<ProjectionStreamHandle> {
    match first_where(streams, stream_numbered(serial)) {
        Some(i) => streams.update(i, changed_stream(streams[i], change)),
        None => streams,
    }
}

// Input ------------------------------------------------------------------

/// Whether an area is the focused, live pane of the selected workspace's host.
pub open spec fn takes_input(space: RemoteSpaceKey) -> spec_fn(RemoteProjectionHitArea) -> bool {
    |area: RemoteProjectionHitArea|
        area.focused && area.live && area.host@ == space.host@ && area.session@ == space.session@
}

/// The terminal of the focused pane, where it has one.
pub open spec fn focused_terminal(
    areas: Seq<RemoteProjectionHitArea>,
    space: RemoteSpaceKey,
) -> Option<String> {
    match first_where(areas, takes_input(space)) {
        Some(i) => areas[i].terminal_id,
        None => None,
    }
}

fn focused_terminal_of(areas: &Vec<RemoteProjectionHitArea>, space: &RemoteSpaceKey) -> (found:
    Option<String>)
    ensures
        found == focused_terminal(areas@, *space),
{
    let mut i: usize = 0;
    while i < areas.len()
        invariant
            i <= areas@.len(),
            forall|j: int| 0 <= j < i ==> !takes_input(*space)(#[trigger] areas@[j]),
        decreases areas@.len() - i,
    {
        let area = &areas[i];
        if area.focused && area.live && area.host == space.host && area.session == space.session {
            proof {
                lemma_first_found(areas@, takes_input(*space), i as int);
            }
            return area.terminal_id.clone();
        }
        i = i + 1;
    }
    proof {
        lemma_first_missing(areas@, takes_input(*space));
    }
    None
}

/// Where input goes.
#[derive(Debug, PartialEq, Eq)]
pub enum InputDecision {
    /// No remote workspace is selected: it is for the local panes.
    NotProjected,
    /// It goes nowhere, and never to a local pane.
    Dropped,
    /// It goes to this stream.
    Send { serial: u64, terminal_id: String },
}

/// Where input goes: to the focused pane's own stream, and only where that stream
/// controls its terminal and is live.
pub open spec fn input_decision(
    runtime: RuntimeView,
    frames: FramesView,
    selected: Option<RemoteSpaceKey>,
    areas: Seq<RemoteProjectionHitArea>,
) -> InputDecision {
    match selected {
        None => InputDecision::NotProjected,
        Some(space) => match focused_terminal(areas, space) {
            None => InputDecision::Dropped,
            Some(terminal_id) => match first_where(runtime.streams, stream_of(terminal_id@)) {
                None => InputDecision::Dropped,
                Some(i) => if runtime.streams[i].role is Control && runtime.streams[i].writable
                    && live_frame(frames, terminal_key(space, terminal_id)) {
                    InputDecision::Send { serial: runtime.streams[i].serial, terminal_id }
                } else {
                    InputDecision::Dropped
                },
            },
        },
    }
}

/// Whether the shown terminal takes input.
pub open spec fn live_frame(frames: FramesView, key: RemoteProjectionTerminalKey) -> bool {
    match first_where(frames.frames, frame_is(key@)) {
        Some(i) => frames.frames[i].status is LiveController,
        None => false,
    }
}

/// The streams once input was handed to the stream of a terminal.
pub open spec fn after_input(
    streams: Seq<ProjectionStreamHandle>,
    decision: InputDecision,
) -> Seq<ProjectionStreamHandle> {
    match decision {
        InputDecision::Send { terminal_id, .. } => match first_where(
            streams,
            stream_of(terminal_id@),
        ) {
            Some(i) => streams.update(
                i,
                ProjectionStreamHandle { input_sent: true, ..streams[i] },
            ),
            None => streams,
        },
        _ => streams,
    }
}

impl RemoteProjectionRuntime {
    /// Decides where input goes, and remembers that the stream was used.
    pub fn send_input(
        &mut self,
        frames: &ProjectionFrames,
        selected: &Option<RemoteSpaceKey>,
        areas: &Vec<RemoteProjectionHitArea>,
    ) -> (decision: InputDecision)
        ensures
            decision == input_decision(old(self)@, frames@, *selected, areas@),
            final(self)@ == (RuntimeView {
                streams: after_input(old(self)@.streams, decision),
                ..old(self)@
            }),
    {
        let space = match selected {
            Some(space) => space,
            None => {
                return InputDecision::NotProjected;
            },
        };
        let terminal_id = match focused_terminal_of(areas, space) {
            Some(terminal_id) => terminal_id,
            None => {
                return InputDecision::Dropped;
            },
        };
        let i: usize = match self.stream_index(&terminal_id) {
            Some(i) => i,
            None => {
                return InputDecision::Dropped;
            },
        };
        let key = RemoteProjectionTerminalKey {
            host: space.host.clone(),
            session: space.session.clone(),
            workspace_id: space.workspace_id.clone(),
            terminal_id: terminal_id.clone(),
        };
        let live = match frames.status_of(&key) {
            Some(status) => status.accepts_input(),
            None => false,
        };
        let controls = matches!(self.streams[i].role, RemoteProjectionStreamRole::Control);
        if !controls || !self.streams[i].writable || !live {
            return InputDecision::Dropped;
        }
        let serial: u64 = self.streams[i].serial;
        self.streams[i].input_sent = true;
        assert(self@.streams =~= old(self)@.streams.update(
            i as int,
            ProjectionStreamHandle { input_sent: true, ..old(self)@.streams[i as int] },
        ));
        InputDecision::Send { serial, terminal_id }
    }

    /// Records that input could not be written. Whether it arrived is not known, so
    /// it is never sent again, and the stream takes no more.
    pub fn input_failed(
        &mut self,
        space: &RemoteSpaceKey,
        serial: u64,
        terminal_id: &String,
        message: &str,
    ) -> (report: StreamReport)
        ensures
            final(self)@ == (RuntimeView {
                streams: after_change(old(self)@.streams, serial, StreamChange::Writable(false)),
                ..old(self)@
            }),
            report@ == (ReportView {
                key: terminal_key(*space, *terminal_id),
                generation: old(self)@.generation,
                role: RemoteProjectionStreamRole::Control,
                status: RemoteProjectionStreamStatus::NeedsAttention,
                frame: None,
                message: Some(
                    "remote input delivery is uncertain ("@ + message@ + "); not retried"@,
                ),
            }),
    {
        self.stream_changed(serial, StreamChange::Writable(false));
        StreamReport {
            key: RemoteProjectionTerminalKey {
                host: space.host.clone(),
                session: space.session.clone(),
                workspace_id: space.workspace_id.clone(),
                terminal_id: terminal_id.clone(),
            },
            generation: self.generation,
            role: RemoteProjectionStreamRole::Control,
            status: RemoteProjectionStreamStatus::NeedsAttention,
            frame: None,
            message: Some(
                concat3("remote input delivery is uncertain (", message, "); not retried"),
            ),
        }
    }

    /// Whether the focused pane's own terminal wants mouse events, where it
    /// controls its terminal and said so. No other pane is asked.
    pub fn focused_projected_control_mouse_capture(
        &self,
        selected: &Option<RemoteSpaceKey>,
        areas: &Vec<RemoteProjectionHitArea>,
    ) -> (capture: Option<bool>)
        ensures
            capture == focused_capture(self@, *selected, areas@),
    {
        let space = match selected {
            Some(space) => space,
            None => {
                return None;
            },
        };
        let terminal_id = match focused_terminal_of(areas, space) {
            Some(terminal_id) => terminal_id,
            None => {
                return None;
            },
        };
        match self.stream_index(&terminal_id) {
            Some(i) => if !matches!(self.streams[i].role, RemoteProjectionStreamRole::Control) {
                None
            } else {
                match self.streams[i].mouse_capture {
                    MouseCapture::Unknown => None,
                    MouseCapture::Disabled => Some(false),
                    MouseCapture::Enabled => Some(true),
                }
            },
            None => None,
        }
    }
}

/// Whether the focused pane's own terminal wants mouse events.
pub open spec fn focused_capture(
    runtime: RuntimeView,
    selected: Option<RemoteSpaceKey>,
    areas: Seq<RemoteProjectionHitArea>,
) -> Option<bool> {
    match selected {
        None => None,
        Some(space) => match focused_terminal(areas, space) {
            None => None,
            Some(terminal_id) => match first_where(runtime.streams, stream_of(terminal_id@)) {
                None => None,
                Some(i) => if !(runtime.streams[i].role is Control) {
                    None
                } else {
                    match runtime.streams[i].mouse_capture {
                        MouseCapture::Unknown => None,
                        MouseCapture::Disabled => Some(false),
                        MouseCapture::Enabled => Some(true),
                    }
                },
            },
        },
    }
}

// Laws -------------------------------------------------------------------

/// Reconciling twice with the same wish opens and closes nothing the second time, and
/// keeps the generation.
pub proof fn reconciling_settles(
    runtime: RuntimeView,
    frames: FramesView,
    wanted: AdmissionView,
    hosts: Seq<RemoteHostConfig>,
    streaming: bool,
)
    ensures
        ({
            let (first, shown, _, _) = reconciled(runtime, frames, wanted, hosts, streaming);
            let (second, again, torn, step) = reconciled(first, shown, wanted, hosts, streaming);
            &&& !torn
            &&& step is Idle || step is Prune
            &&& second.generation == first.generation
            &&& wanted is Ready ==> step is Prune && again == shown
        }),
{
    if wanted is Ready {
        let (first, shown, _, _) = reconciled(runtime, frames, wanted, hosts, streaming);
        let signature = wanted_signature(
            wanted->Ready_source,
            wanted->Ready_prepared,
            wanted->Ready_streams,
        );
        assert(first.signature is Some);
        assert(same_signature(first.signature->0, signature));
    }
}

/// A change of sizes alone keeps every stream, the generation and what is shown.
pub proof fn resizing_keeps_the_streams(
    runtime: RuntimeView,
    frames: FramesView,
    wanted: AdmissionView,
    hosts: Seq<RemoteHostConfig>,
    streaming: bool,
)
    requires
        reconciled(runtime, frames, wanted, hosts, streaming).3 is Resize,
        runtime.generation != 0,
    ensures
        reconciled(runtime, frames, wanted, hosts, streaming).0.generation == runtime.generation,
        reconciled(runtime, frames, wanted, hosts, streaming).0.streams == runtime.streams,
        reconciled(runtime, frames, wanted, hosts, streaming).1 == frames,
        !reconciled(runtime, frames, wanted, hosts, streaming).2,
{
}

/// Whenever streams are opened, everything that was open is closed first, under a
/// generation that the frames have taken up already.
pub proof fn opening_starts_a_generation(
    runtime: RuntimeView,
    frames: FramesView,
    wanted: AdmissionView,
    hosts: Seq<RemoteHostConfig>,
    streaming: bool,
)
    requires
        reconciled(runtime, frames, wanted, hosts, streaming).3 is Open,
    ensures
        ({
            let (after, shown, torn, step) = reconciled(runtime, frames, wanted, hosts, streaming);
            &&& torn
            &&& after.streams.len() == 0
            &&& after.generation == shown.generation
            &&& step->generation == shown.generation
        }),
{
}

/// While a remote workspace is selected, no input is left to the local panes.
pub proof fn projected_input_never_falls_through(
    runtime: RuntimeView,
    frames: FramesView,
    selected: Option<RemoteSpaceKey>,
    areas: Seq<RemoteProjectionHitArea>,
)
    ensures
        input_decision(runtime, frames, selected, areas) is NotProjected <==> selected is None,
{
}

/// Input goes only to a stream that controls its terminal and can be written to.
pub proof fn only_controllers_get_input(
    runtime: RuntimeView,
    frames: FramesView,
    selected: Option<RemoteSpaceKey>,
    areas: Seq<RemoteProjectionHitArea>,
)
    requires
        input_decision(runtime, frames, selected, areas) is Send,
    ensures
        ({
            let decision = input_decision(runtime, frames, selected, areas);
            exists|i: int|
                0 <= i < runtime.streams.len() && (#[trigger] runtime.streams[i]).serial
                    == decision->serial && runtime.streams[i].role is Control
                    && runtime.streams[i].writable
        }),
{
    let terminal_id = focused_terminal(areas, selected->0)->0;
    lemma_first_holds(runtime.streams, stream_of(terminal_id@));
    let i = first_where(runtime.streams, stream_of(terminal_id@))->0;
    assert(runtime.streams[i].role is Control);
}

/// What a stream that was replaced still says changes nothing of the stream that
/// took its place.
pub proof fn replaced_streams_are_ignored(
    streams: Seq<ProjectionStreamHandle>,
    serial: u64,
    change: StreamChange,
)
    requires
        forall|i: int| 0 <= i < streams.len() ==> (#[trigger] streams[i]).serial != serial,
    ensures
        after_change(streams, serial, change) == streams,
{
    lemma_first_missing(streams, stream_numbered(serial));
}

/// The terminal that a stream shows.
pub open spec fn shown_terminal() -> spec_fn(ProjectionStreamHandle) -> Seq<char> {
    |handle: ProjectionStreamHandle| handle.terminal_id@
}

/// A terminal has at most one stream.
pub open spec fn streams_distinct(streams: Seq<ProjectionStreamHandle>) -> bool {
    one_each(streams, shown_terminal())
}

proof fn lemma_running_streams(streams: Seq<ProjectionStreamHandle>)
    ensures
        forall|k: int|
            0 <= k < running_streams(streams).len() ==> streams.contains(
                #[trigger] running_streams(streams)[k],
            ),
        streams_distinct(streams) ==> streams_distinct(running_streams(streams)),
    decreases streams.len(),
{
    if streams.len() > 0 {
        let before = streams.drop_last();
        let kept = running_streams(before);
        let running = running_streams(streams);
        lemma_running_streams(before);
        assert forall|k: int| 0 <= k < running.len() implies streams.contains(
            #[trigger] running[k],
        ) by {
            if k < kept.len() {
                assert(before.contains(kept[k]));
                let i = choose|i: int| 0 <= i < before.len() && before[i] == kept[k];
                assert(streams[i] == running[k]);
            } else {
                assert(streams[streams.len() - 1] == running[k]);
            }
        }
        if streams_distinct(streams) {
            assert forall|i: int, j: int| 0 <= i < j < before.len() implies shown_terminal()(
                #[trigger] before[i],
            ) != shown_terminal()(#[trigger] before[j]) by {
                assert(before[i] == streams[i] && before[j] == streams[j]);
            }
            assert forall|i: int, j: int| 0 <= i < j < running.len() implies shown_terminal()(
                #[trigger] running[i],
            ) != shown_terminal()(#[trigger] running[j]) by {
                assert(running[i] == kept[i]);
                if j < kept.len() {
                    assert(running[j] == kept[j]);
                } else {
                    assert(before.contains(kept[i]));
                    let k = choose|k: int| 0 <= k < before.len() && before[k] == kept[i];
                    assert(streams[k] == kept[i]);
                    assert(running[j] == streams[streams.len() - 1]);
                }
            }
        }
    }
}

/// Whatever happens to the streams, no terminal gets a second one.
pub proof fn terminals_keep_one_stream(
    runtime: RuntimeView,
    frames: FramesView,
    wanted: AdmissionView,
    hosts: Seq<RemoteHostConfig>,
    streaming: bool,
    opened: DesiredStream,
    serial: u64,
    change: StreamChange,
    decision: InputDecision,
)
    requires
        streams_distinct(runtime.streams),
    ensures
        streams_distinct(reconciled(runtime, frames, wanted, hosts, streaming).0.streams),
        streams_distinct(
            put(
                runtime.streams,
                stream_of(opened.key.terminal_id@),
                fresh_stream(opened, serial),
            ),
        ),
        streams_distinct(after_change(runtime.streams, serial, change)),
        streams_distinct(after_input(runtime.streams, decision)),
{
    let streams = runtime.streams;
    lemma_running_streams(streams);
    lemma_put_one_each(
        streams,
        shown_terminal(),
        stream_of(opened.key.terminal_id@),
        fresh_stream(opened, serial),
    );
    lemma_first_holds(streams, stream_numbered(serial));
    let changed = after_change(streams, serial, change);
    assert forall|i: int| 0 <= i < streams.len() implies (#[trigger] changed[i]).terminal_id
        == streams[i].terminal_id by {}
    assert forall|i: int, j: int| 0 <= i < j < changed.len() implies shown_terminal()(
        #[trigger] changed[i],
    ) != shown_terminal()(#[trigger] changed[j]) by {
        assert(shown_terminal()(streams[i]) != shown_terminal()(streams[j]));
    }
    let used = after_input(streams, decision);
    if let InputDecision::Send { terminal_id, .. } = decision {
        lemma_first_holds(streams, stream_of(terminal_id@));
    }
    assert forall|i: int, j: int| 0 <= i < j < used.len() implies shown_terminal()(
        #[trigger] used[i],
    ) != shown_terminal()(#[trigger] used[j]) by {
        assert(shown_terminal()(streams[i]) != shown_terminal()(streams[j]));
    }
}

} // verus!
