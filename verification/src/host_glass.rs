//! Glass: a remote host's whole interface, shown in place of the local panes.
//!
//! Input over the glass goes to the host while the glass is live. In any other
//! state it is dropped, and the user is told so: nothing is ever kept for later.
use vstd::prelude::*;
use crate::geometry::Rect;
use crate::remote_source::RemoteHostKey;
use crate::search::{
    element_where, first_where, lemma_first_found, lemma_first_holds, lemma_first_missing,
    lemma_put_found, put,
};

verus! {

/// How a host's glass stands.
#[derive(Debug, Clone, Copy, PartialEq, Eq, Structural)]
pub enum GlassStatus {
    Connecting,
    Live,
    /// Nothing was heard since that moment.
    Stale { since: u64 },
}

/// Why input over the glass was dropped.
#[derive(Debug, Clone, Copy, PartialEq, Eq, Structural)]
pub enum GlassInputDropReason {
    Connecting,
    Stale,
    MissingStream,
    GenerationChanged,
    Disconnected,
    QueueFull,
    QueueClosed,
}

/// What is known of one host's glass.
#[derive(Debug, PartialEq, Eq)]
pub struct HostGlassState {
    pub host: RemoteHostKey,
    pub generation: u64,
    pub status: GlassStatus,
    pub input_drop_cue: Option<GlassInputDropReason>,
}

/// The stream of one host's glass.
#[derive(Debug, PartialEq, Eq)]
pub struct HostGlassStream {
    pub host: RemoteHostKey,
    pub generation: u64,
    pub connected: bool,
}

/// The glasses of all hosts.
#[derive(Debug, PartialEq, Eq)]
pub struct HostGlasses {
    pub states: Vec<HostGlassState>,
    pub streams: Vec<HostGlassStream>,
    /// When the user has been told long enough.
    pub drop_cue_deadline: Option<u64>,
}

/// What [`HostGlasses`] hold.
#[verifier::ext_equal]
pub struct GlassesView {
    pub states: Seq<HostGlassState>,
    pub streams: Seq<HostGlassStream>,
    pub drop_cue_deadline: Option<u64>,
}

impl View for HostGlasses {
    type V = GlassesView;

    open spec fn view(&self) -> GlassesView {
        GlassesView {
            states: self.states@,
            streams: self.streams@,
            drop_cue_deadline: self.drop_cue_deadline,
        }
    }
}

/// What became of input that was handed to a stream.
#[derive(Debug, Clone, Copy, PartialEq, Eq, Structural)]
pub enum GlassSend {
    Sent,
    Full,
    Closed,
}

pub open spec fn state_of(host: (Seq<char>, Seq<char>)) -> spec_fn(HostGlassState) -> bool {
    |state: HostGlassState| state.host@ == host
}

pub open spec fn stream_of(host: (Seq<char>, Seq<char>)) -> spec_fn(HostGlassStream) -> bool {
    |stream: HostGlassStream| stream.host@ == host
}

/// The state of a glass that was never seen.
pub open spec fn unseen(host: RemoteHostKey) -> HostGlassState {
    HostGlassState {
        host,
        generation: 0,
        status: GlassStatus::Connecting,
        input_drop_cue: None,
    }
}

/// What is known of a host's glass.
pub open spec fn state_or_unseen(states: Seq<HostGlassState>, host: RemoteHostKey) -> HostGlassState {
    match element_where(states, state_of(host@)) {
        Some(state) => state,
        None => unseen(host),
    }
}

/// Why input over a host's glass cannot go to it.
pub open spec fn drop_reason(glasses: GlassesView, host: RemoteHostKey) -> Option<
    GlassInputDropReason,
> {
    let state = state_or_unseen(glasses.states, host);
    match state.status {
        GlassStatus::Connecting => Some(GlassInputDropReason::Connecting),
        GlassStatus::Stale { .. } => Some(GlassInputDropReason::Stale),
        GlassStatus::Live => match element_where(glasses.streams, stream_of(host@)) {
            None => Some(GlassInputDropReason::MissingStream),
            Some(stream) => if stream.generation != state.generation {
                Some(GlassInputDropReason::GenerationChanged)
            } else if !stream.connected {
                Some(GlassInputDropReason::Disconnected)
            } else {
                None
            },
        },
    }
}

/// The moment until which the user is told.
pub open spec fn cue_until(now: u64, shown_for: u64) -> u64 {
    if now + shown_for > u64::MAX {
        u64::MAX
    } else {
        (now + shown_for) as u64
    }
}

/// The user is told that input was dropped.
pub open spec fn with_cue(
    glasses: GlassesView,
    host: RemoteHostKey,
    reason: GlassInputDropReason,
    until: u64,
) -> GlassesView {
    let state = state_or_unseen(glasses.states, host);
    GlassesView {
        states: put(
            glasses.states,
            state_of(host@),
            HostGlassState { input_drop_cue: Some(reason), ..state },
        ),
        drop_cue_deadline: Some(until),
        ..glasses
    }
}

/// The glasses once input was meant for a host.
pub open spec fn after_input(
    glasses: GlassesView,
    host: RemoteHostKey,
    until: u64,
) -> GlassesView {
    match drop_reason(glasses, host) {
        Some(reason) => with_cue(glasses, host, reason, until),
        None => glasses,
    }
}

/// The glasses once input was handed to a host's stream. A stream that is closed
/// takes nothing more.
pub open spec fn after_send(
    glasses: GlassesView,
    host: RemoteHostKey,
    outcome: GlassSend,
    until: u64,
) -> GlassesView {
    match outcome {
        GlassSend::Sent => glasses,
        GlassSend::Full => with_cue(glasses, host, GlassInputDropReason::QueueFull, until),
        GlassSend::Closed => with_cue(
            GlassesView {
                streams: match first_where(glasses.streams, stream_of(host@)) {
                    Some(i) => glasses.streams.update(
                        i,
                        HostGlassStream { connected: false, ..glasses.streams[i] },
                    ),
                    None => glasses.streams,
                },
                ..glasses
            },
            host,
            GlassInputDropReason::QueueClosed,
            until,
        ),
    }
}

/// A new generation of a host's glass.
pub open spec fn begun(state: HostGlassState) -> HostGlassState {
    HostGlassState {
        generation: crate::projection_frames::next_generation(state.generation),
        status: GlassStatus::Connecting,
        input_drop_cue: None,
        ..state
    }
}

/// States of which none tells the user anything.
pub open spec fn without_cues(states: Seq<HostGlassState>) -> Seq<HostGlassState> {
    states.map_values(
        |state: HostGlassState| HostGlassState { input_drop_cue: None, ..state },
    )
}

fn state_index(states: &Vec<HostGlassState>, host: &RemoteHostKey) -> (found: Option<usize>)
    ensures
        match found {
            Some(i) => i < states@.len() && first_where(states@, state_of(host@)) == Some(i as int),
            None => first_where(states@, state_of(host@)) is None,
        },
{
    let mut i: usize = 0;
    while i < states.len()
        invariant
            i <= states@.len(),
            forall|j: int| 0 <= j < i ==> !state_of(host@)(#[trigger] states@[j]),
        decreases states@.len() - i,
    {
        if states[i].host.same(host) {
            proof {
                lemma_first_found(states@, state_of(host@), i as int);
            }
            return Some(i);
        }
        i = i + 1;
    }
    proof {
        lemma_first_missing(states@, state_of(host@));
    }
    None
}

fn stream_index(streams: &Vec<HostGlassStream>, host: &RemoteHostKey) -> (found: Option<usize>)
    ensures
        match found {
            Some(i) => i < streams@.len() && first_where(streams@, stream_of(host@)) == Some(
                i as int,
            ),
            None => first_where(streams@, stream_of(host@)) is None,
        },
{
    let mut i: usize = 0;
    while i < streams.len()
        invariant
            i <= streams@.len(),
            forall|j: int| 0 <= j < i ==> !stream_of(host@)(#[trigger] streams@[j]),
        decreases streams@.len() - i,
    {
        if streams[i].host.same(host) {
            proof {
                lemma_first_found(streams@, stream_of(host@), i as int);
            }
            return Some(i);
        }
        i = i + 1;
    }
    proof {
        lemma_first_missing(streams@, stream_of(host@));
    }
    None
}

impl HostGlasses {
    pub fn new() -> (glasses: Self)
        ensures
            glasses@ == (GlassesView {
                states: Seq::empty(),
                streams: Seq::empty(),
                drop_cue_deadline: None,
            }),
    {
        let glasses = HostGlasses {
            states: Vec::new(),
            streams: Vec::new(),
            drop_cue_deadline: None,
        };
        assert(glasses@.states =~= Seq::empty());
        assert(glasses@.streams =~= Seq::empty());
        glasses
    }

    /// Makes sure that something is known of a host's glass, and tells where.
    fn ensure_state(&mut self, host: &RemoteHostKey) -> (i: usize)
        ensures
            i < final(self)@.states.len(),
            final(self)@.states[i as int] == state_or_unseen(old(self)@.states, *host),
            forall|state: HostGlassState|
                #[trigger] final(self)@.states.update(i as int, state) == put(
                    old(self)@.states,
                    state_of(host@),
                    state,
                ),
            final(self)@ == (GlassesView { states: final(self)@.states, ..old(self)@ }),
    {
        match state_index(&self.states, host) {
            Some(i) => i,
            None => {
                let i: usize = self.states.len();
                let ghost before = self.states@;
                self.states.push(
                    HostGlassState {
                        host: host.clone(),
                        generation: 0,
                        status: GlassStatus::Connecting,
                        input_drop_cue: None,
                    },
                );
                proof {
                    assert forall|state: HostGlassState| #[trigger]
                        self.states@.update(i as int, state) == before.push(state) by {
                        assert(self.states@.update(i as int, state) =~= before.push(state));
                    }
                }
                i
            },
        }
    }

    /// Starts a new generation of a host's glass.
    pub fn begin_host_glass_generation(&mut self, host: &RemoteHostKey) -> (generation: u64)
        ensures
            final(self)@ == (GlassesView {
                states: put(
                    old(self)@.states,
                    state_of(host@),
                    begun(state_or_unseen(old(self)@.states, *host)),
                ),
                ..old(self)@
            }),
            generation == begun(state_or_unseen(old(self)@.states, *host)).generation,
    {
        let i: usize = self.ensure_state(host);
        let ghost before = self.states@;
        let current: u64 = self.states[i].generation;
        let generation: u64 = if current == u64::MAX {
            1
        } else {
            current + 1
        };
        self.states[i].generation = generation;
        self.states[i].status = GlassStatus::Connecting;
        self.states[i].input_drop_cue = None;
        assert(self.states@ =~= before.update(i as int, begun(before[i as int])));
        generation
    }

    /// Records how a host's glass stands. What an older generation says is ignored.
    pub fn set_host_glass_status(
        &mut self,
        host: &RemoteHostKey,
        generation: u64,
        status: GlassStatus,
    ) -> (taken: bool)
        ensures
            match first_where(old(self)@.states, state_of(host@)) {
                Some(i) => if old(self)@.states[i].generation == generation {
                    &&& taken
                    &&& final(self)@ == (GlassesView {
                        states: old(self)@.states.update(
                            i,
                            HostGlassState { status, ..old(self)@.states[i] },
                        ),
                        ..old(self)@
                    })
                } else {
                    !taken && final(self)@ == old(self)@
                },
                None => !taken && final(self)@ == old(self)@,
            },
    {
        match state_index(&self.states, host) {
            Some(i) => if self.states[i].generation == generation {
                let ghost before = self.states@;
                self.states[i].status = status;
                assert(self.states@ =~= before.update(
                    i as int,
                    HostGlassState { status, ..before[i as int] },
                ));
                true
            } else {
                false
            },
            None => false,
        }
    }

    /// Records a stream that is connected.
    pub fn stream_connected(&mut self, host: &RemoteHostKey, generation: u64)
        ensures
            final(self)@ == (GlassesView {
                streams: put(
                    old(self)@.streams,
                    stream_of(host@),
                    HostGlassStream { host: *host, generation, connected: true },
                ),
                ..old(self)@
            }),
    {
        let stream = HostGlassStream { host: host.clone(), generation, connected: true };
        match stream_index(&self.streams, host) {
            Some(i) => {
                self.streams[i] = stream;
            },
            None => {
                self.streams.push(stream);
            },
        }
    }

    fn show_cue(&mut self, host: &RemoteHostKey, reason: GlassInputDropReason, until: u64)
        ensures
            final(self)@ == with_cue(old(self)@, *host, reason, until),
    {
        let i: usize = self.ensure_state(host);
        let ghost before = self.states@;
        self.states[i].input_drop_cue = Some(reason);
        assert(self.states@ =~= before.update(
            i as int,
            HostGlassState { input_drop_cue: Some(reason), ..before[i as int] },
        ));
        self.drop_cue_deadline = Some(until);
    }

    /// Decides whether input over a host's glass goes to it. Where it does not, it is
    /// dropped and the user is told why for a while.
    pub fn route_host_glass_input(&mut self, host: &RemoteHostKey, now: u64, shown_for: u64) -> (
        sends: bool)
        ensures
            sends == (drop_reason(old(self)@, *host) is None),
            final(self)@ == after_input(old(self)@, *host, cue_until(now, shown_for)),
    {
        let until: u64 = if now > u64::MAX - shown_for {
            u64::MAX
        } else {
            now + shown_for
        };
        let (status, generation): (GlassStatus, u64) = match state_index(&self.states, host) {
            Some(i) => (self.states[i].status, self.states[i].generation),
            None => (GlassStatus::Connecting, 0),
        };
        let reason = match status {
            GlassStatus::Connecting => Some(GlassInputDropReason::Connecting),
            GlassStatus::Stale { .. } => Some(GlassInputDropReason::Stale),
            GlassStatus::Live => match stream_index(&self.streams, host) {
                None => Some(GlassInputDropReason::MissingStream),
                Some(i) => if self.streams[i].generation != generation {
                    Some(GlassInputDropReason::GenerationChanged)
                } else if !self.streams[i].connected {
                    Some(GlassInputDropReason::Disconnected)
                } else {
                    None
                },
            },
        };
        match reason {
            Some(reason) => {
                self.show_cue(host, reason, until);
                false
            },
            None => true,
        }
    }

    /// Takes what became of input that was handed to a host's stream.
    pub fn input_handed_over(
        &mut self,
        host: &RemoteHostKey,
        outcome: GlassSend,
        now: u64,
        shown_for: u64,
    )
        ensures
            final(self)@ == after_send(old(self)@, *host, outcome, cue_until(now, shown_for)),
    {
        let until: u64 = if now > u64::MAX - shown_for {
            u64::MAX
        } else {
            now + shown_for
        };
        match outcome {
            GlassSend::Sent => {},
            GlassSend::Full => {
                self.show_cue(host, GlassInputDropReason::QueueFull, until);
            },
            GlassSend::Closed => {
                if let Some(i) = stream_index(&self.streams, host) {
                    let ghost before = self.streams@;
                    self.streams[i].connected = false;
                    assert(self.streams@ =~= before.update(
                        i as int,
                        HostGlassStream { connected: false, ..before[i as int] },
                    ));
                }
                self.show_cue(host, GlassInputDropReason::QueueClosed, until);
            },
        }
    }

    /// Stops telling the user, once that was done long enough. Says whether anything
    /// changed. Nothing that was dropped is sent then.
    pub fn expire_drop_cue(&mut self, now: u64) -> (expired: bool)
        ensures
            expired == (old(self)@.drop_cue_deadline matches Some(deadline) && deadline <= now),
            final(self)@ == if expired {
                GlassesView {
                    states: without_cues(old(self)@.states),
                    drop_cue_deadline: None,
                    ..old(self)@
                }
            } else {
                old(self)@
            },
    {
        let due = match self.drop_cue_deadline {
            Some(deadline) => deadline <= now,
            None => false,
        };
        if !due {
            return false;
        }
        self.drop_cue_deadline = None;
        let ghost before = self.states@;
        let mut i: usize = 0;
        while i < self.states.len()
            invariant
                i <= self.states@.len(),
                self.states@.len() == before.len(),
                self@ == (GlassesView {
                    states: self@.states,
                    drop_cue_deadline: None,
                    ..old(self)@
                }),
                forall|j: int|
                    0 <= j < i ==> #[trigger] self.states@[j] == (HostGlassState {
                        input_drop_cue: None,
                        ..before[j]
                    }),
                forall|j: int| i <= j < before.len() ==> #[trigger] self.states@[j] == before[j],
            decreases self.states@.len() - i,
        {
            self.states[i].input_drop_cue = None;
            i = i + 1;
        }
        assert(self.states@ =~= without_cues(before));
        true
    }
}

// Surfaces ---------------------------------------------------------------

/// A length of at least one cell.
pub open spec fn at_least_one(cells: u16) -> u16 {
    if cells == 0 {
        1
    } else {
        cells
    }
}

/// The columns and rows of a glass: at least one of each.
pub fn glass_size(area: Rect) -> (size: (u16, u16))
    ensures
        size == (at_least_one(area.width), at_least_one(area.height)),
{
    (
        if area.width == 0 {
            1
        } else {
            area.width
        },
        if area.height == 0 {
            1
        } else {
            area.height
        },
    )
}

/// The surface that a host's glass is drawn on. The terminal behind it is kept under
/// a number.
#[derive(Debug, Clone, Copy, PartialEq, Eq, Structural)]
pub struct GlassSurface {
    pub generation: u64,
    pub area: Rect,
    pub terminal: u64,
}

impl GlassSurface {
    /// Takes what making the terminal came to.
    pub fn opened(area: Rect, generation: u64, terminal: Result<u64, String>) -> (surface: Result<
        Self,
        String,
    >)
        ensures
            match terminal {
                Ok(terminal) => surface == Ok::<GlassSurface, String>(
                    GlassSurface { generation, area, terminal },
                ),
                Err(message) => surface == Err::<GlassSurface, String>(message),
            },
    {
        match terminal {
            Ok(terminal) => Ok(GlassSurface { generation, area, terminal }),
            Err(message) => Err(message),
        }
    }

    /// Takes what resizing the terminal came to. Where it failed the area stays.
    pub fn resized(&mut self, area: Rect, outcome: Result<(), String>) -> (result: Result<
        (),
        String,
    >)
        ensures
            result == outcome,
            *final(self) == match outcome {
                Ok(_) => GlassSurface { area, ..*old(self) },
                Err(_) => *old(self),
            },
    {
        match outcome {
            Ok(done) => {
                self.area = area;
                Ok(done)
            },
            Err(message) => Err(message),
        }
    }
}

/// A surface and its host.
#[derive(Debug, PartialEq, Eq)]
pub struct HostSurface {
    pub host: RemoteHostKey,
    pub surface: GlassSurface,
}

pub open spec fn surface_of(host: (Seq<char>, Seq<char>)) -> spec_fn(HostSurface) -> bool {
    |entry: HostSurface| entry.host@ == host
}

/// The surfaces of all hosts.
#[derive(Debug, PartialEq, Eq)]
pub struct HostGlassSurfaceRegistry {
    pub surfaces: Vec<HostSurface>,
}

impl View for HostGlassSurfaceRegistry {
    type V = Seq<HostSurface>;

    open spec fn view(&self) -> Seq<HostSurface> {
        self.surfaces@
    }
}

/// The surface of a host.
pub open spec fn surface_for(surfaces: Seq<HostSurface>, host: (Seq<char>, Seq<char>)) -> Option<
    GlassSurface,
> {
    match first_where(surfaces, surface_of(host)) {
        Some(i) => Some(surfaces[i].surface),
        None => None,
    }
}

impl HostGlassSurfaceRegistry {
    pub fn new() -> (registry: Self)
        ensures
            registry@ == Seq::<HostSurface>::empty(),
    {
        let registry = HostGlassSurfaceRegistry { surfaces: Vec::new() };
        assert(registry@ =~= Seq::empty());
        registry
    }

    fn index(&self, host: &RemoteHostKey) -> (found: Option<usize>)
        ensures
            match found {
                Some(i) => i < self@.len() && first_where(self@, surface_of(host@)) == Some(
                    i as int,
                ),
                None => first_where(self@, surface_of(host@)) is None,
            },
    {
        let mut i: usize = 0;
        while i < self.surfaces.len()
            invariant
                i <= self.surfaces@.len(),
                forall|j: int| 0 <= j < i ==> !surface_of(host@)(#[trigger] self.surfaces@[j]),
            decreases self.surfaces@.len() - i,
        {
            if self.surfaces[i].host.same(host) {
                proof {
                    lemma_first_found(self@, surface_of(host@), i as int);
                }
                return Some(i);
            }
            i = i + 1;
        }
        proof {
            lemma_first_missing(self@, surface_of(host@));
        }
        None
    }

    /// Keeps a host's surface, in place of an older one.
    pub fn insert(&mut self, host: RemoteHostKey, surface: GlassSurface)
        ensures
            final(self)@ == put(old(self)@, surface_of(host@), HostSurface { host, surface }),
    {
        match self.index(&host) {
            Some(i) => {
                self.surfaces[i] = HostSurface { host, surface };
            },
            None => {
                self.surfaces.push(HostSurface { host, surface });
            },
        }
    }

    /// The surface of a host.
    pub fn get(&self, host: &RemoteHostKey) -> (surface: Option<GlassSurface>)
        ensures
            surface == surface_for(self@, host@),
    {
        match self.index(host) {
            Some(i) => Some(self.surfaces[i].surface),
            None => None,
        }
    }

    /// Takes a host's surface out.
    pub fn remove(&mut self, host: &RemoteHostKey) -> (surface: Option<GlassSurface>)
        ensures
            surface == surface_for(old(self)@, host@),
            final(self)@ == match first_where(old(self)@, surface_of(host@)) {
                Some(i) => old(self)@.remove(i),
                None => old(self)@,
            },
    {
        match self.index(host) {
            Some(i) => {
                let entry = self.surfaces.remove(i);
                Some(entry.surface)
            },
            None => None,
        }
    }
}

// Laws -------------------------------------------------------------------

/// Input goes only over a live glass, to a connected stream of its own generation.
pub proof fn only_live_glass_gets_input(glasses: GlassesView, host: RemoteHostKey)
    requires
        drop_reason(glasses, host) is None,
    ensures
        state_or_unseen(glasses.states, host).status is Live,
        element_where(glasses.streams, stream_of(host@)) matches Some(stream) && stream.connected
            && stream.generation == state_or_unseen(glasses.states, host).generation,
{
}

/// Whoever's input is dropped is told why.
pub proof fn dropped_input_is_told(glasses: GlassesView, host: RemoteHostKey, until: u64)
    requires
        drop_reason(glasses, host) is Some,
    ensures
        ({
            let after = after_input(glasses, host, until);
            &&& state_or_unseen(after.states, host).input_drop_cue == drop_reason(glasses, host)
            &&& after.drop_cue_deadline == Some(until)
            &&& after.streams == glasses.streams
        }),
{
    let reason = drop_reason(glasses, host)->0;
    let state = state_or_unseen(glasses.states, host);
    lemma_first_holds(glasses.states, state_of(host@));
    lemma_put_found(
        glasses.states,
        state_of(host@),
        HostGlassState { input_drop_cue: Some(reason), ..state },
    );
}

/// A surface that was kept is found under its host.
pub proof fn kept_surfaces_are_found(
    surfaces: Seq<HostSurface>,
    host: RemoteHostKey,
    surface: GlassSurface,
)
    ensures
        surface_for(put(surfaces, surface_of(host@), HostSurface { host, surface }), host@) == Some(
            surface,
        ),
{
    lemma_put_found(surfaces, surface_of(host@), HostSurface { host, surface });
}

} // verus!
