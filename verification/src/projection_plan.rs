//! Whether the selected remote workspace can be shown in place, and how.
//!
//! Every check comes before anything is opened: the workspace's own layout must
//! be known and fresh, its host connected and able to stream terminals, every
//! pane must have a terminal of its own, and every pane must have its place on
//! the screen. Nothing is guessed.
use vstd::prelude::*;
use std::sync::Arc;
use crate::geometry::Rect;
use crate::layout::{layout_leaves, leaves};
use crate::remote_source::{
    capabilities_of, connected, prepared_state_of, projection_for, HostView, RemoteApiBridgeState,
    RemoteHostKey, RemoteProjectionStatus, RemoteSources, RemoteSpaceKey,
};
use crate::schema::{LayoutDescription, LayoutPane};
use crate::search::{first_where, lemma_first_found, lemma_first_missing};
use crate::text::{concat4, decimal, decimal_text, same_text};

verus! {

/// How many panes a layout may have.
pub const MAX_LAYOUT_PANES: usize = 24;

/// How many streams one bridge carries: one for each pane.
pub const BRIDGE_MAX_CONCURRENT_STREAMS: usize = 24;

/// What a stream may do with its terminal.
#[derive(Debug, Clone, Copy, PartialEq, Eq, Structural)]
pub enum RemoteProjectionStreamRole {
    Control,
    Observe,
}

/// How a stream stands.
#[derive(Debug, Clone, Copy, PartialEq, Eq, Structural)]
pub enum RemoteProjectionStreamStatus {
    Connecting,
    LiveController,
    LiveObserver,
    /// Someone else controls the terminal: it is shown, and takes no input.
    OwnedReadOnly,
    StaleLastKnown,
    Disconnected,
    NeedsAttention,
    Unsupported,
}

impl RemoteProjectionStreamStatus {
    pub fn accepts_input(self) -> (accepts: bool)
        ensures
            accepts == (self is LiveController),
    {
        matches!(self, RemoteProjectionStreamStatus::LiveController)
    }
}

/// One terminal of a remote workspace.
#[derive(Debug, PartialEq, Eq)]
pub struct RemoteProjectionTerminalKey {
    pub host: String,
    pub session: String,
    pub workspace_id: String,
    pub terminal_id: String,
}

impl View for RemoteProjectionTerminalKey {
    type V = (Seq<char>, Seq<char>, Seq<char>, Seq<char>);

    open spec fn view(&self) -> (Seq<char>, Seq<char>, Seq<char>, Seq<char>) {
        (self.host@, self.session@, self.workspace_id@, self.terminal_id@)
    }
}

impl Clone for RemoteProjectionTerminalKey {
    fn clone(&self) -> (res: Self)
        ensures
            res == *self,
    {
        RemoteProjectionTerminalKey {
            host: self.host.clone(),
            session: self.session.clone(),
            workspace_id: self.workspace_id.clone(),
            terminal_id: self.terminal_id.clone(),
        }
    }
}

impl RemoteProjectionTerminalKey {
    /// Whether both keys name the same terminal.
    pub fn same(&self, other: &Self) -> (same: bool)
        ensures
            same == (self@ == other@),
    {
        same_text(self.host.as_str(), other.host.as_str()) && same_text(
            self.session.as_str(),
            other.session.as_str(),
        ) && same_text(self.workspace_id.as_str(), other.workspace_id.as_str()) && same_text(
            self.terminal_id.as_str(),
            other.terminal_id.as_str(),
        )
    }
}

/// Where a pane of the shown workspace lies on the screen.
#[derive(Debug, PartialEq, Eq)]
pub struct RemoteProjectionHitArea {
    pub rect: Rect,
    pub host: String,
    pub session: String,
    pub pane_id: Option<String>,
    pub terminal_id: Option<String>,
    pub label: String,
    pub focused: bool,
    pub live: bool,
}

/// One stream that is to be open.
#[derive(Debug, PartialEq, Eq)]
pub struct DesiredStream {
    pub key: RemoteProjectionTerminalKey,
    pub role: RemoteProjectionStreamRole,
    pub cols: u16,
    pub rows: u16,
}

impl Clone for DesiredStream {
    fn clone(&self) -> (res: Self)
        ensures
            res == *self,
    {
        DesiredStream { key: self.key.clone(), role: self.role, cols: self.cols, rows: self.rows }
    }
}

/// What the checks came to.
#[allow(inconsistent_fields)]
#[derive(Debug, PartialEq, Eq)]
pub enum ProjectionAdmission {
    /// No remote workspace is selected.
    Inactive,
    /// Nothing may be opened; the panes that are known are shown as they stand.
    Waiting {
        source: RemoteSpaceKey,
        streams: Vec<(RemoteProjectionTerminalKey, RemoteProjectionStreamRole)>,
        status: RemoteProjectionStreamStatus,
        message: String,
        preserve_last_known: bool,
    },
    /// These streams are to be open.
    Ready {
        source: RemoteSpaceKey,
        prepared: Arc<RemoteApiBridgeState>,
        streams: Vec<DesiredStream>,
    },
}

/// What a [`ProjectionAdmission`] holds.
#[allow(inconsistent_fields)]
#[verifier::ext_equal]
pub enum AdmissionView {
    Inactive,
    Waiting {
        source: RemoteSpaceKey,
        streams: Seq<(RemoteProjectionTerminalKey, RemoteProjectionStreamRole)>,
        status: RemoteProjectionStreamStatus,
        message: Seq<char>,
        preserve_last_known: bool,
    },
    Ready {
        source: RemoteSpaceKey,
        prepared: Arc<RemoteApiBridgeState>,
        streams: Seq<DesiredStream>,
    },
}

impl View for ProjectionAdmission {
    type V = AdmissionView;

    open spec fn view(&self) -> AdmissionView {
        match self {
            ProjectionAdmission::Inactive => AdmissionView::Inactive,
            ProjectionAdmission::Waiting {
                source,
                streams,
                status,
                message,
                preserve_last_known,
            } => AdmissionView::Waiting {
                source: *source,
                streams: streams@,
                status: *status,
                message: message@,
                preserve_last_known: *preserve_last_known,
            },
            ProjectionAdmission::Ready { source, prepared, streams } => AdmissionView::Ready {
                source: *source,
                prepared: *prepared,
                streams: streams@,
            },
        }
    }
}

/// Why the panes of a layout cannot be streamed.
pub enum LeafFault {
    NoTerminal,
    Repeated,
}

/// The first pane that cannot be streamed: it has no terminal, or one that an
/// earlier pane has too.
pub open spec fn leaf_fault(panes: Seq<LayoutPane>) -> Option<LeafFault>
    decreases panes.len(),
{
    if panes.len() == 0 {
        None
    } else {
        match leaf_fault(panes.drop_last()) {
            Some(fault) => Some(fault),
            None => match panes.last().terminal_id {
                None => Some(LeafFault::NoTerminal),
                Some(terminal_id) => if exists|j: int|
                    0 <= j < panes.len() - 1 && shows_terminal(#[trigger] panes[j], terminal_id@) {
                    Some(LeafFault::Repeated)
                } else {
                    None
                },
            },
        }
    }
}

pub open spec fn shows_terminal(pane: LayoutPane, terminal_id: Seq<char>) -> bool {
    pane.terminal_id is Some && pane.terminal_id->0@ == terminal_id
}

/// The focused pane is controlled, the others are observed.
pub open spec fn leaf_role(pane: LayoutPane, focused_pane_id: Seq<char>) -> RemoteProjectionStreamRole {
    if pane.pane_id is Some && pane.pane_id->0@ == focused_pane_id {
        RemoteProjectionStreamRole::Control
    } else {
        RemoteProjectionStreamRole::Observe
    }
}

pub open spec fn terminal_key(
    source: RemoteSpaceKey,
    terminal_id: String,
) -> RemoteProjectionTerminalKey {
    RemoteProjectionTerminalKey {
        host: source.host,
        session: source.session,
        workspace_id: source.workspace_id,
        terminal_id,
    }
}

/// The terminals of some panes, each with its role.
pub open spec fn leaf_roles(
    source: RemoteSpaceKey,
    panes: Seq<LayoutPane>,
    focused_pane_id: Seq<char>,
) -> Seq<(RemoteProjectionTerminalKey, RemoteProjectionStreamRole)> {
    Seq::new(
        panes.len(),
        |i: int|
            (
                terminal_key(source, panes[i].terminal_id->0),
                leaf_role(panes[i], focused_pane_id),
            ),
    )
}

/// Whether an area shows this terminal.
pub open spec fn places(key: RemoteProjectionTerminalKey) -> spec_fn(RemoteProjectionHitArea) -> bool {
    |area: RemoteProjectionHitArea|
        area.host@ == key.host@ && area.session@ == key.session@ && area.terminal_id is Some
            && area.terminal_id->0@ == key.terminal_id@
}

/// The inside of a pane of that many cells, which has a frame around it and is
/// never empty.
pub open spec fn inner_cells(cells: u16) -> u16 {
    if cells <= 3 {
        1
    } else {
        (cells - 2) as u16
    }
}

/// The stream for one terminal, where it has its place on the screen.
pub open spec fn placed_stream(
    areas: Seq<RemoteProjectionHitArea>,
    leaf: (RemoteProjectionTerminalKey, RemoteProjectionStreamRole),
) -> Option<DesiredStream> {
    match first_where(areas, places(leaf.0)) {
        Some(i) => Some(
            DesiredStream {
                key: leaf.0,
                role: leaf.1,
                cols: inner_cells(areas[i].rect.width),
                rows: inner_cells(areas[i].rect.height),
            },
        ),
        None => None,
    }
}

/// Whether every terminal has its place on the screen.
pub open spec fn all_placed(
    areas: Seq<RemoteProjectionHitArea>,
    roles: Seq<(RemoteProjectionTerminalKey, RemoteProjectionStreamRole)>,
) -> bool {
    forall|i: int| 0 <= i < roles.len() ==> placed_stream(areas, #[trigger] roles[i]) is Some
}

pub open spec fn placed_streams(
    areas: Seq<RemoteProjectionHitArea>,
    roles: Seq<(RemoteProjectionTerminalKey, RemoteProjectionStreamRole)>,
) -> Seq<DesiredStream> {
    Seq::new(roles.len(), |i: int| placed_stream(areas, roles[i])->0)
}

pub open spec fn waiting(
    source: RemoteSpaceKey,
    streams: Seq<(RemoteProjectionTerminalKey, RemoteProjectionStreamRole)>,
    status: RemoteProjectionStreamStatus,
    message: Seq<char>,
    preserve_last_known: bool,
) -> AdmissionView {
    AdmissionView::Waiting { source, streams, status, message, preserve_last_known }
}

/// What the checks come to for a workspace whose layout is known.
pub open spec fn layout_admission(
    hosts: Seq<HostView>,
    areas: Seq<RemoteProjectionHitArea>,
    source: RemoteSpaceKey,
    status: RemoteProjectionStatus,
    layout: LayoutDescription,
) -> AdmissionView {
    let key = (source.host@, source.session@);
    let panes = leaves(layout.root);
    let roles = leaf_roles(source, panes, layout.focused_pane_id@);
    if panes.len() > MAX_LAYOUT_PANES {
        waiting(
            source,
            Seq::empty(),
            RemoteProjectionStreamStatus::Unsupported,
            "remote layout has "@ + decimal(panes.len()) + " panes; projection limit is "@
                + decimal(MAX_LAYOUT_PANES as nat),
            false,
        )
    } else {
        match leaf_fault(panes) {
            Some(LeafFault::NoTerminal) => waiting(
                source,
                Seq::empty(),
                RemoteProjectionStreamStatus::Unsupported,
                "remote layout omits terminal ids; update remote Herdr"@,
                false,
            ),
            Some(LeafFault::Repeated) => waiting(
                source,
                Seq::empty(),
                RemoteProjectionStreamStatus::NeedsAttention,
                "remote layout repeats a terminal id; projection refused"@,
                false,
            ),
            None => if !(status is Available) || !connected(hosts, key) {
                waiting(
                    source,
                    roles,
                    RemoteProjectionStreamStatus::StaleLastKnown,
                    "remote disconnected/stale; last-known frames are read-only"@,
                    true,
                )
            } else if !capabilities_of(hosts, key).terminal_session_stream {
                waiting(
                    source,
                    roles,
                    RemoteProjectionStreamStatus::Unsupported,
                    "remote does not advertise terminal_session_stream; update remote Herdr"@,
                    false,
                )
            } else {
                match prepared_state_of(hosts, key) {
                    None => waiting(
                        source,
                        roles,
                        RemoteProjectionStreamStatus::Connecting,
                        "waiting for supervisor-prepared no-start bridge state"@,
                        true,
                    ),
                    Some(prepared) => if all_placed(areas, roles) {
                        AdmissionView::Ready {
                            source,
                            prepared,
                            streams: placed_streams(areas, roles),
                        }
                    } else {
                        waiting(
                            source,
                            roles,
                            RemoteProjectionStreamStatus::Connecting,
                            "waiting for projected pane geometry"@,
                            true,
                        )
                    },
                }
            },
        }
    }
}

/// What the checks come to.
pub open spec fn admission(
    selected: Option<RemoteSpaceKey>,
    hosts: Seq<HostView>,
    areas: Seq<RemoteProjectionHitArea>,
) -> AdmissionView {
    match selected {
        None => AdmissionView::Inactive,
        Some(source) => match projection_for(hosts, source) {
            None => waiting(
                source,
                Seq::empty(),
                RemoteProjectionStreamStatus::Connecting,
                "waiting for authoritative remote layout"@,
                true,
            ),
            Some(projection) => match projection.layout {
                None => waiting(
                    source,
                    Seq::empty(),
                    if projection.status is StaleLastKnown {
                        RemoteProjectionStreamStatus::StaleLastKnown
                    } else {
                        RemoteProjectionStreamStatus::NeedsAttention
                    },
                    "authoritative remote layout unavailable"@,
                    projection.status is StaleLastKnown,
                ),
                Some(layout) => layout_admission(hosts, areas, source, projection.status, layout),
            },
        },
    }
}

fn wait(
    source: &RemoteSpaceKey,
    streams: Vec<(RemoteProjectionTerminalKey, RemoteProjectionStreamRole)>,
    status: RemoteProjectionStreamStatus,
    message: String,
    preserve_last_known: bool,
) -> (admission: ProjectionAdmission)
    ensures
        admission@ == waiting(*source, streams@, status, message@, preserve_last_known),
{
    ProjectionAdmission::Waiting {
        source: source.clone(),
        streams,
        status,
        message,
        preserve_last_known,
    }
}

/// The terminals of the panes with their roles, or why they cannot be streamed.
fn plan_leaves(
    source: &RemoteSpaceKey,
    panes: &Vec<&LayoutPane>,
    focused_pane_id: &String,
    Ghost(all): Ghost<Seq<LayoutPane>>,
) -> (planned: Result<
    Vec<(RemoteProjectionTerminalKey, RemoteProjectionStreamRole)>,
    ProjectionAdmission,
>)
    requires
        panes@ == all.map_values(|pane: LayoutPane| &pane),
    ensures
        match leaf_fault(all) {
            None => planned matches Ok(roles) && roles@ == leaf_roles(
                *source,
                all,
                focused_pane_id@,
            ),
            Some(LeafFault::NoTerminal) => planned matches Err(refused) && refused@ == waiting(
                *source,
                Seq::empty(),
                RemoteProjectionStreamStatus::Unsupported,
                "remote layout omits terminal ids; update remote Herdr"@,
                false,
            ),
            Some(LeafFault::Repeated) => planned matches Err(refused) && refused@ == waiting(
                *source,
                Seq::empty(),
                RemoteProjectionStreamStatus::NeedsAttention,
                "remote layout repeats a terminal id; projection refused"@,
                false,
            ),
        },
{
    let mut roles: Vec<(RemoteProjectionTerminalKey, RemoteProjectionStreamRole)> = Vec::new();
    let mut i: usize = 0;
    assert(all.take(0) =~= Seq::empty());
    while i < panes.len()
        invariant
            i <= panes@.len(),
            panes@ == all.map_values(|pane: LayoutPane| &pane),
            leaf_fault(all.take(i as int)) is None,
            roles@.len() == i,
            forall|j: int|
                0 <= j < i ==> (#[trigger] all[j]).terminal_id is Some && roles@[j] == (
                    terminal_key(*source, all[j].terminal_id->0),
                    leaf_role(all[j], focused_pane_id@),
                ),
        decreases panes@.len() - i,
    {
        let pane = panes[i];
        let ghost taken = all.take(i as int + 1);
        proof {
            assert(*pane == all[i as int]);
            assert(taken.drop_last() =~= all.take(i as int));
            assert(taken.last() == all[i as int]);
        }
        let terminal_id = match &pane.terminal_id {
            Some(terminal_id) => terminal_id.clone(),
            None => {
                proof {
                    lemma_fault_stays(all, i as int + 1);
                }
                let none: Vec<(RemoteProjectionTerminalKey, RemoteProjectionStreamRole)> =
                    Vec::new();
                assert(none@ =~= Seq::empty());
                return Err(
                    wait(
                        source,
                        none,
                        RemoteProjectionStreamStatus::Unsupported,
                        "remote layout omits terminal ids; update remote Herdr".to_owned(),
                        false,
                    ),
                );
            },
        };
        let mut j: usize = 0;
        while j < i
            invariant
                j <= i < all.len(),
                roles@.len() == i,
                taken == all.take(i as int + 1),
                taken.drop_last() == all.take(i as int),
                taken.last() == all[i as int],
                leaf_fault(all.take(i as int)) is None,
                all[i as int].terminal_id == Some(terminal_id),
                forall|k: int|
                    0 <= k < i ==> (#[trigger] all[k]).terminal_id is Some && roles@[k].0
                        == terminal_key(*source, all[k].terminal_id->0),
                forall|k: int| 0 <= k < j ==> !shows_terminal(#[trigger] all[k], terminal_id@),
            decreases i - j,
        {
            if roles[j].0.terminal_id == terminal_id {
                proof {
                    assert(shows_terminal(taken[j as int], terminal_id@));
                    lemma_fault_stays(all, i as int + 1);
                }
                let none: Vec<(RemoteProjectionTerminalKey, RemoteProjectionStreamRole)> =
                    Vec::new();
                assert(none@ =~= Seq::empty());
                return Err(
                    wait(
                        source,
                        none,
                        RemoteProjectionStreamStatus::NeedsAttention,
                        "remote layout repeats a terminal id; projection refused".to_owned(),
                        false,
                    ),
                );
            }
            assert(!shows_terminal(all[j as int], terminal_id@));
            j = j + 1;
        }
        let controls = match &pane.pane_id {
            Some(pane_id) => *pane_id == *focused_pane_id,
            None => false,
        };
        let role = if controls {
            RemoteProjectionStreamRole::Control
        } else {
            RemoteProjectionStreamRole::Observe
        };
        proof {
            assert forall|k: int| 0 <= k < taken.len() - 1 implies !shows_terminal(
                #[trigger] taken[k],
                terminal_id@,
            ) by {
                assert(taken[k] == all[k]);
            }
        }
        roles.push(
            (
                RemoteProjectionTerminalKey {
                    host: source.host.clone(),
                    session: source.session.clone(),
                    workspace_id: source.workspace_id.clone(),
                    terminal_id,
                },
                role,
            ),
        );
        i = i + 1;
    }
    assert(all.take(i as int) =~= all);
    assert(roles@ =~= leaf_roles(*source, all, focused_pane_id@));
    Ok(roles)
}

/// A fault among the first panes is the fault of all of them.
proof fn lemma_fault_stays(panes: Seq<LayoutPane>, n: int)
    requires
        0 <= n <= panes.len(),
        leaf_fault(panes.take(n)) is Some,
    ensures
        leaf_fault(panes) == leaf_fault(panes.take(n)),
    decreases panes.len() - n,
{
    if n < panes.len() {
        assert(panes.take(n + 1).drop_last() =~= panes.take(n));
        lemma_fault_stays(panes, n + 1);
    } else {
        assert(panes.take(n) =~= panes);
    }
}

fn area_index(areas: &Vec<RemoteProjectionHitArea>, key: &RemoteProjectionTerminalKey) -> (found:
    Option<usize>)
    ensures
        match found {
            Some(i) => i < areas@.len() && first_where(areas@, places(*key)) == Some(i as int),
            None => first_where(areas@, places(*key)) is None,
        },
{
    let mut i: usize = 0;
    while i < areas.len()
        invariant
            i <= areas@.len(),
            forall|j: int| 0 <= j < i ==> !places(*key)(#[trigger] areas@[j]),
        decreases areas@.len() - i,
    {
        let area = &areas[i];
        let shows = match &area.terminal_id {
            Some(terminal_id) => *terminal_id == key.terminal_id,
            None => false,
        };
        if area.host == key.host && area.session == key.session && shows {
            proof {
                lemma_first_found(areas@, places(*key), i as int);
            }
            return Some(i);
        }
        i = i + 1;
    }
    proof {
        lemma_first_missing(areas@, places(*key));
    }
    None
}

fn inner(cells: u16) -> (inside: u16)
    ensures
        inside == inner_cells(cells),
{
    if cells <= 3 {
        1
    } else {
        cells - 2
    }
}

/// The streams for all terminals, where each has its place on the screen.
fn place_streams(
    areas: &Vec<RemoteProjectionHitArea>,
    roles: &Vec<(RemoteProjectionTerminalKey, RemoteProjectionStreamRole)>,
) -> (placed: Option<Vec<DesiredStream>>)
    ensures
        match placed {
            Some(streams) => all_placed(areas@, roles@) && streams@ == placed_streams(
                areas@,
                roles@,
            ),
            None => !all_placed(areas@, roles@),
        },
{
    let mut streams: Vec<DesiredStream> = Vec::new();
    let mut i: usize = 0;
    while i < roles.len()
        invariant
            i <= roles@.len(),
            streams@.len() == i,
            forall|j: int|
                0 <= j < i ==> placed_stream(areas@, #[trigger] roles@[j]) == Some(streams@[j]),
        decreases roles@.len() - i,
    {
        let leaf = &roles[i];
        match area_index(areas, &leaf.0) {
            None => {
                assert(placed_stream(areas@, roles@[i as int]) is None);
                return None;
            },
            Some(a) => {
                let rect = areas[a].rect;
                streams.push(
                    DesiredStream {
                        key: leaf.0.clone(),
                        role: leaf.1,
                        cols: inner(rect.width),
                        rows: inner(rect.height),
                    },
                );
            },
        }
        i = i + 1;
    }
    assert(streams@ =~= placed_streams(areas@, roles@));
    Some(streams)
}

/// Runs the checks for a workspace whose layout is known.
fn plan_layout_admission(
    sources: &RemoteSources,
    areas: &Vec<RemoteProjectionHitArea>,
    source: &RemoteSpaceKey,
    status: RemoteProjectionStatus,
    layout: &LayoutDescription,
) -> (planned: ProjectionAdmission)
    ensures
        planned@ == layout_admission(sources@, areas@, *source, status, *layout),
{
    let mut panes: Vec<&LayoutPane> = Vec::new();
    layout_leaves(&layout.root, &mut panes);
    let ghost all = leaves(layout.root);
    assert(panes@ =~= all.map_values(|pane: LayoutPane| &pane));
    if panes.len() > MAX_LAYOUT_PANES {
        let none: Vec<(RemoteProjectionTerminalKey, RemoteProjectionStreamRole)> = Vec::new();
        assert(none@ =~= Seq::empty());
        let message = concat4(
            "remote layout has ",
            decimal_text(panes.len()).as_str(),
            " panes; projection limit is ",
            decimal_text(MAX_LAYOUT_PANES).as_str(),
        );
        return wait(source, none, RemoteProjectionStreamStatus::Unsupported, message, false);
    }
    let roles = match plan_leaves(source, &panes, &layout.focused_pane_id, Ghost(all)) {
        Ok(roles) => roles,
        Err(refused) => {
            return refused;
        },
    };
    let host = RemoteHostKey::new(source.host.clone(), source.session.clone());
    let fresh = matches!(status, RemoteProjectionStatus::Available) && match sources.host_status(
        &host,
    ) {
        Some(status) => status.is_connected(),
        None => false,
    };
    if !fresh {
        return wait(
            source,
            roles,
            RemoteProjectionStreamStatus::StaleLastKnown,
            "remote disconnected/stale; last-known frames are read-only".to_owned(),
            true,
        );
    }
    if !sources.host_capabilities(&host).terminal_session_stream {
        return wait(
            source,
            roles,
            RemoteProjectionStreamStatus::Unsupported,
            "remote does not advertise terminal_session_stream; update remote Herdr".to_owned(),
            false,
        );
    }
    let prepared = match sources.connected_bridge_state(&host) {
        Some(prepared) => prepared,
        None => {
            return wait(
                source,
                roles,
                RemoteProjectionStreamStatus::Connecting,
                "waiting for supervisor-prepared no-start bridge state".to_owned(),
                true,
            );
        },
    };
    match place_streams(areas, &roles) {
        Some(streams) => ProjectionAdmission::Ready { source: source.clone(), prepared, streams },
        None => wait(
            source,
            roles,
            RemoteProjectionStreamStatus::Connecting,
            "waiting for projected pane geometry".to_owned(),
            true,
        ),
    }
}

/// Runs every check on the selected workspace. Nothing is opened.
pub fn plan_projection_admission(
    selected: &Option<RemoteSpaceKey>,
    sources: &RemoteSources,
    areas: &Vec<RemoteProjectionHitArea>,
) -> (planned: ProjectionAdmission)
    ensures
        planned@ == admission(*selected, sources@, areas@),
{
    let source = match selected {
        Some(source) => source,
        None => {
            return ProjectionAdmission::Inactive;
        },
    };
    let none: Vec<(RemoteProjectionTerminalKey, RemoteProjectionStreamRole)> = Vec::new();
    assert(none@ =~= Seq::empty());
    let projection = match sources.projection_for_space(source) {
        Some(projection) => projection,
        None => {
            return wait(
                source,
                none,
                RemoteProjectionStreamStatus::Connecting,
                "waiting for authoritative remote layout".to_owned(),
                true,
            );
        },
    };
    match &projection.layout {
        Some(layout) => plan_layout_admission(sources, areas, source, projection.status, layout),
        None => {
            let stale = matches!(projection.status, RemoteProjectionStatus::StaleLastKnown);
            wait(
                source,
                none,
                if stale {
                    RemoteProjectionStreamStatus::StaleLastKnown
                } else {
                    RemoteProjectionStreamStatus::NeedsAttention
                },
                "authoritative remote layout unavailable".to_owned(),
                stale,
            )
        },
    }
}

// Laws -------------------------------------------------------------------

proof fn lemma_no_fault(panes: Seq<LayoutPane>, i: int)
    requires
        leaf_fault(panes) is None,
        0 <= i < panes.len(),
    ensures
        panes[i].terminal_id is Some,
        forall|j: int|
            0 <= j < i ==> !shows_terminal(#[trigger] panes[j], panes[i].terminal_id->0@),
    decreases panes.len(),
{
    if i == panes.len() - 1 {
        assert(panes.last() == panes[i]);
        assert forall|j: int| 0 <= j < i implies !shows_terminal(
            #[trigger] panes[j],
            panes[i].terminal_id->0@,
        ) by {}
    } else {
        let before = panes.drop_last();
        assert(before[i] == panes[i]);
        lemma_no_fault(before, i);
        assert forall|j: int| 0 <= j < i implies !shows_terminal(
            #[trigger] panes[j],
            panes[i].terminal_id->0@,
        ) by {
            assert(before[j] == panes[j]);
        }
    }
}

/// Streams are opened only for a workspace whose layout is fresh, on a host that
/// is connected, streams terminals and was prepared; never more than a layout
/// may have panes.
pub proof fn admitted_projections_are_fresh(
    selected: Option<RemoteSpaceKey>,
    hosts: Seq<HostView>,
    areas: Seq<RemoteProjectionHitArea>,
)
    requires
        admission(selected, hosts, areas) is Ready,
    ensures
        selected is Some,
        ({
            let key = (selected->0.host@, selected->0.session@);
            &&& connected(hosts, key)
            &&& capabilities_of(hosts, key).terminal_session_stream
            &&& projection_for(hosts, selected->0) matches Some(projection)
                && projection.status is Available && projection.layout is Some
            &&& prepared_state_of(hosts, key) == Some(
                admission(selected, hosts, areas)->Ready_prepared,
            )
            &&& admission(selected, hosts, areas)->Ready_streams.len() <= MAX_LAYOUT_PANES
        }),
{
}

/// No two streams of an admitted workspace show the same terminal.
pub proof fn admitted_streams_are_distinct(
    selected: Option<RemoteSpaceKey>,
    hosts: Seq<HostView>,
    areas: Seq<RemoteProjectionHitArea>,
    i: int,
    j: int,
)
    requires
        admission(selected, hosts, areas) is Ready,
        0 <= i < j < admission(selected, hosts, areas)->Ready_streams.len(),
    ensures
        admission(selected, hosts, areas)->Ready_streams[i].key@ != admission(
            selected,
            hosts,
            areas,
        )->Ready_streams[j].key@,
{
    let source = selected->0;
    let layout = projection_for(hosts, source)->0.layout->0;
    let panes = leaves(layout.root);
    let roles = leaf_roles(source, panes, layout.focused_pane_id@);
    lemma_no_fault(panes, j);
    lemma_no_fault(panes, i);
    assert(placed_stream(areas, roles[i]) is Some);
    assert(placed_stream(areas, roles[j]) is Some);
    assert(!shows_terminal(panes[i], panes[j].terminal_id->0@));
}

/// Every stream of an admitted workspace belongs to it and has room for at least
/// one cell.
pub proof fn admitted_streams_belong_to_the_source(
    selected: Option<RemoteSpaceKey>,
    hosts: Seq<HostView>,
    areas: Seq<RemoteProjectionHitArea>,
    i: int,
)
    requires
        admission(selected, hosts, areas) is Ready,
        0 <= i < admission(selected, hosts, areas)->Ready_streams.len(),
    ensures
        ({
            let stream = admission(selected, hosts, areas)->Ready_streams[i];
            &&& stream.key.host == selected->0.host
            &&& stream.key.session == selected->0.session
            &&& stream.key.workspace_id == selected->0.workspace_id
            &&& stream.cols >= 1 && stream.rows >= 1
        }),
{
    let source = selected->0;
    let layout = projection_for(hosts, source)->0.layout->0;
    let roles = leaf_roles(source, leaves(layout.root), layout.focused_pane_id@);
    assert(placed_stream(areas, roles[i]) is Some);
}

} // verus!
