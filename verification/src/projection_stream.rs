//! One stream of the shown remote workspace, from its connection to its end.
//!
//! A worker connects, greets, asks for its terminal and then reads. Each function
//! here takes what came back of one of these steps and says what follows. A stream
//! never takes a terminal over: where somebody else controls it, the worker watches
//! instead, once.
use vstd::prelude::*;
use crate::projection_frames::{text_view, ReportView, StreamReport};
use crate::projection_plan::{
    DesiredStream, RemoteProjectionStreamRole, RemoteProjectionStreamStatus,
};
use crate::projection_runtime::{MouseCapture, StreamChange};
use crate::text::{concat2, concat5, contains, contains_part, decimal, decimal_text_wide};

verus! {

/// How the frames of a stream are encoded.
#[derive(Debug, PartialEq, Eq)]
pub enum RenderEncoding {
    SemanticFrame,
    /// Any other encoding, by its name.
    Named(String),
}

/// A message from the remote server.
#[derive(Debug, PartialEq, Eq)]
pub enum StreamMessage {
    Welcome { encoding: RenderEncoding, error: Option<String> },
    /// A frame, by the number under which it is kept.
    Frame(u64),
    ServerShutdown { reason: Option<String> },
    MouseCapture { enabled: bool },
    Graphics,
    Other,
}

/// What a read from an open stream came to.
#[derive(Debug, PartialEq, Eq)]
pub enum StreamRead {
    Message(StreamMessage),
    /// The stream ended.
    UnexpectedEof,
    Failed(String),
}

/// What a stream asks for.
#[derive(Debug, PartialEq, Eq)]
pub enum StreamRequest {
    ObserveTerminal { target: String },
    ControlTerminal { target: String, takeover: bool },
}

/// How a stream ended.
#[derive(Debug, PartialEq, Eq)]
pub enum StreamEnd {
    /// Somebody else controls the terminal.
    OwnershipConflict(String),
    Closed(String),
}

/// What a [`StreamEnd`] holds.
#[verifier::ext_equal]
pub enum EndView {
    OwnershipConflict(Seq<char>),
    Closed(Seq<char>),
}

impl View for StreamEnd {
    type V = EndView;

    open spec fn view(&self) -> EndView {
        match self {
            StreamEnd::OwnershipConflict(reason) => EndView::OwnershipConflict(reason@),
            StreamEnd::Closed(reason) => EndView::Closed(reason@),
        }
    }
}

impl StreamEnd {
    /// What the end says.
    pub fn message(self) -> (message: String)
        ensures
            message@ == end_message(self@),
    {
        match self {
            StreamEnd::OwnershipConflict(message) => message,
            StreamEnd::Closed(message) => message,
        }
    }
}

pub open spec fn end_message(end: EndView) -> Seq<char> {
    match end {
        EndView::OwnershipConflict(message) => message,
        EndView::Closed(message) => message,
    }
}

/// A step before the first read.
#[derive(Debug, Clone, Copy, PartialEq, Eq, Structural)]
pub enum OpeningStep {
    Connect,
    SendHello,
    SendRequest,
    CloneWriter,
}

/// What a failed step is called.
pub open spec fn step_failure(step: OpeningStep) -> Seq<char> {
    match step {
        OpeningStep::Connect => "projection stream connect failed: "@,
        OpeningStep::SendHello => "projection handshake send failed: "@,
        OpeningStep::SendRequest => "projection stream request failed: "@,
        OpeningStep::CloneWriter => "projection stream clone failed: "@,
    }
}

/// The end of a stream one of whose first steps failed.
pub fn opening_failed(step: OpeningStep, message: &str) -> (end: StreamEnd)
    ensures
        end@ == EndView::Closed(step_failure(step) + message@),
{
    let what = match step {
        OpeningStep::Connect => "projection stream connect failed: ",
        OpeningStep::SendHello => "projection handshake send failed: ",
        OpeningStep::SendRequest => "projection stream request failed: ",
        OpeningStep::CloneWriter => "projection stream clone failed: ",
    };
    StreamEnd::Closed(concat2(what, message))
}

/// What the answer to the greeting means: the stream goes on, or it ends so.
pub open spec fn welcome_fault(answer: Result<StreamMessage, String>) -> Option<EndView> {
    match answer {
        Ok(StreamMessage::Welcome { encoding, error }) => match (encoding, error) {
            (RenderEncoding::SemanticFrame, None) => None,
            (_, Some(error)) => Some(
                EndView::Closed("projection handshake rejected: "@ + error@),
            ),
            (RenderEncoding::Named(name), None) => Some(
                EndView::Closed("projection negotiated unsupported render encoding "@ + name@),
            ),
        },
        Ok(_) => Some(EndView::Closed("projection expected Welcome"@)),
        Err(message) => Some(EndView::Closed("projection handshake read failed: "@ + message@)),
    }
}

/// What a stream asks for: its terminal, and never to take it over.
pub open spec fn stream_request(
    role: RemoteProjectionStreamRole,
    terminal_id: String,
) -> StreamRequest {
    match role {
        RemoteProjectionStreamRole::Observe => StreamRequest::ObserveTerminal {
            target: terminal_id,
        },
        RemoteProjectionStreamRole::Control => StreamRequest::ControlTerminal {
            target: terminal_id,
            takeover: false,
        },
    }
}

/// One attempt at a stream.
#[derive(Debug, Clone, Copy, PartialEq, Eq, Structural)]
pub struct StreamAttempt {
    /// What the attempt asks for.
    pub actual_role: RemoteProjectionStreamRole,
    /// What the pane was opened for.
    pub reported_role: RemoteProjectionStreamRole,
    pub received_frame: bool,
}

/// What follows a read.
#[derive(Debug, PartialEq, Eq)]
pub struct StreamStep {
    /// What changes of the stream, before anything is reported.
    pub change: Option<StreamChange>,
    pub report: Option<StreamReport>,
    /// The stream is over.
    pub end: Option<StreamEnd>,
    /// Nothing more can be written.
    pub drop_writer: bool,
}

/// What a [`StreamStep`] holds.
#[verifier::ext_equal]
pub struct StreamStepView {
    pub change: Option<StreamChange>,
    pub report: Option<ReportView>,
    pub end: Option<EndView>,
    pub drop_writer: bool,
}

impl View for StreamStep {
    type V = StreamStepView;

    open spec fn view(&self) -> StreamStepView {
        StreamStepView {
            change: self.change,
            report: match self.report {
                Some(report) => Some(report@),
                None => None,
            },
            end: match self.end {
                Some(end) => Some(end@),
                None => None,
            },
            drop_writer: self.drop_writer,
        }
    }
}

/// How a pane stands once a frame arrived.
pub open spec fn frame_status(attempt: StreamAttempt) -> RemoteProjectionStreamStatus {
    match (attempt.actual_role, attempt.reported_role) {
        (RemoteProjectionStreamRole::Control, _) => RemoteProjectionStreamStatus::LiveController,
        (
            RemoteProjectionStreamRole::Observe,
            RemoteProjectionStreamRole::Control,
        ) => RemoteProjectionStreamStatus::OwnedReadOnly,
        (
            RemoteProjectionStreamRole::Observe,
            RemoteProjectionStreamRole::Observe,
        ) => RemoteProjectionStreamStatus::LiveObserver,
    }
}

/// Whether a closing reason says that somebody else controls the terminal.
pub open spec fn says_owned(reason: Seq<char>) -> bool {
    contains_part(reason, "already has an attached client"@) || contains_part(
        reason,
        "already has a controller"@,
    )
}

/// How a stream ends that the server closed: in a conflict only where it asked for
/// control and has seen no frame.
pub open spec fn shutdown_end(attempt: StreamAttempt, reason: Option<String>) -> EndView {
    let reason = match reason {
        Some(reason) => reason@,
        None => "remote terminal session closed"@,
    };
    if attempt.actual_role is Control && !attempt.received_frame && says_owned(reason) {
        EndView::OwnershipConflict(reason)
    } else {
        EndView::Closed(reason)
    }
}

/// A report about the terminal of a stream.
pub open spec fn stream_report(
    desired: DesiredStream,
    generation: u64,
    status: RemoteProjectionStreamStatus,
    frame: Option<u64>,
    message: Option<Seq<char>>,
) -> ReportView {
    ReportView { key: desired.key, generation, role: desired.role, status, frame, message }
}

pub open spec fn nothing_follows() -> StreamStepView {
    StreamStepView { change: None, report: None, end: None, drop_writer: false }
}

/// What follows a read.
pub open spec fn read_step(
    attempt: StreamAttempt,
    desired: DesiredStream,
    generation: u64,
    read: StreamRead,
) -> StreamStepView {
    match read {
        StreamRead::Message(StreamMessage::Frame(frame)) => StreamStepView {
            change: if attempt.actual_role is Control {
                Some(StreamChange::Writable(true))
            } else {
                None
            },
            report: Some(
                stream_report(desired, generation, frame_status(attempt), Some(frame), None),
            ),
            ..nothing_follows()
        },
        StreamRead::Message(StreamMessage::ServerShutdown { reason }) => StreamStepView {
            change: Some(StreamChange::Writable(false)),
            end: Some(shutdown_end(attempt, reason)),
            drop_writer: true,
            ..nothing_follows()
        },
        StreamRead::Message(StreamMessage::MouseCapture { enabled }) => StreamStepView {
            change: Some(
                StreamChange::Capture(
                    if enabled {
                        MouseCapture::Enabled
                    } else {
                        MouseCapture::Disabled
                    },
                ),
            ),
            ..nothing_follows()
        },
        StreamRead::Message(_) => nothing_follows(),
        StreamRead::UnexpectedEof => StreamStepView {
            change: Some(StreamChange::Writable(false)),
            end: Some(EndView::Closed("remote terminal session stream disconnected"@)),
            ..nothing_follows()
        },
        StreamRead::Failed(message) => StreamStepView {
            change: Some(StreamChange::Writable(false)),
            end: Some(EndView::Closed("remote terminal session stream failed: "@ + message@)),
            ..nothing_follows()
        },
    }
}

/// The attempt after a read.
pub open spec fn after_read(attempt: StreamAttempt, read: StreamRead) -> StreamAttempt {
    match read {
        StreamRead::Message(StreamMessage::Frame(_)) => StreamAttempt {
            received_frame: true,
            ..attempt
        },
        _ => attempt,
    }
}

fn report_for(
    desired: &DesiredStream,
    generation: u64,
    status: RemoteProjectionStreamStatus,
    frame: Option<u64>,
    message: Option<String>,
) -> (report: StreamReport)
    ensures
        report@ == stream_report(*desired, generation, status, frame, text_view(message)),
{
    StreamReport {
        key: desired.key.clone(),
        generation,
        role: desired.role,
        status,
        frame,
        message,
    }
}

fn nothing() -> (step: StreamStep)
    ensures
        step@ == nothing_follows(),
{
    StreamStep { change: None, report: None, end: None, drop_writer: false }
}

impl StreamAttempt {
    /// The first attempt at a stream.
    pub fn first(desired: &DesiredStream) -> (attempt: Self)
        ensures
            attempt == first_attempt(desired.role),
    {
        StreamAttempt {
            actual_role: desired.role,
            reported_role: desired.role,
            received_frame: false,
        }
    }

    /// Takes the answer to the greeting, and says what to ask for.
    pub fn welcomed(
        &self,
        desired: &DesiredStream,
        answer: Result<StreamMessage, String>,
    ) -> (next: Result<StreamRequest, StreamEnd>)
        ensures
            match (next, welcome_fault(answer)) {
                (Ok(request), None) => request == stream_request(
                    self.actual_role,
                    desired.key.terminal_id,
                ),
                (Err(end), Some(fault)) => end@ == fault,
                _ => false,
            },
    {
        match answer {
            Ok(StreamMessage::Welcome { encoding, error }) => match (encoding, error) {
                (RenderEncoding::SemanticFrame, None) => {},
                (_, Some(error)) => {
                    return Err(
                        StreamEnd::Closed(
                            concat2("projection handshake rejected: ", error.as_str()),
                        ),
                    );
                },
                (RenderEncoding::Named(name), None) => {
                    return Err(
                        StreamEnd::Closed(
                            concat2(
                                "projection negotiated unsupported render encoding ",
                                name.as_str(),
                            ),
                        ),
                    );
                },
            },
            Ok(_) => {
                return Err(StreamEnd::Closed("projection expected Welcome".to_owned()));
            },
            Err(message) => {
                return Err(
                    StreamEnd::Closed(
                        concat2("projection handshake read failed: ", message.as_str()),
                    ),
                );
            },
        }
        let target = desired.key.terminal_id.clone();
        Ok(
            match self.actual_role {
                RemoteProjectionStreamRole::Observe => StreamRequest::ObserveTerminal { target },
                RemoteProjectionStreamRole::Control => StreamRequest::ControlTerminal {
                    target,
                    takeover: false,
                },
            },
        )
    }

    /// Takes what a read came to.
    pub fn stream_read(
        &mut self,
        desired: &DesiredStream,
        generation: u64,
        read: StreamRead,
    ) -> (step: StreamStep)
        ensures
            *final(self) == after_read(*old(self), read),
            step@ == read_step(*old(self), *desired, generation, read),
    {
        match read {
            StreamRead::Message(StreamMessage::Frame(frame)) => {
                self.received_frame = true;
                let (change, status) = match (self.actual_role, self.reported_role) {
                    (RemoteProjectionStreamRole::Control, _) => (
                        Some(StreamChange::Writable(true)),
                        RemoteProjectionStreamStatus::LiveController,
                    ),
                    (
                        RemoteProjectionStreamRole::Observe,
                        RemoteProjectionStreamRole::Control,
                    ) => (None, RemoteProjectionStreamStatus::OwnedReadOnly),
                    (RemoteProjectionStreamRole::Observe, _) => (
                        None,
                        RemoteProjectionStreamStatus::LiveObserver,
                    ),
                };
                StreamStep {
                    change,
                    report: Some(report_for(desired, generation, status, Some(frame), None)),
                    ..nothing()
                }
            },
            StreamRead::Message(StreamMessage::ServerShutdown { reason }) => {
                let reason = match reason {
                    Some(reason) => reason,
                    None => "remote terminal session closed".to_owned(),
                };
                let controls = matches!(self.actual_role, RemoteProjectionStreamRole::Control);
                let conflict = controls && !self.received_frame && (contains(
                    reason.as_str(),
                    "already has an attached client",
                ) || contains(reason.as_str(), "already has a controller"));
                let end = if conflict {
                    StreamEnd::OwnershipConflict(reason)
                } else {
                    StreamEnd::Closed(reason)
                };
                StreamStep {
                    change: Some(StreamChange::Writable(false)),
                    end: Some(end),
                    drop_writer: true,
                    ..nothing()
                }
            },
            StreamRead::Message(StreamMessage::MouseCapture { enabled }) => {
                let capture = if enabled {
                    MouseCapture::Enabled
                } else {
                    MouseCapture::Disabled
                };
                StreamStep { change: Some(StreamChange::Capture(capture)), ..nothing() }
            },
            StreamRead::Message(_) => nothing(),
            StreamRead::UnexpectedEof => StreamStep {
                change: Some(StreamChange::Writable(false)),
                end: Some(
                    StreamEnd::Closed("remote terminal session stream disconnected".to_owned()),
                ),
                ..nothing()
            },
            StreamRead::Failed(message) => StreamStep {
                change: Some(StreamChange::Writable(false)),
                end: Some(
                    StreamEnd::Closed(
                        concat2("remote terminal session stream failed: ", message.as_str()),
                    ),
                ),
                ..nothing()
            },
        }
    }

    /// Takes the end of an attempt.
    pub fn ended(
        &self,
        desired: &DesiredStream,
        generation: u64,
        input_sent: bool,
        end: StreamEnd,
    ) -> (outcome: AttemptOutcome)
        ensures
            outcome@ == attempt_outcome(*self, *desired, generation, input_sent, end@),
    {
        if self.actual_role != self.reported_role {
            let changes: Vec<StreamChange> = vec![StreamChange::Ended];
            assert(changes@ =~= seq![StreamChange::Ended]);
            return AttemptOutcome { changes, report: None, next: None };
        }
        match end {
            StreamEnd::OwnershipConflict(reason) => {
                let changes: Vec<StreamChange> = vec![
                    StreamChange::Writable(false),
                    StreamChange::Capture(MouseCapture::Unknown),
                ];
                assert(changes@ =~= seq![
                    StreamChange::Writable(false),
                    StreamChange::Capture(MouseCapture::Unknown),
                ]);
                AttemptOutcome {
                    changes,
                    report: Some(
                        report_for(
                            desired,
                            generation,
                            RemoteProjectionStreamStatus::OwnedReadOnly,
                            None,
                            Some(reason),
                        ),
                    ),
                    next: Some(
                        StreamAttempt {
                            actual_role: RemoteProjectionStreamRole::Observe,
                            reported_role: RemoteProjectionStreamRole::Control,
                            received_frame: false,
                        },
                    ),
                }
            },
            StreamEnd::Closed(reason) => {
                let status = if input_sent {
                    RemoteProjectionStreamStatus::NeedsAttention
                } else {
                    RemoteProjectionStreamStatus::Disconnected
                };
                let changes: Vec<StreamChange> = vec![
                    StreamChange::Writable(false),
                    StreamChange::Ended,
                ];
                assert(changes@ =~= seq![StreamChange::Writable(false), StreamChange::Ended]);
                AttemptOutcome {
                    changes,
                    report: Some(report_for(desired, generation, status, None, Some(reason))),
                    next: None,
                }
            },
        }
    }
}

pub open spec fn first_attempt(role: RemoteProjectionStreamRole) -> StreamAttempt {
    StreamAttempt { actual_role: role, reported_role: role, received_frame: false }
}

/// The attempt to watch a terminal that somebody else controls.
pub open spec fn watching_attempt() -> StreamAttempt {
    StreamAttempt {
        actual_role: RemoteProjectionStreamRole::Observe,
        reported_role: RemoteProjectionStreamRole::Control,
        received_frame: false,
    }
}

/// What follows the end of an attempt.
#[derive(Debug, PartialEq, Eq)]
pub struct AttemptOutcome {
    pub changes: Vec<StreamChange>,
    pub report: Option<StreamReport>,
    /// The attempt to make then.
    pub next: Option<StreamAttempt>,
}

/// What an [`AttemptOutcome`] holds.
#[verifier::ext_equal]
pub struct OutcomeView {
    pub changes: Seq<StreamChange>,
    pub report: Option<ReportView>,
    pub next: Option<StreamAttempt>,
}

impl View for AttemptOutcome {
    type V = OutcomeView;

    open spec fn view(&self) -> OutcomeView {
        OutcomeView {
            changes: self.changes@,
            report: match self.report {
                Some(report) => Some(report@),
                None => None,
            },
            next: self.next,
        }
    }
}

/// What follows the end of an attempt. Where somebody else controls the terminal it
/// is watched instead; how that ends is not reported. Any other end is reported:
/// as one that needs attention where input was sent, since nobody knows whether it
/// arrived.
pub open spec fn attempt_outcome(
    attempt: StreamAttempt,
    desired: DesiredStream,
    generation: u64,
    input_sent: bool,
    end: EndView,
) -> OutcomeView {
    if attempt.actual_role != attempt.reported_role {
        OutcomeView { changes: seq![StreamChange::Ended], report: None, next: None }
    } else {
        match end {
            EndView::OwnershipConflict(reason) => OutcomeView {
                changes: seq![
                    StreamChange::Writable(false),
                    StreamChange::Capture(MouseCapture::Unknown),
                ],
                report: Some(
                    stream_report(
                        desired,
                        generation,
                        RemoteProjectionStreamStatus::OwnedReadOnly,
                        None,
                        Some(reason),
                    ),
                ),
                next: Some(watching_attempt()),
            },
            EndView::Closed(reason) => OutcomeView {
                changes: seq![StreamChange::Writable(false), StreamChange::Ended],
                report: Some(
                    stream_report(
                        desired,
                        generation,
                        if input_sent {
                            RemoteProjectionStreamStatus::NeedsAttention
                        } else {
                            RemoteProjectionStreamStatus::Disconnected
                        },
                        None,
                        Some(reason),
                    ),
                ),
                next: None,
            },
        }
    }
}

// The local socket -------------------------------------------------------

/// The longest path a local socket can have, in bytes.
pub const MAX_SOCKET_PATH: usize = 103;

/// The name of the local socket of a generation.
pub fn projection_socket_name(process_id: u32, generation: u64) -> (name: String)
    ensures
        name@ == "herdr-projection-"@ + decimal(process_id as nat) + "-"@ + decimal(
            generation as nat,
        ) + ".sock"@,
{
    concat5(
        "herdr-projection-",
        decimal_text_wide(process_id as u64).as_str(),
        "-",
        decimal_text_wide(generation).as_str(),
        ".sock",
    )
}

/// Whether a socket can stand at a path of so many bytes. Where it cannot, `/tmp`
/// takes the place of the temporary directory.
pub fn socket_path_fits(bytes: usize) -> (fits: bool)
    ensures
        fits == (bytes <= MAX_SOCKET_PATH),
{
    bytes <= MAX_SOCKET_PATH
}

// Laws -------------------------------------------------------------------

/// No stream ever takes a terminal over.
pub proof fn streams_never_take_over(role: RemoteProjectionStreamRole, terminal_id: String)
    ensures
        stream_request(role, terminal_id) matches StreamRequest::ControlTerminal { takeover, .. }
            ==> !takeover,
{
}

/// A watching stream never makes its pane writable, and never ends in a conflict.
pub proof fn watching_streams_stay_read_only(
    attempt: StreamAttempt,
    desired: DesiredStream,
    generation: u64,
    read: StreamRead,
)
    requires
        attempt.actual_role is Observe,
    ensures
        read_step(attempt, desired, generation, read).change != Some(StreamChange::Writable(true)),
        !(read_step(attempt, desired, generation, read).end matches Some(
            EndView::OwnershipConflict(_),
        )),
        after_read(attempt, read).actual_role is Observe,
{
}

/// The fallback to watching happens at most once: the attempt that it makes is
/// followed by none.
pub proof fn watching_is_tried_once(
    attempt: StreamAttempt,
    desired: DesiredStream,
    generation: u64,
    input_sent: bool,
    end: EndView,
    later: EndView,
)
    requires
        attempt_outcome(attempt, desired, generation, input_sent, end).next is Some,
    ensures
        ({
            let next = attempt_outcome(attempt, desired, generation, input_sent, end).next->0;
            let last = attempt_outcome(next, desired, generation, input_sent, later);
            last.next is None && last.report is None
        }),
{
}

/// Once a frame was seen, a stream that is closed is never tried again.
pub proof fn live_streams_are_not_reopened(
    attempt: StreamAttempt,
    desired: DesiredStream,
    generation: u64,
    input_sent: bool,
    read: StreamRead,
)
    requires
        attempt.received_frame,
        read_step(attempt, desired, generation, read).end is Some,
    ensures
        attempt_outcome(
            attempt,
            desired,
            generation,
            input_sent,
            read_step(attempt, desired, generation, read).end->0,
        ).next is None,
{
}

} // verus!
