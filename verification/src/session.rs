//! The state of one download session and what each event of its process does
//! to it.
//!
//! A [`Session`] is a small state machine. The caller runs the process and
//! hands every event it produces to [`Session::handle`]; the session answers
//! with the events to publish, in order, and says when it is over. Nothing in
//! here waits, reads or writes.
//!
//! The phase of a session only moves forward: from the first leg to the
//! second, to merging, to post-processing. The one step back is from
//! post-processing to merging, on a line that carries the merge marker.

use vstd::prelude::*;
use vstd::string::StringExecFns;
use vstd::utf8::{decode_utf8, valid_utf8};
use crate::pattern::{
    first_match, progress_of, scan_line, scan_of, scan_progress, LineScan, LineScanView,
    MERGE_MARKER,
};
use crate::progress::{
    lemma_remap_range, remap, session_percent, FULL, MERGING_PERCENT, PROCESSING_PERCENT,
};
use crate::text::{
    contains, contains_in, file_name, file_name_start, find, find_in, lower, lowered, part_of,
    text_of, to_chars, trim, trim_end, trimmed, without_trailing_space,
};

verus! {

/// The coarse stage of a session, as shown next to its percentage.
#[derive(Clone, Copy, Debug, PartialEq, Eq, Structural)]
pub enum Phase {
    /// Nothing has told the legs apart yet.
    Downloading,
    /// The video leg is being fetched.
    Video,
    /// The audio leg is being fetched.
    Audio,
    /// The legs are being merged.
    Merging,
    /// The result is being post-processed.
    Processing,
}

/// The name under which a phase is published.
pub open spec fn phase_name(phase: Phase) -> Seq<char> {
    match phase {
        Phase::Downloading => "downloading"@,
        Phase::Video => "video"@,
        Phase::Audio => "audio"@,
        Phase::Merging => "merging"@,
        Phase::Processing => "processing"@,
    }
}

/// The place of a phase in the course of a session.
pub open spec fn phase_rank(phase: Phase) -> nat {
    match phase {
        Phase::Downloading => 0,
        Phase::Video => 1,
        Phase::Audio => 2,
        Phase::Merging => 3,
        Phase::Processing => 4,
    }
}

impl Phase {
    /// The place of the phase in the course of a session.
    pub fn rank(&self) -> (rank: u8)
        ensures
            rank == phase_rank(*self),
    {
        match self {
            Phase::Downloading => 0,
            Phase::Video => 1,
            Phase::Audio => 2,
            Phase::Merging => 3,
            Phase::Processing => 4,
        }
    }

    /// The name under which the phase is published.
    pub fn name(&self) -> (name: &'static str)
        ensures
            name@ == phase_name(*self),
    {
        match self {
            Phase::Downloading => "downloading",
            Phase::Video => "video",
            Phase::Audio => "audio",
            Phase::Merging => "merging",
            Phase::Processing => "processing",
        }
    }
}

/// The state of a session as a whole.
#[derive(Clone, Copy, Debug, PartialEq, Eq, Structural)]
pub enum Status {
    /// The process runs.
    Downloading,
    /// The process ended with exit code 0.
    Completed,
    /// The process ended in any other way.
    Error,
    /// The session was cancelled.
    Cancelled,
}

/// The name under which a status is published.
pub open spec fn status_name(status: Status) -> Seq<char> {
    match status {
        Status::Downloading => "downloading"@,
        Status::Completed => "completed"@,
        Status::Error => "error"@,
        Status::Cancelled => "cancelled"@,
    }
}

impl Status {
    /// The name under which the status is published.
    pub fn name(&self) -> (name: &'static str)
        ensures
            name@ == status_name(*self),
    {
        match self {
            Status::Downloading => "downloading",
            Status::Completed => "completed",
            Status::Error => "error",
            Status::Cancelled => "cancelled",
        }
    }
}

/// An event for the caller to publish, keyed by the session's id.
#[derive(Clone, Debug, PartialEq, Eq)]
pub enum SessionEvent {
    /// The progress of the session. `percentage` is a session percentage, in
    /// ten-thousandths of a percent point.
    Progress {
        id: String,
        percentage: u64,
        speed: String,
        eta: String,
        size: String,
        status: Status,
        phase: Phase,
    },
    /// The name of the file being written.
    TitleChanged { id: String, title: String },
    /// A line of the tool's output worth showing.
    Log { id: String, message: String, is_error: bool },
    /// The status of the session.
    StatusChanged { id: String, status: Status },
}

/// The model of a [`SessionEvent`].
pub enum SessionEventView {
    Progress {
        id: Seq<char>,
        percentage: u64,
        speed: Seq<char>,
        eta: Seq<char>,
        size: Seq<char>,
        status: Status,
        phase: Phase,
    },
    TitleChanged { id: Seq<char>, title: Seq<char> },
    Log { id: Seq<char>, message: Seq<char>, is_error: bool },
    StatusChanged { id: Seq<char>, status: Status },
}

impl DeepView for SessionEvent {
    type V = SessionEventView;

    open spec fn deep_view(&self) -> SessionEventView {
        match self {
            SessionEvent::Progress { id, percentage, speed, eta, size, status, phase } => {
                SessionEventView::Progress {
                    id: id@,
                    percentage: *percentage,
                    speed: speed@,
                    eta: eta@,
                    size: size@,
                    status: *status,
                    phase: *phase,
                }
            },
            SessionEvent::TitleChanged { id, title } => SessionEventView::TitleChanged {
                id: id@,
                title: title@,
            },
            SessionEvent::Log { id, message, is_error } => SessionEventView::Log {
                id: id@,
                message: message@,
                is_error: *is_error,
            },
            SessionEvent::StatusChanged { id, status } => SessionEventView::StatusChanged {
                id: id@,
                status: *status,
            },
        }
    }
}

impl View for SessionEvent {
    type V = SessionEventView;

    open spec fn view(&self) -> SessionEventView {
        self.deep_view()
    }
}

/// An event of the session's process, as the caller observed it.
#[derive(Clone, Debug, PartialEq, Eq)]
pub enum ProcessEvent {
    /// A line on the standard output, as bytes.
    Stdout(Vec<u8>),
    /// A line on the standard error, as bytes.
    Stderr(Vec<u8>),
    /// The process ended, with this exit code if it has one.
    Terminated(Option<i32>),
    /// Anything else.
    Other,
}

/// What a session asks of the caller after an event.
#[derive(Clone, Debug, PartialEq, Eq)]
pub struct Reaction {
    /// The events to publish, in this order.
    pub events: Vec<SessionEvent>,
    /// Whether the session is over: no further event is to be handed in, and
    /// the session is to be taken off the registry.
    pub finished: bool,
}

/// One download session.
#[derive(Clone, Debug, PartialEq, Eq)]
pub struct Session {
    /// The caller's name for the session.
    pub id: String,
    /// The phase the session is in.
    pub current_phase: Phase,
    /// The number of legs seen so far.
    pub leg_count: u64,
}

/// The model of a [`Session`].
pub struct SessionView {
    pub id: Seq<char>,
    pub current_phase: Phase,
    pub leg_count: u64,
}

impl View for Session {
    type V = SessionView;

    open spec fn view(&self) -> SessionView {
        SessionView {
            id: self.id@,
            current_phase: self.current_phase,
            leg_count: self.leg_count,
        }
    }
}

/// What `String::from_utf8_lossy` makes of `bytes`.
pub uninterp spec fn lossy_text(bytes: Seq<u8>) -> Seq<char>;

/// Decodes `bytes` with `String::from_utf8_lossy` of the standard library.
/// The contract names the outcome [`lossy_text`], and claims that bytes
/// which are valid UTF-8 decode to the text they encode.
#[verifier::external_body]
pub(crate) fn decode(bytes: &Vec<u8>) -> (text: String)
    ensures
        text@ == lossy_text(bytes@),
        valid_utf8(bytes@) ==> text@ == decode_utf8(bytes@),
{
    String::from_utf8_lossy(bytes).into_owned()
}

/// The number of legs after a line: one more where the line announces a
/// destination. The count stops at the largest `u64`.
pub open spec fn legs_after(legs: u64, scan: LineScanView) -> u64 {
    if scan.destination.is_some() && legs < u64::MAX {
        (legs + 1) as u64
    } else {
        legs
    }
}

/// The phase that a destination line puts a session in: the first leg is the
/// video, every later one the audio.
pub open spec fn leg_phase(legs: u64) -> Phase {
    if legs == 1 {
        Phase::Video
    } else {
        Phase::Audio
    }
}

/// The phase of a session in `phase` that is told of the leg `leg`: the
/// leg, where it lies neither behind `phase` nor beyond `Audio`; otherwise
/// `phase`. So a phase is never left for an earlier one, and a session that
/// is merging or post-processing is never taken back to a leg.
pub open spec fn later_leg(phase: Phase, leg: Phase) -> Phase {
    if phase_rank(phase) <= phase_rank(leg) <= phase_rank(Phase::Audio) {
        leg
    } else {
        phase
    }
}

/// The phase after a line. A post-processing marker forces `Processing`;
/// failing that, a merge marker forces `Merging`. A line without a marker
/// leaves a session that is merging or post-processing as it is. In any
/// other session a destination line starts the next leg and a named stream
/// is taken up, in this order, each only where it does not move the phase
/// back.
pub open spec fn phase_after(phase: Phase, legs: u64, scan: LineScanView) -> Phase {
    if scan.post_processing {
        Phase::Processing
    } else if scan.merging {
        Phase::Merging
    } else {
        let started = if scan.destination.is_some() {
            later_leg(phase, leg_phase(legs_after(legs, scan)))
        } else {
            phase
        };
        match scan.stream_hint {
            Some(named) => later_leg(started, named),
            None => started,
        }
    }
}

/// The session after a line of standard output.
pub open spec fn session_after(s: SessionView, scan: LineScanView) -> SessionView {
    SessionView {
        id: s.id,
        current_phase: phase_after(s.current_phase, s.leg_count, scan),
        leg_count: legs_after(s.leg_count, scan),
    }
}

/// The progress event that stands for a marker: no figures, a fixed
/// percentage, and the marker's own phase.
pub open spec fn marker_event(id: Seq<char>, percentage: u64, phase: Phase) -> SessionEventView {
    SessionEventView::Progress {
        id,
        percentage,
        speed: Seq::empty(),
        eta: Seq::empty(),
        size: Seq::empty(),
        status: Status::Downloading,
        phase,
    }
}

/// The events for the markers of a line: 99.0 % for a merge marker, then
/// 99.5 % for a post-processing marker.
pub open spec fn marker_events(id: Seq<char>, scan: LineScanView) -> Seq<SessionEventView> {
    (if scan.merging {
        seq![marker_event(id, MERGING_PERCENT, Phase::Merging)]
    } else {
        Seq::empty()
    }) + (if scan.post_processing {
        seq![marker_event(id, PROCESSING_PERCENT, Phase::Processing)]
    } else {
        Seq::empty()
    })
}

/// The text in front of which an already-downloaded line names its file.
pub const ANNOUNCEMENT_HEAD: &'static str = "[download] ";

/// The text behind which an already-downloaded line names its file.
pub const ANNOUNCEMENT_TAIL: &'static str = " has already";

/// The path that an already-downloaded line names: what stands between the
/// first [`ANNOUNCEMENT_HEAD`] and the first [`ANNOUNCEMENT_TAIL`] behind it.
pub open spec fn announced_path(text: Seq<char>) -> Option<Seq<char>> {
    match find(text, ANNOUNCEMENT_HEAD@) {
        Some(start) => {
            let rest = text.skip(start + ANNOUNCEMENT_HEAD@.len());
            match find(rest, ANNOUNCEMENT_TAIL@) {
                Some(end) => Some(rest.take(end)),
                None => None,
            }
        },
        None => None,
    }
}

/// The event that carries what a line says of the transfer: its progress,
/// where it is a progress line; else the file name, where it announces a
/// destination; else the file name, where it reports a file as present.
pub open spec fn reading_events(
    after: SessionView,
    text: Seq<char>,
    scan: LineScanView,
) -> Seq<SessionEventView> {
    if let Some(reading) = scan.progress {
        seq![
            SessionEventView::Progress {
                id: after.id,
                percentage: session_percent(reading.percent, after.leg_count),
                speed: reading.speed,
                eta: reading.eta,
                size: reading.size,
                status: Status::Downloading,
                phase: after.current_phase,
            },
        ]
    } else if let Some(path) = scan.destination {
        seq![SessionEventView::TitleChanged { id: after.id, title: file_name(trimmed(path)) }]
    } else if scan.already_downloaded {
        match announced_path(text) {
            Some(path) => seq![
                SessionEventView::TitleChanged { id: after.id, title: file_name(path) },
            ],
            None => Seq::empty(),
        }
    } else {
        Seq::empty()
    }
}

/// Whether `text` speaks of a failure: it holds `error`, `warning` or
/// `failed`, in capital or small ASCII letters.
pub open spec fn has_failure_token(text: Seq<char>) -> bool {
    let low = lowered(text);
    contains(low, "error"@) || contains(low, "warning"@) || contains(low, "failed"@)
}

/// Whether a line is shown as a log line: always, unless it is a progress
/// line that speaks of no failure. Progress lines come by the hundred;
/// leaving them out keeps the log short, and no failure is left out with
/// them.
pub open spec fn is_logged(text: Seq<char>, is_progress: bool) -> bool {
    has_failure_token(text) || !is_progress
}

/// The log event for `text`, where `logged`.
pub open spec fn log_events(id: Seq<char>, text: Seq<char>, is_error: bool, logged: bool) -> Seq<
    SessionEventView,
> {
    if logged {
        seq![SessionEventView::Log { id, message: text, is_error }]
    } else {
        Seq::empty()
    }
}

/// The events for a line of standard output, in the order in which they are
/// published: markers, reading, log.
pub open spec fn output_events(s: SessionView, text: Seq<char>, scan: LineScanView) -> Seq<
    SessionEventView,
> {
    marker_events(s.id, scan) + reading_events(session_after(s, scan), text, scan) + log_events(
        s.id,
        text,
        false,
        is_logged(text, scan.progress.is_some()),
    )
}

/// The events for a line of standard error.
pub open spec fn error_output_events(s: SessionView, text: Seq<char>, is_progress: bool) -> Seq<
    SessionEventView,
> {
    log_events(s.id, text, true, is_logged(text, is_progress))
}

/// The status that an exit code stands for: completed for 0, an error for
/// any other code and for none.
pub open spec fn final_status(code: Option<i32>) -> Status {
    if code == Some(0i32) {
        Status::Completed
    } else {
        Status::Error
    }
}

/// Executable form of [`later_leg`].
pub fn take_up(phase: Phase, leg: Phase) -> (later: Phase)
    ensures
        later == later_leg(phase, leg),
{
    if phase.rank() <= leg.rank() && leg.rank() <= Phase::Audio.rank() {
        leg
    } else {
        phase
    }
}

/// Executable form of [`has_failure_token`].
pub fn speaks_of_failure(text: &str) -> (b: bool)
    ensures
        b == has_failure_token(text@),
{
    let low = lower(&to_chars(text));
    contains_in(&low, &to_chars("error")) || contains_in(&low, &to_chars("warning"))
        || contains_in(&low, &to_chars("failed"))
}

/// Executable form of [`file_name`].
pub fn file_name_of(path: &Vec<char>) -> (name: String)
    ensures
        name@ == file_name(path@),
{
    let k = file_name_start(path);
    text_of(path, k, path.len())
}

/// Executable form of [`announced_path`].
pub fn announced_path_of(text: &str) -> (path: Option<Vec<char>>)
    ensures
        match path {
            Some(p) => announced_path(text@) == Some(p@),
            None => announced_path(text@).is_none(),
        },
{
    let v = to_chars(text);
    let head = to_chars(ANNOUNCEMENT_HEAD);
    let tail = to_chars(ANNOUNCEMENT_TAIL);
    match find_in(&v, &head) {
        Some(start) => {
            let rest = part_of(&v, start + head.len(), v.len());
            assert(rest@ == v@.skip(start + head.len()));
            match find_in(&rest, &tail) {
                Some(end) => {
                    let path = part_of(&rest, 0, end);
                    assert(path@ == rest@.take(end as int));
                    Some(path)
                },
                None => None,
            }
        },
        None => None,
    }
}

impl Session {
    /// A session that has seen nothing yet.
    pub fn new(id: String) -> (s: Session)
        ensures
            s@ == (SessionView { id: id@, current_phase: Phase::Downloading, leg_count: 0 }),
    {
        Session { id, current_phase: Phase::Downloading, leg_count: 0 }
    }

    /// Takes in a line of standard output together with what the patterns
    /// found in it: moves the session on and returns the events to publish.
    pub fn absorb_output(&mut self, text: &str, scan: &LineScan) -> (events: Vec<SessionEvent>)
        ensures
            final(self)@ == session_after(old(self)@, scan@),
            events.deep_view() == output_events(old(self)@, text@, scan@),
    {
        let mut events: Vec<SessionEvent> = Vec::new();
        if scan.destination.is_some() && self.leg_count < u64::MAX {
            self.leg_count = self.leg_count + 1;
        }
        if scan.post_processing {
            self.current_phase = Phase::Processing;
        } else if scan.merging {
            self.current_phase = Phase::Merging;
        } else {
            if scan.destination.is_some() {
                let leg = if self.leg_count == 1 {
                    Phase::Video
                } else {
                    Phase::Audio
                };
                self.current_phase = take_up(self.current_phase, leg);
            }
            if let Some(named) = scan.stream_hint {
                self.current_phase = take_up(self.current_phase, named);
            }
        }
        assert(self@ == session_after(old(self)@, scan@));
        if scan.merging {
            events.push(
                SessionEvent::Progress {
                    id: self.id.clone(),
                    percentage: MERGING_PERCENT,
                    speed: String::new(),
                    eta: String::new(),
                    size: String::new(),
                    status: Status::Downloading,
                    phase: Phase::Merging,
                },
            );
        }
        if scan.post_processing {
            events.push(
                SessionEvent::Progress {
                    id: self.id.clone(),
                    percentage: PROCESSING_PERCENT,
                    speed: String::new(),
                    eta: String::new(),
                    size: String::new(),
                    status: Status::Downloading,
                    phase: Phase::Processing,
                },
            );
        }
        assert(events.deep_view() =~= marker_events(old(self)@.id, scan@));
        let ghost markers = events.deep_view();
        match &scan.progress {
            Some(reading) => {
                events.push(
                    SessionEvent::Progress {
                        id: self.id.clone(),
                        percentage: remap(reading.percent, self.leg_count),
                        speed: reading.speed.clone(),
                        eta: reading.eta.clone(),
                        size: reading.size.clone(),
                        status: Status::Downloading,
                        phase: self.current_phase,
                    },
                );
            },
            None => {
                match &scan.destination {
                    Some(path) => {
                        let shown = to_chars(trim(path.as_str()).as_str());
                        events.push(
                            SessionEvent::TitleChanged {
                                id: self.id.clone(),
                                title: file_name_of(&shown),
                            },
                        );
                    },
                    None => {
                        if scan.already_downloaded {
                            if let Some(path) = announced_path_of(text) {
                                events.push(
                                    SessionEvent::TitleChanged {
                                        id: self.id.clone(),
                                        title: file_name_of(&path),
                                    },
                                );
                            }
                        }
                    },
                }
            },
        }
        assert(events.deep_view() =~= markers + reading_events(self@, text@, scan@));
        let ghost told = events.deep_view();
        let failure = speaks_of_failure(text);
        if failure || scan.progress.is_none() {
            events.push(
                SessionEvent::Log {
                    id: self.id.clone(),
                    message: String::from_str(text),
                    is_error: false,
                },
            );
        }
        assert(events.deep_view() =~= told + log_events(
            self@.id,
            text@,
            false,
            is_logged(text@, scan@.progress.is_some()),
        ));
        events
    }

    /// Takes in a line of standard error together with whether it is a
    /// progress line. The session stays as it is.
    pub fn absorb_error_output(&self, text: &str, is_progress: bool) -> (events: Vec<SessionEvent>)
        ensures
            events.deep_view() == error_output_events(self@, text@, is_progress),
    {
        let mut events: Vec<SessionEvent> = Vec::new();
        let failure = speaks_of_failure(text);
        if failure || !is_progress {
            events.push(
                SessionEvent::Log {
                    id: self.id.clone(),
                    message: String::from_str(text),
                    is_error: true,
                },
            );
        }
        assert(events.deep_view() =~= error_output_events(self@, text@, is_progress));
        events
    }

    /// The event that closes a session whose process has ended.
    pub fn conclude(&self, code: Option<i32>) -> (event: SessionEvent)
        ensures
            event@ == (SessionEventView::StatusChanged {
                id: self@.id,
                status: final_status(code),
            }),
    {
        let status = match code {
            Some(c) => if c == 0 {
                Status::Completed
            } else {
                Status::Error
            },
            None => Status::Error,
        };
        SessionEvent::StatusChanged { id: self.id.clone(), status }
    }

    /// Takes in a line of standard output as the process wrote it. White
    /// space at the end of the line is dropped and a line that is empty then
    /// is passed over; any other line is held against the patterns and taken
    /// in as [`Session::absorb_output`] says.
    pub fn on_output_line(&mut self, line: &str) -> (events: Vec<SessionEvent>)
        ensures
            final(self)@ == line_session_after(old(self)@, line@),
            events.deep_view() == line_events(old(self)@, line@),
    {
        let text = trim_end(line);
        if text.as_str().is_empty() {
            let events: Vec<SessionEvent> = Vec::new();
            assert(events.deep_view() =~= Seq::<SessionEventView>::empty());
            return events;
        }
        let scan = scan_line(text.as_str());
        self.absorb_output(text.as_str(), &scan)
    }

    /// Takes in a line of standard error as the process wrote it. White space
    /// at the end of the line is dropped and a line that is empty then is
    /// passed over; any other line is taken in as
    /// [`Session::absorb_error_output`] says, a progress line being one that
    /// a progress pattern matches.
    pub fn on_error_line(&self, line: &str) -> (events: Vec<SessionEvent>)
        ensures
            events.deep_view() == error_line_events(self@, line@),
    {
        let text = trim_end(line);
        if text.as_str().is_empty() {
            let events: Vec<SessionEvent> = Vec::new();
            assert(events.deep_view() =~= Seq::<SessionEventView>::empty());
            return events;
        }
        let is_progress = scan_progress(text.as_str()).is_some();
        self.absorb_error_output(text.as_str(), is_progress)
    }

    /// Takes in one event of the process and says what to publish and
    /// whether the session is over. Lines are decoded as UTF-8, bytes that
    /// are none being replaced. The end of the process closes the session
    /// with one status event; an event of any other kind is passed over.
    pub fn handle(&mut self, event: ProcessEvent) -> (reaction: Reaction)
        ensures
            final(self)@ == session_after_event(old(self)@, event),
            reaction.events.deep_view() == events_for(old(self)@, event),
            reaction.finished == (event is Terminated),
    {
        match event {
            ProcessEvent::Stdout(bytes) => {
                let line = decode(&bytes);
                let events = self.on_output_line(line.as_str());
                Reaction { events, finished: false }
            },
            ProcessEvent::Stderr(bytes) => {
                let line = decode(&bytes);
                let events = self.on_error_line(line.as_str());
                Reaction { events, finished: false }
            },
            ProcessEvent::Terminated(code) => {
                let mut events: Vec<SessionEvent> = Vec::new();
                events.push(self.conclude(code));
                assert(events.deep_view() =~= events_for(old(self)@, event));
                Reaction { events, finished: true }
            },
            ProcessEvent::Other => {
                let events: Vec<SessionEvent> = Vec::new();
                assert(events.deep_view() =~= Seq::<SessionEventView>::empty());
                Reaction { events, finished: false }
            },
        }
    }
}

/// The text of a line as the process wrote it: the line without the white
/// space at its end.
pub open spec fn line_text(line: Seq<char>) -> Seq<char> {
    without_trailing_space(line)
}

/// The session after the line `line` of standard output.
pub open spec fn line_session_after(s: SessionView, line: Seq<char>) -> SessionView {
    let text = line_text(line);
    if text.len() == 0 {
        s
    } else {
        session_after(s, scan_of(text))
    }
}

/// The events for the line `line` of standard output.
pub open spec fn line_events(s: SessionView, line: Seq<char>) -> Seq<SessionEventView> {
    let text = line_text(line);
    if text.len() == 0 {
        Seq::empty()
    } else {
        output_events(s, text, scan_of(text))
    }
}

/// The events for the line `line` of standard error.
pub open spec fn error_line_events(s: SessionView, line: Seq<char>) -> Seq<SessionEventView> {
    let text = line_text(line);
    if text.len() == 0 {
        Seq::empty()
    } else {
        error_output_events(s, text, progress_of(text).is_some())
    }
}

/// The session after an event of its process.
pub open spec fn session_after_event(s: SessionView, event: ProcessEvent) -> SessionView {
    match event {
        ProcessEvent::Stdout(bytes) => line_session_after(s, lossy_text(bytes@)),
        _ => s,
    }
}

/// The events to publish for an event of the process.
pub open spec fn events_for(s: SessionView, event: ProcessEvent) -> Seq<SessionEventView> {
    match event {
        ProcessEvent::Stdout(bytes) => line_events(s, lossy_text(bytes@)),
        ProcessEvent::Stderr(bytes) => error_line_events(s, lossy_text(bytes@)),
        ProcessEvent::Terminated(code) => seq![
            SessionEventView::StatusChanged { id: s.id, status: final_status(code) },
        ],
        ProcessEvent::Other => Seq::empty(),
    }
}

/// A line that carries the merge marker is answered first of all by a
/// progress event of 99.0 % in phase `Merging`, whatever the session was in,
/// a post-processing session too; and it leaves the session in `Merging`
/// unless it carries a post-processing marker too.
pub proof fn lemma_merge_marker_reported(s: SessionView, text: Seq<char>, scan: LineScanView)
    requires
        scan.merging,
    ensures
        output_events(s, text, scan).len() > 0,
        output_events(s, text, scan)[0] == marker_event(s.id, MERGING_PERCENT, Phase::Merging),
        !scan.post_processing ==> session_after(s, scan).current_phase == Phase::Merging,
{
}

/// [`lemma_merge_marker_reported`] for a line as the process wrote it.
pub proof fn lemma_merge_line_reported(s: SessionView, line: Seq<char>)
    requires
        line_text(line).len() > 0,
        first_match(MERGE_MARKER@, line_text(line)).is_some(),
    ensures
        line_events(s, line).len() > 0,
        line_events(s, line)[0] == marker_event(s.id, MERGING_PERCENT, Phase::Merging),
{
    lemma_merge_marker_reported(s, line_text(line), scan_of(line_text(line)));
}

/// A line that only announces a destination: it names no stream and carries
/// no marker.
pub open spec fn is_plain_destination(scan: LineScanView) -> bool {
    &&& scan.destination.is_some()
    &&& scan.stream_hint.is_none()
    &&& !scan.merging
    &&& !scan.post_processing
}

/// The session after the lines `scans`, taken in one after the other.
pub open spec fn session_after_all(s: SessionView, scans: Seq<LineScanView>) -> SessionView
    decreases scans.len(),
{
    if scans.len() == 0 {
        s
    } else {
        session_after(session_after_all(s, scans.drop_last()), scans.last())
    }
}

/// A plain destination line counts one leg more. It puts a session that has
/// seen no leg and is not beyond `Video` into `Video`, and a session that
/// has seen a leg and is not beyond `Audio` into `Audio`.
pub proof fn lemma_destination_starts_leg(s: SessionView, scan: LineScanView)
    requires
        is_plain_destination(scan),
    ensures
        s.leg_count < u64::MAX ==> session_after(s, scan).leg_count == s.leg_count + 1,
        session_after(s, scan).current_phase == later_leg(
            s.current_phase,
            leg_phase(session_after(s, scan).leg_count),
        ),
        s.leg_count == 0 && phase_rank(s.current_phase) <= phase_rank(Phase::Video)
            ==> session_after(s, scan).current_phase == Phase::Video,
        s.leg_count >= 1 && phase_rank(s.current_phase) <= phase_rank(Phase::Audio)
            ==> session_after(s, scan).current_phase == Phase::Audio,
{
}

/// In a session that has seen no leg and is not beyond `Video`, the first
/// plain destination line gives `Video`, the second `Audio`, and every
/// further one `Audio` again: a destination line never moves the phase
/// beyond `Audio`.
pub proof fn lemma_destinations_flip_video_to_audio(s: SessionView, scans: Seq<LineScanView>)
    requires
        s.leg_count == 0,
        phase_rank(s.current_phase) <= phase_rank(Phase::Video),
        scans.len() >= 1,
        forall|i: int| 0 <= i < scans.len() ==> is_plain_destination(#[trigger] scans[i]),
    ensures
        session_after_all(s, scans).leg_count == if scans.len() <= u64::MAX {
            scans.len()
        } else {
            u64::MAX as nat
        },
        session_after_all(s, scans).current_phase == if scans.len() == 1 {
            Phase::Video
        } else {
            Phase::Audio
        },
    decreases scans.len(),
{
    let before = scans.drop_last();
    assert(is_plain_destination(scans[scans.len() - 1]));
    if before.len() == 0 {
        assert(session_after_all(s, before) == s);
    } else {
        assert forall|i: int| 0 <= i < before.len() implies is_plain_destination(
            #[trigger] before[i],
        ) by {
            assert(before[i] == scans[i]);
        }
        lemma_destinations_flip_video_to_audio(s, before);
    }
}

/// Whether a line moves a session from `Processing` back to `Merging`: it
/// carries the merge marker and no post-processing marker, and the session
/// is post-processing. This is the one step back that a session takes.
pub open spec fn restarts_merge(s: SessionView, scan: LineScanView) -> bool {
    scan.merging && !scan.post_processing && s.current_phase == Phase::Processing
}

/// The phase never falls back, but where a line [`restarts_merge`]. A marker
/// always leaves the session merging or post-processing, and a line without
/// a marker leaves such a session as it is and takes no other session beyond
/// `Audio`. The number of legs never falls.
pub proof fn lemma_phase_order(s: SessionView, scan: LineScanView)
    ensures
        !restarts_merge(s, scan) ==> phase_rank(s.current_phase) <= phase_rank(
            session_after(s, scan).current_phase,
        ),
        restarts_merge(s, scan) ==> session_after(s, scan).current_phase == Phase::Merging,
        scan.post_processing ==> session_after(s, scan).current_phase == Phase::Processing,
        scan.merging && !scan.post_processing ==> session_after(s, scan).current_phase
            == Phase::Merging,
        !scan.merging && !scan.post_processing && phase_rank(s.current_phase) >= phase_rank(
            Phase::Merging,
        ) ==> session_after(s, scan).current_phase == s.current_phase,
        !scan.merging && !scan.post_processing && phase_rank(s.current_phase) < phase_rank(
            Phase::Merging,
        ) ==> phase_rank(session_after(s, scan).current_phase) <= phase_rank(Phase::Audio),
        !scan.post_processing && !scan.merging && scan.stream_hint.is_none()
            && scan.destination.is_none() ==> session_after(s, scan) == s,
        s.leg_count <= session_after(s, scan).leg_count,
{
}

/// Once a session is merging or post-processing it stays so, whatever lines
/// follow: no later line takes it back to a leg.
pub proof fn lemma_markers_are_kept(s: SessionView, scans: Seq<LineScanView>)
    requires
        phase_rank(s.current_phase) >= phase_rank(Phase::Merging),
    ensures
        phase_rank(session_after_all(s, scans).current_phase) >= phase_rank(Phase::Merging),
    decreases scans.len(),
{
    if scans.len() > 0 {
        lemma_markers_are_kept(s, scans.drop_last());
        lemma_phase_order(session_after_all(s, scans.drop_last()), scans.last());
    }
}

/// Over any lines of which none [`restarts_merge`], the phase at the end is
/// not behind the phase at the start.
pub proof fn lemma_phase_never_regresses(s: SessionView, scans: Seq<LineScanView>)
    requires
        forall|i: int|
            0 <= i < scans.len() ==> !restarts_merge(
                session_after_all(s, scans.take(i)),
                #[trigger] scans[i],
            ),
    ensures
        phase_rank(s.current_phase) <= phase_rank(session_after_all(s, scans).current_phase),
    decreases scans.len(),
{
    if scans.len() > 0 {
        let before = scans.drop_last();
        assert forall|i: int| 0 <= i < before.len() implies !restarts_merge(
            session_after_all(s, before.take(i)),
            #[trigger] before[i],
        ) by {
            assert(before.take(i) == scans.take(i));
            assert(before[i] == scans[i]);
        }
        lemma_phase_never_regresses(s, before);
        assert(scans.take(scans.len() - 1) == before);
        assert(!restarts_merge(session_after_all(s, before), scans[scans.len() - 1]));
        lemma_phase_order(session_after_all(s, before), scans.last());
    }
}

/// A line that speaks of a failure, and a line that is no progress line, is
/// always shown, as the last event of the line; a progress line that speaks
/// of no failure never is.
pub proof fn lemma_failures_are_shown(s: SessionView, text: Seq<char>, scan: LineScanView)
    ensures
        has_failure_token(text) || scan.progress.is_none() ==> output_events(s, text, scan).len()
            > 0 && output_events(s, text, scan).last() == (SessionEventView::Log {
            id: s.id,
            message: text,
            is_error: false,
        }),
        has_failure_token(text) || scan.progress.is_none() ==> error_output_events(
            s,
            text,
            scan.progress.is_some(),
        ) == seq![SessionEventView::Log { id: s.id, message: text, is_error: true }],
        !has_failure_token(text) && scan.progress.is_some() ==> forall|i: int|
            0 <= i < output_events(s, text, scan).len() ==> !(#[trigger] output_events(
                s,
                text,
                scan,
            )[i] is Log),
        !has_failure_token(text) && scan.progress.is_some() ==> error_output_events(
            s,
            text,
            true,
        ).len() == 0,
{
}

/// Every progress event of a line carries a percentage within 0 % to 100 %.
pub proof fn lemma_percentage_in_range(s: SessionView, text: Seq<char>, scan: LineScanView)
    ensures
        forall|i: int|
            0 <= i < output_events(s, text, scan).len() ==> (#[trigger] output_events(
                s,
                text,
                scan,
            )[i] matches SessionEventView::Progress { percentage, .. } ==> percentage <= FULL),
{
    if let Some(reading) = scan.progress {
        lemma_remap_range(reading.percent, session_after(s, scan).leg_count);
    }
}

/// The end of the process is answered by exactly one status event:
/// `Completed` for exit code 0, `Error` otherwise.
pub proof fn lemma_termination_reported_once(s: SessionView, code: Option<i32>)
    ensures
        events_for(s, ProcessEvent::Terminated(code)).len() == 1,
        events_for(s, ProcessEvent::Terminated(Some(0i32)))[0] == (SessionEventView::StatusChanged {
            id: s.id,
            status: Status::Completed,
        }),
        code != Some(0i32) ==> events_for(s, ProcessEvent::Terminated(code))[0] == (
        SessionEventView::StatusChanged { id: s.id, status: Status::Error }),
{
}

/// No event but the end of the process is answered by a status event, and
/// every event that is published carries the session's id.
pub proof fn lemma_only_termination_changes_status(s: SessionView, event: ProcessEvent)
    ensures
        !(event is Terminated) ==> forall|i: int|
            0 <= i < events_for(s, event).len() ==> !(#[trigger] events_for(s, event)[i]
                is StatusChanged),
        forall|i: int|
            0 <= i < events_for(s, event).len() ==> event_id(#[trigger] events_for(s, event)[i])
                == s.id,
{
}

/// The id of the session that an event belongs to.
pub open spec fn event_id(event: SessionEventView) -> Seq<char> {
    match event {
        SessionEventView::Progress { id, .. } => id,
        SessionEventView::TitleChanged { id, .. } => id,
        SessionEventView::Log { id, .. } => id,
        SessionEventView::StatusChanged { id, .. } => id,
    }
}

} // verus!
