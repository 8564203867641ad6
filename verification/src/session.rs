//! The decisions of the acquisition loop.
//!
//! The loop itself waits for frames, runs the image pipeline, draws and polls
//! the keyboard. What it does with each outcome is decided here: whether to
//! go on, what a fault means, what a frame adds to the hits, what a key does.

use vstd::prelude::*;
use crate::centroid::centroid;
use crate::command::{command_of, decode_key, Command};
use crate::geometry::{Circle, Point};
use crate::overlay::{overlay, overlay_circles};
use crate::tracker::{Detection, HitTracker, TrackerState};

verus! {

/// How long the loop waits for one frame, in milliseconds.
pub const FRAME_TIMEOUT_MS: u32 = 5000;

/// The exit code of a session that ended without a fatal fault.
pub const EXIT_SUCCESS: i32 = 0;

/// The exit code of a session that a fatal fault ended.
pub const EXIT_FAILURE: i32 = 1;

/// What can go wrong during a session.
#[derive(Clone, Copy, Debug, PartialEq, Eq, Structural)]
pub enum Fault {
    /// A configuration node of the camera is missing or refuses its value.
    Configuration,
    /// The camera delivered a frame and marked its capture as failed.
    Capture,
    /// No frame arrived within the timeout, or the transport failed.
    Transport,
    /// The frame's buffer does not fit its declared width and height.
    Decode,
    /// An image-processing, drawing or display call failed.
    Processing,
}

/// What a fault means for the session.
#[derive(Clone, Copy, Debug, PartialEq, Eq, Structural)]
pub enum Severity {
    /// The fault is reported and the session goes on.
    Recovered,
    /// The fault ends the session.
    Fatal,
}

impl Fault {
    /// Configuration and capture faults are recovered from; transport, decode
    /// and processing faults are fatal.
    pub open spec fn severity_of(self) -> Severity {
        match self {
            Fault::Configuration | Fault::Capture => Severity::Recovered,
            Fault::Transport | Fault::Decode | Fault::Processing => Severity::Fatal,
        }
    }

    /// Classifies the fault.
    pub fn severity(self) -> (severity: Severity)
        ensures
            severity == self.severity_of(),
    {
        match self {
            Fault::Configuration => Severity::Recovered,
            Fault::Capture => Severity::Recovered,
            Fault::Transport => Severity::Fatal,
            Fault::Decode => Severity::Fatal,
            Fault::Processing => Severity::Fatal,
        }
    }
}

/// Whether a session is still under way.
#[derive(Clone, Copy, Debug, PartialEq, Eq, Structural)]
pub enum Status {
    /// No fatal fault so far.
    Running,
    /// The first fatal fault, which ended the session.
    Failed(Fault),
}

/// What a session holds, as mathematical values.
pub struct SessionState {
    pub tracker: TrackerState,
    pub status: Status,
}

impl SessionState {
    /// The state of a session that has just begun.
    pub open spec fn initial() -> SessionState {
        SessionState { tracker: TrackerState::initial(), status: Status::Running }
    }

    /// Whether the loop asks for another frame: the camera is still grabbing
    /// and no fatal fault has ended the session.
    pub open spec fn wants_frame(self, grabbing: bool) -> bool {
        grabbing && self.status == Status::Running
    }

    /// The state after a fault. A recovered fault changes nothing. The first
    /// fatal fault ends the session; the trigger and the hits stay as they are.
    pub open spec fn after_fault(self, fault: Fault) -> SessionState {
        if fault.severity_of() == Severity::Fatal && self.status == Status::Running {
            SessionState { tracker: self.tracker, status: Status::Failed(fault) }
        } else {
            self
        }
    }

    /// The state after a processed frame with the given bright pixels.
    pub open spec fn after_frame(self, points: Seq<Point>) -> SessionState {
        SessionState { tracker: self.tracker.after(centroid(points)), status: self.status }
    }

    /// The state after a polled key: the reset command clears the hits, every
    /// other key leaves the state as it is.
    pub open spec fn after_key(self, key: i32) -> SessionState {
        if command_of(key) == Command::Reset {
            SessionState { tracker: self.tracker.cleared(), status: self.status }
        } else {
            self
        }
    }

    /// The exit code of the process once the loop has ended.
    pub open spec fn exit_code(self) -> i32 {
        if self.status == Status::Running {
            EXIT_SUCCESS
        } else {
            EXIT_FAILURE
        }
    }
}

/// A capture fault changes nothing: the trigger, the hits and the status stay
/// as they are, and the loop goes on exactly if it would have gone on without
/// the fault. The same holds of every recovered fault.
pub proof fn lemma_capture_fault_changes_nothing(state: SessionState, grabbing: bool)
    ensures
        state.after_fault(Fault::Capture) == state,
        state.after_fault(Fault::Capture).wants_frame(grabbing) == state.wants_frame(grabbing),
        forall|fault: Fault|
            fault.severity_of() == Severity::Recovered ==> #[trigger] state.after_fault(fault)
                == state,
{
}

/// A frame that does not arrive in time ends the loop: afterwards no frame is
/// wanted, whatever the camera says, and the exit code is a failure. The same
/// holds of every fatal fault.
pub proof fn lemma_timeout_ends_loop(state: SessionState, grabbing: bool)
    ensures
        !state.after_fault(Fault::Transport).wants_frame(grabbing),
        state.after_fault(Fault::Transport).exit_code() == EXIT_FAILURE,
        state.status == Status::Running ==> state.after_fault(Fault::Transport).status
            == Status::Failed(Fault::Transport),
        forall|fault: Fault|
            fault.severity_of() == Severity::Fatal ==> !(#[trigger] state.after_fault(
                fault,
            )).wants_frame(grabbing) && state.after_fault(fault).exit_code() == EXIT_FAILURE,
{
}

/// A session that has failed stays failed, with the fault that ended it:
/// no later frame, key or fault brings the loop back.
pub proof fn lemma_failure_is_final(state: SessionState, points: Seq<Point>, key: i32, fault: Fault)
    requires
        state.status != Status::Running,
    ensures
        state.after_frame(points).status == state.status,
        state.after_key(key).status == state.status,
        state.after_fault(fault).status == state.status,
{
}

/// The quit command leaves the session as it is; the caller stops the
/// camera. Once the camera says that it no longer grabs, no frame is wanted,
/// whatever the state of the session: the loop ends at its next turn.
pub proof fn lemma_quit_ends_loop(state: SessionState, key: i32)
    requires
        command_of(key) == Command::Quit,
    ensures
        state.after_key(key) == state,
        !state.after_key(key).wants_frame(false),
{
}

/// What to show for one processed frame.
#[derive(Debug)]
pub struct Rendering {
    /// The centroid of the frame and whether it was recorded as a hit.
    pub detection: Detection,
    /// The circles to draw on the frame, in drawing order.
    pub circles: Vec<Circle>,
}

/// One acquisition session: its hit tracker and whether it is still under way.
#[derive(Debug)]
pub struct Session {
    tracker: HitTracker,
    status: Status,
}

impl View for Session {
    type V = SessionState;

    closed spec fn view(&self) -> SessionState {
        SessionState { tracker: self.tracker@, status: self.status }
    }
}

impl Session {
    /// A running session with a clear trigger and no hits.
    pub fn new() -> (session: Session)
        ensures
            session@ == SessionState::initial(),
    {
        Session { tracker: HitTracker::new(), status: Status::Running }
    }

    /// The hit tracker of the session.
    pub fn tracker(&self) -> (tracker: &HitTracker)
        ensures
            tracker@ == self@.tracker,
    {
        &self.tracker
    }

    /// Whether the session is still under way.
    pub fn status(&self) -> (status: Status)
        ensures
            status == self@.status,
    {
        self.status
    }

    /// Decides at the head of the loop whether to wait for another frame,
    /// given whether the camera says that it is still grabbing.
    ///
    /// Once the camera has stopped grabbing the answer is no, so the loop
    /// ends with the iteration in which the quit command stopped the camera.
    pub fn wants_frame(&self, grabbing: bool) -> (wanted: bool)
        ensures
            wanted == self@.wants_frame(grabbing),
            !grabbing ==> !wanted,
    {
        grabbing && self.status == Status::Running
    }

    /// Takes in a fault and says what it means for the session.
    ///
    /// A capture or configuration fault leaves the session, its trigger and
    /// its hits untouched. A transport, decode or processing fault ends the
    /// session: from then on no frame is wanted and the exit code is a failure.
    pub fn report(&mut self, fault: Fault) -> (severity: Severity)
        ensures
            severity == fault.severity_of(),
            final(self)@ == old(self)@.after_fault(fault),
            final(self)@.tracker == old(self)@.tracker,
            severity == Severity::Recovered ==> final(self)@ == old(self)@,
            severity == Severity::Fatal ==> final(self)@.status != Status::Running,
    {
        let severity: Severity = fault.severity();
        if severity == Severity::Fatal && self.status == Status::Running {
            self.status = Status::Failed(fault);
        }
        severity
    }

    /// Takes in the bright pixels of a processed frame: averages them,
    /// updates the trigger and the hits, and lists what to draw.
    pub fn process(&mut self, points: Vec<Point>) -> (rendering: Rendering)
        ensures
            final(self)@ == old(self)@.after_frame(points@),
            rendering.detection.centroid == centroid(points@),
            rendering.detection.recorded == (points@.len() > 0 && !old(self)@.tracker.trigger),
            rendering.circles@ == overlay(centroid(points@), final(self)@.tracker.hits),
            points@.len() == 0 ==> rendering.detection.centroid is None
                && !final(self)@.tracker.trigger
                && final(self)@.tracker.hits == old(self)@.tracker.hits,
    {
        let detection: Detection = self.tracker.track(points);
        let circles: Vec<Circle> = overlay_circles(detection.centroid, self.tracker.hits());
        Rendering { detection, circles }
    }

    /// Takes in the key code of one keyboard poll and returns its command.
    ///
    /// The reset command clears the hits here and leaves the trigger alone.
    /// The quit command changes nothing here: the caller stops the camera,
    /// and the loop ends when the camera says that it no longer grabs.
    pub fn key_pressed(&mut self, key: i32) -> (command: Command)
        ensures
            command == command_of(key),
            final(self)@ == old(self)@.after_key(key),
            final(self)@.tracker.trigger == old(self)@.tracker.trigger,
            final(self)@.status == old(self)@.status,
            command == Command::Reset ==> final(self)@.tracker.hits == Seq::<Point>::empty(),
            command != Command::Reset ==> final(self)@ == old(self)@,
    {
        let command: Command = decode_key(key);
        if command == Command::Reset {
            self.tracker.reset();
        }
        command
    }

    /// The exit code of the process once the loop has ended: success unless a
    /// fatal fault ended the session.
    pub fn exit_code(&self) -> (code: i32)
        ensures
            code == self@.exit_code(),
            code == EXIT_SUCCESS <==> self@.status == Status::Running,
    {
        if self.status == Status::Running {
            EXIT_SUCCESS
        } else {
            EXIT_FAILURE
        }
    }
}

} // verus!
