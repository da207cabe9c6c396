//! The capture loop, as a state machine.
//!
//! The capture thread owns the device session, the transform stage and the
//! rotation angle. Its control flow is a machine over four states:
//! `Initializing -> Running -> Draining -> Terminated`. The unverified shell
//! performs the outside work (opening and configuring the device, reading and
//! transforming one frame, pacing) and reports each outcome as an event; the
//! machine decides every transition, records the fatal error if one ended the
//! run, and advances the rotation angle exactly once per produced frame.

use vstd::prelude::*;
use crate::angle::{RotationAngle, advanced, STEP_TENTHS};

verus! {

/// The phase the capture thread is in.
#[derive(Clone, Copy, Debug, PartialEq, Eq, Structural)]
pub enum CaptureState {
    /// Opening and configuring the device session.
    Initializing,
    /// Reading, transforming and handing off frames.
    Running,
    /// Shutdown observed: no further captures.
    Draining,
    /// The thread function returns, reporting success or the fatal error.
    Terminated,
}

/// The error kinds that end the capture thread. Each is fatal to that thread
/// only; the display loop keeps running on its last good frame. A closed
/// channel is a benign condition, not one of these.
#[derive(Clone, Copy, Debug, PartialEq, Eq, Structural)]
pub enum CaptureError {
    /// The device session could not be opened.
    DeviceOpen,
    /// The device session refused the target resolution.
    DeviceConfig,
    /// A device read failed.
    CaptureRead,
    /// The per-frame transform failed.
    Transform,
}

/// One outcome of outside work, reported by the shell once per protocol step.
#[derive(Clone, Copy, Debug, PartialEq, Eq, Structural)]
pub enum CaptureEvent {
    /// The device session opened.
    SessionOpened,
    /// Opening the device session failed.
    SessionOpenFailed,
    /// The target resolution was accepted.
    SessionConfigured,
    /// Configuring the resolution failed.
    SessionConfigFailed,
    /// The shutdown signal was checked and had fired.
    ShutdownFired,
    /// The shutdown signal was checked and had not fired.
    ShutdownClear,
    /// One frame was read and transformed.
    FrameProduced,
    /// The drain step after shutdown was observed: nothing left to do.
    Drained,
    /// A device read failed.
    FrameReadFailed,
    /// The per-frame transform failed.
    FrameTransformFailed,
}

/// The transition relation of the capture loop. Unexpected events leave the
/// state alone; `Draining` proceeds directly to `Terminated`, which absorbs
/// everything.
pub open spec fn next_state(s: CaptureState, e: CaptureEvent) -> CaptureState {
    match s {
        CaptureState::Initializing => match e {
            CaptureEvent::SessionOpened => CaptureState::Initializing,
            CaptureEvent::SessionOpenFailed => CaptureState::Terminated,
            CaptureEvent::SessionConfigured => CaptureState::Running,
            CaptureEvent::SessionConfigFailed => CaptureState::Terminated,
            _ => CaptureState::Initializing,
        },
        CaptureState::Running => match e {
            CaptureEvent::ShutdownFired => CaptureState::Draining,
            CaptureEvent::ShutdownClear => CaptureState::Running,
            CaptureEvent::FrameProduced => CaptureState::Running,
            CaptureEvent::FrameReadFailed => CaptureState::Terminated,
            CaptureEvent::FrameTransformFailed => CaptureState::Terminated,
            _ => CaptureState::Running,
        },
        CaptureState::Draining => CaptureState::Terminated,
        CaptureState::Terminated => CaptureState::Terminated,
    }
}

/// The error, if any, that the event `e` records when it arrives in state `s`.
pub open spec fn event_error(s: CaptureState, e: CaptureEvent) -> Option<CaptureError> {
    match (s, e) {
        (CaptureState::Initializing, CaptureEvent::SessionOpenFailed) => Some(
            CaptureError::DeviceOpen,
        ),
        (CaptureState::Initializing, CaptureEvent::SessionConfigFailed) => Some(
            CaptureError::DeviceConfig,
        ),
        (CaptureState::Running, CaptureEvent::FrameReadFailed) => Some(CaptureError::CaptureRead),
        (CaptureState::Running, CaptureEvent::FrameTransformFailed) => Some(
            CaptureError::Transform,
        ),
        _ => None,
    }
}

/// Whether the event `e` in state `s` is one produced frame: exactly then is
/// the rotation angle advanced.
pub open spec fn produces_frame(s: CaptureState, e: CaptureEvent) -> bool {
    s is Running && e is FrameProduced
}

/// Whether the loop may capture and send frames in state `s`.
pub open spec fn may_capture(s: CaptureState) -> bool {
    s is Running
}

/// The state after a whole sequence of events.
pub open spec fn run_events(s: CaptureState, es: Seq<CaptureEvent>) -> CaptureState
    decreases es.len(),
{
    if es.len() == 0 {
        s
    } else {
        run_events(next_state(s, es[0]), es.drop_first())
    }
}

/// The capture thread's state: its phase, the fatal error if one ended the
/// run, and the rotation angle it owns.
pub struct CaptureMachine {
    state: CaptureState,
    error: Option<CaptureError>,
    angle: RotationAngle,
}

impl CaptureMachine {
    /// The phase the machine is in.
    pub closed spec fn spec_state(&self) -> CaptureState {
        self.state
    }

    /// The fatal error recorded so far, if any.
    pub closed spec fn spec_error(&self) -> Option<CaptureError> {
        self.error
    }

    /// The rotation angle, in tenths of a degree.
    pub closed spec fn spec_angle(&self) -> int {
        self.angle@
    }

    /// The angle stays a degree value in `[0, 360)`, and an error is recorded
    /// only once the machine has terminated.
    pub closed spec fn wf(&self) -> bool {
        &&& self.angle.wf()
        &&& (self.error is Some ==> self.state is Terminated)
    }

    /// A fresh machine: initializing, no error, angle zero.
    pub fn new() -> (m: Self)
        ensures
            m.wf(),
            m.spec_state() is Initializing,
            m.spec_error() is None,
            m.spec_angle() == 0,
    {
        CaptureMachine { state: CaptureState::Initializing, error: None, angle: RotationAngle::new() }
    }

    /// The phase the machine is in.
    pub fn state(&self) -> (s: CaptureState)
        ensures
            s == self.spec_state(),
    {
        self.state
    }

    /// The fatal error that ended the run, if any: the thread's result.
    pub fn outcome(&self) -> (r: Option<CaptureError>)
        ensures
            r == self.spec_error(),
    {
        self.error
    }

    /// The angle to rotate the next frame by, in tenths of a degree.
    pub fn angle_tenths(&self) -> (t: u32)
        ensures
            t == self.spec_angle(),
    {
        self.angle.tenths()
    }

    /// Take one transition. The next phase follows the transition relation;
    /// a fatal event records its error kind, and a produced frame advances
    /// the rotation angle by the fixed step, exactly once, whether or not the
    /// frame is later delivered downstream.
    pub fn handle(&mut self, e: CaptureEvent)
        requires
            old(self).wf(),
        ensures
            final(self).wf(),
            final(self).spec_state() == next_state(old(self).spec_state(), e),
            final(self).spec_error() == if event_error(old(self).spec_state(), e) is Some {
                event_error(old(self).spec_state(), e)
            } else {
                old(self).spec_error()
            },
            final(self).spec_angle() == if produces_frame(old(self).spec_state(), e) {
                advanced(old(self).spec_angle(), STEP_TENTHS as int)
            } else {
                old(self).spec_angle()
            },
    {
        let s = self.state;
        if produces_frame_now(s, e) {
            self.angle.advance(STEP_TENTHS);
        }
        match event_error_now(s, e) {
            Some(err) => {
                self.error = Some(err);
            },
            None => {},
        }
        self.state = next_state_now(s, e);
    }
}

/// Executable form of the transition relation.
fn next_state_now(s: CaptureState, e: CaptureEvent) -> (r: CaptureState)
    ensures
        r == next_state(s, e),
{
    match s {
        CaptureState::Initializing => match e {
            CaptureEvent::SessionOpened => CaptureState::Initializing,
            CaptureEvent::SessionOpenFailed => CaptureState::Terminated,
            CaptureEvent::SessionConfigured => CaptureState::Running,
            CaptureEvent::SessionConfigFailed => CaptureState::Terminated,
            _ => CaptureState::Initializing,
        },
        CaptureState::Running => match e {
            CaptureEvent::ShutdownFired => CaptureState::Draining,
            CaptureEvent::ShutdownClear => CaptureState::Running,
            CaptureEvent::FrameProduced => CaptureState::Running,
            CaptureEvent::FrameReadFailed => CaptureState::Terminated,
            CaptureEvent::FrameTransformFailed => CaptureState::Terminated,
            _ => CaptureState::Running,
        },
        CaptureState::Draining => CaptureState::Terminated,
        CaptureState::Terminated => CaptureState::Terminated,
    }
}

/// Executable form of the error an event records.
fn event_error_now(s: CaptureState, e: CaptureEvent) -> (r: Option<CaptureError>)
    ensures
        r == event_error(s, e),
{
    match (s, e) {
        (CaptureState::Initializing, CaptureEvent::SessionOpenFailed) => Some(
            CaptureError::DeviceOpen,
        ),
        (CaptureState::Initializing, CaptureEvent::SessionConfigFailed) => Some(
            CaptureError::DeviceConfig,
        ),
        (CaptureState::Running, CaptureEvent::FrameReadFailed) => Some(CaptureError::CaptureRead),
        (CaptureState::Running, CaptureEvent::FrameTransformFailed) => Some(
            CaptureError::Transform,
        ),
        _ => None,
    }
}

/// Executable form of `produces_frame`.
fn produces_frame_now(s: CaptureState, e: CaptureEvent) -> (r: bool)
    ensures
        r == produces_frame(s, e),
{
    match (s, e) {
        (CaptureState::Running, CaptureEvent::FrameProduced) => true,
        _ => false,
    }
}

/// Once the shutdown signal has been observed, the capture loop quiesces:
/// from `Draining` the very next step reaches `Terminated`, no later state is
/// ever one in which the loop may capture or send, and no later event counts
/// as a produced frame. Shutdown latency is therefore bounded by the one
/// iteration in flight.
pub proof fn lemma_shutdown_quiesces(es: Seq<CaptureEvent>)
    ensures
        next_state(CaptureState::Running, CaptureEvent::ShutdownFired) is Draining,
        es.len() >= 1 ==> run_events(CaptureState::Draining, es) is Terminated,
        forall|i: int|
            0 <= i <= es.len() ==> !may_capture(
                #[trigger] run_events(CaptureState::Draining, es.take(i)),
            ),
        forall|i: int|
            0 <= i < es.len() ==> !produces_frame(
                run_events(CaptureState::Draining, #[trigger] es.take(i)),
                es[i],
            ),
    decreases es.len(),
{
    assert(es.take(0) =~= Seq::<CaptureEvent>::empty());
    if es.len() >= 1 {
        let tail = es.drop_first();
        lemma_quiesced_stays(CaptureState::Terminated, tail);
        assert forall|i: int| 1 <= i <= es.len() implies !may_capture(
            #[trigger] run_events(CaptureState::Draining, es.take(i)),
        ) by {
            assert(es.take(i).drop_first() =~= tail.take(i - 1));
            lemma_quiesced_stays(CaptureState::Terminated, tail.take(i - 1));
        }
        assert forall|i: int| 0 <= i < es.len() implies !produces_frame(
            run_events(CaptureState::Draining, #[trigger] es.take(i)),
            es[i],
        ) by {
            if i >= 1 {
                assert(es.take(i).drop_first() =~= tail.take(i - 1));
                lemma_quiesced_stays(CaptureState::Terminated, tail.take(i - 1));
            }
        }
        assert(run_events(CaptureState::Draining, es) == run_events(
            CaptureState::Terminated,
            tail,
        ));
    }
}

/// Helper: `Terminated` absorbs every event sequence.
proof fn lemma_quiesced_stays(s: CaptureState, es: Seq<CaptureEvent>)
    requires
        s is Terminated,
    ensures
        run_events(s, es) is Terminated,
    decreases es.len(),
{
    if es.len() > 0 {
        lemma_quiesced_stays(next_state(s, es[0]), es.drop_first());
    }
}

} // verus!
