//! The lifecycle of a capture session, as a state machine.
//!
//! The controller never touches a device or a recognizer itself: each call
//! of [`CaptureController::handle`] takes what happened (a request, or the
//! outcome of the action asked for last) and answers with the one action to
//! perform next. Starting creates, in this order, the recognizer, the stream,
//! starts the recognizer and only then plays the stream; stopping destroys
//! the stream before it stops and releases the recognizer. A failure while
//! starting tears down what was created, in the same order, and then reports
//! the failure. Starting while a session exists is refused with
//! `AlreadyRunning`; a failure reported while running stops the session.
use vstd::prelude::*;
use crate::config::AudioError;

verus! {

/// Where the controller stands.
#[derive(Clone, Copy, Debug, PartialEq, Eq, Structural)]
pub enum Phase {
    Idle,
    Negotiating,
    CreatingRecognizer,
    BuildingStream,
    StartingRecognizer,
    StartingPlayback,
    Running,
    DestroyingStream,
    ClosingRecognizer,
}

/// What the controller is told.
#[derive(Clone, Copy, Debug, PartialEq, Eq, Structural)]
pub enum Event {
    StartRequested,
    StopRequested,
    /// The action asked for last has completed.
    Completed,
    /// The action asked for last, or a write while running, has failed.
    Failed(AudioError),
    /// The stream has delivered a buffer of samples.
    AudioDelivered,
}

/// What the controller asks for.
#[derive(Clone, Copy, Debug, PartialEq, Eq, Structural)]
pub enum Action {
    /// Select a device and negotiate its configuration.
    Negotiate,
    /// Create a recognizer for the negotiated configuration.
    CreateRecognizer,
    /// Build the device stream, bound to the recognizer.
    BuildStream,
    /// Start the recognizer and wait until it is ready.
    StartRecognizer,
    /// Let the stream deliver audio.
    PlayStream,
    /// Destroy the stream, waiting for any callback in flight.
    DestroyStream,
    /// Stop the recognizer first where `stop` holds, then release it.
    CloseRecognizer { stop: bool },
    /// Hand the delivered buffer to the recognizer.
    WriteAudio,
    /// Discard the delivered buffer.
    DiscardAudio,
    /// The session runs; its events go to the caller.
    ReportStarted,
    /// No session exists any more, and none failed.
    ReportStopped,
    /// The session ended or never began, because of this error.
    ReportFailed(AudioError),
    /// The request is refused with this error; nothing changed.
    Reject(AudioError),
    /// Nothing to do.
    Nothing,
}

/// The state of the capture lifecycle.
#[derive(Clone, Copy, Debug, PartialEq, Eq, Structural)]
pub struct CaptureController {
    pub phase: Phase,
    /// A stream exists.
    pub stream_alive: bool,
    /// A recognizer exists.
    pub recognizer_alive: bool,
    /// The recognizer has been started.
    pub recognizer_started: bool,
    /// The stream has been told to play.
    pub playing: bool,
    /// The failure that the teardown under way reports at its end.
    pub error: Option<AudioError>,
}

/// The controller with no session.
pub open spec fn idle_state() -> CaptureController {
    CaptureController {
        phase: Phase::Idle,
        stream_alive: false,
        recognizer_alive: false,
        recognizer_started: false,
        playing: false,
        error: None,
    }
}

/// The next state and the action for event `e` in state `s`.
pub open spec fn next(s: CaptureController, e: Event) -> (CaptureController, Action) {
    match e {
        Event::AudioDelivered => {
            if s.forwards_audio() {
                (s, Action::WriteAudio)
            } else {
                (s, Action::DiscardAudio)
            }
        },
        Event::StartRequested => {
            if s.phase == Phase::Idle {
                (CaptureController { phase: Phase::Negotiating, ..s }, Action::Negotiate)
            } else {
                (s, Action::Reject(AudioError::AlreadyRunning))
            }
        },
        Event::StopRequested => {
            if s.phase == Phase::Idle {
                (s, Action::ReportStopped)
            } else if s.phase == Phase::Running {
                (
                    CaptureController {
                        phase: Phase::DestroyingStream,
                        stream_alive: false,
                        playing: false,
                        ..s
                    },
                    Action::DestroyStream,
                )
            } else {
                (s, Action::Nothing)
            }
        },
        Event::Completed => {
            match s.phase {
                Phase::Negotiating => (
                    CaptureController { phase: Phase::CreatingRecognizer, ..s },
                    Action::CreateRecognizer,
                ),
                Phase::CreatingRecognizer => (
                    CaptureController {
                        phase: Phase::BuildingStream,
                        recognizer_alive: true,
                        ..s
                    },
                    Action::BuildStream,
                ),
                Phase::BuildingStream => (
                    CaptureController { phase: Phase::StartingRecognizer, stream_alive: true, ..s },
                    Action::StartRecognizer,
                ),
                Phase::StartingRecognizer => (
                    CaptureController {
                        phase: Phase::StartingPlayback,
                        recognizer_started: true,
                        ..s
                    },
                    Action::PlayStream,
                ),
                Phase::StartingPlayback => (
                    CaptureController { phase: Phase::Running, playing: true, ..s },
                    Action::ReportStarted,
                ),
                Phase::DestroyingStream => (
                    CaptureController { phase: Phase::ClosingRecognizer, ..s },
                    Action::CloseRecognizer { stop: s.recognizer_started },
                ),
                Phase::ClosingRecognizer => (idle_state(), close_report(s.error)),
                _ => (s, Action::Nothing),
            }
        },
        Event::Failed(err) => {
            match s.phase {
                Phase::Negotiating | Phase::CreatingRecognizer => (
                    idle_state(),
                    Action::ReportFailed(err),
                ),
                Phase::BuildingStream => (
                    CaptureController {
                        phase: Phase::ClosingRecognizer,
                        error: Some(err),
                        ..s
                    },
                    Action::CloseRecognizer { stop: false },
                ),
                Phase::StartingRecognizer | Phase::StartingPlayback | Phase::Running => (
                    CaptureController {
                        phase: Phase::DestroyingStream,
                        stream_alive: false,
                        playing: false,
                        error: Some(err),
                        ..s
                    },
                    Action::DestroyStream,
                ),
                Phase::DestroyingStream => (
                    CaptureController { phase: Phase::ClosingRecognizer, ..s },
                    Action::CloseRecognizer { stop: s.recognizer_started },
                ),
                Phase::ClosingRecognizer => (
                    idle_state(),
                    Action::ReportFailed(
                        match s.error {
                            Some(first) => first,
                            None => err,
                        },
                    ),
                ),
                Phase::Idle => (s, Action::Nothing),
            }
        },
    }
}

/// What the end of a teardown reports: the failure that caused it, if any.
pub open spec fn close_report(error: Option<AudioError>) -> Action {
    match error {
        Some(e) => Action::ReportFailed(e),
        None => Action::ReportStopped,
    }
}

/// The states and actions that a run of events produces from `s`.
pub open spec fn run(s: CaptureController, events: Seq<Event>) -> (CaptureController, Seq<Action>)
    decreases events.len(),
{
    if events.len() == 0 {
        (s, Seq::empty())
    } else {
        let (s1, a) = next(s, events[0]);
        let (s2, rest) = run(s1, events.drop_first());
        (s2, seq![a] + rest)
    }
}

impl CaptureController {
    /// The resources held match the phase.
    pub open spec fn wf(self) -> bool {
        &&& self.playing ==> self.recognizer_started
        &&& self.recognizer_started ==> self.recognizer_alive
        &&& match self.phase {
            Phase::Idle | Phase::Negotiating | Phase::CreatingRecognizer => {
                &&& !self.stream_alive
                &&& !self.recognizer_alive
                &&& self.error is None
            },
            Phase::BuildingStream => {
                &&& !self.stream_alive
                &&& self.recognizer_alive
                &&& !self.recognizer_started
                &&& self.error is None
            },
            Phase::StartingRecognizer => {
                &&& self.stream_alive
                &&& self.recognizer_alive
                &&& !self.recognizer_started
                &&& self.error is None
            },
            Phase::StartingPlayback => {
                &&& self.stream_alive
                &&& self.recognizer_started
                &&& !self.playing
                &&& self.error is None
            },
            Phase::Running => {
                &&& self.stream_alive
                &&& self.playing
                &&& self.error is None
            },
            Phase::DestroyingStream | Phase::ClosingRecognizer => {
                &&& !self.stream_alive
                &&& !self.playing
                &&& self.recognizer_alive
            },
        }
    }

    /// Delivered audio goes to the recognizer: a stream exists and the
    /// recognizer has been started.
    pub open spec fn forwards_audio(self) -> bool {
        self.stream_alive && self.recognizer_started
    }

    /// A controller with no session.
    pub fn new() -> (r: CaptureController)
        ensures
            r == idle_state(),
            r.wf(),
    {
        CaptureController {
            phase: Phase::Idle,
            stream_alive: false,
            recognizer_alive: false,
            recognizer_started: false,
            playing: false,
            error: None,
        }
    }

    /// Whether a buffer delivered now goes to the recognizer.
    pub fn accepts_audio(&self) -> (r: bool)
        ensures
            r == self.forwards_audio(),
    {
        self.stream_alive && self.recognizer_started
    }

    /// Takes `event` and returns the action to perform next.
    pub fn handle(&mut self, event: Event) -> (a: Action)
        requires
            old(self).wf(),
        ensures
            (*final(self), a) == next(*old(self), event),
            final(self).wf(),
    {
        proof {
            lemma_next_wf(*self, event);
        }
        let s = *self;
        let (n, a) = match event {
            Event::AudioDelivered => {
                if s.accepts_audio() {
                    (s, Action::WriteAudio)
                } else {
                    (s, Action::DiscardAudio)
                }
            },
            Event::StartRequested => {
                if s.phase == Phase::Idle {
                    (CaptureController { phase: Phase::Negotiating, ..s }, Action::Negotiate)
                } else {
                    (s, Action::Reject(AudioError::AlreadyRunning))
                }
            },
            Event::StopRequested => {
                if s.phase == Phase::Idle {
                    (s, Action::ReportStopped)
                } else if s.phase == Phase::Running {
                    (
                        CaptureController {
                            phase: Phase::DestroyingStream,
                            stream_alive: false,
                            playing: false,
                            ..s
                        },
                        Action::DestroyStream,
                    )
                } else {
                    (s, Action::Nothing)
                }
            },
            Event::Completed => {
                match s.phase {
                    Phase::Negotiating => (
                        CaptureController { phase: Phase::CreatingRecognizer, ..s },
                        Action::CreateRecognizer,
                    ),
                    Phase::CreatingRecognizer => (
                        CaptureController {
                            phase: Phase::BuildingStream,
                            recognizer_alive: true,
                            ..s
                        },
                        Action::BuildStream,
                    ),
                    Phase::BuildingStream => (
                        CaptureController {
                            phase: Phase::StartingRecognizer,
                            stream_alive: true,
                            ..s
                        },
                        Action::StartRecognizer,
                    ),
                    Phase::StartingRecognizer => (
                        CaptureController {
                            phase: Phase::StartingPlayback,
                            recognizer_started: true,
                            ..s
                        },
                        Action::PlayStream,
                    ),
                    Phase::StartingPlayback => (
                        CaptureController { phase: Phase::Running, playing: true, ..s },
                        Action::ReportStarted,
                    ),
                    Phase::DestroyingStream => (
                        CaptureController { phase: Phase::ClosingRecognizer, ..s },
                        Action::CloseRecognizer { stop: s.recognizer_started },
                    ),
                    Phase::ClosingRecognizer => {
                        let report = match s.error {
                            Some(e) => Action::ReportFailed(e),
                            None => Action::ReportStopped,
                        };
                        (CaptureController::new(), report)
                    },
                    _ => (s, Action::Nothing),
                }
            },
            Event::Failed(err) => {
                match s.phase {
                    Phase::Negotiating | Phase::CreatingRecognizer => (
                        CaptureController::new(),
                        Action::ReportFailed(err),
                    ),
                    Phase::BuildingStream => (
                        CaptureController {
                            phase: Phase::ClosingRecognizer,
                            error: Some(err),
                            ..s
                        },
                        Action::CloseRecognizer { stop: false },
                    ),
                    Phase::StartingRecognizer | Phase::StartingPlayback | Phase::Running => (
                        CaptureController {
                            phase: Phase::DestroyingStream,
                            stream_alive: false,
                            playing: false,
                            error: Some(err),
                            ..s
                        },
                        Action::DestroyStream,
                    ),
                    Phase::DestroyingStream => (
                        CaptureController { phase: Phase::ClosingRecognizer, ..s },
                        Action::CloseRecognizer { stop: s.recognizer_started },
                    ),
                    Phase::ClosingRecognizer => {
                        let first = match s.error {
                            Some(first) => first,
                            None => err,
                        };
                        (CaptureController::new(), Action::ReportFailed(first))
                    },
                    Phase::Idle => (s, Action::Nothing),
                }
            },
        };
        *self = n;
        a
    }
}

/// Every step keeps the resources held in line with the phase.
pub proof fn lemma_next_wf(s: CaptureController, e: Event)
    requires
        s.wf(),
    ensures
        next(s, e).0.wf(),
{
}

/// Stopping a controller that holds no session reports success and changes
/// nothing.
pub proof fn lemma_stop_when_idle(s: CaptureController)
    requires
        s.wf(),
        s.phase == Phase::Idle,
    ensures
        next(s, Event::StopRequested) == (s, Action::ReportStopped),
        s == idle_state(),
{
}

/// The stream is told to play only once the recognizer has been started:
/// right when its start has completed. Audio is forwarded only to a started
/// recognizer.
pub proof fn lemma_recognizer_started_before_play(s: CaptureController, e: Event)
    requires
        s.wf(),
    ensures
        next(s, e).1 == Action::PlayStream ==> {
            &&& s.phase == Phase::StartingRecognizer
            &&& e == Event::Completed
            &&& next(s, e).0.recognizer_started
        },
        next(s, e).1 == Action::StartRecognizer ==> !s.recognizer_started,
        next(s, e).1 == Action::WriteAudio ==> s.recognizer_started,
{
}

/// Every report that ends a session, or that a session could not begin,
/// leaves the controller holding nothing.
pub proof fn lemma_report_leaves_idle(s: CaptureController, e: Event)
    requires
        s.wf(),
    ensures
        (next(s, e).1 is ReportStopped || next(s, e).1 is ReportFailed) ==> next(s, e).0
            == idle_state(),
{
}

/// From a state with no stream that is not building one, a write can only
/// come after a new stream has been asked for.
proof fn lemma_no_write_without_stream(s: CaptureController, events: Seq<Event>)
    requires
        s.wf(),
        !s.stream_alive,
        s.phase != Phase::BuildingStream,
    ensures
        forall|k: int|
            0 <= k < run(s, events).1.len() && #[trigger] run(s, events).1[k] == Action::WriteAudio
                ==> exists|j: int| 0 <= j < k && run(s, events).1[j] == Action::BuildStream,
        run(s, events).1.len() == events.len(),
    decreases events.len(),
{
    if events.len() > 0 {
        let (s1, a) = next(s, events[0]);
        let tail = events.drop_first();
        let acts = run(s, events).1;
        let rest = run(s1, tail).1;
        assert(acts == seq![a] + rest);
        if a == Action::BuildStream {
            lemma_run_len(s1, tail);
            assert forall|k: int|
                0 <= k < acts.len() && #[trigger] acts[k] == Action::WriteAudio implies exists|
                j: int,
            | 0 <= j < k && acts[j] == Action::BuildStream by {
                assert(acts[0] == Action::BuildStream);
            }
        } else {
            lemma_next_wf(s, events[0]);
            lemma_no_write_without_stream(s1, tail);
            assert forall|k: int|
                0 <= k < acts.len() && #[trigger] acts[k] == Action::WriteAudio implies exists|
                j: int,
            | 0 <= j < k && acts[j] == Action::BuildStream by {
                assert(k > 0);
                assert(acts[k] == rest[k - 1]);
                let j0 = choose|j: int| 0 <= j < k - 1 && rest[j] == Action::BuildStream;
                assert(acts[j0 + 1] == Action::BuildStream);
            }
        }
    }
}

proof fn lemma_run_len(s: CaptureController, events: Seq<Event>)
    ensures
        run(s, events).1.len() == events.len(),
    decreases events.len(),
{
    if events.len() > 0 {
        lemma_run_len(next(s, events[0]).0, events.drop_first());
    }
}

/// Once the stream is destroyed, no write reaches the recognizer unless a new
/// stream has been asked for first; and the recognizer is stopped and
/// released only when no stream exists.
pub proof fn lemma_no_write_after_destroy(s: CaptureController, e: Event, events: Seq<Event>)
    requires
        s.wf(),
        next(s, e).1 == Action::DestroyStream,
    ensures
        !next(s, e).0.forwards_audio(),
        forall|k: int|
            0 <= k < run(next(s, e).0, events).1.len() && #[trigger] run(next(s, e).0, events).1[k]
                == Action::WriteAudio ==> exists|j: int|
                0 <= j < k && run(next(s, e).0, events).1[j] == Action::BuildStream,
{
    lemma_next_wf(s, e);
    lemma_no_write_without_stream(next(s, e).0, events);
}

/// The recognizer is closed only when no stream exists.
pub proof fn lemma_close_without_stream(s: CaptureController, e: Event)
    requires
        s.wf(),
    ensures
        next(s, e).1 is CloseRecognizer ==> !s.stream_alive && !next(s, e).0.stream_alive,
{
}

} // verus!
