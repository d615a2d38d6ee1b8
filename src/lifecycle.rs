//! When capture is active: the start / stop state machine around the window.
//!
//! Starting and stopping each take two steps, because the native capture
//! source has to be asked in between: the coordinator says what to do, the
//! caller does it and reports back.

use vstd::prelude::*;
use crate::ring::{AudioError, AudioWindow, WindowModel, clamp_spec};

verus! {

/// Native sample rate of the captured stream, in frames per second.
pub const SAMPLE_RATE: u32 = 48000;

/// Channels of the captured stream, interleaved.
pub const CHANNELS: u16 = 2;

/// Longest window that the ring can hold, in seconds.
pub const MAX_BUFFER_SECONDS: u32 = 300;

/// Window used until another is configured, in seconds.
pub const DEFAULT_BUFFER_SECONDS: u32 = 30;

/// Samples in one second of the captured stream.
pub open spec fn samples_per_second() -> int {
    SAMPLE_RATE as int * CHANNELS as int
}

/// Samples in `seconds` seconds of the captured stream, saturated to `usize`.
pub open spec fn samples_for_seconds_spec(seconds: int) -> int {
    if seconds * samples_per_second() > usize::MAX {
        usize::MAX as int
    } else {
        seconds * samples_per_second()
    }
}

/// Samples in `seconds` seconds of the captured stream, saturated to `usize`.
pub fn samples_for_seconds(seconds: u32) -> (r: usize)
    ensures
        r == samples_for_seconds_spec(seconds as int),
{
    let rate: u64 = SAMPLE_RATE as u64;
    let channels: u64 = CHANNELS as u64;
    assert(rate == 48000 && channels == 2);
    let per: u64 = rate * channels;
    assert(seconds as u64 * per <= 0xffff_ffff_u64 * 96000) by (nonlinear_arith)
        requires
            seconds <= 0xffff_ffff_u32,
            per == 96000,
    ;
    let n: u64 = seconds as u64 * per;
    if n > usize::MAX as u64 {
        usize::MAX
    } else {
        n as usize
    }
}

/// Where the coordinator stands.
#[derive(Debug, Clone, Copy, PartialEq, Eq, Structural)]
pub enum Phase {
    Idle,
    Starting,
    Recording,
    Stopping,
}

/// What the caller of `begin_start` has to do next.
#[derive(Debug, Clone, Copy, PartialEq, Eq, Structural)]
pub enum StartStep {
    /// A session is already active or being started: report success, begin nothing.
    AlreadyActive,
    /// A stop is under way: report that capture is stopping, begin nothing.
    StopInProgress,
    /// Ask the native source to begin, then call `finish_start`.
    BeginCapture,
}

/// What came of a start, as `finish_start` decides it.
#[derive(Debug, Clone, Copy, PartialEq, Eq, Structural)]
pub enum StartOutcome {
    /// The session is active.
    Active,
    /// The native source failed; recording is off again and nothing is active.
    RolledBack,
    /// A stop came in between; the caller ends whatever it began.
    Superseded,
}

/// What the caller of `begin_stop` has to do next.
#[derive(Debug, Clone, Copy, PartialEq, Eq, Structural)]
pub enum StopStep {
    /// Ask the native source to end, wait for it, then call `finish_stop`.
    EndCapture,
    /// Nothing is active: the stop is done.
    NothingToEnd,
}

/// The coordinator, abstractly.
pub struct CoordinatorModel<T> {
    pub phase: Phase,
    pub window: WindowModel<T>,
}

impl<T> CoordinatorModel<T> {
    /// The window records exactly while a session is being started or is active.
    pub open spec fn consistent(self) -> bool {
        self.window.recording == (self.phase == Phase::Starting || self.phase == Phase::Recording)
    }

    /// The first step of a start asking for `seconds` of window.
    pub open spec fn start(self, seconds: u32) -> (Self, StartStep) {
        match self.phase {
            Phase::Idle => (
                CoordinatorModel {
                    phase: Phase::Starting,
                    window: self.window.configure(samples_for_seconds_spec(seconds as int)).with_recording(true),
                },
                StartStep::BeginCapture,
            ),
            Phase::Stopping => (self, StartStep::StopInProgress),
            _ => (self, StartStep::AlreadyActive),
        }
    }

    /// The second step of a start, once the native source said whether it began.
    pub open spec fn finish_start(self, began: bool) -> (Self, StartOutcome) {
        if self.phase == Phase::Starting {
            if began {
                (CoordinatorModel { phase: Phase::Recording, ..self }, StartOutcome::Active)
            } else {
                (
                    CoordinatorModel { phase: Phase::Idle, window: self.window.with_recording(false) },
                    StartOutcome::RolledBack,
                )
            }
        } else {
            (self, StartOutcome::Superseded)
        }
    }

    /// The first step of a stop: recording goes off at once.
    pub open spec fn stop(self) -> (Self, StopStep) {
        match self.phase {
            Phase::Starting | Phase::Recording => (
                CoordinatorModel { phase: Phase::Stopping, window: self.window.with_recording(false) },
                StopStep::EndCapture,
            ),
            _ => (CoordinatorModel { window: self.window.with_recording(false), ..self }, StopStep::NothingToEnd),
        }
    }

    /// The second step of a stop, once the native source has quiesced.
    pub open spec fn finish_stop(self) -> Self {
        if self.phase == Phase::Stopping {
            CoordinatorModel { phase: Phase::Idle, ..self }
        } else {
            self
        }
    }

    /// Setting the window length, which only an idle coordinator accepts.
    pub open spec fn set_buffer_seconds(self, seconds: u32) -> Self {
        if self.phase == Phase::Idle {
            CoordinatorModel {
                window: self.window.configure(samples_for_seconds_spec(seconds as int)),
                ..self
            }
        } else {
            self
        }
    }
}

/// What a host is told about capture.
#[derive(Debug, Clone, Copy, PartialEq, Eq, Structural)]
pub struct SystemAudioStatus {
    /// Whether offered samples are taken now.
    pub recording: bool,
    /// The window length in whole seconds of the stream.
    pub buffer_seconds: u32,
    /// Whether this platform can capture system audio at all.
    pub supported: bool,
}

/// Whole seconds of the stream in `samples` samples, saturated to `u32`.
pub open spec fn seconds_for_samples_spec(samples: int) -> int {
    if samples / samples_per_second() > u32::MAX {
        u32::MAX as int
    } else {
        samples / samples_per_second()
    }
}

/// Starting twice in a row, with no stop in between, begins one session
/// only: the second start reports success and changes nothing, whether or not
/// the first has finished.
pub proof fn lemma_start_idempotent<T>(m: CoordinatorModel<T>, first: u32, second: u32)
    requires
        m.consistent(),
        m.phase != Phase::Stopping,
    ensures
        ({
            let m1 = m.start(first).0;
            let m2 = m1.finish_start(true).0;
            &&& m1.start(second) == (m1, StartStep::AlreadyActive)
            &&& m2.start(second) == (m2, StartStep::AlreadyActive)
            &&& m2.phase == Phase::Recording
        }),
{
}

/// While recording, a start reports success and changes nothing: no second
/// session is begun.
pub proof fn lemma_start_when_recording<T>(m: CoordinatorModel<T>, seconds: u32)
    requires
        m.consistent(),
        m.window.recording,
    ensures
        m.start(seconds) == (m, StartStep::AlreadyActive),
{
}

/// A stop changes no snapshot, and from the moment a stop begins no offered
/// sample reaches the window: snapshots stay as they were, through the end of
/// the stop.
pub proof fn lemma_stop_quiescent<T>(m: CoordinatorModel<T>, samples: Seq<T>)
    ensures
        ({
            let m1 = m.stop().0;
            let m2 = m1.finish_stop();
            &&& m1.window.snapshot() == m.window.snapshot()
            &&& m1.window.push_block(samples).snapshot() == m1.window.snapshot()
            &&& m2.window.push_block(samples).snapshot() == m2.window.snapshot()
            &&& m2.window.snapshot() == m.window.snapshot()
            &&& m2.phase != Phase::Starting && m2.phase != Phase::Recording
        }),
{
}

/// The ring buffer together with the phase of capture that governs it.
pub struct Coordinator<T> {
    window: AudioWindow<T>,
    phase: Phase,
}

impl<T: Copy> View for Coordinator<T> {
    type V = CoordinatorModel<T>;

    closed spec fn view(&self) -> CoordinatorModel<T> {
        CoordinatorModel { phase: self.phase, window: self.window@ }
    }
}

impl<T: Copy> Coordinator<T> {
    pub closed spec fn wf(&self) -> bool {
        self.window.wf() && self@.consistent()
    }

    /// What a well-formed coordinator is known to satisfy: recording is on
    /// exactly while a session is being started or is active, and the window
    /// has at least one slot and a length between one sample and the capacity.
    pub proof fn lemma_wf_shape(&self)
        requires
            self.wf(),
        ensures
            self@.consistent(),
            0 < self@.window.capacity,
            1 <= self@.window.window_len <= self@.window.capacity,
    {
        self.window.lemma_wf_shape();
    }

    /// An idle coordinator over a fresh window of `capacity` slots holding
    /// `silence`, returning `window` samples (held to `1..=capacity`).
    pub fn with_capacity(capacity: usize, window: usize, silence: T) -> (r: Self)
        requires
            capacity > 0,
        ensures
            r.wf(),
            r@ == (CoordinatorModel {
                phase: Phase::Idle,
                window: WindowModel {
                    capacity: capacity as nat,
                    window_len: clamp_spec(window as int, 1, capacity as int) as nat,
                    recording: false,
                    silence,
                    pushed: Seq::<T>::empty(),
                },
            }),
    {
        Coordinator { window: AudioWindow::new(capacity, window, silence), phase: Phase::Idle }
    }

    /// An idle coordinator whose ring holds `MAX_BUFFER_SECONDS` of the stream
    /// and whose window is `DEFAULT_BUFFER_SECONDS` long.
    pub fn new(silence: T) -> (r: Self)
        ensures
            r.wf(),
            r@ == (CoordinatorModel {
                phase: Phase::Idle,
                window: WindowModel {
                    capacity: samples_for_seconds_spec(MAX_BUFFER_SECONDS as int) as nat,
                    window_len: samples_for_seconds_spec(DEFAULT_BUFFER_SECONDS as int) as nat,
                    recording: false,
                    silence,
                    pushed: Seq::<T>::empty(),
                },
            }),
    {
        let capacity = samples_for_seconds(MAX_BUFFER_SECONDS);
        let window = samples_for_seconds(DEFAULT_BUFFER_SECONDS);
        Self::with_capacity(capacity, window, silence)
    }

    pub fn phase(&self) -> (r: Phase)
        ensures
            r == self@.phase,
    {
        self.phase
    }

    /// What a host is told: the flag, the window in whole seconds, and
    /// `supported` as given.
    pub fn status(&self, supported: bool) -> (r: SystemAudioStatus)
        ensures
            r == (SystemAudioStatus {
                recording: self@.window.recording,
                buffer_seconds: seconds_for_samples_spec(self@.window.window_len as int) as u32,
                supported,
            }),
    {
        let rate: usize = SAMPLE_RATE as usize;
        let channels: usize = CHANNELS as usize;
        assert(rate == 48000 && channels == 2);
        let per: usize = rate * channels;
        let seconds = self.window.window_samples() / per;
        let buffer_seconds: u32 = if seconds > u32::MAX as usize {
            u32::MAX
        } else {
            seconds as u32
        };
        SystemAudioStatus { recording: self.window.is_recording(), buffer_seconds, supported }
    }

    /// Whether offered samples are taken now.
    pub fn is_recording(&self) -> (r: bool)
        ensures
            r == self@.window.recording,
    {
        self.window.is_recording()
    }

    /// The number of samples that a snapshot returns.
    pub fn window_samples(&self) -> (r: usize)
        ensures
            r == self@.window.window_len,
    {
        self.window.window_samples()
    }

    /// Sets the window to `seconds` of the stream, held to the ring's capacity
    /// and to at least one sample; ignored unless idle.
    pub fn set_buffer_seconds(&mut self, seconds: u32)
        requires
            old(self).wf(),
        ensures
            final(self).wf(),
            final(self)@ == old(self)@.set_buffer_seconds(seconds),
    {
        if self.phase == Phase::Idle {
            self.window.configure(samples_for_seconds(seconds));
        }
    }

    /// First step of a start: when idle, configures the window and turns
    /// recording on before the native source is asked to begin.
    pub fn begin_start(&mut self, seconds: u32) -> (r: StartStep)
        requires
            old(self).wf(),
        ensures
            final(self).wf(),
            (final(self)@, r) == old(self)@.start(seconds),
    {
        match self.phase {
            Phase::Idle => {
                self.window.configure(samples_for_seconds(seconds));
                self.window.set_recording(true);
                self.phase = Phase::Starting;
                StartStep::BeginCapture
            },
            Phase::Stopping => StartStep::StopInProgress,
            _ => StartStep::AlreadyActive,
        }
    }

    /// Second step of a start: `began` tells whether the native source began.
    pub fn finish_start(&mut self, began: bool) -> (r: StartOutcome)
        requires
            old(self).wf(),
        ensures
            final(self).wf(),
            (final(self)@, r) == old(self)@.finish_start(began),
    {
        if self.phase == Phase::Starting {
            if began {
                self.phase = Phase::Recording;
                StartOutcome::Active
            } else {
                self.window.set_recording(false);
                self.phase = Phase::Idle;
                StartOutcome::RolledBack
            }
        } else {
            StartOutcome::Superseded
        }
    }

    /// First step of a stop: recording goes off before the native source is
    /// asked to end.
    pub fn begin_stop(&mut self) -> (r: StopStep)
        requires
            old(self).wf(),
        ensures
            final(self).wf(),
            (final(self)@, r) == old(self)@.stop(),
    {
        self.window.set_recording(false);
        match self.phase {
            Phase::Starting | Phase::Recording => {
                self.phase = Phase::Stopping;
                StopStep::EndCapture
            },
            _ => StopStep::NothingToEnd,
        }
    }

    /// Second step of a stop, once the native source has quiesced.
    pub fn finish_stop(&mut self)
        requires
            old(self).wf(),
        ensures
            final(self).wf(),
            final(self)@ == old(self)@.finish_stop(),
    {
        if self.phase == Phase::Stopping {
            self.phase = Phase::Idle;
        }
    }

    /// Offers one sample to the window.
    pub fn push_sample(&mut self, sample: T)
        requires
            old(self).wf(),
        ensures
            final(self).wf(),
            final(self)@ == (CoordinatorModel {
                window: old(self)@.window.push_block(seq![sample]),
                ..old(self)@
            }),
    {
        self.window.push(sample);
    }

    /// Offers a block of samples to the window.
    pub fn push_samples(&mut self, samples: &[T])
        requires
            old(self).wf(),
        ensures
            final(self).wf(),
            final(self)@ == (CoordinatorModel {
                window: old(self)@.window.push_block(samples@),
                ..old(self)@
            }),
    {
        self.window.push_block(samples);
    }

    /// The retained window, oldest first; permitted in any phase.
    pub fn snapshot(&self) -> (r: Result<Vec<T>, AudioError>)
        requires
            self.wf(),
        ensures
            match r {
                Ok(v) => self@.window.snapshot() == Ok::<Seq<T>, AudioError>(v@),
                Err(e) => self@.window.snapshot() == Err::<Seq<T>, AudioError>(e),
            },
    {
        self.window.snapshot()
    }
}

} // verus!
