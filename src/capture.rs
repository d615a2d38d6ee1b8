//! Bringing up a native capture chain step by step, and taking it down.
//!
//! The chain is acquired in a fixed order. When a step fails, the steps
//! already acquired are released in reverse order before the failure is
//! reported; a running chain is torn down in reverse order too.

use vstd::prelude::*;

verus! {

/// One resource of the capture chain.
#[derive(Debug, Clone, Copy, PartialEq, Eq, Structural)]
pub enum TapStep {
    /// The process tap over the system output.
    ProcessTap,
    /// The private aggregate device that carries the tap.
    AggregateDevice,
    /// The IO callback registered on the aggregate device.
    IoProc,
    /// The running device, delivering samples to the callback.
    DeviceStart,
}

/// The chain, in the order it is acquired.
pub open spec fn chain() -> Seq<TapStep> {
    seq![TapStep::ProcessTap, TapStep::AggregateDevice, TapStep::IoProc, TapStep::DeviceStart]
}

/// What to release, in order, once the first `acquired` steps are held.
pub open spec fn release_spec(acquired: int) -> Seq<TapStep> {
    chain().subrange(0, acquired).reverse()
}

/// What the caller of `TapSetup` has to do next.
#[derive(Debug, Clone, PartialEq, Eq)]
pub enum SetupAction {
    /// Acquire this step, then report whether it succeeded.
    Acquire(TapStep),
    /// A step failed: release these, in this order, then report the failure.
    Release(Vec<TapStep>),
    /// The whole chain is held and running.
    Ready,
}

/// The steps held so far while bringing up the chain.
pub struct TapSetup {
    acquired: usize,
    failed: bool,
}

impl TapSetup {
    /// How many steps of the chain are held.
    pub closed spec fn held(&self) -> nat {
        self.acquired as nat
    }

    /// Whether a step failed and the held steps were handed back for release.
    pub closed spec fn has_failed(&self) -> bool {
        self.failed
    }

    pub closed spec fn wf(&self) -> bool {
        &&& self.acquired <= 4
        &&& self.failed ==> self.acquired == 0
    }

    /// Nothing held yet; the first step to acquire is the process tap.
    pub fn new() -> (r: (Self, SetupAction))
        ensures
            r.0.wf(),
            r.0.held() == 0,
            !r.0.has_failed(),
            r.1 == SetupAction::Acquire(TapStep::ProcessTap),
    {
        (TapSetup { acquired: 0, failed: false }, SetupAction::Acquire(TapStep::ProcessTap))
    }

    /// Reports how the step last asked for went. On success the next step is
    /// asked for, or `Ready` once all four are held; on failure every held
    /// step is handed back for release, most recent first.
    pub fn step_done(&mut self, ok: bool) -> (r: SetupAction)
        requires
            old(self).wf(),
            !old(self).has_failed(),
            old(self).held() < 4,
        ensures
            final(self).wf(),
            ok ==> final(self).held() == old(self).held() + 1 && !final(self).has_failed() && r == if final(self).held() == 4 {
                SetupAction::Ready
            } else {
                SetupAction::Acquire(chain()[final(self).held() as int])
            },
            !ok ==> final(self).has_failed() && (match r {
                SetupAction::Release(v) => v@ == release_spec(old(self).held() as int),
                _ => false,
            }),
    {
        if ok {
            self.acquired = self.acquired + 1;
            if self.acquired == 4 {
                SetupAction::Ready
            } else {
                SetupAction::Acquire(step_at(self.acquired))
            }
        } else {
            let release = release_order(self.acquired);
            self.acquired = 0;
            self.failed = true;
            SetupAction::Release(release)
        }
    }
}

/// Step `i` of the chain.
pub fn step_at(i: usize) -> (r: TapStep)
    requires
        i < 4,
    ensures
        r == chain()[i as int],
{
    if i == 0 {
        TapStep::ProcessTap
    } else if i == 1 {
        TapStep::AggregateDevice
    } else if i == 2 {
        TapStep::IoProc
    } else {
        TapStep::DeviceStart
    }
}

/// The first `acquired` steps of the chain, most recent first: the order in
/// which they are released.
pub fn release_order(acquired: usize) -> (r: Vec<TapStep>)
    requires
        acquired <= 4,
    ensures
        r@ == release_spec(acquired as int),
{
    let mut out: Vec<TapStep> = Vec::new();
    let mut k: usize = acquired;
    while k > 0
        invariant
            k <= acquired <= 4,
            out@ == chain().subrange(k as int, acquired as int).reverse(),
        decreases k,
    {
        k = k - 1;
        out.push(step_at(k));
        assert(out@ =~= chain().subrange(k as int, acquired as int).reverse());
    }
    out
}

} // verus!
