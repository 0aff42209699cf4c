use vstd::prelude::*;

verus! {

/// How an attempt to acquire the next frame from the surface ended.
#[derive(Clone, Copy, Debug, PartialEq, Eq, Structural)]
pub enum AcquireOutcome {
    Acquired,
    /// The surface no longer matches the window and must be reconfigured.
    Outdated,
    /// Any other failure (timeout, lost surface, out of memory).
    Failed,
}

/// Which acquisition of the current redraw is being made.
#[derive(Clone, Copy, Debug, PartialEq, Eq, Structural)]
pub enum AcquirePhase {
    First,
    /// The one retry made after reconfiguring an outdated surface.
    Retry,
}

/// What the render loop does after an acquisition attempt.
#[derive(Clone, Copy, Debug, PartialEq, Eq, Structural)]
pub enum FrameStep {
    /// Encode the render pass into the acquired frame and submit it.
    Draw,
    /// Reconfigure the surface with the current size and acquire again.
    ReconfigureAndRetry,
    /// Abandon this redraw; wait for the next event.
    Skip,
}

/// The acquisition progress of one redraw.
#[derive(Clone, Copy, Debug, PartialEq, Eq, Structural)]
pub struct FrameAttempt {
    pub phase: AcquirePhase,
}

/// The step that follows `outcome` in `phase`: an outdated surface is
/// reconfigured and retried once; any failure of the retry, and any other
/// failure, abandons the redraw.
pub open spec fn step_for(phase: AcquirePhase, outcome: AcquireOutcome) -> FrameStep {
    match (phase, outcome) {
        (_, AcquireOutcome::Acquired) => FrameStep::Draw,
        (AcquirePhase::First, AcquireOutcome::Outdated) => FrameStep::ReconfigureAndRetry,
        _ => FrameStep::Skip,
    }
}

/// The phase after `outcome` in `phase`.
pub open spec fn phase_after(phase: AcquirePhase, outcome: AcquireOutcome) -> AcquirePhase {
    if step_for(phase, outcome) == FrameStep::ReconfigureAndRetry {
        AcquirePhase::Retry
    } else {
        phase
    }
}

/// The step with which a redraw ends when its acquisitions report
/// `outcomes` in order (attempts beyond the ones the redraw makes are never
/// looked at); `None` where the outcomes run out first.
pub open spec fn frame_result(phase: AcquirePhase, outcomes: Seq<AcquireOutcome>) -> Option<FrameStep>
    decreases outcomes.len(),
{
    if outcomes.len() == 0 {
        None
    } else if step_for(phase, outcomes[0]) == FrameStep::ReconfigureAndRetry {
        frame_result(phase_after(phase, outcomes[0]), outcomes.drop_first())
    } else {
        Some(step_for(phase, outcomes[0]))
    }
}

impl FrameAttempt {
    /// A redraw that has not tried to acquire a frame yet.
    pub fn start() -> (r: FrameAttempt)
        ensures
            r.phase == AcquirePhase::First,
    {
        FrameAttempt { phase: AcquirePhase::First }
    }

    /// Records the outcome of an acquisition and says what to do next.
    pub fn on_outcome(&mut self, outcome: AcquireOutcome) -> (r: FrameStep)
        ensures
            r == step_for(old(self).phase, outcome),
            final(self).phase == phase_after(old(self).phase, outcome),
    {
        match outcome {
            AcquireOutcome::Acquired => FrameStep::Draw,
            AcquireOutcome::Outdated => {
                match self.phase {
                    AcquirePhase::First => {
                        self.phase = AcquirePhase::Retry;
                        FrameStep::ReconfigureAndRetry
                    },
                    AcquirePhase::Retry => FrameStep::Skip,
                }
            },
            AcquireOutcome::Failed => FrameStep::Skip,
        }
    }
}

/// An outdated surface followed by a successful acquisition after the
/// reconfiguration completes the frame; two failures in a row abandon the
/// redraw; and no redraw ever makes more than two acquisitions.
pub proof fn lemma_acquisition_recovery(first: AcquireOutcome, second: AcquireOutcome, rest: Seq<AcquireOutcome>)
    ensures
        frame_result(AcquirePhase::First, seq![AcquireOutcome::Outdated, AcquireOutcome::Acquired].add(rest))
            == Some(FrameStep::Draw),
        first != AcquireOutcome::Acquired && second != AcquireOutcome::Acquired
            ==> frame_result(AcquirePhase::First, seq![first, second].add(rest)) == Some(FrameStep::Skip),
        frame_result(AcquirePhase::First, seq![first, second].add(rest))
            == frame_result(AcquirePhase::First, seq![first, second]),
        frame_result(AcquirePhase::First, seq![first, second]) is Some,
{
    reveal_with_fuel(frame_result, 3);
    let s1 = seq![AcquireOutcome::Outdated, AcquireOutcome::Acquired].add(rest);
    assert(s1[0] == AcquireOutcome::Outdated);
    assert(s1.drop_first()[0] == AcquireOutcome::Acquired && s1.drop_first().len() > 0);
    let s2 = seq![first, second].add(rest);
    let t2 = seq![first, second];
    assert(s2[0] == first && t2[0] == first);
    assert(s2.drop_first()[0] == second && t2.drop_first()[0] == second);
    assert(s2.drop_first().len() > 0 && s2.len() > 0 && t2.len() > 0);
    assert(t2.drop_first().len() == 1);
}

} // verus!
