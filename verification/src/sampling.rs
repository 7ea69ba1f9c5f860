//! Per-pixel sample accounting for the path tracer driver.
//!
//! A pixel is sampled up to a fixed budget of attempts. Each attempt either
//! accumulates (the sampled color was finite) or is skipped (it was not, and
//! must not count towards the average). After every
//! [`CONVERGENCE_INTERVAL`]th accumulated sample the driver compares the
//! running luminance against the previous checkpoint and may declare the
//! pixel converged, which ends sampling early. The comparison itself is
//! floating point and happens outside this library; this type decides
//! everything else: when to keep sampling, when a checkpoint is due, and how
//! many samples the final average is over.

use vstd::prelude::*;

verus! {

/// Number of accumulated samples between two convergence checkpoints.
pub const CONVERGENCE_INTERVAL: usize = 64;

/// The sampling state of one pixel.
pub struct SampleLoop {
    budget: usize,
    attempted: usize,
    accumulated: usize,
    converged: bool,
}

impl SampleLoop {
    /// Total number of attempts this pixel is allowed.
    pub closed spec fn budget(&self) -> usize {
        self.budget
    }

    /// Number of attempts made so far, skipped ones included.
    pub closed spec fn attempted(&self) -> usize {
        self.attempted
    }

    /// Number of samples accumulated into the pixel's color so far.
    pub closed spec fn accumulated(&self) -> usize {
        self.accumulated
    }

    /// Whether the driver has declared the pixel converged.
    pub closed spec fn is_converged(&self) -> bool {
        self.converged
    }

    /// Every reachable state satisfies this: a sample only accumulates when
    /// an attempt was made, and attempts never pass the budget.
    pub open spec fn wf(&self) -> bool {
        self.accumulated() <= self.attempted() <= self.budget()
    }

    /// Fresh state for one pixel with `n_samples` attempts allowed.
    pub fn new(n_samples: usize) -> (state: SampleLoop)
        requires
            n_samples >= 1,
        ensures
            state.wf(),
            state.budget() == n_samples,
            state.attempted() == 0,
            state.accumulated() == 0,
            !state.is_converged(),
    {
        SampleLoop { budget: n_samples, attempted: 0, accumulated: 0, converged: false }
    }

    /// Whether another sample should be attempted: the budget is not
    /// exhausted and the pixel has not converged.
    pub fn wants_more(&self) -> (more: bool)
        ensures
            more == (self.attempted() < self.budget() && !self.is_converged()),
    {
        self.attempted < self.budget && !self.converged
    }

    /// Records an attempt whose color was not finite: it counts against the
    /// budget but not towards the average.
    pub fn record_skipped(&mut self)
        requires
            old(self).wf(),
            old(self).attempted() < old(self).budget(),
        ensures
            final(self).wf(),
            final(self).budget() == old(self).budget(),
            final(self).attempted() == old(self).attempted() + 1,
            final(self).accumulated() == old(self).accumulated(),
            final(self).is_converged() == old(self).is_converged(),
    {
        self.attempted = self.attempted + 1;
    }

    /// Records an attempt whose color was accumulated. Returns whether this
    /// sample completes a convergence interval, in which case the driver
    /// checks the running luminance and may call [`Self::mark_converged`].
    pub fn record_accumulated(&mut self) -> (checkpoint: bool)
        requires
            old(self).wf(),
            old(self).attempted() < old(self).budget(),
        ensures
            final(self).wf(),
            final(self).budget() == old(self).budget(),
            final(self).attempted() == old(self).attempted() + 1,
            final(self).accumulated() == old(self).accumulated() + 1,
            final(self).is_converged() == old(self).is_converged(),
            checkpoint == (final(self).accumulated() as int % (CONVERGENCE_INTERVAL as int)
                == 0),
    {
        self.attempted = self.attempted + 1;
        self.accumulated = self.accumulated + 1;
        self.accumulated % CONVERGENCE_INTERVAL == 0
    }

    /// Records that the luminance delta at a checkpoint was below the
    /// tolerance: no further samples are wanted.
    pub fn mark_converged(&mut self)
        requires
            old(self).wf(),
        ensures
            final(self).wf(),
            final(self).budget() == old(self).budget(),
            final(self).attempted() == old(self).attempted(),
            final(self).accumulated() == old(self).accumulated(),
            final(self).is_converged(),
    {
        self.converged = true;
    }

    /// Number of samples the pixel's average is over. Zero means no sample
    /// was finite and the pixel is emitted as opaque black.
    pub fn sample_count(&self) -> (count: usize)
        ensures
            count == self.accumulated(),
    {
        self.accumulated
    }
}

} // verus!
