//! What a channel hands to its recursive estimator.
//!
//! The estimator itself, a filter on the value and its rate of change, runs
//! outside this crate. Every reading gives it one prediction step, made
//! without new information, and then one observation to correct the
//! prediction with. Where the reading has jumped away from the one before it,
//! the estimate is set back to its prior between the two, so that a real step
//! change shows at once instead of being smoothed over several readings.

use vstd::prelude::*;

verus! {

/// Whether `reading` lies further than `threshold` from `last`.
pub open spec fn is_jump(reading: int, last: int, threshold: int) -> bool {
    reading - last > threshold || last - reading > threshold
}

/// One step on the estimator of a channel.
#[derive(Debug, Clone, Copy, PartialEq, Eq)]
pub enum EstimatorStep {
    /// Advance the estimate by one time step.
    Predict,
    /// Set the estimate back to its prior.
    Reset,
    /// Correct the estimate with this reading.
    Update(i32),
    /// Report the value of the estimate.
    Report,
}

/// One observation for the estimator of a channel.
#[derive(Debug, Clone, Copy, PartialEq, Eq)]
pub struct Observation {
    /// The unfiltered reading to correct the estimate with.
    pub value: i32,
    /// Whether the estimate is to be set back to its prior before that.
    pub reset: bool,
}

impl Observation {
    /// The steps that a reading takes on the estimator, in their order:
    /// prediction, correction, report, each once, and the reset, where there
    /// is one, between prediction and correction.
    pub open spec fn plan(self) -> Seq<EstimatorStep> {
        if self.reset {
            seq![
                EstimatorStep::Predict,
                EstimatorStep::Reset,
                EstimatorStep::Update(self.value),
                EstimatorStep::Report,
            ]
        } else {
            seq![EstimatorStep::Predict, EstimatorStep::Update(self.value), EstimatorStep::Report]
        }
    }

    /// Lays out the steps that a reading takes on the estimator.
    pub fn steps(&self) -> (steps: Vec<EstimatorStep>)
        ensures
            steps@ == self.plan(),
    {
        let mut steps = Vec::new();
        steps.push(EstimatorStep::Predict);
        if self.reset {
            steps.push(EstimatorStep::Reset);
        }
        steps.push(EstimatorStep::Update(self.value));
        steps.push(EstimatorStep::Report);
        assert(steps@ =~= self.plan());
        steps
    }
}

/// Tells a discrete jump of the measured quantity from noise.
pub fn discrete_jump(reading: i32, last: i32, threshold: i32) -> (jump: bool)
    ensures
        jump == is_jump(reading as int, last as int, threshold as int),
    no_unwind
{
    let d: i64 = (reading as i64) - (last as i64);
    d > (threshold as i64) || -d > (threshold as i64)
}

} // verus!
