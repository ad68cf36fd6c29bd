use vstd::prelude::*;

use crate::fin_error::{FinError, FinErrorType};
use crate::traits::{Apply, Current, Evaluate, Executable, ExecutionContext, IoState, Scalar};
use crate::window::{seq_after_push, BoundedWindow};

verus! {

/// # Maximum over Period
/// Container for the Maximum-over-Period aggregation: the largest of the
/// most recent `period` observations.
///
/// A peek deliberately mirrors the eviction that a following commit would
/// perform: it combines the input with every retained observation except the
/// oldest one, without actually evicting anything.
pub struct MaximumPeriod<V> {
    /// The bounded window holding the most recent observations.
    pub window: BoundedWindow<V>,
}

impl<V: Scalar> MaximumPeriod<V> {
    /// The window never outgrows the configured period.
    pub open spec fn well_formed(&self) -> bool {
        self.window.well_formed()
    }

    /// Create a new Maximum-over-Period instance.
    ///
    /// # Arguments
    /// * `period` - The period of the aggregation, must be greater than 0.
    ///
    /// # Errors
    /// Returns an `InvalidInput` error if and only if the period is 0.
    pub fn new(period: usize) -> (result: Result<Self, FinError>)
        ensures
            result is Err <==> period == 0,
            result is Err ==> result->Err_0.error_type == FinErrorType::InvalidInput
                && result->Err_0.message@ == "Period must be greater than 0"@,
            result is Ok ==> result->Ok_0.window.period == period && result->Ok_0.window.values@
                == Seq::<V>::empty(),
    {
        match period {
            0 => Err(
                FinError::new(FinErrorType::InvalidInput, "Period must be greater than 0"),
            ),
            _ => Ok(Self { window: BoundedWindow::new(period) }),
        }
    }
}

impl<V: Scalar> IoState for MaximumPeriod<V> {
    type Input = V;

    type Output = V;
}

impl<V: Scalar> Executable for MaximumPeriod<V> {
    /// Under `Apply`, the window gains `input` and loses its oldest
    /// observation once full, and the output is the maximum of the new
    /// contents. Under `Evaluate`, the output is the maximum of the input
    /// and every retained observation but the oldest — the one-step
    /// lookahead of the eviction a commit would perform — and the state is
    /// untouched.
    fn execute(&mut self, input: V, execution_context: &ExecutionContext) -> (result: V)
        ensures
            *execution_context is Apply ==> final(self).window.period == old(self).window.period
                && final(self).window.values@ == seq_after_push(
                old(self).window.values@,
                old(self).window.period as nat,
                input,
            ),
            *execution_context is Evaluate ==> *final(self) == *old(self),
            old(self).well_formed() ==> final(self).well_formed(),
    {
        match execution_context {
            ExecutionContext::Apply => {
                self.window.push(input);
                self.window.max()
            },
            ExecutionContext::Evaluate => {
                let mut extreme = V::smallest();
                let mut i: usize = 1;
                while i < self.window.len()
                    invariant
                        1 <= i,
                    decreases self.window.values@.len() - i,
                {
                    extreme = extreme.maximum(self.window.values[i]);
                    i = i + 1;
                }
                extreme.maximum(input)
            },
        }
    }
}

impl<V: Scalar> Apply for MaximumPeriod<V> {

}

impl<V: Scalar> Evaluate for MaximumPeriod<V> {

}

impl<V: Scalar> Current for MaximumPeriod<V> {
    /// The maximum of the retained observations, stable until the next
    /// commit.
    fn current(&self) -> (result: V) {
        self.window.max()
    }
}

} // verus!
