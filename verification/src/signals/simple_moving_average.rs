use vstd::prelude::*;

use crate::fin_error::{FinError, FinErrorType};
use crate::traits::{Apply, Current, Evaluate, Executable, ExecutionContext, IoState, Scalar};
use crate::window::{seq_after_push, BoundedWindow};

verus! {

/// Pushes `input` into the window and returns the mean of the new contents.
fn calculate_sma<V: Scalar>(input: V, values: &mut BoundedWindow<V>) -> (result: V)
    ensures
        final(values).period == old(values).period,
        final(values).values@ == seq_after_push(
            old(values).values@,
            old(values).period as nat,
            input,
        ),
        old(values).well_formed() ==> final(values).well_formed(),
{
    values.push(input);
    values.mean()
}

/// # Simple Moving Average
/// Container for the Simple Moving Average (SMA) aggregation.
///
/// The output is the arithmetic mean over the most recent `min(n, period)`
/// observations, so a value is emitted immediately on the first observation.
pub struct SimpleMovingAverage<V> {
    /// The bounded window holding the most recent observations.
    pub window: BoundedWindow<V>,
}

impl<V: Scalar> SimpleMovingAverage<V> {
    /// The window never outgrows the configured period.
    pub open spec fn well_formed(&self) -> bool {
        self.window.well_formed()
    }

    /// Create a new Simple Moving Average instance.
    ///
    /// # Arguments
    /// * `period` - The period of the aggregation, must be greater than 0.
    ///
    /// # Errors
    /// Returns an `InvalidInput` error if and only if the period is 0.
    pub fn new(period: usize) -> (result: Result<Self, FinError>)
        ensures
            result is Err <==> period == 0,
            result is Err ==> result->Err_0.error_type == FinErrorType::InvalidInput
                && result->Err_0.message@ == "Period must be greater than 0"@,
            result is Ok ==> result->Ok_0.window.period == period && result->Ok_0.window.values@
                == Seq::<V>::empty(),
    {
        match period {
            0 => Err(
                FinError::new(FinErrorType::InvalidInput, "Period must be greater than 0"),
            ),
            _ => Ok(Self { window: BoundedWindow::new(period) }),
        }
    }
}

impl<V: Scalar> IoState for SimpleMovingAverage<V> {
    type Input = V;

    type Output = V;
}

impl<V: Scalar> Executable for SimpleMovingAverage<V> {
    /// Under `Apply`, the window gains `input` at the tail and loses its
    /// oldest observation once full; under `Evaluate`, the same computation
    /// runs on a duplicate of the window and the state is untouched.
    fn execute(&mut self, input: V, execution_context: &ExecutionContext) -> (result: V)
        ensures
            *execution_context is Apply ==> final(self).window.period == old(self).window.period
                && final(self).window.values@ == seq_after_push(
                old(self).window.values@,
                old(self).window.period as nat,
                input,
            ),
            *execution_context is Evaluate ==> *final(self) == *old(self),
            old(self).well_formed() ==> final(self).well_formed(),
    {
        match execution_context {
            ExecutionContext::Apply => calculate_sma(input, &mut self.window),
            ExecutionContext::Evaluate => {
                let mut values = self.window.duplicate();
                calculate_sma(input, &mut values)
            },
        }
    }
}

impl<V: Scalar> Apply for SimpleMovingAverage<V> {

}

impl<V: Scalar> Evaluate for SimpleMovingAverage<V> {

}

impl<V: Scalar> Current for SimpleMovingAverage<V> {
    /// The mean over the retained observations, or zero before the first
    /// commit; stable until the next commit.
    fn current(&self) -> (result: V) {
        self.window.mean()
    }
}

} // verus!
