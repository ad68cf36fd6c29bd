use vstd::prelude::*;

use crate::fin_error::{FinError, FinErrorType};
use crate::traits::{Apply, Current, Evaluate, Executable, ExecutionContext, IoState, Scalar};

verus! {

/// The EMA recurrence: the raw input while the aggregation is new, and
/// `(input - current) * k + current` afterwards.
fn calculate_emas<V: Scalar>(input: V, k: V, current: V, is_new: bool) -> (result: V)
    ensures
        is_new ==> result == input,
{
    match is_new {
        true => input,
        false => input.minus(current).times(k).plus(current),
    }
}

/// # Exponential Moving Average
/// Container for the Exponential Moving Average (EMA) aggregation.
///
/// The aggregation begins producing values immediately: the first output is
/// the first input, after which each output blends the input with the
/// previous output under the smoothing constant `k = 2 / (period + 1)`.
pub struct ExponentialMovingAverage<V> {
    /// The last committed output.
    pub current: V,
    /// The smoothing constant derived from the period at construction.
    pub k: V,
    /// Whether no observation has been committed yet.
    pub is_new: bool,
}

impl<V: Scalar> ExponentialMovingAverage<V> {
    /// Create a new Exponential Moving Average instance.
    ///
    /// # Arguments
    /// * `period` - The period of the aggregation, must be greater than 0.
    ///
    /// # Errors
    /// Returns an `InvalidInput` error if and only if the period is 0.
    pub fn new(period: usize) -> (result: Result<Self, FinError>)
        requires
            period < usize::MAX,
        ensures
            result is Err <==> period == 0,
            result is Err ==> result->Err_0.error_type == FinErrorType::InvalidInput
                && result->Err_0.message@ == "Period must be greater than 0"@,
            result is Ok ==> result->Ok_0.is_new == true,
    {
        match period {
            0 => Err(
                FinError::new(FinErrorType::InvalidInput, "Period must be greater than 0"),
            ),
            _ => Ok(
                Self {
                    k: V::from_count(2).divided_by(V::from_count(period + 1)),
                    current: V::from_count(0),
                    is_new: true,
                },
            ),
        }
    }
}

impl<V: Scalar> IoState for ExponentialMovingAverage<V> {
    type Input = V;

    type Output = V;
}

impl<V: Scalar> Executable for ExponentialMovingAverage<V> {
    /// Under `Apply`, the recurrence result is stored as the new `current`
    /// and returned; under `Evaluate`, the same recurrence runs against the
    /// present state without storing anything. The first output under either
    /// mode is the raw input.
    fn execute(&mut self, input: V, execution_context: &ExecutionContext) -> (result: V)
        ensures
            *execution_context is Apply ==> final(self).k == old(self).k && final(self).is_new
                == false && result == final(self).current,
            *execution_context is Evaluate ==> *final(self) == *old(self),
            old(self).is_new ==> result == input,
    {
        let result = calculate_emas(input, self.k, self.current, self.is_new);
        match execution_context {
            ExecutionContext::Apply => {
                self.current = result;
                self.is_new = false;
            },
            ExecutionContext::Evaluate => {},
        }
        result
    }
}

impl<V: Scalar> Apply for ExponentialMovingAverage<V> {

}

impl<V: Scalar> Evaluate for ExponentialMovingAverage<V> {

}

impl<V: Scalar> Current for ExponentialMovingAverage<V> {
    /// The last committed output; equal to what the last `Apply` returned
    /// and stable until the next commit.
    fn current(&self) -> (result: V)
        ensures
            result == self.current,
    {
        self.current
    }
}

} // verus!
