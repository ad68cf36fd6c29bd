use vstd::prelude::*;

use crate::fin_error::{FinError, FinErrorType};
use crate::signals::exponential_moving_average::ExponentialMovingAverage;
use crate::traits::{Apply, Current, Evaluate, Executable, ExecutionContext, IoState, Scalar};

verus! {

/// # Moving Average Convergence/Divergence
/// Container for the Moving Average Convergence/Divergence (MACD)
/// aggregation: the difference between a short-period and a long-period
/// Exponential Moving Average fed with the same observations.
///
/// Both internal averages are executed under the same mode as the caller
/// requested, so a peek leaves both untouched.
pub struct MovingAverageConvergenceDivergence<V> {
    /// The short-period Exponential Moving Average.
    pub short_ema: ExponentialMovingAverage<V>,
    /// The long-period Exponential Moving Average.
    pub long_ema: ExponentialMovingAverage<V>,
}

impl<V: Scalar> MovingAverageConvergenceDivergence<V> {
    /// Create a new Moving Average Convergence/Divergence (MACD) instance.
    ///
    /// # Arguments
    /// * `short_period` - The period for the short Exponential Moving Average.
    /// * `long_period` - The period for the long Exponential Moving Average.
    ///
    /// Both periods must be greater than 0; there is no requirement for the
    /// short period to be less than the long period.
    ///
    /// # Errors
    /// Returns an `InvalidInput` error if and only if either period is 0.
    pub fn new(short_period: usize, long_period: usize) -> (result: Result<Self, FinError>)
        requires
            short_period < usize::MAX,
            long_period < usize::MAX,
        ensures
            result is Err <==> short_period == 0 || long_period == 0,
            result is Err ==> result->Err_0.error_type == FinErrorType::InvalidInput
                && result->Err_0.message@ == "Periods must be greater than 0"@,
            result is Ok ==> result->Ok_0.short_ema.is_new && result->Ok_0.long_ema.is_new,
    {
        match (short_period, long_period) {
            (0, _) | (_, 0) => Err(
                FinError::new(FinErrorType::InvalidInput, "Periods must be greater than 0"),
            ),
            _ => Ok(
                Self {
                    short_ema: ExponentialMovingAverage::new(short_period)?,
                    long_ema: ExponentialMovingAverage::new(long_period)?,
                },
            ),
        }
    }
}

impl<V: Scalar> IoState for MovingAverageConvergenceDivergence<V> {
    type Input = V;

    type Output = V;
}

impl<V: Scalar> Executable for MovingAverageConvergenceDivergence<V> {
    /// Both internal averages are executed under the caller's mode and the
    /// output is the short output minus the long output. Under `Evaluate`,
    /// neither average changes.
    fn execute(&mut self, input: V, execution_context: &ExecutionContext) -> (result: V)
        ensures
            *execution_context is Evaluate ==> *final(self) == *old(self),
            *execution_context is Apply ==> !final(self).short_ema.is_new
                && !final(self).long_ema.is_new
                && final(self).short_ema.k == old(self).short_ema.k
                && final(self).long_ema.k == old(self).long_ema.k,
    {
        let short_ema = self.short_ema.execute(input, execution_context);
        let long_ema = self.long_ema.execute(input, execution_context);
        short_ema.minus(long_ema)
    }
}

impl<V: Scalar> Apply for MovingAverageConvergenceDivergence<V> {

}

impl<V: Scalar> Evaluate for MovingAverageConvergenceDivergence<V> {

}

impl<V: Scalar> Current for MovingAverageConvergenceDivergence<V> {
    /// The short average's current value minus the long average's current
    /// value, stable until the next commit.
    fn current(&self) -> (result: V) {
        self.short_ema.current().minus(self.long_ema.current())
    }
}

} // verus!
