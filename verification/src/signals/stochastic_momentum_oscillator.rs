use vstd::prelude::*;

use crate::fin_error::FinError;
use crate::signals::maximum_period::MaximumPeriod;
use crate::signals::minimum_period::MinimumPeriod;
use crate::traits::{Apply, Current, Evaluate, Executable, ExecutionContext, IoState, Scalar};
use crate::window::seq_after_push;

verus! {

/// # Stochastic Momentum Oscillator
/// Container for the Stochastic Momentum Oscillator aggregation.
///
/// Each observation is a `(high, low, close)` triple. The highs feed a
/// Maximum-over-Period tracker and the lows a Minimum-over-Period tracker,
/// both executed under the caller's mode; the output places the close within
/// the tracked range as `100 * (close - min) / (max - min)`, or 50 when the
/// range is flat (the midpoint fallback that avoids dividing by zero).
pub struct StochasticMomentumOscillator<V> {
    /// The Maximum-over-Period tracker fed with the high values.
    pub high: MaximumPeriod<V>,
    /// The Minimum-over-Period tracker fed with the low values.
    pub low: MinimumPeriod<V>,
    /// The last committed output, initially the midpoint.
    pub current: V,
}

impl<V: Scalar> StochasticMomentumOscillator<V> {
    /// Neither tracker's window outgrows the configured period.
    pub open spec fn well_formed(&self) -> bool {
        self.high.well_formed() && self.low.well_formed()
    }

    /// Create a new Stochastic Momentum Oscillator instance.
    ///
    /// # Arguments
    /// * `period` - The period of both trackers, must be greater than 0.
    ///
    /// # Errors
    /// Returns an `InvalidInput` error if and only if the period is 0.
    pub fn new(period: usize) -> (result: Result<Self, FinError>)
        ensures
            result is Err <==> period == 0,
            result is Err ==> result->Err_0.error_type
                == crate::fin_error::FinErrorType::InvalidInput && result->Err_0.message@
                == "Period must be greater than 0"@,
            result is Ok ==> result->Ok_0.high.window.period == period
                && result->Ok_0.high.window.values@ == Seq::<V>::empty()
                && result->Ok_0.low.window.period == period && result->Ok_0.low.window.values@
                == Seq::<V>::empty(),
    {
        Ok(
            Self {
                high: MaximumPeriod::new(period)?,
                low: MinimumPeriod::new(period)?,
                current: V::from_count(50),
            },
        )
    }
}

impl<V: Scalar> IoState for StochasticMomentumOscillator<V> {
    /// Input is a tuple of (high, low, close).
    type Input = (V, V, V);

    type Output = V;
}

impl<V: Scalar> Executable for StochasticMomentumOscillator<V> {
    /// Both trackers are executed under the caller's mode with the high and
    /// low of the input. Under `Apply`, each window gains its value —
    /// evicting the oldest once full — and the result is stored in `current`
    /// and returned; under `Evaluate`, nothing changes.
    fn execute(&mut self, input: (V, V, V), execution_context: &ExecutionContext) -> (result: V)
        ensures
            *execution_context is Evaluate ==> *final(self) == *old(self),
            *execution_context is Apply ==> result == final(self).current
                && final(self).high.window.period == old(self).high.window.period
                && final(self).high.window.values@ == seq_after_push(
                old(self).high.window.values@,
                old(self).high.window.period as nat,
                input.0,
            ) && final(self).low.window.period == old(self).low.window.period
                && final(self).low.window.values@ == seq_after_push(
                old(self).low.window.values@,
                old(self).low.window.period as nat,
                input.1,
            ),
            old(self).well_formed() ==> final(self).well_formed(),
    {
        let (high_i, low_i, close_i) = input;
        match execution_context {
            ExecutionContext::Apply => {
                let high = self.high.execute(high_i, execution_context);
                let low = self.low.execute(low_i, execution_context);
                if high.equals(low) {
                    self.current = V::from_count(50);
                } else {
                    self.current = V::from_count(100).times(close_i.minus(low)).divided_by(
                        high.minus(low),
                    );
                }
                self.current
            },
            ExecutionContext::Evaluate => {
                let high = self.high.execute(high_i, execution_context);
                let low = self.low.execute(low_i, execution_context);
                if high.equals(low) {
                    V::from_count(50)
                } else {
                    V::from_count(100).times(close_i.minus(low)).divided_by(high.minus(low))
                }
            },
        }
    }
}

impl<V: Scalar> Apply for StochasticMomentumOscillator<V> {

}

impl<V: Scalar> Evaluate for StochasticMomentumOscillator<V> {

}

impl<V: Scalar> Current for StochasticMomentumOscillator<V> {
    /// The last committed output — the midpoint before the first commit —
    /// stable until the next commit.
    fn current(&self) -> (result: V)
        ensures
            result == self.current,
    {
        self.current
    }
}

} // verus!
