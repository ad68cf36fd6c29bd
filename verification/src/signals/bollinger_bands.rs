use vstd::prelude::*;

use crate::fin_error::{FinError, FinErrorType};
use crate::traits::{Apply, Current, Evaluate, Executable, ExecutionContext, IoState, Scalar};
use crate::window::{seq_after_push, BoundedWindow};

verus! {

/// # Bollinger Bands
/// Container for the Bollinger Bands aggregation.
///
/// Each observation is a `(high, low, close)` triple whose mean — the
/// typical price — is pushed into a bounded window. The output triple is
/// `(mean + std * count, mean, mean - std * count)` over that window, where
/// `std` is its population standard deviation.
pub struct BollingerBands<V> {
    /// The bounded window of typical prices.
    pub typical_price: BoundedWindow<V>,
    /// The multiplier applied to the standard deviation for the outer bands.
    pub std_dev_count: V,
}

impl<V: Scalar> BollingerBands<V> {
    /// The window never outgrows the configured period.
    pub open spec fn well_formed(&self) -> bool {
        self.typical_price.well_formed()
    }

    /// Create a new Bollinger Bands instance.
    ///
    /// # Arguments
    /// * `period` - The period of the aggregation, must be greater than 0.
    /// * `std_dev_count` - The multiplier for the standard deviation bands.
    ///
    /// # Errors
    /// Returns an `InvalidInput` error if and only if the period is 0.
    pub fn new(period: usize, std_dev_count: V) -> (result: Result<Self, FinError>)
        ensures
            result is Err <==> period == 0,
            result is Err ==> result->Err_0.error_type == FinErrorType::InvalidInput
                && result->Err_0.message@ == "Period must be greater than 0"@,
            result is Ok ==> result->Ok_0.typical_price.period == period
                && result->Ok_0.typical_price.values@ == Seq::<V>::empty()
                && result->Ok_0.std_dev_count == std_dev_count,
    {
        match period {
            0 => Err(
                FinError::new(FinErrorType::InvalidInput, "Period must be greater than 0"),
            ),
            _ => Ok(
                Self { typical_price: BoundedWindow::new(period), std_dev_count },
            ),
        }
    }
}

impl<V: Scalar> IoState for BollingerBands<V> {
    /// Input is a tuple of (high, low, close).
    type Input = (V, V, V);

    /// Output is a tuple of (upper band, typical-price mean, lower band).
    type Output = (V, V, V);
}

impl<V: Scalar> Executable for BollingerBands<V> {
    /// Under `Apply`, the typical price of the input joins the window —
    /// evicting the oldest price once full — and the bands are computed over
    /// the new contents. Under `Evaluate`, the same computation runs on a
    /// duplicate of the window and the state is untouched.
    fn execute(&mut self, input: (V, V, V), execution_context: &ExecutionContext) -> (result: (
        V,
        V,
        V,
    ))
        ensures
            *execution_context is Evaluate ==> *final(self) == *old(self),
            *execution_context is Apply ==> final(self).std_dev_count == old(self).std_dev_count
                && final(self).typical_price.period == old(self).typical_price.period
                && (exists|typical: V|
                final(self).typical_price.values@ == seq_after_push(
                    old(self).typical_price.values@,
                    old(self).typical_price.period as nat,
                    typical,
                )),
            old(self).well_formed() ==> final(self).well_formed(),
    {
        let typical_price = input.0.plus(input.1).plus(input.2).divided_by(V::from_count(3));
        let mean: V;
        let std_dev: V;
        match execution_context {
            ExecutionContext::Apply => {
                self.typical_price.push(typical_price);
                mean = self.typical_price.mean();
                std_dev = self.typical_price.standard_deviation();
            },
            ExecutionContext::Evaluate => {
                let mut typical_price_clone = self.typical_price.duplicate();
                typical_price_clone.push(typical_price);
                mean = typical_price_clone.mean();
                std_dev = typical_price_clone.standard_deviation();
            },
        }
        let upper_band = mean.plus(std_dev.times(self.std_dev_count));
        let lower_band = mean.minus(std_dev.times(self.std_dev_count));
        (upper_band, mean, lower_band)
    }
}

impl<V: Scalar> Apply for BollingerBands<V> {

}

impl<V: Scalar> Evaluate for BollingerBands<V> {

}

impl<V: Scalar> Current for BollingerBands<V> {
    /// The bands over the retained typical prices, stable until the next
    /// commit.
    fn current(&self) -> (result: (V, V, V)) {
        let mean = self.typical_price.mean();
        let std_dev = self.typical_price.standard_deviation();
        let upper_band = mean.plus(std_dev.times(self.std_dev_count));
        let lower_band = mean.minus(std_dev.times(self.std_dev_count));
        (upper_band, mean, lower_band)
    }
}

} // verus!
