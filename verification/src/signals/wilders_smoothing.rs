use vstd::prelude::*;

use crate::fin_error::{FinError, FinErrorType};
use crate::traits::{Apply, Current, Evaluate, Executable, ExecutionContext, IoState, Scalar};

verus! {

/// The seeded Wilders recurrence: `(previous * (period - 1) + input) / period`,
/// the decrement taken in scalar arithmetic.
fn calculate_wilders<V: Scalar>(input: V, previous: V, period: usize) -> V {
    previous.times(V::from_count(period).minus(V::from_count(1))).plus(input).divided_by(
        V::from_count(period),
    )
}

/// # Wilders Smoothing
/// Container for the Wilders Smoothing aggregation.
///
/// The aggregation runs in two regimes. While seeding (`seed_count <
/// period`) the output is absent and each commit accumulates a running sum;
/// once seeded, each output smooths the input against the previous output,
/// and the first seeded output is the arithmetic mean of the first `period`
/// inputs.
pub struct WildersSmoothing<V> {
    /// The period of the aggregation.
    pub period: usize,
    /// The running sum while seeding; the last committed output once seeded.
    pub current: V,
    /// The basis of the next smoothed output.
    pub previous: V,
    /// How many observations the next commit would be, starting from 1.
    pub seed_count: usize,
}

impl<V: Scalar> WildersSmoothing<V> {
    /// The seed counter starts at 1 and never passes the period.
    pub open spec fn well_formed(&self) -> bool {
        1 <= self.seed_count <= self.period
    }

    /// Create a new Wilders Smoothing instance.
    ///
    /// # Arguments
    /// * `period` - The period of the aggregation, must be greater than 0.
    ///
    /// # Errors
    /// Returns an `InvalidInput` error if and only if the period is 0.
    pub fn new(period: usize) -> (result: Result<Self, FinError>)
        ensures
            result is Err <==> period == 0,
            result is Err ==> result->Err_0.error_type == FinErrorType::InvalidInput
                && result->Err_0.message@ == "Period must be greater than 0"@,
            result is Ok ==> result->Ok_0.period == period && result->Ok_0.seed_count == 1
                && result->Ok_0.well_formed(),
    {
        match period {
            0 => Err(
                FinError::new(FinErrorType::InvalidInput, "Period must be greater than 0"),
            ),
            _ => Ok(
                Self {
                    period,
                    previous: V::from_count(0),
                    current: V::from_count(0),
                    seed_count: 1,
                },
            ),
        }
    }
}

impl<V: Scalar> IoState for WildersSmoothing<V> {
    type Input = V;

    type Output = Option<V>;
}

impl<V: Scalar> Executable for WildersSmoothing<V> {
    /// The output is present exactly when the aggregation was already
    /// seeded. A seeding commit advances the seed counter by one; a seeded
    /// commit stores the smoothed output in both `current` and `previous`
    /// and returns it. `Evaluate` never changes any field.
    fn execute(&mut self, input: V, execution_context: &ExecutionContext) -> (result: Option<V>)
        ensures
            *execution_context is Evaluate ==> *final(self) == *old(self),
            result is Some <==> old(self).seed_count >= old(self).period,
            *execution_context is Apply && old(self).seed_count < old(self).period
                ==> final(self).period == old(self).period
                && final(self).seed_count == old(self).seed_count + 1,
            *execution_context is Apply && old(self).seed_count >= old(self).period
                ==> final(self).period == old(self).period
                && final(self).seed_count == old(self).seed_count
                && result == Some(final(self).current)
                && final(self).previous == final(self).current,
            old(self).well_formed() ==> final(self).well_formed(),
    {
        match execution_context {
            ExecutionContext::Apply => {
                if self.seed_count < self.period {
                    self.current = self.current.plus(input);
                    self.previous = self.current.divided_by(V::from_count(self.seed_count));
                    self.seed_count = self.seed_count + 1;
                    None
                } else {
                    self.current = calculate_wilders(input, self.previous, self.period);
                    self.previous = self.current;
                    Some(self.current)
                }
            },
            ExecutionContext::Evaluate => {
                if self.seed_count < self.period {
                    None
                } else {
                    let current = calculate_wilders(input, self.previous, self.period);
                    Some(current)
                }
            },
        }
    }
}

impl<V: Scalar> Apply for WildersSmoothing<V> {

}

impl<V: Scalar> Evaluate for WildersSmoothing<V> {

}

impl<V: Scalar> Current for WildersSmoothing<V> {
    /// Absent while seeding; once seeded, the last committed smoothed value,
    /// stable until the next commit.
    fn current(&self) -> (result: Option<V>)
        ensures
            result is Some <==> self.seed_count >= self.period,
            self.seed_count >= self.period ==> result == Some(self.current),
    {
        if self.seed_count < self.period {
            None
        } else {
            Some(self.current)
        }
    }
}

} // verus!
