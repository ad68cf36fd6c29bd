use vstd::prelude::*;

use crate::fin_error::{FinError, FinErrorType};
use crate::signals::wilders_smoothing::WildersSmoothing;
use crate::traits::{Apply, Current, Evaluate, Executable, ExecutionContext, IoState, Scalar};

verus! {

/// Splits the change from `previous` to `input` into an upward and a
/// downward component, the inactive side being zero.
fn up_down<V: Scalar>(input: V, previous: V) -> (V, V) {
    match input.exceeds(previous) {
        true => (input.minus(previous), V::from_count(0)),
        false => (V::from_count(0), previous.minus(input)),
    }
}

/// # Relative Strength Index
/// Container for the Relative Strength Index (RSI) aggregation.
///
/// Two Wilders Smoothing aggregations track the average upward and downward
/// change between consecutive observations. The output is absent until
/// `period + seed_period` observations have been committed; once seeded it is
/// `100 - 100 / (1 + up / down)`, or 100 when the downward average is exactly
/// zero (no losses reads as maximal strength, avoiding a division by zero).
///
/// The state machine: before the first observation the signal only records
/// it — on the first call even a peek stores the observation and counts it.
/// While seeding, both smoothings are fed under the caller's mode and only a
/// commit advances the counter; once the counter reaches the threshold the
/// signal is seeded for good.
pub struct RelativeStrengthIndex<V> {
    /// The period of the RSI, used for the Wilders Smoothing aggregations.
    pub period: usize,
    /// The seeding threshold: the configured period plus the extra seeding
    /// observations asked for at construction. No value is produced until
    /// this many observations have been committed.
    pub seed_period: usize,
    /// The Wilders Smoothing aggregation for the upward change.
    pub up_ws: WildersSmoothing<V>,
    /// The Wilders Smoothing aggregation for the downward change.
    pub down_ws: WildersSmoothing<V>,
    /// Whether the RSI has been seeded.
    pub is_seeded: bool,
    /// The number of observations that have been committed while seeding.
    pub seed_values: usize,
    /// The previously committed observation, absent before the first call.
    pub previous: Option<V>,
}

impl<V: Scalar> RelativeStrengthIndex<V> {
    /// The coupling between the counter, the flag and the two smoothings
    /// that every state reachable from the constructor satisfies.
    pub open spec fn well_formed(&self) -> bool {
        &&& 1 <= self.period
        &&& self.period <= self.seed_period
        &&& self.up_ws.period == self.period
        &&& self.down_ws.period == self.period
        &&& self.up_ws.well_formed()
        &&& self.down_ws.well_formed()
        &&& self.down_ws.seed_count == self.up_ws.seed_count
        &&& (self.previous is None ==> self.seed_values == 0 && !self.is_seeded
            && self.up_ws.seed_count == 1)
        &&& (self.previous is Some && !self.is_seeded ==> self.up_ws.seed_count == (
        if self.seed_values < self.period {
            self.seed_values
        } else {
            self.period
        }))
        &&& (self.is_seeded ==> self.previous is Some && self.up_ws.seed_count == self.period)
    }

    /// Creates a new Relative Strength Index instance.
    ///
    /// # Arguments
    /// * `period` - The period of the RSI, must be greater than 0.
    /// * `seed_period` - How many observations beyond the period must be
    ///   committed before the RSI produces values.
    ///
    /// # Errors
    /// Returns an `InvalidInput` error if and only if the period is 0.
    pub fn new(period: usize, seed_period: usize) -> (result: Result<Self, FinError>)
        requires
            period + seed_period <= usize::MAX,
        ensures
            result is Err <==> period == 0,
            result is Err ==> result->Err_0.error_type == FinErrorType::InvalidInput
                && result->Err_0.message@ == "Period must be greater than 0"@,
            result is Ok ==> result->Ok_0.well_formed() && result->Ok_0.period == period
                && result->Ok_0.seed_period == period + seed_period && result->Ok_0.seed_values
                == 0 && !result->Ok_0.is_seeded && result->Ok_0.previous is None,
    {
        match period {
            0 => Err(
                FinError::new(FinErrorType::InvalidInput, "Period must be greater than 0"),
            ),
            _ => Ok(
                Self {
                    period,
                    seed_period: period + seed_period,
                    up_ws: WildersSmoothing::new(period)?,
                    down_ws: WildersSmoothing::new(period)?,
                    is_seeded: false,
                    seed_values: 0,
                    previous: None,
                },
            ),
        }
    }
}

impl<V: Scalar> IoState for RelativeStrengthIndex<V> {
    type Input = V;

    type Output = Option<V>;
}

impl<V: Scalar> Executable for RelativeStrengthIndex<V> {
    /// The one state a peek does not preserve: before the first observation,
    /// any call — `Apply` or `Evaluate` — records the input and counts it.
    open spec fn peek_stable(&self) -> bool {
        self.previous is Some
    }

    /// The output is present exactly when the signal was already seeded and
    /// past its first observation. The first call only records the input; a
    /// seeding commit counts the input, stores it as `previous`, and seeds
    /// the signal once the counter reaches the threshold; a seeded call
    /// computes the index, and a seeded commit stores the input as
    /// `previous` unless the downward average was exactly zero.
    fn execute(&mut self, input: V, execution_context: &ExecutionContext) -> (result: Option<V>)
        ensures
            final(self).period == old(self).period && final(self).seed_period == old(self).seed_period,
            old(self).well_formed() ==> final(self).well_formed(),
            old(self).well_formed() ==> (result is Some <==> old(self).previous is Some && old(self).is_seeded),
            old(self).previous is None ==> result is None && final(self).previous == Some(input)
                && final(self).is_seeded == old(self).is_seeded && final(self).up_ws == old(self).up_ws && final(self).down_ws == old(self).down_ws,
            old(self).previous is None && old(self).seed_values < usize::MAX ==> final(self).seed_values == old(self).seed_values + 1,
            *execution_context is Apply && old(self).previous is Some && !old(self).is_seeded
                && old(self).seed_values < usize::MAX ==> final(self).previous == Some(input)
                && final(self).seed_values == old(self).seed_values + 1 && (final(self).is_seeded
                <==> old(self).seed_values + 1 == old(self).seed_period),
            *execution_context is Apply && old(self).previous is Some && old(self).is_seeded
                ==> final(self).is_seeded && final(self).seed_values == old(self).seed_values && (
            final(self).previous == Some(input) || final(self).previous == old(self).previous),
    {
        let previous = match self.previous {
            None => {
                self.previous = Some(input);
                self.seed_values = self.seed_values.saturating_add(1);
                return None;
            },
            Some(previous) => previous,
        };
        let (up, down) = up_down(input, previous);
        let up_ws = self.up_ws.execute(up, execution_context);
        let down_ws = self.down_ws.execute(down, execution_context);
        if !self.is_seeded {
            match execution_context {
                ExecutionContext::Apply => {
                    self.seed_values = self.seed_values.saturating_add(1);
                    if self.seed_values == self.seed_period {
                        self.is_seeded = true;
                    }
                    self.previous = Some(input);
                },
                ExecutionContext::Evaluate => {},
            }
            return None;
        }
        if let Some(down_value) = down_ws {
            if down_value.equals(V::from_count(0)) {
                return Some(V::from_count(100));
            }
        }
        match (up_ws, down_ws) {
            (Some(up_value), Some(down_value)) => {
                let rs = up_value.divided_by(down_value);
                let rsi = V::from_count(100).minus(
                    V::from_count(100).divided_by(V::from_count(1).plus(rs)),
                );
                match execution_context {
                    ExecutionContext::Apply => {
                        self.previous = Some(input);
                    },
                    ExecutionContext::Evaluate => {},
                }
                Some(rsi)
            },
            _ => None,
        }
    }
}

impl<V: Scalar> Apply for RelativeStrengthIndex<V> {

}

impl<V: Scalar> Evaluate for RelativeStrengthIndex<V> {

}

impl<V: Scalar> Current for RelativeStrengthIndex<V> {
    /// Absent until the signal is seeded; afterwards the index recomputed
    /// from the two smoothings' own current values, stable until the next
    /// commit.
    fn current(&self) -> (result: Option<V>)
        ensures
            self.well_formed() ==> (result is Some <==> self.is_seeded),
    {
        if self.is_seeded {
            match (self.up_ws.current(), self.down_ws.current()) {
                (Some(up_value), Some(down_value)) => {
                    let rs = up_value.divided_by(down_value);
                    let rsi = V::from_count(100).minus(
                        V::from_count(100).divided_by(V::from_count(1).plus(rs)),
                    );
                    Some(rsi)
                },
                _ => None,
            }
        } else {
            None
        }
    }
}

} // verus!
