use vstd::prelude::*;

verus! {

/// Context enum deciding whether to apply or evaluate the signal.
pub enum ExecutionContext {
    /// The next value will be calculated and the current input will be
    /// committed into the aggregation.
    Apply,
    /// The next value will be calculated but the current input will not be
    /// committed into the aggregation.
    Evaluate,
}

/// The scalar arithmetic that the signals aggregate over.
///
/// The signals never interpret the numeric operations: every contract in this
/// crate speaks only about which operations run, which state is stored, and
/// which state is left untouched. A caller binds the operations to a concrete
/// numeric type outside the verified core.
pub trait Scalar: Copy {
    /// Addition.
    fn plus(self, other: Self) -> Self;

    /// Subtraction, `self - other`.
    fn minus(self, other: Self) -> Self;

    /// Multiplication.
    fn times(self, other: Self) -> Self;

    /// Division, `self / other`.
    fn divided_by(self, other: Self) -> Self;

    /// The square root of `self`.
    fn square_root(self) -> Self;

    /// The larger of the two values.
    fn maximum(self, other: Self) -> Self;

    /// The smaller of the two values.
    fn minimum(self, other: Self) -> Self;

    /// Whether the two values are equal.
    fn equals(self, other: Self) -> bool;

    /// Whether `self` is strictly greater than `other`.
    fn exceeds(self, other: Self) -> bool;

    /// The scalar standing for the whole number `count`.
    fn from_count(count: usize) -> Self;

    /// The identity of `maximum`: a value no other value is smaller than.
    fn smallest() -> Self;

    /// The identity of `minimum`: a value no other value is larger than.
    fn largest() -> Self;
}

/// A trait that specifies the input and output types of all signals; this
/// generalises the trait definitions below, allowing for a more flexible and
/// generic approach.
pub trait IoState {
    /// The input type of the signal.
    type Input;

    /// The output type of the signal.
    type Output;
}

/// A trait for objects that can be executed, either peeking at the
/// prospective result or committing the value into the aggregation and
/// returning the result.
pub trait Executable: IoState + Sized {
    /// Whether an `Evaluate` call is guaranteed to leave this state
    /// untouched. Every signal answers `true` in every state it reaches,
    /// except the Relative Strength Index before its first observation.
    open spec fn peek_stable(&self) -> bool {
        true
    }

    /// Executes the signal and returns the result, committing the input into
    /// the aggregation as described by the `ExecutionContext`.
    ///
    /// The no-mutation law every signal obeys: under `Evaluate`, in every
    /// `peek_stable` state, the entire internal state — including state
    /// nested inside composite signals — is left exactly as it was, so any
    /// later sequence of calls behaves as if the `Evaluate` call had never
    /// been issued.
    fn execute(
        &mut self,
        input: Self::Input,
        execution_context: &ExecutionContext,
    ) -> (result: Self::Output)
        ensures
            *execution_context is Evaluate && old(self).peek_stable() ==> *final(self) == *old(
                self,
            ),
    ;
}

/// Commits the input into the aggregation and returns the result.
pub trait Apply: Executable {
    /// Commits the input into the aggregation and returns the result.
    fn apply(&mut self, input: Self::Input) -> Self::Output {
        self.execute(input, &ExecutionContext::Apply)
    }
}

/// Evaluates the input and returns the result without committing the value
/// into the aggregation.
pub trait Evaluate: Executable {
    /// Evaluates the input and returns the result without committing the
    /// value into the aggregation.
    fn evaluate(&mut self, input: Self::Input) -> (result: Self::Output)
        ensures
            old(self).peek_stable() ==> *final(self) == *old(self),
    {
        self.execute(input, &ExecutionContext::Evaluate)
    }
}

/// Returns the current value of the aggregation.
pub trait Current: IoState {
    /// Returns the current value of the aggregation.
    fn current(&self) -> Self::Output;
}

} // verus!
