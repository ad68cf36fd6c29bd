use std::collections::VecDeque;
use vstd::prelude::*;

use crate::traits::Scalar;

verus! {

/// The contents of a window of capacity `period` after an observation is
/// pushed: the value is appended at the tail and, if the window has outgrown
/// its capacity, the oldest element is evicted from the head.
pub open spec fn seq_after_push<V>(contents: Seq<V>, period: nat, value: V) -> Seq<V> {
    let grown = contents.push(value);
    if grown.len() > period {
        grown.subrange(1, grown.len() as int)
    } else {
        grown
    }
}

/// The window contents after committing `inputs`, oldest first, into an
/// empty window of capacity `period`.
pub open spec fn contents_after_pushes<V>(inputs: Seq<V>, period: nat) -> Seq<V>
    decreases inputs.len(),
{
    if inputs.len() == 0 {
        Seq::empty()
    } else {
        seq_after_push(contents_after_pushes(inputs.drop_last(), period), period, inputs.last())
    }
}

/// The FIFO law behind every window-based signal: after any run of commits
/// into an initially empty window, the window holds exactly the most recent
/// `min(n, period)` observations, in order — so in particular its length
/// never exceeds the period.
pub proof fn lemma_window_holds_most_recent<V>(inputs: Seq<V>, period: nat)
    requires
        period >= 1,
    ensures
        contents_after_pushes(inputs, period) == inputs.subrange(
            if inputs.len() <= period {
                0
            } else {
                (inputs.len() - period) as int
            },
            inputs.len() as int,
        ),
    decreases inputs.len(),
{
    let n = inputs.len() as int;
    if n == 0 {
        assert(contents_after_pushes(inputs, period) =~= inputs.subrange(0, 0));
    } else {
        let head = inputs.drop_last();
        lemma_window_holds_most_recent(head, period);
        let previous = contents_after_pushes(head, period);
        let grown = previous.push(inputs.last());
        if n - 1 < period {
            assert(grown =~= inputs.subrange(0, n));
            assert(contents_after_pushes(inputs, period) == grown);
        } else {
            assert(previous =~= head.subrange(n - 1 - period, n - 1));
            assert(grown.len() == period + 1);
            assert(contents_after_pushes(inputs, period) =~= inputs.subrange(n - period, n));
        }
    }
}

/// A fixed-capacity FIFO of observations, the foundation for all
/// window-based signals. Insertion appends to the tail; once the length
/// would exceed `period`, the head is evicted.
pub struct BoundedWindow<V> {
    /// The capacity of the window.
    pub period: usize,
    /// The retained observations, oldest first.
    pub values: VecDeque<V>,
}

impl<V: Scalar> BoundedWindow<V> {
    /// The window invariant: the length never exceeds the capacity.
    pub open spec fn well_formed(&self) -> bool {
        self.values@.len() <= self.period
    }

    /// An empty window of capacity `period`.
    pub fn new(period: usize) -> (window: Self)
        ensures
            window.period == period,
            window.values@ == Seq::<V>::empty(),
    {
        BoundedWindow { period, values: VecDeque::new() }
    }

    /// The number of retained observations.
    pub fn len(&self) -> (length: usize)
        ensures
            length == self.values@.len(),
    {
        self.values.len()
    }

    /// Appends `value`; if the length now exceeds the capacity, evicts the
    /// oldest observation.
    pub fn push(&mut self, value: V)
        ensures
            final(self).period == old(self).period,
            final(self).values@ == seq_after_push(
                old(self).values@,
                old(self).period as nat,
                value,
            ),
            old(self).well_formed() ==> final(self).well_formed(),
    {
        self.values.push_back(value);
        if self.values.len() > self.period {
            self.values.pop_front();
        }
    }

    /// A copy of the window that shares no storage with `self`.
    pub fn duplicate(&self) -> (copy: Self)
        ensures
            copy.period == self.period,
            copy.values@ == self.values@,
    {
        let mut values: VecDeque<V> = VecDeque::new();
        let mut i: usize = 0;
        while i < self.values.len()
            invariant
                i <= self.values@.len(),
                values@ == self.values@.subrange(0, i as int),
            decreases self.values@.len() - i,
        {
            values.push_back(self.values[i]);
            proof {
                assert(values@ =~= self.values@.subrange(0, i + 1));
            }
            i = i + 1;
        }
        proof {
            assert(values@ =~= self.values@);
        }
        BoundedWindow { period: self.period, values }
    }

    /// The sum of the current contents, folded oldest first from zero.
    fn sum(&self) -> V {
        let mut total = V::from_count(0);
        let mut i: usize = 0;
        while i < self.values.len()
            invariant
                i <= self.values@.len(),
            decreases self.values@.len() - i,
        {
            total = total.plus(self.values[i]);
            i = i + 1;
        }
        total
    }

    /// The arithmetic mean of the current contents; zero when the window is
    /// empty (a deliberate zero default, not an error).
    pub fn mean(&self) -> V {
        if self.values.len() == 0 {
            return V::from_count(0);
        }
        self.sum().divided_by(V::from_count(self.values.len()))
    }

    /// The population variance of the current contents (divide by count, not
    /// count − 1) relative to the current mean. Unlike `mean`, an empty
    /// window is not special-cased.
    pub fn variance(&self) -> V {
        let mean = self.sum().divided_by(V::from_count(self.values.len()));
        let mut total = V::from_count(0);
        let mut i: usize = 0;
        while i < self.values.len()
            invariant
                i <= self.values@.len(),
            decreases self.values@.len() - i,
        {
            let deviation = self.values[i].minus(mean);
            total = total.plus(deviation.times(deviation));
            i = i + 1;
        }
        total.divided_by(V::from_count(self.values.len()))
    }

    /// The square root of the population variance.
    pub fn standard_deviation(&self) -> V {
        self.variance().square_root()
    }

    /// The largest of the current contents, folded from the identity of
    /// `maximum`; on an empty window, that identity itself.
    pub fn max(&self) -> V {
        let mut extreme = V::smallest();
        let mut i: usize = 0;
        while i < self.values.len()
            invariant
                i <= self.values@.len(),
            decreases self.values@.len() - i,
        {
            extreme = extreme.maximum(self.values[i]);
            i = i + 1;
        }
        extreme
    }

    /// The smallest of the current contents, folded from the identity of
    /// `minimum`; on an empty window, that identity itself.
    pub fn min(&self) -> V {
        let mut extreme = V::largest();
        let mut i: usize = 0;
        while i < self.values.len()
            invariant
                i <= self.values@.len(),
            decreases self.values@.len() - i,
        {
            extreme = extreme.minimum(self.values[i]);
            i = i + 1;
        }
        extreme
    }
}

} // verus!
