//! One batch of sampling work.
use vstd::prelude::*;
use vstd::string::*;
use crate::distribution::Distribution;

verus! {

/// A density, the number of candidates to test against it, and the label
/// that accepted candidates get. The density is borrowed, never owned; to
/// mix shapes in one list of tasks, let `D` be a trait object.
pub struct SamplingTask<'a, D: Distribution + ?Sized> {
    label: String,
    num_sampling_attempts: u64,
    distribution: &'a D,
}

impl<'a, D: Distribution + ?Sized> SamplingTask<'a, D> {
    /// The label, as a sequence of characters.
    pub closed spec fn label(&self) -> Seq<char> {
        self.label@
    }

    /// The number of candidates that the task tests. It counts tests, not
    /// acceptances.
    pub closed spec fn attempts(&self) -> u64 {
        self.num_sampling_attempts
    }

    /// The density that candidates are tested against.
    pub closed spec fn distribution(&self) -> &'a D {
        self.distribution
    }

    /// The task that tests `num_sampling_attempts` candidates against
    /// `distribution` and labels the accepted ones `label`.
    pub fn new(distribution: &'a D, num_sampling_attempts: u64, label: &str) -> (r: Self)
        ensures
            r.distribution() == distribution,
            r.attempts() == num_sampling_attempts,
            r.label() == label@,
    {
        SamplingTask { label: String::from_str(label), num_sampling_attempts, distribution }
    }

    /// The density.
    pub fn get_distribution(&self) -> (r: &'a D)
        ensures
            r == self.distribution(),
    {
        self.distribution
    }

    /// The label.
    pub fn get_label(&self) -> (r: &str)
        ensures
            r@ == self.label(),
    {
        self.label.as_str()
    }

    /// The number of candidates to test.
    pub fn get_num_sampling_attempts(&self) -> (r: u64)
        ensures
            r == self.attempts(),
    {
        self.num_sampling_attempts
    }
}

} // verus!
