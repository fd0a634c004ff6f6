use vstd::prelude::*;
use crate::tensor::Tensor;

verus! {

/// A set of examples: their features and their labels.
pub struct FeaturesAndLabels<T> {
    features: Tensor<T>,
    labels: Tensor<T>,
}

impl<T: Copy> FeaturesAndLabels<T> {
    /// The features.
    pub closed spec fn spec_features(&self) -> Tensor<T> {
        self.features
    }

    /// The labels.
    pub closed spec fn spec_labels(&self) -> Tensor<T> {
        self.labels
    }

    /// Pairs `features` with `labels`.
    pub fn new(features: Tensor<T>, labels: Tensor<T>) -> (r: Self)
        ensures
            r.spec_features() == features,
            r.spec_labels() == labels,
    {
        FeaturesAndLabels { features, labels }
    }
}

} // verus!
