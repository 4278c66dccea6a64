use vstd::prelude::*;

use crate::pass::SamplerRef;

verus! {

#[derive(Debug, Clone, Copy, PartialEq, Eq, Structural)]
pub enum FilterMode {
    Nearest,
    Linear,
}

/// How a sampler filters when magnifying and minifying.
#[derive(Debug, Clone, Copy, PartialEq, Eq)]
pub struct SamplerDescriptor {
    pub label: &'static str,
    pub mag_filter: FilterMode,
    pub min_filter: FilterMode,
}

impl SamplerDescriptor {
    pub open spec fn spec_is_bilinear(self) -> bool {
        self.mag_filter == FilterMode::Linear && self.min_filter == FilterMode::Linear
    }

    /// A sampler that filters linearly both ways.
    pub fn bilinear(label: &'static str) -> (r: SamplerDescriptor)
        ensures
            r.label == label,
            r.spec_is_bilinear(),
    {
        SamplerDescriptor { label, mag_filter: FilterMode::Linear, min_filter: FilterMode::Linear }
    }

    pub open spec fn spec_ref(self) -> SamplerRef {
        SamplerRef { label: self.label }
    }

    /// Refers to the sampler this descriptor creates.
    pub fn as_ref(&self) -> (r: SamplerRef)
        ensures
            r == self.spec_ref(),
    {
        SamplerRef { label: self.label }
    }
}

/// The samplers shared by the post-processing passes.
#[derive(Debug, Clone, Copy, PartialEq, Eq)]
pub struct Samplers {
    pub bilinear: SamplerDescriptor,
}

impl Samplers {
    pub fn new() -> (r: Samplers)
        ensures
            r.bilinear.spec_is_bilinear(),
            r.bilinear.label == "Bilinear Sampler",
    {
        Samplers { bilinear: SamplerDescriptor::bilinear("Bilinear Sampler") }
    }
}

} // verus!
