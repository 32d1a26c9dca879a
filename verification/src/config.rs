//! Configuration of the cam optimiser's parameter search.
use vstd::prelude::*;

verus! {

/// The search grid over cam radius and lift, and the profile types tried.
#[derive(Debug, Clone)]
pub struct SearchGridConfig {
    pub radius_steps: usize,
    pub lift_steps: usize,
    pub profile_types: Vec<String>,
}

} // verus!
