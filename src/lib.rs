use vstd::prelude::*;

pub mod outcome;
pub mod probabilities;
pub mod data;

verus! {

} // verus!
