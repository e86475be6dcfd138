//! Physical quantities: the decisions behind choosing a readable display
//! unit for a magnitude and writing it out.

use vstd::prelude::*;

pub mod display;

verus! {

} // verus!
