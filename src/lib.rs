//! Observation of the reads and writes of a few sensitive programs: the filter on
//! command names, the fixed-layout event, the bounded store that carries a read's
//! destination buffer from its entry probe to its return probe, and the decisions that
//! the probes take.
use vstd::prelude::*;

pub mod event;
pub mod filter;
pub mod probes;
pub mod store;

verus! {

} // verus!
