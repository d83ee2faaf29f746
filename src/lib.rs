//! A bounded fan-out / fan-in harvester for a three-stage comic catalogue API.
//!
//! The library holds the decisions of a run: the records it collects, the
//! request bodies it sends, the admission gate that bounds in-flight detail
//! fetches, the aggregator, and the orchestrator as a state machine. The
//! program around it performs the network calls and feeds the outcomes back.
use vstd::prelude::*;

pub mod aggregate;
pub mod gate;
pub mod harvest;
pub mod record;
pub mod wire;

verus! {

} // verus!
