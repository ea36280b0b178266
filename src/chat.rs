//! Failures of the channels between the orchestrator and its agents.
use vstd::prelude::*;

pub mod error;

verus! {

} // verus!
