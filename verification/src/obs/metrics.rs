//! Counter hook for flow outcomes.

use vstd::prelude::*;

use crate::obs::{FlowKind, FlowOutcome};

verus! {

/// Records a flow outcome. With no metrics backend attached this is a
/// no-op; the labels passed here are the stable interface.
pub fn record_flow_outcome(kind: FlowKind, outcome: FlowOutcome) {
    let _ = kind;
    let _ = outcome;
}

} // verus!
