//! Span handles used by broker flows.

use vstd::prelude::*;

use crate::obs::FlowKind;

verus! {

/// A span builder used by broker flows. Without a tracing backend the span
/// carries only its labels.
#[derive(Clone, Copy, Debug)]
pub struct FlowSpan {
    /// Flow kind the span is tagged with.
    pub kind: FlowKind,
    /// Call-site stage label.
    pub stage: &'static str,
}

/// RAII guard returned by [`FlowSpan::entered`].
#[derive(Clone, Copy, Debug)]
pub struct FlowSpanGuard {
    /// The span the guard belongs to.
    pub span: FlowSpan,
}

impl FlowSpan {
    /// Creates a new span tagged with the provided flow kind + stage.
    pub fn new(kind: FlowKind, stage: &'static str) -> (r: Self)
        ensures
            r.kind == kind,
            r.stage@ == stage@,
    {
        FlowSpan { kind, stage }
    }

    /// Enters the span for synchronous sections.
    pub fn entered(self) -> (r: FlowSpanGuard)
        ensures
            r.span == self,
    {
        FlowSpanGuard { span: self }
    }

    /// Passes a flow value through the span unchanged.
    pub fn instrument<T>(&self, fut: T) -> (r: T)
        ensures
            r == fut,
    {
        fut
    }
}

} // verus!
