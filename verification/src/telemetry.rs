//! Telemetry: the spans the pipeline reports and the sink that receives them.
use vstd::prelude::*;

verus! {

/// The stage of the pipeline a span covers.
#[derive(Clone, Copy, Debug, PartialEq, Eq, Structural)]
pub enum SpanKind {
    ProposalGenerate,
    VerifierCheck,
    RepairApply,
    ExecutorDispatch,
}

/// How the stage ended.
#[derive(Debug)]
pub enum SpanStatus {
    Success,
    Error(String),
}

impl Clone for SpanStatus {
    fn clone(&self) -> (res: SpanStatus)
        ensures
            res == *self,
    {
        match self {
            SpanStatus::Success => SpanStatus::Success,
            SpanStatus::Error(message) => SpanStatus::Error(message.clone()),
        }
    }
}

/// The metadata recorded with a span.
#[derive(Clone, Copy, Debug, PartialEq, Eq, Structural)]
pub enum SpanMetadata {
    /// The number of steps proposed or dispatched.
    StepCount(usize),
    /// The outcome of a verification: how many violations, and whether the plan passed.
    Check { violations: usize, passed: bool },
    /// Whether a repair produced a new draft.
    Repair { applied: bool },
}

/// A sink that forwards spans to the `tracing` subscriber.
pub struct TracingSink;

impl TracingSink {
    /// The sink; it holds no state.
    pub fn init() -> (res: TracingSink) {
        TracingSink
    }
}

impl Default for TracingSink {
    fn default() -> (res: TracingSink) {
        TracingSink
    }
}

} // verus!
