//! The errors of the pipeline.
use vstd::prelude::*;

use crate::text::{decimal, owned, u64_text};

verus! {

/// What can go wrong in a run of the pipeline.
pub enum Error {
    Inference(String),
    Verification { violations: usize, messages: Vec<String> },
    RepairExhausted { attempts: u32 },
    BudgetExceeded(String),
    Memory(String),
    Execution(String),
    Other(String),
}

pub type Result<T> = std::result::Result<T, Error>;

impl Error {
    /// The human-readable text of the error.
    pub open spec fn spec_message(self) -> Seq<char> {
        match self {
            Error::Inference(s) => "inference failed: "@ + s@,
            Error::Verification { violations, .. } => "verification failed: "@ + decimal(
                violations as nat,
            ) + " violations"@,
            Error::RepairExhausted { attempts } => "repair exhausted after "@ + decimal(
                attempts as nat,
            ) + " attempts"@,
            Error::BudgetExceeded(s) => "budget exceeded: "@ + s@,
            Error::Memory(s) => "memory store: "@ + s@,
            Error::Execution(s) => "execution failed: "@ + s@,
            Error::Other(s) => s@,
        }
    }

    /// The human-readable text of the error.
    pub fn message(&self) -> (res: String)
        ensures
            res@ == self.spec_message(),
    {
        match self {
            Error::Inference(s) => {
                let mut r = owned("inference failed: ");
                r.append(s.as_str());
                r
            },
            Error::Verification { violations, .. } => {
                let mut r = owned("verification failed: ");
                let n = u64_text(*violations as u64);
                r.append(n.as_str());
                r.append(" violations");
                r
            },
            Error::RepairExhausted { attempts } => {
                let mut r = owned("repair exhausted after ");
                let n = u64_text(*attempts as u64);
                r.append(n.as_str());
                r.append(" attempts");
                r
            },
            Error::BudgetExceeded(s) => {
                let mut r = owned("budget exceeded: ");
                r.append(s.as_str());
                r
            },
            Error::Memory(s) => {
                let mut r = owned("memory store: ");
                r.append(s.as_str());
                r
            },
            Error::Execution(s) => {
                let mut r = owned("execution failed: ");
                r.append(s.as_str());
                r
            },
            Error::Other(s) => s.clone(),
        }
    }
}

} // verus!
