//! The settings a run is started with.
use vstd::prelude::*;

use crate::error::Error;
use crate::text::{owned, same_text};

verus! {

/// The command-line and environment settings of the pipeline.
pub struct Config {
    /// `openai` or `ollama`.
    pub provider: String,
    pub api_key: String,
    pub model: String,
    pub max_tokens: u64,
    pub step_timeout_secs: u64,
}

impl Config {
    /// Refuses an OpenAI setup without an API key, before any model is called.
    pub fn validate(&self) -> (res: Result<(), Error>)
        ensures
            (self.provider@ == "openai"@ && self.api_key@.len() == 0) ==> (res matches Err(
                Error::Other(m),
            ) && m@ == "OPENAI_API_KEY must be set when provider is 'openai'"@),
            !(self.provider@ == "openai"@ && self.api_key@.len() == 0) ==> res is Ok,
    {
        if same_text(self.provider.as_str(), "openai") && self.api_key.as_str().is_empty() {
            return Err(Error::Other(owned("OPENAI_API_KEY must be set when provider is 'openai'")));
        }
        Ok(())
    }
}

} // verus!
