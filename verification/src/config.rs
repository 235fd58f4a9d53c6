//! The settings that the relay is run with.

use vstd::prelude::*;

verus! {

/// The settings of a deployment.
#[derive(Debug, PartialEq, Eq)]
pub struct AppConfig {
    /// The provider's name for the model that answers.
    pub llm_to_use: String,
    /// The most tokens that the provider may generate for one answer.
    pub max_tokens: u32,
    /// How many entries a conversation's memory holds.
    pub sliding_window_size: usize,
    /// Where the provider is reached.
    pub client_url: String,
}

/// What is wrong with a configuration.
#[derive(Clone, Copy, Debug, PartialEq, Eq, Structural)]
pub enum ConfigError {
    /// The bound on generated tokens is zero, so no answer could be given.
    NoTokenBudget,
}

impl AppConfig {
    /// Whether the settings can be run with: the bound on generated tokens
    /// is positive.  A memory of no entries is a valid choice.
    pub open spec fn valid(&self) -> bool {
        self.max_tokens > 0
    }

    /// Checks the settings before they are used.
    pub fn validate(&self) -> (checked: Result<(), ConfigError>)
        ensures
            checked is Ok <==> self.valid(),
            checked is Err ==> checked->Err_0 == ConfigError::NoTokenBudget,
    {
        if self.max_tokens == 0 {
            Err(ConfigError::NoTokenBudget)
        } else {
            Ok(())
        }
    }
}

} // verus!
