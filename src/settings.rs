use vstd::prelude::*;

verus! {

/// One monitored endpoint as it is written in the configuration.
#[derive(Debug, Clone, Default, PartialEq, Eq)]
pub struct ServiceConfig {
    pub url: String,
    pub interval_seconds: u64,
    pub max_retries: usize,
    /// Seconds to wait between two attempts of one cycle.
    pub retry_interval: u64,
}

/// The engine's own section of the configuration.
#[derive(Debug, Clone, Default, PartialEq, Eq)]
pub struct Fluxa {
    pub listen: String,
}

/// Credentials of the chat-bot notification provider.
#[derive(Debug, Clone, Default, PartialEq, Eq)]
pub struct TelegramConfig {
    pub bot_token: String,
    pub chat_id: String,
}

/// The whole configuration: targets and notification credentials.
#[derive(Debug, Clone, Default, PartialEq, Eq)]
pub struct FluxaConfig {
    /// Push-notification credentials; an empty string means "not configured".
    pub pushover_api_key: String,
    pub pushover_user_key: String,
    pub telegram: Option<TelegramConfig>,
    pub services: Vec<ServiceConfig>,
    pub fluxa: Fluxa,
}

#[derive(Debug)]
pub enum ServiceConfigurationError {
    ErrorInConfiguration(String),
}

impl ServiceConfigurationError {
    pub open spec fn spec_message(&self) -> Seq<char> {
        match self {
            ServiceConfigurationError::ErrorInConfiguration(m) => "Configuration error "@ + m@,
        }
    }

    /// The human-readable text of the error.
    pub fn message(&self) -> (r: String)
        ensures
            r@ == self.spec_message(),
    {
        match self {
            ServiceConfigurationError::ErrorInConfiguration(m) => {
                let mut r = String::from_str("Configuration error ");
                r.append(m.as_str());
                r
            },
        }
    }
}

} // verus!
