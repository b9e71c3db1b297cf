//! Process-lifetime configuration, loaded once at startup.

use vstd::prelude::*;

verus! {

/// Configuration of the whole service.
pub struct Config {
    pub telegram: Option<TelegramConfig>,
    pub papers_path: String,
}

/// Configuration of the messaging-platform bridge identity.
pub struct TelegramConfig {
    /// Shared secret the bridge microservice authenticates with.
    pub shared_key: String,
}

} // verus!
