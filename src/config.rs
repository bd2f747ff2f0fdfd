use vstd::prelude::*;

verus! {

/// The server address the client talks to.
pub open spec fn default_api_url() -> Seq<char> {
    "https://api.bindkey.local"@
}

/// Settings read at start-up.
pub struct AppConfig {
    pub api_url: String,
}

impl AppConfig {
    /// The settings used when no configuration file can be read.
    pub fn default() -> (r: AppConfig)
        ensures
            r.api_url@ == default_api_url(),
    {
        AppConfig { api_url: String::from_str("https://api.bindkey.local") }
    }
}

} // verus!
