//! Configuration handed in by the host process.

use vstd::prelude::*;

verus! {

/// Settings the host process reads at startup and passes down: the API key
/// for the upstream weather provider.
pub struct DewpointConfig {
    pub openweather_api_key: String,
}

} // verus!
