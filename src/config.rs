use vstd::prelude::*;
use vstd::string::StringExecFns;

verus! {

/// The service that is kept alive when nothing else is configured.
pub const DEFAULT_BASE_URL: &'static str = "https://particles-on-canvas.onrender.com";

/// Seconds slept between the end of one cycle and the start of the next.
pub const DEFAULT_INTERVAL_SECS: u64 = 180;

/// Seconds a single request may take before it counts as a transport failure.
pub const DEFAULT_REQUEST_TIMEOUT_SECS: u64 = 30;

/// Path of the liveness endpoint, below the base URL.
pub const HEARTBEAT_PATH: &'static str = "/heartbeat";

/// Path of the warm-up endpoint, below the base URL.
pub const SIGNATURES_PATH: &'static str = "/signatures/create";

/// Where the prober sends its requests and how often.
pub struct ProberConfig {
    pub base_url: String,
    pub interval_secs: u64,
    pub request_timeout_secs: u64,
}

impl ProberConfig {
    pub fn new(base_url: String, interval_secs: u64, request_timeout_secs: u64) -> (r: Self)
        ensures
            r.base_url@ == base_url@,
            r.interval_secs == interval_secs,
            r.request_timeout_secs == request_timeout_secs,
    {
        ProberConfig { base_url, interval_secs, request_timeout_secs }
    }

    /// The configuration of the deployed prober.
    pub fn standard() -> (r: Self)
        ensures
            r.base_url@ == DEFAULT_BASE_URL@,
            r.interval_secs == DEFAULT_INTERVAL_SECS,
            r.request_timeout_secs == DEFAULT_REQUEST_TIMEOUT_SECS,
    {
        ProberConfig {
            base_url: String::from_str(DEFAULT_BASE_URL),
            interval_secs: DEFAULT_INTERVAL_SECS,
            request_timeout_secs: DEFAULT_REQUEST_TIMEOUT_SECS,
        }
    }

    /// The full URL of the heartbeat endpoint.
    pub fn heartbeat_url(&self) -> (r: String)
        ensures
            r@ == self.base_url@ + HEARTBEAT_PATH@,
    {
        self.base_url.clone().concat(HEARTBEAT_PATH)
    }

    /// The full URL of the signature-creation endpoint.
    pub fn signatures_url(&self) -> (r: String)
        ensures
            r@ == self.base_url@ + SIGNATURES_PATH@,
    {
        self.base_url.clone().concat(SIGNATURES_PATH)
    }
}

} // verus!
