//! The settings of the built-in HTTP tracker client: the proxy its requests
//! go through and their timeout. The requests themselves are sent by the
//! application.
use std::time::Duration;
use vstd::prelude::*;

use crate::proxy::ProxyConfig;

verus! {

/// Default tracker client using the built-in raw HTTP client.
pub struct HttpTrackerClient {
    /// How requests reach the tracker.
    pub proxy: ProxyConfig,
    /// How long a request may take.
    pub timeout: Duration,
}

impl HttpTrackerClient {
    /// Creates a new HTTP tracker client with the given proxy and timeout settings.
    pub fn new(proxy: ProxyConfig, timeout: Duration) -> (r: Self)
        ensures
            r.proxy == proxy,
            r.timeout == timeout,
    {
        HttpTrackerClient { proxy, timeout }
    }
}

} // verus!
