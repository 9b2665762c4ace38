//! The endpoint-rotating socket provider: its configuration state, the
//! statistics it keeps, and its closed set of socket-level failures.

use vstd::prelude::*;

use crate::jsonstr::match_lit;

verus! {

/// The default timeout for a call, in milliseconds.
pub const DEFAULT_TIMEOUT_MS: u64 = 60 * 1000;

/// Totals for one endpoint.
#[derive(Debug, Clone)]
pub struct EndpointStats {
    /// The total number of bytes received.
    pub bytes_recv: u64,
    /// The total number of bytes sent.
    pub bytes_sent: u64,
    /// The number of cached or in-progress requests made.
    pub cached: u64,
    /// The number of errors found.
    pub errors: u64,
    /// The number of requests.
    pub requests: u64,
    /// The number of subscriptions.
    pub subscriptions: u64,
    /// The number of request timeouts.
    pub timeout: u64,
}

/// All counters of freshly-created endpoint statistics are zero.
pub open spec fn spec_endpoint_stats_zero(s: EndpointStats) -> bool {
    &&& s.bytes_recv == 0
    &&& s.bytes_sent == 0
    &&& s.cached == 0
    &&& s.errors == 0
    &&& s.requests == 0
    &&& s.subscriptions == 0
    &&& s.timeout == 0
}

impl Default for EndpointStats {
    fn default() -> (r: Self)
        ensures
            spec_endpoint_stats_zero(r),
    {
        EndpointStats {
            bytes_recv: 0,
            bytes_sent: 0,
            cached: 0,
            errors: 0,
            requests: 0,
            subscriptions: 0,
            timeout: 0,
        }
    }
}

/// Counts of the currently open work.
#[derive(Debug, Clone)]
pub struct ProviderActiveStats {
    /// Number of active requests.
    pub requests: u64,
    /// Number of active subscriptions.
    pub subscriptions: u64,
}

impl Default for ProviderActiveStats {
    fn default() -> (r: Self)
        ensures
            r.requests == 0 && r.subscriptions == 0,
    {
        ProviderActiveStats { requests: 0, subscriptions: 0 }
    }
}

/// Overall statistics for the provider.
#[derive(Debug, Clone)]
pub struct ProviderStats {
    /// Details for the active/open requests.
    pub active: ProviderActiveStats,
    /// The totals over all requests that have been made.
    pub total: EndpointStats,
}

impl Default for ProviderStats {
    fn default() -> (r: Self)
        ensures
            r.active.requests == 0 && r.active.subscriptions == 0,
            spec_endpoint_stats_zero(r.total),
    {
        ProviderStats { active: ProviderActiveStats::default(), total: EndpointStats::default() }
    }
}

/// The closed set of socket-level failures: the standard closure codes and
/// a catch-all with a message.
#[derive(Debug, Clone, PartialEq)]
pub enum WsProviderError {
    E1000,
    E1001,
    E1002,
    E1003,
    E1004,
    E1005,
    E1006,
    E1007,
    E1008,
    E1009,
    E1010,
    E1011,
    E1012,
    E1013,
    E1014,
    E1015,
    Other(String),
}

impl WsProviderError {
    /// The text of each failure.
    pub open spec fn spec_message(self) -> Seq<char> {
        match self {
            WsProviderError::E1000 => "Normal Closure"@,
            WsProviderError::E1001 => "Going Away"@,
            WsProviderError::E1002 => "Protocol Error"@,
            WsProviderError::E1003 => "Unsupported Data"@,
            WsProviderError::E1004 => "(For future)"@,
            WsProviderError::E1005 => "No Status Received"@,
            WsProviderError::E1006 => "Abnormal Closure"@,
            WsProviderError::E1007 => "Invalid frame payload data"@,
            WsProviderError::E1008 => "Policy Violation"@,
            WsProviderError::E1009 => "Message too big"@,
            WsProviderError::E1010 => "Missing Extension"@,
            WsProviderError::E1011 => "Internal Error"@,
            WsProviderError::E1012 => "Service Restart"@,
            WsProviderError::E1013 => "Try Again Later"@,
            WsProviderError::E1014 => "Bad Gateway"@,
            WsProviderError::E1015 => "TLS Handshake"@,
            WsProviderError::Other(s) => "WsProviderError: `"@ + s@ + "`"@,
        }
    }

    /// Renders the failure as text.
    pub fn message(&self) -> (r: String)
        ensures
            r@ == self.spec_message(),
    {
        match self {
            WsProviderError::E1000 => String::from_str("Normal Closure"),
            WsProviderError::E1001 => String::from_str("Going Away"),
            WsProviderError::E1002 => String::from_str("Protocol Error"),
            WsProviderError::E1003 => String::from_str("Unsupported Data"),
            WsProviderError::E1004 => String::from_str("(For future)"),
            WsProviderError::E1005 => String::from_str("No Status Received"),
            WsProviderError::E1006 => String::from_str("Abnormal Closure"),
            WsProviderError::E1007 => String::from_str("Invalid frame payload data"),
            WsProviderError::E1008 => String::from_str("Policy Violation"),
            WsProviderError::E1009 => String::from_str("Message too big"),
            WsProviderError::E1010 => String::from_str("Missing Extension"),
            WsProviderError::E1011 => String::from_str("Internal Error"),
            WsProviderError::E1012 => String::from_str("Service Restart"),
            WsProviderError::E1013 => String::from_str("Try Again Later"),
            WsProviderError::E1014 => String::from_str("Bad Gateway"),
            WsProviderError::E1015 => String::from_str("TLS Handshake"),
            WsProviderError::Other(s) => {
                let r = String::from_str("WsProviderError: `").concat(s.as_str()).concat("`");
                proof {
                    reveal_strlit("WsProviderError: `");
                    reveal_strlit("`");
                }
                r
            },
        }
    }
}

/// Whether an endpoint has one of the accepted socket schemes.
pub open spec fn spec_ws_endpoint_ok(s: Seq<char>) -> bool {
    (s.len() >= 5 && s.subrange(0, 5) == "ws://"@) || (s.len() >= 6 && s.subrange(0, 6)
        == "wss://"@)
}

/// Whether every endpoint in the list has an accepted scheme.
pub open spec fn spec_endpoints_ok(eps: Seq<String>) -> bool {
    forall|i: int| 0 <= i < eps.len() ==> spec_ws_endpoint_ok((#[trigger] eps[i])@)
}

/// Checks one endpoint's scheme.
pub fn ws_endpoint_ok(s: &str) -> (r: bool)
    ensures
        r == spec_ws_endpoint_ok(s@),
{
    proof {
        reveal_strlit("ws://");
        reveal_strlit("wss://");
    }
    if match_lit(s, 0, "ws://").is_some() {
        return true;
    }
    if match_lit(s, 0, "wss://").is_some() {
        return true;
    }
    false
}

/// The endpoint-rotating socket provider's configuration: the endpoints it
/// may connect to, extra handshake headers, and its statistics. The socket
/// handling itself lives outside this crate.
#[derive(Debug)]
pub struct WsProviderInner {
    /// The endpoints to rotate over; every entry carries a `ws://` or
    /// `wss://` scheme.
    pub endpoints: Vec<String>,
    /// Extra headers for the handshake, as key/value pairs.
    pub headers: Vec<(String, String)>,
    /// Overall statistics.
    pub stats: ProviderStats,
    /// How long to wait before reconnecting, in milliseconds; zero
    /// disables automatic reconnection.
    pub auto_connect_ms: u64,
    /// The index of the endpoint currently in use; `-1` before the first
    /// connection.
    pub endpoint_index: i64,
    /// Statistics for the endpoint currently in use.
    pub endpoint_stats: EndpointStats,
    /// Whether a connection is currently up.
    pub is_connected: bool,
    /// The timeout for one call, in milliseconds.
    pub timeout: u64,
}

impl WsProviderInner {
    /// Builds the configuration. With no endpoint list the default local
    /// endpoint is used; an explicitly empty list is rejected, as is any
    /// endpoint without a `ws://` or `wss://` scheme.
    pub fn new(
        endpoints: Option<Vec<String>>,
        auto_connect_ms: Option<u64>,
        headers: Option<Vec<(String, String)>>,
        timeout: Option<u64>,
    ) -> (r: Result<Self, WsProviderError>)
        ensures
            match endpoints {
                None => (r matches Ok(p) && p.endpoints@.len() == 1 && p.endpoints@[0]@
                    == "ws://127.0.0.1:9944"@ && Self::spec_fresh(p, auto_connect_ms, headers, timeout)),
                Some(eps) => {
                    if eps@.len() == 0 {
                        r matches Err(e) && (e matches WsProviderError::Other(m) && m@
                            == "WsProvider requires at least one Endpoint"@)
                    } else if spec_endpoints_ok(eps@) {
                        r matches Ok(p) && p.endpoints == eps && Self::spec_fresh(
                            p,
                            auto_connect_ms,
                            headers,
                            timeout,
                        )
                    } else {
                        r matches Err(e) && (e matches WsProviderError::Other(m) && m@
                            == "Endpoint should start with 'ws://', received '${endpoint}'"@)
                    }
                },
            },
    {
        let eps: Vec<String> = match endpoints {
            Some(v) => v,
            None => {
                let mut v: Vec<String> = Vec::new();
                v.push(String::from_str("ws://127.0.0.1:9944"));
                proof {
                    reveal_strlit("ws://127.0.0.1:9944");
                    reveal_strlit("ws://");
                    assert(v@[0]@.subrange(0, 5) =~= "ws://"@);
                    assert(spec_ws_endpoint_ok(v@[0]@));
                }
                v
            },
        };
        if eps.len() == 0 {
            proof {
                reveal_strlit("WsProvider requires at least one Endpoint");
            }
            return Err(
                WsProviderError::Other(
                    String::from_str("WsProvider requires at least one Endpoint"),
                ),
            );
        }
        let mut i: usize = 0;
        while i < eps.len()
            invariant
                i <= eps@.len(),
                eps@.len() > 0,
                match endpoints {
                    Some(v) => eps == v,
                    None => eps@.len() == 1 && eps@[0]@ == "ws://127.0.0.1:9944"@
                        && spec_ws_endpoint_ok(eps@[0]@),
                },
                forall|j: int| 0 <= j < i ==> spec_ws_endpoint_ok((#[trigger] eps@[j])@),
            decreases eps@.len() - i,
        {
            if !ws_endpoint_ok(eps[i].as_str()) {
                proof {
                    assert(!spec_ws_endpoint_ok(eps@[i as int]@));
                    assert(!spec_endpoints_ok(eps@));
                    reveal_strlit("Endpoint should start with 'ws://', received '${endpoint}'");
                }
                return Err(
                    WsProviderError::Other(
                        String::from_str(
                            "Endpoint should start with 'ws://', received '${endpoint}'",
                        ),
                    ),
                );
            }
            i = i + 1;
        }
        Ok(
            WsProviderInner {
                endpoints: eps,
                headers: match headers {
                    Some(h) => h,
                    None => Vec::new(),
                },
                stats: ProviderStats::default(),
                auto_connect_ms: match auto_connect_ms {
                    Some(a) => a,
                    None => 0,
                },
                endpoint_index: -1,
                endpoint_stats: EndpointStats::default(),
                is_connected: false,
                timeout: match timeout {
                    Some(t) => t,
                    None => DEFAULT_TIMEOUT_MS,
                },
            },
        )
    }

    /// The state every successful construction starts in.
    pub open spec fn spec_fresh(
        p: Self,
        auto_connect_ms: Option<u64>,
        headers: Option<Vec<(String, String)>>,
        timeout: Option<u64>,
    ) -> bool {
        &&& p.endpoint_index == -1
        &&& !p.is_connected
        &&& p.auto_connect_ms == (match auto_connect_ms {
            Some(a) => a,
            None => 0u64,
        })
        &&& p.timeout == (match timeout {
            Some(t) => t,
            None => DEFAULT_TIMEOUT_MS,
        })
        &&& p.headers@ == (match headers {
            Some(h) => h@,
            None => Seq::<(String, String)>::empty(),
        })
        &&& spec_endpoint_stats_zero(p.endpoint_stats)
        &&& spec_endpoint_stats_zero(p.stats.total)
        &&& p.stats.active.requests == 0 && p.stats.active.subscriptions == 0
    }
}

} // verus!
