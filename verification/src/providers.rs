//! The transport adapters' verified state: endpoint validation and the
//! connect/disconnect lifecycle decisions. The network clients themselves
//! (a request-oriented HTTP client, a connection-oriented socket client)
//! live outside this crate and are driven by this state.

use vstd::prelude::*;

use crate::error::Error;

verus! {

/// The default endpoint of a local node.
pub const WS_URL: &'static str = "ws://127.0.0.1:9944";

/// The lifecycle hooks every connection-oriented transport offers. A
/// stateless transport implements `connect` as pure setup and `disconnect`
/// as an explicit unsupported failure.
pub trait ProviderInterface {
    fn connect(&mut self) -> Result<(), Error>;

    fn disconnect(&mut self) -> Result<(), Error>;
}

/// Whether `s` is a well-formed URL.
pub uninterp spec fn url_parses(s: Seq<char>) -> bool;

/// Relies on `url::Url::parse`: whether the text is a well-formed URL.
/// The outcome is a function of the text alone.
#[verifier::external_body]
fn check_url(s: &str) -> (r: bool)
    ensures
        r == url_parses(s@),
{
    url::Url::parse(s).is_ok()
}

/// The message every transport without a real teardown reports from
/// `disconnect`.
pub open spec fn spec_unsupported_disconnect() -> Seq<char> {
    "disconnect is not supported for this transport"@
}

fn unsupported_disconnect() -> (r: Error)
    ensures
        r matches Error::Client(m) && m@ == spec_unsupported_disconnect(),
{
    proof {
        reveal_strlit("disconnect is not supported for this transport");
    }
    Error::Client(String::from_str("disconnect is not supported for this transport"))
}

/// The request-oriented transport adapter's verified state: the validated
/// endpoint it was created with, and whether a client has been built.
#[derive(Debug, Clone)]
pub struct HttpProvider {
    url: Option<String>,
    connected: bool,
}

impl HttpProvider {
    /// The endpoint this provider was created with, if any.
    pub closed spec fn spec_url(self) -> Option<String> {
        self.url
    }

    /// Whether `connect` has built a client on this handle.
    pub closed spec fn spec_connected(self) -> bool {
        self.connected
    }

    /// Creates a provider for the given endpoint. Succeeds if and only if
    /// the endpoint is a well-formed URL; the wrapped transport error is
    /// reported otherwise.
    pub fn new(url: &str) -> (r: Result<Self, Error>)
        ensures
            match r {
                Ok(p) => url_parses(url@) && (p.spec_url() matches Some(u) && u@ == url@)
                    && !p.spec_connected(),
                Err(e) => !url_parses(url@) && e is Client,
            },
    {
        if check_url(url) {
            Ok(HttpProvider { url: Some(String::from_str(url)), connected: false })
        } else {
            proof {
                reveal_strlit("invalid url");
            }
            Err(Error::Client(String::from_str("invalid url")))
        }
    }

    /// Creates a provider for `address:port`.
    pub fn new_with_port(address: &str, port: u32) -> (r: Result<Self, Error>)
        ensures
            ({
                let combined = address@ + seq![':'] + crate::jsonstr::spec_dec_nat(port as nat);
                match r {
                    Ok(p) => url_parses(combined) && (p.spec_url() matches Some(u) && u@
                        == combined) && !p.spec_connected(),
                    Err(e) => !url_parses(combined) && e is Client,
                }
            }),
    {
        let mut s = String::from_str(address);
        crate::jsonstr::push_char(&mut s, ':');
        crate::jsonstr::push_dec_u64(&mut s, port as u64);
        proof {
            assert(s@ =~= address@ + seq![':'] + crate::jsonstr::spec_dec_nat(port as nat));
        }
        Self::new(s.as_str())
    }

    /// Builds the underlying client for the stored endpoint: pure setup
    /// for a request-oriented transport. Calling it twice replaces the
    /// client.
    pub fn connect(&mut self) -> (r: Result<(), Error>)
        requires
            old(self).spec_url() is Some,
        ensures
            r is Ok,
            final(self).spec_url() == old(self).spec_url(),
            final(self).spec_connected(),
    {
        self.connected = true;
        Ok(())
    }

    /// This transport never implements a real teardown, so disconnecting
    /// reports an explicit unsupported failure rather than silently
    /// succeeding.
    pub fn disconnect(&mut self) -> (r: Result<(), Error>)
        ensures
            *final(self) == *old(self),
            r matches Err(e) && (e matches Error::Client(m) && m@
                == spec_unsupported_disconnect()),
    {
        Err(unsupported_disconnect())
    }
}

/// The connection-oriented socket transport adapter's verified state.
#[derive(Debug, Clone)]
pub struct WsProvider {
    url: Option<String>,
    connected: bool,
}

impl WsProvider {
    /// The endpoint this provider was created with, if any.
    pub closed spec fn spec_url(self) -> Option<String> {
        self.url
    }

    /// Whether `connect` has established a connection on this handle.
    pub closed spec fn spec_connected(self) -> bool {
        self.connected
    }

    /// Creates a provider for the given endpoint, such as
    /// `ws://127.0.0.1:9944`. Succeeds if and only if the endpoint is a
    /// well-formed URL.
    pub fn new(url: &str) -> (r: Result<Self, Error>)
        ensures
            match r {
                Ok(p) => url_parses(url@) && (p.spec_url() matches Some(u) && u@ == url@)
                    && !p.spec_connected(),
                Err(e) => !url_parses(url@) && e is Client,
            },
    {
        if check_url(url) {
            Ok(WsProvider { url: Some(String::from_str(url)), connected: false })
        } else {
            proof {
                reveal_strlit("invalid url");
            }
            Err(Error::Client(String::from_str("invalid url")))
        }
    }

    /// Creates a provider for `address:port`, for example address
    /// `ws://127.0.0.1` with port `9944`.
    pub fn new_with_port(address: &str, port: u32) -> (r: Result<Self, Error>)
        ensures
            ({
                let combined = address@ + seq![':'] + crate::jsonstr::spec_dec_nat(port as nat);
                match r {
                    Ok(p) => url_parses(combined) && (p.spec_url() matches Some(u) && u@
                        == combined) && !p.spec_connected(),
                    Err(e) => !url_parses(combined) && e is Client,
                }
            }),
    {
        let mut s = String::from_str(address);
        crate::jsonstr::push_char(&mut s, ':');
        crate::jsonstr::push_dec_u64(&mut s, port as u64);
        proof {
            assert(s@ =~= address@ + seq![':'] + crate::jsonstr::spec_dec_nat(port as nat));
        }
        Self::new(s.as_str())
    }

    /// Marks the handshake with the stored endpoint as performed. Calling
    /// it twice replaces the connection.
    pub fn connect(&mut self) -> (r: Result<(), Error>)
        requires
            old(self).spec_url() is Some,
        ensures
            r is Ok,
            final(self).spec_url() == old(self).spec_url(),
            final(self).spec_connected(),
    {
        self.connected = true;
        Ok(())
    }

    /// No real teardown is implemented for this adapter either, so
    /// disconnecting reports an explicit unsupported failure.
    pub fn disconnect(&mut self) -> (r: Result<(), Error>)
        ensures
            *final(self) == *old(self),
            r matches Err(e) && (e matches Error::Client(m) && m@
                == spec_unsupported_disconnect()),
    {
        Err(unsupported_disconnect())
    }

    /// Whether this handle has connected and not been replaced since.
    pub fn is_connected(&self) -> (r: bool)
        ensures
            r == self.spec_connected(),
    {
        self.connected
    }
}

impl ProviderInterface for HttpProvider {
    fn connect(&mut self) -> Result<(), Error> {
        self.connected = true;
        Ok(())
    }

    fn disconnect(&mut self) -> Result<(), Error> {
        Err(unsupported_disconnect())
    }
}

impl ProviderInterface for WsProvider {
    fn connect(&mut self) -> Result<(), Error> {
        self.connected = true;
        Ok(())
    }

    fn disconnect(&mut self) -> Result<(), Error> {
        Err(unsupported_disconnect())
    }
}

} // verus!
