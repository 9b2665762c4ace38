//! A multi-transport JSON-RPC 2.0 provider library.
//!
//! The crate builds positional call parameters, serializes JSON-RPC request
//! envelopes, decodes response envelopes, and tracks the chains registered
//! inside an in-process light-client engine, including the ordering
//! constraint that a parachain may only name relay chains that were
//! registered before it.
//!
//! Transports that perform network or engine I/O sit outside this crate;
//! they drive the state kept here and hand replies back to it.

use vstd::prelude::*;

pub mod chain_spec;
pub mod error;
pub mod jsonstr;
pub mod light_client;
pub mod params;
pub mod providers;
pub mod response;
pub mod rpc_core;
pub mod ws_provider;

use crate::error::Error;
use crate::jsonstr::{push_quoted, spec_quoted};
use crate::params::{spec_json_array, RpcParams};

verus! {

/// The JSON-RPC 2.0 request envelope for `method` with the given serialized
/// parameters: the `params` field is omitted entirely when there are none.
pub open spec fn spec_json_req(m: Seq<char>, ps: Seq<Seq<char>>) -> Seq<char> {
    "{\"method\":"@ + spec_quoted(m) + (if ps.len() == 0 {
        Seq::<char>::empty()
    } else {
        ",\"params\":"@ + spec_json_array(ps)
    }) + ",\"jsonrpc\":\"2.0\",\"id\":\"1\"}"@
}

/// The request contract every transport satisfies: send one call, get the
/// answer either decoded into the caller's type or as raw JSON text.
///
/// Connection-oriented transports implement it over a live connection, the
/// light-client registry over the engine instance it hosts.
pub trait Request {
    /// Sends one call and returns the raw JSON result text.
    fn request_raw(&self, method: &str, params: RpcParams) -> Result<String, Error>;
}

/// The subscription contract for connection-oriented transports: establish
/// a server-push stream with its teardown method.
pub trait Subscribe {
    type Subscription;

    fn subscribe(
        &self,
        sub: &str,
        params: RpcParams,
        unsub: &str,
    ) -> Result<Self::Subscription, Error>;
}

/// A live server-push stream plus its teardown operation.
pub trait HandleSubscription<Notification>: Sized {
    /// Returns the next notification from the stream; `None` when the
    /// underlying stream has closed.
    fn next(&mut self) -> Option<Result<Notification, Error>>;

    /// Unsubscribes and consumes the subscription.
    fn unsubscribe(self) -> Result<(), Error>;
}

/// Serializes a JSON-RPC 2.0 request envelope:
/// `{"method":...,"params":...,"jsonrpc":"2.0","id":"1"}`, with the
/// `params` field omitted entirely when no parameter was inserted.
pub fn to_json_req(method: &str, params: RpcParams) -> (r: Result<String, Error>)
    ensures
        r matches Ok(s) && s@ == spec_json_req(method@, params@),
{
    proof {
        reveal_strlit("{\"method\":");
        reveal_strlit(",\"params\":");
        reveal_strlit(",\"jsonrpc\":\"2.0\",\"id\":\"1\"}");
    }
    let mut s = String::new();
    s.append("{\"method\":");
    push_quoted(&mut s, method);
    match params.build() {
        Some(arr) => {
            s.append(",\"params\":");
            s.append(arr.as_str());
        },
        None => {},
    }
    s.append(",\"jsonrpc\":\"2.0\",\"id\":\"1\"}");
    proof {
        assert(s@ =~= spec_json_req(method@, params@));
    }
    Ok(s)
}

} // verus!
