use rpc_provider::error::Error;
use rpc_provider::providers::{HttpProvider, WsProvider, WS_URL};
use rpc_provider::rpc_core::RpcCoreBuilder;
use rpc_provider::ws_provider::{WsProviderError, WsProviderInner, DEFAULT_TIMEOUT_MS};

#[test]
fn http_new_accepts_valid_url() {
    assert!(HttpProvider::new("http://127.0.0.1:9933").is_ok());
    assert!(HttpProvider::new(WS_URL).is_ok());
}

#[test]
fn http_new_rejects_invalid_url() {
    assert!(matches!(HttpProvider::new("not a url"), Err(Error::Client(_))));
    assert!(matches!(HttpProvider::new(""), Err(Error::Client(_))));
}

#[test]
fn http_new_with_port_builds_url() {
    assert!(HttpProvider::new_with_port("http://127.0.0.1", 9933).is_ok());
    assert!(HttpProvider::new_with_port("no scheme at all", 9933).is_err());
}

#[test]
fn http_disconnect_is_unsupported() {
    let mut p = HttpProvider::new("http://127.0.0.1:9933").unwrap();
    p.connect().unwrap();
    match p.disconnect() {
        Err(Error::Client(m)) => assert_eq!(m, "disconnect is not supported for this transport"),
        other => panic!("expected an unsupported failure, got {:?}", other),
    }
}

#[test]
fn ws_new_and_connect_lifecycle() {
    let mut p = WsProvider::new("ws://127.0.0.1:9944").unwrap();
    assert!(!p.is_connected());
    p.connect().unwrap();
    assert!(p.is_connected());
    match p.disconnect() {
        Err(Error::Client(m)) => assert_eq!(m, "disconnect is not supported for this transport"),
        other => panic!("expected an unsupported failure, got {:?}", other),
    }
    assert!(p.is_connected());
}

#[test]
fn ws_new_with_port_builds_url() {
    assert!(WsProvider::new_with_port("ws://127.0.0.1", 9944).is_ok());
}

#[test]
fn builder_registers_provider() {
    let mut builder: RpcCoreBuilder<WsProvider> = RpcCoreBuilder::default();
    assert!(!builder.has_provider());
    let provider = WsProvider::new(WS_URL).unwrap();
    builder.add_provider(provider);
    assert!(builder.has_provider());
}

#[test]
fn inner_defaults_to_local_endpoint() {
    let inner = WsProviderInner::new(None, None, None, None).unwrap();
    assert_eq!(inner.endpoints.len(), 1);
    assert_eq!(inner.endpoints[0], "ws://127.0.0.1:9944");
    assert_eq!(inner.endpoint_index, -1);
    assert_eq!(inner.auto_connect_ms, 0);
    assert_eq!(inner.timeout, DEFAULT_TIMEOUT_MS);
    assert!(!inner.is_connected);
    assert!(inner.headers.is_empty());
}

#[test]
fn inner_rejects_empty_endpoint_list() {
    match WsProviderInner::new(Some(vec![]), None, None, None) {
        Err(WsProviderError::Other(m)) => {
            assert_eq!(m, "WsProvider requires at least one Endpoint")
        },
        other => panic!("expected a rejection, got {:?}", other),
    }
}

#[test]
fn inner_rejects_wrong_scheme() {
    let eps = vec![String::from("wss://a.example"), String::from("http://b.example")];
    match WsProviderInner::new(Some(eps), None, None, None) {
        Err(WsProviderError::Other(m)) => {
            assert_eq!(m, "Endpoint should start with 'ws://', received '${endpoint}'")
        },
        other => panic!("expected a rejection, got {:?}", other),
    }
}

#[test]
fn inner_keeps_given_configuration() {
    let eps = vec![String::from("ws://a.example"), String::from("wss://b.example")];
    let headers = vec![(String::from("x-key"), String::from("v"))];
    let inner =
        WsProviderInner::new(Some(eps.clone()), Some(2500), Some(headers), Some(5000)).unwrap();
    assert_eq!(inner.endpoints, eps);
    assert_eq!(inner.auto_connect_ms, 2500);
    assert_eq!(inner.timeout, 5000);
    assert_eq!(inner.headers.len(), 1);
}

#[test]
fn ws_error_messages() {
    assert_eq!(WsProviderError::E1000.message(), "Normal Closure");
    assert_eq!(WsProviderError::E1006.message(), "Abnormal Closure");
    assert_eq!(WsProviderError::E1015.message(), "TLS Handshake");
    assert_eq!(
        WsProviderError::Other(String::from("boom")).message(),
        "WsProviderError: `boom`"
    );
}
