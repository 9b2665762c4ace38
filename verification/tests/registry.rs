use rpc_provider::error::Error;
use rpc_provider::light_client::{AddChainOutcome, ScProvider, SmoldotLightClient};
use rpc_provider::params::{ParamValue, RpcParams};
use rpc_provider::response::decode_response;

const RELAY_SPEC: &str = "{\"name\":\"relay\"}";
const PARA_SPEC: &str = "{\"name\":\"para\"}";

#[test]
fn relay_then_parachain_registration() {
    let mut registry = SmoldotLightClient::new();
    let relay = registry
        .connect_relaychain(RELAY_SPEC, AddChainOutcome::WithResponses)
        .unwrap();
    assert_eq!(relay.chain_id, 0);
    let para = registry
        .connect_chain(PARA_SPEC, &Some(vec![relay.chain_id]), AddChainOutcome::WithResponses)
        .unwrap();
    assert_eq!(para.chain_id, 1);
    let again = registry.connect_chain(PARA_SPEC, &Some(vec![]), AddChainOutcome::NoResponses);
    assert!(matches!(again, Err(Error::InvalidChainSpec(_))));
}

#[test]
fn unknown_parent_is_rejected() {
    let mut registry = SmoldotLightClient::new();
    registry
        .connect_relaychain(RELAY_SPEC, AddChainOutcome::WithResponses)
        .unwrap();
    assert!(!registry.parents_registered(&Some(vec![5])));
    let r = registry.connect_chain(PARA_SPEC, &Some(vec![5]), AddChainOutcome::WithResponses);
    assert!(matches!(r, Err(Error::InvalidChainSpec(_))));
}

#[test]
fn registration_without_stream_fails() {
    let mut registry = SmoldotLightClient::new();
    let r = registry.connect_relaychain(RELAY_SPEC, AddChainOutcome::NoResponses);
    assert!(matches!(r, Err(Error::InvalidChainSpec(_))));
    let ok = registry
        .connect_relaychain(RELAY_SPEC, AddChainOutcome::WithResponses)
        .unwrap();
    assert_eq!(ok.chain_id, 0);
}

#[test]
fn request_requires_active_connection() {
    let registry = SmoldotLightClient::new();
    let r = registry.request_raw("system_health", RpcParams::new());
    assert!(matches!(r, Err(Error::ConnectionClosed)));
}

#[test]
fn request_builds_tagged_envelope() {
    let mut registry = SmoldotLightClient::new();
    let conn = registry
        .connect_relaychain(RELAY_SPEC, AddChainOutcome::WithResponses)
        .unwrap();
    registry.use_connection(conn);
    let mut params = RpcParams::new();
    params.insert(ParamValue::Bool(true)).unwrap();
    let call = registry.request_raw("sync_state_genSyncSpec", params).unwrap();
    assert_eq!(call.chain_id, 0);
    assert_eq!(
        call.payload,
        "{\"method\":\"sync_state_genSyncSpec\",\"params\":[true],\"jsonrpc\":\"2.0\",\"id\":\"1\"}"
    );
}

#[test]
fn serialized_requests_get_their_own_replies() {
    let mut registry = SmoldotLightClient::new();
    let conn = registry
        .connect_relaychain(RELAY_SPEC, AddChainOutcome::WithResponses)
        .unwrap();
    registry.use_connection(conn);

    let first = registry.request_raw("x", RpcParams::new()).unwrap();
    let reply_x = "{\"jsonrpc\":\"2.0\",\"id\":\"1\",\"result\":\"for-x\"}";
    registry.deliver(first.chain_id, String::from(reply_x));
    let got_x = registry.take_reply(first.chain_id).unwrap();
    assert_eq!(got_x, reply_x);
    assert_eq!(decode_response(&got_x).unwrap(), "\"for-x\"");

    let second = registry.request_raw("y", RpcParams::new()).unwrap();
    let reply_y = "{\"jsonrpc\":\"2.0\",\"id\":\"1\",\"result\":\"for-y\"}";
    registry.deliver(second.chain_id, String::from(reply_y));
    let got_y = registry.take_reply(second.chain_id).unwrap();
    assert_eq!(got_y, reply_y);
    assert_eq!(decode_response(&got_y).unwrap(), "\"for-y\"");

    assert_ne!(got_x, got_y);
    assert!(registry.take_reply(first.chain_id).is_none());
}

#[test]
fn replies_are_routed_by_chain() {
    let mut registry = SmoldotLightClient::new();
    let relay = registry
        .connect_relaychain(RELAY_SPEC, AddChainOutcome::WithResponses)
        .unwrap();
    let para = registry
        .connect_chain(PARA_SPEC, &Some(vec![relay.chain_id]), AddChainOutcome::WithResponses)
        .unwrap();
    registry.deliver(para.chain_id, String::from("para-reply"));
    registry.deliver(relay.chain_id, String::from("relay-reply"));
    assert_eq!(registry.take_reply(relay.chain_id).unwrap(), "relay-reply");
    assert_eq!(registry.take_reply(para.chain_id).unwrap(), "para-reply");
    assert!(registry.take_reply(relay.chain_id).is_none());
}

#[test]
fn replies_keep_arrival_order() {
    let mut registry = SmoldotLightClient::new();
    let conn = registry
        .connect_relaychain(RELAY_SPEC, AddChainOutcome::WithResponses)
        .unwrap();
    registry.deliver(conn.chain_id, String::from("a"));
    registry.deliver(conn.chain_id, String::from("b"));
    assert_eq!(registry.take_reply(conn.chain_id).unwrap(), "a");
    assert_eq!(registry.take_reply(conn.chain_id).unwrap(), "b");
}

#[test]
fn sc_provider_reports_its_chain() {
    let mut registry = SmoldotLightClient::new();
    let conn = registry
        .connect_relaychain(RELAY_SPEC, AddChainOutcome::WithResponses)
        .unwrap();
    let provider = ScProvider::new(conn);
    assert_eq!(provider.id(), conn.chain_id);
}

#[test]
fn sc_provider_disconnect_is_unsupported() {
    let mut registry = SmoldotLightClient::new();
    let conn = registry
        .connect_relaychain(RELAY_SPEC, AddChainOutcome::WithResponses)
        .unwrap();
    let mut provider = ScProvider::new(conn);
    assert!(provider.connect().is_ok());
    match provider.disconnect() {
        Err(Error::Client(m)) => assert_eq!(m, "disconnect is not supported for this transport"),
        other => panic!("expected an unsupported failure, got {:?}", other),
    }
}

#[test]
fn failed_registration_names_the_spec() {
    let mut registry = SmoldotLightClient::new();
    match registry.connect_chain(PARA_SPEC, &Some(vec![9]), AddChainOutcome::WithResponses) {
        Err(Error::InvalidChainSpec(m)) => {
            assert_eq!(m, "Could not connect to the provided chain: {\"name\":\"para\"}")
        },
        other => panic!("expected a rejection, got {:?}", other),
    }
}
