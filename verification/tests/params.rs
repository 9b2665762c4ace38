use rpc_provider::params::{ParamValue, RpcParams, RpcParamsWrapper};
use rpc_provider::to_json_req;

#[test]
fn build_empty_is_none() {
    let params = RpcParams::new();
    assert!(params.build().is_none());
}

#[test]
fn build_single_bool_true() {
    let mut params = RpcParams::new();
    params.insert(ParamValue::Bool(true)).unwrap();
    assert_eq!(params.build().unwrap(), "[true]");
}

#[test]
fn build_preserves_insertion_order() {
    let mut params = RpcParams::new();
    params.insert(ParamValue::Unsigned(1)).unwrap();
    params.insert(ParamValue::Str(String::from("two"))).unwrap();
    params.insert(ParamValue::Bool(false)).unwrap();
    params.insert(ParamValue::Null).unwrap();
    assert_eq!(params.build().unwrap(), "[1,\"two\",false,null]");
}

#[test]
fn insert_serializes_each_shape() {
    let mut params = RpcParams::new();
    params.insert(ParamValue::Null).unwrap();
    params.insert(ParamValue::Bool(false)).unwrap();
    params.insert(ParamValue::Unsigned(u64::MAX)).unwrap();
    params.insert(ParamValue::Signed(-42)).unwrap();
    params.insert(ParamValue::Signed(i64::MIN)).unwrap();
    params.insert(ParamValue::Raw(String::from("{\"a\":1}"))).unwrap();
    assert_eq!(
        params.build().unwrap(),
        "[null,false,18446744073709551615,-42,-9223372036854775808,{\"a\":1}]"
    );
}

#[test]
fn insert_escapes_strings() {
    let mut params = RpcParams::new();
    params
        .insert(ParamValue::Str(String::from("a\"b\\c\nd\re\tf")))
        .unwrap();
    assert_eq!(params.build().unwrap(), "[\"a\\\"b\\\\c\\nd\\re\\tf\"]");
}

#[test]
fn envelope_matches_wire_format() {
    let mut params = RpcParams::new();
    params.insert(ParamValue::Bool(true)).unwrap();
    let req = to_json_req("sync_state_genSyncSpec", params).unwrap();
    assert_eq!(
        req,
        "{\"method\":\"sync_state_genSyncSpec\",\"params\":[true],\"jsonrpc\":\"2.0\",\"id\":\"1\"}"
    );
}

#[test]
fn envelope_without_params_omits_field() {
    let req = to_json_req("system_health", RpcParams::new()).unwrap();
    assert_eq!(req, "{\"method\":\"system_health\",\"jsonrpc\":\"2.0\",\"id\":\"1\"}");
}

#[test]
fn envelope_is_valid_json() {
    let mut params = RpcParams::new();
    params.insert(ParamValue::Str(String::from("quo\"te"))).unwrap();
    params.insert(ParamValue::Signed(-7)).unwrap();
    let req = to_json_req("some_method", params).unwrap();
    let value: serde_json::Value = serde_json::from_str(&req).unwrap();
    assert_eq!(value.get("method").unwrap().as_str().unwrap(), "some_method");
    assert_eq!(value.get("jsonrpc").unwrap().as_str().unwrap(), "2.0");
    assert_eq!(value.get("id").unwrap().as_str().unwrap(), "1");
    let arr = value.get("params").unwrap().as_array().unwrap();
    assert_eq!(arr.len(), 2);
    assert_eq!(arr[0].as_str().unwrap(), "quo\"te");
    assert_eq!(arr[1].as_i64().unwrap(), -7);
}

#[test]
fn wrapper_hands_out_built_params() {
    let mut params = RpcParams::new();
    params.insert(ParamValue::Unsigned(5)).unwrap();
    let wrapper = RpcParamsWrapper(params);
    assert_eq!(wrapper.to_rpc_params().unwrap(), "[5]");
    let empty = RpcParamsWrapper(RpcParams::new());
    assert!(empty.to_rpc_params().is_none());
}

#[test]
fn params_len_counts_inserts() {
    let mut params = RpcParams::new();
    assert_eq!(params.len(), 0);
    params.insert(ParamValue::Null).unwrap();
    params.insert(ParamValue::Null).unwrap();
    assert_eq!(params.len(), 2);
}
