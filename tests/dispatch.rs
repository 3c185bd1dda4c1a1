use majordomo::dispatch::{
    find_handler, handle_invocation, prepare_invocation, run_invocation, invocation_response, list_handlers,
    upsert_handler, upsert_response, verify_key,
};
use majordomo::engine::Sandbox;
use majordomo::keys::ApiKeys;
use majordomo::registry::{Registry, ServiceError};
use majordomo::types::{FindHandlerRequest, UpsertHandlerRequest, UserResponse};

const ECHO: &str = "fn handle(p) { p }";

fn s(x: &str) -> String {
    x.to_string()
}

fn keys() -> ApiKeys {
    ApiKeys::new(vec![s("k1"), s("k2")])
}

fn upsert(reg: &mut Registry, uri: &str, key: &str, code: &str) -> Result<(), ServiceError> {
    upsert_handler(&keys(), reg, UpsertHandlerRequest { uri: s(uri), api_key: s(key), code: s(code) })
}

#[test]
fn key_store_membership() {
    let k = keys();
    assert!(k.contains(&s("k1")));
    assert!(!k.contains(&s("k3")));
    assert!(!ApiKeys::new(Vec::new()).contains(&s("")));
}

#[test]
fn upsert_then_invoke_echo() {
    let mut reg = Registry::new();
    let only = ApiKeys::new(vec![s("k1")]);
    let r = upsert_handler(&only, &mut reg, UpsertHandlerRequest { uri: s("echo"), api_key: s("k1"), code: s(ECHO) });
    assert!(r.is_ok());
    let engine = Sandbox::new();
    let (resp, diag) = handle_invocation(&reg, &engine, &s("echo"), s("hello"));
    assert!(resp.status);
    assert_eq!(resp.data, Some(s("hello")));
    assert!(diag.is_none());
}

#[test]
fn invoke_unknown_address_fails_with_endpoint_message() {
    let reg = Registry::new();
    let engine = Sandbox::new();
    let (resp, diag) = handle_invocation(&reg, &engine, &s("ghost"), s("hello"));
    assert!(!resp.status);
    assert_eq!(resp.data, Some(s("Unable to find endpoint ghost")));
    assert!(diag.is_none());
}

#[test]
fn runaway_script_hits_operation_ceiling() {
    let mut reg = Registry::new();
    upsert(&mut reg, "spin", "k1", "fn handle(p) { loop { } }").unwrap();
    let engine = Sandbox::new();
    let (resp, diag) = handle_invocation(&reg, &engine, &s("spin"), s("x"));
    assert!(!resp.status);
    assert_eq!(resp.data, Some(s("Error running client code!")));
    assert!(diag.is_some());
    assert_eq!(reg.lookup(&s("spin")).unwrap().code.raw, "fn handle(p) { loop { } }");
}

#[test]
fn script_error_is_not_leaked() {
    let mut reg = Registry::new();
    upsert(&mut reg, "boom", "k1", "fn handle(p) { throw \"secret detail\" }").unwrap();
    let engine = Sandbox::new();
    let (resp, diag) = handle_invocation(&reg, &engine, &s("boom"), s("x"));
    assert_eq!(resp.data, Some(s("Error running client code!")));
    assert!(diag.unwrap().contains("secret detail"));
}

#[test]
fn script_output_is_returned() {
    let mut reg = Registry::new();
    upsert(&mut reg, "shout", "k1", "fn handle(p) { p + \"!\" }").unwrap();
    let engine = Sandbox::new();
    let (resp, _) = handle_invocation(&reg, &engine, &s("shout"), s("hi"));
    assert_eq!(resp.data, Some(s("hi!")));
}

#[test]
fn invocation_response_maps_outcomes() {
    let ok = invocation_response(Ok(s("out")));
    assert!(ok.status);
    assert_eq!(ok.data, Some(s("out")));
    let err = invocation_response(Err(s("detail")));
    assert!(!err.status);
    assert_eq!(err.data, Some(s("Error running client code!")));
}

#[test]
fn verify_key_envelopes() {
    let good = verify_key(&keys(), &s("k1"));
    assert!(good.status);
    assert_eq!(good.data, None);
    let bad = verify_key(&keys(), &s("nope"));
    assert!(!bad.status);
    assert_eq!(bad.data, Some(s("Invalid API Key")));
}

#[test]
fn list_handlers_encodes_addresses() {
    let mut reg = Registry::new();
    upsert(&mut reg, "a", "k1", ECHO).unwrap();
    upsert(&mut reg, "b\"q", "k2", ECHO).unwrap();
    let r = list_handlers(&keys(), &reg, &s("k2"));
    assert!(r.status);
    assert_eq!(r.data, Some(s("[\"a\",\"b\\\"q\"]")));
    let empty = list_handlers(&keys(), &Registry::new(), &s("k1"));
    assert_eq!(empty.data, Some(s("[]")));
    let denied = list_handlers(&keys(), &reg, &s("k9"));
    assert_eq!(denied.data, Some(s("Invalid API Key")));
}

#[test]
fn find_handler_checks_key_and_owner() {
    let mut reg = Registry::new();
    upsert(&mut reg, "echo", "k1", ECHO).unwrap();
    let req = |uri: &str, key: &str| FindHandlerRequest { uri: s(uri), api_key: s(key) };
    assert_eq!(find_handler(&keys(), &reg, &req("echo", "k1")).unwrap().code, ECHO);
    assert!(matches!(find_handler(&keys(), &reg, &req("echo", "k2")), Err(ServiceError::InvalidApiKey)));
    assert!(matches!(find_handler(&keys(), &reg, &req("echo", "k9")), Err(ServiceError::InvalidApiKey)));
    assert!(matches!(find_handler(&keys(), &reg, &req("other", "k1")), Err(ServiceError::UnknownHandler)));
}

#[test]
fn upsert_handler_rejects_unknown_key() {
    let mut reg = Registry::new();
    assert!(matches!(upsert(&mut reg, "echo", "k9", ECHO), Err(ServiceError::InvalidApiKey)));
    assert!(reg.lookup(&s("echo")).is_none());
}

#[test]
fn upsert_handler_rejects_other_owner() {
    let mut reg = Registry::new();
    upsert(&mut reg, "echo", "k1", ECHO).unwrap();
    assert!(matches!(upsert(&mut reg, "echo", "k2", "fn handle(p) { 1 }"), Err(ServiceError::OwnershipMismatch(_))));
    assert_eq!(reg.lookup(&s("echo")).unwrap().code.raw, ECHO);
}

#[test]
fn upsert_response_envelopes() {
    let saved = upsert_response(&Ok(()), true);
    assert!(saved.status);
    assert_eq!(saved.data, None);
    let unsaved = upsert_response(&Ok(()), false);
    assert_eq!(unsaved.data, Some(s("Server error while saving db")));
    let refused = upsert_response(&Err(ServiceError::InvalidApiKey), true);
    assert!(!refused.status);
    assert_eq!(refused.data, Some(s("Invalid API Key")));
    let parse = upsert_response(&Err(ServiceError::CompileError(s("bad"))), true);
    assert_eq!(parse.data, Some(s("Error parsing code: bad")));
}

#[test]
fn user_response_constructors() {
    let a = UserResponse::success();
    assert!(a.status && a.data.is_none());
    let b = UserResponse::success_with_data(s("d"));
    assert!(b.status);
    assert_eq!(b.data, Some(s("d")));
    let c = UserResponse::failure(s("why"));
    assert!(!c.status);
    assert_eq!(c.data, Some(s("why")));
}

#[test]
fn prepare_invocation_fixes_handler_entrypoint_and_payload() {
    let mut reg = Registry::new();
    upsert(&mut reg, "echo", "k1", ECHO).unwrap();
    let inv = prepare_invocation(&reg, &s("echo"), s("hello")).unwrap();
    assert_eq!(inv.handler.uri, "echo");
    assert_eq!(inv.handler.code.raw, ECHO);
    assert_eq!(inv.entrypoint, "handle");
    assert_eq!(inv.payload, "hello");
    let (resp, _) = run_invocation(&Sandbox::new(), inv);
    assert_eq!(resp.data, Some(s("hello")));
    match prepare_invocation(&reg, &s("nope"), s("x")) {
        Err(f) => assert_eq!(f.data, Some(s("Unable to find endpoint nope"))),
        Ok(_) => panic!("expected a missing endpoint"),
    }
}

#[test]
fn upsert_handler_compile_error_carries_engine_diagnostic() {
    let bad = "fn handle(p) { p ";
    let mut reg = Registry::new();
    let expected = rhai::Engine::new().compile(bad).unwrap_err().to_string();
    match upsert(&mut reg, "bad", "k1", bad) {
        Err(ServiceError::CompileError(d)) => assert_eq!(d, expected),
        _ => panic!("expected a compile error"),
    }
    let resp = upsert_response(&upsert(&mut reg, "bad", "k1", bad), true);
    assert_eq!(resp.data, Some(format!("Error parsing code: {}", expected)));
}
