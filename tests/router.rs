use majordomo::dispatch::handle_invocation;
use majordomo::engine::Sandbox;
use majordomo::registry::Registry;
use majordomo::router::{channel_info_request, dispatch_event, event_address, event_payload, prepare_event};
use majordomo::types::SlackEventInner;

fn s(x: &str) -> String {
    x.to_string()
}

fn event(channel: &str, text: &str) -> SlackEventInner {
    SlackEventInner { req_type: s("message"), channel: s(channel), user: s("U1"), text: s(text), ts: s("1.0") }
}

#[test]
fn event_address_prefixes_channel_name() {
    assert_eq!(event_address(&s("ops")), "slack-ops");
    assert_eq!(event_address(&s("")), "slack-");
}

#[test]
fn event_payload_strips_leading_token() {
    assert_eq!(event_payload(&s("!ping extra data")), "extra data");
    assert_eq!(event_payload(&s("!ping")), "!ping");
    assert_eq!(event_payload(&s("")), "");
    assert_eq!(event_payload(&s(" lead")), "lead");
    assert_eq!(event_payload(&s("é x")), "x");
}

#[test]
fn chat_event_routes_like_direct_call() {
    let mut reg = Registry::new();
    reg.upsert(s("slack-ops"), s("k1"), s("fn handle(p) { \"got:\" + p }")).unwrap();
    let engine = Sandbox::new();
    let (routed, _) = dispatch_event(&reg, &engine, &s("ops"), &event("C1", "!ping extra data"));
    let (direct, _) = handle_invocation(&reg, &engine, &s("slack-ops"), s("extra data"));
    assert_eq!(routed.data, Some(s("got:extra data")));
    assert_eq!(routed.data, direct.data);
    assert_eq!(routed.status, direct.status);
}

#[test]
fn chat_event_for_unknown_channel_fails() {
    let reg = Registry::new();
    let engine = Sandbox::new();
    let (r, _) = dispatch_event(&reg, &engine, &s("dev"), &event("C2", "hi there"));
    assert!(!r.status);
    assert_eq!(r.data, Some(s("Unable to find endpoint slack-dev")));
}

#[test]
fn channel_info_request_is_exact() {
    let q = channel_info_request(&s("tok"), &s("C1"));
    assert_eq!(q.url, "https://slack.com/api/conversations.info?channel=C1");
    assert_eq!(q.headers, vec![(s("authorization"), s("Bearer tok")), (s("content-type"), s("application/x-www-form-urlencoded"))]);
    assert!(q.body.is_none());
}

#[test]
fn prepare_event_strips_command_and_targets_channel() {
    let mut reg = Registry::new();
    reg.upsert(s("slack-ops"), s("k1"), s("fn handle(p) { p }")).unwrap();
    let inv = prepare_event(&reg, &s("ops"), &event("C1", "!ping extra data")).unwrap();
    assert_eq!(inv.handler.uri, "slack-ops");
    assert_eq!(inv.entrypoint, "handle");
    assert_eq!(inv.payload, "extra data");
    match prepare_event(&reg, &s("dev"), &event("C2", "!ping")) {
        Err(f) => assert_eq!(f.data, Some(s("Unable to find endpoint slack-dev"))),
        Ok(_) => panic!("expected a missing endpoint"),
    }
}
