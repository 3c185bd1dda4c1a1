use majordomo::broker::CapabilityBroker;
use majordomo::types::{EnvInfo, GithubIssueCreateResponse};

fn s(x: &str) -> String {
    x.to_string()
}

fn env(slack: &str, github: &str) -> EnvInfo {
    EnvInfo { slack_token: s(slack), github_token: s(github), handlers_path: s("do-not-write") }
}

#[test]
fn chat_disabled_without_credential() {
    let b = CapabilityBroker::new(&env("no-slack", "gh"), &s("echo"));
    assert!(b.chat_request(&s("general"), &s("hello")).is_none());
    assert_eq!(b.address(), "echo");
}

#[test]
fn chat_request_is_exact() {
    let b = CapabilityBroker::new(&env("xoxb", "gh"), &s("echo"));
    let q = b.chat_request(&s("general"), &s("hello")).unwrap();
    assert_eq!(q.url, "https://slack.com/api/chat.postMessage");
    assert_eq!(q.headers, vec![(s("authorization"), s("Bearer xoxb")), (s("content-type"), s("application/json"))]);
    assert_eq!(q.body, Some(s("{ \"channel\": \"general\", \"text\": \"hello\", \"unfurl_links\": \"true\"}")));
}

#[test]
fn chat_delivery_reads_ok_flag() {
    assert!(CapabilityBroker::chat_delivered(Some(true)));
    assert!(!CapabilityBroker::chat_delivered(Some(false)));
    assert!(!CapabilityBroker::chat_delivered(None));
}

#[test]
fn tickets_disabled_without_credential() {
    let b = CapabilityBroker::new(&env("xoxb", "no-github"), &s("echo"));
    assert!(b.ticket_request(&s("org/repo"), &s("t"), &s("b")).is_none());
}

#[test]
fn ticket_request_is_exact() {
    let b = CapabilityBroker::new(&env("no-slack", "ghp"), &s("echo"));
    let q = b.ticket_request(&s("org/repo"), &s("Bug"), &s("It broke")).unwrap();
    assert_eq!(q.url, "https://api.github.com/repos/org/repo/issues");
    assert_eq!(q.headers, vec![(s("authorization"), s("token ghp")), (s("user-agent"), s("dti-majordomo"))]);
    assert_eq!(q.body, Some(s("{ \"title\": \"Bug\", \"body\": \"It broke\"}")));
}

#[test]
fn ticket_getters_read_fields() {
    let mut t = GithubIssueCreateResponse { html_url: s("https://x/1"), title: s("Bug"), id: 7 };
    assert_eq!(t.get_url(), "https://x/1");
    assert_eq!(t.get_title(), "Bug");
    assert_eq!(t.get_id(), 7);
}
