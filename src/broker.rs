use vstd::prelude::*;

use crate::types::EnvInfo;

verus! {

/// The chat credential value that means "not configured".
pub const NO_CHAT_CREDENTIAL: &'static str = "no-slack";

/// The issue-tracker credential value that means "not configured".
pub const NO_TICKET_CREDENTIAL: &'static str = "no-github";

/// The chat platform's message-posting endpoint.
pub const CHAT_POST_URL: &'static str = "https://slack.com/api/chat.postMessage";

/// The user agent sent to the issue tracker.
pub const TICKET_USER_AGENT: &'static str = "dti-majordomo";

/// An outbound HTTP POST, fully prepared: the host only sends it.
#[derive(Debug)]
pub struct OutboundRequest {
    pub url: String,
    /// Header names and values, in order.
    pub headers: Vec<(String, String)>,
    pub body: Option<String>,
}

impl OutboundRequest {
    /// The header at position `i`, as text.
    pub open spec fn header(&self, i: int) -> (Seq<char>, Seq<char>) {
        (self.headers@[i].0@, self.headers@[i].1@)
    }
}

/// A header line.
pub fn header(name: &str, value: String) -> (r: (String, String))
    ensures
        r.0@ == name@,
        r.1@ == value@,
{
    (String::from_str(name), value)
}

/// `prefix` followed by `s`.
pub fn prefixed(prefix: &str, s: &str) -> (r: String)
    ensures
        r@ == prefix@ + s@,
{
    let mut r = String::from_str(prefix);
    r.append(s);
    r
}

/// The JSON body of a chat message, with the channel and text written in as given.
pub open spec fn chat_body(channel: Seq<char>, text: Seq<char>) -> Seq<char> {
    "{ \"channel\": \""@ + channel + "\", \"text\": \""@ + text + "\", \"unfurl_links\": \"true\"}"@
}

/// The JSON body of a ticket, with the title and body written in as given.
pub open spec fn ticket_body(title: Seq<char>, body: Seq<char>) -> Seq<char> {
    "{ \"title\": \""@ + title + "\", \"body\": \""@ + body + "\"}"@
}

/// The tracker endpoint that files a ticket in `repo`.
pub open spec fn ticket_url(repo: Seq<char>) -> Seq<char> {
    "https://api.github.com/repos/"@ + repo + "/issues"@
}

/// The host operations granted to one invocation. It holds the credentials, which scripts
/// never see, and is built afresh for every invocation.
pub struct CapabilityBroker {
    slack_token: String,
    github_token: String,
    address: String,
}

impl CapabilityBroker {
    pub closed spec fn chat_credential(&self) -> Seq<char> {
        self.slack_token@
    }

    pub closed spec fn ticket_credential(&self) -> Seq<char> {
        self.github_token@
    }

    pub closed spec fn invoked_address(&self) -> Seq<char> {
        self.address@
    }

    /// Whether the chat capability is configured.
    pub open spec fn chat_enabled(&self) -> bool {
        self.chat_credential() != NO_CHAT_CREDENTIAL@
    }

    /// Whether the ticket capability is configured.
    pub open spec fn tickets_enabled(&self) -> bool {
        self.ticket_credential() != NO_TICKET_CREDENTIAL@
    }

    /// A broker for one invocation of the handler at `address`.
    pub fn new(env: &EnvInfo, address: &String) -> (r: CapabilityBroker)
        ensures
            r.chat_credential() == env.slack_token@,
            r.ticket_credential() == env.github_token@,
            r.invoked_address() == address@,
    {
        CapabilityBroker {
            slack_token: env.slack_token.clone(),
            github_token: env.github_token.clone(),
            address: address.clone(),
        }
    }

    /// The address of the handler this broker serves, for the host's log.
    pub fn address(&self) -> (r: &String)
        ensures
            r@ == self.invoked_address(),
    {
        &self.address
    }

    /// The request that posts `text` to `channel`; none at all when chat is not configured.
    pub fn chat_request(&self, channel: &String, text: &String) -> (r: Option<OutboundRequest>)
        ensures
            r is None <==> !self.chat_enabled(),
            r is Some ==> ({
                let q = r->0;
                &&& q.url@ == CHAT_POST_URL@
                &&& q.headers@.len() == 2
                &&& q.header(0) == ("authorization"@, "Bearer "@ + self.chat_credential())
                &&& q.header(1) == ("content-type"@, "application/json"@)
                &&& q.body is Some && q.body->0@ == chat_body(channel@, text@)
            }),
    {
        let disabled = String::from_str(NO_CHAT_CREDENTIAL);
        if self.slack_token == disabled {
            return None;
        }
        let mut headers: Vec<(String, String)> = Vec::new();
        headers.push(header("authorization", prefixed("Bearer ", self.slack_token.as_str())));
        headers.push(header("content-type", String::from_str("application/json")));
        let mut body = String::from_str("{ \"channel\": \"");
        body.append(channel.as_str());
        body.append("\", \"text\": \"");
        body.append(text.as_str());
        body.append("\", \"unfurl_links\": \"true\"}");
        Some(OutboundRequest { url: String::from_str(CHAT_POST_URL), headers, body: Some(body) })
    }

    /// Whether a chat message went through, given the upstream reply's `ok` flag when the
    /// reply could be read at all.
    pub fn chat_delivered(reply_ok: Option<bool>) -> (r: bool)
        ensures
            r <==> reply_ok == Some(true),
    {
        match reply_ok {
            Some(ok) => ok,
            None => false,
        }
    }

    /// The request that files a ticket in `repo`; none at all when tickets are not configured.
    pub fn ticket_request(&self, repo: &String, title: &String, body: &String) -> (r: Option<OutboundRequest>)
        ensures
            r is None <==> !self.tickets_enabled(),
            r is Some ==> ({
                let q = r->0;
                &&& q.url@ == ticket_url(repo@)
                &&& q.headers@.len() == 2
                &&& q.header(0) == ("authorization"@, "token "@ + self.ticket_credential())
                &&& q.header(1) == ("user-agent"@, TICKET_USER_AGENT@)
                &&& q.body is Some && q.body->0@ == ticket_body(title@, body@)
            }),
    {
        let disabled = String::from_str(NO_TICKET_CREDENTIAL);
        if self.github_token == disabled {
            return None;
        }
        let mut headers: Vec<(String, String)> = Vec::new();
        headers.push(header("authorization", prefixed("token ", self.github_token.as_str())));
        headers.push(header("user-agent", String::from_str(TICKET_USER_AGENT)));
        let mut url = String::from_str("https://api.github.com/repos/");
        url.append(repo.as_str());
        url.append("/issues");
        let mut text = String::from_str("{ \"title\": \"");
        text.append(title.as_str());
        text.append("\", \"body\": \"");
        text.append(body.as_str());
        text.append("\"}");
        Some(OutboundRequest { url, headers, body: Some(text) })
    }
}

} // verus!
