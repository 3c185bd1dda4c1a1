use vstd::prelude::*;

use crate::broker::{header, prefixed, OutboundRequest};
use crate::dispatch::{missing_endpoint, prepare_invocation, run_invocation, ENTRYPOINT, RUN_FAILURE};
use crate::engine::{Invocation, Sandbox};
use crate::registry::Registry;
use crate::types::{SlackEventInner, UserResponse};

verus! {

/// The prefix that turns a channel name into a handler address.
pub const CHANNEL_ADDRESS_PREFIX: &'static str = "slack-";

/// The directory endpoint that resolves a channel id; the id is appended.
pub const CHANNEL_INFO_URL: &'static str = "https://slack.com/api/conversations.info?channel=";

/// The handler address that events of the channel named `name` are routed to.
pub open spec fn channel_address(name: Seq<char>) -> Seq<char> {
    CHANNEL_ADDRESS_PREFIX@ + name
}

/// Whether position `i` holds the first space of `t`.
pub open spec fn is_first_space(t: Seq<char>, i: int) -> bool {
    &&& 0 <= i < t.len()
    &&& t[i] == ' '
    &&& forall|j: int| 0 <= j < i ==> t[j] != ' '
}

/// The payload of a chat command: what follows its first space, or the whole text when it
/// holds no space.
pub open spec fn command_payload(t: Seq<char>) -> Seq<char> {
    if exists|i: int| is_first_space(t, i) {
        let i = choose|i: int| is_first_space(t, i);
        t.subrange(i + 1, t.len() as int)
    } else {
        t
    }
}

/// The request that asks the directory for the name of channel `channel`.
pub fn channel_info_request(slack_token: &String, channel: &String) -> (r: OutboundRequest)
    ensures
        r.url@ == CHANNEL_INFO_URL@ + channel@,
        r.headers@.len() == 2,
        r.header(0) == ("authorization"@, "Bearer "@ + slack_token@),
        r.header(1) == ("content-type"@, "application/x-www-form-urlencoded"@),
        r.body is None,
{
    let mut headers: Vec<(String, String)> = Vec::new();
    headers.push(header("authorization", prefixed("Bearer ", slack_token.as_str())));
    headers.push(header("content-type", String::from_str("application/x-www-form-urlencoded")));
    OutboundRequest { url: prefixed(CHANNEL_INFO_URL, channel.as_str()), headers, body: None }
}

/// The handler address for the channel named `name`.
pub fn event_address(name: &String) -> (r: String)
    ensures
        r@ == channel_address(name@),
{
    prefixed(CHANNEL_ADDRESS_PREFIX, name.as_str())
}

/// The dispatch payload of a chat message: its leading token stripped.
pub fn event_payload(text: &String) -> (r: String)
    ensures
        r@ == command_payload(text@),
{
    let s = text.as_str();
    let n = s.unicode_len();
    let mut i: usize = 0;
    while i < n
        invariant
            n == s@.len(),
            s@ == text@,
            0 <= i <= n,
            forall|j: int| 0 <= j < i ==> s@[j] != ' ',
        decreases n - i,
    {
        if s.get_char(i) == ' ' {
            proof {
                assert(is_first_space(text@, i as int));
                let k = choose|k: int| is_first_space(text@, k);
                if k < i {
                    assert(text@[k] == ' ');
                } else if i < k {
                    assert(text@[i as int] == ' ');
                }
            }
            return String::from_str(s.substring_char(i + 1, n));
        }
        i = i + 1;
    }
    assert(!exists|k: int| is_first_space(text@, k));
    text.clone()
}

/// The run for a chat message from the channel named `channel_name`: the handler at the
/// channel's address, the entry point, and the message with its leading token stripped.
/// A channel without a handler gives its failure envelope instead.
pub fn prepare_event<'a>(registry: &'a Registry, channel_name: &String, event: &SlackEventInner) -> (r: Result<Invocation<'a>, UserResponse>)
    ensures
        ({
            let address = channel_address(channel_name@);
            &&& r is Err <==> !registry@.contains_key(address)
            &&& r is Err ==> r->Err_0.is_failure_with(missing_endpoint(address))
            &&& r is Ok ==> ({
                let inv = r->Ok_0;
                &&& inv.handler@ == registry@[address]
                &&& inv.handler.uri@ == address
                &&& inv.entrypoint@ == ENTRYPOINT@
                &&& inv.payload@ == command_payload(event.text@)
            })
        }),
{
    let address = event_address(channel_name);
    let payload = event_payload(&event.text);
    prepare_invocation(registry, &address, payload)
}

/// Routes a chat message from the channel named `channel_name` to its handler, exactly as a
/// direct call of that address with the stripped text would be: `prepare_event`, then
/// `run_invocation`.
pub fn dispatch_event(registry: &Registry, sandbox: &Sandbox, channel_name: &String, event: &SlackEventInner) -> (r: (UserResponse, Option<String>))
    ensures
        ({
            let address = channel_address(channel_name@);
            &&& !registry@.contains_key(address) ==> r.0.is_failure_with(missing_endpoint(address)) && r.1 is None
            &&& registry@.contains_key(address) ==> (r.0.status && r.0.data is Some && r.1 is None)
                || (r.0.is_failure_with(RUN_FAILURE@) && r.1 is Some)
        }),
{
    match prepare_event(registry, channel_name, event) {
        Ok(invocation) => run_invocation(sandbox, invocation),
        Err(failure) => (failure, None),
    }
}

} // verus!
