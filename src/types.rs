use vstd::prelude::*;

use crate::engine::{compile_diagnostic, script_compiles};

verus! {

/// Immutable process-wide settings, fixed at startup.
pub struct EnvInfo {
    /// The chat-platform credential, or the sentinel that disables chat.
    pub slack_token: String,
    /// The issue-tracker credential, or the sentinel that disables tickets.
    pub github_token: String,
    /// Where the handler snapshot is written.
    pub handlers_path: String,
}

/// A script's source text together with its compiled form.
pub struct ASTBox {
    pub ast: rhai::AST,
    pub raw: String,
}

/// A tenant-owned script, reachable at its address.
pub struct Handler {
    /// The address at which the handler is reachable.
    pub uri: String,
    /// The credential of the tenant who owns the handler.
    pub api_key: String,
    /// The source text and its compiled form, kept as one pair.
    pub code: ASTBox,
}

/// What a handler means to its callers: its owner and its source text.
pub struct HandlerView {
    pub owner: Seq<char>,
    pub source: Seq<char>,
}

impl View for Handler {
    type V = HandlerView;

    open spec fn view(&self) -> HandlerView {
        HandlerView { owner: self.api_key@, source: self.code.raw@ }
    }
}

impl Handler {
    /// A stored handler's source is always one that the engine accepts.
    pub open spec fn wf(&self) -> bool {
        script_compiles(self.code.raw@)
    }

    /// Compiles `code` and pairs it with its compiled form; fails with the engine's
    /// diagnostic when the engine rejects it.
    pub fn new(uri: String, api_key: String, code: String) -> (r: Result<Handler, String>)
        ensures
            r is Ok <==> script_compiles(code@),
            r is Err ==> r->Err_0@ == compile_diagnostic(code@),
            r is Ok ==> ({
                let h = r->Ok_0;
                &&& h.uri@ == uri@
                &&& h.api_key@ == api_key@
                &&& h.code.raw@ == code@
                &&& h.wf()
            }),
    {
        match crate::engine::compile_script(code.as_str()) {
            Ok(ast) => Ok(Handler { uri, api_key, code: ASTBox { ast, raw: code } }),
            Err(diagnostic) => Err(diagnostic),
        }
    }
}

/// A tenant's request to create or replace a handler.
#[derive(Debug)]
pub struct UpsertHandlerRequest {
    pub uri: String,
    pub api_key: String,
    pub code: String,
}

/// A tenant's request for the source of one of its handlers.
#[derive(Debug)]
pub struct FindHandlerRequest {
    pub uri: String,
    pub api_key: String,
}

/// The source of a handler, as returned to its owner.
#[derive(Debug)]
pub struct FindHandlerResponse {
    pub code: String,
}

/// A request that carries only a credential.
#[derive(Debug)]
pub struct APIKeyRequest {
    pub api_key: String,
}

/// The uniform result envelope.
#[derive(Debug)]
pub struct UserResponse {
    /// True on success, false on failure.
    pub status: bool,
    /// On success, what the handler returned (if anything); on failure, the cause.
    pub data: Option<String>,
}

impl UserResponse {
    /// Whether this is a failure carrying exactly `cause`.
    pub open spec fn is_failure_with(&self, cause: Seq<char>) -> bool {
        !self.status && self.data is Some && self.data->0@ == cause
    }

    /// Whether this is a success carrying exactly `payload`.
    pub open spec fn is_success_with(&self, payload: Seq<char>) -> bool {
        self.status && self.data is Some && self.data->0@ == payload
    }

    /// A successful response without data.
    pub fn success() -> (r: UserResponse)
        ensures
            r.status,
            r.data is None,
    {
        UserResponse { status: true, data: None }
    }

    /// A successful response carrying `data`.
    pub fn success_with_data(data: String) -> (r: UserResponse)
        ensures
            r.is_success_with(data@),
    {
        UserResponse { status: true, data: Some(data) }
    }

    /// A failed response carrying its cause.
    pub fn failure(cause: String) -> (r: UserResponse)
        ensures
            r.is_failure_with(cause@),
    {
        UserResponse { status: false, data: Some(cause) }
    }
}

/// The chat platform's endpoint-verification challenge.
#[derive(Debug)]
pub struct SlackVerification {
    pub token: String,
    pub challenge: String,
    pub req_type: String,
}

/// A chat-platform event envelope.
#[derive(Debug)]
pub struct SlackEvent {
    pub token: String,
    pub event: SlackEventInner,
    pub event_time: i64,
}

/// A chat message event.
#[derive(Debug)]
pub struct SlackEventInner {
    pub req_type: String,
    pub channel: String,
    pub user: String,
    pub text: String,
    pub ts: String,
}

/// An upstream reply of which only the `ok` flag matters.
#[derive(Debug)]
pub struct GenericOkResponse {
    pub ok: bool,
}

/// The directory's reply to a channel lookup.
#[derive(Debug)]
pub struct SlackConversationInfoResponse {
    pub ok: bool,
    pub channel: SlackConversationInfoResponseInner,
}

/// The channel part of a directory reply.
#[derive(Debug)]
pub struct SlackConversationInfoResponseInner {
    pub name: String,
}

/// A ticket filed in the issue tracker, as handed to scripts.
#[derive(Clone, Debug)]
pub struct GithubIssueCreateResponse {
    pub html_url: String,
    pub title: String,
    pub id: i32,
}

impl GithubIssueCreateResponse {
    /// The ticket's web address.
    pub fn get_url(&mut self) -> (r: String)
        ensures
            r@ == old(self).html_url@,
            *final(self) == *old(self),
    {
        self.html_url.clone()
    }

    /// The ticket's title.
    pub fn get_title(&mut self) -> (r: String)
        ensures
            r@ == old(self).title@,
            *final(self) == *old(self),
    {
        self.title.clone()
    }

    /// The ticket's numeric id.
    pub fn get_id(&mut self) -> (r: i32)
        ensures
            r == old(self).id,
            *final(self) == *old(self),
    {
        self.id
    }
}

} // verus!
