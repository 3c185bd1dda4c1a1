use vstd::prelude::*;

use crate::engine::{run_script, Invocation, Sandbox};
use crate::keys::ApiKeys;
use crate::registry::{error_message, upsert_allowed, upserted, Registry, ServiceError};
use crate::types::{FindHandlerRequest, FindHandlerResponse, UpsertHandlerRequest, UserResponse};

verus! {

/// The script function that every invocation calls.
pub const ENTRYPOINT: &'static str = "handle";

/// The cause returned when a script fails at run time; the engine's own diagnostic is kept
/// from the caller.
pub const RUN_FAILURE: &'static str = "Error running client code!";

/// The cause returned when the snapshot could not be written.
pub const SAVE_FAILURE: &'static str = "Server error while saving db";

/// JSON text of an array of strings.
pub uninterp spec fn json_string_array(items: Seq<Seq<char>>) -> Seq<char>;

/// Relies on `serde_json::to_string` on a list of strings: the JSON array text of those
/// strings, which depends on them alone. It fails only through a failing `Serialize` impl or
/// a map with non-string keys, and a list of strings has neither.
#[verifier::external_body]
fn encode_string_list(items: &Vec<String>) -> (r: Option<String>)
    ensures
        r is Some,
        r->0@ == json_string_array(items@.map_values(|s: String| s@)),
{
    serde_json::to_string(items).ok()
}

/// The failure envelope for `e`.
pub fn failure_for(e: &ServiceError) -> (r: UserResponse)
    ensures
        r.is_failure_with(error_message(*e)),
{
    UserResponse::failure(e.message())
}

/// The envelope for a finished script run: its output on success, a fixed cause on failure.
pub fn invocation_response(outcome: Result<String, String>) -> (r: UserResponse)
    ensures
        outcome is Ok ==> r.is_success_with(outcome->Ok_0@),
        outcome is Err ==> r.is_failure_with(RUN_FAILURE@),
{
    match outcome {
        Ok(output) => UserResponse::success_with_data(output),
        Err(_) => UserResponse::failure(String::from_str(RUN_FAILURE)),
    }
}

/// The cause returned for an address with no handler.
pub open spec fn missing_endpoint(address: Seq<char>) -> Seq<char> {
    "Unable to find endpoint "@ + address
}

/// The run of the handler at `address` on `payload`: that handler, the entry point, and the
/// payload unchanged. An unknown address gives its failure envelope instead.
pub fn prepare_invocation<'a>(registry: &'a Registry, address: &String, payload: String) -> (r: Result<Invocation<'a>, UserResponse>)
    ensures
        r is Err <==> !registry@.contains_key(address@),
        r is Err ==> r->Err_0.is_failure_with(missing_endpoint(address@)),
        r is Ok ==> ({
            let inv = r->Ok_0;
            &&& inv.handler@ == registry@[address@]
            &&& inv.handler.uri@ == address@
            &&& inv.entrypoint@ == ENTRYPOINT@
            &&& inv.payload@ == payload@
        }),
{
    match registry.lookup(address) {
        Some(handler) => Ok(Invocation { handler, entrypoint: String::from_str(ENTRYPOINT), payload }),
        None => {
            let mut cause = String::from_str("Unable to find endpoint ");
            cause.append(address.as_str());
            Err(UserResponse::failure(cause))
        },
    }
}

/// Runs a prepared invocation in `sandbox`. Beside the envelope comes the engine's diagnostic
/// when the script failed, for the host's log only.
pub fn run_invocation(sandbox: &Sandbox, invocation: Invocation) -> (r: (UserResponse, Option<String>))
    ensures
        (r.0.status && r.0.data is Some && r.1 is None) || (r.0.is_failure_with(RUN_FAILURE@) && r.1 is Some),
{
    let outcome = run_script(sandbox, invocation);
    let diagnostic = match &outcome {
        Ok(_) => None,
        Err(d) => Some(d.clone()),
    };
    (invocation_response(outcome), diagnostic)
}

/// Runs the handler at `address` on `payload` in `sandbox`, which carries the operation
/// ceiling and the capabilities granted to this invocation: `prepare_invocation`, then
/// `run_invocation`. An unknown address fails without running anything.
pub fn handle_invocation(registry: &Registry, sandbox: &Sandbox, address: &String, payload: String) -> (r: (UserResponse, Option<String>))
    ensures
        !registry@.contains_key(address@) ==> r.0.is_failure_with(missing_endpoint(address@)) && r.1 is None,
        registry@.contains_key(address@) ==> (r.0.status && r.0.data is Some && r.1 is None)
            || (r.0.is_failure_with(RUN_FAILURE@) && r.1 is Some),
{
    match prepare_invocation(registry, address, payload) {
        Ok(invocation) => run_invocation(sandbox, invocation),
        Err(failure) => (failure, None),
    }
}

/// Membership check of a credential.
pub fn verify_key(api_keys: &ApiKeys, api_key: &String) -> (r: UserResponse)
    ensures
        api_keys@.contains(api_key@) ==> r.status && r.data is None,
        !api_keys@.contains(api_key@) ==> r.is_failure_with(error_message(ServiceError::InvalidApiKey)),
{
    if api_keys.contains(api_key) {
        UserResponse::success()
    } else {
        failure_for(&ServiceError::InvalidApiKey)
    }
}

/// Lists every registered address, as a JSON array, to any holder of a valid credential.
pub fn list_handlers(api_keys: &ApiKeys, registry: &Registry, api_key: &String) -> (r: UserResponse)
    ensures
        !api_keys@.contains(api_key@) ==> r.is_failure_with(error_message(ServiceError::InvalidApiKey)),
        api_keys@.contains(api_key@) ==> r.is_success_with(json_string_array(registry.address_seq())),
{
    if !api_keys.contains(api_key) {
        return failure_for(&ServiceError::InvalidApiKey);
    }
    let addresses = registry.addresses();
    let encoded = encode_string_list(&addresses);
    UserResponse::success_with_data(encoded.unwrap())
}

/// The source of a handler, for its owner holding a valid credential.
pub fn find_handler(api_keys: &ApiKeys, registry: &Registry, request: &FindHandlerRequest) -> (r: Result<FindHandlerResponse, ServiceError>)
    ensures
        r is Ok <==> api_keys@.contains(request.api_key@) && registry@.contains_key(request.uri@)
            && registry@[request.uri@].owner == request.api_key@,
        r is Ok ==> r->Ok_0.code@ == registry@[request.uri@].source,
        !api_keys@.contains(request.api_key@) ==> r is Err && r->Err_0 is InvalidApiKey,
        api_keys@.contains(request.api_key@) && !registry@.contains_key(request.uri@) ==> r is Err && r->Err_0 is UnknownHandler,
        registry@.contains_key(request.uri@) && registry@[request.uri@].owner != request.api_key@
            ==> r is Err && r->Err_0 is InvalidApiKey,
{
    if !api_keys.contains(&request.api_key) {
        return Err(ServiceError::InvalidApiKey);
    }
    match registry.find(&request.uri, &request.api_key) {
        Ok(code) => Ok(FindHandlerResponse { code }),
        Err(e) => Err(e),
    }
}

/// Creates or replaces a handler for a holder of a valid credential. On success the caller
/// persists the registry while it still holds it exclusively.
pub fn upsert_handler(api_keys: &ApiKeys, registry: &mut Registry, request: UpsertHandlerRequest) -> (r: Result<(), ServiceError>)
    ensures
        !api_keys@.contains(request.api_key@) ==> r is Err && r->Err_0 is InvalidApiKey && final(registry)@ == old(registry)@,
        api_keys@.contains(request.api_key@) ==> {
            &&& final(registry)@ == upserted(old(registry)@, request.uri@, request.api_key@, request.code@)
            &&& r is Ok <==> upsert_allowed(old(registry)@, request.uri@, request.api_key@, request.code@)
            &&& !crate::engine::script_compiles(request.code@) ==> r is Err && r->Err_0 is CompileError
                && r->Err_0->CompileError_0@ == crate::engine::compile_diagnostic(request.code@)
            &&& crate::engine::script_compiles(request.code@) && old(registry)@.contains_key(request.uri@)
                && old(registry)@[request.uri@].owner != request.api_key@ ==> r is Err && r->Err_0 is OwnershipMismatch
        },
{
    if !api_keys.contains(&request.api_key) {
        return Err(ServiceError::InvalidApiKey);
    }
    registry.upsert(request.uri, request.api_key, request.code)
}

/// The envelope for a finished upsert, given whether its snapshot was written.
pub fn upsert_response(result: &Result<(), ServiceError>, saved: bool) -> (r: UserResponse)
    ensures
        result is Err ==> r.is_failure_with(error_message(result->Err_0)),
        result is Ok && saved ==> r.status && r.data is None,
        result is Ok && !saved ==> r.is_failure_with(SAVE_FAILURE@),
{
    match result {
        Err(e) => failure_for(e),
        Ok(()) => if saved {
            UserResponse::success()
        } else {
            UserResponse::failure(String::from_str(SAVE_FAILURE))
        },
    }
}

} // verus!
