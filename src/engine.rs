use vstd::prelude::*;

use crate::types::Handler;

verus! {

#[verifier::external_type_specification]
#[verifier::external_body]
pub struct ExEngine(rhai::Engine);

#[verifier::external_type_specification]
#[verifier::external_body]
pub struct ExAst(rhai::AST);

/// What the script engine, in its default configuration, makes of `source`: nothing when it
/// accepts the script, its diagnostic text when it rejects it.
pub uninterp spec fn compile_outcome(source: Seq<char>) -> Option<Seq<char>>;

/// Whether the script engine, in its default configuration, accepts `source`.
pub open spec fn script_compiles(source: Seq<char>) -> bool {
    compile_outcome(source) is None
}

/// The engine's diagnostic for a rejected `source`.
pub open spec fn compile_diagnostic(source: Seq<char>) -> Seq<char> {
    compile_outcome(source)->0
}

/// Relies on rhai's `Engine::compile` on a default engine: whether a script is accepted, and
/// the text of the `ParseError` when it is not, depend on the script's text alone.
#[verifier::external_body]
pub(crate) fn compile_script(source: &str) -> (r: Result<rhai::AST, String>)
    ensures
        r is Ok <==> compile_outcome(source@) is None,
        r is Err ==> compile_outcome(source@) == Some(r->Err_0@),
{
    match rhai::Engine::new().compile(source) {
        Ok(ast) => Ok(ast),
        Err(e) => Err(e.to_string()),
    }
}

/// Relies on rhai's `Engine::new`: an engine with the standard packages and no host functions.
#[verifier::external_body]
fn new_engine() -> rhai::Engine {
    rhai::Engine::new()
}

/// Relies on rhai's `Engine::set_max_operations`: scripts run on this engine are stopped
/// with an error once they exceed `limit` operations.
#[verifier::external_body]
fn set_operation_limit(engine: &mut rhai::Engine, limit: u64) {
    engine.set_max_operations(limit);
}

/// One script run, fully prepared: the handler whose compiled form runs, the script function
/// that is called, and its one argument.
pub struct Invocation<'a> {
    pub handler: &'a Handler,
    pub entrypoint: String,
    pub payload: String,
}

/// Relies on rhai's `Engine::call_fn`: calls the script function `entrypoint` of the handler's
/// compiled form with the payload as its one argument, in a fresh scope. What comes back
/// depends on the host functions that the engine exposes, so nothing is promised of it; any
/// engine error is handed back as text.
#[verifier::external_body]
pub(crate) fn run_script(sandbox: &Sandbox, invocation: Invocation) -> (r: Result<String, String>) {
    let mut scope = rhai::Scope::new();
    let args = (invocation.payload,);
    match sandbox.engine.call_fn::<String>(&mut scope, &invocation.handler.code.ast, invocation.entrypoint, args) {
        Ok(s) => Ok(s),
        Err(e) => Err(e.to_string()),
    }
}

/// The abstract-operation ceiling that bounds every script run.
pub const MAX_OPERATIONS: u64 = 1000;

/// The engine that scripts run on. Only `Sandbox::new` builds one, with the operation
/// ceiling set and no host capabilities yet.
pub struct Sandbox {
    engine: rhai::Engine,
}

impl Sandbox {
    /// The engine inside.
    pub closed spec fn engine(&self) -> rhai::Engine {
        self.engine
    }

    /// A fresh engine bounded by the operation ceiling.
    pub fn new() -> (r: Sandbox) {
        let mut engine = new_engine();
        set_operation_limit(&mut engine, MAX_OPERATIONS);
        Sandbox { engine }
    }

    /// The engine, for granting it host capabilities.
    pub fn engine_mut(&mut self) -> (r: &mut rhai::Engine)
        ensures
            *r == old(self).engine(),
            final(self).engine() == *final(r),
    {
        &mut self.engine
    }
}

} // verus!
