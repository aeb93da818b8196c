//! The driver of one invocation: memory, compilation, linking,
//! instantiation, entry-point resolution and the call itself.
//!
//! The driver works in two halves. [`prepare`] allocates the memory,
//! compiles the bytecode and starts the import table with the memory
//! export. The caller then binds the catalog to that table. [`execute`]
//! instantiates the module, resolves the entry point and calls it, and
//! [`conclude`] pairs what happened with the outcome that host logic
//! accumulated.

use crate::bridge::{engine_behind, plain_store};
use crate::catalog::{IMPORT_NAMESPACE, MEMORY_EXPORT};
use crate::errors::{
    classify_host_failure, classify_stop, host_failure_error, stop_error, CallError,
    ExecutionError, HostFailure, MethodResolveError, TrapKind,
};
use crate::memory::{limits_valid, memory_store, WasmtimeMemory};
use vstd::prelude::*;
use vstd::string::StringSliceAdditionalSpecFns;
use vstd::utf8::valid_utf8;
use wasmtime::{Engine, Func, Instance, Linker, Memory, Module, Store, Trap, TrapCode};

verus! {

/// Compiled bytecode.
#[verifier::external_type_specification]
#[verifier::external_body]
pub struct ExModule(Module);

/// The import table under construction.
#[verifier::external_type_specification]
#[verifier::external_body]
pub struct ExLinker(Linker);

/// A module linked against its imports and ready to run.
#[verifier::external_type_specification]
#[verifier::external_body]
pub struct ExInstance(Instance);

/// A function exported by an instance.
#[verifier::external_type_specification]
#[verifier::external_body]
pub struct ExFunc(Func);

/// The engine's signal that sandboxed code stopped abnormally.
#[verifier::external_type_specification]
#[verifier::external_body]
pub struct ExTrap(Trap);

/// The engine's general failure value.
#[verifier::external_type_specification]
#[verifier::external_body]
pub struct ExError(anyhow::Error);

/// Whether the engine accepts the bytes as a module: whether
/// `wasmtime::Module::new` succeeds on them.
pub uninterp spec fn compiles(engine: Engine, code: Seq<u8>) -> bool;

/// The store that an import table was made for: what
/// `wasmtime::Linker::store` reports of it.
pub uninterp spec fn linker_store(linker: Linker) -> Store;

/// Whether an import table holds a definition under the two names.
pub uninterp spec fn linker_defines(linker: Linker, namespace: Seq<char>, name: Seq<char>) -> bool;

/// The store that an instance lives in: what `wasmtime::Instance::store`
/// reports of it.
pub uninterp spec fn instance_store(instance: Instance) -> Store;

/// The store that a function belongs to: what `wasmtime::Func::store`
/// reports of it.
pub uninterp spec fn func_store(func: Func) -> Store;

/// The text of a trap: what its `Display` implementation writes.
pub uninterp spec fn trap_text(trap: Trap) -> Seq<char>;

/// The text of a failure of the engine: what its `Display` implementation
/// writes.
pub uninterp spec fn failure_text(error: anyhow::Error) -> Seq<char>;

/// Calls `wasmtime::Store::engine`: the engine that the store belongs to.
#[verifier::external_body]
fn engine_of(store: &Store) -> (r: &Engine)
    ensures
        *r == engine_behind(*store),
{
    store.engine()
}

/// Calls `wasmtime::Module::new`: compiles `code` for `engine`. Whether
/// compilation succeeds depends on the engine and the bytes alone.
#[verifier::external_body]
fn compile(engine: &Engine, code: &[u8]) -> (r: Result<Module, anyhow::Error>)
    ensures
        r is Ok <==> compiles(*engine, code@),
{
    Module::new(engine, code)
}

/// Calls `wasmtime::Linker::new`: an import table for `store` that holds
/// no definition yet.
#[verifier::external_body]
fn new_linker(store: &Store) -> (r: Linker)
    ensures
        linker_store(r) == *store,
        forall|namespace: Seq<char>, name: Seq<char>| !linker_defines(r, namespace, name),
{
    Linker::new(store)
}

/// Calls `wasmtime::Linker::define` with `memory` under the given names.
/// The engine refuses an item of another store and a pair of names that is
/// already defined, and nothing else. On success the table holds a
/// definition under the names. The table stays with its store.
#[verifier::external_body]
fn define_memory(linker: &mut Linker, namespace: &str, name: &str, memory: Memory) -> (r: Result<
    (),
    anyhow::Error,
>)
    ensures
        linker_store(*final(linker)) == linker_store(*old(linker)),
        memory_store(memory) == linker_store(*old(linker)) && !linker_defines(
            *old(linker),
            namespace@,
            name@,
        ) ==> r is Ok,
        r is Ok ==> linker_defines(*final(linker), namespace@, name@),
{
    linker.define(namespace, name, memory).map(|_| ())
}

/// Calls `wasmtime::Linker::instantiate`: resolves the imports of `module`
/// in the table and instantiates it, which runs its start function. The
/// engine aborts this blocking call on a store with async support, so such
/// stores are left out. The instance lives in the store of the table.
#[verifier::external_body]
fn instantiate(linker: &Linker, module: &Module) -> (r: Result<Instance, anyhow::Error>)
    requires
        plain_store(linker_store(*linker)),
    ensures
        r is Ok ==> instance_store(r->Ok_0) == linker_store(*linker),
{
    linker.instantiate(module)
}

/// Calls `wasmtime::Instance::get_func`: the exported function of that
/// name, if the instance exports one. The function belongs to the store of
/// the instance.
#[verifier::external_body]
fn find_function(instance: &Instance, name: &str) -> (r: Option<Func>)
    ensures
        r is Some ==> func_store(r->0) == instance_store(*instance),
{
    instance.get_func(name)
}

/// Calls `wasmtime::Func::param_arity`: the number of parameters.
#[verifier::external_body]
fn param_arity(func: &Func) -> (r: usize) {
    func.param_arity()
}

/// Calls `wasmtime::Func::result_arity`: the number of results.
#[verifier::external_body]
fn result_arity(func: &Func) -> (r: usize) {
    func.result_arity()
}

/// Calls `wasmtime::Func::call` without arguments and drops the (empty)
/// list of results. The engine reports a mismatch of arity as a failure;
/// it aborts this blocking call on a store with async support, so such
/// stores are left out.
#[verifier::external_body]
fn call_without_arguments(func: &Func) -> (r: Result<(), anyhow::Error>)
    requires
        plain_store(func_store(*func)),
{
    func.call(&[]).map(|_| ())
}

/// The trap that a failure of the engine holds, if it holds one: what
/// `anyhow::Error::downcast` finds in it for `wasmtime::Trap`.
pub uninterp spec fn trap_in(error: anyhow::Error) -> Option<Trap>;

/// The category that the engine recorded for a trap: what
/// `wasmtime::Trap::trap_code` reports, in this library's names, and none
/// where the engine recorded none or one that is not known here.
pub uninterp spec fn trap_category(trap: Trap) -> Option<TrapKind>;

/// Calls `anyhow::Error::downcast` for `wasmtime::Trap`: the trap, if the
/// failure holds one, else the failure itself, unchanged.
#[verifier::external_body]
fn into_trap(error: anyhow::Error) -> (r: Result<Trap, anyhow::Error>)
    ensures
        r is Ok ==> trap_in(error) == Some(r->Ok_0),
        r is Err ==> trap_in(error) is None && r->Err_0 == error,
{
    error.downcast::<Trap>()
}

/// Formats a `wasmtime::Trap` with its `Display` implementation.
#[verifier::external_body]
fn trap_message(trap: &Trap) -> (r: String)
    ensures
        r@ == trap_text(*trap),
{
    format!("{}", trap)
}

/// Calls `wasmtime::Trap::trap_code` and names the code as this library
/// does, variant for variant. The engine gives no code for a trap that a
/// host function raised, and may add codes that are not known here.
#[verifier::external_body]
fn trap_kind(trap: &Trap) -> (r: Option<TrapKind>)
    ensures
        r == trap_category(*trap),
{
    Some(match trap.trap_code()? {
        TrapCode::StackOverflow => TrapKind::StackOverflow,
        TrapCode::MemoryOutOfBounds => TrapKind::MemoryOutOfBounds,
        TrapCode::HeapMisaligned => TrapKind::HeapMisaligned,
        TrapCode::TableOutOfBounds => TrapKind::TableOutOfBounds,
        TrapCode::IndirectCallToNull => TrapKind::IndirectCallToNull,
        TrapCode::BadSignature => TrapKind::BadSignature,
        TrapCode::IntegerOverflow => TrapKind::IntegerOverflow,
        TrapCode::IntegerDivisionByZero => TrapKind::IntegerDivisionByZero,
        TrapCode::BadConversionToInteger => TrapKind::BadConversionToInteger,
        TrapCode::UnreachableCodeReached => TrapKind::UnreachableCodeReached,
        TrapCode::Interrupt => TrapKind::Interrupt,
        _ => return None,
    })
}

/// Formats an `anyhow::Error` with its `Display` implementation.
#[verifier::external_body]
fn error_text(error: &anyhow::Error) -> (r: String)
    ensures
        r@ == failure_text(*error),
{
    format!("{}", error)
}

/// Calls `std::str::from_utf8`: the bytes as text, if and only if they are
/// valid UTF-8; the text then has exactly those bytes.
#[verifier::external_body]
fn text_of(bytes: &[u8]) -> (r: Option<&str>)
    ensures
        r is Some <==> valid_utf8(bytes@),
        r is Some ==> r->0.spec_bytes() == bytes@,
{
    std::str::from_utf8(bytes).ok()
}

/// What [`prepare`] hands over: the memory of the invocation, the compiled
/// module, and the import table, which so far exports the memory.
pub struct Prepared {
    pub memory: WasmtimeMemory,
    pub module: Module,
    pub linker: Linker,
}

/// How the second half of an invocation went.
#[derive(Debug, PartialEq)]
pub enum Execution {
    /// An import could not be satisfied. No sandboxed code has run.
    LinkFailed { message: String },
    /// Instantiation stopped abnormally while it ran sandboxed code.
    InstantiationTrapped { kind: Option<TrapKind>, message: String },
    /// The entry point could not be resolved. It was not called.
    ResolveFailed(MethodResolveError),
    /// The entry point was called and returned.
    Returned,
    /// The entry point was called and stopped abnormally.
    Trapped { kind: Option<TrapKind>, message: String },
    /// The entry point was called and the engine reported a failure that is
    /// no trap.
    Faulted { message: String },
}

/// The state in which an invocation comes to rest.
#[derive(Clone, Copy, Debug, PartialEq, Eq, Structural)]
pub enum Termination {
    /// The entry point returned and nothing failed.
    Completed,
    /// Sandboxed code ran and stopped abnormally.
    Trapped,
    /// The invocation failed before the entry point was called and before
    /// any sandboxed code ran.
    Failed,
}

impl Execution {
    /// The state in which the invocation comes to rest, given the host
    /// failure that was pending when the engine came back, if any.
    pub open spec fn termination(self, pending: Option<HostFailure>) -> Termination {
        match self {
            Execution::LinkFailed { .. } | Execution::ResolveFailed(_) => Termination::Failed,
            Execution::Returned => if pending is None {
                Termination::Completed
            } else {
                Termination::Trapped
            },
            _ => Termination::Trapped,
        }
    }

    /// Whether sandboxed code may have run, so that the accumulated outcome
    /// must be returned.
    pub open spec fn outcome_owed(self) -> bool {
        self is InstantiationTrapped || self is Returned || self is Trapped || self is Faulted
    }

    /// Whether the entry point was called.
    pub open spec fn invoked(self) -> bool {
        self is Returned || self is Trapped || self is Faulted
    }

    /// Tells in which state the invocation comes to rest; `host_failed`
    /// says whether a host failure was pending when the engine came back.
    pub fn ending(&self, host_failed: bool) -> (r: Termination)
        ensures
            forall|pending: Option<HostFailure>|
                pending is Some == host_failed ==> r == self.termination(pending),
    {
        match self {
            Execution::LinkFailed { .. } | Execution::ResolveFailed(_) => Termination::Failed,
            Execution::Returned => if host_failed {
                Termination::Trapped
            } else {
                Termination::Completed
            },
            _ => Termination::Trapped,
        }
    }

    /// The error to report, given the host failure that was pending when
    /// the engine came back, if any.
    pub open spec fn reported_error(self, pending: Option<HostFailure>) -> Option<CallError> {
        match self {
            Execution::LinkFailed { message } => Some(CallError::LinkError { message }),
            Execution::ResolveFailed(kind) => Some(CallError::MethodResolveError(kind)),
            Execution::InstantiationTrapped { kind, message }
            | Execution::Trapped { kind, message } => Some(
                CallError::ExecutionError(stop_error(pending, kind, message)),
            ),
            Execution::Returned => match pending {
                Some(failure) => Some(CallError::ExecutionError(host_failure_error(failure))),
                None => None,
            },
            Execution::Faulted { message } => match pending {
                Some(failure) => Some(CallError::ExecutionError(host_failure_error(failure))),
                None => Some(CallError::ExecutionError(ExecutionError::Unclassified { message })),
            },
        }
    }
}

/// The error for memory limits that describe no memory.
pub open spec fn limits_error(initial_pages: u32, max_pages: u32) -> CallError {
    CallError::InvalidMemoryLimits { initial_pages, max_pages }
}

/// What resolution decides for an entry point of the given arity: it must
/// take no parameters and return nothing.
pub open spec fn entry_signature_ok(params: int, results: int) -> bool {
    params == 0 && results == 0
}

/// Decodes the name of the entry point. The raw bytes must be valid UTF-8.
pub fn decode_method_name(method_name: &[u8]) -> (r: Result<&str, MethodResolveError>)
    ensures
        r is Ok <==> valid_utf8(method_name@),
        r is Ok ==> r->Ok_0.spec_bytes() == method_name@,
        r is Err ==> r->Err_0 == MethodResolveError::InvalidEncoding,
{
    match text_of(method_name) {
        Some(name) => Ok(name),
        None => Err(MethodResolveError::InvalidEncoding),
    }
}

/// Decides whether an exported function of the given arity can serve as
/// entry point.
pub fn check_entry_signature(params: usize, results: usize) -> (r: Result<(), MethodResolveError>)
    ensures
        r is Ok <==> entry_signature_ok(params as int, results as int),
        r is Err ==> r->Err_0 == MethodResolveError::InvalidSignature,
{
    if params == 0 && results == 0 {
        Ok(())
    } else {
        Err(MethodResolveError::InvalidSignature)
    }
}

/// The first half of an invocation: allocates the memory with the
/// configured page counts, compiles `code`, and starts the import table
/// with the memory export. Limits that describe no memory are rejected
/// before anything else is tried. Bytes that the engine does not accept as
/// a module are a compile error. Nothing else fails: the table that comes
/// back holds the memory under its export name.
pub fn prepare(store: &Store, code: &[u8], initial_memory_pages: u32, max_memory_pages: u32) -> (r:
    Result<Prepared, CallError>)
    requires
        plain_store(*store),
    ensures
        !limits_valid(initial_memory_pages, max_memory_pages) ==> r is Err && r->Err_0
            == limits_error(initial_memory_pages, max_memory_pages),
        limits_valid(initial_memory_pages, max_memory_pages) && !compiles(
            engine_behind(*store),
            code@,
        ) ==> r is Err && r->Err_0 is CompileError,
        limits_valid(initial_memory_pages, max_memory_pages) && compiles(
            engine_behind(*store),
            code@,
        ) ==> r is Ok,
        r is Ok ==> r->Ok_0.memory.limits() == (initial_memory_pages, Some(max_memory_pages))
            && r->Ok_0.memory.store() == *store && linker_store(r->Ok_0.linker) == *store
            && linker_defines(r->Ok_0.linker, IMPORT_NAMESPACE@, MEMORY_EXPORT@),
{
    let memory = match WasmtimeMemory::new(store, initial_memory_pages, max_memory_pages) {
        Ok(memory) => memory,
        Err(_) => {
            return Err(
                CallError::InvalidMemoryLimits {
                    initial_pages: initial_memory_pages,
                    max_pages: max_memory_pages,
                },
            );
        },
    };
    let module = match compile(engine_of(store), code) {
        Ok(module) => module,
        Err(e) => {
            return Err(CallError::CompileError { message: error_text(&e) });
        },
    };
    let mut linker = new_linker(store);
    match define_memory(&mut linker, IMPORT_NAMESPACE, MEMORY_EXPORT, memory.clone()) {
        Ok(()) => Ok(Prepared { memory, module, linker }),
        Err(e) => Err(CallError::LinkError { message: error_text(&e) }),
    }
}

/// The answer for an invocation that failed before the import table was
/// complete: no host logic has run, so the error comes without an outcome.
pub fn abandon<O>(error: CallError) -> (r: (Option<O>, Option<CallError>))
    ensures
        r.0 is None,
        r.1 == Some(error),
{
    (None, Some(error))
}

/// Whether `ending` reports the failure of an instantiation as it is
/// owed: a failure that holds a trap as that trap, with its category and
/// its text; any other failure as a failure to link, with its text.
pub open spec fn reports_instantiation_failure(error: anyhow::Error, ending: Execution) -> bool {
    match trap_in(error) {
        Some(trap) => ending matches Execution::InstantiationTrapped { kind, message } && kind
            == trap_category(trap) && message@ == trap_text(trap),
        None => ending matches Execution::LinkFailed { message } && message@ == failure_text(
            error,
        ),
    }
}

/// Whether `ending` reports the result of the call of the entry point as
/// it is owed: a return as a return; a failure that holds a trap as that
/// trap, with its category and its text; any other failure as a fault of
/// the engine, with its text.
pub open spec fn reports_call(result: Result<(), anyhow::Error>, ending: Execution) -> bool {
    match result {
        Ok(_) => ending is Returned,
        Err(error) => match trap_in(error) {
            Some(trap) => ending matches Execution::Trapped { kind, message } && kind
                == trap_category(trap) && message@ == trap_text(trap),
            None => ending matches Execution::Faulted { message } && message@ == failure_text(
                error,
            ),
        },
    }
}

/// What resolution decides for what the instance exports under the name
/// of the entry point: `None` where it exports no function of that name,
/// else the numbers of parameters and results of that function.
pub open spec fn resolution(found: Option<(usize, usize)>) -> Result<(), MethodResolveError> {
    match found {
        None => Err(MethodResolveError::NotFound),
        Some((params, results)) => if entry_signature_ok(params as int, results as int) {
            Ok(())
        } else {
            Err(MethodResolveError::InvalidSignature)
        },
    }
}

/// Decides whether the entry point can be called, given what the instance
/// exports under its name: a missing function is not found, and a function
/// that takes parameters or returns a value has the wrong signature.
pub fn resolved(found: Option<(usize, usize)>) -> (r: Result<(), MethodResolveError>)
    ensures
        r == resolution(found),
{
    match found {
        None => Err(MethodResolveError::NotFound),
        Some((params, results)) => match check_entry_signature(params, results) {
            Ok(()) => Ok(()),
            Err(kind) => Err(kind),
        },
    }
}

/// Tells an instantiation that stopped in sandboxed code from one that
/// failed before any code ran: a failure that holds a trap is reported as
/// that trap, with its category; any other failure is a failure to link.
/// The message is the engine's text.
fn instantiation_failure(error: anyhow::Error) -> (r: Execution)
    ensures
        reports_instantiation_failure(error, r),
{
    match into_trap(error) {
        Ok(trap) => Execution::InstantiationTrapped {
            kind: trap_kind(&trap),
            message: trap_message(&trap),
        },
        Err(e) => Execution::LinkFailed { message: error_text(&e) },
    }
}

/// Tells a call that stopped with a trap from one that the engine failed
/// in another way: a failure that holds a trap is reported as that trap,
/// with its category; any other failure is a fault of the engine. The
/// message is the engine's text.
fn call_failure(error: anyhow::Error) -> (r: Execution)
    ensures
        reports_call(Err(error), r),
{
    match into_trap(error) {
        Ok(trap) => Execution::Trapped { kind: trap_kind(&trap), message: trap_message(&trap) },
        Err(e) => Execution::Faulted { message: error_text(&e) },
    }
}

/// Reports how the call of the entry point went: a return as a return, a
/// failure as the trap it holds or, where it holds none, as a fault of the
/// engine.
pub fn called(result: Result<(), anyhow::Error>) -> (r: Execution)
    ensures
        reports_call(result, r),
        r.invoked(),
{
    match result {
        Ok(()) => Execution::Returned,
        Err(e) => call_failure(e),
    }
}

/// The second half of an invocation: instantiates `module` against the
/// import table, resolves the entry point named by `method_name` and calls
/// it. The entry point is called only if its name is valid text; a name that
/// is not is reported as such once instantiation has succeeded. What is
/// reported for each answer of the engine is decided by [`resolved`] and
/// [`called`].
pub fn execute(linker: &Linker, module: &Module, method_name: &[u8]) -> (r: Execution)
    requires
        plain_store(linker_store(*linker)),
    ensures
        !valid_utf8(method_name@) ==> !r.invoked(),
        !valid_utf8(method_name@) && r is ResolveFailed ==> r->ResolveFailed_0
            == MethodResolveError::InvalidEncoding,
        valid_utf8(method_name@) && r is ResolveFailed ==> r->ResolveFailed_0
            != MethodResolveError::InvalidEncoding,
{
    let instance = match instantiate(linker, module) {
        Ok(instance) => instance,
        Err(e) => {
            return instantiation_failure(e);
        },
    };
    let name = match decode_method_name(method_name) {
        Ok(name) => name,
        Err(kind) => {
            return Execution::ResolveFailed(kind);
        },
    };
    let func = find_function(&instance, name);
    let found = match &func {
        Some(func) => Some((param_arity(func), result_arity(func))),
        None => None,
    };
    match resolved(found) {
        Ok(()) => {},
        Err(kind) => {
            return Execution::ResolveFailed(kind);
        },
    }
    match func {
        Some(func) => called(call_without_arguments(&func)),
        None => Execution::ResolveFailed(MethodResolveError::NotFound),
    }
}

/// Pairs what happened with the outcome that host logic accumulated. The
/// outcome is returned whenever sandboxed code may have run, however the
/// invocation ended; it is withheld when nothing ran. `pending` is the host
/// failure that stopped sandboxed code, if one did.
pub fn conclude<O>(execution: Execution, pending: Option<HostFailure>, outcome: O) -> (r: (
    Option<O>,
    Option<CallError>,
))
    ensures
        r.0 == (if execution.outcome_owed() {
            Some(outcome)
        } else {
            None
        }),
        r.1 == execution.reported_error(pending),
        r.0 is None ==> r.1 is Some,
{
    match execution {
        Execution::LinkFailed { message } => (None, Some(CallError::LinkError { message })),
        Execution::ResolveFailed(kind) => (None, Some(CallError::MethodResolveError(kind))),
        Execution::InstantiationTrapped { kind, message } => (
            Some(outcome),
            Some(CallError::ExecutionError(classify_stop(pending, kind, message))),
        ),
        Execution::Trapped { kind, message } => (
            Some(outcome),
            Some(CallError::ExecutionError(classify_stop(pending, kind, message))),
        ),
        Execution::Returned => match pending {
            Some(failure) => (
                Some(outcome),
                Some(CallError::ExecutionError(classify_host_failure(failure))),
            ),
            None => (Some(outcome), None),
        },
        Execution::Faulted { message } => match pending {
            Some(failure) => (
                Some(outcome),
                Some(CallError::ExecutionError(classify_host_failure(failure))),
            ),
            None => (
                Some(outcome),
                Some(CallError::ExecutionError(ExecutionError::Unclassified { message })),
            ),
        },
    }
}

/// The state in which an invocation comes to rest decides what is
/// returned: a completed one has the outcome and no error, a trapped one
/// has both, a failed one has the error alone.
pub proof fn lemma_termination_decides(execution: Execution, pending: Option<HostFailure>)
    ensures
        execution.termination(pending) == Termination::Completed <==> execution.outcome_owed()
            && execution.reported_error(pending) is None,
        execution.termination(pending) == Termination::Trapped <==> execution.outcome_owed()
            && execution.reported_error(pending) is Some,
        execution.termination(pending) == Termination::Failed <==> !execution.outcome_owed()
            && execution.reported_error(pending) is Some,
        execution.termination(pending) == Termination::Failed ==> execution.reported_error(
            pending,
        )->0.before_host_effects(),
        execution.termination(pending) == Termination::Trapped ==> execution.reported_error(
            pending,
        )->0 is ExecutionError,
{
}

/// An invocation never ends with neither outcome nor error, and whenever
/// the entry point was called the outcome is owed.
pub proof fn lemma_nothing_dropped(execution: Execution, pending: Option<HostFailure>)
    ensures
        execution.outcome_owed() || execution.reported_error(pending) is Some,
        execution.invoked() ==> execution.outcome_owed(),
        execution.reported_error(pending) is None ==> execution is Returned && pending is None,
        pending is Some && execution.outcome_owed() ==> execution.reported_error(pending) is Some,
{
}

/// A host failure that stops sandboxed code is reported as the error of the
/// invocation, with the outcome: the failure itself, or the abort that
/// sandboxed code asked for.
pub proof fn lemma_host_failure_reported(execution: Execution, failure: HostFailure)
    requires
        execution.outcome_owed(),
    ensures
        execution.reported_error(Some(failure)) == Some(
            CallError::ExecutionError(host_failure_error(failure)),
        ),
        failure.abort_message is None ==> execution.reported_error(Some(failure)) == Some(
            CallError::ExecutionError(ExecutionError::HostFailure(failure.error)),
        ),
{
}

/// An entry point that cannot be resolved is reported with its kind and
/// without an outcome, whatever else is pending.
pub proof fn lemma_resolve_failure_reported(kind: MethodResolveError, pending: Option<HostFailure>)
    ensures
        !Execution::ResolveFailed(kind).outcome_owed(),
        Execution::ResolveFailed(kind).reported_error(pending) == Some(
            CallError::MethodResolveError(kind),
        ),
{
}

} // verus!
