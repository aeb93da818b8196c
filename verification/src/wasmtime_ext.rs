//! The adapter between the catalog and an engine that hands host functions
//! their arguments as a list of engine values.
//!
//! The engine knows more value types than the catalog uses. Only 32-bit and
//! 64-bit integers cross the boundary; a call with any other value, or with
//! a list that does not match the declared signature, is refused before
//! host logic is reached.

use crate::bindings::{invoke, sandbox_result_conforms, BindingError};
use crate::catalog::HostFunction;
use crate::marshal::{lifted_all, SandboxValue, ValueKind};
use near_vm_logic::VMLogic;
use vstd::prelude::*;
use wasmtime::{FuncType, Val, ValType};

verus! {

/// A value as the engine passes it to and takes it from a host function.
#[verifier::external_type_specification]
#[verifier::external_body]
pub struct ExVal(Val);

/// The engine's description of a function signature.
#[verifier::external_type_specification]
#[verifier::external_body]
pub struct ExFuncType(FuncType);

/// The integer that an engine value holds: the payload of `Val::I32` or
/// `Val::I64`, and none for every other variant.
pub uninterp spec fn integer_of(value: Val) -> Option<SandboxValue>;

/// The engine value that holds an integer: `Val::I32` or `Val::I64` with
/// that payload.
pub uninterp spec fn val_of(value: SandboxValue) -> Val;

/// The engine's signature type with the given integer parameters and
/// result, as `wasmtime::FuncType::new` builds it.
pub uninterp spec fn function_type(params: Seq<ValueKind>, result: Option<ValueKind>) -> FuncType;

/// Tells the variants of `wasmtime::Val` apart and takes the payload out of
/// the two integer variants.
#[verifier::external_body]
fn sandbox_value(value: &Val) -> (r: Option<SandboxValue>)
    ensures
        r == integer_of(*value),
{
    match value {
        Val::I32(v) => Some(SandboxValue::I32(*v)),
        Val::I64(v) => Some(SandboxValue::I64(*v)),
        _ => None,
    }
}

/// Builds `wasmtime::Val::I32` or `wasmtime::Val::I64` around the payload.
/// Reading the integer back out of the result gives the payload.
#[verifier::external_body]
fn engine_value(value: SandboxValue) -> (r: Val)
    ensures
        r == val_of(value),
        integer_of(r) == Some(value),
{
    match value {
        SandboxValue::I32(v) => Val::I32(v),
        SandboxValue::I64(v) => Val::I64(v),
    }
}

/// Calls `wasmtime::FuncType::new` with `ValType::I32` for every 32-bit
/// and `ValType::I64` for every 64-bit entry, in order.
#[verifier::external_body]
fn func_type(params: &[ValueKind], result: Option<ValueKind>) -> (r: FuncType)
    ensures
        r == function_type(params@, result),
{
    let as_type = |kind: &ValueKind| match kind {
        ValueKind::U32 => ValType::I32,
        ValueKind::U64 => ValType::I64,
    };
    FuncType::new(params.iter().map(as_type), result.iter().map(as_type))
}

/// The integers that a list of engine values holds, if all of them hold
/// one.
pub open spec fn integers_of(params: Seq<Val>) -> Option<Seq<SandboxValue>> {
    if forall|i: int| 0 <= i < params.len() ==> (#[trigger] integer_of(params[i])) is Some {
        Some(Seq::new(params.len(), |i: int| integer_of(params[i])->0))
    } else {
        None
    }
}

/// The number of values a function returns.
pub open spec fn result_count(function: HostFunction) -> nat {
    if function.spec_result_kind() is Some {
        1
    } else {
        0
    }
}

/// Whether the engine's call matches what the catalog declares: integer
/// arguments of the declared arity and widths, and room for exactly the
/// declared results.
pub open spec fn call_matches(function: HostFunction, params: Seq<Val>, results_len: nat) -> bool {
    &&& integers_of(params) is Some
    &&& function.accepts(lifted_all(integers_of(params)->0))
    &&& results_len == result_count(function)
}

/// Whether `results` holds what the function declares to return.
pub open spec fn result_delivered(function: HostFunction, results: Seq<Val>) -> bool {
    function.spec_result_kind() is Some ==> results.len() == 1 && sandbox_result_conforms(
        function,
        integer_of(results[0]),
    )
}

/// The signature under which the engine exports `function`.
pub fn import_type(function: HostFunction) -> (r: FuncType)
    ensures
        r == function_type(function.spec_params(), function.spec_result_kind()),
{
    let params = function.params();
    func_type(params.as_slice(), function.result_kind())
}

/// Takes the integers out of the engine's argument list. Fails if any
/// argument is not an integer.
pub fn collect_args(params: &[Val]) -> (r: Option<Vec<SandboxValue>>)
    ensures
        r is Some <==> integers_of(params@) is Some,
        r is Some ==> r->0@ == integers_of(params@)->0,
{
    let mut out: Vec<SandboxValue> = Vec::new();
    let mut i: usize = 0;
    while i < params.len()
        invariant
            i <= params@.len(),
            out@.len() == i,
            forall|j: int| 0 <= j < i ==> (#[trigger] integer_of(params@[j])) == Some(out@[j]),
        decreases params@.len() - i,
    {
        match sandbox_value(&params[i]) {
            Some(v) => out.push(v),
            None => {
                assert(integer_of(params@[i as int]) is None);
                return None;
            },
        }
        i += 1;
    }
    assert(integers_of(params@) is Some);
    assert(out@ =~= integers_of(params@)->0);
    Some(out)
}

/// Serves one call of the engine into the catalog. The arguments are
/// taken from `params`, handed to the host logic operation that `function`
/// names, and a returned value is stored in `results`. A call that does not
/// match the declared signature is refused and host logic is not reached;
/// a failure of host logic is handed on. In both cases `results` stays as
/// it was.
pub fn call(
    logic: &mut VMLogic<'_>,
    function: HostFunction,
    params: &[Val],
    results: &mut [Val],
) -> (r: Result<(), BindingError>)
    ensures
        final(results)@.len() == old(results)@.len(),
        r is Err ==> final(results)@ == old(results)@,
        !call_matches(function, params@, old(results)@.len()) ==> r is Err && r->Err_0 == (
        BindingError::SignatureMismatch { function }),
        call_matches(function, params@, old(results)@.len()) ==> (r is Err ==> r->Err_0 is Host),
        r is Ok ==> result_delivered(function, final(results)@),
{
    let expected: usize = match function.result_kind() {
        Some(_) => 1,
        None => 0,
    };
    if results.len() != expected {
        return Err(BindingError::SignatureMismatch { function });
    }
    let args = match collect_args(params) {
        Some(args) => args,
        None => {
            return Err(BindingError::SignatureMismatch { function });
        },
    };
    match invoke(logic, function, args.as_slice()) {
        Ok(Some(value)) => {
            results[0] = engine_value(value);
            Ok(())
        },
        Ok(None) => Ok(()),
        Err(e) => Err(e),
    }
}

} // verus!
