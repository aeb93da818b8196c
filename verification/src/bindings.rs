//! The binding of every catalog entry to the host logic operation of the
//! same name.
//!
//! A call arrives with the arguments as the sandbox passed them. They are
//! checked against the signature the catalog declares, reinterpreted as the
//! host's unsigned values, and handed to the host logic in declared order.
//! A value that comes back is reinterpreted for the sandbox; a failure is
//! handed on with the host's own detail, and no value is returned.

use crate::catalog::HostFunction;
use crate::errors::HostFailure;
use crate::marshal::{to_host_all, HostValue, SandboxValue, ValueKind, lifted_all};
use near_vm_logic::types::{EpochHeight, Gas, PromiseIndex, StorageUsage};
use near_vm_logic::{HostError, VMLogic, VMLogicError};
use vstd::prelude::*;

verus! {

/// The host logic of one invocation. Its state is the host's own: nothing
/// is known here of what a call does to it.
#[verifier::external_type_specification]
#[verifier::external_body]
pub struct ExVMLogic<'a>(VMLogic<'a>);

/// The failure a host logic operation reports.
#[verifier::external_type_specification]
#[verifier::external_body]
pub struct ExVMLogicError(VMLogicError);

/// `VMLogic::read_register` of the host logic. What it returns depends on the host
/// state, so nothing is claimed of the result.
pub assume_specification<'a>[ VMLogic::<'a>::read_register ](logic: &mut VMLogic<'a>, register_id: u64, ptr: u64) -> (r: Result<(), VMLogicError>);

/// `VMLogic::register_len` of the host logic. What it returns depends on the host
/// state, so nothing is claimed of the result.
pub assume_specification<'a>[ VMLogic::<'a>::register_len ](logic: &mut VMLogic<'a>, register_id: u64) -> (r: Result<u64, VMLogicError>);

/// `VMLogic::write_register` of the host logic. What it returns depends on the host
/// state, so nothing is claimed of the result.
pub assume_specification<'a>[ VMLogic::<'a>::write_register ](logic: &mut VMLogic<'a>, register_id: u64, data_len: u64, data_ptr: u64) -> (r: Result<(), VMLogicError>);

/// `VMLogic::current_account_id` of the host logic. What it returns depends on the host
/// state, so nothing is claimed of the result.
pub assume_specification<'a>[ VMLogic::<'a>::current_account_id ](logic: &mut VMLogic<'a>, register_id: u64) -> (r: Result<(), VMLogicError>);

/// `VMLogic::signer_account_id` of the host logic. What it returns depends on the host
/// state, so nothing is claimed of the result.
pub assume_specification<'a>[ VMLogic::<'a>::signer_account_id ](logic: &mut VMLogic<'a>, register_id: u64) -> (r: Result<(), VMLogicError>);

/// `VMLogic::signer_account_pk` of the host logic. What it returns depends on the host
/// state, so nothing is claimed of the result.
pub assume_specification<'a>[ VMLogic::<'a>::signer_account_pk ](logic: &mut VMLogic<'a>, register_id: u64) -> (r: Result<(), VMLogicError>);

/// `VMLogic::predecessor_account_id` of the host logic. What it returns depends on the host
/// state, so nothing is claimed of the result.
pub assume_specification<'a>[ VMLogic::<'a>::predecessor_account_id ](logic: &mut VMLogic<'a>, register_id: u64) -> (r: Result<(), VMLogicError>);

/// `VMLogic::input` of the host logic. What it returns depends on the host
/// state, so nothing is claimed of the result.
pub assume_specification<'a>[ VMLogic::<'a>::input ](logic: &mut VMLogic<'a>, register_id: u64) -> (r: Result<(), VMLogicError>);

/// `VMLogic::block_index` of the host logic. What it returns depends on the host
/// state, so nothing is claimed of the result.
pub assume_specification<'a>[ VMLogic::<'a>::block_index ](logic: &mut VMLogic<'a>) -> (r: Result<u64, VMLogicError>);

/// `VMLogic::block_timestamp` of the host logic. What it returns depends on the host
/// state, so nothing is claimed of the result.
pub assume_specification<'a>[ VMLogic::<'a>::block_timestamp ](logic: &mut VMLogic<'a>) -> (r: Result<u64, VMLogicError>);

/// `VMLogic::epoch_height` of the host logic. What it returns depends on the host
/// state, so nothing is claimed of the result.
pub assume_specification<'a>[ VMLogic::<'a>::epoch_height ](logic: &mut VMLogic<'a>) -> (r: Result<EpochHeight, VMLogicError>);

/// `VMLogic::storage_usage` of the host logic. What it returns depends on the host
/// state, so nothing is claimed of the result.
pub assume_specification<'a>[ VMLogic::<'a>::storage_usage ](logic: &mut VMLogic<'a>) -> (r: Result<StorageUsage, VMLogicError>);

/// `VMLogic::account_balance` of the host logic. What it returns depends on the host
/// state, so nothing is claimed of the result.
pub assume_specification<'a>[ VMLogic::<'a>::account_balance ](logic: &mut VMLogic<'a>, balance_ptr: u64) -> (r: Result<(), VMLogicError>);

/// `VMLogic::account_locked_balance` of the host logic. What it returns depends on the host
/// state, so nothing is claimed of the result.
pub assume_specification<'a>[ VMLogic::<'a>::account_locked_balance ](logic: &mut VMLogic<'a>, balance_ptr: u64) -> (r: Result<(), VMLogicError>);

/// `VMLogic::attached_deposit` of the host logic. What it returns depends on the host
/// state, so nothing is claimed of the result.
pub assume_specification<'a>[ VMLogic::<'a>::attached_deposit ](logic: &mut VMLogic<'a>, balance_ptr: u64) -> (r: Result<(), VMLogicError>);

/// `VMLogic::prepaid_gas` of the host logic. What it returns depends on the host
/// state, so nothing is claimed of the result.
pub assume_specification<'a>[ VMLogic::<'a>::prepaid_gas ](logic: &mut VMLogic<'a>) -> (r: Result<Gas, VMLogicError>);

/// `VMLogic::used_gas` of the host logic. What it returns depends on the host
/// state, so nothing is claimed of the result.
pub assume_specification<'a>[ VMLogic::<'a>::used_gas ](logic: &mut VMLogic<'a>) -> (r: Result<Gas, VMLogicError>);

/// `VMLogic::random_seed` of the host logic. What it returns depends on the host
/// state, so nothing is claimed of the result.
pub assume_specification<'a>[ VMLogic::<'a>::random_seed ](logic: &mut VMLogic<'a>, register_id: u64) -> (r: Result<(), VMLogicError>);

/// `VMLogic::sha256` of the host logic. What it returns depends on the host
/// state, so nothing is claimed of the result.
pub assume_specification<'a>[ VMLogic::<'a>::sha256 ](logic: &mut VMLogic<'a>, value_len: u64, value_ptr: u64, register_id: u64) -> (r: Result<(), VMLogicError>);

/// `VMLogic::keccak256` of the host logic. What it returns depends on the host
/// state, so nothing is claimed of the result.
pub assume_specification<'a>[ VMLogic::<'a>::keccak256 ](logic: &mut VMLogic<'a>, value_len: u64, value_ptr: u64, register_id: u64) -> (r: Result<(), VMLogicError>);

/// `VMLogic::keccak512` of the host logic. What it returns depends on the host
/// state, so nothing is claimed of the result.
pub assume_specification<'a>[ VMLogic::<'a>::keccak512 ](logic: &mut VMLogic<'a>, value_len: u64, value_ptr: u64, register_id: u64) -> (r: Result<(), VMLogicError>);

/// `VMLogic::value_return` of the host logic. What it returns depends on the host
/// state, so nothing is claimed of the result.
pub assume_specification<'a>[ VMLogic::<'a>::value_return ](logic: &mut VMLogic<'a>, value_len: u64, value_ptr: u64) -> (r: Result<(), VMLogicError>);

/// `VMLogic::panic` of the host logic. What it returns depends on the host
/// state, so nothing is claimed of the result.
pub assume_specification<'a>[ VMLogic::<'a>::panic ](logic: &mut VMLogic<'a>) -> (r: Result<(), VMLogicError>);

/// `VMLogic::panic_utf8` of the host logic. What it returns depends on the host
/// state, so nothing is claimed of the result.
pub assume_specification<'a>[ VMLogic::<'a>::panic_utf8 ](logic: &mut VMLogic<'a>, len: u64, ptr: u64) -> (r: Result<(), VMLogicError>);

/// `VMLogic::log_utf8` of the host logic. What it returns depends on the host
/// state, so nothing is claimed of the result.
pub assume_specification<'a>[ VMLogic::<'a>::log_utf8 ](logic: &mut VMLogic<'a>, len: u64, ptr: u64) -> (r: Result<(), VMLogicError>);

/// `VMLogic::log_utf16` of the host logic. What it returns depends on the host
/// state, so nothing is claimed of the result.
pub assume_specification<'a>[ VMLogic::<'a>::log_utf16 ](logic: &mut VMLogic<'a>, len: u64, ptr: u64) -> (r: Result<(), VMLogicError>);

/// `VMLogic::abort` of the host logic. What it returns depends on the host
/// state, so nothing is claimed of the result.
pub assume_specification<'a>[ VMLogic::<'a>::abort ](logic: &mut VMLogic<'a>, msg_ptr: u32, filename_ptr: u32, line: u32, col: u32) -> (r: Result<(), VMLogicError>);

/// `VMLogic::promise_create` of the host logic. What it returns depends on the host
/// state, so nothing is claimed of the result.
pub assume_specification<'a>[ VMLogic::<'a>::promise_create ](logic: &mut VMLogic<'a>, account_id_len: u64, account_id_ptr: u64, method_name_len: u64, method_name_ptr: u64, arguments_len: u64, arguments_ptr: u64, amount_ptr: u64, gas: Gas) -> (r: Result<u64, VMLogicError>);

/// `VMLogic::promise_then` of the host logic. What it returns depends on the host
/// state, so nothing is claimed of the result.
pub assume_specification<'a>[ VMLogic::<'a>::promise_then ](logic: &mut VMLogic<'a>, promise_idx: u64, account_id_len: u64, account_id_ptr: u64, method_name_len: u64, method_name_ptr: u64, arguments_len: u64, arguments_ptr: u64, amount_ptr: u64, gas: u64) -> (r: Result<u64, VMLogicError>);

/// `VMLogic::promise_and` of the host logic. What it returns depends on the host
/// state, so nothing is claimed of the result.
pub assume_specification<'a>[ VMLogic::<'a>::promise_and ](logic: &mut VMLogic<'a>, promise_idx_ptr: u64, promise_idx_count: u64) -> (r: Result<PromiseIndex, VMLogicError>);

/// `VMLogic::promise_batch_create` of the host logic. What it returns depends on the host
/// state, so nothing is claimed of the result.
pub assume_specification<'a>[ VMLogic::<'a>::promise_batch_create ](logic: &mut VMLogic<'a>, account_id_len: u64, account_id_ptr: u64) -> (r: Result<u64, VMLogicError>);

/// `VMLogic::promise_batch_then` of the host logic. What it returns depends on the host
/// state, so nothing is claimed of the result.
pub assume_specification<'a>[ VMLogic::<'a>::promise_batch_then ](logic: &mut VMLogic<'a>, promise_idx: u64, account_id_len: u64, account_id_ptr: u64) -> (r: Result<u64, VMLogicError>);

/// `VMLogic::promise_batch_action_create_account` of the host logic. What it returns depends on the host
/// state, so nothing is claimed of the result.
pub assume_specification<'a>[ VMLogic::<'a>::promise_batch_action_create_account ](logic: &mut VMLogic<'a>, promise_idx: u64) -> (r: Result<(), VMLogicError>);

/// `VMLogic::promise_batch_action_deploy_contract` of the host logic. What it returns depends on the host
/// state, so nothing is claimed of the result.
pub assume_specification<'a>[ VMLogic::<'a>::promise_batch_action_deploy_contract ](logic: &mut VMLogic<'a>, promise_idx: u64, code_len: u64, code_ptr: u64) -> (r: Result<(), VMLogicError>);

/// `VMLogic::promise_batch_action_function_call` of the host logic. What it returns depends on the host
/// state, so nothing is claimed of the result.
pub assume_specification<'a>[ VMLogic::<'a>::promise_batch_action_function_call ](logic: &mut VMLogic<'a>, promise_idx: u64, method_name_len: u64, method_name_ptr: u64, arguments_len: u64, arguments_ptr: u64, amount_ptr: u64, gas: Gas) -> (r: Result<(), VMLogicError>);

/// `VMLogic::promise_batch_action_transfer` of the host logic. What it returns depends on the host
/// state, so nothing is claimed of the result.
pub assume_specification<'a>[ VMLogic::<'a>::promise_batch_action_transfer ](logic: &mut VMLogic<'a>, promise_idx: u64, amount_ptr: u64) -> (r: Result<(), VMLogicError>);

/// `VMLogic::promise_batch_action_stake` of the host logic. What it returns depends on the host
/// state, so nothing is claimed of the result.
pub assume_specification<'a>[ VMLogic::<'a>::promise_batch_action_stake ](logic: &mut VMLogic<'a>, promise_idx: u64, amount_ptr: u64, public_key_len: u64, public_key_ptr: u64) -> (r: Result<(), VMLogicError>);

/// `VMLogic::promise_batch_action_add_key_with_full_access` of the host logic. What it returns depends on the host
/// state, so nothing is claimed of the result.
pub assume_specification<'a>[ VMLogic::<'a>::promise_batch_action_add_key_with_full_access ](logic: &mut VMLogic<'a>, promise_idx: u64, public_key_len: u64, public_key_ptr: u64, nonce: u64) -> (r: Result<(), VMLogicError>);

/// `VMLogic::promise_batch_action_add_key_with_function_call` of the host logic. What it returns depends on the host
/// state, so nothing is claimed of the result.
pub assume_specification<'a>[ VMLogic::<'a>::promise_batch_action_add_key_with_function_call ](logic: &mut VMLogic<'a>, promise_idx: u64, public_key_len: u64, public_key_ptr: u64, nonce: u64, allowance_ptr: u64, receiver_id_len: u64, receiver_id_ptr: u64, method_names_len: u64, method_names_ptr: u64) -> (r: Result<(), VMLogicError>);

/// `VMLogic::promise_batch_action_delete_key` of the host logic. What it returns depends on the host
/// state, so nothing is claimed of the result.
pub assume_specification<'a>[ VMLogic::<'a>::promise_batch_action_delete_key ](logic: &mut VMLogic<'a>, promise_idx: u64, public_key_len: u64, public_key_ptr: u64) -> (r: Result<(), VMLogicError>);

/// `VMLogic::promise_batch_action_delete_account` of the host logic. What it returns depends on the host
/// state, so nothing is claimed of the result.
pub assume_specification<'a>[ VMLogic::<'a>::promise_batch_action_delete_account ](logic: &mut VMLogic<'a>, promise_idx: u64, beneficiary_id_len: u64, beneficiary_id_ptr: u64) -> (r: Result<(), VMLogicError>);

/// `VMLogic::promise_results_count` of the host logic. What it returns depends on the host
/// state, so nothing is claimed of the result.
pub assume_specification<'a>[ VMLogic::<'a>::promise_results_count ](logic: &mut VMLogic<'a>) -> (r: Result<u64, VMLogicError>);

/// `VMLogic::promise_result` of the host logic. What it returns depends on the host
/// state, so nothing is claimed of the result.
pub assume_specification<'a>[ VMLogic::<'a>::promise_result ](logic: &mut VMLogic<'a>, result_idx: u64, register_id: u64) -> (r: Result<u64, VMLogicError>);

/// `VMLogic::promise_return` of the host logic. What it returns depends on the host
/// state, so nothing is claimed of the result.
pub assume_specification<'a>[ VMLogic::<'a>::promise_return ](logic: &mut VMLogic<'a>, promise_idx: u64) -> (r: Result<(), VMLogicError>);

/// `VMLogic::storage_write` of the host logic. What it returns depends on the host
/// state, so nothing is claimed of the result.
pub assume_specification<'a>[ VMLogic::<'a>::storage_write ](logic: &mut VMLogic<'a>, key_len: u64, key_ptr: u64, value_len: u64, value_ptr: u64, register_id: u64) -> (r: Result<u64, VMLogicError>);

/// `VMLogic::storage_read` of the host logic. What it returns depends on the host
/// state, so nothing is claimed of the result.
pub assume_specification<'a>[ VMLogic::<'a>::storage_read ](logic: &mut VMLogic<'a>, key_len: u64, key_ptr: u64, register_id: u64) -> (r: Result<u64, VMLogicError>);

/// `VMLogic::storage_remove` of the host logic. What it returns depends on the host
/// state, so nothing is claimed of the result.
pub assume_specification<'a>[ VMLogic::<'a>::storage_remove ](logic: &mut VMLogic<'a>, key_len: u64, key_ptr: u64, register_id: u64) -> (r: Result<u64, VMLogicError>);

/// `VMLogic::storage_has_key` of the host logic. What it returns depends on the host
/// state, so nothing is claimed of the result.
pub assume_specification<'a>[ VMLogic::<'a>::storage_has_key ](logic: &mut VMLogic<'a>, key_len: u64, key_ptr: u64) -> (r: Result<u64, VMLogicError>);

/// `VMLogic::storage_iter_prefix` of the host logic. What it returns depends on the host
/// state, so nothing is claimed of the result.
pub assume_specification<'a>[ VMLogic::<'a>::storage_iter_prefix ](logic: &mut VMLogic<'a>, prefix_len: u64, prefix_ptr: u64) -> (r: Result<u64, VMLogicError>);

/// `VMLogic::storage_iter_range` of the host logic. What it returns depends on the host
/// state, so nothing is claimed of the result.
pub assume_specification<'a>[ VMLogic::<'a>::storage_iter_range ](logic: &mut VMLogic<'a>, start_len: u64, start_ptr: u64, end_len: u64, end_ptr: u64) -> (r: Result<u64, VMLogicError>);

/// `VMLogic::storage_iter_next` of the host logic. What it returns depends on the host
/// state, so nothing is claimed of the result.
pub assume_specification<'a>[ VMLogic::<'a>::storage_iter_next ](logic: &mut VMLogic<'a>, iterator_id: u64, key_register_id: u64, value_register_id: u64) -> (r: Result<u64, VMLogicError>);

/// `VMLogic::gas` of the host logic. What it returns depends on the host
/// state, so nothing is claimed of the result.
pub assume_specification<'a>[ VMLogic::<'a>::gas ](logic: &mut VMLogic<'a>, gas_amount: u32) -> (r: Result<(), VMLogicError>);

/// `VMLogic::validator_stake` of the host logic. What it returns depends on the host
/// state, so nothing is claimed of the result.
pub assume_specification<'a>[ VMLogic::<'a>::validator_stake ](logic: &mut VMLogic<'a>, account_id_len: u64, account_id_ptr: u64, stake_ptr: u64) -> (r: Result<(), VMLogicError>);

/// `VMLogic::validator_total_stake` of the host logic. What it returns depends on the host
/// state, so nothing is claimed of the result.
pub assume_specification<'a>[ VMLogic::<'a>::validator_total_stake ](logic: &mut VMLogic<'a>, stake_ptr: u64) -> (r: Result<(), VMLogicError>);

/// Why a call into the catalog produced no result.
#[derive(Debug, PartialEq)]
pub enum BindingError {
    /// The arguments do not have the arity or the widths that the function
    /// declares. Host logic was not called.
    SignatureMismatch { function: HostFunction },
    /// Host logic was called and failed; the detail is the host's own.
    Host(HostFailure),
}

/// Whether `value` is what the function may return on success: a value of
/// the declared width, or none where none is declared.
pub open spec fn result_conforms(function: HostFunction, value: Option<HostValue>) -> bool {
    match function.spec_result_kind() {
        Some(kind) => value is Some && value->0.kind() == kind,
        None => value is None,
    }
}

/// Whether `value` is what the sandbox may get back on success: a value of
/// the declared width, or none where none is declared.
pub open spec fn sandbox_result_conforms(
    function: HostFunction,
    value: Option<SandboxValue>,
) -> bool {
    match function.spec_result_kind() {
        Some(kind) => value is Some && value->0.kind() == kind,
        None => value is None,
    }
}

/// What the sandbox gets for a host result: the value with its bits kept,
/// or the failure with the host's detail.
pub open spec fn lowered_result(
    host_result: Result<Option<HostValue>, HostFailure>,
) -> Result<Option<SandboxValue>, BindingError> {
    match host_result {
        Ok(Some(v)) => Ok(Some(v.lowered())),
        Ok(None) => Ok(None),
        Err(e) => Err(BindingError::Host(e)),
    }
}

/// The message of an abort that sandboxed code asked for: the text that
/// `near_vm_errors::HostError::GuestPanic` carries, and none for every
/// other failure.
pub uninterp spec fn guest_panic_text(error: VMLogicError) -> Option<Seq<char>>;

/// Whether `message` is the text of the abort that `error` stands for, or
/// absent where `error` is no abort.
pub open spec fn is_abort_message_of(error: VMLogicError, message: Option<String>) -> bool {
    match guest_panic_text(error) {
        Some(text) => message is Some && message->0@ == text,
        None => message is None,
    }
}

/// Reads the message out of `near_vm_errors::HostError::GuestPanic`, the
/// failure with which host logic answers an abort that sandboxed code asked
/// for. Every other failure has none.
#[verifier::external_body]
fn guest_panic_message(error: &VMLogicError) -> (r: Option<String>)
    ensures
        match guest_panic_text(*error) {
            Some(text) => r is Some && r->0@ == text,
            None => r is None,
        },
{
    match error {
        VMLogicError::HostError(HostError::GuestPanic { panic_msg }) => Some(panic_msg.clone()),
        _ => None,
    }
}

/// Keeps a host failure as reported, together with the host's message where
/// the failure is an abort.
pub fn describe_failure(error: VMLogicError) -> (r: HostFailure)
    ensures
        r.error == error,
        is_abort_message_of(error, r.abort_message),
{
    let abort_message = guest_panic_message(&error);
    HostFailure { error, abort_message }
}

/// The 64-bit argument at `index`.
fn u64_at(args: &[HostValue], index: usize) -> (r: u64)
    requires
        index < args@.len(),
        args@[index as int].kind() == ValueKind::U64,
    ensures
        args@[index as int] == HostValue::U64(r),
{
    match args[index] {
        HostValue::U64(v) => v,
        HostValue::U32(_) => unreached(),
    }
}

/// The 32-bit argument at `index`.
fn u32_at(args: &[HostValue], index: usize) -> (r: u32)
    requires
        index < args@.len(),
        args@[index as int].kind() == ValueKind::U32,
    ensures
        args@[index as int] == HostValue::U32(r),
{
    match args[index] {
        HostValue::U32(v) => v,
        HostValue::U64(_) => unreached(),
    }
}

/// The result of a host operation that returns nothing.
pub fn without_value(outcome: Result<(), VMLogicError>) -> (r: Result<
    Option<HostValue>,
    VMLogicError,
>)
    ensures
        outcome is Ok ==> r == Ok::<Option<HostValue>, VMLogicError>(None),
        outcome is Err ==> r == Err::<Option<HostValue>, VMLogicError>(outcome->Err_0),
{
    match outcome {
        Ok(()) => Ok(None),
        Err(e) => Err(e),
    }
}

/// The result of a host operation that returns a 64-bit value.
pub fn with_value(outcome: Result<u64, VMLogicError>) -> (r: Result<
    Option<HostValue>,
    VMLogicError,
>)
    ensures
        outcome is Ok ==> r == Ok::<Option<HostValue>, VMLogicError>(
            Some(HostValue::U64(outcome->Ok_0)),
        ),
        outcome is Err ==> r == Err::<Option<HostValue>, VMLogicError>(outcome->Err_0),
{
    match outcome {
        Ok(v) => Ok(Some(HostValue::U64(v))),
        Err(e) => Err(e),
    }
}

/// Hands a host result to the sandbox: a returned value is reinterpreted
/// with its bits kept, a failure is passed on with the host's detail.
pub fn lower_result(host_result: Result<Option<HostValue>, HostFailure>) -> (r: Result<
    Option<SandboxValue>,
    BindingError,
>)
    ensures
        r == lowered_result(host_result),
{
    match host_result {
        Ok(Some(v)) => Ok(Some(v.to_sandbox())),
        Ok(None) => Ok(None),
        Err(e) => Err(BindingError::Host(e)),
    }
}


/// One call of a host logic operation: the operation and its arguments,
/// each under the name the operation gives it.
#[derive(Clone, Copy, Debug, PartialEq, Eq, Structural)]
pub enum HostCall {
    ReadRegister { register_id: u64, ptr: u64 },
    RegisterLen { register_id: u64 },
    WriteRegister { register_id: u64, data_len: u64, data_ptr: u64 },
    CurrentAccountId { register_id: u64 },
    SignerAccountId { register_id: u64 },
    SignerAccountPk { register_id: u64 },
    PredecessorAccountId { register_id: u64 },
    Input { register_id: u64 },
    BlockIndex,
    BlockTimestamp,
    EpochHeight,
    StorageUsage,
    AccountBalance { balance_ptr: u64 },
    AccountLockedBalance { balance_ptr: u64 },
    AttachedDeposit { balance_ptr: u64 },
    PrepaidGas,
    UsedGas,
    RandomSeed { register_id: u64 },
    Sha256 { value_len: u64, value_ptr: u64, register_id: u64 },
    Keccak256 { value_len: u64, value_ptr: u64, register_id: u64 },
    Keccak512 { value_len: u64, value_ptr: u64, register_id: u64 },
    ValueReturn { value_len: u64, value_ptr: u64 },
    Panic,
    PanicUtf8 { len: u64, ptr: u64 },
    LogUtf8 { len: u64, ptr: u64 },
    LogUtf16 { len: u64, ptr: u64 },
    Abort { msg_ptr: u32, filename_ptr: u32, line: u32, col: u32 },
    PromiseCreate { account_id_len: u64, account_id_ptr: u64, method_name_len: u64, method_name_ptr: u64, arguments_len: u64, arguments_ptr: u64, amount_ptr: u64, gas: u64 },
    PromiseThen { promise_idx: u64, account_id_len: u64, account_id_ptr: u64, method_name_len: u64, method_name_ptr: u64, arguments_len: u64, arguments_ptr: u64, amount_ptr: u64, gas: u64 },
    PromiseAnd { promise_idx_ptr: u64, promise_idx_count: u64 },
    PromiseBatchCreate { account_id_len: u64, account_id_ptr: u64 },
    PromiseBatchThen { promise_idx: u64, account_id_len: u64, account_id_ptr: u64 },
    PromiseBatchActionCreateAccount { promise_idx: u64 },
    PromiseBatchActionDeployContract { promise_idx: u64, code_len: u64, code_ptr: u64 },
    PromiseBatchActionFunctionCall { promise_idx: u64, method_name_len: u64, method_name_ptr: u64, arguments_len: u64, arguments_ptr: u64, amount_ptr: u64, gas: u64 },
    PromiseBatchActionTransfer { promise_idx: u64, amount_ptr: u64 },
    PromiseBatchActionStake { promise_idx: u64, amount_ptr: u64, public_key_len: u64, public_key_ptr: u64 },
    PromiseBatchActionAddKeyWithFullAccess { promise_idx: u64, public_key_len: u64, public_key_ptr: u64, nonce: u64 },
    PromiseBatchActionAddKeyWithFunctionCall { promise_idx: u64, public_key_len: u64, public_key_ptr: u64, nonce: u64, allowance_ptr: u64, receiver_id_len: u64, receiver_id_ptr: u64, method_names_len: u64, method_names_ptr: u64 },
    PromiseBatchActionDeleteKey { promise_idx: u64, public_key_len: u64, public_key_ptr: u64 },
    PromiseBatchActionDeleteAccount { promise_idx: u64, beneficiary_id_len: u64, beneficiary_id_ptr: u64 },
    PromiseResultsCount,
    PromiseResult { result_idx: u64, register_id: u64 },
    PromiseReturn { promise_idx: u64 },
    StorageWrite { key_len: u64, key_ptr: u64, value_len: u64, value_ptr: u64, register_id: u64 },
    StorageRead { key_len: u64, key_ptr: u64, register_id: u64 },
    StorageRemove { key_len: u64, key_ptr: u64, register_id: u64 },
    StorageHasKey { key_len: u64, key_ptr: u64 },
    StorageIterPrefix { prefix_len: u64, prefix_ptr: u64 },
    StorageIterRange { start_len: u64, start_ptr: u64, end_len: u64, end_ptr: u64 },
    StorageIterNext { iterator_id: u64, key_register_id: u64, value_register_id: u64 },
    Gas { gas_amount: u32 },
    ValidatorStake { account_id_len: u64, account_id_ptr: u64, stake_ptr: u64 },
    ValidatorTotalStake { stake_ptr: u64 },
}

/// The 64-bit value an argument holds; a 32-bit argument widened.
pub open spec fn wide(value: HostValue) -> u64 {
    match value {
        HostValue::U64(v) => v,
        HostValue::U32(v) => v as u64,
    }
}

/// The 32-bit value an argument holds; zero for a 64-bit argument.
pub open spec fn narrow(value: HostValue) -> u32 {
    match value {
        HostValue::U32(v) => v,
        HostValue::U64(_) => 0,
    }
}

impl HostCall {
    /// The catalog entry that the call serves.
    pub open spec fn entry(self) -> HostFunction {
        match self {
            HostCall::ReadRegister { .. } => HostFunction::ReadRegister,
            HostCall::RegisterLen { .. } => HostFunction::RegisterLen,
            HostCall::WriteRegister { .. } => HostFunction::WriteRegister,
            HostCall::CurrentAccountId { .. } => HostFunction::CurrentAccountId,
            HostCall::SignerAccountId { .. } => HostFunction::SignerAccountId,
            HostCall::SignerAccountPk { .. } => HostFunction::SignerAccountPk,
            HostCall::PredecessorAccountId { .. } => HostFunction::PredecessorAccountId,
            HostCall::Input { .. } => HostFunction::Input,
            HostCall::BlockIndex => HostFunction::BlockIndex,
            HostCall::BlockTimestamp => HostFunction::BlockTimestamp,
            HostCall::EpochHeight => HostFunction::EpochHeight,
            HostCall::StorageUsage => HostFunction::StorageUsage,
            HostCall::AccountBalance { .. } => HostFunction::AccountBalance,
            HostCall::AccountLockedBalance { .. } => HostFunction::AccountLockedBalance,
            HostCall::AttachedDeposit { .. } => HostFunction::AttachedDeposit,
            HostCall::PrepaidGas => HostFunction::PrepaidGas,
            HostCall::UsedGas => HostFunction::UsedGas,
            HostCall::RandomSeed { .. } => HostFunction::RandomSeed,
            HostCall::Sha256 { .. } => HostFunction::Sha256,
            HostCall::Keccak256 { .. } => HostFunction::Keccak256,
            HostCall::Keccak512 { .. } => HostFunction::Keccak512,
            HostCall::ValueReturn { .. } => HostFunction::ValueReturn,
            HostCall::Panic => HostFunction::Panic,
            HostCall::PanicUtf8 { .. } => HostFunction::PanicUtf8,
            HostCall::LogUtf8 { .. } => HostFunction::LogUtf8,
            HostCall::LogUtf16 { .. } => HostFunction::LogUtf16,
            HostCall::Abort { .. } => HostFunction::Abort,
            HostCall::PromiseCreate { .. } => HostFunction::PromiseCreate,
            HostCall::PromiseThen { .. } => HostFunction::PromiseThen,
            HostCall::PromiseAnd { .. } => HostFunction::PromiseAnd,
            HostCall::PromiseBatchCreate { .. } => HostFunction::PromiseBatchCreate,
            HostCall::PromiseBatchThen { .. } => HostFunction::PromiseBatchThen,
            HostCall::PromiseBatchActionCreateAccount { .. } => HostFunction::PromiseBatchActionCreateAccount,
            HostCall::PromiseBatchActionDeployContract { .. } => HostFunction::PromiseBatchActionDeployContract,
            HostCall::PromiseBatchActionFunctionCall { .. } => HostFunction::PromiseBatchActionFunctionCall,
            HostCall::PromiseBatchActionTransfer { .. } => HostFunction::PromiseBatchActionTransfer,
            HostCall::PromiseBatchActionStake { .. } => HostFunction::PromiseBatchActionStake,
            HostCall::PromiseBatchActionAddKeyWithFullAccess { .. } => HostFunction::PromiseBatchActionAddKeyWithFullAccess,
            HostCall::PromiseBatchActionAddKeyWithFunctionCall { .. } => HostFunction::PromiseBatchActionAddKeyWithFunctionCall,
            HostCall::PromiseBatchActionDeleteKey { .. } => HostFunction::PromiseBatchActionDeleteKey,
            HostCall::PromiseBatchActionDeleteAccount { .. } => HostFunction::PromiseBatchActionDeleteAccount,
            HostCall::PromiseResultsCount => HostFunction::PromiseResultsCount,
            HostCall::PromiseResult { .. } => HostFunction::PromiseResult,
            HostCall::PromiseReturn { .. } => HostFunction::PromiseReturn,
            HostCall::StorageWrite { .. } => HostFunction::StorageWrite,
            HostCall::StorageRead { .. } => HostFunction::StorageRead,
            HostCall::StorageRemove { .. } => HostFunction::StorageRemove,
            HostCall::StorageHasKey { .. } => HostFunction::StorageHasKey,
            HostCall::StorageIterPrefix { .. } => HostFunction::StorageIterPrefix,
            HostCall::StorageIterRange { .. } => HostFunction::StorageIterRange,
            HostCall::StorageIterNext { .. } => HostFunction::StorageIterNext,
            HostCall::Gas { .. } => HostFunction::Gas,
            HostCall::ValidatorStake { .. } => HostFunction::ValidatorStake,
            HostCall::ValidatorTotalStake { .. } => HostFunction::ValidatorTotalStake,
        }
    }
}

/// The call that a catalog function makes with `args`: the operation of
/// the same name, with the arguments in declared order.
pub open spec fn planned(function: HostFunction, args: Seq<HostValue>) -> HostCall {
    match function {
        HostFunction::ReadRegister => HostCall::ReadRegister {
            register_id: wide(args[0]),
            ptr: wide(args[1]),
        },
        HostFunction::RegisterLen => HostCall::RegisterLen {
            register_id: wide(args[0]),
        },
        HostFunction::WriteRegister => HostCall::WriteRegister {
            register_id: wide(args[0]),
            data_len: wide(args[1]),
            data_ptr: wide(args[2]),
        },
        HostFunction::CurrentAccountId => HostCall::CurrentAccountId {
            register_id: wide(args[0]),
        },
        HostFunction::SignerAccountId => HostCall::SignerAccountId {
            register_id: wide(args[0]),
        },
        HostFunction::SignerAccountPk => HostCall::SignerAccountPk {
            register_id: wide(args[0]),
        },
        HostFunction::PredecessorAccountId => HostCall::PredecessorAccountId {
            register_id: wide(args[0]),
        },
        HostFunction::Input => HostCall::Input {
            register_id: wide(args[0]),
        },
        HostFunction::BlockIndex => HostCall::BlockIndex,
        HostFunction::BlockTimestamp => HostCall::BlockTimestamp,
        HostFunction::EpochHeight => HostCall::EpochHeight,
        HostFunction::StorageUsage => HostCall::StorageUsage,
        HostFunction::AccountBalance => HostCall::AccountBalance {
            balance_ptr: wide(args[0]),
        },
        HostFunction::AccountLockedBalance => HostCall::AccountLockedBalance {
            balance_ptr: wide(args[0]),
        },
        HostFunction::AttachedDeposit => HostCall::AttachedDeposit {
            balance_ptr: wide(args[0]),
        },
        HostFunction::PrepaidGas => HostCall::PrepaidGas,
        HostFunction::UsedGas => HostCall::UsedGas,
        HostFunction::RandomSeed => HostCall::RandomSeed {
            register_id: wide(args[0]),
        },
        HostFunction::Sha256 => HostCall::Sha256 {
            value_len: wide(args[0]),
            value_ptr: wide(args[1]),
            register_id: wide(args[2]),
        },
        HostFunction::Keccak256 => HostCall::Keccak256 {
            value_len: wide(args[0]),
            value_ptr: wide(args[1]),
            register_id: wide(args[2]),
        },
        HostFunction::Keccak512 => HostCall::Keccak512 {
            value_len: wide(args[0]),
            value_ptr: wide(args[1]),
            register_id: wide(args[2]),
        },
        HostFunction::ValueReturn => HostCall::ValueReturn {
            value_len: wide(args[0]),
            value_ptr: wide(args[1]),
        },
        HostFunction::Panic => HostCall::Panic,
        HostFunction::PanicUtf8 => HostCall::PanicUtf8 {
            len: wide(args[0]),
            ptr: wide(args[1]),
        },
        HostFunction::LogUtf8 => HostCall::LogUtf8 {
            len: wide(args[0]),
            ptr: wide(args[1]),
        },
        HostFunction::LogUtf16 => HostCall::LogUtf16 {
            len: wide(args[0]),
            ptr: wide(args[1]),
        },
        HostFunction::Abort => HostCall::Abort {
            msg_ptr: narrow(args[0]),
            filename_ptr: narrow(args[1]),
            line: narrow(args[2]),
            col: narrow(args[3]),
        },
        HostFunction::PromiseCreate => HostCall::PromiseCreate {
            account_id_len: wide(args[0]),
            account_id_ptr: wide(args[1]),
            method_name_len: wide(args[2]),
            method_name_ptr: wide(args[3]),
            arguments_len: wide(args[4]),
            arguments_ptr: wide(args[5]),
            amount_ptr: wide(args[6]),
            gas: wide(args[7]),
        },
        HostFunction::PromiseThen => HostCall::PromiseThen {
            promise_idx: wide(args[0]),
            account_id_len: wide(args[1]),
            account_id_ptr: wide(args[2]),
            method_name_len: wide(args[3]),
            method_name_ptr: wide(args[4]),
            arguments_len: wide(args[5]),
            arguments_ptr: wide(args[6]),
            amount_ptr: wide(args[7]),
            gas: wide(args[8]),
        },
        HostFunction::PromiseAnd => HostCall::PromiseAnd {
            promise_idx_ptr: wide(args[0]),
            promise_idx_count: wide(args[1]),
        },
        HostFunction::PromiseBatchCreate => HostCall::PromiseBatchCreate {
            account_id_len: wide(args[0]),
            account_id_ptr: wide(args[1]),
        },
        HostFunction::PromiseBatchThen => HostCall::PromiseBatchThen {
            promise_idx: wide(args[0]),
            account_id_len: wide(args[1]),
            account_id_ptr: wide(args[2]),
        },
        HostFunction::PromiseBatchActionCreateAccount => HostCall::PromiseBatchActionCreateAccount {
            promise_idx: wide(args[0]),
        },
        HostFunction::PromiseBatchActionDeployContract => HostCall::PromiseBatchActionDeployContract {
            promise_idx: wide(args[0]),
            code_len: wide(args[1]),
            code_ptr: wide(args[2]),
        },
        HostFunction::PromiseBatchActionFunctionCall => HostCall::PromiseBatchActionFunctionCall {
            promise_idx: wide(args[0]),
            method_name_len: wide(args[1]),
            method_name_ptr: wide(args[2]),
            arguments_len: wide(args[3]),
            arguments_ptr: wide(args[4]),
            amount_ptr: wide(args[5]),
            gas: wide(args[6]),
        },
        HostFunction::PromiseBatchActionTransfer => HostCall::PromiseBatchActionTransfer {
            promise_idx: wide(args[0]),
            amount_ptr: wide(args[1]),
        },
        HostFunction::PromiseBatchActionStake => HostCall::PromiseBatchActionStake {
            promise_idx: wide(args[0]),
            amount_ptr: wide(args[1]),
            public_key_len: wide(args[2]),
            public_key_ptr: wide(args[3]),
        },
        HostFunction::PromiseBatchActionAddKeyWithFullAccess => HostCall::PromiseBatchActionAddKeyWithFullAccess {
            promise_idx: wide(args[0]),
            public_key_len: wide(args[1]),
            public_key_ptr: wide(args[2]),
            nonce: wide(args[3]),
        },
        HostFunction::PromiseBatchActionAddKeyWithFunctionCall => HostCall::PromiseBatchActionAddKeyWithFunctionCall {
            promise_idx: wide(args[0]),
            public_key_len: wide(args[1]),
            public_key_ptr: wide(args[2]),
            nonce: wide(args[3]),
            allowance_ptr: wide(args[4]),
            receiver_id_len: wide(args[5]),
            receiver_id_ptr: wide(args[6]),
            method_names_len: wide(args[7]),
            method_names_ptr: wide(args[8]),
        },
        HostFunction::PromiseBatchActionDeleteKey => HostCall::PromiseBatchActionDeleteKey {
            promise_idx: wide(args[0]),
            public_key_len: wide(args[1]),
            public_key_ptr: wide(args[2]),
        },
        HostFunction::PromiseBatchActionDeleteAccount => HostCall::PromiseBatchActionDeleteAccount {
            promise_idx: wide(args[0]),
            beneficiary_id_len: wide(args[1]),
            beneficiary_id_ptr: wide(args[2]),
        },
        HostFunction::PromiseResultsCount => HostCall::PromiseResultsCount,
        HostFunction::PromiseResult => HostCall::PromiseResult {
            result_idx: wide(args[0]),
            register_id: wide(args[1]),
        },
        HostFunction::PromiseReturn => HostCall::PromiseReturn {
            promise_idx: wide(args[0]),
        },
        HostFunction::StorageWrite => HostCall::StorageWrite {
            key_len: wide(args[0]),
            key_ptr: wide(args[1]),
            value_len: wide(args[2]),
            value_ptr: wide(args[3]),
            register_id: wide(args[4]),
        },
        HostFunction::StorageRead => HostCall::StorageRead {
            key_len: wide(args[0]),
            key_ptr: wide(args[1]),
            register_id: wide(args[2]),
        },
        HostFunction::StorageRemove => HostCall::StorageRemove {
            key_len: wide(args[0]),
            key_ptr: wide(args[1]),
            register_id: wide(args[2]),
        },
        HostFunction::StorageHasKey => HostCall::StorageHasKey {
            key_len: wide(args[0]),
            key_ptr: wide(args[1]),
        },
        HostFunction::StorageIterPrefix => HostCall::StorageIterPrefix {
            prefix_len: wide(args[0]),
            prefix_ptr: wide(args[1]),
        },
        HostFunction::StorageIterRange => HostCall::StorageIterRange {
            start_len: wide(args[0]),
            start_ptr: wide(args[1]),
            end_len: wide(args[2]),
            end_ptr: wide(args[3]),
        },
        HostFunction::StorageIterNext => HostCall::StorageIterNext {
            iterator_id: wide(args[0]),
            key_register_id: wide(args[1]),
            value_register_id: wide(args[2]),
        },
        HostFunction::Gas => HostCall::Gas {
            gas_amount: narrow(args[0]),
        },
        HostFunction::ValidatorStake => HostCall::ValidatorStake {
            account_id_len: wide(args[0]),
            account_id_ptr: wide(args[1]),
            stake_ptr: wide(args[2]),
        },
        HostFunction::ValidatorTotalStake => HostCall::ValidatorTotalStake {
            stake_ptr: wide(args[0]),
        },
    }
}

/// Decides which host logic operation is called and which argument it
/// gets under which name.
pub fn plan(function: HostFunction, args: &[HostValue]) -> (r: HostCall)
    requires
        function.accepts(args@),
    ensures
        r == planned(function, args@),
        r.entry() == function,
{
    match function {
        HostFunction::ReadRegister => HostCall::ReadRegister {
            register_id: u64_at(args, 0),
            ptr: u64_at(args, 1),
        },
        HostFunction::RegisterLen => HostCall::RegisterLen {
            register_id: u64_at(args, 0),
        },
        HostFunction::WriteRegister => HostCall::WriteRegister {
            register_id: u64_at(args, 0),
            data_len: u64_at(args, 1),
            data_ptr: u64_at(args, 2),
        },
        HostFunction::CurrentAccountId => HostCall::CurrentAccountId {
            register_id: u64_at(args, 0),
        },
        HostFunction::SignerAccountId => HostCall::SignerAccountId {
            register_id: u64_at(args, 0),
        },
        HostFunction::SignerAccountPk => HostCall::SignerAccountPk {
            register_id: u64_at(args, 0),
        },
        HostFunction::PredecessorAccountId => HostCall::PredecessorAccountId {
            register_id: u64_at(args, 0),
        },
        HostFunction::Input => HostCall::Input {
            register_id: u64_at(args, 0),
        },
        HostFunction::BlockIndex => HostCall::BlockIndex,
        HostFunction::BlockTimestamp => HostCall::BlockTimestamp,
        HostFunction::EpochHeight => HostCall::EpochHeight,
        HostFunction::StorageUsage => HostCall::StorageUsage,
        HostFunction::AccountBalance => HostCall::AccountBalance {
            balance_ptr: u64_at(args, 0),
        },
        HostFunction::AccountLockedBalance => HostCall::AccountLockedBalance {
            balance_ptr: u64_at(args, 0),
        },
        HostFunction::AttachedDeposit => HostCall::AttachedDeposit {
            balance_ptr: u64_at(args, 0),
        },
        HostFunction::PrepaidGas => HostCall::PrepaidGas,
        HostFunction::UsedGas => HostCall::UsedGas,
        HostFunction::RandomSeed => HostCall::RandomSeed {
            register_id: u64_at(args, 0),
        },
        HostFunction::Sha256 => HostCall::Sha256 {
            value_len: u64_at(args, 0),
            value_ptr: u64_at(args, 1),
            register_id: u64_at(args, 2),
        },
        HostFunction::Keccak256 => HostCall::Keccak256 {
            value_len: u64_at(args, 0),
            value_ptr: u64_at(args, 1),
            register_id: u64_at(args, 2),
        },
        HostFunction::Keccak512 => HostCall::Keccak512 {
            value_len: u64_at(args, 0),
            value_ptr: u64_at(args, 1),
            register_id: u64_at(args, 2),
        },
        HostFunction::ValueReturn => HostCall::ValueReturn {
            value_len: u64_at(args, 0),
            value_ptr: u64_at(args, 1),
        },
        HostFunction::Panic => HostCall::Panic,
        HostFunction::PanicUtf8 => HostCall::PanicUtf8 {
            len: u64_at(args, 0),
            ptr: u64_at(args, 1),
        },
        HostFunction::LogUtf8 => HostCall::LogUtf8 {
            len: u64_at(args, 0),
            ptr: u64_at(args, 1),
        },
        HostFunction::LogUtf16 => HostCall::LogUtf16 {
            len: u64_at(args, 0),
            ptr: u64_at(args, 1),
        },
        HostFunction::Abort => HostCall::Abort {
            msg_ptr: u32_at(args, 0),
            filename_ptr: u32_at(args, 1),
            line: u32_at(args, 2),
            col: u32_at(args, 3),
        },
        HostFunction::PromiseCreate => HostCall::PromiseCreate {
            account_id_len: u64_at(args, 0),
            account_id_ptr: u64_at(args, 1),
            method_name_len: u64_at(args, 2),
            method_name_ptr: u64_at(args, 3),
            arguments_len: u64_at(args, 4),
            arguments_ptr: u64_at(args, 5),
            amount_ptr: u64_at(args, 6),
            gas: u64_at(args, 7),
        },
        HostFunction::PromiseThen => HostCall::PromiseThen {
            promise_idx: u64_at(args, 0),
            account_id_len: u64_at(args, 1),
            account_id_ptr: u64_at(args, 2),
            method_name_len: u64_at(args, 3),
            method_name_ptr: u64_at(args, 4),
            arguments_len: u64_at(args, 5),
            arguments_ptr: u64_at(args, 6),
            amount_ptr: u64_at(args, 7),
            gas: u64_at(args, 8),
        },
        HostFunction::PromiseAnd => HostCall::PromiseAnd {
            promise_idx_ptr: u64_at(args, 0),
            promise_idx_count: u64_at(args, 1),
        },
        HostFunction::PromiseBatchCreate => HostCall::PromiseBatchCreate {
            account_id_len: u64_at(args, 0),
            account_id_ptr: u64_at(args, 1),
        },
        HostFunction::PromiseBatchThen => HostCall::PromiseBatchThen {
            promise_idx: u64_at(args, 0),
            account_id_len: u64_at(args, 1),
            account_id_ptr: u64_at(args, 2),
        },
        HostFunction::PromiseBatchActionCreateAccount => HostCall::PromiseBatchActionCreateAccount {
            promise_idx: u64_at(args, 0),
        },
        HostFunction::PromiseBatchActionDeployContract => HostCall::PromiseBatchActionDeployContract {
            promise_idx: u64_at(args, 0),
            code_len: u64_at(args, 1),
            code_ptr: u64_at(args, 2),
        },
        HostFunction::PromiseBatchActionFunctionCall => HostCall::PromiseBatchActionFunctionCall {
            promise_idx: u64_at(args, 0),
            method_name_len: u64_at(args, 1),
            method_name_ptr: u64_at(args, 2),
            arguments_len: u64_at(args, 3),
            arguments_ptr: u64_at(args, 4),
            amount_ptr: u64_at(args, 5),
            gas: u64_at(args, 6),
        },
        HostFunction::PromiseBatchActionTransfer => HostCall::PromiseBatchActionTransfer {
            promise_idx: u64_at(args, 0),
            amount_ptr: u64_at(args, 1),
        },
        HostFunction::PromiseBatchActionStake => HostCall::PromiseBatchActionStake {
            promise_idx: u64_at(args, 0),
            amount_ptr: u64_at(args, 1),
            public_key_len: u64_at(args, 2),
            public_key_ptr: u64_at(args, 3),
        },
        HostFunction::PromiseBatchActionAddKeyWithFullAccess => HostCall::PromiseBatchActionAddKeyWithFullAccess {
            promise_idx: u64_at(args, 0),
            public_key_len: u64_at(args, 1),
            public_key_ptr: u64_at(args, 2),
            nonce: u64_at(args, 3),
        },
        HostFunction::PromiseBatchActionAddKeyWithFunctionCall => HostCall::PromiseBatchActionAddKeyWithFunctionCall {
            promise_idx: u64_at(args, 0),
            public_key_len: u64_at(args, 1),
            public_key_ptr: u64_at(args, 2),
            nonce: u64_at(args, 3),
            allowance_ptr: u64_at(args, 4),
            receiver_id_len: u64_at(args, 5),
            receiver_id_ptr: u64_at(args, 6),
            method_names_len: u64_at(args, 7),
            method_names_ptr: u64_at(args, 8),
        },
        HostFunction::PromiseBatchActionDeleteKey => HostCall::PromiseBatchActionDeleteKey {
            promise_idx: u64_at(args, 0),
            public_key_len: u64_at(args, 1),
            public_key_ptr: u64_at(args, 2),
        },
        HostFunction::PromiseBatchActionDeleteAccount => HostCall::PromiseBatchActionDeleteAccount {
            promise_idx: u64_at(args, 0),
            beneficiary_id_len: u64_at(args, 1),
            beneficiary_id_ptr: u64_at(args, 2),
        },
        HostFunction::PromiseResultsCount => HostCall::PromiseResultsCount,
        HostFunction::PromiseResult => HostCall::PromiseResult {
            result_idx: u64_at(args, 0),
            register_id: u64_at(args, 1),
        },
        HostFunction::PromiseReturn => HostCall::PromiseReturn {
            promise_idx: u64_at(args, 0),
        },
        HostFunction::StorageWrite => HostCall::StorageWrite {
            key_len: u64_at(args, 0),
            key_ptr: u64_at(args, 1),
            value_len: u64_at(args, 2),
            value_ptr: u64_at(args, 3),
            register_id: u64_at(args, 4),
        },
        HostFunction::StorageRead => HostCall::StorageRead {
            key_len: u64_at(args, 0),
            key_ptr: u64_at(args, 1),
            register_id: u64_at(args, 2),
        },
        HostFunction::StorageRemove => HostCall::StorageRemove {
            key_len: u64_at(args, 0),
            key_ptr: u64_at(args, 1),
            register_id: u64_at(args, 2),
        },
        HostFunction::StorageHasKey => HostCall::StorageHasKey {
            key_len: u64_at(args, 0),
            key_ptr: u64_at(args, 1),
        },
        HostFunction::StorageIterPrefix => HostCall::StorageIterPrefix {
            prefix_len: u64_at(args, 0),
            prefix_ptr: u64_at(args, 1),
        },
        HostFunction::StorageIterRange => HostCall::StorageIterRange {
            start_len: u64_at(args, 0),
            start_ptr: u64_at(args, 1),
            end_len: u64_at(args, 2),
            end_ptr: u64_at(args, 3),
        },
        HostFunction::StorageIterNext => HostCall::StorageIterNext {
            iterator_id: u64_at(args, 0),
            key_register_id: u64_at(args, 1),
            value_register_id: u64_at(args, 2),
        },
        HostFunction::Gas => HostCall::Gas {
            gas_amount: u32_at(args, 0),
        },
        HostFunction::ValidatorStake => HostCall::ValidatorStake {
            account_id_len: u64_at(args, 0),
            account_id_ptr: u64_at(args, 1),
            stake_ptr: u64_at(args, 2),
        },
        HostFunction::ValidatorTotalStake => HostCall::ValidatorTotalStake {
            stake_ptr: u64_at(args, 0),
        },
    }
}

/// Makes the call: hands the arguments to the host logic operation in the
/// order of its parameters. On success the result has the shape the
/// catalog declares; whether the call succeeds is the host's decision.
pub fn perform(logic: &mut VMLogic<'_>, call: HostCall) -> (r: Result<
    Option<HostValue>,
    VMLogicError,
>)
    ensures
        r is Ok ==> result_conforms(call.entry(), r->Ok_0),
{
    match call {
        HostCall::ReadRegister {
            register_id,
            ptr,
        } => without_value(
            logic.read_register(
                register_id,
                ptr,
            ),
        ),
        HostCall::RegisterLen { register_id } => with_value(logic.register_len(register_id)),
        HostCall::WriteRegister {
            register_id,
            data_len,
            data_ptr,
        } => without_value(
            logic.write_register(
                register_id,
                data_len,
                data_ptr,
            ),
        ),
        HostCall::CurrentAccountId {
            register_id,
        } => without_value(
            logic.current_account_id(
                register_id,
            ),
        ),
        HostCall::SignerAccountId {
            register_id,
        } => without_value(
            logic.signer_account_id(
                register_id,
            ),
        ),
        HostCall::SignerAccountPk {
            register_id,
        } => without_value(
            logic.signer_account_pk(
                register_id,
            ),
        ),
        HostCall::PredecessorAccountId {
            register_id,
        } => without_value(
            logic.predecessor_account_id(
                register_id,
            ),
        ),
        HostCall::Input { register_id } => without_value(logic.input(register_id)),
        HostCall::BlockIndex => with_value(logic.block_index()),
        HostCall::BlockTimestamp => with_value(logic.block_timestamp()),
        HostCall::EpochHeight => with_value(logic.epoch_height()),
        HostCall::StorageUsage => with_value(logic.storage_usage()),
        HostCall::AccountBalance {
            balance_ptr,
        } => without_value(
            logic.account_balance(
                balance_ptr,
            ),
        ),
        HostCall::AccountLockedBalance {
            balance_ptr,
        } => without_value(
            logic.account_locked_balance(
                balance_ptr,
            ),
        ),
        HostCall::AttachedDeposit {
            balance_ptr,
        } => without_value(
            logic.attached_deposit(
                balance_ptr,
            ),
        ),
        HostCall::PrepaidGas => with_value(logic.prepaid_gas()),
        HostCall::UsedGas => with_value(logic.used_gas()),
        HostCall::RandomSeed { register_id } => without_value(logic.random_seed(register_id)),
        HostCall::Sha256 {
            value_len,
            value_ptr,
            register_id,
        } => without_value(
            logic.sha256(
                value_len,
                value_ptr,
                register_id,
            ),
        ),
        HostCall::Keccak256 {
            value_len,
            value_ptr,
            register_id,
        } => without_value(
            logic.keccak256(
                value_len,
                value_ptr,
                register_id,
            ),
        ),
        HostCall::Keccak512 {
            value_len,
            value_ptr,
            register_id,
        } => without_value(
            logic.keccak512(
                value_len,
                value_ptr,
                register_id,
            ),
        ),
        HostCall::ValueReturn {
            value_len,
            value_ptr,
        } => without_value(
            logic.value_return(
                value_len,
                value_ptr,
            ),
        ),
        HostCall::Panic => without_value(logic.panic()),
        HostCall::PanicUtf8 { len, ptr } => without_value(logic.panic_utf8(len, ptr)),
        HostCall::LogUtf8 { len, ptr } => without_value(logic.log_utf8(len, ptr)),
        HostCall::LogUtf16 { len, ptr } => without_value(logic.log_utf16(len, ptr)),
        HostCall::Abort {
            msg_ptr,
            filename_ptr,
            line,
            col,
        } => without_value(
            logic.abort(
                msg_ptr,
                filename_ptr,
                line,
                col,
            ),
        ),
        HostCall::PromiseCreate {
            account_id_len,
            account_id_ptr,
            method_name_len,
            method_name_ptr,
            arguments_len,
            arguments_ptr,
            amount_ptr,
            gas,
        } => with_value(
            logic.promise_create(
                account_id_len,
                account_id_ptr,
                method_name_len,
                method_name_ptr,
                arguments_len,
                arguments_ptr,
                amount_ptr,
                gas,
            ),
        ),
        HostCall::PromiseThen {
            promise_idx,
            account_id_len,
            account_id_ptr,
            method_name_len,
            method_name_ptr,
            arguments_len,
            arguments_ptr,
            amount_ptr,
            gas,
        } => with_value(
            logic.promise_then(
                promise_idx,
                account_id_len,
                account_id_ptr,
                method_name_len,
                method_name_ptr,
                arguments_len,
                arguments_ptr,
                amount_ptr,
                gas,
            ),
        ),
        HostCall::PromiseAnd {
            promise_idx_ptr,
            promise_idx_count,
        } => with_value(
            logic.promise_and(
                promise_idx_ptr,
                promise_idx_count,
            ),
        ),
        HostCall::PromiseBatchCreate {
            account_id_len,
            account_id_ptr,
        } => with_value(
            logic.promise_batch_create(
                account_id_len,
                account_id_ptr,
            ),
        ),
        HostCall::PromiseBatchThen {
            promise_idx,
            account_id_len,
            account_id_ptr,
        } => with_value(
            logic.promise_batch_then(
                promise_idx,
                account_id_len,
                account_id_ptr,
            ),
        ),
        HostCall::PromiseBatchActionCreateAccount {
            promise_idx,
        } => without_value(
            logic.promise_batch_action_create_account(
                promise_idx,
            ),
        ),
        HostCall::PromiseBatchActionDeployContract {
            promise_idx,
            code_len,
            code_ptr,
        } => without_value(
            logic.promise_batch_action_deploy_contract(
                promise_idx,
                code_len,
                code_ptr,
            ),
        ),
        HostCall::PromiseBatchActionFunctionCall {
            promise_idx,
            method_name_len,
            method_name_ptr,
            arguments_len,
            arguments_ptr,
            amount_ptr,
            gas,
        } => without_value(
            logic.promise_batch_action_function_call(
                promise_idx,
                method_name_len,
                method_name_ptr,
                arguments_len,
                arguments_ptr,
                amount_ptr,
                gas,
            ),
        ),
        HostCall::PromiseBatchActionTransfer {
            promise_idx,
            amount_ptr,
        } => without_value(
            logic.promise_batch_action_transfer(
                promise_idx,
                amount_ptr,
            ),
        ),
        HostCall::PromiseBatchActionStake {
            promise_idx,
            amount_ptr,
            public_key_len,
            public_key_ptr,
        } => without_value(
            logic.promise_batch_action_stake(
                promise_idx,
                amount_ptr,
                public_key_len,
                public_key_ptr,
            ),
        ),
        HostCall::PromiseBatchActionAddKeyWithFullAccess {
            promise_idx,
            public_key_len,
            public_key_ptr,
            nonce,
        } => without_value(
            logic.promise_batch_action_add_key_with_full_access(
                promise_idx,
                public_key_len,
                public_key_ptr,
                nonce,
            ),
        ),
        HostCall::PromiseBatchActionAddKeyWithFunctionCall {
            promise_idx,
            public_key_len,
            public_key_ptr,
            nonce,
            allowance_ptr,
            receiver_id_len,
            receiver_id_ptr,
            method_names_len,
            method_names_ptr,
        } => without_value(
            logic.promise_batch_action_add_key_with_function_call(
                promise_idx,
                public_key_len,
                public_key_ptr,
                nonce,
                allowance_ptr,
                receiver_id_len,
                receiver_id_ptr,
                method_names_len,
                method_names_ptr,
            ),
        ),
        HostCall::PromiseBatchActionDeleteKey {
            promise_idx,
            public_key_len,
            public_key_ptr,
        } => without_value(
            logic.promise_batch_action_delete_key(
                promise_idx,
                public_key_len,
                public_key_ptr,
            ),
        ),
        HostCall::PromiseBatchActionDeleteAccount {
            promise_idx,
            beneficiary_id_len,
            beneficiary_id_ptr,
        } => without_value(
            logic.promise_batch_action_delete_account(
                promise_idx,
                beneficiary_id_len,
                beneficiary_id_ptr,
            ),
        ),
        HostCall::PromiseResultsCount => with_value(logic.promise_results_count()),
        HostCall::PromiseResult {
            result_idx,
            register_id,
        } => with_value(
            logic.promise_result(
                result_idx,
                register_id,
            ),
        ),
        HostCall::PromiseReturn { promise_idx } => without_value(logic.promise_return(promise_idx)),
        HostCall::StorageWrite {
            key_len,
            key_ptr,
            value_len,
            value_ptr,
            register_id,
        } => with_value(
            logic.storage_write(
                key_len,
                key_ptr,
                value_len,
                value_ptr,
                register_id,
            ),
        ),
        HostCall::StorageRead {
            key_len,
            key_ptr,
            register_id,
        } => with_value(
            logic.storage_read(
                key_len,
                key_ptr,
                register_id,
            ),
        ),
        HostCall::StorageRemove {
            key_len,
            key_ptr,
            register_id,
        } => with_value(
            logic.storage_remove(
                key_len,
                key_ptr,
                register_id,
            ),
        ),
        HostCall::StorageHasKey {
            key_len,
            key_ptr,
        } => with_value(
            logic.storage_has_key(
                key_len,
                key_ptr,
            ),
        ),
        HostCall::StorageIterPrefix {
            prefix_len,
            prefix_ptr,
        } => with_value(
            logic.storage_iter_prefix(
                prefix_len,
                prefix_ptr,
            ),
        ),
        HostCall::StorageIterRange {
            start_len,
            start_ptr,
            end_len,
            end_ptr,
        } => with_value(
            logic.storage_iter_range(
                start_len,
                start_ptr,
                end_len,
                end_ptr,
            ),
        ),
        HostCall::StorageIterNext {
            iterator_id,
            key_register_id,
            value_register_id,
        } => with_value(
            logic.storage_iter_next(
                iterator_id,
                key_register_id,
                value_register_id,
            ),
        ),
        HostCall::Gas { gas_amount } => without_value(logic.gas(gas_amount)),
        HostCall::ValidatorStake {
            account_id_len,
            account_id_ptr,
            stake_ptr,
        } => without_value(
            logic.validator_stake(
                account_id_len,
                account_id_ptr,
                stake_ptr,
            ),
        ),
        HostCall::ValidatorTotalStake {
            stake_ptr,
        } => without_value(
            logic.validator_total_stake(
                stake_ptr,
            ),
        ),
    }
}

/// Calls the host logic operation that `function` names, with `args` in
/// declared order: the call is the one that [`plan`] decides, made by
/// [`perform`]. On success the result has the shape the catalog declares;
/// whether the call succeeds is the host's decision.
pub fn call_host(logic: &mut VMLogic<'_>, function: HostFunction, args: &[HostValue]) -> (r: Result<
    Option<HostValue>,
    VMLogicError,
>)
    requires
        function.accepts(args@),
    ensures
        r is Ok ==> result_conforms(function, r->Ok_0),
{
    perform(logic, plan(function, args))
}

/// Calls a catalog function with host-native arguments, for an engine that
/// converts the sandbox's values itself. Arguments that do not match the
/// declared signature are rejected before host logic is reached.
pub fn invoke_host(logic: &mut VMLogic<'_>, function: HostFunction, args: &[HostValue]) -> (r: Result<
    Option<HostValue>,
    BindingError,
>)
    ensures
        !function.accepts(args@) ==> r is Err && r->Err_0 == (BindingError::SignatureMismatch {
            function,
        }),
        function.accepts(args@) ==> (r is Err ==> r->Err_0 is Host),
        r is Ok ==> result_conforms(function, r->Ok_0),
{
    if !function.check_args(args) {
        return Err(BindingError::SignatureMismatch { function });
    }
    match call_host(logic, function, args) {
        Ok(v) => Ok(v),
        Err(e) => Err(BindingError::Host(describe_failure(e))),
    }
}

/// Calls a catalog function with the arguments as the sandbox passed them.
/// Each argument is reinterpreted as the host's unsigned value of the same
/// width; arguments that do not match the declared signature are rejected
/// before host logic is reached. A returned value is reinterpreted for the
/// sandbox.
pub fn invoke(logic: &mut VMLogic<'_>, function: HostFunction, args: &[SandboxValue]) -> (r: Result<
    Option<SandboxValue>,
    BindingError,
>)
    ensures
        !function.accepts(lifted_all(args@)) ==> r is Err && r->Err_0 == (
        BindingError::SignatureMismatch { function }),
        function.accepts(lifted_all(args@)) ==> (r is Err ==> r->Err_0 is Host),
        r is Ok ==> sandbox_result_conforms(function, r->Ok_0),
{
    let host_args = to_host_all(args);
    if !function.check_args(host_args.as_slice()) {
        return Err(BindingError::SignatureMismatch { function });
    }
    match call_host(logic, function, host_args.as_slice()) {
        Ok(v) => lower_result(Ok(v)),
        Err(e) => lower_result(Err(describe_failure(e))),
    }
}

/// Whatever host logic returns, the sandbox gets a value exactly when the
/// host returned one, with the same bits, and a host failure is never
/// turned into a value.
pub proof fn lemma_lowered_result_faithful(host_result: Result<Option<HostValue>, HostFailure>)
    ensures
        lowered_result(host_result) is Ok <==> host_result is Ok,
        host_result is Ok && host_result->Ok_0 is Some ==> lowered_result(host_result)->Ok_0 is Some
            && lowered_result(host_result)->Ok_0->0.lifted() == host_result->Ok_0->0,
        host_result is Ok && host_result->Ok_0 is None ==> lowered_result(host_result)->Ok_0 is None,
        host_result is Err ==> lowered_result(host_result)->Err_0 == BindingError::Host(
            host_result->Err_0,
        ),
{
}

} // verus!
