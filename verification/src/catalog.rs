//! The catalog of host functions that sandboxed code may import.
//!
//! The catalog is one fixed, ordered table. Each entry has the name under
//! which the function is exported to the sandbox, the widths of its
//! parameters in order, and the width of its result if it has one. Every
//! engine binding is built from this table, so that all of them agree on
//! names, order and arity.

use crate::marshal::{HostValue, ValueKind};
use vstd::prelude::*;

verus! {

/// The namespace under which the catalog and the memory are exported.
pub const IMPORT_NAMESPACE: &'static str = "host";

/// The name under which the linear memory is exported.
pub const MEMORY_EXPORT: &'static str = "memory";

/// Number of entries in the catalog.
pub const CATALOG_LEN: usize = 54;

/// One host function, named as the sandbox imports it.
#[derive(Clone, Copy, Debug, PartialEq, Eq, Hash, Structural)]
pub enum HostFunction {
    // Registers
    ReadRegister,
    RegisterLen,
    WriteRegister,
    // Context
    CurrentAccountId,
    SignerAccountId,
    SignerAccountPk,
    PredecessorAccountId,
    Input,
    BlockIndex,
    BlockTimestamp,
    EpochHeight,
    StorageUsage,
    // Economics
    AccountBalance,
    AccountLockedBalance,
    AttachedDeposit,
    PrepaidGas,
    UsedGas,
    // Math
    RandomSeed,
    Sha256,
    Keccak256,
    Keccak512,
    // Miscellaneous
    ValueReturn,
    Panic,
    PanicUtf8,
    LogUtf8,
    LogUtf16,
    Abort,
    // Promises
    PromiseCreate,
    PromiseThen,
    PromiseAnd,
    PromiseBatchCreate,
    PromiseBatchThen,
    // Promise actions
    PromiseBatchActionCreateAccount,
    PromiseBatchActionDeployContract,
    PromiseBatchActionFunctionCall,
    PromiseBatchActionTransfer,
    PromiseBatchActionStake,
    PromiseBatchActionAddKeyWithFullAccess,
    PromiseBatchActionAddKeyWithFunctionCall,
    PromiseBatchActionDeleteKey,
    PromiseBatchActionDeleteAccount,
    // Promise results
    PromiseResultsCount,
    PromiseResult,
    PromiseReturn,
    // Storage
    StorageWrite,
    StorageRead,
    StorageRemove,
    StorageHasKey,
    StorageIterPrefix,
    StorageIterRange,
    StorageIterNext,
    // Gas counter, called by injected instrumentation
    Gas,
    // Validators
    ValidatorStake,
    ValidatorTotalStake,
}

impl HostFunction {
    /// The name under which the function is exported to the sandbox.
    pub open spec fn spec_name(self) -> Seq<char> {
        match self {
            HostFunction::ReadRegister => "read_register"@,
            HostFunction::RegisterLen => "register_len"@,
            HostFunction::WriteRegister => "write_register"@,
            HostFunction::CurrentAccountId => "current_account_id"@,
            HostFunction::SignerAccountId => "signer_account_id"@,
            HostFunction::SignerAccountPk => "signer_account_pk"@,
            HostFunction::PredecessorAccountId => "predecessor_account_id"@,
            HostFunction::Input => "input"@,
            HostFunction::BlockIndex => "block_index"@,
            HostFunction::BlockTimestamp => "block_timestamp"@,
            HostFunction::EpochHeight => "epoch_height"@,
            HostFunction::StorageUsage => "storage_usage"@,
            HostFunction::AccountBalance => "account_balance"@,
            HostFunction::AccountLockedBalance => "account_locked_balance"@,
            HostFunction::AttachedDeposit => "attached_deposit"@,
            HostFunction::PrepaidGas => "prepaid_gas"@,
            HostFunction::UsedGas => "used_gas"@,
            HostFunction::RandomSeed => "random_seed"@,
            HostFunction::Sha256 => "sha256"@,
            HostFunction::Keccak256 => "keccak256"@,
            HostFunction::Keccak512 => "keccak512"@,
            HostFunction::ValueReturn => "value_return"@,
            HostFunction::Panic => "panic"@,
            HostFunction::PanicUtf8 => "panic_utf8"@,
            HostFunction::LogUtf8 => "log_utf8"@,
            HostFunction::LogUtf16 => "log_utf16"@,
            HostFunction::Abort => "abort"@,
            HostFunction::PromiseCreate => "promise_create"@,
            HostFunction::PromiseThen => "promise_then"@,
            HostFunction::PromiseAnd => "promise_and"@,
            HostFunction::PromiseBatchCreate => "promise_batch_create"@,
            HostFunction::PromiseBatchThen => "promise_batch_then"@,
            HostFunction::PromiseBatchActionCreateAccount => "promise_batch_action_create_account"@,
            HostFunction::PromiseBatchActionDeployContract => "promise_batch_action_deploy_contract"@,
            HostFunction::PromiseBatchActionFunctionCall => "promise_batch_action_function_call"@,
            HostFunction::PromiseBatchActionTransfer => "promise_batch_action_transfer"@,
            HostFunction::PromiseBatchActionStake => "promise_batch_action_stake"@,
            HostFunction::PromiseBatchActionAddKeyWithFullAccess => "promise_batch_action_add_key_with_full_access"@,
            HostFunction::PromiseBatchActionAddKeyWithFunctionCall => "promise_batch_action_add_key_with_function_call"@,
            HostFunction::PromiseBatchActionDeleteKey => "promise_batch_action_delete_key"@,
            HostFunction::PromiseBatchActionDeleteAccount => "promise_batch_action_delete_account"@,
            HostFunction::PromiseResultsCount => "promise_results_count"@,
            HostFunction::PromiseResult => "promise_result"@,
            HostFunction::PromiseReturn => "promise_return"@,
            HostFunction::StorageWrite => "storage_write"@,
            HostFunction::StorageRead => "storage_read"@,
            HostFunction::StorageRemove => "storage_remove"@,
            HostFunction::StorageHasKey => "storage_has_key"@,
            HostFunction::StorageIterPrefix => "storage_iter_prefix"@,
            HostFunction::StorageIterRange => "storage_iter_range"@,
            HostFunction::StorageIterNext => "storage_iter_next"@,
            HostFunction::Gas => "gas"@,
            HostFunction::ValidatorStake => "validator_stake"@,
            HostFunction::ValidatorTotalStake => "validator_total_stake"@,
        }
    }

    /// The number of parameters.
    pub open spec fn arity(self) -> nat {
        match self {
            HostFunction::ReadRegister => 2,
            HostFunction::RegisterLen => 1,
            HostFunction::WriteRegister => 3,
            HostFunction::CurrentAccountId => 1,
            HostFunction::SignerAccountId => 1,
            HostFunction::SignerAccountPk => 1,
            HostFunction::PredecessorAccountId => 1,
            HostFunction::Input => 1,
            HostFunction::BlockIndex => 0,
            HostFunction::BlockTimestamp => 0,
            HostFunction::EpochHeight => 0,
            HostFunction::StorageUsage => 0,
            HostFunction::AccountBalance => 1,
            HostFunction::AccountLockedBalance => 1,
            HostFunction::AttachedDeposit => 1,
            HostFunction::PrepaidGas => 0,
            HostFunction::UsedGas => 0,
            HostFunction::RandomSeed => 1,
            HostFunction::Sha256 => 3,
            HostFunction::Keccak256 => 3,
            HostFunction::Keccak512 => 3,
            HostFunction::ValueReturn => 2,
            HostFunction::Panic => 0,
            HostFunction::PanicUtf8 => 2,
            HostFunction::LogUtf8 => 2,
            HostFunction::LogUtf16 => 2,
            HostFunction::Abort => 4,
            HostFunction::PromiseCreate => 8,
            HostFunction::PromiseThen => 9,
            HostFunction::PromiseAnd => 2,
            HostFunction::PromiseBatchCreate => 2,
            HostFunction::PromiseBatchThen => 3,
            HostFunction::PromiseBatchActionCreateAccount => 1,
            HostFunction::PromiseBatchActionDeployContract => 3,
            HostFunction::PromiseBatchActionFunctionCall => 7,
            HostFunction::PromiseBatchActionTransfer => 2,
            HostFunction::PromiseBatchActionStake => 4,
            HostFunction::PromiseBatchActionAddKeyWithFullAccess => 4,
            HostFunction::PromiseBatchActionAddKeyWithFunctionCall => 9,
            HostFunction::PromiseBatchActionDeleteKey => 3,
            HostFunction::PromiseBatchActionDeleteAccount => 3,
            HostFunction::PromiseResultsCount => 0,
            HostFunction::PromiseResult => 2,
            HostFunction::PromiseReturn => 1,
            HostFunction::StorageWrite => 5,
            HostFunction::StorageRead => 3,
            HostFunction::StorageRemove => 3,
            HostFunction::StorageHasKey => 2,
            HostFunction::StorageIterPrefix => 2,
            HostFunction::StorageIterRange => 4,
            HostFunction::StorageIterNext => 3,
            HostFunction::Gas => 1,
            HostFunction::ValidatorStake => 3,
            HostFunction::ValidatorTotalStake => 1,
        }
    }

    /// The width shared by all parameters of the function.
    pub open spec fn param_kind(self) -> ValueKind {
        match self {
            HostFunction::Abort | HostFunction::Gas => ValueKind::U32,
            _ => ValueKind::U64,
        }
    }

    /// The widths of the parameters, in declared order.
    pub open spec fn spec_params(self) -> Seq<ValueKind> {
        Seq::new(self.arity(), |i: int| self.param_kind())
    }

    /// The width of the result, if the function returns one.
    pub open spec fn spec_result_kind(self) -> Option<ValueKind> {
        match self {
            HostFunction::RegisterLen
            | HostFunction::BlockIndex
            | HostFunction::BlockTimestamp
            | HostFunction::EpochHeight
            | HostFunction::StorageUsage
            | HostFunction::PrepaidGas
            | HostFunction::UsedGas
            | HostFunction::PromiseCreate
            | HostFunction::PromiseThen
            | HostFunction::PromiseAnd
            | HostFunction::PromiseBatchCreate
            | HostFunction::PromiseBatchThen
            | HostFunction::PromiseResultsCount
            | HostFunction::PromiseResult
            | HostFunction::StorageWrite
            | HostFunction::StorageRead
            | HostFunction::StorageRemove
            | HostFunction::StorageHasKey
            | HostFunction::StorageIterPrefix
            | HostFunction::StorageIterRange
            | HostFunction::StorageIterNext => Some(ValueKind::U64),
            _ => None,
        }
    }

    /// The position of the function in the catalog.
    pub open spec fn spec_position(self) -> nat {
        match self {
            HostFunction::ReadRegister => 0,
            HostFunction::RegisterLen => 1,
            HostFunction::WriteRegister => 2,
            HostFunction::CurrentAccountId => 3,
            HostFunction::SignerAccountId => 4,
            HostFunction::SignerAccountPk => 5,
            HostFunction::PredecessorAccountId => 6,
            HostFunction::Input => 7,
            HostFunction::BlockIndex => 8,
            HostFunction::BlockTimestamp => 9,
            HostFunction::EpochHeight => 10,
            HostFunction::StorageUsage => 11,
            HostFunction::AccountBalance => 12,
            HostFunction::AccountLockedBalance => 13,
            HostFunction::AttachedDeposit => 14,
            HostFunction::PrepaidGas => 15,
            HostFunction::UsedGas => 16,
            HostFunction::RandomSeed => 17,
            HostFunction::Sha256 => 18,
            HostFunction::Keccak256 => 19,
            HostFunction::Keccak512 => 20,
            HostFunction::ValueReturn => 21,
            HostFunction::Panic => 22,
            HostFunction::PanicUtf8 => 23,
            HostFunction::LogUtf8 => 24,
            HostFunction::LogUtf16 => 25,
            HostFunction::Abort => 26,
            HostFunction::PromiseCreate => 27,
            HostFunction::PromiseThen => 28,
            HostFunction::PromiseAnd => 29,
            HostFunction::PromiseBatchCreate => 30,
            HostFunction::PromiseBatchThen => 31,
            HostFunction::PromiseBatchActionCreateAccount => 32,
            HostFunction::PromiseBatchActionDeployContract => 33,
            HostFunction::PromiseBatchActionFunctionCall => 34,
            HostFunction::PromiseBatchActionTransfer => 35,
            HostFunction::PromiseBatchActionStake => 36,
            HostFunction::PromiseBatchActionAddKeyWithFullAccess => 37,
            HostFunction::PromiseBatchActionAddKeyWithFunctionCall => 38,
            HostFunction::PromiseBatchActionDeleteKey => 39,
            HostFunction::PromiseBatchActionDeleteAccount => 40,
            HostFunction::PromiseResultsCount => 41,
            HostFunction::PromiseResult => 42,
            HostFunction::PromiseReturn => 43,
            HostFunction::StorageWrite => 44,
            HostFunction::StorageRead => 45,
            HostFunction::StorageRemove => 46,
            HostFunction::StorageHasKey => 47,
            HostFunction::StorageIterPrefix => 48,
            HostFunction::StorageIterRange => 49,
            HostFunction::StorageIterNext => 50,
            HostFunction::Gas => 51,
            HostFunction::ValidatorStake => 52,
            HostFunction::ValidatorTotalStake => 53,
        }
    }

    /// Whether `args` has the arity and the widths the function declares.
    pub open spec fn accepts(self, args: Seq<HostValue>) -> bool {
        &&& args.len() == self.arity()
        &&& forall|i: int| 0 <= i < args.len() ==> (#[trigger] args[i]).kind() == self.param_kind()
    }

    /// The name under which the function is exported to the sandbox.
    pub fn name(self) -> (r: &'static str)
        ensures
            r@ == self.spec_name(),
    {
        match self {
            HostFunction::ReadRegister => "read_register",
            HostFunction::RegisterLen => "register_len",
            HostFunction::WriteRegister => "write_register",
            HostFunction::CurrentAccountId => "current_account_id",
            HostFunction::SignerAccountId => "signer_account_id",
            HostFunction::SignerAccountPk => "signer_account_pk",
            HostFunction::PredecessorAccountId => "predecessor_account_id",
            HostFunction::Input => "input",
            HostFunction::BlockIndex => "block_index",
            HostFunction::BlockTimestamp => "block_timestamp",
            HostFunction::EpochHeight => "epoch_height",
            HostFunction::StorageUsage => "storage_usage",
            HostFunction::AccountBalance => "account_balance",
            HostFunction::AccountLockedBalance => "account_locked_balance",
            HostFunction::AttachedDeposit => "attached_deposit",
            HostFunction::PrepaidGas => "prepaid_gas",
            HostFunction::UsedGas => "used_gas",
            HostFunction::RandomSeed => "random_seed",
            HostFunction::Sha256 => "sha256",
            HostFunction::Keccak256 => "keccak256",
            HostFunction::Keccak512 => "keccak512",
            HostFunction::ValueReturn => "value_return",
            HostFunction::Panic => "panic",
            HostFunction::PanicUtf8 => "panic_utf8",
            HostFunction::LogUtf8 => "log_utf8",
            HostFunction::LogUtf16 => "log_utf16",
            HostFunction::Abort => "abort",
            HostFunction::PromiseCreate => "promise_create",
            HostFunction::PromiseThen => "promise_then",
            HostFunction::PromiseAnd => "promise_and",
            HostFunction::PromiseBatchCreate => "promise_batch_create",
            HostFunction::PromiseBatchThen => "promise_batch_then",
            HostFunction::PromiseBatchActionCreateAccount => "promise_batch_action_create_account",
            HostFunction::PromiseBatchActionDeployContract => "promise_batch_action_deploy_contract",
            HostFunction::PromiseBatchActionFunctionCall => "promise_batch_action_function_call",
            HostFunction::PromiseBatchActionTransfer => "promise_batch_action_transfer",
            HostFunction::PromiseBatchActionStake => "promise_batch_action_stake",
            HostFunction::PromiseBatchActionAddKeyWithFullAccess => "promise_batch_action_add_key_with_full_access",
            HostFunction::PromiseBatchActionAddKeyWithFunctionCall => "promise_batch_action_add_key_with_function_call",
            HostFunction::PromiseBatchActionDeleteKey => "promise_batch_action_delete_key",
            HostFunction::PromiseBatchActionDeleteAccount => "promise_batch_action_delete_account",
            HostFunction::PromiseResultsCount => "promise_results_count",
            HostFunction::PromiseResult => "promise_result",
            HostFunction::PromiseReturn => "promise_return",
            HostFunction::StorageWrite => "storage_write",
            HostFunction::StorageRead => "storage_read",
            HostFunction::StorageRemove => "storage_remove",
            HostFunction::StorageHasKey => "storage_has_key",
            HostFunction::StorageIterPrefix => "storage_iter_prefix",
            HostFunction::StorageIterRange => "storage_iter_range",
            HostFunction::StorageIterNext => "storage_iter_next",
            HostFunction::Gas => "gas",
            HostFunction::ValidatorStake => "validator_stake",
            HostFunction::ValidatorTotalStake => "validator_total_stake",
        }
    }

    /// The number of parameters.
    pub fn param_count(self) -> (r: usize)
        ensures
            r == self.arity(),
            r <= 9,
    {
        match self {
            HostFunction::ReadRegister => 2,
            HostFunction::RegisterLen => 1,
            HostFunction::WriteRegister => 3,
            HostFunction::CurrentAccountId => 1,
            HostFunction::SignerAccountId => 1,
            HostFunction::SignerAccountPk => 1,
            HostFunction::PredecessorAccountId => 1,
            HostFunction::Input => 1,
            HostFunction::BlockIndex => 0,
            HostFunction::BlockTimestamp => 0,
            HostFunction::EpochHeight => 0,
            HostFunction::StorageUsage => 0,
            HostFunction::AccountBalance => 1,
            HostFunction::AccountLockedBalance => 1,
            HostFunction::AttachedDeposit => 1,
            HostFunction::PrepaidGas => 0,
            HostFunction::UsedGas => 0,
            HostFunction::RandomSeed => 1,
            HostFunction::Sha256 => 3,
            HostFunction::Keccak256 => 3,
            HostFunction::Keccak512 => 3,
            HostFunction::ValueReturn => 2,
            HostFunction::Panic => 0,
            HostFunction::PanicUtf8 => 2,
            HostFunction::LogUtf8 => 2,
            HostFunction::LogUtf16 => 2,
            HostFunction::Abort => 4,
            HostFunction::PromiseCreate => 8,
            HostFunction::PromiseThen => 9,
            HostFunction::PromiseAnd => 2,
            HostFunction::PromiseBatchCreate => 2,
            HostFunction::PromiseBatchThen => 3,
            HostFunction::PromiseBatchActionCreateAccount => 1,
            HostFunction::PromiseBatchActionDeployContract => 3,
            HostFunction::PromiseBatchActionFunctionCall => 7,
            HostFunction::PromiseBatchActionTransfer => 2,
            HostFunction::PromiseBatchActionStake => 4,
            HostFunction::PromiseBatchActionAddKeyWithFullAccess => 4,
            HostFunction::PromiseBatchActionAddKeyWithFunctionCall => 9,
            HostFunction::PromiseBatchActionDeleteKey => 3,
            HostFunction::PromiseBatchActionDeleteAccount => 3,
            HostFunction::PromiseResultsCount => 0,
            HostFunction::PromiseResult => 2,
            HostFunction::PromiseReturn => 1,
            HostFunction::StorageWrite => 5,
            HostFunction::StorageRead => 3,
            HostFunction::StorageRemove => 3,
            HostFunction::StorageHasKey => 2,
            HostFunction::StorageIterPrefix => 2,
            HostFunction::StorageIterRange => 4,
            HostFunction::StorageIterNext => 3,
            HostFunction::Gas => 1,
            HostFunction::ValidatorStake => 3,
            HostFunction::ValidatorTotalStake => 1,
        }
    }

    /// The width shared by all parameters of the function.
    pub fn parameter_kind(self) -> (r: ValueKind)
        ensures
            r == self.param_kind(),
    {
        match self {
            HostFunction::Abort | HostFunction::Gas => ValueKind::U32,
            _ => ValueKind::U64,
        }
    }

    /// The widths of the parameters, in declared order.
    pub fn params(self) -> (r: Vec<ValueKind>)
        ensures
            r@ == self.spec_params(),
    {
        let n: usize = self.param_count();
        let kind = self.parameter_kind();
        let mut out: Vec<ValueKind> = Vec::new();
        let mut i: usize = 0;
        while i < n
            invariant
                i <= n,
                n == self.arity(),
                kind == self.param_kind(),
                out@.len() == i,
                forall|j: int| 0 <= j < i ==> out@[j] == kind,
            decreases n - i,
        {
            out.push(kind);
            i += 1;
        }
        assert(out@ =~= self.spec_params());
        out
    }

    /// The width of the result, if the function returns one.
    pub fn result_kind(self) -> (r: Option<ValueKind>)
        ensures
            r == self.spec_result_kind(),
    {
        match self {
            HostFunction::RegisterLen
            | HostFunction::BlockIndex
            | HostFunction::BlockTimestamp
            | HostFunction::EpochHeight
            | HostFunction::StorageUsage
            | HostFunction::PrepaidGas
            | HostFunction::UsedGas
            | HostFunction::PromiseCreate
            | HostFunction::PromiseThen
            | HostFunction::PromiseAnd
            | HostFunction::PromiseBatchCreate
            | HostFunction::PromiseBatchThen
            | HostFunction::PromiseResultsCount
            | HostFunction::PromiseResult
            | HostFunction::StorageWrite
            | HostFunction::StorageRead
            | HostFunction::StorageRemove
            | HostFunction::StorageHasKey
            | HostFunction::StorageIterPrefix
            | HostFunction::StorageIterRange
            | HostFunction::StorageIterNext => Some(ValueKind::U64),
            _ => None,
        }
    }

    /// The position of the function in the catalog.
    pub fn position(self) -> (r: usize)
        ensures
            r == self.spec_position(),
            r < CATALOG_LEN,
            catalog_order()[r as int] == self,
    {
        match self {
            HostFunction::ReadRegister => 0,
            HostFunction::RegisterLen => 1,
            HostFunction::WriteRegister => 2,
            HostFunction::CurrentAccountId => 3,
            HostFunction::SignerAccountId => 4,
            HostFunction::SignerAccountPk => 5,
            HostFunction::PredecessorAccountId => 6,
            HostFunction::Input => 7,
            HostFunction::BlockIndex => 8,
            HostFunction::BlockTimestamp => 9,
            HostFunction::EpochHeight => 10,
            HostFunction::StorageUsage => 11,
            HostFunction::AccountBalance => 12,
            HostFunction::AccountLockedBalance => 13,
            HostFunction::AttachedDeposit => 14,
            HostFunction::PrepaidGas => 15,
            HostFunction::UsedGas => 16,
            HostFunction::RandomSeed => 17,
            HostFunction::Sha256 => 18,
            HostFunction::Keccak256 => 19,
            HostFunction::Keccak512 => 20,
            HostFunction::ValueReturn => 21,
            HostFunction::Panic => 22,
            HostFunction::PanicUtf8 => 23,
            HostFunction::LogUtf8 => 24,
            HostFunction::LogUtf16 => 25,
            HostFunction::Abort => 26,
            HostFunction::PromiseCreate => 27,
            HostFunction::PromiseThen => 28,
            HostFunction::PromiseAnd => 29,
            HostFunction::PromiseBatchCreate => 30,
            HostFunction::PromiseBatchThen => 31,
            HostFunction::PromiseBatchActionCreateAccount => 32,
            HostFunction::PromiseBatchActionDeployContract => 33,
            HostFunction::PromiseBatchActionFunctionCall => 34,
            HostFunction::PromiseBatchActionTransfer => 35,
            HostFunction::PromiseBatchActionStake => 36,
            HostFunction::PromiseBatchActionAddKeyWithFullAccess => 37,
            HostFunction::PromiseBatchActionAddKeyWithFunctionCall => 38,
            HostFunction::PromiseBatchActionDeleteKey => 39,
            HostFunction::PromiseBatchActionDeleteAccount => 40,
            HostFunction::PromiseResultsCount => 41,
            HostFunction::PromiseResult => 42,
            HostFunction::PromiseReturn => 43,
            HostFunction::StorageWrite => 44,
            HostFunction::StorageRead => 45,
            HostFunction::StorageRemove => 46,
            HostFunction::StorageHasKey => 47,
            HostFunction::StorageIterPrefix => 48,
            HostFunction::StorageIterRange => 49,
            HostFunction::StorageIterNext => 50,
            HostFunction::Gas => 51,
            HostFunction::ValidatorStake => 52,
            HostFunction::ValidatorTotalStake => 53,
        }
    }

    /// The function at `index` of the catalog, if there is one.
    pub fn at(index: usize) -> (r: Option<HostFunction>)
        ensures
            r.is_some() <==> index < CATALOG_LEN,
            r is Some ==> r->0 == catalog_order()[index as int] && r->0.spec_position() == index,
    {
        match index {
            0 => Some(HostFunction::ReadRegister),
            1 => Some(HostFunction::RegisterLen),
            2 => Some(HostFunction::WriteRegister),
            3 => Some(HostFunction::CurrentAccountId),
            4 => Some(HostFunction::SignerAccountId),
            5 => Some(HostFunction::SignerAccountPk),
            6 => Some(HostFunction::PredecessorAccountId),
            7 => Some(HostFunction::Input),
            8 => Some(HostFunction::BlockIndex),
            9 => Some(HostFunction::BlockTimestamp),
            10 => Some(HostFunction::EpochHeight),
            11 => Some(HostFunction::StorageUsage),
            12 => Some(HostFunction::AccountBalance),
            13 => Some(HostFunction::AccountLockedBalance),
            14 => Some(HostFunction::AttachedDeposit),
            15 => Some(HostFunction::PrepaidGas),
            16 => Some(HostFunction::UsedGas),
            17 => Some(HostFunction::RandomSeed),
            18 => Some(HostFunction::Sha256),
            19 => Some(HostFunction::Keccak256),
            20 => Some(HostFunction::Keccak512),
            21 => Some(HostFunction::ValueReturn),
            22 => Some(HostFunction::Panic),
            23 => Some(HostFunction::PanicUtf8),
            24 => Some(HostFunction::LogUtf8),
            25 => Some(HostFunction::LogUtf16),
            26 => Some(HostFunction::Abort),
            27 => Some(HostFunction::PromiseCreate),
            28 => Some(HostFunction::PromiseThen),
            29 => Some(HostFunction::PromiseAnd),
            30 => Some(HostFunction::PromiseBatchCreate),
            31 => Some(HostFunction::PromiseBatchThen),
            32 => Some(HostFunction::PromiseBatchActionCreateAccount),
            33 => Some(HostFunction::PromiseBatchActionDeployContract),
            34 => Some(HostFunction::PromiseBatchActionFunctionCall),
            35 => Some(HostFunction::PromiseBatchActionTransfer),
            36 => Some(HostFunction::PromiseBatchActionStake),
            37 => Some(HostFunction::PromiseBatchActionAddKeyWithFullAccess),
            38 => Some(HostFunction::PromiseBatchActionAddKeyWithFunctionCall),
            39 => Some(HostFunction::PromiseBatchActionDeleteKey),
            40 => Some(HostFunction::PromiseBatchActionDeleteAccount),
            41 => Some(HostFunction::PromiseResultsCount),
            42 => Some(HostFunction::PromiseResult),
            43 => Some(HostFunction::PromiseReturn),
            44 => Some(HostFunction::StorageWrite),
            45 => Some(HostFunction::StorageRead),
            46 => Some(HostFunction::StorageRemove),
            47 => Some(HostFunction::StorageHasKey),
            48 => Some(HostFunction::StorageIterPrefix),
            49 => Some(HostFunction::StorageIterRange),
            50 => Some(HostFunction::StorageIterNext),
            51 => Some(HostFunction::Gas),
            52 => Some(HostFunction::ValidatorStake),
            53 => Some(HostFunction::ValidatorTotalStake),
            _ => None,
        }
    }

    /// Checks that `args` has the arity and the widths the function declares.
    pub fn check_args(self, args: &[HostValue]) -> (r: bool)
        ensures
            r == self.accepts(args@),
    {
        if args.len() != self.param_count() {
            return false;
        }
        let kind = self.parameter_kind();
        let mut i: usize = 0;
        while i < args.len()
            invariant
                i <= args@.len(),
                args@.len() == self.arity(),
                kind == self.param_kind(),
                forall|j: int| 0 <= j < i ==> (#[trigger] args@[j]).kind() == kind,
            decreases args@.len() - i,
        {
            if args[i].value_kind() != kind {
                return false;
            }
            i += 1;
        }
        true
    }
}

/// The catalog in its fixed order.
pub open spec fn catalog_order() -> Seq<HostFunction> {
    seq![
        HostFunction::ReadRegister,
        HostFunction::RegisterLen,
        HostFunction::WriteRegister,
        HostFunction::CurrentAccountId,
        HostFunction::SignerAccountId,
        HostFunction::SignerAccountPk,
        HostFunction::PredecessorAccountId,
        HostFunction::Input,
        HostFunction::BlockIndex,
        HostFunction::BlockTimestamp,
        HostFunction::EpochHeight,
        HostFunction::StorageUsage,
        HostFunction::AccountBalance,
        HostFunction::AccountLockedBalance,
        HostFunction::AttachedDeposit,
        HostFunction::PrepaidGas,
        HostFunction::UsedGas,
        HostFunction::RandomSeed,
        HostFunction::Sha256,
        HostFunction::Keccak256,
        HostFunction::Keccak512,
        HostFunction::ValueReturn,
        HostFunction::Panic,
        HostFunction::PanicUtf8,
        HostFunction::LogUtf8,
        HostFunction::LogUtf16,
        HostFunction::Abort,
        HostFunction::PromiseCreate,
        HostFunction::PromiseThen,
        HostFunction::PromiseAnd,
        HostFunction::PromiseBatchCreate,
        HostFunction::PromiseBatchThen,
        HostFunction::PromiseBatchActionCreateAccount,
        HostFunction::PromiseBatchActionDeployContract,
        HostFunction::PromiseBatchActionFunctionCall,
        HostFunction::PromiseBatchActionTransfer,
        HostFunction::PromiseBatchActionStake,
        HostFunction::PromiseBatchActionAddKeyWithFullAccess,
        HostFunction::PromiseBatchActionAddKeyWithFunctionCall,
        HostFunction::PromiseBatchActionDeleteKey,
        HostFunction::PromiseBatchActionDeleteAccount,
        HostFunction::PromiseResultsCount,
        HostFunction::PromiseResult,
        HostFunction::PromiseReturn,
        HostFunction::StorageWrite,
        HostFunction::StorageRead,
        HostFunction::StorageRemove,
        HostFunction::StorageHasKey,
        HostFunction::StorageIterPrefix,
        HostFunction::StorageIterRange,
        HostFunction::StorageIterNext,
        HostFunction::Gas,
        HostFunction::ValidatorStake,
        HostFunction::ValidatorTotalStake,
    ]
}

/// The catalog in its fixed order.
pub fn catalog() -> (r: Vec<HostFunction>)
    ensures
        r@ == catalog_order(),
        r@.len() == CATALOG_LEN,
{
    let mut out: Vec<HostFunction> = Vec::new();
    let mut i: usize = 0;
    while i < CATALOG_LEN
        invariant
            i <= CATALOG_LEN,
            out@.len() == i,
            forall|j: int| 0 <= j < i ==> out@[j] == catalog_order()[j],
        decreases CATALOG_LEN - i,
    {
        match HostFunction::at(i) {
            Some(f) => out.push(f),
            None => {},
        }
        i += 1;
    }
    assert(out@ =~= catalog_order());
    out
}

/// Every function stands in the catalog exactly once, at its position.
pub proof fn lemma_catalog_complete(f: HostFunction, i: int)
    ensures
        catalog_order().len() == CATALOG_LEN,
        f.spec_position() < CATALOG_LEN,
        catalog_order()[f.spec_position() as int] == f,
        0 <= i < CATALOG_LEN && catalog_order()[i] == f ==> i == f.spec_position(),
{
}

/// A function declares at most nine parameters, all of one width, and a
/// result, where it has one, of 64 bits.
pub proof fn lemma_signature_shape(f: HostFunction)
    ensures
        f.spec_params().len() == f.arity(),
        f.arity() <= 9,
        forall|i: int| 0 <= i < f.arity() ==> f.spec_params()[i] == f.param_kind(),
        f.spec_result_kind() is Some ==> f.spec_result_kind() == Some(ValueKind::U64),
{
}

} // verus!
