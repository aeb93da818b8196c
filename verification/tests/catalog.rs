use near_vm_runner::catalog::{
    catalog, HostFunction, CATALOG_LEN, IMPORT_NAMESPACE, MEMORY_EXPORT,
};
use near_vm_runner::marshal::{HostValue, ValueKind};

#[test]
fn catalog_lists_every_function_in_order() {
    let names: Vec<&str> = catalog().iter().map(|f| f.name()).collect();
    let expected = vec![
        "read_register",
        "register_len",
        "write_register",
        "current_account_id",
        "signer_account_id",
        "signer_account_pk",
        "predecessor_account_id",
        "input",
        "block_index",
        "block_timestamp",
        "epoch_height",
        "storage_usage",
        "account_balance",
        "account_locked_balance",
        "attached_deposit",
        "prepaid_gas",
        "used_gas",
        "random_seed",
        "sha256",
        "keccak256",
        "keccak512",
        "value_return",
        "panic",
        "panic_utf8",
        "log_utf8",
        "log_utf16",
        "abort",
        "promise_create",
        "promise_then",
        "promise_and",
        "promise_batch_create",
        "promise_batch_then",
        "promise_batch_action_create_account",
        "promise_batch_action_deploy_contract",
        "promise_batch_action_function_call",
        "promise_batch_action_transfer",
        "promise_batch_action_stake",
        "promise_batch_action_add_key_with_full_access",
        "promise_batch_action_add_key_with_function_call",
        "promise_batch_action_delete_key",
        "promise_batch_action_delete_account",
        "promise_results_count",
        "promise_result",
        "promise_return",
        "storage_write",
        "storage_read",
        "storage_remove",
        "storage_has_key",
        "storage_iter_prefix",
        "storage_iter_range",
        "storage_iter_next",
        "gas",
        "validator_stake",
        "validator_total_stake",
    ];
    assert_eq!(names, expected);
    assert_eq!(names.len(), CATALOG_LEN);
    assert_eq!(CATALOG_LEN, 54);
}

#[test]
fn names_are_distinct() {
    let mut names: Vec<&str> = catalog().iter().map(|f| f.name()).collect();
    names.sort();
    names.dedup();
    assert_eq!(names.len(), CATALOG_LEN);
    assert!(!names.contains(&MEMORY_EXPORT));
}

#[test]
fn export_names_are_fixed() {
    assert_eq!(IMPORT_NAMESPACE, "host");
    assert_eq!(MEMORY_EXPORT, "memory");
}

#[test]
fn position_and_lookup_by_index_agree() {
    let all = catalog();
    for (i, f) in all.iter().enumerate() {
        assert_eq!(f.position(), i);
        assert_eq!(HostFunction::at(i), Some(*f));
    }
    assert_eq!(HostFunction::at(0), Some(HostFunction::ReadRegister));
    assert_eq!(HostFunction::at(53), Some(HostFunction::ValidatorTotalStake));
    assert_eq!(HostFunction::at(54), None);
    assert_eq!(HostFunction::at(usize::MAX), None);
}

#[test]
fn signatures_match_the_declared_ones() {
    let u64s = |n: usize| vec![ValueKind::U64; n];
    assert_eq!(HostFunction::ReadRegister.params(), u64s(2));
    assert_eq!(HostFunction::ReadRegister.result_kind(), None);
    assert_eq!(HostFunction::RegisterLen.params(), u64s(1));
    assert_eq!(HostFunction::RegisterLen.result_kind(), Some(ValueKind::U64));
    assert_eq!(HostFunction::BlockIndex.params(), u64s(0));
    assert_eq!(HostFunction::BlockIndex.result_kind(), Some(ValueKind::U64));
    assert_eq!(HostFunction::Panic.params(), u64s(0));
    assert_eq!(HostFunction::Panic.result_kind(), None);
    assert_eq!(HostFunction::Abort.params(), vec![ValueKind::U32; 4]);
    assert_eq!(HostFunction::Abort.result_kind(), None);
    assert_eq!(HostFunction::Gas.params(), vec![ValueKind::U32]);
    assert_eq!(HostFunction::Gas.result_kind(), None);
    assert_eq!(HostFunction::PromiseCreate.params(), u64s(8));
    assert_eq!(HostFunction::PromiseCreate.result_kind(), Some(ValueKind::U64));
    assert_eq!(HostFunction::PromiseThen.params(), u64s(9));
    assert_eq!(HostFunction::PromiseBatchActionAddKeyWithFunctionCall.params(), u64s(9));
    assert_eq!(HostFunction::PromiseBatchActionAddKeyWithFunctionCall.result_kind(), None);
    assert_eq!(HostFunction::PromiseBatchActionFunctionCall.params(), u64s(7));
    assert_eq!(HostFunction::StorageWrite.params(), u64s(5));
    assert_eq!(HostFunction::StorageWrite.result_kind(), Some(ValueKind::U64));
    assert_eq!(HostFunction::StorageIterRange.params(), u64s(4));
    assert_eq!(HostFunction::ValidatorStake.params(), u64s(3));
    assert_eq!(HostFunction::ValidatorStake.result_kind(), None);
}

#[test]
fn arities_and_results_over_the_whole_catalog() {
    let arities: Vec<usize> = catalog().iter().map(|f| f.param_count()).collect();
    assert_eq!(
        arities,
        vec![
            2, 1, 3, 1, 1, 1, 1, 1, 0, 0, 0, 0, 1, 1, 1, 0, 0, 1, 3, 3, 3, 2, 0, 2, 2, 2, 4, 8, 9,
            2, 2, 3, 1, 3, 7, 2, 4, 4, 9, 3, 3, 0, 2, 1, 5, 3, 3, 2, 2, 4, 3, 1, 3, 1
        ]
    );
    let returning: Vec<&str> =
        catalog().iter().filter(|f| f.result_kind().is_some()).map(|f| f.name()).collect();
    assert_eq!(
        returning,
        vec![
            "register_len",
            "block_index",
            "block_timestamp",
            "epoch_height",
            "storage_usage",
            "prepaid_gas",
            "used_gas",
            "promise_create",
            "promise_then",
            "promise_and",
            "promise_batch_create",
            "promise_batch_then",
            "promise_results_count",
            "promise_result",
            "storage_write",
            "storage_read",
            "storage_remove",
            "storage_has_key",
            "storage_iter_prefix",
            "storage_iter_range",
            "storage_iter_next",
        ]
    );
    for f in catalog() {
        assert_eq!(f.params().len(), f.param_count());
        let narrow = f == HostFunction::Abort || f == HostFunction::Gas;
        let kind = if narrow { ValueKind::U32 } else { ValueKind::U64 };
        assert_eq!(f.parameter_kind(), kind);
        assert!(f.params().iter().all(|k| *k == kind));
    }
}

#[test]
fn arguments_are_checked_against_the_signature() {
    let f = HostFunction::ReadRegister;
    assert!(f.check_args(&[HostValue::U64(0), HostValue::U64(1)]));
    assert!(!f.check_args(&[HostValue::U64(0)]));
    assert!(!f.check_args(&[HostValue::U64(0), HostValue::U64(1), HostValue::U64(2)]));
    assert!(!f.check_args(&[HostValue::U64(0), HostValue::U32(1)]));
    assert!(!f.check_args(&[HostValue::U32(0), HostValue::U64(1)]));
    assert!(HostFunction::Panic.check_args(&[]));
    assert!(!HostFunction::Panic.check_args(&[HostValue::U64(0)]));
    assert!(HostFunction::Gas.check_args(&[HostValue::U32(1)]));
    assert!(!HostFunction::Gas.check_args(&[HostValue::U64(1)]));
    assert!(HostFunction::Abort.check_args(&[HostValue::U32(1); 4]));
    assert!(!HostFunction::Abort.check_args(&[HostValue::U32(1); 3]));
}
