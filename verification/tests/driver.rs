use near_runtime_fees::RuntimeFeesConfig;
use near_vm_logic::mocks::mock_external::MockedExternal;
use near_vm_logic::types::PromiseResult;
use near_vm_logic::{
    HostError, MemoryLike, ReturnData, VMConfig, VMContext, VMLogic, VMLogicError, VMOutcome,
};
use near_vm_runner::driver::{
    abandon, called, check_entry_signature, conclude, decode_method_name, execute, prepare,
    resolved, Execution, Prepared,
};
use near_vm_runner::errors::{
    classify_host_failure, classify_stop, CallError, ExecutionError, HostFailure, HostTrap,
    MethodResolveError, TrapKind,
};
use near_vm_runner::memory::WasmtimeMemory;
use wasmtime::{Config, Engine, Store, Trap};

struct EngineMemory(WasmtimeMemory);

impl MemoryLike for EngineMemory {
    fn fits_memory(&self, offset: u64, len: u64) -> bool {
        self.0.fits_memory(offset, len)
    }

    fn read_memory(&self, offset: u64, buffer: &mut [u8]) {
        self.0.read_memory(offset, buffer).unwrap()
    }

    fn read_memory_u8(&self, offset: u64) -> u8 {
        self.0.read_memory_u8(offset).unwrap()
    }

    fn write_memory(&mut self, offset: u64, buffer: &[u8]) {
        self.0.write_memory(offset, buffer).unwrap()
    }
}

fn small_store() -> Store {
    let mut config = Config::new();
    config.static_memory_maximum_size(0);
    config.dynamic_memory_guard_size(0);
    Store::new(&Engine::new(&config).unwrap())
}

fn context() -> VMContext {
    VMContext {
        current_account_id: "alice.near".to_string(),
        signer_account_id: "bob.near".to_string(),
        signer_account_pk: vec![0, 1, 2],
        predecessor_account_id: "carol.near".to_string(),
        input: vec![],
        block_index: 17,
        block_timestamp: 42,
        epoch_height: 3,
        account_balance: 1_000_000,
        account_locked_balance: 0,
        storage_usage: 100,
        attached_deposit: 0,
        prepaid_gas: 10u64.pow(14),
        random_seed: vec![9, 9, 9],
        is_view: false,
        output_data_receivers: vec![],
    }
}

fn run_with(
    code: &[u8],
    method_name: &[u8],
    initial_pages: u32,
    max_pages: u32,
) -> (Option<VMOutcome>, Option<CallError>) {
    let store = small_store();
    let Prepared { memory, module, linker } = match prepare(&store, code, initial_pages, max_pages)
    {
        Ok(prepared) => prepared,
        Err(error) => return (None, Some(error)),
    };
    let mut ext = MockedExternal::new();
    let config = VMConfig::free();
    let fees = RuntimeFeesConfig::free();
    let results: Vec<PromiseResult> = vec![];
    let mut memory = EngineMemory(memory);
    let logic = VMLogic::new(&mut ext, context(), &config, &fees, &results, &mut memory);
    let execution = execute(&linker, &module, method_name);
    conclude(execution, None, logic.outcome())
}

fn run(wat: &str, method_name: &[u8]) -> (Option<VMOutcome>, Option<CallError>) {
    run_with(wat.as_bytes(), method_name, 1, 2)
}

fn empty_outcome() -> VMOutcome {
    VMOutcome {
        balance: 1_000_000,
        storage_usage: 100,
        return_data: ReturnData::None,
        burnt_gas: 0,
        used_gas: 0,
        logs: vec![],
    }
}

// The engine lays an instance out with 8-byte entries behind an array of
// 4-byte type ids; an even number of types keeps those entries aligned.
const EMPTY_MAIN: &str = r#"(module (type (func (param i64))) (import "host" "memory" (memory 1 2))
    (func (export "main")))"#;

#[test]
fn entry_point_without_host_calls_gives_the_empty_outcome() {
    assert_eq!(run(EMPTY_MAIN, b"main"), (Some(empty_outcome()), None));
}

#[test]
fn missing_entry_point_is_not_found_without_outcome() {
    assert_eq!(
        run(EMPTY_MAIN, b"no_such_method"),
        (None, Some(CallError::MethodResolveError(MethodResolveError::NotFound)))
    );
    assert_eq!(
        run(EMPTY_MAIN, b""),
        (None, Some(CallError::MethodResolveError(MethodResolveError::NotFound)))
    );
    let exports_memory_only =
        r#"(module (import "host" "memory" (memory 1 2)) (export "main" (memory 0)))"#;
    assert_eq!(
        run(exports_memory_only, b"main"),
        (None, Some(CallError::MethodResolveError(MethodResolveError::NotFound)))
    );
}

#[test]
fn entry_point_name_must_be_valid_text() {
    assert_eq!(
        run(EMPTY_MAIN, &[0xff, 0xfe]),
        (None, Some(CallError::MethodResolveError(MethodResolveError::InvalidEncoding)))
    );
    assert_eq!(
        run(EMPTY_MAIN, &[b'm', b'a', b'i', b'n', 0x80]),
        (None, Some(CallError::MethodResolveError(MethodResolveError::InvalidEncoding)))
    );
    assert_eq!(decode_method_name(b"main"), Ok("main"));
    assert_eq!(decode_method_name("h\u{e9}llo".as_bytes()), Ok("h\u{e9}llo"));
    assert_eq!(decode_method_name(b""), Ok(""));
    assert_eq!(decode_method_name(&[0xc3]), Err(MethodResolveError::InvalidEncoding));
    assert_eq!(decode_method_name(&[0xed, 0xa0, 0x80]), Err(MethodResolveError::InvalidEncoding));
}

#[test]
fn entry_point_must_take_and_return_nothing() {
    let takes = r#"(module (type (func)) (import "host" "memory" (memory 1 2))
        (func (export "main") (param i32)))"#;
    let returns = r#"(module (type (func)) (import "host" "memory" (memory 1 2))
        (func (export "main") (result i64) i64.const 1))"#;
    let invalid = (None, Some(CallError::MethodResolveError(MethodResolveError::InvalidSignature)));
    assert_eq!(run(takes, b"main"), invalid);
    assert_eq!(run(returns, b"main"), invalid);
    assert_eq!(check_entry_signature(0, 0), Ok(()));
    assert_eq!(check_entry_signature(1, 0), Err(MethodResolveError::InvalidSignature));
    assert_eq!(check_entry_signature(0, 1), Err(MethodResolveError::InvalidSignature));
}

#[test]
fn sandbox_fault_is_reported_with_its_category_and_the_outcome() {
    let wat = r#"(module (type (func (param i64))) (import "host" "memory" (memory 1 2))
        (func (export "main") unreachable)
        (func (export "divide") (drop (i32.div_u (i32.const 1) (i32.const 0))))
        (func (export "load") (drop (i32.load (i32.const 131072)))))"#;
    let kind_of = |name: &[u8]| match run(wat, name) {
        (Some(outcome), Some(CallError::ExecutionError(ExecutionError::SandboxFault { kind, message }))) => {
            assert_eq!(outcome, empty_outcome());
            assert!(!message.is_empty());
            kind
        }
        other => panic!("expected a sandbox fault, got {:?}", other),
    };
    assert_eq!(kind_of(b"main"), TrapKind::UnreachableCodeReached);
    assert_eq!(kind_of(b"divide"), TrapKind::IntegerDivisionByZero);
    assert_eq!(kind_of(b"load"), TrapKind::MemoryOutOfBounds);
}

#[test]
fn unsatisfied_import_is_a_link_error_without_outcome() {
    let unknown = r#"(module (import "host" "memory" (memory 1 2))
        (import "host" "no_such_function" (func))
        (func (export "main")))"#;
    let mistyped = r#"(module (import "host" "memory" (memory 1 2))
        (import "host" "register_len" (func (param i32) (result i64)))
        (func (export "main")))"#;
    for wat in [unknown, mistyped] {
        match run(wat, b"main") {
            (None, Some(CallError::LinkError { message })) => assert!(!message.is_empty()),
            other => panic!("expected a link error, got {:?}", other),
        }
    }
}

#[test]
fn malformed_bytecode_is_a_compile_error_without_outcome() {
    for code in [&[0u8, 1, 2, 3][..], &b"(module (func (export"[..], &[0u8, 0x61, 0x73, 0x6d][..]] {
        match run_with(code, b"main", 1, 2) {
            (None, Some(CallError::CompileError { message })) => assert!(!message.is_empty()),
            other => panic!("expected a compile error, got {:?}", other),
        }
    }
}

#[test]
fn invalid_limits_are_rejected_before_compilation() {
    assert_eq!(
        run_with(&[0, 1, 2, 3], b"main", 3, 2),
        (None, Some(CallError::InvalidMemoryLimits { initial_pages: 3, max_pages: 2 }))
    );
    assert_eq!(
        run_with(EMPTY_MAIN.as_bytes(), b"main", 1, 65537),
        (None, Some(CallError::InvalidMemoryLimits { initial_pages: 1, max_pages: 65537 }))
    );
}

#[test]
fn trap_during_instantiation_comes_with_the_outcome() {
    let wat = r#"(module (type (func (param i64))) (import "host" "memory" (memory 1 2))
        (func $start unreachable)
        (start $start)
        (func (export "main")))"#;
    match run(wat, b"main") {
        (Some(outcome), Some(CallError::ExecutionError(ExecutionError::SandboxFault { kind, .. }))) => {
            assert_eq!(kind, TrapKind::UnreachableCodeReached);
            assert_eq!(outcome, empty_outcome());
        }
        other => panic!("expected a sandbox fault with an outcome, got {:?}", other),
    }
}

#[test]
fn grown_memory_is_seen_at_its_current_size() {
    let wat = r#"(module (type (func (param i64))) (import "host" "memory" (memory 1 2))
        (func (export "main")
            (drop (memory.grow (i32.const 1)))
            (i32.store16 (i32.const 65536) (i32.const 0x6b6f))))"#;
    let store = small_store();
    let Prepared { memory, module, linker } = prepare(&store, wat.as_bytes(), 1, 2).unwrap();
    let memory = EngineMemory(memory);
    assert!(memory.fits_memory(65535, 1));
    assert!(!memory.fits_memory(65536, 2));
    assert_eq!(execute(&linker, &module, b"main"), Execution::Returned);
    assert!(memory.fits_memory(65536, 2));
    assert!(memory.fits_memory(65536, 65536));
    assert!(!memory.fits_memory(65536, 65537));
    let mut text = [0u8; 2];
    memory.read_memory(65536, &mut text);
    assert_eq!(&text, b"ok");
    assert_eq!(memory.read_memory_u8(65537), b'k');
}

#[test]
fn sandbox_sees_what_the_host_wrote() {
    let wat = r#"(module (type (func (param i64))) (import "host" "memory" (memory 1 2))
        (func (export "main")
            (if (i32.ne (i32.load8_u (i32.const 12)) (i32.const 7)) (then unreachable))))"#;
    let store = small_store();
    let Prepared { memory, module, linker } = prepare(&store, wat.as_bytes(), 1, 2).unwrap();
    let mut memory = EngineMemory(memory);
    assert!(matches!(execute(&linker, &module, b"main"), Execution::Trapped { .. }));
    memory.write_memory(11, &[6, 7, 8]);
    assert_eq!(execute(&linker, &module, b"main"), Execution::Returned);
}

#[test]
fn conclusion_pairs_every_ending_with_outcome_and_error() {
    let text = |s: &str| s.to_string();
    let failure = || HostFailure {
        error: VMLogicError::HostError(HostError::GasExceeded),
        abort_message: None,
    };
    let gas_exceeded =
        || CallError::ExecutionError(ExecutionError::HostFailure(VMLogicError::HostError(HostError::GasExceeded)));
    assert_eq!(conclude(Execution::Returned, None, 7u8), (Some(7), None));
    assert_eq!(conclude(Execution::Returned, Some(failure()), 7u8), (Some(7), Some(gas_exceeded())));
    assert_eq!(
        conclude(Execution::LinkFailed { message: text("no import") }, None, 7u8),
        (None, Some(CallError::LinkError { message: text("no import") }))
    );
    assert_eq!(
        conclude(Execution::ResolveFailed(MethodResolveError::NotFound), Some(failure()), 7u8),
        (None, Some(CallError::MethodResolveError(MethodResolveError::NotFound)))
    );
    assert_eq!(
        conclude(
            Execution::Trapped { kind: Some(TrapKind::StackOverflow), message: text("deep") },
            None,
            7u8
        ),
        (
            Some(7),
            Some(CallError::ExecutionError(ExecutionError::SandboxFault {
                kind: TrapKind::StackOverflow,
                message: text("deep")
            }))
        )
    );
    assert_eq!(
        conclude(Execution::Trapped { kind: None, message: text("odd") }, None, 7u8),
        (Some(7), Some(CallError::ExecutionError(ExecutionError::Unclassified { message: text("odd") })))
    );
    assert_eq!(
        conclude(Execution::Trapped { kind: None, message: text("odd") }, Some(failure()), 7u8),
        (Some(7), Some(gas_exceeded()))
    );
    assert_eq!(
        conclude(
            Execution::InstantiationTrapped { kind: Some(TrapKind::Interrupt), message: text("stop") },
            None,
            7u8
        ),
        (
            Some(7),
            Some(CallError::ExecutionError(ExecutionError::SandboxFault {
                kind: TrapKind::Interrupt,
                message: text("stop")
            }))
        )
    );
    assert_eq!(
        conclude(Execution::Faulted { message: text("engine") }, None, 7u8),
        (Some(7), Some(CallError::ExecutionError(ExecutionError::Unclassified { message: text("engine") })))
    );
    assert_eq!(
        conclude(Execution::Faulted { message: text("engine") }, Some(failure()), 7u8),
        (Some(7), Some(gas_exceeded()))
    );
}

#[test]
fn failures_are_classified() {
    let panic = HostFailure {
        error: VMLogicError::HostError(HostError::GuestPanic { panic_msg: "boom".to_string() }),
        abort_message: Some("boom".to_string()),
    };
    assert_eq!(classify_host_failure(panic), ExecutionError::Abort { message: "boom".to_string() });
    let external = HostFailure { error: VMLogicError::ExternalError(vec![1, 2]), abort_message: None };
    assert_eq!(
        classify_host_failure(external),
        ExecutionError::HostFailure(VMLogicError::ExternalError(vec![1, 2]))
    );
    assert_eq!(
        classify_stop(None, Some(TrapKind::BadSignature), "x".to_string()),
        ExecutionError::SandboxFault { kind: TrapKind::BadSignature, message: "x".to_string() }
    );
    assert_eq!(
        classify_stop(None, None, "x".to_string()),
        ExecutionError::Unclassified { message: "x".to_string() }
    );
    assert!(CallError::LinkError { message: String::new() }.is_before_host_effects());
    assert!(CallError::MethodResolveError(MethodResolveError::NotFound).is_before_host_effects());
    assert!(!CallError::ExecutionError(ExecutionError::Unclassified { message: String::new() })
        .is_before_host_effects());
}

#[test]
fn missing_or_mistyped_export_is_refused() {
    assert_eq!(resolved(None), Err(MethodResolveError::NotFound));
    assert_eq!(resolved(Some((0, 0))), Ok(()));
    assert_eq!(resolved(Some((1, 0))), Err(MethodResolveError::InvalidSignature));
    assert_eq!(resolved(Some((0, 1))), Err(MethodResolveError::InvalidSignature));
    assert_eq!(resolved(Some((2, 3))), Err(MethodResolveError::InvalidSignature));
}

#[test]
fn call_result_is_reported_with_the_engine_text() {
    assert_eq!(called(Ok(())), Execution::Returned);
    assert_eq!(
        called(Err(anyhow::Error::msg("engine broke"))),
        Execution::Faulted { message: "engine broke".to_string() }
    );
    assert_eq!(
        called(Err(anyhow::Error::msg("other text"))),
        Execution::Faulted { message: "other text".to_string() }
    );
    assert_eq!(
        called(Err(anyhow::Error::new(Trap::new("boom")))),
        Execution::Trapped { kind: None, message: "boom".to_string() }
    );
    let (outcome, error) =
        conclude(called(Err(anyhow::Error::new(Trap::new("boom")))), None, 1u8);
    assert_eq!(outcome, Some(1));
    assert_eq!(
        error,
        Some(CallError::ExecutionError(ExecutionError::Unclassified {
            message: "boom".to_string()
        }))
    );
}

#[test]
fn failure_before_instantiation_comes_without_outcome() {
    let error = || CallError::CompileError { message: "bad magic".to_string() };
    assert_eq!(abandon::<u8>(error()), (None, Some(error())));
    let limits = || CallError::InvalidMemoryLimits { initial_pages: 2, max_pages: 1 };
    assert_eq!(abandon::<VMOutcome>(limits()), (None, Some(limits())));
}

#[test]
fn link_and_trap_texts_reach_the_error() {
    let unknown = r#"(module (import "host" "memory" (memory 1 2))
        (import "host" "no_such_function" (func))
        (func (export "main")))"#;
    match run(unknown, b"main") {
        (None, Some(CallError::LinkError { message })) => {
            assert!(message.contains("no_such_function"), "{}", message)
        }
        other => panic!("expected a link error, got {:?}", other),
    }
    let wat = r#"(module (type (func (param i64))) (import "host" "memory" (memory 1 2))
        (func (export "main") unreachable))"#;
    match run(wat, b"main") {
        (Some(_), Some(CallError::ExecutionError(ExecutionError::SandboxFault { message, .. }))) => {
            assert!(message.contains("unreachable"), "{}", message)
        }
        other => panic!("expected a sandbox fault, got {:?}", other),
    }
}

#[test]
fn engine_categories_fall_onto_the_host_categories() {
    let table = [
        (TrapKind::StackOverflow, HostTrap::StackOverflow),
        (TrapKind::MemoryOutOfBounds, HostTrap::MemoryOutOfBounds),
        (TrapKind::HeapMisaligned, HostTrap::MisalignedAtomicAccess),
        (TrapKind::TableOutOfBounds, HostTrap::CallIndirectOOB),
        (TrapKind::IndirectCallToNull, HostTrap::CallIndirectOOB),
        (TrapKind::BadSignature, HostTrap::IncorrectCallIndirectSignature),
        (TrapKind::IntegerOverflow, HostTrap::IllegalArithmetic),
        (TrapKind::IntegerDivisionByZero, HostTrap::IllegalArithmetic),
        (TrapKind::BadConversionToInteger, HostTrap::IllegalArithmetic),
        (TrapKind::UnreachableCodeReached, HostTrap::Unreachable),
        (TrapKind::Interrupt, HostTrap::GenericTrap),
    ];
    for (kind, expected) in table {
        assert_eq!(kind.host_trap(), expected);
    }
}

#[test]
fn prepared_table_exports_the_memory() {
    let store = small_store();
    let Prepared { mut memory, linker, .. } =
        prepare(&store, EMPTY_MAIN.as_bytes(), 1, 2).ok().unwrap();
    let exported = linker.get_one_by_name("host", Some("memory")).unwrap().into_memory().unwrap();
    assert_eq!(exported.ty().limits().min(), 1);
    assert_eq!(exported.ty().limits().max(), Some(2));
    assert_eq!(memory.write_memory(3, &[9]), Ok(()));
    let mut byte = [0u8];
    assert!(exported.read(3, &mut byte).is_ok());
    assert_eq!(byte, [9]);
    assert!(Store::same(linker.store(), &store));
    assert!(linker.get_one_by_name("host", Some("other")).is_err());
}
