use near_vm_runner::bridge::{BridgeError, ContextSlot, NearEngine};
use near_vm_runner::driver::{Execution, Termination};
use near_vm_runner::errors::MethodResolveError;

#[test]
fn vacant_slot_has_no_context() {
    let slot: ContextSlot<u32> = ContextSlot::vacant();
    assert!(!slot.is_active());
    assert_eq!(slot.current(), Err(BridgeError::NoActiveContext));
}

#[test]
fn checked_out_context_is_the_current_one() {
    let mut slot = ContextSlot::vacant();
    assert_eq!(slot.check_out(11u32), Ok(()));
    assert!(slot.is_active());
    assert_eq!(slot.current(), Ok(&11));
    assert_eq!(slot.current(), Ok(&11));
}

#[test]
fn second_registration_is_refused() {
    let mut slot = ContextSlot::vacant();
    assert_eq!(slot.check_out("first"), Ok(()));
    assert_eq!(slot.check_out("second"), Err((BridgeError::AlreadyActive, "second")));
    assert_eq!(slot.current(), Ok(&"first"));
    assert_eq!(slot.check_out("third"), Err((BridgeError::AlreadyActive, "third")));
    assert_eq!(slot.check_in(), Ok("first"));
}

#[test]
fn check_in_vacates_the_slot() {
    let mut slot = ContextSlot::vacant();
    assert_eq!(slot.check_in(), Err(BridgeError::NoActiveContext));
    assert_eq!(slot.check_out(1u8), Ok(()));
    assert_eq!(slot.check_in(), Ok(1));
    assert!(!slot.is_active());
    assert_eq!(slot.check_in(), Err(BridgeError::NoActiveContext));
    assert_eq!(slot.check_out(2u8), Ok(()));
    assert_eq!(slot.current(), Ok(&2));
}

#[test]
fn fresh_engine_has_no_active_context() {
    let mut engine: NearEngine<u64> = NearEngine::default();
    assert!(!engine.ctx.is_active());
    assert_eq!(engine.ctx.check_out(5), Ok(()));
    let other: NearEngine<u64> = NearEngine::default();
    assert!(!other.ctx.is_active());
    assert_eq!(engine.ctx.current(), Ok(&5));
}

#[test]
fn endings_are_told_apart() {
    let text = || "x".to_string();
    assert_eq!(Execution::Returned.ending(false), Termination::Completed);
    assert_eq!(Execution::Returned.ending(true), Termination::Trapped);
    assert_eq!(Execution::Trapped { kind: None, message: text() }.ending(false), Termination::Trapped);
    assert_eq!(Execution::Faulted { message: text() }.ending(false), Termination::Trapped);
    assert_eq!(
        Execution::InstantiationTrapped { kind: None, message: text() }.ending(true),
        Termination::Trapped
    );
    assert_eq!(Execution::LinkFailed { message: text() }.ending(false), Termination::Failed);
    assert_eq!(
        Execution::ResolveFailed(MethodResolveError::InvalidEncoding).ending(true),
        Termination::Failed
    );
}

#[test]
fn engine_opens_stores_of_its_own() {
    let engine: NearEngine<u8> = NearEngine::default();
    let store = engine.store();
    assert!(wasmtime::Engine::same(store.engine(), &engine.engine));
    let other: NearEngine<u8> = NearEngine::default();
    assert!(!wasmtime::Engine::same(store.engine(), &other.engine));
}
