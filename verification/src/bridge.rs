//! The slot through which bound host functions reach the host logic of the
//! invocation in flight.
//!
//! An engine that offers no per-function context keeps one slot beside the
//! engine. The driver checks a context out into the slot before it invokes
//! the entry point and checks it in again afterwards. At most one context
//! is active at a time: a second registration while one is active is
//! refused, never silently replacing the first.

use vstd::prelude::*;
use wasmtime::{Engine, Store};

verus! {

/// The engine that compiles and runs sandboxed code.
#[verifier::external_type_specification]
#[verifier::external_body]
pub struct ExEngine(Engine);

/// Why the slot refused an operation.
#[derive(Clone, Copy, Debug, PartialEq, Eq, Structural)]
pub enum BridgeError {
    /// A context is already active: registration would alias it.
    AlreadyActive,
    /// No context is active: a host function ran outside an invocation.
    NoActiveContext,
}

/// A registration slot for the context of the one invocation in flight.
pub struct ContextSlot<C> {
    active: Option<C>,
}

/// What the slot holds after a registration of `context` was tried: the
/// context that was active before, if there was one, else `context`.
pub open spec fn after_check_out<C>(before: Option<C>, context: C) -> Option<C> {
    match before {
        Some(_) => before,
        None => Some(context),
    }
}

impl<C> ContextSlot<C> {
    /// The context that is active, if any.
    pub closed spec fn view(&self) -> Option<C> {
        self.active
    }

    /// A slot with no active context.
    pub fn vacant() -> (r: Self)
        ensures
            r@ is None,
    {
        ContextSlot { active: None }
    }

    /// Whether a context is active.
    pub fn is_active(&self) -> (r: bool)
        ensures
            r == (self@ is Some),
    {
        self.active.is_some()
    }

    /// Registers `context` for the invocation about to start. Refused, with
    /// the context handed back and the slot unchanged, while another
    /// context is active.
    pub fn check_out(&mut self, context: C) -> (r: Result<(), (BridgeError, C)>)
        ensures
            final(self)@ == after_check_out(old(self)@, context),
            r is Ok <==> old(self)@ is None,
            r is Err ==> r->Err_0 == (BridgeError::AlreadyActive, context),
    {
        if self.active.is_some() {
            Err((BridgeError::AlreadyActive, context))
        } else {
            self.active = Some(context);
            Ok(())
        }
    }

    /// Ends the registration and hands the context back. Reports an empty
    /// slot rather than inventing a context.
    pub fn check_in(&mut self) -> (r: Result<C, BridgeError>)
        ensures
            final(self)@ is None,
            old(self)@ is Some ==> r == Ok::<C, BridgeError>(old(self)@->0),
            old(self)@ is None ==> r == Err::<C, BridgeError>(BridgeError::NoActiveContext),
    {
        match self.active.take() {
            Some(context) => Ok(context),
            None => Err(BridgeError::NoActiveContext),
        }
    }

    /// The context of the invocation in flight. A host function that finds
    /// none was called outside an invocation.
    pub fn current(&self) -> (r: Result<&C, BridgeError>)
        ensures
            self@ is Some ==> r == Ok::<&C, BridgeError>(&self@->0),
            self@ is None ==> r == Err::<&C, BridgeError>(BridgeError::NoActiveContext),
    {
        match &self.active {
            Some(context) => Ok(context),
            None => Err(BridgeError::NoActiveContext),
        }
    }
}

/// While a context is checked out no other can take its place: a second
/// registration leaves the first active, and only a vacant slot takes a
/// new context.
pub proof fn lemma_single_flight<C>(before: Option<C>, first: C, second: C)
    ensures
        after_check_out(after_check_out(before, first), second) == after_check_out(before, first),
        after_check_out(before, first) is Some,
        before is None ==> after_check_out(before, first) == Some(first),
        before is Some ==> after_check_out(before, first) == before,
{
}

/// Whether the engine was configured for blocking calls and with its own
/// memory allocator: without `Config::async_support` and without
/// `Config::with_host_memory`. The engine aborts a blocking call on a store
/// with async support, and only its own allocator is known to keep a
/// memory within its limits.
pub uninterp spec fn plain_engine(engine: Engine) -> bool;

/// The engine that a store belongs to: what `wasmtime::Store::engine`
/// reports of it.
pub uninterp spec fn engine_behind(store: Store) -> Engine;

/// Whether the store belongs to an engine configured for blocking calls
/// and with its own memory allocator.
pub open spec fn plain_store(store: Store) -> bool {
    plain_engine(engine_behind(store))
}

/// Calls `wasmtime::Engine::default`: an engine with the default
/// configuration, which has neither async support nor a host memory
/// allocator.
#[verifier::external_body]
fn default_engine() -> (r: Engine)
    ensures
        plain_engine(r),
{
    Engine::default()
}

/// Calls `wasmtime::Store::new`: a fresh store that belongs to `engine`.
#[verifier::external_body]
fn open_store(engine: &Engine) -> (r: Store)
    ensures
        engine_behind(r) == *engine,
{
    Store::new(engine)
}

/// An engine together with the slot for the context of the invocation that
/// runs on it. One engine serves one invocation at a time.
pub struct NearEngine<C> {
    pub engine: Engine,
    pub ctx: ContextSlot<C>,
}

impl<C> Default for NearEngine<C> {
    /// A fresh engine, configured for blocking calls and with its own
    /// memory allocator, with no active context.
    fn default() -> (r: Self)
        ensures
            r.ctx@ is None,
            plain_engine(r.engine),
    {
        NearEngine { engine: default_engine(), ctx: ContextSlot::vacant() }
    }
}

impl<C> NearEngine<C> {
    /// A fresh store for one invocation on this engine.
    pub fn store(&self) -> (r: Store)
        ensures
            engine_behind(r) == self.engine,
    {
        open_store(&self.engine)
    }
}

} // verus!
