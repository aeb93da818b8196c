//! The failures an invocation can end with.
//!
//! At most one failure is reported per invocation. Failures before any host
//! logic has run (limits, compilation, linking, entry-point resolution) come
//! without an outcome; a failure while sandboxed code runs comes with the
//! outcome accumulated up to it.

use near_vm_logic::VMLogicError;
use vstd::prelude::*;

verus! {

/// Why the entry point could not be resolved.
#[derive(Clone, Copy, Debug, PartialEq, Eq, Structural)]
pub enum MethodResolveError {
    /// The module exports no function of that name.
    NotFound,
    /// The name is not valid UTF-8 text.
    InvalidEncoding,
    /// The exported function takes parameters or returns a value.
    InvalidSignature,
}

/// The category of a fault that the sandbox detected.
#[derive(Clone, Copy, Debug, PartialEq, Eq, Structural)]
pub enum TrapKind {
    /// The call stack was exhausted.
    StackOverflow,
    /// A load or store reached outside the linear memory.
    MemoryOutOfBounds,
    /// An atomic access was not aligned.
    HeapMisaligned,
    /// An indirect call reached outside its table.
    TableOutOfBounds,
    /// An indirect call reached an empty table slot.
    IndirectCallToNull,
    /// An indirect call found a function of another signature.
    BadSignature,
    /// An integer operation overflowed.
    IntegerOverflow,
    /// An integer was divided by zero.
    IntegerDivisionByZero,
    /// A float could not be converted to an integer.
    BadConversionToInteger,
    /// An `unreachable` instruction was executed.
    UnreachableCodeReached,
    /// Execution was interrupted from outside.
    Interrupt,
}

/// The category under which the host records a fault of the sandbox. The
/// host knows fewer categories than the engine tells apart.
#[derive(Clone, Copy, Debug, PartialEq, Eq, Structural)]
pub enum HostTrap {
    /// An `unreachable` instruction was executed.
    Unreachable,
    /// An indirect call found a function of another signature.
    IncorrectCallIndirectSignature,
    /// A load or store reached outside the linear memory.
    MemoryOutOfBounds,
    /// An indirect call reached outside its table or an empty slot of it.
    CallIndirectOOB,
    /// An arithmetic instruction could not produce a result.
    IllegalArithmetic,
    /// An atomic access was not aligned.
    MisalignedAtomicAccess,
    /// The call stack was exhausted.
    StackOverflow,
    /// A fault that the host has no category of its own for.
    GenericTrap,
}

impl TrapKind {
    /// The host's category for a fault of this kind.
    pub open spec fn spec_host_trap(self) -> HostTrap {
        match self {
            TrapKind::StackOverflow => HostTrap::StackOverflow,
            TrapKind::MemoryOutOfBounds => HostTrap::MemoryOutOfBounds,
            TrapKind::HeapMisaligned => HostTrap::MisalignedAtomicAccess,
            TrapKind::TableOutOfBounds | TrapKind::IndirectCallToNull => HostTrap::CallIndirectOOB,
            TrapKind::BadSignature => HostTrap::IncorrectCallIndirectSignature,
            TrapKind::IntegerOverflow
            | TrapKind::IntegerDivisionByZero
            | TrapKind::BadConversionToInteger => HostTrap::IllegalArithmetic,
            TrapKind::UnreachableCodeReached => HostTrap::Unreachable,
            TrapKind::Interrupt => HostTrap::GenericTrap,
        }
    }

    /// Names the host's category for a fault of this kind: the three
    /// arithmetic faults share one, the two faults of an indirect call into
    /// a table share one, and an interrupt has none of its own.
    pub fn host_trap(self) -> (r: HostTrap)
        ensures
            r == self.spec_host_trap(),
    {
        match self {
            TrapKind::StackOverflow => HostTrap::StackOverflow,
            TrapKind::MemoryOutOfBounds => HostTrap::MemoryOutOfBounds,
            TrapKind::HeapMisaligned => HostTrap::MisalignedAtomicAccess,
            TrapKind::TableOutOfBounds | TrapKind::IndirectCallToNull => HostTrap::CallIndirectOOB,
            TrapKind::BadSignature => HostTrap::IncorrectCallIndirectSignature,
            TrapKind::IntegerOverflow
            | TrapKind::IntegerDivisionByZero
            | TrapKind::BadConversionToInteger => HostTrap::IllegalArithmetic,
            TrapKind::UnreachableCodeReached => HostTrap::Unreachable,
            TrapKind::Interrupt => HostTrap::GenericTrap,
        }
    }
}

/// Why sandboxed code stopped before it returned.
#[derive(Debug, PartialEq)]
pub enum ExecutionError {
    /// The sandbox itself detected a fault of the given category; the
    /// message is the engine's.
    SandboxFault { kind: TrapKind, message: String },
    /// Sandboxed code asked the host to abort; the message, with the source
    /// location where the code supplied one, is the host's.
    Abort { message: String },
    /// A host logic operation failed; the detail is the host's own.
    HostFailure(VMLogicError),
    /// The engine reported a failure that fits no other category; its text
    /// is kept.
    Unclassified { message: String },
}

/// The failure of one invocation.
#[derive(Debug, PartialEq)]
pub enum CallError {
    /// The configured page counts describe no memory.
    InvalidMemoryLimits { initial_pages: u32, max_pages: u32 },
    /// The bytecode could not be compiled.
    CompileError { message: String },
    /// An import of the module could not be satisfied.
    LinkError { message: String },
    /// The entry point could not be resolved.
    MethodResolveError(MethodResolveError),
    /// Sandboxed code stopped abnormally.
    ExecutionError(ExecutionError),
}

impl CallError {
    /// Whether the failure happened before any host logic could run, so
    /// that no outcome comes with it.
    pub open spec fn before_host_effects(self) -> bool {
        !(self is ExecutionError)
    }

    /// Whether the failure happened before any host logic could run.
    pub fn is_before_host_effects(&self) -> (r: bool)
        ensures
            r == self.before_host_effects(),
    {
        match self {
            CallError::ExecutionError(_) => false,
            _ => true,
        }
    }
}

/// A failure of host logic as it is kept until the invocation ends.
#[derive(Debug, PartialEq)]
pub struct HostFailure {
    /// The failure as the host reported it.
    pub error: VMLogicError,
    /// The host's message, if the failure is an abort that sandboxed code
    /// asked for.
    pub abort_message: Option<String>,
}

/// What is reported for a host failure: an abort where the host says
/// sandboxed code asked for one, else the failure itself.
pub open spec fn host_failure_error(failure: HostFailure) -> ExecutionError {
    match failure.abort_message {
        Some(message) => ExecutionError::Abort { message },
        None => ExecutionError::HostFailure(failure.error),
    }
}

/// What is reported when sandboxed code stopped with the engine's text
/// `message`: the host failure that stopped it, if there was one; else a
/// fault of the sandbox, where the engine told its category; else an
/// unclassified failure that keeps the engine's text.
pub open spec fn stop_error(
    pending: Option<HostFailure>,
    kind: Option<TrapKind>,
    message: String,
) -> ExecutionError {
    match pending {
        Some(failure) => host_failure_error(failure),
        None => match kind {
            Some(kind) => ExecutionError::SandboxFault { kind, message },
            None => ExecutionError::Unclassified { message },
        },
    }
}

/// Builds the error that is reported for a host failure.
pub fn classify_host_failure(failure: HostFailure) -> (r: ExecutionError)
    ensures
        r == host_failure_error(failure),
{
    match failure.abort_message {
        Some(message) => ExecutionError::Abort { message },
        None => ExecutionError::HostFailure(failure.error),
    }
}

/// Builds the error for sandboxed code that stopped with the engine's text
/// `message` and, where the engine told it, the category `kind`, given the
/// host failure that was pending, if any.
pub fn classify_stop(pending: Option<HostFailure>, kind: Option<TrapKind>, message: String) -> (r:
    ExecutionError)
    ensures
        r == stop_error(pending, kind, message),
{
    match pending {
        Some(failure) => classify_host_failure(failure),
        None => match kind {
            Some(kind) => ExecutionError::SandboxFault { kind, message },
            None => ExecutionError::Unclassified { message },
        },
    }
}

} // verus!
