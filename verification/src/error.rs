//! The failures that the host reports, by kind.

use vstd::prelude::*;

verus! {

/// The stage at which turning module bytes into a component failed.
#[derive(Clone, Copy, Debug, PartialEq, Eq, Structural)]
pub enum CompileError {
    /// The bytes are not a module whose interface description can be read.
    Malformed,
    /// The module could not be encoded as a component.
    Encoding,
    /// The encoded component was refused by the engine.
    Validation,
}

/// Why the engine or a store could not be set up.
#[derive(Clone, Copy, Debug, PartialEq, Eq, Structural)]
pub enum ConfigError {
    /// The engine refused the requested combination of options.
    Unsupported,
    /// The store holds no fuel counter: the engine does not meter fuel.
    FuelDisabled,
}

/// Why a run could not be prepared.
#[derive(Clone, Copy, Debug, PartialEq, Eq, Structural)]
pub enum SetupError {
    Compile(CompileError),
    Config(ConfigError),
}

/// Why capabilities and imports could not be brought together.
#[derive(Clone, Copy, Debug, PartialEq, Eq, Structural)]
pub enum LinkError {
    /// A capability of that namespace and name is registered already.
    Duplicate,
    /// No capability is registered under the name of the import at `import`.
    Unresolved { import: usize },
    /// The capability registered under the name of the import at `import`
    /// has another signature than the import declares.
    SignatureMismatch { import: usize },
}

/// Why a call was refused before the guest ran.
#[derive(Clone, Copy, Debug, PartialEq, Eq, Structural)]
pub enum InvocationError {
    /// The artifact has no export of the requested name.
    ExportMissing,
    /// The arguments do not have the types that the export declares.
    SignatureMismatch,
}

/// The failure that a capability handler reports, as a code of its own choosing.
#[derive(Clone, Copy, Debug, PartialEq, Eq, Structural)]
pub struct CapabilityError {
    pub code: u32,
}

/// Why a running guest came to an abnormal end.
#[derive(Clone, Copy, Debug, PartialEq, Eq, Structural)]
pub enum TrapReason {
    /// The fuel counter reached zero before the call completed.
    FuelExhausted,
    /// The guest itself gave up.
    GuestAbort,
    /// A value crossing the boundary did not have its declared type.
    TypeMismatch,
    /// A capability handler failed.
    Capability(CapabilityError),
}

/// A misuse of a session by the host program.
#[derive(Clone, Copy, Debug, PartialEq, Eq, Structural)]
pub enum StateError {
    /// The session holds an instance already.
    AlreadyInstantiated,
    /// The session has completed or trapped and cannot be used again.
    Terminal,
    /// The operation does not belong to the phase that the session is in.
    OutOfOrder,
}

/// A trap, as returned to the caller of a run.
#[derive(Clone, Copy, Debug, PartialEq, Eq, Structural)]
pub struct ExecutionError {
    pub reason: TrapReason,
}

/// Any failure of a run.
#[derive(Clone, Copy, Debug, PartialEq, Eq, Structural)]
pub enum RunError {
    Link(LinkError),
    Invocation(InvocationError),
    Execution(ExecutionError),
    State(StateError),
}

/// What the host reports for the outcome of a call into the engine or the
/// encoder: the value as it is, or `error` in place of whatever they reported.
pub fn or_error<T, E>(outcome: Result<T, anyhow::Error>, error: E) -> (r: Result<T, E>)
    ensures
        r == (match outcome {
            Ok(value) => Ok::<T, E>(value),
            Err(_) => Err::<T, E>(error),
        }),
{
    match outcome {
        Ok(value) => Ok(value),
        Err(_) => Err(error),
    }
}

impl RunError {
    /// The error for a trap with the given reason.
    pub open spec fn trap(reason: TrapReason) -> RunError {
        RunError::Execution(ExecutionError { reason })
    }

    /// The trap reason, where this error is a trap.
    pub fn trap_reason(&self) -> (r: Option<TrapReason>)
        ensures
            r == (match *self {
                RunError::Execution(e) => Some(e.reason),
                _ => None,
            }),
    {
        match self {
            RunError::Execution(e) => Some(e.reason),
            _ => None,
        }
    }
}

} // verus!
