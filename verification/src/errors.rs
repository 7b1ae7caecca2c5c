//! Error taxonomy of the engine.
//!
//! Every failure is reported as an explicit result; nothing is swallowed and
//! nothing is retried, since repeating an injection has visible side effects.

use vstd::prelude::*;

verus! {

/// Failure of a single dispatch into the platform layer.
#[derive(Clone, Copy, Debug, PartialEq, Eq, Structural)]
pub enum SendError {
    /// The request was valid but the platform or display cannot satisfy it.
    Unsupported,
    /// A numeric argument fell outside a platform-imposed bound.
    OutOfRange,
    /// The underlying platform call failed.
    Input,
}

/// Failure of an engine operation.
#[derive(Clone, Copy, Debug, PartialEq, Eq, Structural)]
pub enum EngineError {
    /// The boundary handed over an integral code with no matching variant.
    InvalidEnumValue,
    /// A numeric argument fell outside a platform-imposed bound.
    OutOfRange,
    /// The request was valid but the platform or display cannot satisfy it.
    Unsupported,
    /// The underlying platform call failed.
    Input,
    /// Injection of a text stopped at the character with this index.
    TextInjection { position: usize, cause: SendError },
    /// The engine could not be constructed.
    Initialization,
}

/// What an engine operation reports when one platform dispatch fails.
pub open spec fn lifted(e: SendError) -> EngineError {
    match e {
        SendError::Unsupported => EngineError::Unsupported,
        SendError::OutOfRange => EngineError::OutOfRange,
        SendError::Input => EngineError::Input,
    }
}

/// Lift a dispatch failure into the engine's taxonomy.
pub fn lift_send_error(e: SendError) -> (r: EngineError)
    ensures
        r == lifted(e),
{
    match e {
        SendError::Unsupported => EngineError::Unsupported,
        SendError::OutOfRange => EngineError::OutOfRange,
        SendError::Input => EngineError::Input,
    }
}

} // verus!
