use vstd::prelude::*;

verus! {

/// The closed set of runtime failures.
///
/// A trap halts the current execution and is reported unchanged to the
/// caller of [`crate::Engine::execute`].  Several variants are reserved
/// for operations the current opcode set does not perform yet; they are
/// kept so that the taxonomy is stable.
#[derive(Debug, Copy, Clone, PartialEq, Eq, Structural)]
pub enum Trap {
    /// The value stack would exceed its capacity on a push.
    StackOverflow,
    /// Reserved for a future instruction budget.
    ResourceExhaustion,
    /// Reserved for future memory operations.
    AccessOutOfBounds,
    /// Reserved for future table operations.
    UninitializedElement,
    /// The `unreachable` opcode was executed.
    Unreachable,
    /// The caller-supplied parameter or result buffer does not match the
    /// function's declared arity.
    UnmatchedSignature,
}

} // verus!
