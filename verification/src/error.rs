use vstd::prelude::*;

verus! {

/// What an operation of the binding can report to its caller.
#[derive(Clone, Copy, Debug, PartialEq, Eq, Structural)]
pub enum ZygiskError {
    /// The host answered the companion request with the "no descriptor" value.
    ConnectCompanionFailed,
    /// The host reported a state with a bit that this binding does not know;
    /// the raw value is carried along.
    UnrecognizedStateFlag(u32),
    /// The host reported that committing the pending hooks failed.
    PltHookCommitError,
    /// The host's table holds no function for the operation.
    Unsupported,
    /// A string handed in holds a NUL byte, at the index carried along, and so
    /// has no NUL-terminated form.
    InteriorNul(usize),
}

} // verus!
