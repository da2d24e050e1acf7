use vstd::prelude::*;

verus! {

/// Why a data operation did not produce a result.
#[derive(Clone, Copy, Debug, PartialEq, Eq, Structural)]
pub enum DataError {
    /// The native routine reported no result (a null output pointer), or an
    /// output length that no buffer can have.
    NativeCallFailed,
    /// An argument cannot be handed to the native routine: a string holds a
    /// zero byte, or a buffer is longer than the native length type can say.
    InvalidArgument,
}

impl DataError {
    /// A human-readable description of the error.
    pub fn message(&self) -> (r: &'static str)
        ensures
            *self == DataError::NativeCallFailed ==> r@ == "the native data routine returned no result"@,
            *self == DataError::InvalidArgument ==> r@ == "argument cannot be passed to the native data routine"@,
    {
        match self {
            DataError::NativeCallFailed => "the native data routine returned no result",
            DataError::InvalidArgument => "argument cannot be passed to the native data routine",
        }
    }
}

} // verus!
