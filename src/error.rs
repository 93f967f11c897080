use vstd::prelude::*;

verus! {

/// Result code understood by the kernel boundary.
#[derive(Debug, Clone, Copy, PartialEq, Eq, Structural)]
pub enum ErrorCode {
    Success,
    Unimplemented,
}

impl ErrorCode {
    /// The integer the kernel sees for this code.
    pub fn as_raw(self) -> (r: i32)
        ensures
            r == (if self == ErrorCode::Success { 0i32 } else { -1i32 }),
    {
        match self {
            ErrorCode::Success => 0,
            ErrorCode::Unimplemented => -1,
        }
    }
}

} // verus!
