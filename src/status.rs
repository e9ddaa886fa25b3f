use vstd::prelude::*;

verus! {

/// What a boundary call reports; `code` gives the stable integer for each.
/// The integer -3 is reserved and never produced.
#[derive(Clone, Copy, Debug, PartialEq, Eq, Structural)]
pub enum Status {
    /// The result was copied out and its length recorded.
    Success,
    /// A required pointer was null; nothing was read or written.
    NullPointer,
    /// The result does not fit in the output region; nothing was written.
    CapacityExceeded,
    /// The engine rejected the input or the computation failed; nothing was written.
    ComputationFailed,
}

pub const SUCCESS_CODE: i32 = 0;

pub const NULL_POINTER_CODE: i32 = -1;

pub const CAPACITY_EXCEEDED_CODE: i32 = -2;

pub const COMPUTATION_FAILED_CODE: i32 = -4;

impl Status {
    pub open spec fn spec_code(self) -> i32 {
        match self {
            Status::Success => SUCCESS_CODE,
            Status::NullPointer => NULL_POINTER_CODE,
            Status::CapacityExceeded => CAPACITY_EXCEEDED_CODE,
            Status::ComputationFailed => COMPUTATION_FAILED_CODE,
        }
    }

    /// The stable integer code of this status.
    pub fn code(&self) -> (r: i32)
        ensures
            r == self.spec_code(),
    {
        match self {
            Status::Success => SUCCESS_CODE,
            Status::NullPointer => NULL_POINTER_CODE,
            Status::CapacityExceeded => CAPACITY_EXCEEDED_CODE,
            Status::ComputationFailed => COMPUTATION_FAILED_CODE,
        }
    }
}

} // verus!
