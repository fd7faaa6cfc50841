use vstd::prelude::*;

verus! {

/// What one relay run reports to its caller.
#[derive(Clone, Copy, Debug, PartialEq, Eq, Structural)]
pub enum Outcome {
    /// The bytes read were written out in full.
    Success,
    /// The inbound channel faulted on read.
    ReadFailed,
    /// The outbound channel faulted, or accepted fewer bytes than were read.
    WriteFailed,
    /// The transfer buffer did not hold well-formed UTF-8.
    DecodeFailed,
}

impl Outcome {
    /// The status code of this outcome at the relay's foreign boundary.
    pub open spec fn spec_code(self) -> u8 {
        match self {
            Outcome::Success => 0,
            Outcome::ReadFailed => 1,
            Outcome::WriteFailed => 2,
            Outcome::DecodeFailed => 3,
        }
    }

    /// Returns the status code: 0 success, 1 read failed, 2 write failed,
    /// 3 decode failed.
    pub fn code(&self) -> (r: u8)
        ensures
            r == self.spec_code(),
    {
        match self {
            Outcome::Success => 0,
            Outcome::ReadFailed => 1,
            Outcome::WriteFailed => 2,
            Outcome::DecodeFailed => 3,
        }
    }
}

} // verus!
