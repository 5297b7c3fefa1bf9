//! The errors that the pool's instructions return.

use vstd::prelude::*;

verus! {

/// Why an instruction was refused.
#[derive(Clone, Copy, Debug, PartialEq, Eq)]
pub enum ErrorCode {
    /// The user's unbonding request is already open: it must be withdrawn
    /// before the user unstakes again.
    UserAlreadyUnstaked,
    /// The unbonding request cannot be withdrawn before its release time.
    UnboundDelayNotPassed,
}

impl ErrorCode {
    /// The message shown for the error.
    pub fn msg(&self) -> (m: &'static str)
        ensures
            m@ == (match *self {
                ErrorCode::UserAlreadyUnstaked => "User have already unstaked before"@,
                ErrorCode::UnboundDelayNotPassed => "Unbound delay not passed"@,
            }),
    {
        match self {
            ErrorCode::UserAlreadyUnstaked => "User have already unstaked before",
            ErrorCode::UnboundDelayNotPassed => "Unbound delay not passed",
        }
    }
}

} // verus!
