//! Why a call was refused.

use vstd::prelude::*;

verus! {

/// What a claimant reads when the deadline has passed.
pub const DEADLINE_EXPIRED_MESSAGE: &'static str =
    "The hackathon has ended, you can no longer claim your badge";

/// What a claimant reads when the team name is empty.
pub const INVALID_INPUT_MESSAGE: &'static str = "Team name must be at least 1 character long";

/// What the authority reads when the deadline cannot be represented.
pub const SETUP_OVERFLOW_MESSAGE: &'static str =
    "The end of the claim period lies beyond the representable time range";

/// Why a call was refused. A refused call changes nothing.
#[derive(Clone, Copy, Debug, PartialEq, Eq, Structural)]
pub enum BadgeError {
    /// The claim did not arrive strictly before the deadline.
    DeadlineExpired,
    /// The team name is empty.
    InvalidInput,
    /// Seven days after the time of setup is no representable time.
    SetupOverflow,
}

impl BadgeError {
    /// The text of the refusal.
    pub open spec fn spec_message(self) -> Seq<char> {
        match self {
            BadgeError::DeadlineExpired => DEADLINE_EXPIRED_MESSAGE@,
            BadgeError::InvalidInput => INVALID_INPUT_MESSAGE@,
            BadgeError::SetupOverflow => SETUP_OVERFLOW_MESSAGE@,
        }
    }

    /// The text of the refusal.
    pub fn message(&self) -> (text: String)
        ensures
            text@ == self.spec_message(),
    {
        match self {
            BadgeError::DeadlineExpired => DEADLINE_EXPIRED_MESSAGE.to_owned(),
            BadgeError::InvalidInput => INVALID_INPUT_MESSAGE.to_owned(),
            BadgeError::SetupOverflow => SETUP_OVERFLOW_MESSAGE.to_owned(),
        }
    }
}

} // verus!
