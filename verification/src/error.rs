use vstd::prelude::*;

verus! {

/// Why an instruction of the program was refused.
#[derive(Clone, Copy, Debug, PartialEq, Eq, Structural)]
pub enum WordcelError {
    /// The signer, the accounts or the strings handed in do not fit together.
    InvalidParameters,
    /// The metadata URI has the wrong length.
    UriLengthExceeded,
    /// A follow request names the wrong profiles.
    StopCheating,
    /// The runtime handed over no bump seed for an account being created.
    MissingBump,
}

impl WordcelError {
    /// The text with which the program aborts on this error.
    pub fn message(&self) -> (text: &'static str)
        ensures
            *self == WordcelError::InvalidParameters ==> text@ == "Invalid parameters"@,
            *self == WordcelError::UriLengthExceeded ==> text@ == "Uri length exceeded"@,
            *self == WordcelError::StopCheating ==> text@
                == "STOP CHEATING AND CHECK YOUR PROFILES !"@,
            *self == WordcelError::MissingBump ==> text@ == "bump seed missing"@,
    {
        match self {
            WordcelError::InvalidParameters => "Invalid parameters",
            WordcelError::UriLengthExceeded => "Uri length exceeded",
            WordcelError::StopCheating => "STOP CHEATING AND CHECK YOUR PROFILES !",
            WordcelError::MissingBump => "bump seed missing",
        }
    }
}

} // verus!
