//! The three-way result of a verification and the reasons a request can be
//! malformed.

use vstd::prelude::*;
use vstd::string::StringExecFns;

verus! {

/// One of the two encoded sub-objects of a request.
#[derive(Debug, Clone, Copy, PartialEq, Eq, Structural)]
pub enum Field {
    /// The group signature.
    Signature,
    /// The combined group public key.
    Gpk,
}

/// Why a byte buffer could not be turned into a typed request.
#[derive(Debug, Clone, Copy, PartialEq, Eq, Structural)]
pub enum DecodeError {
    /// The buffer holds fewer than two separators, so it has no three fields.
    TooFewFields,
    /// A field is present but its text does not decode into its object.
    SubObject { which: Field },
}

/// What came of one verification request.
///
/// A malformed request is never reported as `Rejected`, and a request whose
/// fields all decode is never reported as `Malformed`.
#[derive(Debug, Clone, Copy, PartialEq, Eq, Structural)]
pub enum VerifyOutcome {
    /// The request decoded and the verifier accepted the signature.
    Verified,
    /// The request decoded and the verifier did not accept the signature.
    Rejected,
    /// The request could not be decoded.
    Malformed(DecodeError),
}

impl DecodeError {
    /// The diagnostic text of this error.
    pub open spec fn message_spec(self) -> Seq<char> {
        match self {
            DecodeError::TooFewFields => "not enough inputs"@,
            DecodeError::SubObject { which: Field::Signature } => "Failed to deserialize signature"@,
            DecodeError::SubObject { which: Field::Gpk } => "Failed to decode gpk"@,
        }
    }

    /// The diagnostic text of this error, for a diagnostic stream.
    pub fn message(&self) -> (text: String)
        ensures
            text@ == self.message_spec(),
    {
        match self {
            DecodeError::TooFewFields => String::from_str("not enough inputs"),
            DecodeError::SubObject { which: Field::Signature } => String::from_str(
                "Failed to deserialize signature",
            ),
            DecodeError::SubObject { which: Field::Gpk } => String::from_str("Failed to decode gpk"),
        }
    }
}

impl VerifyOutcome {
    /// The process exit status that stands for this outcome.
    pub open spec fn exit_status_spec(self) -> u8 {
        match self {
            VerifyOutcome::Verified => 0,
            VerifyOutcome::Rejected => 1,
            VerifyOutcome::Malformed(_) => 2,
        }
    }

    /// The token printed to standard output for this outcome, if any.
    pub open spec fn token_spec(self) -> Option<Seq<char>> {
        match self {
            VerifyOutcome::Verified => Some("OK"@),
            VerifyOutcome::Rejected => Some("NG"@),
            VerifyOutcome::Malformed(_) => None,
        }
    }

    /// The process exit status for this outcome: 0 for `Verified`, 1 for
    /// `Rejected`, 2 for `Malformed`, so that a caller can tell an invalid
    /// signature from a request that could not be parsed.
    pub fn exit_status(&self) -> (status: u8)
        ensures
            status == self.exit_status_spec(),
            status == 0 <==> *self == VerifyOutcome::Verified,
    {
        match self {
            VerifyOutcome::Verified => 0,
            VerifyOutcome::Rejected => 1,
            VerifyOutcome::Malformed(_) => 2,
        }
    }

    /// The token to print on standard output: `OK` for `Verified`, `NG` for
    /// `Rejected`, and nothing for `Malformed`.
    pub fn token(&self) -> (token: Option<&'static str>)
        ensures
            match token {
                Some(text) => self.token_spec() == Some(text@),
                None => self.token_spec() is None,
            },
    {
        match self {
            VerifyOutcome::Verified => Some("OK"),
            VerifyOutcome::Rejected => Some("NG"),
            VerifyOutcome::Malformed(_) => None,
        }
    }

    /// The reason a request was malformed, if it was.
    pub fn reason(&self) -> (reason: Option<DecodeError>)
        ensures
            reason == match *self {
                VerifyOutcome::Malformed(error) => Some(error),
                _ => None::<DecodeError>,
            },
    {
        match self {
            VerifyOutcome::Malformed(error) => Some(*error),
            _ => None,
        }
    }
}

} // verus!
