use vstd::prelude::*;

verus! {

/// The ways an instruction of the program is refused.
#[derive(Clone, Copy, Debug, PartialEq, Eq, Structural)]
pub enum Errors {
    InvalidTokenOwner,
    InvalidTokenMint,
    AccessDenied,
    MathOverflow,
    InvalidNftKind,
    InvalidMetadataProgram,
}

impl Errors {
    /// The text reported with the error.
    pub fn message(&self) -> (m: &'static str)
        ensures
            m@ == self.spec_message()@,
    {
        match self {
            Errors::InvalidTokenOwner => "Invalid Token Owner",
            Errors::InvalidTokenMint => "Invalid Token Mint",
            Errors::AccessDenied => "Access Denied",
            Errors::MathOverflow => "Math overflow",
            Errors::InvalidNftKind => "Invalid Master edtion. Should be strength or agility or intelligence",
            Errors::InvalidMetadataProgram => "Invalid Token Metadata Program",
        }
    }

    pub open spec fn spec_message(&self) -> &'static str {
        match self {
            Errors::InvalidTokenOwner => "Invalid Token Owner",
            Errors::InvalidTokenMint => "Invalid Token Mint",
            Errors::AccessDenied => "Access Denied",
            Errors::MathOverflow => "Math overflow",
            Errors::InvalidNftKind => "Invalid Master edtion. Should be strength or agility or intelligence",
            Errors::InvalidMetadataProgram => "Invalid Token Metadata Program",
        }
    }
}

} // verus!
