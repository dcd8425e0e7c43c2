use vstd::prelude::*;

verus! {

/// The ways an instruction on a delegation record can be refused.
#[derive(Clone, Copy, Debug, PartialEq, Eq, Structural)]
pub enum Errors {
    WrongParameters,
    EmptyWhiteList,
    WhiteListTooLong,
    UnknownAccount,
    MintsMismatch,
    DeactivatedAccount,
    SameAccounts,
    WrongDeactivateAccount,
    WrongOwnerAccount,
}

impl Errors {
    pub open spec fn message_spec(self) -> Seq<char> {
        match self {
            Errors::WrongParameters => "Wrong parameters"@,
            Errors::EmptyWhiteList => "Whitelist is empty"@,
            Errors::WhiteListTooLong => "Whitelist too long"@,
            Errors::UnknownAccount => "Unknown account"@,
            Errors::MintsMismatch => "To and from account mints are not same"@,
            Errors::DeactivatedAccount => "Account not active"@,
            Errors::SameAccounts => "Same accounts in configuration"@,
            Errors::WrongDeactivateAccount => "No permissions to deactivate"@,
            Errors::WrongOwnerAccount => "Only owner can activate transfers"@,
        }
    }

    /// The human-readable description of the error.
    pub fn message(&self) -> (r: &'static str)
        ensures
            r@ == self.message_spec(),
    {
        match self {
            Errors::WrongParameters => "Wrong parameters",
            Errors::EmptyWhiteList => "Whitelist is empty",
            Errors::WhiteListTooLong => "Whitelist too long",
            Errors::UnknownAccount => "Unknown account",
            Errors::MintsMismatch => "To and from account mints are not same",
            Errors::DeactivatedAccount => "Account not active",
            Errors::SameAccounts => "Same accounts in configuration",
            Errors::WrongDeactivateAccount => "No permissions to deactivate",
            Errors::WrongOwnerAccount => "Only owner can activate transfers",
        }
    }
}

} // verus!
