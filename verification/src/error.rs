//! Why a handler refused a call.

use vstd::prelude::*;
use crate::decimal::{decimal, decimal_string};

verus! {

/// The reasons for which a call is refused. A refused call changes nothing.
#[derive(Debug, Clone, Copy, PartialEq, Eq)]
pub enum Error {
    /// The caller is not the owner of the contract.
    CallerNotOwner,
    /// The municipality is not registered.
    MunicipalityNotFound,
    /// No project is registered under the municipality.
    ProjectNotFound,
    /// No bytecode is stored under the token version.
    TokenVersionNotFound,
    /// The user has not linked an account.
    NoLinkedAccount,
    /// The signer is not the account that the user linked.
    CallerNotLinkedAccount,
    /// The custodial ledger does not hold the token for that owner.
    TokenNotHeld,
    /// There is no token with that id.
    TokenNotFound,
    /// The municipality is already registered.
    MunicipalityExists,
    /// The project is already registered.
    ProjectExists,
    /// The token contract is already registered for the project.
    TokenExists,
    /// The token version is already stored.
    TokenVersionExists,
    /// The custodial ledger already holds the token for that owner.
    TokenInfoExists,
    /// The user is already registered in the municipality.
    UserExists,
    /// The call carried no bytecode.
    NoCode,
    /// The attached deposit does not cover the storage of the bytecode.
    InsufficientDeposit { required: u128 },
    /// Nothing is attached to a call that must carry a deposit.
    NoDeposit,
    /// The name of the new sub-account is not a valid account id.
    InvalidSubaccount,
    /// An account named in the call is not a valid account id.
    InvalidAccountId,
    /// A resolution was called by an account other than the contract itself.
    NotCallback,
    /// The remote deployment failed.
    DeployFailed,
    /// The remote transfer failed.
    TransferFailed,
    /// The sender neither owns the token nor is approved for it.
    Unauthorized,
    /// An approval id was given but the sender holds no approval.
    SenderNotApproved,
    /// The approval id given is not the one recorded for the sender.
    ApprovalIdMismatch,
    /// The receiver already owns the token.
    ReceiverIsOwner,
    /// The sender and the receiver are the same account.
    ReceiverIsSender,
    /// The owner recorded in the token has no entry in the owner index.
    OwnerIndexMissing,
}

/// The classes of refusals.
#[derive(Debug, Clone, Copy, PartialEq, Eq, Structural)]
pub enum ErrorKind {
    /// The caller may not make this call.
    Authorization,
    /// Something the call names does not exist.
    NotFound,
    /// Something the call would add exists already.
    Duplicate,
    /// The attached value is too small.
    InsufficientValue,
    /// The remote call chain failed.
    RemoteCall,
    /// An argument is not acceptable in itself.
    InvalidArgument,
}

impl Error {
    /// The class of this refusal.
    pub open spec fn kind_of(self) -> ErrorKind {
        match self {
            Error::CallerNotOwner
            | Error::CallerNotLinkedAccount
            | Error::NotCallback
            | Error::Unauthorized
            | Error::SenderNotApproved
            | Error::ApprovalIdMismatch => ErrorKind::Authorization,
            Error::MunicipalityNotFound
            | Error::ProjectNotFound
            | Error::TokenVersionNotFound
            | Error::NoLinkedAccount
            | Error::TokenNotHeld
            | Error::TokenNotFound
            | Error::OwnerIndexMissing => ErrorKind::NotFound,
            Error::MunicipalityExists
            | Error::ProjectExists
            | Error::TokenExists
            | Error::TokenVersionExists
            | Error::TokenInfoExists
            | Error::UserExists => ErrorKind::Duplicate,
            Error::InsufficientDeposit { .. } | Error::NoDeposit => ErrorKind::InsufficientValue,
            Error::DeployFailed | Error::TransferFailed => ErrorKind::RemoteCall,
            Error::NoCode
            | Error::InvalidSubaccount
            | Error::InvalidAccountId
            | Error::ReceiverIsOwner
            | Error::ReceiverIsSender => ErrorKind::InvalidArgument,
        }
    }

    /// The class of this refusal.
    pub fn kind(&self) -> (k: ErrorKind)
        ensures
            k == self.kind_of(),
    {
        match self {
            Error::CallerNotOwner
            | Error::CallerNotLinkedAccount
            | Error::NotCallback
            | Error::Unauthorized
            | Error::SenderNotApproved
            | Error::ApprovalIdMismatch => ErrorKind::Authorization,
            Error::MunicipalityNotFound
            | Error::ProjectNotFound
            | Error::TokenVersionNotFound
            | Error::NoLinkedAccount
            | Error::TokenNotHeld
            | Error::TokenNotFound
            | Error::OwnerIndexMissing => ErrorKind::NotFound,
            Error::MunicipalityExists
            | Error::ProjectExists
            | Error::TokenExists
            | Error::TokenVersionExists
            | Error::TokenInfoExists
            | Error::UserExists => ErrorKind::Duplicate,
            Error::InsufficientDeposit { .. } | Error::NoDeposit => ErrorKind::InsufficientValue,
            Error::DeployFailed | Error::TransferFailed => ErrorKind::RemoteCall,
            Error::NoCode
            | Error::InvalidSubaccount
            | Error::InvalidAccountId
            | Error::ReceiverIsOwner
            | Error::ReceiverIsSender => ErrorKind::InvalidArgument,
        }
    }

    /// The words in which this refusal is reported.
    pub open spec fn message_of(self) -> Seq<char> {
        match self {
            Error::CallerNotOwner => "Caller not owner"@,
            Error::MunicipalityNotFound => "Municipality does not exist"@,
            Error::ProjectNotFound => "Project does not exist"@,
            Error::TokenVersionNotFound => "Token version does not exist"@,
            Error::NoLinkedAccount => "No account linked to user"@,
            Error::CallerNotLinkedAccount => "Caller is not the owner of the account"@,
            Error::TokenNotHeld => "The token was not found in the owners token set"@,
            Error::TokenNotFound => "No token"@,
            Error::MunicipalityExists => "Municipality already exists"@,
            Error::ProjectExists => "Project already exists"@,
            Error::TokenExists => "Token already added for project"@,
            Error::TokenVersionExists => "Token version already exists"@,
            Error::TokenInfoExists => "Token info already exists"@,
            Error::UserExists => "User already exists in the given municipality"@,
            Error::NoCode => "No code given"@,
            Error::InsufficientDeposit { required } => "Attach at least "@ + decimal(
                required as nat,
            ) + " yoctoNEAR to deploy the contract"@,
            Error::NoDeposit => "Requires attached deposit of at least 1 yoctoNEAR"@,
            Error::InvalidSubaccount => "Subaccount ID is invalid"@,
            Error::InvalidAccountId => "the account ID is invalid"@,
            Error::NotCallback => "Method is private"@,
            Error::DeployFailed => "Failed to deploy token contract"@,
            Error::TransferFailed => "Failed to transfer token"@,
            Error::Unauthorized => "Unauthorized"@,
            Error::SenderNotApproved => "Sender is not approved account"@,
            Error::ApprovalIdMismatch => "The actual approval_id is different from the given approval_id"@,
            Error::ReceiverIsOwner => "The token owner and receiver should be different"@,
            Error::ReceiverIsSender => "The token sender and receiver should be different"@,
            Error::OwnerIndexMissing => "Token should be owned by the sender"@,
        }
    }

    /// The words in which this refusal is reported.
    pub fn message(&self) -> (text: String)
        ensures
            text@ == self.message_of(),
    {
        match self {
            Error::CallerNotOwner => String::from_str("Caller not owner"),
            Error::MunicipalityNotFound => String::from_str("Municipality does not exist"),
            Error::ProjectNotFound => String::from_str("Project does not exist"),
            Error::TokenVersionNotFound => String::from_str("Token version does not exist"),
            Error::NoLinkedAccount => String::from_str("No account linked to user"),
            Error::CallerNotLinkedAccount => String::from_str(
                "Caller is not the owner of the account",
            ),
            Error::TokenNotHeld => String::from_str(
                "The token was not found in the owners token set",
            ),
            Error::TokenNotFound => String::from_str("No token"),
            Error::MunicipalityExists => String::from_str("Municipality already exists"),
            Error::ProjectExists => String::from_str("Project already exists"),
            Error::TokenExists => String::from_str("Token already added for project"),
            Error::TokenVersionExists => String::from_str("Token version already exists"),
            Error::TokenInfoExists => String::from_str("Token info already exists"),
            Error::UserExists => String::from_str("User already exists in the given municipality"),
            Error::NoCode => String::from_str("No code given"),
            Error::InsufficientDeposit { required } => {
                let amount = decimal_string(*required);
                String::from_str("Attach at least ").concat(amount.as_str()).concat(
                    " yoctoNEAR to deploy the contract",
                )
            },
            Error::NoDeposit => String::from_str(
                "Requires attached deposit of at least 1 yoctoNEAR",
            ),
            Error::InvalidSubaccount => String::from_str("Subaccount ID is invalid"),
            Error::InvalidAccountId => String::from_str("the account ID is invalid"),
            Error::NotCallback => String::from_str("Method is private"),
            Error::DeployFailed => String::from_str("Failed to deploy token contract"),
            Error::TransferFailed => String::from_str("Failed to transfer token"),
            Error::Unauthorized => String::from_str("Unauthorized"),
            Error::SenderNotApproved => String::from_str("Sender is not approved account"),
            Error::ApprovalIdMismatch => String::from_str(
                "The actual approval_id is different from the given approval_id",
            ),
            Error::ReceiverIsOwner => String::from_str(
                "The token owner and receiver should be different",
            ),
            Error::ReceiverIsSender => String::from_str(
                "The token sender and receiver should be different",
            ),
            Error::OwnerIndexMissing => String::from_str("Token should be owned by the sender"),
        }
    }
}

} // verus!
