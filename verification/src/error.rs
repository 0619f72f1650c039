//! The failures that a request can end in.

use vstd::prelude::*;
use vstd::string::*;

verus! {

/// Every way in which a request is rejected. Each failure ends the request:
/// nothing is retried and nothing is written.
#[derive(Clone, Copy, Debug, PartialEq, Eq, Structural)]
pub enum AirdropError {
    /// The first byte of the payload names no operation.
    BadOperationId,
    /// The argument body has the wrong length for its operation.
    BadOperationArgument,
    /// An account that must co-authorize the request did not sign it.
    SignerRequired,
    /// An account that the operation changes is not marked writable.
    WritableRequired,
    /// An account is controlled by another program than expected.
    IllegalOwner,
    /// A supplied address is not the one derived from its parents.
    DerivedAddressMismatch,
    /// The record or account to create exists already.
    AlreadyInitialized,
    /// A record that the operation needs was never initialized.
    Uninitialized,
    /// The initialization flag of a stored record is neither 0 nor 1.
    CorruptState,
    /// Every unit of the collection has been issued.
    OutOfSupply,
    /// The user's cooldown has not elapsed yet.
    UserTimeout,
    /// Stored data does not fit the accounts of the request.
    InvalidAccountData,
    /// The admin or revenue wallet is not the one the collection names.
    WrongAccountAddress,
}

impl AirdropError {
    /// The text that describes the failure to a person.
    pub open spec fn message_text(self) -> Seq<char> {
        match self {
            AirdropError::BadOperationId => "Unexpected input in instruction id"@,
            AirdropError::BadOperationArgument => "Unexpected input in instruction argument"@,
            AirdropError::SignerRequired => "Account is not signer"@,
            AirdropError::WritableRequired => "Account is not writeable"@,
            AirdropError::IllegalOwner => "Account is owned by an unexpected program"@,
            AirdropError::DerivedAddressMismatch => "Account is not properly derived"@,
            AirdropError::AlreadyInitialized => "Account is already initialized"@,
            AirdropError::Uninitialized => "Account is not initialized"@,
            AirdropError::CorruptState => "Account holds a corrupt record"@,
            AirdropError::OutOfSupply => "Airdrop is out of supply"@,
            AirdropError::UserTimeout => "User is still locked"@,
            AirdropError::InvalidAccountData => "Account data is invalid"@,
            AirdropError::WrongAccountAddress => "Account address is not the expected one"@,
        }
    }

    /// The number under which the program reports a failure of its own;
    /// `None` for the failures that the host already has a kind for.
    pub open spec fn custom_code_spec(self) -> Option<u32> {
        match self {
            AirdropError::BadOperationId => Some(0u32),
            AirdropError::BadOperationArgument => Some(1u32),
            AirdropError::SignerRequired => Some(2u32),
            AirdropError::WritableRequired => Some(3u32),
            AirdropError::DerivedAddressMismatch => Some(4u32),
            AirdropError::Uninitialized => Some(5u32),
            AirdropError::OutOfSupply => Some(6u32),
            AirdropError::UserTimeout => Some(7u32),
            AirdropError::WrongAccountAddress => Some(8u32),
            AirdropError::IllegalOwner => None,
            AirdropError::AlreadyInitialized => None,
            AirdropError::CorruptState => None,
            AirdropError::InvalidAccountData => None,
        }
    }

    /// A human-readable description of the failure.
    pub fn message(&self) -> (text: String)
        ensures
            text@ == self.message_text(),
    {
        let text: &str = match self {
            AirdropError::BadOperationId => "Unexpected input in instruction id",
            AirdropError::BadOperationArgument => "Unexpected input in instruction argument",
            AirdropError::SignerRequired => "Account is not signer",
            AirdropError::WritableRequired => "Account is not writeable",
            AirdropError::IllegalOwner => "Account is owned by an unexpected program",
            AirdropError::DerivedAddressMismatch => "Account is not properly derived",
            AirdropError::AlreadyInitialized => "Account is already initialized",
            AirdropError::Uninitialized => "Account is not initialized",
            AirdropError::CorruptState => "Account holds a corrupt record",
            AirdropError::OutOfSupply => "Airdrop is out of supply",
            AirdropError::UserTimeout => "User is still locked",
            AirdropError::InvalidAccountData => "Account data is invalid",
            AirdropError::WrongAccountAddress => "Account address is not the expected one",
        };
        text.to_owned()
    }

    /// The program's own number for the failure, if it has one.
    pub fn custom_code(&self) -> (code: Option<u32>)
        ensures
            code == self.custom_code_spec(),
    {
        match self {
            AirdropError::BadOperationId => Some(0u32),
            AirdropError::BadOperationArgument => Some(1u32),
            AirdropError::SignerRequired => Some(2u32),
            AirdropError::WritableRequired => Some(3u32),
            AirdropError::DerivedAddressMismatch => Some(4u32),
            AirdropError::Uninitialized => Some(5u32),
            AirdropError::OutOfSupply => Some(6u32),
            AirdropError::UserTimeout => Some(7u32),
            AirdropError::WrongAccountAddress => Some(8u32),
            AirdropError::IllegalOwner => None,
            AirdropError::AlreadyInitialized => None,
            AirdropError::CorruptState => None,
            AirdropError::InvalidAccountData => None,
        }
    }
}

} // verus!
