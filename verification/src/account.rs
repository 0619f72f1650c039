//! The accounts of a request, as the host hands them over.

use vstd::prelude::*;
use crate::address::Address;
use crate::error::AirdropError;
use crate::state::{AirdropConfig, AirdropUserData};

verus! {

/// One account of a request: its identity, its role flags and a snapshot of
/// its balance and storage.
#[derive(Clone, Debug)]
pub struct Account {
    /// Address of the account.
    pub key: Address,
    /// Program that controls the account.
    pub owner: Address,
    /// Whether the account co-authorized the request.
    pub is_signer: bool,
    /// Whether the request may change the account.
    pub is_writable: bool,
    /// Balance of the account; zero for an account that does not exist yet.
    pub lamports: u64,
    /// Storage of the account.
    pub data: Vec<u8>,
}

/// Model of an account: the same fields, the storage as a sequence.
pub struct AccountView {
    pub key: Address,
    pub owner: Address,
    pub is_signer: bool,
    pub is_writable: bool,
    pub lamports: u64,
    pub data: Seq<u8>,
}

impl View for Account {
    type V = AccountView;

    open spec fn view(&self) -> AccountView {
        AccountView {
            key: self.key,
            owner: self.owner,
            is_signer: self.is_signer,
            is_writable: self.is_writable,
            lamports: self.lamports,
            data: self.data@,
        }
    }
}

impl AirdropConfig {
    /// Reads the configuration that an account stores.
    pub fn unpack_from_account(account: &Account) -> (r: Result<AirdropConfig, AirdropError>)
        ensures
            r == AirdropConfig::stored(account.data@),
    {
        if account.data.len() != AirdropConfig::LEN {
            return Err(AirdropError::InvalidAccountData);
        }
        assert(account.data@.subrange(0, 169) =~= account.data@);
        AirdropConfig::unpack_from_slice(account.data.as_slice())
    }

    /// Stores the configuration in an account whose storage has the length
    /// of a configuration; any other account is left as it was.
    pub fn pack_into_account(state: AirdropConfig, account: &mut Account) -> (r: Result<
        (),
        AirdropError,
    >)
        ensures
            old(account).data@.len() == 169 ==> r is Ok && final(account)@ == (AccountView {
                data: state.packed(),
                ..old(account)@
            }),
            old(account).data@.len() != 169 ==> r == Err::<(), AirdropError>(
                AirdropError::InvalidAccountData,
            ) && final(account)@ == old(account)@,
    {
        if account.data.len() != AirdropConfig::LEN {
            return Err(AirdropError::InvalidAccountData);
        }
        account.data = state.to_bytes();
        Ok(())
    }
}

impl AirdropUserData {
    /// Reads the user record that an account stores.
    pub fn unpack_from_account(account: &Account) -> (r: Result<AirdropUserData, AirdropError>)
        ensures
            r == AirdropUserData::stored(account.data@),
    {
        if account.data.len() != AirdropUserData::LEN {
            return Err(AirdropError::InvalidAccountData);
        }
        assert(account.data@.subrange(0, 81) =~= account.data@);
        AirdropUserData::unpack_from_slice(account.data.as_slice())
    }

    /// Stores the user record in an account whose storage has the length of
    /// a user record; any other account is left as it was.
    pub fn pack_into_account(state: AirdropUserData, account: &mut Account) -> (r: Result<
        (),
        AirdropError,
    >)
        ensures
            old(account).data@.len() == 81 ==> r is Ok && final(account)@ == (AccountView {
                data: state.packed(),
                ..old(account)@
            }),
            old(account).data@.len() != 81 ==> r == Err::<(), AirdropError>(
                AirdropError::InvalidAccountData,
            ) && final(account)@ == old(account)@,
    {
        if account.data.len() != AirdropUserData::LEN {
            return Err(AirdropError::InvalidAccountData);
        }
        account.data = state.to_bytes();
        Ok(())
    }
}

} // verus!
