//! Validation of every account of a request, and the dispatch of requests to
//! their operations. Nothing is planned before every check has passed.

use vstd::prelude::*;
use crate::account::Account;
use crate::address::Address;
use crate::error::AirdropError;
use crate::instruction::{decoded_instruction, deserialize_instruction_data};
use crate::instruction::{AirdropInstruction, InitializeAirdropArgs};
use crate::pda::{find_airdrop_user_data, find_mint_authority};
use crate::pda::{mint_authority_address, user_data_address};
use crate::service::{associated_token_address, find_associated_token_address};
use crate::service::{system_program, system_program_id};
use crate::state::{AirdropConfig, AirdropUserData};
use crate::transaction::{outcome_view, Transaction, TransactionView};
use crate::util::{initialize_airdrop_plan, process_initialize_airdrop_logic};
use crate::util::{initialize_airdrop_user_plan, process_initialize_airdrop_user_account_logic};
use crate::util::{mint_one_plan, process_airdrop_one_logic, registration_in_range};
use crate::util::{INITIALIZE_ACCOUNTS, MINT_ACCOUNTS, REGISTER_ACCOUNTS};

verus! {

/// What the host reports besides the accounts of a request.
#[derive(Clone, Copy, Debug)]
pub struct HostParameters {
    /// The time, in seconds of the Unix epoch.
    pub unix_timestamp: i64,
    /// The balance that keeps a mint-authority marker alive.
    pub mint_authority_rent: u64,
    /// The balance that keeps a user record alive.
    pub user_data_rent: u64,
    /// The balance that keeps the account of a new token alive.
    pub token_rent: u64,
}

/// The outcome of asking that an account has signed.
pub open spec fn signer_check(account: Account) -> Result<(), AirdropError> {
    if account.is_signer {
        Ok(())
    } else {
        Err(AirdropError::SignerRequired)
    }
}

/// The outcome of asking that an account is writable.
pub open spec fn writable_check(account: Account) -> Result<(), AirdropError> {
    if account.is_writable {
        Ok(())
    } else {
        Err(AirdropError::WritableRequired)
    }
}

/// The outcome of asking that an account is controlled by a program.
pub open spec fn owner_check(account: Account, expected_owner: Address) -> Result<
    (),
    AirdropError,
> {
    if account.owner == expected_owner {
        Ok(())
    } else {
        Err(AirdropError::IllegalOwner)
    }
}

/// The outcome of asking that an account does not exist yet: its balance is
/// zero.
pub open spec fn uninitialized_check(account: Account) -> Result<(), AirdropError> {
    if account.lamports > 0 {
        Err(AirdropError::AlreadyInitialized)
    } else {
        Ok(())
    }
}

/// The outcome of asking that a record has been initialized.
pub open spec fn initialized_check(initialized: bool) -> Result<(), AirdropError> {
    if initialized {
        Ok(())
    } else {
        Err(AirdropError::Uninitialized)
    }
}

/// The outcome of asking that an address is the derived one.
pub open spec fn derived_check(derived: Option<(Address, u8)>, supplied: Address) -> Result<
    u8,
    AirdropError,
> {
    match derived {
        Some((address, bump)) => if address == supplied {
            Ok(bump)
        } else {
            Err(AirdropError::DerivedAddressMismatch)
        },
        None => Err(AirdropError::DerivedAddressMismatch),
    }
}

/// Fails with `SignerRequired` unless the account co-authorized the request.
pub fn assert_signer(acc: &Account) -> (r: Result<(), AirdropError>)
    ensures
        r == signer_check(*acc),
{
    if acc.is_signer {
        Ok(())
    } else {
        Err(AirdropError::SignerRequired)
    }
}

/// Fails with `WritableRequired` unless the request may change the account.
pub fn assert_writeable(acc: &Account) -> (r: Result<(), AirdropError>)
    ensures
        r == writable_check(*acc),
{
    if acc.is_writable {
        Ok(())
    } else {
        Err(AirdropError::WritableRequired)
    }
}

/// Fails with `IllegalOwner` unless `expected_owner` controls the account.
pub fn assert_owned_by(acc: &Account, expected_owner: &Address) -> (r: Result<(), AirdropError>)
    ensures
        r == owner_check(*acc, *expected_owner),
{
    if acc.owner.same(expected_owner) {
        Ok(())
    } else {
        Err(AirdropError::IllegalOwner)
    }
}

/// Fails with `AlreadyInitialized` unless the account does not exist yet.
pub fn assert_uninitialized(acc: &Account) -> (r: Result<(), AirdropError>)
    ensures
        r == uninitialized_check(*acc),
{
    if acc.lamports > 0 {
        Err(AirdropError::AlreadyInitialized)
    } else {
        Ok(())
    }
}

/// Fails with `Uninitialized` unless the flag of a record is set.
pub fn assert_initialized(initialized: bool) -> (r: Result<(), AirdropError>)
    ensures
        r == initialized_check(initialized),
{
    if initialized {
        Ok(())
    } else {
        Err(AirdropError::Uninitialized)
    }
}

/// Fails with `DerivedAddressMismatch` unless `supplied` is the derived
/// address; gives the bump of the derivation otherwise.
pub fn assert_derived(derived: Option<(Address, u8)>, supplied: &Address) -> (r: Result<
    u8,
    AirdropError,
>)
    ensures
        r == derived_check(derived, *supplied),
{
    match derived {
        Some((address, bump)) => if address.same(supplied) {
            Ok(bump)
        } else {
            Err(AirdropError::DerivedAddressMismatch)
        },
        None => Err(AirdropError::DerivedAddressMismatch),
    }
}

/// The checks of an initialization, in order; the first that fails decides.
/// `marker` is what the derivation gives for the collection. The result is
/// the bump of the marker's address.
pub open spec fn initialize_airdrop_checks(
    program_id: Address,
    accounts: Seq<Account>,
    marker: Option<(Address, u8)>,
) -> Result<u8, AirdropError> {
    let collection = accounts[0];
    let fee_payer = accounts[6];
    if !collection.is_writable {
        Err(AirdropError::WritableRequired)
    } else if collection.owner != program_id {
        Err(AirdropError::IllegalOwner)
    } else if derived_check(marker, accounts[2].key) is Err {
        Err(AirdropError::DerivedAddressMismatch)
    } else if !fee_payer.is_signer {
        Err(AirdropError::SignerRequired)
    } else {
        derived_check(marker, accounts[2].key)
    }
}

/// The outcome of an initialization: the first failing check, or the plan.
pub open spec fn initialize_airdrop_outcome(
    program_id: Address,
    accounts: Seq<Account>,
    args: InitializeAirdropArgs,
    lamports: u64,
    marker: Option<(Address, u8)>,
) -> Result<TransactionView, AirdropError> {
    match initialize_airdrop_checks(program_id, accounts, marker) {
        Err(e) => Err(e),
        Ok(bump) => initialize_airdrop_plan(accounts, args, program_id, lamports, bump),
    }
}

/// The checks of a registration, in order; the first that fails decides.
/// `record` is what the derivation gives for the collection and the user.
/// The result is the bump of the record's address.
pub open spec fn initialize_airdrop_user_checks(
    program_id: Address,
    accounts: Seq<Account>,
    record: Option<(Address, u8)>,
) -> Result<u8, AirdropError> {
    let user_data = accounts[0];
    let collection = accounts[2];
    let fee_payer = accounts[4];
    if derived_check(record, user_data.key) is Err {
        Err(AirdropError::DerivedAddressMismatch)
    } else if user_data.lamports > 0 {
        Err(AirdropError::AlreadyInitialized)
    } else if !user_data.is_writable {
        Err(AirdropError::WritableRequired)
    } else if collection.owner != program_id {
        Err(AirdropError::IllegalOwner)
    } else if !collection.is_writable {
        Err(AirdropError::WritableRequired)
    } else {
        match AirdropConfig::stored(collection.data@) {
            Err(e) => Err(e),
            Ok(config) => if !config.initialized {
                Err(AirdropError::Uninitialized)
            } else if !fee_payer.is_signer {
                Err(AirdropError::SignerRequired)
            } else {
                derived_check(record, user_data.key)
            },
        }
    }
}

/// The outcome of a registration: the first failing check, or the plan.
pub open spec fn initialize_airdrop_user_outcome(
    program_id: Address,
    accounts: Seq<Account>,
    lamports: u64,
    record: Option<(Address, u8)>,
) -> Result<TransactionView, AirdropError> {
    match initialize_airdrop_user_checks(program_id, accounts, record) {
        Err(e) => Err(e),
        Ok(bump) => initialize_airdrop_user_plan(accounts, program_id, lamports, bump),
    }
}

/// The checks of a mint that concern the collection and its supply.
pub open spec fn mint_one_collection_checks(program_id: Address, accounts: Seq<Account>) -> Result<
    AirdropConfig,
    AirdropError,
> {
    let collection = accounts[0];
    if !collection.is_writable {
        Err(AirdropError::WritableRequired)
    } else if collection.owner != program_id {
        Err(AirdropError::IllegalOwner)
    } else {
        match AirdropConfig::stored(collection.data@) {
            Err(e) => Err(e),
            Ok(config) => if !config.initialized {
                Err(AirdropError::Uninitialized)
            } else if config.issued_count >= config.supply_cap {
                Err(AirdropError::OutOfSupply)
            } else {
                Ok(config)
            },
        }
    }
}

/// The checks of a mint that concern the user record and its cooldown.
pub open spec fn mint_one_user_checks(
    program_id: Address,
    accounts: Seq<Account>,
    now: i64,
) -> Result<AirdropUserData, AirdropError> {
    let collection = accounts[0];
    let record = accounts[1];
    let user = accounts[3];
    if !record.is_writable {
        Err(AirdropError::WritableRequired)
    } else if record.owner != program_id {
        Err(AirdropError::IllegalOwner)
    } else {
        match AirdropUserData::stored(record.data@) {
            Err(e) => Err(e),
            Ok(user_data) => if !user_data.initialized {
                Err(AirdropError::Uninitialized)
            } else if !(user_data.user == user.key && user_data.collection == collection.key) {
                Err(AirdropError::InvalidAccountData)
            } else if now < user_data.cooldown_until {
                Err(AirdropError::UserTimeout)
            } else {
                Ok(user_data)
            },
        }
    }
}

/// The checks of a mint that concern the other accounts of the request.
/// `marker` is what the derivation gives for the collection. The result is
/// the bump of the marker's address.
pub open spec fn mint_one_party_checks(
    accounts: Seq<Account>,
    config: AirdropConfig,
    marker: Option<(Address, u8)>,
) -> Result<u8, AirdropError> {
    let mint = accounts[2];
    let user_token = accounts[4];
    let metadata = accounts[5];
    let payer = accounts[13];
    let authority = accounts[14];
    let admin = accounts[15];
    let revenue_wallet = accounts[16];
    if !mint.is_signer {
        Err(AirdropError::SignerRequired)
    } else if !mint.is_writable {
        Err(AirdropError::WritableRequired)
    } else if !user_token.is_writable {
        Err(AirdropError::WritableRequired)
    } else if !metadata.is_writable {
        Err(AirdropError::WritableRequired)
    } else if derived_check(marker, accounts[6].key) is Err {
        Err(AirdropError::DerivedAddressMismatch)
    } else if !payer.is_signer {
        Err(AirdropError::SignerRequired)
    } else if !payer.is_writable {
        Err(AirdropError::WritableRequired)
    } else if payer.owner != system_program() {
        Err(AirdropError::IllegalOwner)
    } else if !authority.is_signer {
        Err(AirdropError::SignerRequired)
    } else if config.admin != admin.key {
        Err(AirdropError::WrongAccountAddress)
    } else if config.revenue_wallet != revenue_wallet.key {
        Err(AirdropError::WrongAccountAddress)
    } else if !revenue_wallet.is_writable {
        Err(AirdropError::WritableRequired)
    } else {
        derived_check(marker, accounts[6].key)
    }
}

/// The checks of a mint, in order; the first that fails decides.
pub open spec fn mint_one_checks(
    program_id: Address,
    accounts: Seq<Account>,
    now: i64,
    marker: Option<(Address, u8)>,
) -> Result<u8, AirdropError> {
    match mint_one_collection_checks(program_id, accounts) {
        Err(e) => Err(e),
        Ok(config) => match mint_one_user_checks(program_id, accounts, now) {
            Err(e) => Err(e),
            Ok(_) => mint_one_party_checks(accounts, config, marker),
        },
    }
}

/// The outcome of a mint: the first failing check, or the plan.
pub open spec fn mint_one_outcome(
    program_id: Address,
    accounts: Seq<Account>,
    now: i64,
    lamports: u64,
    marker: Option<(Address, u8)>,
) -> Result<TransactionView, AirdropError> {
    match mint_one_checks(program_id, accounts, now, marker) {
        Err(e) => Err(e),
        Ok(bump) => mint_one_plan(accounts, now, lamports, bump),
    }
}

/// Whether a mint that passes its checks can be planned: the user has a
/// holding account address for the new token, and the user's counter has
/// room for one more mint.
pub open spec fn mint_request_in_range(accounts: Seq<Account>) -> bool {
    &&& associated_token_address(accounts[3].key, accounts[2].key) is Some
    &&& AirdropUserData::stored(accounts[1].data@) matches Ok(user_data) ==> user_data.mint_count
        < u64::MAX
}

/// Whether a registration can be carried through: where it passes its
/// checks, the user counter of the collection has room for one more user.
pub open spec fn registration_fits(
    program_id: Address,
    accounts: Seq<Account>,
    record: Option<(Address, u8)>,
) -> bool {
    initialize_airdrop_user_checks(program_id, accounts, record) is Ok ==> registration_in_range(
        accounts,
    )
}

/// Whether a mint can be carried through: where it passes its checks, it can
/// be planned.
pub open spec fn mint_fits(
    program_id: Address,
    accounts: Seq<Account>,
    now: i64,
    marker: Option<(Address, u8)>,
) -> bool {
    mint_one_checks(program_id, accounts, now, marker) is Ok ==> mint_request_in_range(accounts)
}

/// Whether a request can be carried through: it lists the accounts of its
/// operation and, where it passes the checks of the operation, the
/// operation can be planned.
pub open spec fn request_in_range(
    program_id: Address,
    accounts: Seq<Account>,
    instruction_data: Seq<u8>,
    host: HostParameters,
) -> bool {
    match decoded_instruction(instruction_data) {
        Err(_) => true,
        Ok(AirdropInstruction::InitializeAirdrop(_)) => accounts.len() >= INITIALIZE_ACCOUNTS,
        Ok(AirdropInstruction::InitializeAirdropUser(_)) => accounts.len() >= REGISTER_ACCOUNTS
            && registration_fits(
            program_id,
            accounts,
            user_data_address(accounts[2].key, accounts[1].key),
        ),
        Ok(AirdropInstruction::MintOne(_)) => accounts.len() >= MINT_ACCOUNTS && mint_fits(
            program_id,
            accounts,
            host.unix_timestamp,
            mint_authority_address(accounts[0].key),
        ),
    }
}

/// The outcome of a request.
pub open spec fn instruction_outcome(
    program_id: Address,
    accounts: Seq<Account>,
    instruction_data: Seq<u8>,
    host: HostParameters,
) -> Result<TransactionView, AirdropError> {
    match decoded_instruction(instruction_data) {
        Err(e) => Err(e),
        Ok(AirdropInstruction::InitializeAirdrop(args)) => initialize_airdrop_outcome(
            program_id,
            accounts,
            args,
            host.mint_authority_rent,
            mint_authority_address(accounts[0].key),
        ),
        Ok(AirdropInstruction::InitializeAirdropUser(_)) => initialize_airdrop_user_outcome(
            program_id,
            accounts,
            host.user_data_rent,
            user_data_address(accounts[2].key, accounts[1].key),
        ),
        Ok(AirdropInstruction::MintOne(_)) => mint_one_outcome(
            program_id,
            accounts,
            host.unix_timestamp,
            host.token_rent,
            mint_authority_address(accounts[0].key),
        ),
    }
}

/// Runs the checks of an initialization, given what the derivation gives
/// for the marker of the collection.
pub fn check_initialize_airdrop(
    program_id: &Address,
    accounts: &[Account],
    marker: Option<(Address, u8)>,
) -> (r: Result<u8, AirdropError>)
    requires
        accounts@.len() >= INITIALIZE_ACCOUNTS,
    ensures
        r == initialize_airdrop_checks(*program_id, accounts@, marker),
{
    let collection = &accounts[0];
    let fee_payer = &accounts[6];
    if let Err(e) = assert_writeable(collection) {
        return Err(e);
    }
    if let Err(e) = assert_owned_by(collection, program_id) {
        return Err(e);
    }
    let bump = match assert_derived(marker, &accounts[2].key) {
        Ok(bump) => bump,
        Err(e) => {
            return Err(e);
        },
    };
    if let Err(e) = assert_signer(fee_payer) {
        return Err(e);
    }
    Ok(bump)
}

/// Validates and plans an initialization, given what the derivation gives
/// for the marker of the collection.
pub fn initialize_airdrop_with_marker(
    program_id: &Address,
    accounts: &[Account],
    args: &InitializeAirdropArgs,
    lamports: u64,
    marker: Option<(Address, u8)>,
) -> (r: Result<Transaction, AirdropError>)
    requires
        accounts@.len() >= INITIALIZE_ACCOUNTS,
    ensures
        outcome_view(r) == initialize_airdrop_outcome(
            *program_id,
            accounts@,
            *args,
            lamports,
            marker,
        ),
{
    match check_initialize_airdrop(program_id, accounts, marker) {
        Ok(bump) => process_initialize_airdrop_logic(accounts, args, program_id, lamports, bump),
        Err(e) => Err(e),
    }
}

/// Validates and plans the initialization of a collection.
///
/// The collection account must be writable and owned by `program_id`, the
/// marker must stand at the address derived from the collection, the fee
/// payer must have signed, and the collection must not be initialized yet.
/// `lamports` is the balance that keeps the marker alive.
pub fn process_initialize_airdrop(
    program_id: &Address,
    accounts: &[Account],
    supply_cap: u64,
    metadata_uri_prefix: [u8; 32],
    symbol: [u8; 8],
    unit_price: u64,
    lamports: u64,
) -> (r: Result<Transaction, AirdropError>)
    requires
        accounts@.len() >= INITIALIZE_ACCOUNTS,
    ensures
        outcome_view(r) == initialize_airdrop_outcome(
            *program_id,
            accounts@,
            (InitializeAirdropArgs { supply_cap, metadata_uri_prefix, symbol, unit_price }),
            lamports,
            mint_authority_address(accounts@[0].key),
        ),
{
    let args = InitializeAirdropArgs { supply_cap, metadata_uri_prefix, symbol, unit_price };
    let marker = find_mint_authority(&accounts[0].key);
    initialize_airdrop_with_marker(program_id, accounts, &args, lamports, marker)
}

/// Runs the checks of a registration, given what the derivation gives for
/// the record of the user in the collection.
pub fn check_initialize_airdrop_user(
    program_id: &Address,
    accounts: &[Account],
    record: Option<(Address, u8)>,
) -> (r: Result<u8, AirdropError>)
    requires
        accounts@.len() >= REGISTER_ACCOUNTS,
    ensures
        r == initialize_airdrop_user_checks(*program_id, accounts@, record),
{
    let user_data = &accounts[0];
    let collection = &accounts[2];
    let fee_payer = &accounts[4];
    let bump = match assert_derived(record, &user_data.key) {
        Ok(bump) => bump,
        Err(e) => {
            return Err(e);
        },
    };
    if let Err(e) = assert_uninitialized(user_data) {
        return Err(e);
    }
    if let Err(e) = assert_writeable(user_data) {
        return Err(e);
    }
    if let Err(e) = assert_owned_by(collection, program_id) {
        return Err(e);
    }
    if let Err(e) = assert_writeable(collection) {
        return Err(e);
    }
    let config = match AirdropConfig::unpack_from_account(collection) {
        Ok(config) => config,
        Err(e) => {
            return Err(e);
        },
    };
    if let Err(e) = assert_initialized(config.is_initialized()) {
        return Err(e);
    }
    if let Err(e) = assert_signer(fee_payer) {
        return Err(e);
    }
    Ok(bump)
}

/// Validates and plans a registration, given what the derivation gives for
/// the record of the user in the collection.
pub fn initialize_airdrop_user_with_record(
    program_id: &Address,
    accounts: &[Account],
    lamports: u64,
    record: Option<(Address, u8)>,
) -> (r: Result<Transaction, AirdropError>)
    requires
        accounts@.len() >= REGISTER_ACCOUNTS,
        registration_fits(*program_id, accounts@, record),
    ensures
        outcome_view(r) == initialize_airdrop_user_outcome(
            *program_id,
            accounts@,
            lamports,
            record,
        ),
{
    match check_initialize_airdrop_user(program_id, accounts, record) {
        Ok(bump) => process_initialize_airdrop_user_account_logic(
            accounts,
            program_id,
            lamports,
            bump,
        ),
        Err(e) => Err(e),
    }
}

/// Validates and plans the registration of a user with a collection.
///
/// The user record must stand at the address derived from the collection
/// and the user, must not exist yet and must be writable; the collection
/// account must be owned by `program_id`, writable and initialized; the fee
/// payer must have signed. `lamports` is the balance that keeps the user
/// record alive.
pub fn process_initialize_airdrop_user(
    program_id: &Address,
    accounts: &[Account],
    lamports: u64,
) -> (r: Result<Transaction, AirdropError>)
    requires
        accounts@.len() >= REGISTER_ACCOUNTS,
        registration_fits(
            *program_id,
            accounts@,
            user_data_address(accounts@[2].key, accounts@[1].key),
        ),
    ensures
        outcome_view(r) == initialize_airdrop_user_outcome(
            *program_id,
            accounts@,
            lamports,
            user_data_address(accounts@[2].key, accounts@[1].key),
        ),
{
    let record = find_airdrop_user_data(&accounts[2].key, &accounts[1].key);
    initialize_airdrop_user_with_record(program_id, accounts, lamports, record)
}

/// Checks the collection account of a mint and reads its configuration.
fn check_mint_collection(program_id: &Address, accounts: &[Account]) -> (r: Result<
    AirdropConfig,
    AirdropError,
>)
    requires
        accounts@.len() >= MINT_ACCOUNTS,
    ensures
        r == mint_one_collection_checks(*program_id, accounts@),
{
    let collection = &accounts[0];
    if let Err(e) = assert_writeable(collection) {
        return Err(e);
    }
    if let Err(e) = assert_owned_by(collection, program_id) {
        return Err(e);
    }
    let config = match AirdropConfig::unpack_from_account(collection) {
        Ok(config) => config,
        Err(e) => {
            return Err(e);
        },
    };
    if let Err(e) = assert_initialized(config.is_initialized()) {
        return Err(e);
    }
    if config.issued_count >= config.supply_cap {
        return Err(AirdropError::OutOfSupply);
    }
    Ok(config)
}

/// Checks the user record of a mint and reads it.
fn check_mint_user(program_id: &Address, accounts: &[Account], now: i64) -> (r: Result<
    AirdropUserData,
    AirdropError,
>)
    requires
        accounts@.len() >= MINT_ACCOUNTS,
    ensures
        r == mint_one_user_checks(*program_id, accounts@, now),
{
    let record = &accounts[1];
    if let Err(e) = assert_writeable(record) {
        return Err(e);
    }
    if let Err(e) = assert_owned_by(record, program_id) {
        return Err(e);
    }
    let user_data = match AirdropUserData::unpack_from_account(record) {
        Ok(user_data) => user_data,
        Err(e) => {
            return Err(e);
        },
    };
    if let Err(e) = assert_initialized(user_data.is_initialized()) {
        return Err(e);
    }
    if !(user_data.user.same(&accounts[3].key) && user_data.collection.same(&accounts[0].key)) {
        return Err(AirdropError::InvalidAccountData);
    }
    if now < 0 || (now as u64) < user_data.cooldown_until {
        return Err(AirdropError::UserTimeout);
    }
    Ok(user_data)
}

/// Checks the other accounts of a mint.
fn check_mint_parties(
    accounts: &[Account],
    config: &AirdropConfig,
    marker: Option<(Address, u8)>,
) -> (r: Result<u8, AirdropError>)
    requires
        accounts@.len() >= MINT_ACCOUNTS,
    ensures
        r == mint_one_party_checks(accounts@, *config, marker),
{
    let mint = &accounts[2];
    let payer = &accounts[13];
    let revenue_wallet = &accounts[16];
    if let Err(e) = assert_signer(mint) {
        return Err(e);
    }
    if let Err(e) = assert_writeable(mint) {
        return Err(e);
    }
    if let Err(e) = assert_writeable(&accounts[4]) {
        return Err(e);
    }
    if let Err(e) = assert_writeable(&accounts[5]) {
        return Err(e);
    }
    let bump = match assert_derived(marker, &accounts[6].key) {
        Ok(bump) => bump,
        Err(e) => {
            return Err(e);
        },
    };
    if let Err(e) = assert_signer(payer) {
        return Err(e);
    }
    if let Err(e) = assert_writeable(payer) {
        return Err(e);
    }
    if let Err(e) = assert_owned_by(payer, &system_program_id()) {
        return Err(e);
    }
    if let Err(e) = assert_signer(&accounts[14]) {
        return Err(e);
    }
    if !config.admin.same(&accounts[15].key) {
        return Err(AirdropError::WrongAccountAddress);
    }
    if !config.revenue_wallet.same(&revenue_wallet.key) {
        return Err(AirdropError::WrongAccountAddress);
    }
    if let Err(e) = assert_writeable(revenue_wallet) {
        return Err(e);
    }
    Ok(bump)
}

/// Runs the checks of a mint, given what the derivation gives for the
/// marker of the collection.
pub fn check_mint_one(
    program_id: &Address,
    accounts: &[Account],
    now: i64,
    marker: Option<(Address, u8)>,
) -> (r: Result<u8, AirdropError>)
    requires
        accounts@.len() >= MINT_ACCOUNTS,
    ensures
        r == mint_one_checks(*program_id, accounts@, now, marker),
{
    let config = match check_mint_collection(program_id, accounts) {
        Ok(config) => config,
        Err(e) => {
            return Err(e);
        },
    };
    if let Err(e) = check_mint_user(program_id, accounts, now) {
        return Err(e);
    }
    check_mint_parties(accounts, &config, marker)
}

/// Validates and plans a mint, given what the derivation gives for the
/// marker of the collection.
pub fn mint_one_with_marker(
    program_id: &Address,
    accounts: &[Account],
    now: i64,
    lamports: u64,
    marker: Option<(Address, u8)>,
) -> (r: Result<Transaction, AirdropError>)
    requires
        accounts@.len() >= MINT_ACCOUNTS,
        mint_fits(*program_id, accounts@, now, marker),
    ensures
        outcome_view(r) == mint_one_outcome(*program_id, accounts@, now, lamports, marker),
{
    match check_mint_one(program_id, accounts, now, marker) {
        Ok(bump) => process_airdrop_one_logic(accounts, now, lamports, bump),
        Err(e) => Err(e),
    }
}

/// Validates and plans the mint of one unit to a registered user.
///
/// The collection account and the user record must be writable, owned by
/// `program_id` and initialized; the collection must have supply left; the
/// user record must belong to the collection and the user, and the user's
/// cooldown must have elapsed at the time `now`; the new token must have
/// signed and be writable; the holding account and the metadata account
/// must be writable; the marker must stand at the address derived from the
/// collection; the payer must have signed, be writable and be owned by the
/// system program; the airdrop authority must have signed; the admin and
/// the revenue wallet must be those of the collection, and the revenue
/// wallet writable. `lamports` is the balance that keeps the account of the
/// new token alive.
pub fn process_mint_one(program_id: &Address, accounts: &[Account], now: i64, lamports: u64) -> (r:
    Result<Transaction, AirdropError>)
    requires
        accounts@.len() >= MINT_ACCOUNTS,
        mint_fits(*program_id, accounts@, now, mint_authority_address(accounts@[0].key)),
    ensures
        outcome_view(r) == mint_one_outcome(
            *program_id,
            accounts@,
            now,
            lamports,
            mint_authority_address(accounts@[0].key),
        ),
{
    let marker = find_mint_authority(&accounts[0].key);
    mint_one_with_marker(program_id, accounts, now, lamports, marker)
}

/// Whether a registration that passes its checks can be planned.
fn registration_has_room(accounts: &[Account]) -> (b: bool)
    requires
        accounts@.len() >= REGISTER_ACCOUNTS,
    ensures
        b == registration_in_range(accounts@),
{
    match AirdropConfig::unpack_from_account(&accounts[2]) {
        Ok(config) => config.registered_users < u64::MAX,
        Err(_) => true,
    }
}

/// Whether a mint that passes its checks can be planned.
fn mint_has_room(accounts: &[Account]) -> (b: bool)
    requires
        accounts@.len() >= MINT_ACCOUNTS,
    ensures
        b == mint_request_in_range(accounts@),
{
    let counted = match AirdropUserData::unpack_from_account(&accounts[1]) {
        Ok(user_data) => user_data.mint_count < u64::MAX,
        Err(_) => true,
    };
    counted && find_associated_token_address(&accounts[3].key, &accounts[2].key).is_some()
}

/// Tells whether a request can be carried through: what
/// `process_instruction` asks of its caller.
pub fn request_fits(
    program_id: &Address,
    accounts: &[Account],
    instruction_data: &[u8],
    host: &HostParameters,
) -> (fits: bool)
    ensures
        fits == request_in_range(*program_id, accounts@, instruction_data@, *host),
{
    match deserialize_instruction_data(instruction_data) {
        Err(_) => true,
        Ok(AirdropInstruction::InitializeAirdrop(_)) => accounts.len() >= INITIALIZE_ACCOUNTS,
        Ok(AirdropInstruction::InitializeAirdropUser(_)) => {
            if accounts.len() < REGISTER_ACCOUNTS {
                false
            } else if registration_has_room(accounts) {
                true
            } else {
                let record = find_airdrop_user_data(&accounts[2].key, &accounts[1].key);
                check_initialize_airdrop_user(program_id, accounts, record).is_err()
            }
        },
        Ok(AirdropInstruction::MintOne(_)) => {
            if accounts.len() < MINT_ACCOUNTS {
                false
            } else if mint_has_room(accounts) {
                true
            } else {
                let marker = find_mint_authority(&accounts[0].key);
                check_mint_one(program_id, accounts, host.unix_timestamp, marker).is_err()
            }
        },
    }
}

/// Decodes a request and validates and plans its operation.
pub fn process_instruction(
    program_id: &Address,
    accounts: &[Account],
    instruction_data: &[u8],
    host: &HostParameters,
) -> (r: Result<Transaction, AirdropError>)
    requires
        request_in_range(*program_id, accounts@, instruction_data@, *host),
    ensures
        outcome_view(r) == instruction_outcome(*program_id, accounts@, instruction_data@, *host),
{
    match deserialize_instruction_data(instruction_data) {
        Err(e) => Err(e),
        Ok(AirdropInstruction::InitializeAirdrop(args)) => process_initialize_airdrop(
            program_id,
            accounts,
            args.supply_cap,
            args.metadata_uri_prefix,
            args.symbol,
            args.unit_price,
            host.mint_authority_rent,
        ),
        Ok(AirdropInstruction::InitializeAirdropUser(_)) => process_initialize_airdrop_user(
            program_id,
            accounts,
            host.user_data_rent,
        ),
        Ok(AirdropInstruction::MintOne(_)) => process_mint_one(
            program_id,
            accounts,
            host.unix_timestamp,
            host.token_rent,
        ),
    }
}

/// Decodes a request and validates and plans its operation, for any
/// request: `None` where the request cannot be carried through, which is
/// where it lists too few accounts, or passes every check of its operation
/// and then finds a counter at its end or no holding account address.
pub fn try_process_instruction(
    program_id: &Address,
    accounts: &[Account],
    instruction_data: &[u8],
    host: &HostParameters,
) -> (r: Option<Result<Transaction, AirdropError>>)
    ensures
        r is Some <==> request_in_range(*program_id, accounts@, instruction_data@, *host),
        r matches Some(outcome) ==> outcome_view(outcome) == instruction_outcome(
            *program_id,
            accounts@,
            instruction_data@,
            *host,
        ),
{
    if request_fits(program_id, accounts, instruction_data, host) {
        Some(process_instruction(program_id, accounts, instruction_data, host))
    } else {
        None
    }
}

} // verus!
