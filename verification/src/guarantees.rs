//! What holds of the operations taken together.

use vstd::prelude::*;
use crate::account::Account;
use crate::address::Address;
use crate::error::AirdropError;
use crate::instruction::{decoded_instruction, AirdropInstruction, InitializeAirdropArgs};
use crate::processor::{derived_check, instruction_outcome, request_in_range, HostParameters};
use crate::processor::{initialize_airdrop_checks, initialize_airdrop_outcome};
use crate::processor::initialize_airdrop_user_outcome;
use crate::processor::{mint_fits, mint_one_collection_checks};
use crate::processor::{mint_one_outcome, mint_one_user_checks};
use crate::service::create_account_instruction;
use crate::state::{lemma_config_round_trip, lemma_user_data_packed_len};
use crate::state::{AirdropConfig, AirdropUserData};
use crate::transaction::{data_after, record_bytes, written};
use crate::transaction::{AccountWrite, Record, TransactionView};
use crate::util::{initial_config, initial_user_data, COOLDOWN_SECONDS};

verus! {

/// Whether every configuration that the accounts store respects its supply
/// cap.
pub open spec fn supply_respected(accounts: Seq<Account>) -> bool {
    forall|j: int|
        0 <= j < accounts.len() ==> (AirdropConfig::stored(#[trigger] accounts[j].data@) matches Ok(
            config,
        ) ==> config.within_supply())
}

/// Whether every configuration that the transaction writes respects its
/// supply cap.
pub open spec fn writes_respect_supply(transaction: TransactionView) -> bool {
    forall|i: int|
        0 <= i < transaction.writes.len() ==> (#[trigger] transaction.writes[i].record matches Record::Config(
            config,
        ) ==> config.within_supply())
}

/// An accepted initialization writes a configuration with nothing issued,
/// which is within every supply cap, and a collection account that holds
/// what was written cannot be initialized again: every later attempt fails,
/// with `AlreadyInitialized` once its own checks of the accounts pass.
pub proof fn lemma_initialize_once(
    program_id: Address,
    accounts: Seq<Account>,
    args: InitializeAirdropArgs,
    lamports: u64,
    marker: Option<(Address, u8)>,
    later_program_id: Address,
    later_accounts: Seq<Account>,
    later_args: InitializeAirdropArgs,
    later_lamports: u64,
    later_marker: Option<(Address, u8)>,
)
    requires
        initialize_airdrop_outcome(program_id, accounts, args, lamports, marker) is Ok,
        later_accounts[0].data@ == data_after(
            initialize_airdrop_outcome(program_id, accounts, args, lamports, marker)->Ok_0.writes,
            0,
            accounts[0].data@,
        ),
    ensures
        initialize_airdrop_outcome(program_id, accounts, args, lamports, marker)->Ok_0.writes
            == seq![
            AccountWrite {
                account: 0,
                record: Record::Config(
                    initial_config(args, accounts[1].key, accounts[3].key, accounts[4].key),
                ),
            },
        ],
        initial_config(args, accounts[1].key, accounts[3].key, accounts[4].key).issued_count == 0,
        initial_config(args, accounts[1].key, accounts[3].key, accounts[4].key).within_supply(),
        initialize_airdrop_outcome(
            later_program_id,
            later_accounts,
            later_args,
            later_lamports,
            later_marker,
        ) is Err,
        initialize_airdrop_checks(later_program_id, later_accounts, later_marker) is Ok
            ==> initialize_airdrop_outcome(
            later_program_id,
            later_accounts,
            later_args,
            later_lamports,
            later_marker,
        ) == Err::<TransactionView, AirdropError>(AirdropError::AlreadyInitialized),
{
    let written = initial_config(args, accounts[1].key, accounts[3].key, accounts[4].key);
    lemma_config_round_trip(written);
}

/// A user record is created only at the address derived from its collection
/// and its user, and an address that is occupied already is never
/// registered again: the attempt fails, with `AlreadyInitialized` where the
/// address is the derived one.
pub proof fn lemma_register_once(
    program_id: Address,
    accounts: Seq<Account>,
    lamports: u64,
    record: Option<(Address, u8)>,
)
    ensures
        initialize_airdrop_user_outcome(program_id, accounts, lamports, record) matches Ok(
            transaction,
        ) ==> {
            &&& record matches Some((address, _bump))
            &&& address == accounts[0].key
            &&& accounts[0].lamports == 0
            &&& transaction.invocations[0].instruction == create_account_instruction(
                accounts[4].key,
                address,
                lamports,
                AirdropUserData::LEN as u64,
                program_id,
            )
            &&& transaction.writes[0] == (AccountWrite {
                account: 0,
                record: Record::UserData(initial_user_data(accounts[2].key, accounts[1].key)),
            })
        },
        accounts[0].lamports > 0 ==> initialize_airdrop_user_outcome(
            program_id,
            accounts,
            lamports,
            record,
        ) is Err,
        accounts[0].lamports > 0 && derived_check(record, accounts[0].key) is Ok
            ==> initialize_airdrop_user_outcome(program_id, accounts, lamports, record) == Err::<
            TransactionView,
            AirdropError,
        >(AirdropError::AlreadyInitialized),
{
}

/// A mint fails with `OutOfSupply` exactly when the collection account
/// passes the checks that come before and nothing is left of the supply;
/// for a configuration that respects its cap, that is when the issued count
/// equals the cap.
pub proof fn lemma_out_of_supply(
    program_id: Address,
    accounts: Seq<Account>,
    now: i64,
    lamports: u64,
    marker: Option<(Address, u8)>,
)
    ensures
        mint_one_outcome(program_id, accounts, now, lamports, marker) == Err::<
            TransactionView,
            AirdropError,
        >(AirdropError::OutOfSupply) <==> {
            &&& accounts[0].is_writable
            &&& accounts[0].owner == program_id
            &&& AirdropConfig::stored(accounts[0].data@) matches Ok(config)
            &&& config.initialized
            &&& config.issued_count >= config.supply_cap
        },
        AirdropConfig::stored(accounts[0].data@) matches Ok(config) ==> (config.within_supply() ==> (
        mint_one_outcome(program_id, accounts, now, lamports, marker) == Err::<
            TransactionView,
            AirdropError,
        >(AirdropError::OutOfSupply) <==> {
            &&& accounts[0].is_writable
            &&& accounts[0].owner == program_id
            &&& config.initialized
            &&& config.issued_count == config.supply_cap
        })),
{
}

/// Whatever a request writes respects the supply cap, if what it read did:
/// a collection starts with nothing issued, a registration leaves the issued
/// count alone, and a mint adds one only below the cap.
pub proof fn lemma_supply_preserved(
    program_id: Address,
    accounts: Seq<Account>,
    instruction_data: Seq<u8>,
    host: HostParameters,
)
    requires
        request_in_range(program_id, accounts, instruction_data, host),
        supply_respected(accounts),
        instruction_outcome(program_id, accounts, instruction_data, host) is Ok,
    ensures
        writes_respect_supply(
            instruction_outcome(program_id, accounts, instruction_data, host)->Ok_0,
        ),
{
    let transaction = instruction_outcome(program_id, accounts, instruction_data, host)->Ok_0;
    assert forall|i: int| 0 <= i < transaction.writes.len() implies (
    #[trigger] transaction.writes[i].record matches Record::Config(config)
        ==> config.within_supply()) by {
        match decoded_instruction(instruction_data) {
            Ok(AirdropInstruction::InitializeAirdropUser(_)) => {
                assert(AirdropConfig::stored(accounts[2].data@) matches Ok(config)
                    ==> config.within_supply());
            },
            _ => {
                assert(AirdropConfig::stored(accounts[0].data@) matches Ok(config)
                    ==> config.within_supply());
            },
        }
    }
}

/// After the writes, an account holds what it held before or what one of
/// the writes stored.
pub proof fn lemma_data_after(writes: Seq<AccountWrite>, account: int, before: Seq<u8>)
    ensures
        data_after(writes, account, before) == before || exists|i: int|
            0 <= i < writes.len() && data_after(writes, account, before) == record_bytes(
                #[trigger] writes[i].record,
            ),
    decreases writes.len(),
{
    if writes.len() > 0 {
        if writes.last().account == account {
            assert(data_after(writes, account, before) == record_bytes(
                writes[writes.len() - 1].record,
            ));
        } else {
            lemma_data_after(writes.drop_last(), account, before);
            if data_after(writes, account, before) != before {
                let i = choose|i: int|
                    0 <= i < writes.drop_last().len() && data_after(
                        writes.drop_last(),
                        account,
                        before,
                    ) == record_bytes(#[trigger] writes.drop_last()[i].record);
                assert(writes[i] == writes.drop_last()[i]);
            }
        }
    }
}

/// The supply cap is respected in every state that the program reaches:
/// where the accounts respect it before a transaction whose writes respect
/// it, they respect it after the commit.
pub proof fn lemma_commit_keeps_supply(
    before: Seq<Account>,
    transaction: TransactionView,
    after: Seq<Account>,
)
    requires
        supply_respected(before),
        writes_respect_supply(transaction),
        written(before, transaction.writes, after),
    ensures
        supply_respected(after),
{
    assert forall|j: int| 0 <= j < after.len() implies (AirdropConfig::stored(
        #[trigger] after[j].data@,
    ) matches Ok(config) ==> config.within_supply()) by {
        let data = data_after(transaction.writes, j, before[j].data@);
        assert(after[j]@.data == data);
        lemma_data_after(transaction.writes, j, before[j].data@);
        if data == before[j].data@ {
            assert(AirdropConfig::stored(before[j].data@) matches Ok(config)
                ==> config.within_supply());
        } else {
            let i = choose|i: int|
                0 <= i < transaction.writes.len() && data == record_bytes(
                    #[trigger] transaction.writes[i].record,
                );
            match transaction.writes[i].record {
                Record::Config(config) => {
                    lemma_config_round_trip(config);
                },
                Record::UserData(user_data) => {
                    lemma_user_data_packed_len(user_data);
                },
            }
        }
    }
}

/// A mint fails with `UserTimeout` exactly when the checks that come before
/// pass and the time is earlier than the end of the user's cooldown. An
/// accepted mint adds one to both counters and ends the next cooldown
/// exactly 21600 seconds after the time of the mint.
pub proof fn lemma_cooldown(
    program_id: Address,
    accounts: Seq<Account>,
    now: i64,
    lamports: u64,
    marker: Option<(Address, u8)>,
)
    requires
        mint_fits(program_id, accounts, now, marker),
    ensures
        mint_one_outcome(program_id, accounts, now, lamports, marker) == Err::<
            TransactionView,
            AirdropError,
        >(AirdropError::UserTimeout) <==> {
            &&& mint_one_collection_checks(program_id, accounts) is Ok
            &&& accounts[1].is_writable
            &&& accounts[1].owner == program_id
            &&& AirdropUserData::stored(accounts[1].data@) matches Ok(user_data)
            &&& user_data.initialized
            &&& user_data.user == accounts[3].key
            &&& user_data.collection == accounts[0].key
            &&& now < user_data.cooldown_until
        },
        mint_one_outcome(program_id, accounts, now, lamports, marker) matches Ok(transaction) ==> {
            &&& AirdropConfig::stored(accounts[0].data@) matches Ok(config)
            &&& AirdropUserData::stored(accounts[1].data@) matches Ok(user_data)
            &&& now >= user_data.cooldown_until
            &&& transaction.writes.len() == 2
            &&& transaction.writes[0].account == 0
            &&& transaction.writes[0].record matches Record::Config(next)
            &&& next.issued_count == config.issued_count + 1
            &&& next.issued_count <= next.supply_cap
            &&& transaction.writes[1].account == 1
            &&& transaction.writes[1].record matches Record::UserData(next_user_data)
            &&& next_user_data.mint_count == user_data.mint_count + 1
            &&& next_user_data.cooldown_until == now + COOLDOWN_SECONDS
        },
{
}

/// A marker or a user record that does not stand at its derived address is
/// never accepted, whatever the bump: a registration fails with
/// `DerivedAddressMismatch` at once, an initialization and a mint fail, and
/// with `DerivedAddressMismatch` where the checks that come before pass.
pub proof fn lemma_derived_address_enforced(
    program_id: Address,
    accounts: Seq<Account>,
    args: InitializeAirdropArgs,
    now: i64,
    lamports: u64,
    derived: Option<(Address, u8)>,
)
    ensures
        derived_check(derived, accounts[0].key) is Err ==> initialize_airdrop_user_outcome(
            program_id,
            accounts,
            lamports,
            derived,
        ) == Err::<TransactionView, AirdropError>(AirdropError::DerivedAddressMismatch),
        derived_check(derived, accounts[2].key) is Err ==> initialize_airdrop_outcome(
            program_id,
            accounts,
            args,
            lamports,
            derived,
        ) is Err,
        derived_check(derived, accounts[2].key) is Err && accounts[0].is_writable
            && accounts[0].owner == program_id ==> initialize_airdrop_outcome(
            program_id,
            accounts,
            args,
            lamports,
            derived,
        ) == Err::<TransactionView, AirdropError>(AirdropError::DerivedAddressMismatch),
        derived_check(derived, accounts[6].key) is Err ==> mint_one_outcome(
            program_id,
            accounts,
            now,
            lamports,
            derived,
        ) is Err,
        derived_check(derived, accounts[6].key) is Err && mint_one_collection_checks(
            program_id,
            accounts,
        ) is Ok && mint_one_user_checks(program_id, accounts, now) is Ok && accounts[2].is_signer
            && accounts[2].is_writable && accounts[4].is_writable && accounts[5].is_writable
            ==> mint_one_outcome(program_id, accounts, now, lamports, derived) == Err::<
            TransactionView,
            AirdropError,
        >(AirdropError::DerivedAddressMismatch),
        derived matches Some((address, bump)) ==> (derived_check(derived, accounts[0].key) is Err
            <==> address != accounts[0].key),
{
}

} // verus!
