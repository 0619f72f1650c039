//! The state transition of each operation, planned from accounts that have
//! passed validation.

use vstd::prelude::*;
use crate::account::Account;
use crate::address::Address;
use crate::error::AirdropError;
use crate::instruction::InitializeAirdropArgs;
use crate::pda::{mint_authority_signer, mint_authority_signer_seeds};
use crate::pda::{user_data_signer, user_data_signer_seeds};
use crate::service::associated_token_address;
use crate::service::{create_account, create_account_instruction};
use crate::service::{create_associated_token_account, create_associated_token_account_instruction};
use crate::service::{create_metadata_accounts, create_metadata_instruction};
use crate::service::{initialize_mint, initialize_mint_instruction};
use crate::service::{metadata_program, metadata_program_id};
use crate::service::{mint_to, mint_to_instruction};
use crate::service::{set_mint_authority, set_mint_authority_instruction};
use crate::service::{token_account_len, token_program, token_program_id, TOKEN_ACCOUNT_LEN};
use crate::service::{transfer, transfer_instruction};
use crate::service::{update_metadata_accounts, update_metadata_instruction};
use crate::service::{Creator, Instruction};
use crate::state::{AirdropConfig, AirdropUserData, MintAuthority};
use crate::text::{before_nul, lemma_nul_terminated_len, nul_terminated_text};
use crate::text::{str_from_u8_nul_utf8, token_name, token_name_text, token_uri, token_uri_text};
use crate::transaction::{outcome_view, AccountWrite, Invocation, InvocationView, Record};
use crate::transaction::{Transaction, TransactionView};
use vstd::utf8::valid_utf8;

verus! {

/// Number of accounts of a request that initializes a collection.
pub const INITIALIZE_ACCOUNTS: usize = 7;

/// Number of accounts of a request that registers a user.
pub const REGISTER_ACCOUNTS: usize = 5;

/// Number of accounts of a request that mints.
pub const MINT_ACCOUNTS: usize = 17;

/// Seconds that a user has to wait after a mint.
pub const COOLDOWN_SECONDS: u64 = 21600;

/// The configuration of a collection that has just been initialized: nothing
/// issued, nobody registered.
pub open spec fn initial_config(
    args: InitializeAirdropArgs,
    authority: Address,
    revenue_wallet: Address,
    admin: Address,
) -> AirdropConfig {
    AirdropConfig {
        initialized: true,
        authority,
        issued_count: 0,
        supply_cap: args.supply_cap,
        metadata_uri_prefix: args.metadata_uri_prefix,
        symbol: args.symbol,
        registered_users: 0,
        revenue_wallet,
        admin,
        unit_price: args.unit_price,
    }
}

/// The record of a user who has just been registered.
pub open spec fn initial_user_data(collection: Address, user: Address) -> AirdropUserData {
    AirdropUserData { initialized: true, collection, user, mint_count: 0, cooldown_until: 0 }
}

/// What initializing a collection asks of the host, or why it is refused:
/// the collection account must hold a configuration that is not initialized
/// yet. The marker is created first, in its own name, and the configuration
/// is written after that.
pub open spec fn initialize_airdrop_plan(
    accounts: Seq<Account>,
    args: InitializeAirdropArgs,
    program_id: Address,
    lamports: u64,
    mint_authority_bump: u8,
) -> Result<TransactionView, AirdropError> {
    let collection = accounts[0];
    let marker = accounts[2];
    let fee_payer = accounts[6];
    match AirdropConfig::stored(collection.data@) {
        Err(e) => Err(e),
        Ok(config) => if config.initialized {
            Err(AirdropError::AlreadyInitialized)
        } else {
            Ok(
                TransactionView {
                    invocations: seq![
                        InvocationView {
                            instruction: create_account_instruction(
                                fee_payer.key,
                                marker.key,
                                lamports,
                                MintAuthority::LEN as u64,
                                program_id,
                            ),
                            accounts: seq![6usize, 2usize],
                            signer_seeds: mint_authority_signer(
                                collection.key,
                                mint_authority_bump,
                            ),
                        },
                    ],
                    writes: seq![
                        AccountWrite {
                            account: 0,
                            record: Record::Config(
                                initial_config(
                                    args,
                                    accounts[1].key,
                                    accounts[3].key,
                                    accounts[4].key,
                                ),
                            ),
                        },
                    ],
                },
            )
        },
    }
}

/// What registering a user asks of the host, or why it is refused: the
/// collection account must hold a configuration. The user record is created
/// in its own name, then written, and the collection counts one more user.
pub open spec fn initialize_airdrop_user_plan(
    accounts: Seq<Account>,
    program_id: Address,
    lamports: u64,
    user_data_bump: u8,
) -> Result<TransactionView, AirdropError> {
    let user_data = accounts[0];
    let user = accounts[1];
    let collection = accounts[2];
    let fee_payer = accounts[4];
    match AirdropConfig::stored(collection.data@) {
        Err(e) => Err(e),
        Ok(config) => Ok(
            TransactionView {
                invocations: seq![
                    InvocationView {
                        instruction: create_account_instruction(
                            fee_payer.key,
                            user_data.key,
                            lamports,
                            AirdropUserData::LEN as u64,
                            program_id,
                        ),
                        accounts: seq![4usize, 0usize],
                        signer_seeds: user_data_signer(collection.key, user.key, user_data_bump),
                    },
                ],
                writes: seq![
                    AccountWrite {
                        account: 0,
                        record: Record::UserData(initial_user_data(collection.key, user.key)),
                    },
                    AccountWrite {
                        account: 2,
                        record: Record::Config(
                            AirdropConfig {
                                registered_users: (config.registered_users + 1) as u64,
                                ..config
                            },
                        ),
                    },
                ],
            },
        ),
    }
}

/// Whether registering a user stays within the range of the user counter.
pub open spec fn registration_in_range(accounts: Seq<Account>) -> bool {
    AirdropConfig::stored(accounts[2].data@) matches Ok(config) ==> config.registered_users
        < u64::MAX
}

/// Royalty on later sales of a token, in hundredths of a percent.
pub const SELLER_FEE_BASIS_POINTS: u16 = 1000;

impl AirdropConfig {
    /// The configuration after one more unit has been issued.
    pub open spec fn after_mint(self) -> AirdropConfig {
        AirdropConfig { issued_count: (self.issued_count + 1) as u64, ..self }
    }
}

impl AirdropUserData {
    /// The record after the user has received one more unit at the time
    /// `now`: the cooldown ends six hours later.
    pub open spec fn after_mint(self, now: i64) -> AirdropUserData {
        AirdropUserData {
            mint_count: (self.mint_count + 1) as u64,
            cooldown_until: (now + COOLDOWN_SECONDS) as u64,
            ..self
        }
    }
}

/// The creators of every token: the marker, verified and without a share,
/// and the revenue wallet, unverified and with all of the royalties.
pub open spec fn token_creators(marker: Address, revenue_wallet: Address) -> Seq<Creator> {
    seq![
        Creator { address: marker, verified: true, share: 0 },
        Creator { address: revenue_wallet, verified: false, share: 100 },
    ]
}

/// The invocations of a mint, in order: create the token's account, make it
/// a token without decimal places whose minting authority is the marker,
/// create the user's holding account, register the metadata, mint one unit,
/// hand the metadata to the admin with its sale marked, give up the
/// authority to mint, and pay the price to the revenue wallet. The marker
/// signs for what is done in its name.
pub open spec fn mint_one_invocations(
    accounts: Seq<Account>,
    config: AirdropConfig,
    lamports: u64,
    mint_authority_bump: u8,
) -> Seq<InvocationView> {
    let collection = accounts[0].key;
    let mint = accounts[2].key;
    let user = accounts[3].key;
    let user_token = accounts[4].key;
    let metadata = accounts[5].key;
    let marker = accounts[6].key;
    let payer = accounts[13].key;
    let admin = accounts[15].key;
    let revenue_wallet = accounts[16].key;
    let signer = mint_authority_signer(collection, mint_authority_bump);
    let symbol = nul_terminated_text(config.symbol@);
    let prefix = nul_terminated_text(config.metadata_uri_prefix@);
    seq![
        InvocationView {
            instruction: create_account_instruction(
                payer,
                mint,
                lamports,
                TOKEN_ACCOUNT_LEN,
                token_program(),
            ),
            accounts: seq![13usize, 2usize],
            signer_seeds: Seq::empty(),
        },
        InvocationView {
            instruction: initialize_mint_instruction(mint, marker, None, 0),
            accounts: seq![2usize, 9usize],
            signer_seeds: Seq::empty(),
        },
        InvocationView {
            instruction: create_associated_token_account_instruction(payer, user, mint),
            accounts: seq![13usize, 4usize, 3usize, 2usize, 7usize, 10usize],
            signer_seeds: Seq::empty(),
        },
        InvocationView {
            instruction: create_metadata_instruction(
                metadata_program(),
                metadata,
                mint,
                marker,
                payer,
                marker,
                token_name_text(symbol, config.issued_count),
                symbol,
                token_uri_text(prefix, config.issued_count),
                token_creators(marker, revenue_wallet),
                SELLER_FEE_BASIS_POINTS,
                false,
                true,
            ),
            accounts: seq![5usize, 2usize, 6usize, 13usize, 6usize, 7usize, 9usize],
            signer_seeds: signer,
        },
        InvocationView {
            instruction: mint_to_instruction(mint, user_token, marker, 1),
            accounts: seq![2usize, 4usize, 6usize],
            signer_seeds: signer,
        },
        InvocationView {
            instruction: update_metadata_instruction(
                metadata_program(),
                metadata,
                marker,
                Some(admin),
                Some(true),
            ),
            accounts: seq![5usize, 6usize],
            signer_seeds: signer,
        },
        InvocationView {
            instruction: set_mint_authority_instruction(mint, None, marker),
            accounts: seq![2usize, 6usize],
            signer_seeds: signer,
        },
        InvocationView {
            instruction: transfer_instruction(payer, revenue_wallet, config.unit_price),
            accounts: seq![13usize, 16usize],
            signer_seeds: Seq::empty(),
        },
    ]
}

/// What a mint asks of the host, or why it is refused. The collection
/// account must hold a configuration whose symbol and prefix are text, and
/// the user record account must hold a user record. The counters and the
/// cooldown are written after the last invocation.
pub open spec fn mint_one_plan(
    accounts: Seq<Account>,
    now: i64,
    lamports: u64,
    mint_authority_bump: u8,
) -> Result<TransactionView, AirdropError> {
    match AirdropConfig::stored(accounts[0].data@) {
        Err(e) => Err(e),
        Ok(config) => if !valid_utf8(before_nul(config.symbol@)) || !valid_utf8(
            before_nul(config.metadata_uri_prefix@),
        ) {
            Err(AirdropError::InvalidAccountData)
        } else {
            match AirdropUserData::stored(accounts[1].data@) {
                Err(e) => Err(e),
                Ok(user_data) => Ok(
                    TransactionView {
                        invocations: mint_one_invocations(
                            accounts,
                            config,
                            lamports,
                            mint_authority_bump,
                        ),
                        writes: seq![
                            AccountWrite { account: 0, record: Record::Config(config.after_mint()) },
                            AccountWrite {
                                account: 1,
                                record: Record::UserData(user_data.after_mint(now)),
                            },
                        ],
                    },
                ),
            }
        },
    }
}

/// Whether a mint at the time `now` can be planned: the user has a holding
/// account address for the new token, and the counters and the clock have
/// room for one more mint.
pub open spec fn mint_in_range(accounts: Seq<Account>, now: i64) -> bool {
    &&& associated_token_address(accounts[3].key, accounts[2].key) is Some
    &&& now + COOLDOWN_SECONDS >= 0
    &&& AirdropConfig::stored(accounts[0].data@) matches Ok(config) ==> config.issued_count
        < u64::MAX
    &&& AirdropUserData::stored(accounts[1].data@) matches Ok(user_data) ==> user_data.mint_count
        < u64::MAX
}

/// An invocation with the given parts.
fn invocation(instruction: Instruction, accounts: Vec<usize>, signer_seeds: Vec<Vec<u8>>) -> (call:
    Invocation)
    ensures
        call@ == (InvocationView {
            instruction: instruction@,
            accounts: accounts@,
            signer_seeds: signer_seeds.deep_view(),
        }),
{
    Invocation { instruction, accounts, signer_seeds }
}

/// An invocation that the signers of the request authorize.
fn plain_invocation(instruction: Instruction, accounts: Vec<usize>) -> (call: Invocation)
    ensures
        call@ == (InvocationView {
            instruction: instruction@,
            accounts: accounts@,
            signer_seeds: Seq::empty(),
        }),
{
    let signer_seeds: Vec<Vec<u8>> = Vec::new();
    assert(signer_seeds.deep_view() =~~= Seq::<Seq<u8>>::empty());
    Invocation { instruction, accounts, signer_seeds }
}

/// Plans the initialization of a collection from the accounts of the
/// request, the arguments, the balance that keeps the marker alive and the
/// bump of the marker's address. Fails when the collection account holds no
/// configuration or an initialized one.
pub fn process_initialize_airdrop_logic(
    accounts: &[Account],
    args: &InitializeAirdropArgs,
    program_id: &Address,
    lamports: u64,
    mint_authority_bump: u8,
) -> (r: Result<Transaction, AirdropError>)
    requires
        accounts@.len() >= INITIALIZE_ACCOUNTS,
    ensures
        outcome_view(r) == initialize_airdrop_plan(
            accounts@,
            *args,
            *program_id,
            lamports,
            mint_authority_bump,
        ),
{
    let collection = &accounts[0];
    let marker = &accounts[2];
    let fee_payer = &accounts[6];
    let stored = match AirdropConfig::unpack_from_account(collection) {
        Ok(config) => config,
        Err(e) => {
            return Err(e);
        },
    };
    if stored.is_initialized() {
        return Err(AirdropError::AlreadyInitialized);
    }
    let config = AirdropConfig {
        initialized: true,
        authority: accounts[1].key,
        issued_count: 0,
        supply_cap: args.supply_cap,
        metadata_uri_prefix: args.metadata_uri_prefix,
        symbol: args.symbol,
        registered_users: 0,
        revenue_wallet: accounts[3].key,
        admin: accounts[4].key,
        unit_price: args.unit_price,
    };
    let create = invocation(
        create_account(
            &fee_payer.key,
            &marker.key,
            lamports,
            MintAuthority::LEN as u64,
            program_id,
        ),
        vec![6usize, 2usize],
        mint_authority_signer_seeds(&collection.key, mint_authority_bump),
    );
    let transaction = Transaction {
        invocations: vec![create],
        writes: vec![AccountWrite { account: 0, record: Record::Config(config) }],
    };
    proof {
        let plan = initialize_airdrop_plan(
            accounts@,
            *args,
            *program_id,
            lamports,
            mint_authority_bump,
        );
        assert(transaction@.invocations =~= plan->Ok_0.invocations);
        assert(transaction@.writes =~= plan->Ok_0.writes);
    }
    Ok(transaction)
}

/// Plans the registration of a user from the accounts of the request, the
/// balance that keeps the user record alive and the bump of the record's
/// address. Fails when the collection account holds no configuration.
pub fn process_initialize_airdrop_user_account_logic(
    accounts: &[Account],
    program_id: &Address,
    lamports: u64,
    user_data_bump: u8,
) -> (r: Result<Transaction, AirdropError>)
    requires
        accounts@.len() >= REGISTER_ACCOUNTS,
        registration_in_range(accounts@),
    ensures
        outcome_view(r) == initialize_airdrop_user_plan(
            accounts@,
            *program_id,
            lamports,
            user_data_bump,
        ),
{
    let user_data = &accounts[0];
    let user = &accounts[1];
    let collection = &accounts[2];
    let fee_payer = &accounts[4];
    let create = invocation(
        create_account(
            &fee_payer.key,
            &user_data.key,
            lamports,
            AirdropUserData::LEN as u64,
            program_id,
        ),
        vec![4usize, 0usize],
        user_data_signer_seeds(&collection.key, &user.key, user_data_bump),
    );
    let record = AirdropUserData {
        initialized: true,
        collection: collection.key,
        user: user.key,
        mint_count: 0,
        cooldown_until: 0,
    };
    let mut config = match AirdropConfig::unpack_from_account(collection) {
        Ok(config) => config,
        Err(e) => {
            return Err(e);
        },
    };
    config.registered_users = config.registered_users + 1;
    let transaction = Transaction {
        invocations: vec![create],
        writes: vec![
            AccountWrite { account: 0, record: Record::UserData(record) },
            AccountWrite { account: 2, record: Record::Config(config) },
        ],
    };
    proof {
        let plan = initialize_airdrop_user_plan(accounts@, *program_id, lamports, user_data_bump);
        assert(transaction@.invocations =~= plan->Ok_0.invocations);
        assert(transaction@.writes =~= plan->Ok_0.writes);
    }
    Ok(transaction)
}

/// Plans a mint from the accounts of the request, the time, the balance
/// that keeps the new token's account alive and the bump of the marker's
/// address. Fails with `InvalidAccountData` when the symbol or the prefix of
/// the collection is not text, and when the collection account or the user
/// record account does not hold its record.
pub fn process_airdrop_one_logic(
    accounts: &[Account],
    now: i64,
    lamports: u64,
    mint_authority_bump: u8,
) -> (r: Result<Transaction, AirdropError>)
    requires
        accounts@.len() >= MINT_ACCOUNTS,
        mint_in_range(accounts@, now),
    ensures
        outcome_view(r) == mint_one_plan(accounts@, now, lamports, mint_authority_bump),
{
    let collection = &accounts[0];
    let mint = accounts[2].key;
    let user = accounts[3].key;
    let user_token = accounts[4].key;
    let metadata = accounts[5].key;
    let marker = accounts[6].key;
    let payer = accounts[13].key;
    let admin = accounts[15].key;
    let revenue_wallet = accounts[16].key;
    let token = token_program_id();

    let create_token = plain_invocation(
        create_account(&payer, &mint, lamports, token_account_len(), &token),
        vec![13usize, 2usize],
    );
    let initialize_token = plain_invocation(
        initialize_mint(&token, &mint, &marker, None, 0).unwrap(),
        vec![2usize, 9usize],
    );
    let create_holding = plain_invocation(
        create_associated_token_account(&payer, &user, &mint),
        vec![13usize, 4usize, 3usize, 2usize, 7usize, 10usize],
    );

    let mut config = match AirdropConfig::unpack_from_account(collection) {
        Ok(config) => config,
        Err(e) => {
            return Err(e);
        },
    };
    let symbol = match str_from_u8_nul_utf8(config.symbol.as_slice()) {
        Ok(text) => text.to_owned(),
        Err(_) => {
            return Err(AirdropError::InvalidAccountData);
        },
    };
    let prefix = match str_from_u8_nul_utf8(config.metadata_uri_prefix.as_slice()) {
        Ok(text) => text.to_owned(),
        Err(_) => {
            return Err(AirdropError::InvalidAccountData);
        },
    };
    proof {
        lemma_nul_terminated_len(config.symbol@);
        lemma_nul_terminated_len(config.metadata_uri_prefix@);
    }
    let creators = vec![
        Creator { address: marker, verified: true, share: 0 },
        Creator { address: revenue_wallet, verified: false, share: 100 },
    ];
    assert(creators@ =~= token_creators(marker, revenue_wallet));
    let metadata_program = metadata_program_id();
    let register_metadata = invocation(
        create_metadata_accounts(
            &metadata_program,
            &metadata,
            &mint,
            &marker,
            &payer,
            &marker,
            token_name(symbol.as_str(), config.issued_count),
            symbol,
            token_uri(prefix.as_str(), config.issued_count),
            &creators,
            SELLER_FEE_BASIS_POINTS,
            false,
            true,
        ),
        vec![5usize, 2usize, 6usize, 13usize, 6usize, 7usize, 9usize],
        mint_authority_signer_seeds(&collection.key, mint_authority_bump),
    );
    let mint_unit = invocation(
        mint_to(&token, &mint, &user_token, &marker, 1).unwrap(),
        vec![2usize, 4usize, 6usize],
        mint_authority_signer_seeds(&collection.key, mint_authority_bump),
    );
    let hand_over_metadata = invocation(
        update_metadata_accounts(&metadata_program, &metadata, &marker, Some(admin), Some(true)),
        vec![5usize, 6usize],
        mint_authority_signer_seeds(&collection.key, mint_authority_bump),
    );
    let revoke_minting = invocation(
        set_mint_authority(&token, &mint, None, &marker).unwrap(),
        vec![2usize, 6usize],
        mint_authority_signer_seeds(&collection.key, mint_authority_bump),
    );
    let pay = plain_invocation(
        transfer(&payer, &revenue_wallet, config.unit_price),
        vec![13usize, 16usize],
    );

    let ghost read = config;
    config.issued_count = config.issued_count + 1;
    let mut user_data = match AirdropUserData::unpack_from_account(&accounts[1]) {
        Ok(user_data) => user_data,
        Err(e) => {
            return Err(e);
        },
    };
    let ghost read_user_data = user_data;
    user_data.mint_count = user_data.mint_count + 1;
    user_data.cooldown_until = cooldown_end(now);
    assert(config == read.after_mint());
    assert(user_data == read_user_data.after_mint(now));
    let transaction = Transaction {
        invocations: vec![
            create_token,
            initialize_token,
            create_holding,
            register_metadata,
            mint_unit,
            hand_over_metadata,
            revoke_minting,
            pay,
        ],
        writes: vec![
            AccountWrite { account: 0, record: Record::Config(config) },
            AccountWrite { account: 1, record: Record::UserData(user_data) },
        ],
    };
    proof {
        let plan = mint_one_plan(accounts@, now, lamports, mint_authority_bump);
        assert(transaction@.invocations =~= plan->Ok_0.invocations);
        assert(transaction@.writes =~= plan->Ok_0.writes);
    }
    Ok(transaction)
}

/// The end of the cooldown of a mint at the time `now`.
pub fn cooldown_end(now: i64) -> (end: u64)
    requires
        now + COOLDOWN_SECONDS >= 0,
    ensures
        end == now + COOLDOWN_SECONDS,
{
    if now >= 0 {
        now as u64 + COOLDOWN_SECONDS
    } else {
        COOLDOWN_SECONDS - ((-now) as u64)
    }
}

} // verus!
