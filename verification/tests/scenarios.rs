use airdrop::account::Account;
use airdrop::address::Address;
use airdrop::error::AirdropError;
use airdrop::pda::{find_airdrop_user_data, find_mint_authority, id};
use airdrop::processor::{process_instruction, HostParameters};
use airdrop::state::{AirdropConfig, AirdropUserData};
use airdrop::transaction::{Step, Transaction};

const START: i64 = 1_700_000_000;

fn key(n: u8) -> Address {
    Address::new([n; 32])
}

fn plain(address: Address) -> Account {
    Account {
        key: address,
        owner: Address::new([0; 32]),
        is_signer: false,
        is_writable: false,
        lamports: 1_000_000,
        data: Vec::new(),
    }
}

fn host(now: i64) -> HostParameters {
    HostParameters {
        unix_timestamp: now,
        mint_authority_rent: 900,
        user_data_rent: 1500,
        token_rent: 2000,
    }
}

fn initialize_payload(supply_cap: u64, unit_price: u64) -> Vec<u8> {
    let mut payload = vec![1u8];
    payload.extend_from_slice(&supply_cap.to_le_bytes());
    let mut prefix = [0u8; 32];
    prefix[..12].copy_from_slice(b"https://a.b/");
    payload.extend_from_slice(&prefix);
    payload.extend_from_slice(b"DROP\0\0\0\0");
    payload.extend_from_slice(&unit_price.to_le_bytes());
    payload
}

/// A ledger for the tests: the collection `key(20)`, the user `key(30)`, and
/// the accounts around them.
struct Ledger {
    collection: Account,
    marker: Account,
    record: Account,
    invoked: usize,
}

impl Ledger {
    fn new() -> Ledger {
        let mut collection = plain(key(20));
        collection.owner = id();
        collection.data = vec![0u8; 169];
        let mut marker = plain(find_mint_authority(&key(20)).unwrap().0);
        marker.lamports = 0;
        let mut record = plain(find_airdrop_user_data(&key(20), &key(30)).unwrap().0);
        record.lamports = 0;
        Ledger { collection, marker, record, invoked: 0 }
    }

    fn signer(mut account: Account) -> Account {
        account.is_signer = true;
        account.is_writable = true;
        account
    }

    fn writable(mut account: Account) -> Account {
        account.is_writable = true;
        account
    }

    /// Performs every invocation of the transaction, as a host on which
    /// none fails, and commits.
    fn run(&mut self, transaction: &Transaction, accounts: &mut Vec<Account>) {
        let mut completed = 0;
        loop {
            match transaction.next_step(completed, true) {
                Step::Invoke(at) => {
                    assert_eq!(at, completed);
                    completed += 1;
                    self.invoked += 1;
                }
                Step::Commit => {
                    transaction.commit(accounts).unwrap();
                    return;
                }
                Step::Abort => panic!("aborted"),
            }
        }
    }

    fn initialize(&mut self, supply_cap: u64, unit_price: u64) -> Result<(), AirdropError> {
        let mut accounts = vec![
            Ledger::writable(self.collection.clone()),
            plain(key(21)),
            Ledger::writable(self.marker.clone()),
            plain(key(23)),
            plain(key(24)),
            plain(key(41)),
            Ledger::signer(plain(key(26))),
            plain(key(0)),
        ];
        let payload = initialize_payload(supply_cap, unit_price);
        let transaction = process_instruction(&id(), &accounts, &payload, &host(START))?;
        self.run(&transaction, &mut accounts);
        self.collection.data = accounts[0].data.clone();
        self.marker.owner = id();
        self.marker.lamports = 900;
        Ok(())
    }

    fn register(&mut self) -> Result<(), AirdropError> {
        let mut accounts = vec![
            Ledger::writable(self.record.clone()),
            plain(key(30)),
            Ledger::writable(self.collection.clone()),
            plain(key(41)),
            Ledger::signer(plain(key(26))),
            plain(key(0)),
        ];
        let transaction = process_instruction(&id(), &accounts, &[2], &host(START))?;
        accounts[0].owner = id();
        accounts[0].lamports = 1500;
        accounts[0].data = vec![0u8; 81];
        self.run(&transaction, &mut accounts);
        self.record = accounts[0].clone();
        self.record.is_writable = false;
        self.collection.data = accounts[2].data.clone();
        Ok(())
    }

    fn mint_with_admin(&mut self, now: i64, admin: Address) -> Result<(), AirdropError> {
        let mut accounts = vec![
            Ledger::writable(self.collection.clone()),
            Ledger::writable(self.record.clone()),
            Ledger::signer(plain(key(31))),
            plain(key(30)),
            Ledger::writable(plain(key(32))),
            Ledger::writable(plain(key(33))),
            self.marker.clone(),
            plain(key(0)),
            plain(key(40)),
            plain(key(41)),
            plain(key(42)),
            plain(key(43)),
            plain(key(44)),
            Ledger::signer(plain(key(34))),
            Ledger::signer(plain(key(21))),
            plain(admin),
            Ledger::writable(plain(key(23))),
        ];
        accounts[14].is_writable = false;
        let transaction = process_instruction(&id(), &accounts, &[3], &host(now))?;
        self.run(&transaction, &mut accounts);
        self.collection.data = accounts[0].data.clone();
        self.record.data = accounts[1].data.clone();
        Ok(())
    }

    fn mint(&mut self, now: i64) -> Result<(), AirdropError> {
        self.mint_with_admin(now, key(24))
    }

    fn config(&self) -> AirdropConfig {
        AirdropConfig::unpack_from_account(&self.collection).unwrap()
    }

    fn user_data(&self) -> AirdropUserData {
        AirdropUserData::unpack_from_account(&self.record).unwrap()
    }
}

#[test]
fn a_collection_of_one_unit_is_minted_once() {
    let mut ledger = Ledger::new();
    ledger.initialize(1, 5).unwrap();
    assert_eq!(ledger.config().issued_count, 0);
    assert_eq!(ledger.config().supply_cap, 1);
    assert_eq!(ledger.config().unit_price, 5);
    ledger.register().unwrap();
    assert_eq!(ledger.config().registered_users, 1);

    ledger.mint(START).unwrap();
    assert_eq!(ledger.config().issued_count, 1);
    assert_eq!(ledger.user_data().mint_count, 1);

    let before = ledger.collection.data.clone();
    assert_eq!(ledger.mint(START + 21600).unwrap_err(), AirdropError::OutOfSupply);
    assert_eq!(ledger.mint(START).unwrap_err(), AirdropError::OutOfSupply);
    assert_eq!(ledger.collection.data, before);
    assert_eq!(ledger.config().issued_count, 1);
    assert_eq!(ledger.user_data().mint_count, 1);
}

#[test]
fn a_user_mints_again_after_the_cooldown() {
    let mut ledger = Ledger::new();
    ledger.initialize(10, 5).unwrap();
    ledger.register().unwrap();
    assert_eq!(ledger.user_data().cooldown_until, 0);
    assert_eq!(ledger.user_data().mint_count, 0);

    ledger.mint(START).unwrap();
    assert_eq!(ledger.user_data().cooldown_until, START as u64 + 21600);
    assert_eq!(ledger.user_data().mint_count, 1);

    assert_eq!(ledger.mint(START).unwrap_err(), AirdropError::UserTimeout);
    assert_eq!(ledger.mint(START + 1).unwrap_err(), AirdropError::UserTimeout);
    assert_eq!(ledger.mint(START + 21599).unwrap_err(), AirdropError::UserTimeout);
    assert_eq!(ledger.user_data().mint_count, 1);
    assert_eq!(ledger.config().issued_count, 1);

    ledger.mint(START + 21600).unwrap();
    assert_eq!(ledger.user_data().mint_count, 2);
    assert_eq!(ledger.user_data().cooldown_until, START as u64 + 43200);
    assert_eq!(ledger.config().issued_count, 2);

    ledger.mint(START + 100_000).unwrap();
    assert_eq!(ledger.user_data().mint_count, 3);
    assert_eq!(ledger.user_data().cooldown_until, START as u64 + 121_600);
    assert_eq!(ledger.config().issued_count, 3);
}

#[test]
fn a_mint_with_another_admin_changes_nothing() {
    let mut ledger = Ledger::new();
    ledger.initialize(10, 5).unwrap();
    ledger.register().unwrap();
    let collection = ledger.collection.data.clone();
    let record = ledger.record.data.clone();
    let invoked = ledger.invoked;

    assert_eq!(
        ledger.mint_with_admin(START, key(99)).unwrap_err(),
        AirdropError::WrongAccountAddress
    );
    assert_eq!(ledger.collection.data, collection);
    assert_eq!(ledger.record.data, record);
    assert_eq!(ledger.invoked, invoked);
    assert_eq!(ledger.config().issued_count, 0);
    assert_eq!(ledger.user_data().mint_count, 0);

    ledger.mint(START).unwrap();
    assert_eq!(ledger.config().issued_count, 1);
    assert_eq!(ledger.invoked, invoked + 8);
}

#[test]
fn a_failed_invocation_leaves_the_records_alone() {
    let mut ledger = Ledger::new();
    ledger.initialize(10, 5).unwrap();
    ledger.register().unwrap();
    let mut accounts = vec![
        Ledger::writable(ledger.collection.clone()),
        Ledger::writable(ledger.record.clone()),
        Ledger::signer(plain(key(31))),
        plain(key(30)),
        Ledger::writable(plain(key(32))),
        Ledger::writable(plain(key(33))),
        ledger.marker.clone(),
        plain(key(0)),
        plain(key(40)),
        plain(key(41)),
        plain(key(42)),
        plain(key(43)),
        plain(key(44)),
        Ledger::signer(plain(key(34))),
        Ledger::signer(plain(key(21))),
        plain(key(24)),
        Ledger::writable(plain(key(23))),
    ];
    let transaction = process_instruction(&id(), &accounts, &[3], &host(START)).unwrap();
    for failing in 0..8usize {
        let before: Vec<Vec<u8>> = accounts.iter().map(|a| a.data.clone()).collect();
        let mut completed = 0;
        let mut succeeded = true;
        let mut performed = Vec::new();
        let end = loop {
            match transaction.next_step(completed, succeeded) {
                Step::Invoke(at) => {
                    performed.push(at);
                    succeeded = at != failing;
                    if succeeded {
                        completed += 1;
                    }
                }
                Step::Commit => {
                    transaction.commit(&mut accounts).unwrap();
                    break Step::Commit;
                }
                Step::Abort => break Step::Abort,
            }
        };
        assert_eq!(end, Step::Abort);
        assert_eq!(performed, (0..=failing).collect::<Vec<usize>>());
        let after: Vec<Vec<u8>> = accounts.iter().map(|a| a.data.clone()).collect();
        assert_eq!(after, before);
    }
}

#[test]
fn a_collection_is_initialized_once() {
    let mut ledger = Ledger::new();
    ledger.initialize(7, 5).unwrap();
    let config = ledger.config();
    assert!(config.initialized);
    assert_eq!(config.issued_count, 0);
    assert!(config.issued_count <= config.supply_cap);
    let stored = ledger.collection.data.clone();
    assert_eq!(ledger.initialize(9, 1).unwrap_err(), AirdropError::AlreadyInitialized);
    assert_eq!(ledger.initialize(7, 5).unwrap_err(), AirdropError::AlreadyInitialized);
    assert_eq!(ledger.collection.data, stored);
}

#[test]
fn a_collection_without_supply_is_initialized_and_never_minted() {
    let mut ledger = Ledger::new();
    ledger.initialize(0, 5).unwrap();
    assert_eq!(ledger.config().issued_count, 0);
    assert_eq!(ledger.config().supply_cap, 0);
    ledger.register().unwrap();
    assert_eq!(ledger.mint(START).unwrap_err(), AirdropError::OutOfSupply);
}

#[test]
fn a_user_is_registered_once() {
    let mut ledger = Ledger::new();
    ledger.initialize(10, 5).unwrap();
    ledger.register().unwrap();
    assert_eq!(ledger.config().registered_users, 1);
    let record = ledger.record.data.clone();
    assert_eq!(ledger.register().unwrap_err(), AirdropError::AlreadyInitialized);
    assert_eq!(ledger.record.data, record);
    assert_eq!(ledger.config().registered_users, 1);
}

#[test]
fn a_user_is_not_registered_with_a_collection_that_is_not_initialized() {
    let mut ledger = Ledger::new();
    assert_eq!(ledger.register().unwrap_err(), AirdropError::Uninitialized);
    assert!(ledger.record.data.is_empty());
}

#[test]
fn a_user_who_is_not_registered_does_not_mint() {
    let mut ledger = Ledger::new();
    ledger.initialize(10, 5).unwrap();
    assert_eq!(ledger.mint(START).unwrap_err(), AirdropError::IllegalOwner);
    ledger.record.owner = id();
    assert_eq!(ledger.mint(START).unwrap_err(), AirdropError::InvalidAccountData);
    assert_eq!(ledger.config().issued_count, 0);
}

#[test]
fn the_supply_is_never_exceeded() {
    let mut ledger = Ledger::new();
    ledger.initialize(3, 5).unwrap();
    ledger.register().unwrap();
    let mut now = START;
    for minted in 1..=3u64 {
        ledger.mint(now).unwrap();
        assert_eq!(ledger.config().issued_count, minted);
        assert!(ledger.config().issued_count <= ledger.config().supply_cap);
        now += 21600;
    }
    for _ in 0..3 {
        assert_eq!(ledger.mint(now).unwrap_err(), AirdropError::OutOfSupply);
        assert_eq!(ledger.config().issued_count, 3);
        now += 21600;
    }
}
