use airdrop::account::Account;
use airdrop::address::{append_bytes, read_array, Address};
use airdrop::bytes::{read_u64_le, write_u64_le};
use airdrop::error::AirdropError;
use airdrop::instruction::{
    deserialize_instruction_data, parse_initialize_airdrop_args,
    parse_initialize_airdrop_user_args, parse_mint_one_args, AirdropInstruction,
};
use airdrop::state::{
    overwrite_front, AirdropConfig, AirdropUserData, MintAuthority, MINT_AUTHORITY, USER_DATA,
};

fn sample_config() -> AirdropConfig {
    let mut prefix = [0u8; 32];
    prefix[..12].copy_from_slice(b"https://x.y/");
    let mut symbol = [0u8; 8];
    symbol[..3].copy_from_slice(b"ABC");
    AirdropConfig {
        initialized: true,
        authority: Address::new([1; 32]),
        issued_count: 0x0102030405060708,
        supply_cap: 0x1112131415161718,
        metadata_uri_prefix: prefix,
        symbol,
        registered_users: 3,
        revenue_wallet: Address::new([2; 32]),
        admin: Address::new([3; 32]),
        unit_price: u64::MAX,
    }
}

fn sample_user_data() -> AirdropUserData {
    AirdropUserData {
        initialized: true,
        collection: Address::new([7; 32]),
        user: Address::new([8; 32]),
        mint_count: 5,
        cooldown_until: 1_700_000_000,
    }
}

fn same_config(a: &AirdropConfig, b: &AirdropConfig) -> bool {
    a.initialized == b.initialized
        && a.authority.bytes == b.authority.bytes
        && a.issued_count == b.issued_count
        && a.supply_cap == b.supply_cap
        && a.metadata_uri_prefix == b.metadata_uri_prefix
        && a.symbol == b.symbol
        && a.registered_users == b.registered_users
        && a.revenue_wallet.bytes == b.revenue_wallet.bytes
        && a.admin.bytes == b.admin.bytes
        && a.unit_price == b.unit_price
}

fn same_user_data(a: &AirdropUserData, b: &AirdropUserData) -> bool {
    a.initialized == b.initialized
        && a.collection.bytes == b.collection.bytes
        && a.user.bytes == b.user.bytes
        && a.mint_count == b.mint_count
        && a.cooldown_until == b.cooldown_until
}

fn storage(data: Vec<u8>) -> Account {
    Account {
        key: Address::new([9; 32]),
        owner: Address::new([10; 32]),
        is_signer: false,
        is_writable: true,
        lamports: 1,
        data,
    }
}

#[test]
fn u64_is_written_least_significant_byte_first() {
    let mut out = vec![9u8];
    write_u64_le(&mut out, 0x0102030405060708);
    assert_eq!(out, vec![9, 8, 7, 6, 5, 4, 3, 2, 1]);
    let mut zero = Vec::new();
    write_u64_le(&mut zero, 0);
    assert_eq!(zero, vec![0u8; 8]);
    let mut max = Vec::new();
    write_u64_le(&mut max, u64::MAX);
    assert_eq!(max, vec![255u8; 8]);
}

#[test]
fn u64_is_read_at_an_offset() {
    let data = [0xAA, 1, 0, 0, 0, 0, 0, 0, 0, 0xBB];
    assert_eq!(read_u64_le(&data, 1), 1);
    let data = [0, 0, 0, 0, 0, 0, 0, 0x80];
    assert_eq!(read_u64_le(&data, 0), 1u64 << 63);
    let data = [0x78, 0x56, 0x34, 0x12, 0, 0, 0, 0];
    assert_eq!(read_u64_le(&data, 0), 0x12345678);
    assert_eq!(read_u64_le(&[255u8; 8], 0), u64::MAX);
}

#[test]
fn u64_round_trips_through_its_bytes() {
    for value in [0u64, 1, 255, 256, 21600, 1 << 32, u64::MAX - 1, u64::MAX] {
        let mut out = Vec::new();
        write_u64_le(&mut out, value);
        assert_eq!(out, value.to_le_bytes().to_vec());
        assert_eq!(read_u64_le(&out, 0), value);
    }
}

#[test]
fn arrays_and_addresses_are_read_at_an_offset() {
    let data: Vec<u8> = (0u8..40).collect();
    let four: [u8; 4] = read_array::<4>(&data, 3);
    assert_eq!(four, [3, 4, 5, 6]);
    let address = Address::read(&data, 8);
    let want: Vec<u8> = (8u8..40).collect();
    assert_eq!(address.bytes.to_vec(), want);
    assert_eq!(address.to_vec(), want);
    assert!(address.same(&Address::new(address.bytes)));
    let mut other = address.bytes;
    other[31] ^= 1;
    assert!(!address.same(&Address::new(other)));
    let mut first = address.bytes;
    first[0] ^= 1;
    assert!(!address.same(&Address::new(first)));
}

#[test]
fn bytes_are_appended_and_overwritten() {
    let mut out = vec![1u8, 2];
    append_bytes(&mut out, &[3, 4, 5]);
    assert_eq!(out, vec![1, 2, 3, 4, 5]);
    append_bytes(&mut out, &[]);
    assert_eq!(out, vec![1, 2, 3, 4, 5]);
    overwrite_front(&mut out, &[9, 8]);
    assert_eq!(out, vec![9, 8, 3, 4, 5]);
}

#[test]
fn config_has_the_fixed_layout() {
    let config = sample_config();
    let bytes = config.to_bytes();
    assert_eq!(bytes.len(), 169);
    assert_eq!(AirdropConfig::LEN, 169);
    assert_eq!(bytes[0], 1);
    assert_eq!(&bytes[1..33], &[1u8; 32]);
    assert_eq!(&bytes[33..41], &[8, 7, 6, 5, 4, 3, 2, 1]);
    assert_eq!(&bytes[41..49], &[0x18, 0x17, 0x16, 0x15, 0x14, 0x13, 0x12, 0x11]);
    assert_eq!(&bytes[49..61], b"https://x.y/");
    assert_eq!(&bytes[61..81], &[0u8; 20]);
    assert_eq!(&bytes[81..84], b"ABC");
    assert_eq!(&bytes[84..89], &[0u8; 5]);
    assert_eq!(&bytes[89..97], &[3, 0, 0, 0, 0, 0, 0, 0]);
    assert_eq!(&bytes[97..129], &[2u8; 32]);
    assert_eq!(&bytes[129..161], &[3u8; 32]);
    assert_eq!(&bytes[161..169], &[255u8; 8]);
}

#[test]
fn user_data_has_the_fixed_layout() {
    let record = sample_user_data();
    let bytes = record.to_bytes();
    assert_eq!(bytes.len(), 81);
    assert_eq!(AirdropUserData::LEN, 81);
    assert_eq!(MintAuthority::LEN, 0);
    assert_eq!(bytes[0], 1);
    assert_eq!(&bytes[1..33], &[7u8; 32]);
    assert_eq!(&bytes[33..65], &[8u8; 32]);
    assert_eq!(&bytes[65..73], &5u64.to_le_bytes());
    assert_eq!(&bytes[73..81], &1_700_000_000u64.to_le_bytes());
}

#[test]
fn config_round_trips() {
    let mut config = sample_config();
    for initialized in [false, true] {
        config.initialized = initialized;
        let bytes = config.to_bytes();
        let back = AirdropConfig::unpack_from_slice(&bytes).unwrap();
        assert!(same_config(&config, &back));
        assert_eq!(back.is_initialized(), initialized);
        assert_eq!(back.to_bytes(), bytes);
    }
    let all = AirdropConfig {
        initialized: true,
        authority: Address::new([255; 32]),
        issued_count: u64::MAX,
        supply_cap: u64::MAX,
        metadata_uri_prefix: [255; 32],
        symbol: [255; 8],
        registered_users: u64::MAX,
        revenue_wallet: Address::new([255; 32]),
        admin: Address::new([255; 32]),
        unit_price: u64::MAX,
    };
    let back = AirdropConfig::unpack_from_slice(&all.to_bytes()).unwrap();
    assert!(same_config(&all, &back));
}

#[test]
fn user_data_round_trips() {
    let mut record = sample_user_data();
    for initialized in [false, true] {
        record.initialized = initialized;
        let bytes = record.to_bytes();
        let back = AirdropUserData::unpack_from_slice(&bytes).unwrap();
        assert!(same_user_data(&record, &back));
        assert_eq!(back.is_initialized(), initialized);
        assert_eq!(back.to_bytes(), bytes);
    }
    let zero = AirdropUserData::unpack_from_slice(&[0u8; 81]).unwrap();
    assert!(!zero.initialized);
    assert_eq!(zero.mint_count, 0);
    assert_eq!(zero.cooldown_until, 0);
    assert_eq!(zero.collection.bytes, [0u8; 32]);
}

#[test]
fn a_flag_byte_other_than_0_or_1_is_corrupt() {
    for flag in [2u8, 3, 128, 255] {
        let mut bytes = sample_config().to_bytes();
        bytes[0] = flag;
        assert_eq!(AirdropConfig::unpack_from_slice(&bytes).unwrap_err(), AirdropError::CorruptState);
        assert_eq!(
            AirdropConfig::unpack_from_account(&storage(bytes)).unwrap_err(),
            AirdropError::CorruptState
        );
        let mut bytes = sample_user_data().to_bytes();
        bytes[0] = flag;
        assert_eq!(
            AirdropUserData::unpack_from_slice(&bytes).unwrap_err(),
            AirdropError::CorruptState
        );
        assert_eq!(
            AirdropUserData::unpack_from_account(&storage(bytes)).unwrap_err(),
            AirdropError::CorruptState
        );
    }
}

#[test]
fn slices_are_read_and_written_at_the_front() {
    let mut long = sample_config().to_bytes();
    long.extend_from_slice(&[0xEE; 4]);
    let back = AirdropConfig::unpack_from_slice(&long).unwrap();
    assert!(same_config(&sample_config(), &back));

    let mut dst = vec![0x55u8; 172];
    sample_config().pack_into_slice(&mut dst);
    assert_eq!(&dst[..169], &sample_config().to_bytes()[..]);
    assert_eq!(&dst[169..], &[0x55u8; 3]);

    let mut dst = vec![0x55u8; 83];
    sample_user_data().pack_into_slice(&mut dst);
    assert_eq!(&dst[..81], &sample_user_data().to_bytes()[..]);
    assert_eq!(&dst[81..], &[0x55u8; 2]);
    let back = AirdropUserData::unpack_from_slice(&dst).unwrap();
    assert!(same_user_data(&sample_user_data(), &back));
}

#[test]
fn accounts_of_another_length_hold_no_record() {
    for len in [0usize, 1, 81, 168, 170] {
        let account = storage(vec![0u8; len]);
        assert_eq!(
            AirdropConfig::unpack_from_account(&account).unwrap_err(),
            AirdropError::InvalidAccountData
        );
    }
    for len in [0usize, 1, 80, 82, 169] {
        let account = storage(vec![0u8; len]);
        assert_eq!(
            AirdropUserData::unpack_from_account(&account).unwrap_err(),
            AirdropError::InvalidAccountData
        );
    }
    let config = AirdropConfig::unpack_from_account(&storage(vec![0u8; 169])).unwrap();
    assert!(!config.initialized);
    let record = AirdropUserData::unpack_from_account(&storage(vec![0u8; 81])).unwrap();
    assert!(!record.initialized);
}

#[test]
fn records_are_stored_in_accounts_of_their_length_only() {
    let mut account = storage(vec![0u8; 169]);
    AirdropConfig::pack_into_account(sample_config(), &mut account).unwrap();
    assert_eq!(account.data, sample_config().to_bytes());
    assert_eq!(account.lamports, 1);
    assert_eq!(account.key.bytes, [9; 32]);
    assert_eq!(account.owner.bytes, [10; 32]);
    assert!(account.is_writable && !account.is_signer);
    let back = AirdropConfig::unpack_from_account(&account).unwrap();
    assert!(same_config(&back, &sample_config()));

    let mut short = storage(vec![7u8; 168]);
    assert_eq!(
        AirdropConfig::pack_into_account(sample_config(), &mut short).unwrap_err(),
        AirdropError::InvalidAccountData
    );
    assert_eq!(short.data, vec![7u8; 168]);

    let mut account = storage(vec![0u8; 81]);
    AirdropUserData::pack_into_account(sample_user_data(), &mut account).unwrap();
    assert_eq!(account.data, sample_user_data().to_bytes());
    let back = AirdropUserData::unpack_from_account(&account).unwrap();
    assert!(same_user_data(&back, &sample_user_data()));

    let mut long = storage(vec![7u8; 82]);
    assert_eq!(
        AirdropUserData::pack_into_account(sample_user_data(), &mut long).unwrap_err(),
        AirdropError::InvalidAccountData
    );
    assert_eq!(long.data, vec![7u8; 82]);
}

#[test]
fn domain_tags_are_the_known_words() {
    assert_eq!(USER_DATA, "user_data");
    assert_eq!(MINT_AUTHORITY, "mint_authority");
}

fn initialize_payload(supply_cap: u64, prefix: &[u8], symbol: &[u8], unit_price: u64) -> Vec<u8> {
    let mut payload = vec![1u8];
    payload.extend_from_slice(&supply_cap.to_le_bytes());
    let mut field = [0u8; 32];
    field[..prefix.len()].copy_from_slice(prefix);
    payload.extend_from_slice(&field);
    let mut field = [0u8; 8];
    field[..symbol.len()].copy_from_slice(symbol);
    payload.extend_from_slice(&field);
    payload.extend_from_slice(&unit_price.to_le_bytes());
    payload
}

#[test]
fn an_initialization_is_decoded_field_by_field() {
    let payload = initialize_payload(1000, b"https://a.b/", b"DROP", 5);
    assert_eq!(payload.len(), 57);
    match deserialize_instruction_data(&payload).unwrap() {
        AirdropInstruction::InitializeAirdrop(args) => {
            assert_eq!(args.supply_cap, 1000);
            assert_eq!(&args.metadata_uri_prefix[..12], b"https://a.b/");
            assert_eq!(&args.metadata_uri_prefix[12..], &[0u8; 20]);
            assert_eq!(&args.symbol, b"DROP\0\0\0\0");
            assert_eq!(args.unit_price, 5);
        }
        other => panic!("decoded as {:?}", other),
    }
    let args = parse_initialize_airdrop_args(&payload[1..]).unwrap();
    assert_eq!(args.supply_cap, 1000);
    assert_eq!(args.unit_price, 5);

    let mut body = vec![0u8; 56];
    body[0] = 0x01;
    body[7] = 0x02;
    body[8] = 0xAA;
    body[39] = 0xBB;
    body[40] = 0xCC;
    body[47] = 0xDD;
    body[48] = 0x03;
    body[55] = 0x04;
    let args = parse_initialize_airdrop_args(&body).unwrap();
    assert_eq!(args.supply_cap, 0x0200000000000001);
    assert_eq!(args.metadata_uri_prefix[0], 0xAA);
    assert_eq!(args.metadata_uri_prefix[31], 0xBB);
    assert_eq!(args.symbol[0], 0xCC);
    assert_eq!(args.symbol[7], 0xDD);
    assert_eq!(args.unit_price, 0x0400000000000003);
}

#[test]
fn an_initialization_body_of_another_length_is_refused() {
    for len in [0usize, 1, 55, 57, 112] {
        let mut payload = vec![1u8];
        payload.extend_from_slice(&vec![0u8; len]);
        assert_eq!(
            deserialize_instruction_data(&payload).unwrap_err(),
            AirdropError::BadOperationArgument
        );
        assert_eq!(
            parse_initialize_airdrop_args(&payload[1..]).unwrap_err(),
            AirdropError::BadOperationArgument
        );
    }
}

#[test]
fn registration_and_mint_have_no_arguments() {
    assert!(matches!(
        deserialize_instruction_data(&[2]).unwrap(),
        AirdropInstruction::InitializeAirdropUser(_)
    ));
    assert!(matches!(deserialize_instruction_data(&[3]).unwrap(), AirdropInstruction::MintOne(_)));
    assert!(matches!(
        deserialize_instruction_data(&[2, 9, 9]).unwrap(),
        AirdropInstruction::InitializeAirdropUser(_)
    ));
    assert!(matches!(
        deserialize_instruction_data(&[3, 1]).unwrap(),
        AirdropInstruction::MintOne(_)
    ));
    assert!(parse_initialize_airdrop_user_args(&[]).is_ok());
    assert!(parse_initialize_airdrop_user_args(&[1, 2, 3]).is_ok());
    assert!(parse_mint_one_args(&[]).is_ok());
    assert!(parse_mint_one_args(&[4]).is_ok());
}

#[test]
fn an_unknown_operation_is_refused() {
    assert_eq!(deserialize_instruction_data(&[]).unwrap_err(), AirdropError::BadOperationId);
    for id in [0u8, 4, 5, 127, 255] {
        assert_eq!(deserialize_instruction_data(&[id]).unwrap_err(), AirdropError::BadOperationId);
        let mut payload = vec![id];
        payload.extend_from_slice(&[0u8; 56]);
        assert_eq!(
            deserialize_instruction_data(&payload).unwrap_err(),
            AirdropError::BadOperationId
        );
    }
}

#[test]
fn every_failure_has_its_message_and_code() {
    let all = [
        (AirdropError::BadOperationId, "Unexpected input in instruction id", Some(0)),
        (AirdropError::BadOperationArgument, "Unexpected input in instruction argument", Some(1)),
        (AirdropError::SignerRequired, "Account is not signer", Some(2)),
        (AirdropError::WritableRequired, "Account is not writeable", Some(3)),
        (AirdropError::IllegalOwner, "Account is owned by an unexpected program", None),
        (AirdropError::DerivedAddressMismatch, "Account is not properly derived", Some(4)),
        (AirdropError::AlreadyInitialized, "Account is already initialized", None),
        (AirdropError::Uninitialized, "Account is not initialized", Some(5)),
        (AirdropError::CorruptState, "Account holds a corrupt record", None),
        (AirdropError::OutOfSupply, "Airdrop is out of supply", Some(6)),
        (AirdropError::UserTimeout, "User is still locked", Some(7)),
        (AirdropError::InvalidAccountData, "Account data is invalid", None),
        (AirdropError::WrongAccountAddress, "Account address is not the expected one", Some(8)),
    ];
    for (error, message, code) in all {
        assert_eq!(error.message(), message);
        assert_eq!(error.custom_code(), code);
    }
}
