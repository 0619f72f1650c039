//! Requests to the services that the program invokes: the system program,
//! the token program, the associated-token-account program and the metadata
//! program. The instructions are built by those programs' own crates. What
//! this module states of them is what their builders show; arguments that a
//! general serializer encodes are named, not restated.

use vstd::prelude::*;
use solana_program::program_pack::Pack;
use solana_program::pubkey::Pubkey;
use solana_program::system_instruction;
use spl_token::instruction::AuthorityType::MintTokens;
use metaplex_token_metadata::state::Creator as MetadataCreator;
use crate::address::Address;
use crate::bytes::u64_le;
use crate::pda::{derived_address, find_program_address};

verus! {

/// Address of the system program.
pub const SYSTEM_PROGRAM_ID: [u8; 32] = [
    0, 0, 0, 0, 0, 0, 0, 0, 0, 0, 0, 0, 0, 0, 0, 0,
    0, 0, 0, 0, 0, 0, 0, 0, 0, 0, 0, 0, 0, 0, 0, 0,
];

/// Address of the token program.
pub const TOKEN_PROGRAM_ID: [u8; 32] = [
    6, 221, 246, 225, 215, 101, 161, 147, 217, 203, 225, 70, 206, 235, 121, 172,
    28, 180, 133, 237, 95, 91, 55, 145, 58, 140, 245, 133, 126, 255, 0, 169,
];

/// Address of the associated-token-account program.
pub const ASSOCIATED_TOKEN_PROGRAM_ID: [u8; 32] = [
    140, 151, 37, 143, 78, 36, 137, 241, 187, 61, 16, 41, 20, 142, 13, 131,
    11, 90, 19, 153, 218, 255, 16, 132, 4, 142, 123, 216, 219, 233, 248, 89,
];

/// Address of the metadata program.
pub const METADATA_PROGRAM_ID: [u8; 32] = [
    11, 112, 101, 177, 227, 209, 124, 69, 56, 157, 82, 127, 107, 4, 195, 205,
    88, 184, 108, 115, 26, 160, 253, 181, 73, 182, 209, 188, 3, 248, 41, 70,
];

/// Address of the rent sysvar.
pub const RENT_SYSVAR_ID: [u8; 32] = [
    6, 167, 213, 23, 25, 44, 92, 81, 33, 140, 201, 76, 61, 74, 241, 127,
    88, 218, 238, 8, 155, 161, 253, 68, 227, 219, 217, 138, 0, 0, 0, 0,
];

/// Number of characters up to which a text is sure to take fewer than 2^32
/// bytes.
pub const MAX_TEXT_CHARS: usize = 0x3fff_ffff;

/// Size of the storage of an account of the token program, with which a new
/// token identity is created.
pub const TOKEN_ACCOUNT_LEN: u64 = 165;

/// One account of an instruction, with the rights that the callee gets.
#[derive(Clone, Copy, Debug)]
pub struct AccountMeta {
    pub address: Address,
    pub is_signer: bool,
    pub is_writable: bool,
}

/// A request to another program.
#[derive(Clone, Debug)]
pub struct Instruction {
    /// The program that runs the instruction.
    pub program_id: Address,
    /// The accounts that the program may touch.
    pub accounts: Vec<AccountMeta>,
    /// The serialized arguments.
    pub data: Vec<u8>,
}

/// Model of an instruction.
pub struct InstructionView {
    pub program_id: Address,
    pub accounts: Seq<AccountMeta>,
    pub data: Seq<u8>,
}

impl View for Instruction {
    type V = InstructionView;

    open spec fn view(&self) -> InstructionView {
        InstructionView { program_id: self.program_id, accounts: self.accounts@, data: self.data@ }
    }
}

/// One creator of a token, with the share of the royalties that it gets.
#[derive(Clone, Copy, Debug)]
pub struct Creator {
    pub address: Address,
    pub verified: bool,
    /// In percent.
    pub share: u8,
}

impl AccountMeta {
    /// The account with the given address bytes and rights.
    pub fn new(bytes: [u8; 32], is_signer: bool, is_writable: bool) -> (meta: AccountMeta)
        ensures
            meta == (AccountMeta { address: Address { bytes }, is_signer, is_writable }),
    {
        AccountMeta { address: Address { bytes }, is_signer, is_writable }
    }
}

impl Instruction {
    /// The instruction with the given parts.
    pub fn new(program_id: [u8; 32], accounts: Vec<AccountMeta>, data: Vec<u8>) -> (ix: Instruction)
        ensures
            ix@ == (InstructionView {
                program_id: Address { bytes: program_id },
                accounts: accounts@,
                data: data@,
            }),
    {
        Instruction { program_id: Address { bytes: program_id }, accounts, data }
    }
}

/// An account that the callee may change.
pub open spec fn writable(address: Address, is_signer: bool) -> AccountMeta {
    AccountMeta { address, is_signer, is_writable: true }
}

/// An account that the callee may only read.
pub open spec fn readonly(address: Address, is_signer: bool) -> AccountMeta {
    AccountMeta { address, is_signer, is_writable: false }
}

/// The address of the system program.
pub open spec fn system_program() -> Address {
    Address { bytes: SYSTEM_PROGRAM_ID }
}

/// The address of the token program.
pub open spec fn token_program() -> Address {
    Address { bytes: TOKEN_PROGRAM_ID }
}

/// The address of the associated-token-account program.
pub open spec fn associated_token_program() -> Address {
    Address { bytes: ASSOCIATED_TOKEN_PROGRAM_ID }
}

/// The address of the metadata program.
pub open spec fn metadata_program() -> Address {
    Address { bytes: METADATA_PROGRAM_ID }
}

/// The address of the rent sysvar.
pub open spec fn rent_sysvar() -> Address {
    Address { bytes: RENT_SYSVAR_ID }
}

/// The bytes of an optional address.
pub open spec fn option_bytes(address: Option<Address>) -> Option<Seq<u8>> {
    match address {
        Some(a) => Some(a@),
        None => None,
    }
}

/// The holding account of `wallet` for the token `mint`: the address derived
/// from the wallet, the token program and the token under the
/// associated-token-account program.
pub open spec fn associated_token_address(wallet: Address, mint: Address) -> Option<(Address, u8)> {
    derived_address(seq![wallet@, token_program()@, mint@], associated_token_program())
}

/// Serialized arguments of the system program's instruction that creates an
/// account.
pub uninterp spec fn create_account_data(lamports: u64, space: u64, owner: Seq<u8>) -> Seq<u8>;

/// Serialized arguments of the system program's transfer instruction.
pub uninterp spec fn transfer_data(lamports: u64) -> Seq<u8>;

/// An optional address as the token program packs it: a 0, or a 1 and the
/// address.
pub open spec fn packed_option(address: Option<Address>) -> Seq<u8> {
    match address {
        Some(a) => seq![1u8] + a@,
        None => seq![0u8],
    }
}

/// Arguments of the token program's instruction that initializes a mint, as
/// the token program packs them: the tag 0, the decimal places, the minting
/// authority and the optional freeze authority.
pub open spec fn initialize_mint_data(
    mint_authority: Address,
    freeze_authority: Option<Address>,
    decimals: u8,
) -> Seq<u8> {
    seq![0u8, decimals] + mint_authority@ + packed_option(freeze_authority)
}

/// Arguments of the token program's instruction that mints, as the token
/// program packs them: the tag 7 and the amount, little-endian.
pub open spec fn mint_to_data(amount: u64) -> Seq<u8> {
    seq![7u8] + u64_le(amount)
}

/// Arguments of the token program's instruction that sets the authority to
/// mint, as the token program packs them: the tag 6, the kind of authority,
/// which is 0 for minting, and the optional new authority.
pub open spec fn set_mint_authority_data(new_authority: Option<Address>) -> Seq<u8> {
    seq![6u8, 0u8] + packed_option(new_authority)
}

/// Serialized arguments of the metadata program's instruction that creates
/// a metadata account.
pub uninterp spec fn create_metadata_data(
    name: Seq<char>,
    symbol: Seq<char>,
    uri: Seq<char>,
    creators: Seq<(Seq<u8>, bool, u8)>,
    seller_fee_basis_points: u16,
    is_mutable: bool,
) -> Seq<u8>;

/// Serialized arguments of the metadata program's instruction that updates
/// a metadata account without touching its data.
pub uninterp spec fn update_metadata_data(
    new_update_authority: Option<Seq<u8>>,
    primary_sale_happened: Option<bool>,
) -> Seq<u8>;

/// The creators as plain values.
pub open spec fn creator_values(creators: Seq<Creator>) -> Seq<(Seq<u8>, bool, u8)> {
    Seq::new(creators.len(), |i: int| (creators[i].address@, creators[i].verified, creators[i].share))
}

/// The system program's instruction that creates the account `to` with
/// `space` bytes of storage, owned by `owner` and funded by `from`.
pub open spec fn create_account_instruction(
    from: Address,
    to: Address,
    lamports: u64,
    space: u64,
    owner: Address,
) -> InstructionView {
    InstructionView {
        program_id: system_program(),
        accounts: seq![writable(from, true), writable(to, true)],
        data: create_account_data(lamports, space, owner@),
    }
}

/// The system program's instruction that moves `lamports` from one account
/// to another.
pub open spec fn transfer_instruction(from: Address, to: Address, lamports: u64) -> InstructionView {
    InstructionView {
        program_id: system_program(),
        accounts: seq![writable(from, true), writable(to, false)],
        data: transfer_data(lamports),
    }
}

/// The token program's instruction that initializes the token `mint`.
pub open spec fn initialize_mint_instruction(
    mint: Address,
    mint_authority: Address,
    freeze_authority: Option<Address>,
    decimals: u8,
) -> InstructionView {
    InstructionView {
        program_id: token_program(),
        accounts: seq![writable(mint, false), readonly(rent_sysvar(), false)],
        data: initialize_mint_data(mint_authority, freeze_authority, decimals),
    }
}

/// The token program's instruction that mints `amount` units of `mint` to
/// `account` in the name of `owner`.
pub open spec fn mint_to_instruction(
    mint: Address,
    account: Address,
    owner: Address,
    amount: u64,
) -> InstructionView {
    InstructionView {
        program_id: token_program(),
        accounts: seq![writable(mint, false), writable(account, false), readonly(owner, true)],
        data: mint_to_data(amount),
    }
}

/// The token program's instruction that hands the authority to mint `mint`
/// from `owner` to `new_authority`, or to nobody.
pub open spec fn set_mint_authority_instruction(
    mint: Address,
    new_authority: Option<Address>,
    owner: Address,
) -> InstructionView {
    InstructionView {
        program_id: token_program(),
        accounts: seq![writable(mint, false), readonly(owner, true)],
        data: set_mint_authority_data(new_authority),
    }
}

/// The associated-token-account program's instruction that creates the
/// holding account of `wallet` for the token `mint`, funded by `funding`.
pub open spec fn create_associated_token_account_instruction(
    funding: Address,
    wallet: Address,
    mint: Address,
) -> InstructionView {
    InstructionView {
        program_id: associated_token_program(),
        accounts: seq![
            writable(funding, true),
            writable(associated_token_address(wallet, mint)->Some_0.0, false),
            readonly(wallet, false),
            readonly(mint, false),
            readonly(system_program(), false),
            readonly(token_program(), false),
        ],
        data: seq![0u8],
    }
}

/// The metadata program's instruction that creates the metadata account of
/// the token `mint`.
pub open spec fn create_metadata_instruction(
    program: Address,
    metadata: Address,
    mint: Address,
    mint_authority: Address,
    payer: Address,
    update_authority: Address,
    name: Seq<char>,
    symbol: Seq<char>,
    uri: Seq<char>,
    creators: Seq<Creator>,
    seller_fee_basis_points: u16,
    update_authority_is_signer: bool,
    is_mutable: bool,
) -> InstructionView {
    InstructionView {
        program_id: program,
        accounts: seq![
            writable(metadata, false),
            readonly(mint, false),
            readonly(mint_authority, true),
            writable(payer, true),
            readonly(update_authority, update_authority_is_signer),
            readonly(system_program(), false),
            readonly(rent_sysvar(), false),
        ],
        data: create_metadata_data(
            name,
            symbol,
            uri,
            creator_values(creators),
            seller_fee_basis_points,
            is_mutable,
        ),
    }
}

/// The metadata program's instruction that changes the update authority and
/// the sale flag of a metadata account.
pub open spec fn update_metadata_instruction(
    program: Address,
    metadata: Address,
    update_authority: Address,
    new_update_authority: Option<Address>,
    primary_sale_happened: Option<bool>,
) -> InstructionView {
    InstructionView {
        program_id: program,
        accounts: seq![writable(metadata, false), readonly(update_authority, true)],
        data: update_metadata_data(option_bytes(new_update_authority), primary_sale_happened),
    }
}

/// Derives the holding account of `wallet` for the token `mint`. `None`
/// where the derivation gives no address.
pub fn find_associated_token_address(wallet: &Address, mint: &Address) -> (found: Option<
    (Address, u8),
>)
    ensures
        found == associated_token_address(*wallet, *mint),
{
    let mut seeds: Vec<Vec<u8>> = Vec::new();
    seeds.push(wallet.to_vec());
    seeds.push(token_program_id().to_vec());
    seeds.push(mint.to_vec());
    assert(seeds.deep_view() =~~= seq![wallet@, token_program()@, mint@]);
    find_program_address(&seeds, &associated_token_program_id())
}

/// `solana_program::system_program::id`: the all-zero address.
#[verifier::external_body]
pub(crate) fn system_program_id() -> (id: Address)
    ensures
        id == system_program(),
{
    Address { bytes: solana_program::system_program::id().to_bytes() }
}

/// `spl_token::id`: the address of the token program.
#[verifier::external_body]
pub(crate) fn token_program_id() -> (id: Address)
    ensures
        id == token_program(),
{
    Address { bytes: spl_token::id().to_bytes() }
}

/// `spl_associated_token_account::id`: the address of the
/// associated-token-account program.
#[verifier::external_body]
pub(crate) fn associated_token_program_id() -> (id: Address)
    ensures
        id == associated_token_program(),
{
    Address { bytes: spl_associated_token_account::id().to_bytes() }
}

/// `metaplex_token_metadata::id`: the address of the metadata program.
#[verifier::external_body]
pub(crate) fn metadata_program_id() -> (id: Address)
    ensures
        id == metadata_program(),
{
    Address { bytes: metaplex_token_metadata::id().to_bytes() }
}

/// `spl_token::state::Account::LEN`: the size of the storage of an account
/// of the token program.
#[verifier::external_body]
pub(crate) fn token_account_len() -> (len: u64)
    ensures
        len == TOKEN_ACCOUNT_LEN,
{
    spl_token::state::Account::LEN as u64
}

/// `solana_program::system_instruction::create_account`: an instruction of
/// the system program on the payer and the new account, both signing and
/// writable.
#[verifier::external_body]
pub(crate) fn create_account(
    from: &Address,
    to: &Address,
    lamports: u64,
    space: u64,
    owner: &Address,
) -> (ix: Instruction)
    ensures
        ix.program_id == system_program(),
        ix.accounts@ == seq![writable(*from, true), writable(*to, true)],
        ix.data@ == create_account_data(lamports, space, owner@),
{
    let key = |a: &Address| Pubkey::new_from_array(a.bytes);
    let ix = system_instruction::create_account(&key(from), &key(to), lamports, space, &key(owner));
    let metas = ix.accounts.iter();
    let accounts = metas.map(|m| AccountMeta::new(m.pubkey.to_bytes(), m.is_signer, m.is_writable));
    Instruction::new(ix.program_id.to_bytes(), accounts.collect(), ix.data)
}

/// `solana_program::system_instruction::transfer`: an instruction of the
/// system program on the signing sender and the receiver, both writable.
#[verifier::external_body]
pub(crate) fn transfer(from: &Address, to: &Address, lamports: u64) -> (ix: Instruction)
    ensures
        ix.program_id == system_program(),
        ix.accounts@ == seq![writable(*from, true), writable(*to, false)],
        ix.data@ == transfer_data(lamports),
{
    let key = |a: &Address| Pubkey::new_from_array(a.bytes);
    let ix = system_instruction::transfer(&key(from), &key(to), lamports);
    let metas = ix.accounts.iter();
    let accounts = metas.map(|m| AccountMeta::new(m.pubkey.to_bytes(), m.is_signer, m.is_writable));
    Instruction::new(ix.program_id.to_bytes(), accounts.collect(), ix.data)
}

/// `spl_token::instruction::initialize_mint`: it builds an instruction for
/// the token program and for no other program, on the writable mint and the
/// rent sysvar, with the arguments packed as `initialize_mint_data` says.
#[verifier::external_body]
pub(crate) fn initialize_mint(
    token_program_id: &Address,
    mint: &Address,
    mint_authority: &Address,
    freeze_authority: Option<Address>,
    decimals: u8,
) -> (built: Option<Instruction>)
    ensures
        built is Some <==> *token_program_id == token_program(),
        built matches Some(ix) ==> {
            &&& ix.program_id == token_program()
            &&& ix.accounts@ == seq![writable(*mint, false), readonly(rent_sysvar(), false)]
            &&& ix.data@ == initialize_mint_data(*mint_authority, freeze_authority, decimals)
        },
{
    let key = |a: &Address| Pubkey::new_from_array(a.bytes);
    let (program, freeze) = (key(token_program_id), freeze_authority.map(|a| key(&a)));
    let ix = spl_token::instruction::initialize_mint(&program, &key(mint), &key(mint_authority), freeze.as_ref(), decimals).ok()?;
    let metas = ix.accounts.iter();
    let accounts = metas.map(|m| AccountMeta::new(m.pubkey.to_bytes(), m.is_signer, m.is_writable));
    Some(Instruction::new(ix.program_id.to_bytes(), accounts.collect(), ix.data))
}

/// `spl_token::instruction::mint_to`, without multisignature signers: it
/// builds an instruction for the token program and for no other program, on
/// the writable mint, the writable receiving account and the signing
/// authority, with the arguments packed as `mint_to_data` says.
#[verifier::external_body]
pub(crate) fn mint_to(
    token_program_id: &Address,
    mint: &Address,
    account: &Address,
    owner: &Address,
    amount: u64,
) -> (built: Option<Instruction>)
    ensures
        built is Some <==> *token_program_id == token_program(),
        built matches Some(ix) ==> {
            &&& ix.program_id == token_program()
            &&& ix.accounts@ == seq![
                writable(*mint, false),
                writable(*account, false),
                readonly(*owner, true),
            ]
            &&& ix.data@ == mint_to_data(amount)
        },
{
    let key = |a: &Address| Pubkey::new_from_array(a.bytes);
    let program = key(token_program_id);
    let ix = spl_token::instruction::mint_to(&program, &key(mint), &key(account), &key(owner), &[], amount).ok()?;
    let metas = ix.accounts.iter();
    let accounts = metas.map(|m| AccountMeta::new(m.pubkey.to_bytes(), m.is_signer, m.is_writable));
    Some(Instruction::new(ix.program_id.to_bytes(), accounts.collect(), ix.data))
}

/// `spl_token::instruction::set_authority` for the authority to mint,
/// without multisignature signers: it builds an instruction for the token
/// program and for no other program, on the writable mint and the signing
/// current authority, with the arguments packed as `set_mint_authority_data`
/// says.
#[verifier::external_body]
pub(crate) fn set_mint_authority(
    token_program_id: &Address,
    mint: &Address,
    new_authority: Option<Address>,
    owner: &Address,
) -> (built: Option<Instruction>)
    ensures
        built is Some <==> *token_program_id == token_program(),
        built matches Some(ix) ==> {
            &&& ix.program_id == token_program()
            &&& ix.accounts@ == seq![writable(*mint, false), readonly(*owner, true)]
            &&& ix.data@ == set_mint_authority_data(new_authority)
        },
{
    let key = |a: &Address| Pubkey::new_from_array(a.bytes);
    let (program, new, kind) = (key(token_program_id), new_authority.map(|a| key(&a)), MintTokens);
    let ix = spl_token::instruction::set_authority(&program, &key(mint), new.as_ref(), kind, &key(owner), &[]).ok()?;
    let metas = ix.accounts.iter();
    let accounts = metas.map(|m| AccountMeta::new(m.pubkey.to_bytes(), m.is_signer, m.is_writable));
    Some(Instruction::new(ix.program_id.to_bytes(), accounts.collect(), ix.data))
}

/// `spl_associated_token_account::instruction::create_associated_token_account`:
/// an instruction of the associated-token-account program on the signing
/// payer, the holding account derived for the wallet and the token, the
/// wallet, the token, the system program and the token program. Its
/// arguments are the one byte 0. The builder derives the holding account's
/// address itself and does not return where none exists.
#[verifier::external_body]
pub(crate) fn create_associated_token_account(
    funding: &Address,
    wallet: &Address,
    mint: &Address,
) -> (ix: Instruction)
    requires
        associated_token_address(*wallet, *mint) is Some,
    ensures
        ix.program_id == associated_token_program(),
        ix.accounts@ == seq![
            writable(*funding, true),
            writable(associated_token_address(*wallet, *mint)->Some_0.0, false),
            readonly(*wallet, false),
            readonly(*mint, false),
            readonly(system_program(), false),
            readonly(token_program(), false),
        ],
        ix.data@ == seq![0u8],
{
    let key = |a: &Address| Pubkey::new_from_array(a.bytes);
    let ix = spl_associated_token_account::instruction::create_associated_token_account(&key(funding), &key(wallet), &key(mint));
    let metas = ix.accounts.iter();
    let accounts = metas.map(|m| AccountMeta::new(m.pubkey.to_bytes(), m.is_signer, m.is_writable));
    Instruction::new(ix.program_id.to_bytes(), accounts.collect(), ix.data)
}

/// `metaplex_token_metadata::instruction::create_metadata_accounts`: an
/// instruction of the given program on the writable metadata account, the
/// token, the signing mint authority, the signing and writable payer, the
/// update authority, the system program and the rent sysvar. The builder
/// does not return where a text has 2^32 bytes or more, or where there are
/// 2^32 creators or more.
#[verifier::external_body]
pub(crate) fn create_metadata_accounts(
    program: &Address,
    metadata: &Address,
    mint: &Address,
    mint_authority: &Address,
    payer: &Address,
    update_authority: &Address,
    name: String,
    symbol: String,
    uri: String,
    creators: &Vec<Creator>,
    seller_fee_basis_points: u16,
    update_authority_is_signer: bool,
    is_mutable: bool,
) -> (ix: Instruction)
    requires
        name@.len() <= MAX_TEXT_CHARS,
        symbol@.len() <= MAX_TEXT_CHARS,
        uri@.len() <= MAX_TEXT_CHARS,
        creators@.len() <= u32::MAX,
    ensures
        ix.program_id == *program,
        ix.accounts@ == seq![
            writable(*metadata, false),
            readonly(*mint, false),
            readonly(*mint_authority, true),
            writable(*payer, true),
            readonly(*update_authority, update_authority_is_signer),
            readonly(system_program(), false),
            readonly(rent_sysvar(), false),
        ],
        ix.data@ == create_metadata_data(
            name@,
            symbol@,
            uri@,
            creator_values(creators@),
            seller_fee_basis_points,
            is_mutable,
        ),
{
    let key = |a: &Address| Pubkey::new_from_array(a.bytes);
    let list = creators.iter().map(|c| MetadataCreator {
        address: key(&c.address),
        verified: c.verified,
        share: c.share,
    });
    let ix = metaplex_token_metadata::instruction::create_metadata_accounts(
        key(program), key(metadata), key(mint), key(mint_authority), key(payer),
        key(update_authority), name, symbol, uri, Some(list.collect()),
        seller_fee_basis_points, update_authority_is_signer, is_mutable);
    let metas = ix.accounts.iter();
    let accounts = metas.map(|m| AccountMeta::new(m.pubkey.to_bytes(), m.is_signer, m.is_writable));
    Instruction::new(ix.program_id.to_bytes(), accounts.collect(), ix.data)
}

/// `metaplex_token_metadata::instruction::update_metadata_accounts`, with
/// the metadata's data left as it is: an instruction of the given program on
/// the writable metadata account and the signing update authority.
#[verifier::external_body]
pub(crate) fn update_metadata_accounts(
    program: &Address,
    metadata: &Address,
    update_authority: &Address,
    new_update_authority: Option<Address>,
    primary_sale_happened: Option<bool>,
) -> (ix: Instruction)
    ensures
        ix.program_id == *program,
        ix.accounts@ == seq![writable(*metadata, false), readonly(*update_authority, true)],
        ix.data@ == update_metadata_data(option_bytes(new_update_authority), primary_sale_happened),
{
    let key = |a: &Address| Pubkey::new_from_array(a.bytes);
    let new = new_update_authority.map(|a| key(&a));
    let ix = metaplex_token_metadata::instruction::update_metadata_accounts(
        key(program), key(metadata), key(update_authority), new, None, primary_sale_happened);
    let metas = ix.accounts.iter();
    let accounts = metas.map(|m| AccountMeta::new(m.pubkey.to_bytes(), m.is_signer, m.is_writable));
    Instruction::new(ix.program_id.to_bytes(), accounts.collect(), ix.data)
}

} // verus!
