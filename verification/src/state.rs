//! The persisted records and their fixed-offset byte layouts.

use vstd::prelude::*;
use crate::address::{address_of, append_bytes, array_of, read_array, Address};
use crate::address::{lemma_address_of, lemma_address_of_seq, lemma_array_of, lemma_array_of_seq};
use crate::bytes::{le_value, lemma_u64_le_of_value, lemma_u64_le_round_trip};
use crate::bytes::{read_u64_le, u64_le, write_u64_le};
use crate::error::AirdropError;

verus! {

/// Domain tag of the address of a user record.
pub const USER_DATA: &'static str = "user_data";

/// Domain tag of the address of a collection's mint-authority marker.
pub const MINT_AUTHORITY: &'static str = "mint_authority";

/// Configuration and counters of one airdrop collection.
#[derive(Debug, Copy, Clone)]
pub struct AirdropConfig {
    /// Set once, when the collection is initialized.
    pub initialized: bool,
    /// Identity that approves each mint.
    pub authority: Address,
    /// Units issued so far.
    pub issued_count: u64,
    /// Units that the collection may issue in all.
    pub supply_cap: u64,
    /// Prefix of each token's descriptor address, padded with zero bytes.
    pub metadata_uri_prefix: [u8; 32],
    /// Symbol of the collection, padded with zero bytes.
    pub symbol: [u8; 8],
    /// Users registered so far.
    pub registered_users: u64,
    /// Wallet that receives the price of each mint.
    pub revenue_wallet: Address,
    /// Identity that every mint request must name.
    pub admin: Address,
    /// Price of one mint.
    pub unit_price: u64,
}

/// What one user has received from one collection.
#[derive(Debug, Copy, Clone)]
pub struct AirdropUserData {
    /// Set when the record is created.
    pub initialized: bool,
    /// The collection that the record belongs to.
    pub collection: Address,
    /// The user that the record belongs to.
    pub user: Address,
    /// Units that the user has received.
    pub mint_count: u64,
    /// Time, in seconds of the Unix epoch, before which the user may not mint.
    pub cooldown_until: u64,
}

/// The account that signs for a collection towards the token services. It
/// stores nothing: that the address is occupied is all its state.
#[derive(Debug, Copy, Clone)]
pub struct MintAuthority {}

/// The byte that stores an initialization flag.
pub open spec fn flag_byte(flag: bool) -> u8 {
    if flag {
        1u8
    } else {
        0u8
    }
}

impl AirdropConfig {
    /// Length of a stored configuration.
    pub const LEN: usize = 169;

    /// The 169 bytes that store the configuration.
    pub open spec fn packed(self) -> Seq<u8> {
        seq![flag_byte(self.initialized)] + self.authority@ + u64_le(self.issued_count) + u64_le(
            self.supply_cap,
        ) + self.metadata_uri_prefix@ + self.symbol@ + u64_le(self.registered_users)
            + self.revenue_wallet@ + self.admin@ + u64_le(self.unit_price)
    }

    /// The configuration that 169 bytes store, field by field.
    pub open spec fn decoded(data: Seq<u8>) -> AirdropConfig {
        AirdropConfig {
            initialized: data[0] == 1,
            authority: address_of(data.subrange(1, 33)),
            issued_count: le_value(data.subrange(33, 41)) as u64,
            supply_cap: le_value(data.subrange(41, 49)) as u64,
            metadata_uri_prefix: array_of::<32>(data.subrange(49, 81)),
            symbol: array_of::<8>(data.subrange(81, 89)),
            registered_users: le_value(data.subrange(89, 97)) as u64,
            revenue_wallet: address_of(data.subrange(97, 129)),
            admin: address_of(data.subrange(129, 161)),
            unit_price: le_value(data.subrange(161, 169)) as u64,
        }
    }

    /// What reading a configuration from the front of `data` gives: the
    /// flag byte must be 0 or 1, every other byte pattern is a record.
    pub open spec fn unpacked(data: Seq<u8>) -> Result<AirdropConfig, AirdropError> {
        if data[0] > 1 {
            Err(AirdropError::CorruptState)
        } else {
            Ok(Self::decoded(data))
        }
    }

    /// What reading a configuration from the storage of an account gives:
    /// storage of any other length than 169 bytes holds no configuration.
    pub open spec fn stored(data: Seq<u8>) -> Result<AirdropConfig, AirdropError> {
        if data.len() != 169 {
            Err(AirdropError::InvalidAccountData)
        } else {
            Self::unpacked(data)
        }
    }

    /// The supply invariant: never more units issued than the cap allows.
    pub open spec fn within_supply(self) -> bool {
        self.issued_count <= self.supply_cap
    }

    /// Whether the configuration has been initialized.
    pub fn is_initialized(&self) -> (b: bool)
        ensures
            b == self.initialized,
    {
        self.initialized
    }

    /// The bytes that store the configuration.
    pub fn to_bytes(&self) -> (out: Vec<u8>)
        ensures
            out@ == self.packed(),
            out@.len() == 169,
    {
        let mut out: Vec<u8> = Vec::new();
        out.push(if self.initialized { 1u8 } else { 0u8 });
        append_bytes(&mut out, self.authority.bytes.as_slice());
        write_u64_le(&mut out, self.issued_count);
        write_u64_le(&mut out, self.supply_cap);
        append_bytes(&mut out, self.metadata_uri_prefix.as_slice());
        append_bytes(&mut out, self.symbol.as_slice());
        write_u64_le(&mut out, self.registered_users);
        append_bytes(&mut out, self.revenue_wallet.bytes.as_slice());
        append_bytes(&mut out, self.admin.bytes.as_slice());
        write_u64_le(&mut out, self.unit_price);
        proof {
            lemma_config_packed_len(*self);
            assert(out@ =~= self.packed());
        }
        out
    }

    /// Writes the configuration over the first 169 bytes of `dst` and leaves
    /// the rest of `dst` as it was.
    pub fn pack_into_slice(&self, dst: &mut [u8])
        requires
            old(dst)@.len() >= 169,
        ensures
            final(dst)@.len() == old(dst)@.len(),
            final(dst)@.subrange(0, 169) == self.packed(),
            final(dst)@.subrange(169, old(dst)@.len() as int) == old(dst)@.subrange(
                169,
                old(dst)@.len() as int,
            ),
    {
        let bytes = self.to_bytes();
        overwrite_front(dst, bytes.as_slice());
    }

    /// Reads a configuration from the first 169 bytes of `src`.
    pub fn unpack_from_slice(src: &[u8]) -> (r: Result<AirdropConfig, AirdropError>)
        requires
            src@.len() >= 169,
        ensures
            r == Self::unpacked(src@.subrange(0, 169)),
    {
        let ghost data = src@.subrange(0, 169);
        let initialized = match src[0] {
            0 => false,
            1 => true,
            _ => {
                return Err(AirdropError::CorruptState);
            },
        };
        let authority = Address::read(src, 1);
        let issued_count = read_u64_le(src, 33);
        let supply_cap = read_u64_le(src, 41);
        let metadata_uri_prefix = read_array::<32>(src, 49);
        let symbol = read_array::<8>(src, 81);
        let registered_users = read_u64_le(src, 89);
        let revenue_wallet = Address::read(src, 97);
        let admin = Address::read(src, 129);
        let unit_price = read_u64_le(src, 161);
        proof {
            assert(data.subrange(1, 33) =~= src@.subrange(1, 33));
            assert(data.subrange(33, 41) =~= src@.subrange(33, 41));
            assert(data.subrange(41, 49) =~= src@.subrange(41, 49));
            assert(data.subrange(49, 81) =~= src@.subrange(49, 81));
            assert(data.subrange(81, 89) =~= src@.subrange(81, 89));
            assert(data.subrange(89, 97) =~= src@.subrange(89, 97));
            assert(data.subrange(97, 129) =~= src@.subrange(97, 129));
            assert(data.subrange(129, 161) =~= src@.subrange(129, 161));
            assert(data.subrange(161, 169) =~= src@.subrange(161, 169));
        }
        Ok(
            AirdropConfig {
                initialized,
                authority,
                issued_count,
                supply_cap,
                metadata_uri_prefix,
                symbol,
                registered_users,
                revenue_wallet,
                admin,
                unit_price,
            },
        )
    }
}

impl AirdropUserData {
    /// Length of a stored user record.
    pub const LEN: usize = 81;

    /// The 81 bytes that store the record.
    pub open spec fn packed(self) -> Seq<u8> {
        seq![flag_byte(self.initialized)] + self.collection@ + self.user@ + u64_le(self.mint_count)
            + u64_le(self.cooldown_until)
    }

    /// The record that 81 bytes store, field by field.
    pub open spec fn decoded(data: Seq<u8>) -> AirdropUserData {
        AirdropUserData {
            initialized: data[0] == 1,
            collection: address_of(data.subrange(1, 33)),
            user: address_of(data.subrange(33, 65)),
            mint_count: le_value(data.subrange(65, 73)) as u64,
            cooldown_until: le_value(data.subrange(73, 81)) as u64,
        }
    }

    /// What reading a record from the front of `data` gives: the flag byte
    /// must be 0 or 1, every other byte pattern is a record.
    pub open spec fn unpacked(data: Seq<u8>) -> Result<AirdropUserData, AirdropError> {
        if data[0] > 1 {
            Err(AirdropError::CorruptState)
        } else {
            Ok(Self::decoded(data))
        }
    }

    /// What reading a record from the storage of an account gives: storage
    /// of any other length than 81 bytes holds no record.
    pub open spec fn stored(data: Seq<u8>) -> Result<AirdropUserData, AirdropError> {
        if data.len() != 81 {
            Err(AirdropError::InvalidAccountData)
        } else {
            Self::unpacked(data)
        }
    }

    /// Whether the record has been initialized.
    pub fn is_initialized(&self) -> (b: bool)
        ensures
            b == self.initialized,
    {
        self.initialized
    }

    /// The bytes that store the record.
    pub fn to_bytes(&self) -> (out: Vec<u8>)
        ensures
            out@ == self.packed(),
            out@.len() == 81,
    {
        let mut out: Vec<u8> = Vec::new();
        out.push(if self.initialized { 1u8 } else { 0u8 });
        append_bytes(&mut out, self.collection.bytes.as_slice());
        append_bytes(&mut out, self.user.bytes.as_slice());
        write_u64_le(&mut out, self.mint_count);
        write_u64_le(&mut out, self.cooldown_until);
        proof {
            lemma_user_data_packed_len(*self);
            assert(out@ =~= self.packed());
        }
        out
    }

    /// Writes the record over the first 81 bytes of `dst` and leaves the rest
    /// of `dst` as it was.
    pub fn pack_into_slice(&self, dst: &mut [u8])
        requires
            old(dst)@.len() >= 81,
        ensures
            final(dst)@.len() == old(dst)@.len(),
            final(dst)@.subrange(0, 81) == self.packed(),
            final(dst)@.subrange(81, old(dst)@.len() as int) == old(dst)@.subrange(
                81,
                old(dst)@.len() as int,
            ),
    {
        let bytes = self.to_bytes();
        overwrite_front(dst, bytes.as_slice());
    }

    /// Reads a record from the first 81 bytes of `src`.
    pub fn unpack_from_slice(src: &[u8]) -> (r: Result<AirdropUserData, AirdropError>)
        requires
            src@.len() >= 81,
        ensures
            r == Self::unpacked(src@.subrange(0, 81)),
    {
        let ghost data = src@.subrange(0, 81);
        let initialized = match src[0] {
            0 => false,
            1 => true,
            _ => {
                return Err(AirdropError::CorruptState);
            },
        };
        let collection = Address::read(src, 1);
        let user = Address::read(src, 33);
        let mint_count = read_u64_le(src, 65);
        let cooldown_until = read_u64_le(src, 73);
        proof {
            assert(data.subrange(1, 33) =~= src@.subrange(1, 33));
            assert(data.subrange(33, 65) =~= src@.subrange(33, 65));
            assert(data.subrange(65, 73) =~= src@.subrange(65, 73));
            assert(data.subrange(73, 81) =~= src@.subrange(73, 81));
        }
        Ok(AirdropUserData { initialized, collection, user, mint_count, cooldown_until })
    }
}

impl MintAuthority {
    /// Length of the marker's storage.
    pub const LEN: usize = 0;
}

/// Writes `src` over the front of `dst` and leaves the rest as it was.
pub fn overwrite_front(dst: &mut [u8], src: &[u8])
    requires
        old(dst)@.len() >= src@.len(),
    ensures
        final(dst)@.len() == old(dst)@.len(),
        final(dst)@.subrange(0, src@.len() as int) == src@,
        final(dst)@.subrange(src@.len() as int, old(dst)@.len() as int) == old(dst)@.subrange(
            src@.len() as int,
            old(dst)@.len() as int,
        ),
{
    let n = src.len();
    let mut i: usize = 0;
    while i < n
        invariant
            i <= n == src@.len(),
            dst@.len() == old(dst)@.len(),
            dst@.len() >= n,
            forall|j: int| 0 <= j < i ==> dst@[j] == src@[j],
            forall|j: int| i <= j < dst@.len() ==> dst@[j] == old(dst)@[j],
        decreases n - i,
    {
        dst[i] = src[i];
        i += 1;
    }
    assert(dst@.subrange(0, n as int) =~= src@);
    assert(dst@.subrange(n as int, dst@.len() as int) =~= old(dst)@.subrange(
        n as int,
        dst@.len() as int,
    ));
}

/// A stored configuration has 169 bytes.
pub proof fn lemma_config_packed_len(c: AirdropConfig)
    ensures
        c.packed().len() == 169,
{
    lemma_u64_le_round_trip(c.issued_count);
    lemma_u64_le_round_trip(c.supply_cap);
    lemma_u64_le_round_trip(c.registered_users);
    lemma_u64_le_round_trip(c.unit_price);
}

/// A stored user record has 81 bytes.
pub proof fn lemma_user_data_packed_len(u: AirdropUserData)
    ensures
        u.packed().len() == 81,
{
    lemma_u64_le_round_trip(u.mint_count);
    lemma_u64_le_round_trip(u.cooldown_until);
}

/// Packing a configuration and unpacking the bytes gives the same
/// configuration back, whatever its fields hold.
pub proof fn lemma_config_round_trip(c: AirdropConfig)
    ensures
        c.packed().len() == 169,
        AirdropConfig::unpacked(c.packed()) == Ok::<AirdropConfig, AirdropError>(c),
        AirdropConfig::stored(c.packed()) == Ok::<AirdropConfig, AirdropError>(c),
{
    let data = c.packed();
    lemma_config_packed_len(c);
    lemma_u64_le_round_trip(c.issued_count);
    lemma_u64_le_round_trip(c.supply_cap);
    lemma_u64_le_round_trip(c.registered_users);
    lemma_u64_le_round_trip(c.unit_price);
    lemma_address_of(c.authority);
    lemma_address_of(c.revenue_wallet);
    lemma_address_of(c.admin);
    lemma_array_of::<32>(c.metadata_uri_prefix);
    lemma_array_of::<8>(c.symbol);
    assert(data[0] == flag_byte(c.initialized));
    assert(data.subrange(1, 33) =~= c.authority@);
    assert(data.subrange(33, 41) =~= u64_le(c.issued_count));
    assert(data.subrange(41, 49) =~= u64_le(c.supply_cap));
    assert(data.subrange(49, 81) =~= c.metadata_uri_prefix@);
    assert(data.subrange(81, 89) =~= c.symbol@);
    assert(data.subrange(89, 97) =~= u64_le(c.registered_users));
    assert(data.subrange(97, 129) =~= c.revenue_wallet@);
    assert(data.subrange(129, 161) =~= c.admin@);
    assert(data.subrange(161, 169) =~= u64_le(c.unit_price));
}

/// Unpacking a stored configuration and packing it again gives the same 169
/// bytes back: every byte of the storage belongs to a field.
pub proof fn lemma_config_bytes_round_trip(data: Seq<u8>)
    requires
        AirdropConfig::stored(data) is Ok,
    ensures
        AirdropConfig::stored(data)->Ok_0.packed() == data,
{
    let c = AirdropConfig::decoded(data);
    lemma_address_of_seq(data.subrange(1, 33));
    lemma_u64_le_of_value(data.subrange(33, 41));
    lemma_u64_le_of_value(data.subrange(41, 49));
    lemma_array_of_seq::<32>(data.subrange(49, 81));
    lemma_array_of_seq::<8>(data.subrange(81, 89));
    lemma_u64_le_of_value(data.subrange(89, 97));
    lemma_address_of_seq(data.subrange(97, 129));
    lemma_address_of_seq(data.subrange(129, 161));
    lemma_u64_le_of_value(data.subrange(161, 169));
    assert(c.packed() =~= data);
}

/// Unpacking a stored user record and packing it again gives the same 81
/// bytes back: every byte of the storage belongs to a field.
pub proof fn lemma_user_data_bytes_round_trip(data: Seq<u8>)
    requires
        AirdropUserData::stored(data) is Ok,
    ensures
        AirdropUserData::stored(data)->Ok_0.packed() == data,
{
    let u = AirdropUserData::decoded(data);
    lemma_address_of_seq(data.subrange(1, 33));
    lemma_address_of_seq(data.subrange(33, 65));
    lemma_u64_le_of_value(data.subrange(65, 73));
    lemma_u64_le_of_value(data.subrange(73, 81));
    assert(u.packed() =~= data);
}

/// Packing a user record and unpacking the bytes gives the same record back,
/// whatever its fields hold.
pub proof fn lemma_user_data_round_trip(u: AirdropUserData)
    ensures
        u.packed().len() == 81,
        AirdropUserData::unpacked(u.packed()) == Ok::<AirdropUserData, AirdropError>(u),
        AirdropUserData::stored(u.packed()) == Ok::<AirdropUserData, AirdropError>(u),
{
    let data = u.packed();
    lemma_user_data_packed_len(u);
    lemma_u64_le_round_trip(u.mint_count);
    lemma_u64_le_round_trip(u.cooldown_until);
    lemma_address_of(u.collection);
    lemma_address_of(u.user);
    assert(data[0] == flag_byte(u.initialized));
    assert(data.subrange(1, 33) =~= u.collection@);
    assert(data.subrange(33, 65) =~= u.user@);
    assert(data.subrange(65, 73) =~= u64_le(u.mint_count));
    assert(data.subrange(73, 81) =~= u64_le(u.cooldown_until));
}

} // verus!
