//! Decoding of request payloads into operations.

use vstd::prelude::*;
use vstd::slice::slice_subrange;
use crate::address::{array_of, read_array};
use crate::bytes::{le_value, read_u64_le};
use crate::error::AirdropError;

verus! {

/// Arguments of the operation that initializes a collection.
#[derive(Debug, Copy, Clone)]
pub struct InitializeAirdropArgs {
    /// Units that the collection may issue in all.
    pub supply_cap: u64,
    /// Prefix of each token's descriptor address, padded with zero bytes.
    pub metadata_uri_prefix: [u8; 32],
    /// Symbol of the collection, padded with zero bytes.
    pub symbol: [u8; 8],
    /// Price of one mint.
    pub unit_price: u64,
}

/// Arguments of the operation that registers a user: none.
#[derive(Debug, Copy, Clone)]
pub struct InitializeAirdropUserDataArgs {}

/// Arguments of the operation that mints one unit: none.
#[derive(Debug, Copy, Clone)]
pub struct MintOneArgs {}

/// The operations of the program, each with the accounts that a request for
/// it lists, by position.
#[derive(Debug, Copy, Clone)]
pub enum AirdropInstruction {
    /// Initializes a collection.
    ///
    /// 0. `[writable]` collection account, which stores the configuration
    /// 1. `[]` airdrop authority
    /// 2. `[writable]` mint-authority marker of the collection
    /// 3. `[]` revenue wallet
    /// 4. `[]` admin
    /// 5. `[]` rent sysvar
    /// 6. `[signer]` fee payer, which funds the marker
    /// 7. `[]` system program
    InitializeAirdrop(InitializeAirdropArgs),
    /// Registers a user with a collection.
    ///
    /// 0. `[writable]` user record
    /// 1. `[]` user
    /// 2. `[writable]` collection account
    /// 3. `[]` rent sysvar
    /// 4. `[signer]` fee payer, which funds the user record
    /// 5. `[]` system program
    InitializeAirdropUser(InitializeAirdropUserDataArgs),
    /// Mints one unit of a collection to a registered user.
    ///
    /// 0. `[writable]` collection account
    /// 1. `[writable]` user record
    /// 2. `[signer, writable]` new token
    /// 3. `[]` user, who receives the token
    /// 4. `[writable]` the user's holding account for the token
    /// 5. `[writable]` metadata account of the token
    /// 6. `[]` mint-authority marker of the collection
    /// 7. `[]` system program
    /// 8. `[]` clock sysvar
    /// 9. `[]` rent sysvar
    /// 10. `[]` token program
    /// 11. `[]` associated-token-account program
    /// 12. `[]` metadata program
    /// 13. `[signer, writable]` payer, who pays for the token
    /// 14. `[signer]` airdrop authority, which approves the mint
    /// 15. `[]` admin
    /// 16. `[writable]` revenue wallet
    MintOne(MintOneArgs),
}

/// Length of the argument body of the operation that initializes a
/// collection.
pub const INITIALIZE_ARGS_LEN: usize = 56;

/// What the argument body of an initialization decodes to: four fields at
/// fixed offsets, the integers little-endian.
pub open spec fn decoded_initialize_args(body: Seq<u8>) -> Result<
    InitializeAirdropArgs,
    AirdropError,
> {
    if body.len() != 56 {
        Err(AirdropError::BadOperationArgument)
    } else {
        Ok(
            InitializeAirdropArgs {
                supply_cap: le_value(body.subrange(0, 8)) as u64,
                metadata_uri_prefix: array_of::<32>(body.subrange(8, 40)),
                symbol: array_of::<8>(body.subrange(40, 48)),
                unit_price: le_value(body.subrange(48, 56)) as u64,
            },
        )
    }
}

/// What a payload decodes to: its first byte selects the operation, the rest
/// is the argument body.
pub open spec fn decoded_instruction(data: Seq<u8>) -> Result<AirdropInstruction, AirdropError> {
    if data.len() == 0 {
        Err(AirdropError::BadOperationId)
    } else if data[0] == 1 {
        match decoded_initialize_args(data.subrange(1, data.len() as int)) {
            Ok(args) => Ok(AirdropInstruction::InitializeAirdrop(args)),
            Err(e) => Err(e),
        }
    } else if data[0] == 2 {
        Ok(AirdropInstruction::InitializeAirdropUser(InitializeAirdropUserDataArgs {  }))
    } else if data[0] == 3 {
        Ok(AirdropInstruction::MintOne(MintOneArgs {  }))
    } else {
        Err(AirdropError::BadOperationId)
    }
}

/// Decodes the arguments of an initialization from a body of exactly 56
/// bytes.
pub fn parse_initialize_airdrop_args(body: &[u8]) -> (r: Result<
    InitializeAirdropArgs,
    AirdropError,
>)
    ensures
        r == decoded_initialize_args(body@),
{
    if body.len() != INITIALIZE_ARGS_LEN {
        return Err(AirdropError::BadOperationArgument);
    }
    let supply_cap = read_u64_le(body, 0);
    let metadata_uri_prefix = read_array::<32>(body, 8);
    let symbol = read_array::<8>(body, 40);
    let unit_price = read_u64_le(body, 48);
    Ok(InitializeAirdropArgs { supply_cap, metadata_uri_prefix, symbol, unit_price })
}

/// Decodes the arguments of a registration: there are none, and the body is
/// not read.
pub fn parse_initialize_airdrop_user_args(_body: &[u8]) -> (r: Result<
    InitializeAirdropUserDataArgs,
    AirdropError,
>)
    ensures
        r == Ok::<InitializeAirdropUserDataArgs, AirdropError>(InitializeAirdropUserDataArgs {  }),
{
    Ok(InitializeAirdropUserDataArgs {  })
}

/// Decodes the arguments of a mint: there are none, and the body is not
/// read.
pub fn parse_mint_one_args(_body: &[u8]) -> (r: Result<MintOneArgs, AirdropError>)
    ensures
        r == Ok::<MintOneArgs, AirdropError>(MintOneArgs {  }),
{
    Ok(MintOneArgs {  })
}

/// Decodes a payload. Fails with `BadOperationId` when the payload is empty
/// or its first byte is none of 1, 2 and 3, and with `BadOperationArgument`
/// when the body of an initialization does not have 56 bytes.
pub fn deserialize_instruction_data(instruction_data: &[u8]) -> (r: Result<
    AirdropInstruction,
    AirdropError,
>)
    ensures
        r == decoded_instruction(instruction_data@),
{
    let len = instruction_data.len();
    if len == 0 {
        return Err(AirdropError::BadOperationId);
    }
    let body = slice_subrange(instruction_data, 1, len);
    let id = instruction_data[0];
    if id == 1 {
        match parse_initialize_airdrop_args(body) {
            Ok(args) => Ok(AirdropInstruction::InitializeAirdrop(args)),
            Err(e) => Err(e),
        }
    } else if id == 2 {
        match parse_initialize_airdrop_user_args(body) {
            Ok(args) => Ok(AirdropInstruction::InitializeAirdropUser(args)),
            Err(e) => Err(e),
        }
    } else if id == 3 {
        match parse_mint_one_args(body) {
            Ok(args) => Ok(AirdropInstruction::MintOne(args)),
            Err(e) => Err(e),
        }
    } else {
        Err(AirdropError::BadOperationId)
    }
}

} // verus!
