//! Verified core of a limited-supply token airdrop program.
//!
//! The library decodes requests, derives and checks the program's derived
//! addresses, packs and unpacks the persisted records, validates every account
//! of a request and plans the state transition of each operation. The host
//! glue performs the planned invocations and commits the planned writes only
//! when all of them have succeeded.

pub mod account;
pub mod address;
pub mod bytes;
pub mod error;
pub mod guarantees;
pub mod instruction;
pub mod pda;
pub mod processor;
pub mod service;
pub mod state;
pub mod text;
pub mod transaction;
pub mod util;
