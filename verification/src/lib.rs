//! Verified core of the NFT pass book program.

pub mod pubkey;
pub mod account_info;
pub mod codec;
pub mod error;
pub mod utils;
pub mod state;
pub mod text;
pub mod instruction;
pub mod pda;
pub mod token;
pub mod processor;
pub mod master_pass;

use vstd::prelude::*;

verus! {

/// Current program version
pub const PROGRAM_VERSION: u8 = 1;

} // verus!
