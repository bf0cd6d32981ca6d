//! The parts of an account that the program reads and writes.

use vstd::prelude::*;

use crate::pubkey::Pubkey;

verus! {

/// An account as an instruction sees it: its address, its owner program, whether it
/// signed the transaction, whether it may be written, its balance and its data.
#[derive(Clone, Debug, PartialEq)]
pub struct AccountInfo {
    /// Public key of the account
    pub key: Pubkey,
    /// Program that owns this account
    pub owner: Pubkey,
    /// Was the transaction signed by this account's public key?
    pub is_signer: bool,
    /// Is the account writable?
    pub is_writable: bool,
    /// The lamports in the account
    pub lamports: u64,
    /// The data held in this account
    pub data: Vec<u8>,
}

/// `AccountInfo` with its addresses and data as bytes.
pub struct AccountInfoView {
    pub key: Seq<u8>,
    pub owner: Seq<u8>,
    pub is_signer: bool,
    pub is_writable: bool,
    pub lamports: u64,
    pub data: Seq<u8>,
}

impl View for AccountInfo {
    type V = AccountInfoView;

    open spec fn view(&self) -> AccountInfoView {
        AccountInfoView {
            key: self.key@,
            owner: self.owner@,
            is_signer: self.is_signer,
            is_writable: self.is_writable,
            lamports: self.lamports,
            data: self.data@,
        }
    }
}

} // verus!
