//! Pass books: the offer of passes of one authority.

use vstd::prelude::*;

use crate::codec::{
    bool_bytes, copy_to_front, get_bool, get_key, get_opt_key, get_opt_string, get_opt_u64,
    get_string, get_u64, get_u8, lemma_read_bool, lemma_read_key, lemma_read_opt_key,
    lemma_read_opt_string, lemma_read_opt_u64, lemma_read_string, lemma_read_u64, lemma_read_u8,
    lemma_read_bool_inverse, lemma_read_key_inverse, lemma_read_opt_key_inverse,
    lemma_read_opt_string_inverse, lemma_read_opt_u64_inverse, lemma_read_string_inverse,
    lemma_read_u64_inverse, lemma_read_u8_inverse, lemma_skip_front, opt_key_bytes, opt_key_ok,
    opt_key_view, opt_string_bytes, opt_string_view, opt_text_fits, opt_u64_bytes, put_bool,
    put_key, put_opt_key, put_opt_string, put_opt_u64, put_string, put_u64, put_u8, read_agrees,
    read_agrees_view, read_bool, read_key, read_opt_key, read_opt_string, read_opt_u64,
    read_string, read_u64, read_u8, rest_at, string_bytes, text_bytes, text_fits, u64_bytes,
};
use vstd::seq_lib::lemma_concat_associative;
use crate::error::{fail, program_error_of, view_result, NFTPassError, ProgramError};
use crate::pubkey::Pubkey;
use crate::utils::error_increment;
use crate::state::{
    account_type_bytes, account_type_tag, get_account_type, lemma_read_account_type,
    lemma_read_account_type_inverse, put_account_type, read_account_type, AccountType,
    IsInitialized,
};
use crate::state::{MAX_DESCRIPTION_LEN, MAX_LENGTH_IMAGE_HASH, MAX_NAME_LENGTH, MAX_URI_LENGTH};
use crate::text::{pad_with_nuls, puffed};

verus! {

/// Length of the data of a pass book account.
pub const MAX_PASS_BOOK_LEN: usize = 1 + 4 + MAX_NAME_LENGTH + 4 + MAX_DESCRIPTION_LEN + 4 + MAX_URI_LENGTH
    + 32 + 32 + 1 + 1 + 9 + 9 + 9 + 1 + 4 + MAX_LENGTH_IMAGE_HASH + 8 + 8 + 32 + 33 + 128;

/// Pass state
#[derive(Clone, Copy, Debug, PartialEq, Eq, Structural)]
pub enum PassBookState {
    /// Not activated
    NotActivated,
    /// Activated
    Activated,
    /// Deactivated
    Deactivated,
    /// Ended
    Ended,
}

/// The one-byte tag of each `PassBookState`, its place in the declaration.
pub open spec fn pass_book_state_tag(t: PassBookState) -> u8 {
    match t {
        PassBookState::NotActivated => 0u8,
        PassBookState::Activated => 1u8,
        PassBookState::Deactivated => 2u8,
        PassBookState::Ended => 3u8,
    }
}

pub open spec fn pass_book_state_bytes(t: PassBookState) -> Seq<u8> {
    seq![pass_book_state_tag(t)]
}

pub open spec fn pass_book_state_of_tag(b: u8) -> Option<PassBookState> {
    if b == 0u8 {
        Some(PassBookState::NotActivated)
    } else if b == 1u8 {
        Some(PassBookState::Activated)
    } else if b == 2u8 {
        Some(PassBookState::Deactivated)
    } else if b == 3u8 {
        Some(PassBookState::Ended)
    } else {
        None
    }
}

pub open spec fn read_pass_book_state(s: Seq<u8>) -> Option<(PassBookState, Seq<u8>)> {
    match read_u8(s) {
        Some((b, r)) => match pass_book_state_of_tag(b) {
            Some(t) => Some((t, r)),
            None => None,
        },
        None => None,
    }
}

pub proof fn lemma_read_pass_book_state(t: PassBookState, rest: Seq<u8>)
    ensures
        read_pass_book_state(pass_book_state_bytes(t) + rest) == Some((t, rest)),
{
    lemma_read_u8(pass_book_state_tag(t), rest);
}

pub fn put_pass_book_state(out: &mut Vec<u8>, t: PassBookState)
    ensures
        final(out)@ == old(out)@ + pass_book_state_bytes(t),
{
    let b: u8 = match t {
        PassBookState::NotActivated => 0,
        PassBookState::Activated => 1,
        PassBookState::Deactivated => 2,
        PassBookState::Ended => 3,
    };
    put_u8(out, b);
}

pub fn get_pass_book_state(src: &[u8], pos: usize) -> (r: Option<(PassBookState, usize)>)
    requires
        pos <= src@.len(),
    ensures
        read_agrees(src@, pos, r, read_pass_book_state(rest_at(src@, pos))),
{
    match get_u8(src, pos) {
        Some((b, p)) => {
            if b == 0 {
                Some((PassBookState::NotActivated, p))
            } else if b == 1 {
                Some((PassBookState::Activated, p))
            } else if b == 2 {
                Some((PassBookState::Deactivated, p))
            } else if b == 3 {
                Some((PassBookState::Ended, p))
            } else {
                None
            }
        },
        None => None,
    }
}

pub proof fn lemma_read_pass_book_state_inverse(s: Seq<u8>)
    ensures
        read_pass_book_state(s) matches Some((t, r)) ==> pass_book_state_bytes(t) + r == s,
{
    lemma_read_u8_inverse(s);
}

impl Default for PassBookState {
    fn default() -> (r: Self)
        ensures
            r == PassBookState::NotActivated,
    {
        PassBookState::NotActivated
    }
}

/// Initialize a PassBook params
pub struct InitPassBook {
    /// Name
    pub name: String,
    /// Description
    pub description: String,
    /// URI
    pub uri: String,
    /// PassBook authority
    pub authority: Pubkey,
    /// PassBook mint
    pub mint: Pubkey,
    /// If true authority can make changes at deactivated phase
    pub mutable: bool,
    /// The no of days this pass can be used to access the service
    pub access: Option<u64>,
    /// The no of minutes consumed for each use of this pass
    pub duration: Option<u64>,
    /// Maximum number of passes that can be minted from this pass
    pub max_supply: Option<u64>,
    /// blur has of image
    pub blur_hash: Option<String>,
    /// creation date
    pub created_at: u64,
    /// price
    pub price: u64,
    /// treasury mint
    pub price_mint: Pubkey,
    /// gate keeper mint
    pub gate_keeper: Option<Pubkey>,
}

/// Pass book
#[derive(Clone, Debug, PartialEq)]
pub struct PassBook {
    /// Account type - PassBook
    pub account_type: AccountType,
    /// PassBook authority
    pub authority: Pubkey,
    /// PassBook mint
    pub mint: Pubkey,
    /// Name
    pub name: String,
    /// Description
    pub description: String,
    /// Link to pass image
    pub uri: String,
    /// If true authority can make changes at deactivated phase
    pub mutable: bool,
    /// PassBook state
    pub pass_state: PassBookState,
    /// The no of days this pass can be used to access the service
    pub access: Option<u64>,
    /// The no of minutes consumed for each use of this pass
    pub duration: Option<u64>,
    /// Total number of passes created
    pub supply: u64,
    /// Maximum number of passes that can be minted from this pass
    pub max_supply: Option<u64>,
    /// blur hash of image
    pub blur_hash: Option<String>,
    /// creation date
    pub created_at: u64,
    /// price
    pub price: u64,
    /// price mint
    pub price_mint: Pubkey,
    /// gate_keeper that must sign the transaction to buy or mint
    pub gate_keeper: Option<Pubkey>,
}

/// `PassBook` with its addresses as bytes and its texts as characters.
pub struct PassBookView {
    pub account_type: AccountType,
    pub authority: Seq<u8>,
    pub mint: Seq<u8>,
    pub name: Seq<char>,
    pub description: Seq<char>,
    pub uri: Seq<char>,
    pub mutable: bool,
    pub pass_state: PassBookState,
    pub access: Option<u64>,
    pub duration: Option<u64>,
    pub supply: u64,
    pub max_supply: Option<u64>,
    pub blur_hash: Option<Seq<char>>,
    pub created_at: u64,
    pub price: u64,
    pub price_mint: Seq<u8>,
    pub gate_keeper: Option<Seq<u8>>,
}

impl View for PassBook {
    type V = PassBookView;

    open spec fn view(&self) -> PassBookView {
        PassBookView {
            account_type: self.account_type,
            authority: self.authority@,
            mint: self.mint@,
            name: self.name@,
            description: self.description@,
            uri: self.uri@,
            mutable: self.mutable,
            pass_state: self.pass_state,
            access: self.access,
            duration: self.duration,
            supply: self.supply,
            max_supply: self.max_supply,
            blur_hash: opt_string_view(self.blur_hash),
            created_at: self.created_at,
            price: self.price,
            price_mint: self.price_mint@,
            gate_keeper: opt_key_view(self.gate_keeper),
        }
    }
}

/// The values of `PassBook` that the format can hold: addresses of 32 bytes, texts
/// of at most `u32::MAX` bytes.
pub open spec fn pass_book_ok(v: PassBookView) -> bool {
    v.authority.len() == 32
    && v.mint.len() == 32
    && text_fits(v.name)
    && text_fits(v.description)
    && text_fits(v.uri)
    && opt_text_fits(v.blur_hash)
    && v.price_mint.len() == 32
    && opt_key_ok(v.gate_keeper)
}

/// The encoding of a `PassBook`: its fields in order.
#[verifier::opaque]
pub open spec fn pass_book_bytes(v: PassBookView) -> Seq<u8> {
    account_type_bytes(v.account_type) + (v.authority + (v.mint + (string_bytes(v.name) + (string_bytes(v.description) + (string_bytes(v.uri) + (bool_bytes(v.mutable) + (pass_book_state_bytes(v.pass_state) + (opt_u64_bytes(v.access) + (opt_u64_bytes(v.duration) + (u64_bytes(v.supply) + (opt_u64_bytes(v.max_supply) + (opt_string_bytes(v.blur_hash) + (u64_bytes(v.created_at) + (u64_bytes(v.price) + (v.price_mint + (opt_key_bytes(v.gate_keeper)))))))))))))))))
}

/// Reads the fields of a `PassBook` in order.
#[verifier::opaque]
pub open spec fn read_pass_book(s: Seq<u8>) -> Option<(PassBookView, Seq<u8>)> {
    match read_account_type(s) {
        Some((account_type, r0)) => {
            match read_key(r0) {
                Some((authority, r1)) => {
                    match read_key(r1) {
                        Some((mint, r2)) => {
                            match read_string(r2) {
                                Some((name, r3)) => {
                                    match read_string(r3) {
                                        Some((description, r4)) => {
                                            match read_string(r4) {
                                                Some((uri, r5)) => {
                                                    match read_bool(r5) {
                                                        Some((mutable, r6)) => {
                                                            match read_pass_book_state(r6) {
                                                                Some((pass_state, r7)) => {
                                                                    match read_opt_u64(r7) {
                                                                        Some((access, r8)) => {
                                                                            match read_opt_u64(r8) {
                                                                                Some((duration, r9)) => {
                                                                                    match read_u64(r9) {
                                                                                        Some((supply, r10)) => {
                                                                                            match read_opt_u64(r10) {
                                                                                                Some((max_supply, r11)) => {
                                                                                                    match read_opt_string(r11) {
                                                                                                        Some((blur_hash, r12)) => {
                                                                                                            match read_u64(r12) {
                                                                                                                Some((created_at, r13)) => {
                                                                                                                    match read_u64(r13) {
                                                                                                                        Some((price, r14)) => {
                                                                                                                            match read_key(r14) {
                                                                                                                                Some((price_mint, r15)) => {
                                                                                                                                    match read_opt_key(r15) {
                                                                                                                                        Some((gate_keeper, r16)) => {
                                                                                                                                            Some((PassBookView { account_type, authority, mint, name, description, uri, mutable, pass_state, access, duration, supply, max_supply, blur_hash, created_at, price, price_mint, gate_keeper }, r16))
                                                                                                                                        },
                                                                                                                                        None => None,
                                                                                                                                    }
                                                                                                                                },
                                                                                                                                None => None,
                                                                                                                            }
                                                                                                                        },
                                                                                                                        None => None,
                                                                                                                    }
                                                                                                                },
                                                                                                                None => None,
                                                                                                            }
                                                                                                        },
                                                                                                        None => None,
                                                                                                    }
                                                                                                },
                                                                                                None => None,
                                                                                            }
                                                                                        },
                                                                                        None => None,
                                                                                    }
                                                                                },
                                                                                None => None,
                                                                            }
                                                                        },
                                                                        None => None,
                                                                    }
                                                                },
                                                                None => None,
                                                            }
                                                        },
                                                        None => None,
                                                    }
                                                },
                                                None => None,
                                            }
                                        },
                                        None => None,
                                    }
                                },
                                None => None,
                            }
                        },
                        None => None,
                    }
                },
                None => None,
            }
        },
        None => None,
    }
}

/// Reading the encoding of a `PassBook` gives it back and leaves what followed.
pub proof fn lemma_read_pass_book(v: PassBookView, rest: Seq<u8>)
    requires
        pass_book_ok(v),
    ensures
        read_pass_book(pass_book_bytes(v) + rest) == Some((v, rest)),
{
    reveal(pass_book_bytes);
    reveal(read_pass_book);
    let q17 = rest;
    let q16 = opt_key_bytes(v.gate_keeper) + q17;
    let q15 = v.price_mint + q16;
    let q14 = u64_bytes(v.price) + q15;
    let q13 = u64_bytes(v.created_at) + q14;
    let q12 = opt_string_bytes(v.blur_hash) + q13;
    let q11 = opt_u64_bytes(v.max_supply) + q12;
    let q10 = u64_bytes(v.supply) + q11;
    let q9 = opt_u64_bytes(v.duration) + q10;
    let q8 = opt_u64_bytes(v.access) + q9;
    let q7 = pass_book_state_bytes(v.pass_state) + q8;
    let q6 = bool_bytes(v.mutable) + q7;
    let q5 = string_bytes(v.uri) + q6;
    let q4 = string_bytes(v.description) + q5;
    let q3 = string_bytes(v.name) + q4;
    let q2 = v.mint + q3;
    let q1 = v.authority + q2;
    let q0 = account_type_bytes(v.account_type) + q1;
    lemma_concat_associative(v.price_mint, opt_key_bytes(v.gate_keeper), rest);
    lemma_concat_associative(u64_bytes(v.price), v.price_mint + (opt_key_bytes(v.gate_keeper)), rest);
    lemma_concat_associative(u64_bytes(v.created_at), u64_bytes(v.price) + (v.price_mint + (opt_key_bytes(v.gate_keeper))), rest);
    lemma_concat_associative(opt_string_bytes(v.blur_hash), u64_bytes(v.created_at) + (u64_bytes(v.price) + (v.price_mint + (opt_key_bytes(v.gate_keeper)))), rest);
    lemma_concat_associative(opt_u64_bytes(v.max_supply), opt_string_bytes(v.blur_hash) + (u64_bytes(v.created_at) + (u64_bytes(v.price) + (v.price_mint + (opt_key_bytes(v.gate_keeper))))), rest);
    lemma_concat_associative(u64_bytes(v.supply), opt_u64_bytes(v.max_supply) + (opt_string_bytes(v.blur_hash) + (u64_bytes(v.created_at) + (u64_bytes(v.price) + (v.price_mint + (opt_key_bytes(v.gate_keeper)))))), rest);
    lemma_concat_associative(opt_u64_bytes(v.duration), u64_bytes(v.supply) + (opt_u64_bytes(v.max_supply) + (opt_string_bytes(v.blur_hash) + (u64_bytes(v.created_at) + (u64_bytes(v.price) + (v.price_mint + (opt_key_bytes(v.gate_keeper))))))), rest);
    lemma_concat_associative(opt_u64_bytes(v.access), opt_u64_bytes(v.duration) + (u64_bytes(v.supply) + (opt_u64_bytes(v.max_supply) + (opt_string_bytes(v.blur_hash) + (u64_bytes(v.created_at) + (u64_bytes(v.price) + (v.price_mint + (opt_key_bytes(v.gate_keeper)))))))), rest);
    lemma_concat_associative(pass_book_state_bytes(v.pass_state), opt_u64_bytes(v.access) + (opt_u64_bytes(v.duration) + (u64_bytes(v.supply) + (opt_u64_bytes(v.max_supply) + (opt_string_bytes(v.blur_hash) + (u64_bytes(v.created_at) + (u64_bytes(v.price) + (v.price_mint + (opt_key_bytes(v.gate_keeper))))))))), rest);
    lemma_concat_associative(bool_bytes(v.mutable), pass_book_state_bytes(v.pass_state) + (opt_u64_bytes(v.access) + (opt_u64_bytes(v.duration) + (u64_bytes(v.supply) + (opt_u64_bytes(v.max_supply) + (opt_string_bytes(v.blur_hash) + (u64_bytes(v.created_at) + (u64_bytes(v.price) + (v.price_mint + (opt_key_bytes(v.gate_keeper)))))))))), rest);
    lemma_concat_associative(string_bytes(v.uri), bool_bytes(v.mutable) + (pass_book_state_bytes(v.pass_state) + (opt_u64_bytes(v.access) + (opt_u64_bytes(v.duration) + (u64_bytes(v.supply) + (opt_u64_bytes(v.max_supply) + (opt_string_bytes(v.blur_hash) + (u64_bytes(v.created_at) + (u64_bytes(v.price) + (v.price_mint + (opt_key_bytes(v.gate_keeper))))))))))), rest);
    lemma_concat_associative(string_bytes(v.description), string_bytes(v.uri) + (bool_bytes(v.mutable) + (pass_book_state_bytes(v.pass_state) + (opt_u64_bytes(v.access) + (opt_u64_bytes(v.duration) + (u64_bytes(v.supply) + (opt_u64_bytes(v.max_supply) + (opt_string_bytes(v.blur_hash) + (u64_bytes(v.created_at) + (u64_bytes(v.price) + (v.price_mint + (opt_key_bytes(v.gate_keeper)))))))))))), rest);
    lemma_concat_associative(string_bytes(v.name), string_bytes(v.description) + (string_bytes(v.uri) + (bool_bytes(v.mutable) + (pass_book_state_bytes(v.pass_state) + (opt_u64_bytes(v.access) + (opt_u64_bytes(v.duration) + (u64_bytes(v.supply) + (opt_u64_bytes(v.max_supply) + (opt_string_bytes(v.blur_hash) + (u64_bytes(v.created_at) + (u64_bytes(v.price) + (v.price_mint + (opt_key_bytes(v.gate_keeper))))))))))))), rest);
    lemma_concat_associative(v.mint, string_bytes(v.name) + (string_bytes(v.description) + (string_bytes(v.uri) + (bool_bytes(v.mutable) + (pass_book_state_bytes(v.pass_state) + (opt_u64_bytes(v.access) + (opt_u64_bytes(v.duration) + (u64_bytes(v.supply) + (opt_u64_bytes(v.max_supply) + (opt_string_bytes(v.blur_hash) + (u64_bytes(v.created_at) + (u64_bytes(v.price) + (v.price_mint + (opt_key_bytes(v.gate_keeper)))))))))))))), rest);
    lemma_concat_associative(v.authority, v.mint + (string_bytes(v.name) + (string_bytes(v.description) + (string_bytes(v.uri) + (bool_bytes(v.mutable) + (pass_book_state_bytes(v.pass_state) + (opt_u64_bytes(v.access) + (opt_u64_bytes(v.duration) + (u64_bytes(v.supply) + (opt_u64_bytes(v.max_supply) + (opt_string_bytes(v.blur_hash) + (u64_bytes(v.created_at) + (u64_bytes(v.price) + (v.price_mint + (opt_key_bytes(v.gate_keeper))))))))))))))), rest);
    lemma_concat_associative(account_type_bytes(v.account_type), v.authority + (v.mint + (string_bytes(v.name) + (string_bytes(v.description) + (string_bytes(v.uri) + (bool_bytes(v.mutable) + (pass_book_state_bytes(v.pass_state) + (opt_u64_bytes(v.access) + (opt_u64_bytes(v.duration) + (u64_bytes(v.supply) + (opt_u64_bytes(v.max_supply) + (opt_string_bytes(v.blur_hash) + (u64_bytes(v.created_at) + (u64_bytes(v.price) + (v.price_mint + (opt_key_bytes(v.gate_keeper)))))))))))))))), rest);
    assert(pass_book_bytes(v) + rest == q0);
    lemma_read_account_type(v.account_type, q1);
    lemma_read_key(v.authority, q2);
    lemma_read_key(v.mint, q3);
    lemma_read_string(v.name, q4);
    lemma_read_string(v.description, q5);
    lemma_read_string(v.uri, q6);
    lemma_read_bool(v.mutable, q7);
    lemma_read_pass_book_state(v.pass_state, q8);
    lemma_read_opt_u64(v.access, q9);
    lemma_read_opt_u64(v.duration, q10);
    lemma_read_u64(v.supply, q11);
    lemma_read_opt_u64(v.max_supply, q12);
    lemma_read_opt_string(v.blur_hash, q13);
    lemma_read_u64(v.created_at, q14);
    lemma_read_u64(v.price, q15);
    lemma_read_key(v.price_mint, q16);
    lemma_read_opt_key(v.gate_keeper, q17);
}

/// A successful read of a `PassBook` consumed exactly its encoding.
pub proof fn lemma_read_pass_book_inverse(s: Seq<u8>)
    ensures
        read_pass_book(s) matches Some((v, r)) ==> pass_book_ok(v) && pass_book_bytes(v) + r == s,
{
    reveal(pass_book_bytes);
    reveal(read_pass_book);
    if let Some((v, r)) = read_pass_book(s) {
        lemma_read_account_type_inverse(s);
        let s1 = read_account_type(s)->Some_0.1;
        lemma_read_key_inverse(s1);
        let s2 = read_key(s1)->Some_0.1;
        lemma_read_key_inverse(s2);
        let s3 = read_key(s2)->Some_0.1;
        lemma_read_string_inverse(s3);
        let s4 = read_string(s3)->Some_0.1;
        lemma_read_string_inverse(s4);
        let s5 = read_string(s4)->Some_0.1;
        lemma_read_string_inverse(s5);
        let s6 = read_string(s5)->Some_0.1;
        lemma_read_bool_inverse(s6);
        let s7 = read_bool(s6)->Some_0.1;
        lemma_read_pass_book_state_inverse(s7);
        let s8 = read_pass_book_state(s7)->Some_0.1;
        lemma_read_opt_u64_inverse(s8);
        let s9 = read_opt_u64(s8)->Some_0.1;
        lemma_read_opt_u64_inverse(s9);
        let s10 = read_opt_u64(s9)->Some_0.1;
        lemma_read_u64_inverse(s10);
        let s11 = read_u64(s10)->Some_0.1;
        lemma_read_opt_u64_inverse(s11);
        let s12 = read_opt_u64(s11)->Some_0.1;
        lemma_read_opt_string_inverse(s12);
        let s13 = read_opt_string(s12)->Some_0.1;
        lemma_read_u64_inverse(s13);
        let s14 = read_u64(s13)->Some_0.1;
        lemma_read_u64_inverse(s14);
        let s15 = read_u64(s14)->Some_0.1;
        lemma_read_key_inverse(s15);
        let s16 = read_key(s15)->Some_0.1;
        lemma_read_opt_key_inverse(s16);
        let s17 = read_opt_key(s16)->Some_0.1;
        lemma_concat_associative(v.price_mint, opt_key_bytes(v.gate_keeper), r);
        lemma_concat_associative(u64_bytes(v.price), v.price_mint + (opt_key_bytes(v.gate_keeper)), r);
        lemma_concat_associative(u64_bytes(v.created_at), u64_bytes(v.price) + (v.price_mint + (opt_key_bytes(v.gate_keeper))), r);
        lemma_concat_associative(opt_string_bytes(v.blur_hash), u64_bytes(v.created_at) + (u64_bytes(v.price) + (v.price_mint + (opt_key_bytes(v.gate_keeper)))), r);
        lemma_concat_associative(opt_u64_bytes(v.max_supply), opt_string_bytes(v.blur_hash) + (u64_bytes(v.created_at) + (u64_bytes(v.price) + (v.price_mint + (opt_key_bytes(v.gate_keeper))))), r);
        lemma_concat_associative(u64_bytes(v.supply), opt_u64_bytes(v.max_supply) + (opt_string_bytes(v.blur_hash) + (u64_bytes(v.created_at) + (u64_bytes(v.price) + (v.price_mint + (opt_key_bytes(v.gate_keeper)))))), r);
        lemma_concat_associative(opt_u64_bytes(v.duration), u64_bytes(v.supply) + (opt_u64_bytes(v.max_supply) + (opt_string_bytes(v.blur_hash) + (u64_bytes(v.created_at) + (u64_bytes(v.price) + (v.price_mint + (opt_key_bytes(v.gate_keeper))))))), r);
        lemma_concat_associative(opt_u64_bytes(v.access), opt_u64_bytes(v.duration) + (u64_bytes(v.supply) + (opt_u64_bytes(v.max_supply) + (opt_string_bytes(v.blur_hash) + (u64_bytes(v.created_at) + (u64_bytes(v.price) + (v.price_mint + (opt_key_bytes(v.gate_keeper)))))))), r);
        lemma_concat_associative(pass_book_state_bytes(v.pass_state), opt_u64_bytes(v.access) + (opt_u64_bytes(v.duration) + (u64_bytes(v.supply) + (opt_u64_bytes(v.max_supply) + (opt_string_bytes(v.blur_hash) + (u64_bytes(v.created_at) + (u64_bytes(v.price) + (v.price_mint + (opt_key_bytes(v.gate_keeper))))))))), r);
        lemma_concat_associative(bool_bytes(v.mutable), pass_book_state_bytes(v.pass_state) + (opt_u64_bytes(v.access) + (opt_u64_bytes(v.duration) + (u64_bytes(v.supply) + (opt_u64_bytes(v.max_supply) + (opt_string_bytes(v.blur_hash) + (u64_bytes(v.created_at) + (u64_bytes(v.price) + (v.price_mint + (opt_key_bytes(v.gate_keeper)))))))))), r);
        lemma_concat_associative(string_bytes(v.uri), bool_bytes(v.mutable) + (pass_book_state_bytes(v.pass_state) + (opt_u64_bytes(v.access) + (opt_u64_bytes(v.duration) + (u64_bytes(v.supply) + (opt_u64_bytes(v.max_supply) + (opt_string_bytes(v.blur_hash) + (u64_bytes(v.created_at) + (u64_bytes(v.price) + (v.price_mint + (opt_key_bytes(v.gate_keeper))))))))))), r);
        lemma_concat_associative(string_bytes(v.description), string_bytes(v.uri) + (bool_bytes(v.mutable) + (pass_book_state_bytes(v.pass_state) + (opt_u64_bytes(v.access) + (opt_u64_bytes(v.duration) + (u64_bytes(v.supply) + (opt_u64_bytes(v.max_supply) + (opt_string_bytes(v.blur_hash) + (u64_bytes(v.created_at) + (u64_bytes(v.price) + (v.price_mint + (opt_key_bytes(v.gate_keeper)))))))))))), r);
        lemma_concat_associative(string_bytes(v.name), string_bytes(v.description) + (string_bytes(v.uri) + (bool_bytes(v.mutable) + (pass_book_state_bytes(v.pass_state) + (opt_u64_bytes(v.access) + (opt_u64_bytes(v.duration) + (u64_bytes(v.supply) + (opt_u64_bytes(v.max_supply) + (opt_string_bytes(v.blur_hash) + (u64_bytes(v.created_at) + (u64_bytes(v.price) + (v.price_mint + (opt_key_bytes(v.gate_keeper))))))))))))), r);
        lemma_concat_associative(v.mint, string_bytes(v.name) + (string_bytes(v.description) + (string_bytes(v.uri) + (bool_bytes(v.mutable) + (pass_book_state_bytes(v.pass_state) + (opt_u64_bytes(v.access) + (opt_u64_bytes(v.duration) + (u64_bytes(v.supply) + (opt_u64_bytes(v.max_supply) + (opt_string_bytes(v.blur_hash) + (u64_bytes(v.created_at) + (u64_bytes(v.price) + (v.price_mint + (opt_key_bytes(v.gate_keeper)))))))))))))), r);
        lemma_concat_associative(v.authority, v.mint + (string_bytes(v.name) + (string_bytes(v.description) + (string_bytes(v.uri) + (bool_bytes(v.mutable) + (pass_book_state_bytes(v.pass_state) + (opt_u64_bytes(v.access) + (opt_u64_bytes(v.duration) + (u64_bytes(v.supply) + (opt_u64_bytes(v.max_supply) + (opt_string_bytes(v.blur_hash) + (u64_bytes(v.created_at) + (u64_bytes(v.price) + (v.price_mint + (opt_key_bytes(v.gate_keeper))))))))))))))), r);
        lemma_concat_associative(account_type_bytes(v.account_type), v.authority + (v.mint + (string_bytes(v.name) + (string_bytes(v.description) + (string_bytes(v.uri) + (bool_bytes(v.mutable) + (pass_book_state_bytes(v.pass_state) + (opt_u64_bytes(v.access) + (opt_u64_bytes(v.duration) + (u64_bytes(v.supply) + (opt_u64_bytes(v.max_supply) + (opt_string_bytes(v.blur_hash) + (u64_bytes(v.created_at) + (u64_bytes(v.price) + (v.price_mint + (opt_key_bytes(v.gate_keeper)))))))))))))))), r);
    }
}

/// The length of the encoding of a `PassBook`: the lengths of its fields added up.
pub proof fn lemma_pass_book_bytes_len(v: PassBookView)
    ensures
        pass_book_bytes(v).len() == (account_type_bytes(v.account_type)).len() + (v.authority).len() + (v.mint).len() + (string_bytes(v.name)).len() + (string_bytes(v.description)).len() + (string_bytes(v.uri)).len() + (bool_bytes(v.mutable)).len() + (pass_book_state_bytes(v.pass_state)).len() + (opt_u64_bytes(v.access)).len() + (opt_u64_bytes(v.duration)).len() + (u64_bytes(v.supply)).len() + (opt_u64_bytes(v.max_supply)).len() + (opt_string_bytes(v.blur_hash)).len() + (u64_bytes(v.created_at)).len() + (u64_bytes(v.price)).len() + (v.price_mint).len() + (opt_key_bytes(v.gate_keeper)).len(),
{
    reveal(pass_book_bytes);
}

impl PassBook {
    /// Appends the encoding of this `PassBook` to `out`.
    pub fn serialize(&self, out: &mut Vec<u8>)
        requires
            pass_book_ok(self@),
        ensures
            final(out)@ == old(out)@ + pass_book_bytes(self@),
    {
        reveal(pass_book_bytes);
        let ghost x = out@;
        put_account_type(out, self.account_type);
        let ghost x0 = out@;
        put_key(out, &self.authority);
        let ghost x1 = out@;
        put_key(out, &self.mint);
        let ghost x2 = out@;
        put_string(out, &self.name);
        let ghost x3 = out@;
        put_string(out, &self.description);
        let ghost x4 = out@;
        put_string(out, &self.uri);
        let ghost x5 = out@;
        put_bool(out, self.mutable);
        let ghost x6 = out@;
        put_pass_book_state(out, self.pass_state);
        let ghost x7 = out@;
        put_opt_u64(out, self.access);
        let ghost x8 = out@;
        put_opt_u64(out, self.duration);
        let ghost x9 = out@;
        put_u64(out, self.supply);
        let ghost x10 = out@;
        put_opt_u64(out, self.max_supply);
        let ghost x11 = out@;
        put_opt_string(out, &self.blur_hash);
        let ghost x12 = out@;
        put_u64(out, self.created_at);
        let ghost x13 = out@;
        put_u64(out, self.price);
        let ghost x14 = out@;
        put_key(out, &self.price_mint);
        let ghost x15 = out@;
        put_opt_key(out, &self.gate_keeper);
        let ghost x16 = out@;
        proof {
            lemma_concat_associative(x14, self@.price_mint, opt_key_bytes(self@.gate_keeper));
            lemma_concat_associative(x13, u64_bytes(self@.price), self@.price_mint + (opt_key_bytes(self@.gate_keeper)));
            lemma_concat_associative(x12, u64_bytes(self@.created_at), u64_bytes(self@.price) + (self@.price_mint + (opt_key_bytes(self@.gate_keeper))));
            lemma_concat_associative(x11, opt_string_bytes(self@.blur_hash), u64_bytes(self@.created_at) + (u64_bytes(self@.price) + (self@.price_mint + (opt_key_bytes(self@.gate_keeper)))));
            lemma_concat_associative(x10, opt_u64_bytes(self@.max_supply), opt_string_bytes(self@.blur_hash) + (u64_bytes(self@.created_at) + (u64_bytes(self@.price) + (self@.price_mint + (opt_key_bytes(self@.gate_keeper))))));
            lemma_concat_associative(x9, u64_bytes(self@.supply), opt_u64_bytes(self@.max_supply) + (opt_string_bytes(self@.blur_hash) + (u64_bytes(self@.created_at) + (u64_bytes(self@.price) + (self@.price_mint + (opt_key_bytes(self@.gate_keeper)))))));
            lemma_concat_associative(x8, opt_u64_bytes(self@.duration), u64_bytes(self@.supply) + (opt_u64_bytes(self@.max_supply) + (opt_string_bytes(self@.blur_hash) + (u64_bytes(self@.created_at) + (u64_bytes(self@.price) + (self@.price_mint + (opt_key_bytes(self@.gate_keeper))))))));
            lemma_concat_associative(x7, opt_u64_bytes(self@.access), opt_u64_bytes(self@.duration) + (u64_bytes(self@.supply) + (opt_u64_bytes(self@.max_supply) + (opt_string_bytes(self@.blur_hash) + (u64_bytes(self@.created_at) + (u64_bytes(self@.price) + (self@.price_mint + (opt_key_bytes(self@.gate_keeper)))))))));
            lemma_concat_associative(x6, pass_book_state_bytes(self@.pass_state), opt_u64_bytes(self@.access) + (opt_u64_bytes(self@.duration) + (u64_bytes(self@.supply) + (opt_u64_bytes(self@.max_supply) + (opt_string_bytes(self@.blur_hash) + (u64_bytes(self@.created_at) + (u64_bytes(self@.price) + (self@.price_mint + (opt_key_bytes(self@.gate_keeper))))))))));
            lemma_concat_associative(x5, bool_bytes(self@.mutable), pass_book_state_bytes(self@.pass_state) + (opt_u64_bytes(self@.access) + (opt_u64_bytes(self@.duration) + (u64_bytes(self@.supply) + (opt_u64_bytes(self@.max_supply) + (opt_string_bytes(self@.blur_hash) + (u64_bytes(self@.created_at) + (u64_bytes(self@.price) + (self@.price_mint + (opt_key_bytes(self@.gate_keeper)))))))))));
            lemma_concat_associative(x4, string_bytes(self@.uri), bool_bytes(self@.mutable) + (pass_book_state_bytes(self@.pass_state) + (opt_u64_bytes(self@.access) + (opt_u64_bytes(self@.duration) + (u64_bytes(self@.supply) + (opt_u64_bytes(self@.max_supply) + (opt_string_bytes(self@.blur_hash) + (u64_bytes(self@.created_at) + (u64_bytes(self@.price) + (self@.price_mint + (opt_key_bytes(self@.gate_keeper))))))))))));
            lemma_concat_associative(x3, string_bytes(self@.description), string_bytes(self@.uri) + (bool_bytes(self@.mutable) + (pass_book_state_bytes(self@.pass_state) + (opt_u64_bytes(self@.access) + (opt_u64_bytes(self@.duration) + (u64_bytes(self@.supply) + (opt_u64_bytes(self@.max_supply) + (opt_string_bytes(self@.blur_hash) + (u64_bytes(self@.created_at) + (u64_bytes(self@.price) + (self@.price_mint + (opt_key_bytes(self@.gate_keeper)))))))))))));
            lemma_concat_associative(x2, string_bytes(self@.name), string_bytes(self@.description) + (string_bytes(self@.uri) + (bool_bytes(self@.mutable) + (pass_book_state_bytes(self@.pass_state) + (opt_u64_bytes(self@.access) + (opt_u64_bytes(self@.duration) + (u64_bytes(self@.supply) + (opt_u64_bytes(self@.max_supply) + (opt_string_bytes(self@.blur_hash) + (u64_bytes(self@.created_at) + (u64_bytes(self@.price) + (self@.price_mint + (opt_key_bytes(self@.gate_keeper))))))))))))));
            lemma_concat_associative(x1, self@.mint, string_bytes(self@.name) + (string_bytes(self@.description) + (string_bytes(self@.uri) + (bool_bytes(self@.mutable) + (pass_book_state_bytes(self@.pass_state) + (opt_u64_bytes(self@.access) + (opt_u64_bytes(self@.duration) + (u64_bytes(self@.supply) + (opt_u64_bytes(self@.max_supply) + (opt_string_bytes(self@.blur_hash) + (u64_bytes(self@.created_at) + (u64_bytes(self@.price) + (self@.price_mint + (opt_key_bytes(self@.gate_keeper)))))))))))))));
            lemma_concat_associative(x0, self@.authority, self@.mint + (string_bytes(self@.name) + (string_bytes(self@.description) + (string_bytes(self@.uri) + (bool_bytes(self@.mutable) + (pass_book_state_bytes(self@.pass_state) + (opt_u64_bytes(self@.access) + (opt_u64_bytes(self@.duration) + (u64_bytes(self@.supply) + (opt_u64_bytes(self@.max_supply) + (opt_string_bytes(self@.blur_hash) + (u64_bytes(self@.created_at) + (u64_bytes(self@.price) + (self@.price_mint + (opt_key_bytes(self@.gate_keeper))))))))))))))));
            lemma_concat_associative(x, account_type_bytes(self@.account_type), self@.authority + (self@.mint + (string_bytes(self@.name) + (string_bytes(self@.description) + (string_bytes(self@.uri) + (bool_bytes(self@.mutable) + (pass_book_state_bytes(self@.pass_state) + (opt_u64_bytes(self@.access) + (opt_u64_bytes(self@.duration) + (u64_bytes(self@.supply) + (opt_u64_bytes(self@.max_supply) + (opt_string_bytes(self@.blur_hash) + (u64_bytes(self@.created_at) + (u64_bytes(self@.price) + (self@.price_mint + (opt_key_bytes(self@.gate_keeper)))))))))))))))));
        }
        assert(out@ == x + pass_book_bytes(self@));
    }

    /// Reads a `PassBook` from `src` at `pos`; gives it and the position after it.
    pub fn deserialize(src: &[u8], pos: usize) -> (r: Option<(Self, usize)>)
        requires
            pos <= src@.len(),
        ensures
            read_agrees_view(src@, pos, r, read_pass_book(rest_at(src@, pos)), |x: PassBook| x@),
    {
        reveal(read_pass_book);
        let (account_type, p0) = match get_account_type(src, pos) {
            Some(x) => x,
            None => return None,
        };
        let (authority, p1) = match get_key(src, p0) {
            Some(x) => x,
            None => return None,
        };
        let (mint, p2) = match get_key(src, p1) {
            Some(x) => x,
            None => return None,
        };
        let (name, p3) = match get_string(src, p2) {
            Some(x) => x,
            None => return None,
        };
        let (description, p4) = match get_string(src, p3) {
            Some(x) => x,
            None => return None,
        };
        let (uri, p5) = match get_string(src, p4) {
            Some(x) => x,
            None => return None,
        };
        let (mutable, p6) = match get_bool(src, p5) {
            Some(x) => x,
            None => return None,
        };
        let (pass_state, p7) = match get_pass_book_state(src, p6) {
            Some(x) => x,
            None => return None,
        };
        let (access, p8) = match get_opt_u64(src, p7) {
            Some(x) => x,
            None => return None,
        };
        let (duration, p9) = match get_opt_u64(src, p8) {
            Some(x) => x,
            None => return None,
        };
        let (supply, p10) = match get_u64(src, p9) {
            Some(x) => x,
            None => return None,
        };
        let (max_supply, p11) = match get_opt_u64(src, p10) {
            Some(x) => x,
            None => return None,
        };
        let (blur_hash, p12) = match get_opt_string(src, p11) {
            Some(x) => x,
            None => return None,
        };
        let (created_at, p13) = match get_u64(src, p12) {
            Some(x) => x,
            None => return None,
        };
        let (price, p14) = match get_u64(src, p13) {
            Some(x) => x,
            None => return None,
        };
        let (price_mint, p15) = match get_key(src, p14) {
            Some(x) => x,
            None => return None,
        };
        let (gate_keeper, p16) = match get_opt_key(src, p15) {
            Some(x) => x,
            None => return None,
        };
        Some((PassBook { account_type, authority, mint, name, description, uri, mutable, pass_state, access, duration, supply, max_supply, blur_hash, created_at, price, price_mint, gate_keeper }, p16))
    }
}

/// How `PassBook::unpack_from_slice` reads account data: the first byte must be the
/// `PassBook` or `Uninitialized` tag and the data `MAX_PASS_BOOK_LEN` bytes long; then the
/// fields are read from the front, and what follows them is ignored.
pub open spec fn pass_book_from_slice(src: Seq<u8>) -> Result<PassBookView, ProgramError> {
    if (src[0] != 3u8 && src[0] != 0u8) || src.len() != MAX_PASS_BOOK_LEN {
        Err(ProgramError::InvalidAccountData)
    } else {
        match read_pass_book(src) {
            Some((v, _)) => Ok(v),
            None => Err(ProgramError::BorshIoError),
        }
    }
}

/// How `PassBook::unpack_unchecked` reads account data of any length.
pub open spec fn pass_book_unpack_unchecked(src: Seq<u8>) -> Result<PassBookView, ProgramError> {
    if src.len() != MAX_PASS_BOOK_LEN {
        Err(ProgramError::InvalidAccountData)
    } else {
        pass_book_from_slice(src)
    }
}

/// How `PassBook::unpack` reads account data: as `unpack_unchecked`, and the account must
/// be initialized.
pub open spec fn pass_book_unpack(src: Seq<u8>) -> Result<PassBookView, ProgramError> {
    match pass_book_unpack_unchecked(src) {
        Ok(v) => if v.account_type == AccountType::PassBook {
            Ok(v)
        } else {
            Err(ProgramError::UninitializedAccount)
        },
        Err(e) => Err(e),
    }
}

/// Data written by `PassBook::pack` reads back as the value that was packed.
pub proof fn lemma_pass_book_unpack_packed(v: PassBookView, tail: Seq<u8>)
    requires
        pass_book_ok(v),
        (pass_book_bytes(v) + tail).len() == MAX_PASS_BOOK_LEN,
    ensures
        v.account_type == AccountType::PassBook || v.account_type == AccountType::Uninitialized
            ==> pass_book_unpack_unchecked(pass_book_bytes(v) + tail) == Ok::<PassBookView, ProgramError>(v),
        v.account_type == AccountType::PassBook ==> pass_book_unpack(pass_book_bytes(v) + tail) == Ok::<PassBookView, ProgramError>(v),
        v.account_type == AccountType::Uninitialized ==> pass_book_unpack(pass_book_bytes(v) + tail)
            == Err::<PassBookView, ProgramError>(ProgramError::UninitializedAccount),
{
    lemma_read_pass_book(v, tail);
    reveal(pass_book_bytes);
    assert((pass_book_bytes(v) + tail)[0] == account_type_tag(v.account_type));
}

impl PassBook {
    /// Writes the encoding of this `PassBook` over the front of `dst`.
    pub fn pack_into_slice(&self, dst: &mut [u8])
        requires
            pass_book_ok(self@),
            pass_book_bytes(self@).len() <= old(dst)@.len(),
        ensures
            final(dst)@ == pass_book_bytes(self@) + old(dst)@.skip(pass_book_bytes(self@).len() as int),
    {
        let mut buf: Vec<u8> = Vec::new();
        self.serialize(&mut buf);
        copy_to_front(dst, &buf);
    }

    /// Reads a `PassBook` from account data whose first byte is its tag or `Uninitialized`.
    pub fn unpack_from_slice(src: &[u8]) -> (r: Result<Self, ProgramError>)
        requires
            src@.len() > 0,
        ensures
            view_result(r) == pass_book_from_slice(src@),
    {
        if (src[0] != 3 && src[0] != 0) || src.len() != MAX_PASS_BOOK_LEN {
            return Err(ProgramError::InvalidAccountData);
        }
        assert(rest_at(src@, 0) =~= src@);
        match Self::deserialize(src, 0) {
            Some((v, _)) => Ok(v),
            None => Err(ProgramError::BorshIoError),
        }
    }

    /// Reads a `PassBook` from account data of the packed length.
    pub fn unpack_unchecked(src: &[u8]) -> (r: Result<Self, ProgramError>)
        ensures
            view_result(r) == pass_book_unpack_unchecked(src@),
    {
        if src.len() != MAX_PASS_BOOK_LEN {
            return Err(ProgramError::InvalidAccountData);
        }
        Self::unpack_from_slice(src)
    }

    /// Reads an initialized `PassBook` from account data of the packed length.
    pub fn unpack(src: &[u8]) -> (r: Result<Self, ProgramError>)
        ensures
            view_result(r) == pass_book_unpack(src@),
    {
        let v = Self::unpack_unchecked(src)?;
        if v.is_initialized() {
            Ok(v)
        } else {
            Err(ProgramError::UninitializedAccount)
        }
    }

    /// Writes `src` over the front of `dst`, which must be `MAX_PASS_BOOK_LEN` bytes long.
    pub fn pack(src: Self, dst: &mut [u8]) -> (r: Result<(), ProgramError>)
        requires
            pass_book_ok(src@),
            old(dst)@.len() == MAX_PASS_BOOK_LEN ==> pass_book_bytes(src@).len() <= MAX_PASS_BOOK_LEN,
        ensures
            old(dst)@.len() != MAX_PASS_BOOK_LEN ==> r == Err::<(), ProgramError>(ProgramError::InvalidAccountData)
                && final(dst)@ == old(dst)@,
            old(dst)@.len() == MAX_PASS_BOOK_LEN ==> r == Ok::<(), ProgramError>(())
                && final(dst)@ == pass_book_bytes(src@) + old(dst)@.skip(pass_book_bytes(src@).len() as int),
    {
        if dst.len() != MAX_PASS_BOOK_LEN {
            return Err(ProgramError::InvalidAccountData);
        }
        src.pack_into_slice(dst);
        Ok(())
    }

}

impl IsInitialized for PassBook {
    open spec fn initialized(&self) -> bool {
        self.account_type == AccountType::PassBook
    }

    fn is_initialized(&self) -> (r: bool) {
        self.account_type != AccountType::Uninitialized && self.account_type == AccountType::PassBook
    }
}

/// Data that `PassBook::unpack_unchecked` reads is the encoding of the value read, then
/// bytes that it ignores: packing the value again leaves the data as it was.
pub proof fn lemma_pass_book_unpack_inverse(src: Seq<u8>)
    ensures
        pass_book_unpack_unchecked(src) matches Ok(v) ==> pass_book_ok(v) && pass_book_bytes(v).len() <= src.len()
            && pass_book_bytes(v) + src.skip(pass_book_bytes(v).len() as int) == src,
{
    lemma_read_pass_book_inverse(src);
    if let Ok(v) = pass_book_unpack_unchecked(src) {
        lemma_skip_front(pass_book_bytes(v), read_pass_book(src)->Some_0.1);
    }
}

/// Writing a pass book over the front of data that holds one, where its encoding is no
/// longer than the data, reads back as the pass book written.
pub proof fn lemma_pass_book_rewritten(data: Seq<u8>, w: PassBookView)
    requires
        pass_book_unpack(data) is Ok,
        pass_book_ok(w),
        w.account_type == AccountType::PassBook,
        pass_book_bytes(w).len() <= data.len(),
    ensures
        pass_book_unpack(pass_book_bytes(w) + data.skip(pass_book_bytes(w).len() as int)) == Ok::<
            PassBookView,
            ProgramError,
        >(w),
{
    lemma_pass_book_unpack_packed(w, data.skip(pass_book_bytes(w).len() as int));
}

impl PassBook {
    /// Initializes the pass book from `params`, not yet activated; the supply stays as it is.
    pub fn init(&mut self, params: InitPassBook)
        ensures
            final(self)@ == (PassBookView {
                account_type: AccountType::PassBook,
                pass_state: PassBookState::NotActivated,
                name: params.name@,
                description: params.description@,
                uri: params.uri@,
                authority: params.authority@,
                mint: params.mint@,
                mutable: params.mutable,
                access: params.access,
                duration: params.duration,
                max_supply: params.max_supply,
                blur_hash: opt_string_view(params.blur_hash),
                created_at: params.created_at,
                price: params.price,
                price_mint: params.price_mint@,
                gate_keeper: opt_key_view(params.gate_keeper),
                ..old(self)@
            }),
    {
        self.account_type = AccountType::PassBook;
        self.authority = params.authority;
        self.description = params.description;
        self.uri = params.uri;
        self.name = params.name;
        self.mint = params.mint;
        self.mutable = params.mutable;
        self.pass_state = PassBookState::NotActivated;
        self.access = params.access;
        self.duration = params.duration;
        self.blur_hash = params.blur_hash;
        self.max_supply = params.max_supply;
        self.created_at = params.created_at;
        self.price = params.price;
        self.price_mint = params.price_mint;
        self.gate_keeper = params.gate_keeper;
    }

    /// Increment total passes
    pub fn increment_supply(&mut self) -> (r: Result<(), ProgramError>)
        ensures
            old(self).supply < u64::MAX ==> r is Ok && final(self)@ == (PassBookView {
                supply: (old(self).supply + 1) as u64,
                ..old(self)@
            }),
            old(self).supply == u64::MAX ==> r == Err::<(), ProgramError>(
                program_error_of(NFTPassError::Overflow),
            ) && final(self)@ == old(self)@,
    {
        self.supply = error_increment(self.supply)?;
        Ok(())
    }

    /// Succeeds exactly when the pass book is activated.
    pub fn assert_activated(&self) -> (r: Result<(), ProgramError>)
        ensures
            r == if self.pass_state != PassBookState::Activated {
                Err::<(), ProgramError>(program_error_of(NFTPassError::PassNotActivated))
            } else {
                Ok(())
            },
    {
        if self.pass_state != PassBookState::Activated {
            return Err(fail(NFTPassError::PassNotActivated));
        }
        Ok(())
    }

    /// Succeeds exactly when the pass book is mutable and not activated.
    pub fn assert_able_to_edit(&self) -> (r: Result<(), ProgramError>)
        ensures
            r == able_to_edit(self@),
    {
        if !self.mutable {
            return Err(fail(NFTPassError::ImmutablePassBook));
        }
        if self.pass_state == PassBookState::Activated {
            return Err(fail(NFTPassError::WrongPassState));
        }
        Ok(())
    }

    /// Pads the URI and the description with NUL characters to their greatest lengths
    /// in bytes.
    pub fn puff_out_data_fields(&mut self)
        requires
            text_bytes(old(self).uri@).len() <= MAX_URI_LENGTH,
            text_bytes(old(self).description@).len() <= MAX_DESCRIPTION_LEN,
        ensures
            final(self)@ == (PassBookView {
                uri: puffed(old(self).uri@, MAX_URI_LENGTH),
                description: puffed(old(self).description@, MAX_DESCRIPTION_LEN),
                ..old(self)@
            }),
    {
        let n = MAX_URI_LENGTH - self.uri.as_str().len();
        self.uri = pad_with_nuls(&self.uri, n);
        let n = MAX_DESCRIPTION_LEN - self.description.as_str().len();
        self.description = pad_with_nuls(&self.description, n);
    }
}

/// What `assert_able_to_edit` answers: `ImmutablePassBook` for a pass book that cannot
/// change, `WrongPassState` for an activated one.
pub open spec fn able_to_edit(v: PassBookView) -> Result<(), ProgramError> {
    if !v.mutable {
        Err(program_error_of(NFTPassError::ImmutablePassBook))
    } else if v.pass_state == PassBookState::Activated {
        Err(program_error_of(NFTPassError::WrongPassState))
    } else {
        Ok(())
    }
}

} // verus!
