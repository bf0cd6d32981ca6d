//! Master passes: the pass collections of a store.

use vstd::prelude::*;

use crate::codec::{
    bool_bytes, copy_to_front, get_bool, get_key, get_string, get_u32, get_u8, lemma_read_bool,
    lemma_read_key, lemma_read_string, lemma_read_u32, lemma_read_u8, lemma_read_bool_inverse,
    lemma_read_key_inverse, lemma_read_string_inverse, lemma_read_u32_inverse,
    lemma_read_u8_inverse, lemma_skip_front, put_bool, put_key, put_string, put_u32, put_u8,
    read_agrees, read_agrees_view, read_bool, read_key, read_string, read_u32, read_u8, rest_at,
    string_bytes, text_bytes, text_fits, u32_bytes,
};
use vstd::seq_lib::lemma_concat_associative;
use crate::error::{fail, program_error_of, view_result, NFTPassError, ProgramError};
use crate::pubkey::Pubkey;

use crate::master_pass::{
    account_type_bytes, account_type_tag, get_account_type, lemma_read_account_type,
    lemma_read_account_type_inverse, put_account_type, read_account_type, AccountType,
};
use crate::state::IsInitialized;
use crate::state::{MAX_DESCRIPTION_LEN, MAX_NAME_LENGTH, MAX_URI_LENGTH};
use crate::text::{pad_with_nuls, puffed};

verus! {

/// Length of the data of a master pass account.
pub const MAX_MASTER_PASS_LEN: usize = 1 + 4 + MAX_NAME_LENGTH + 4 + MAX_DESCRIPTION_LEN + 4 + MAX_URI_LENGTH + 32 + 32 + 1
    + 5 + 1 + 128;

/// Distribution type
#[derive(Clone, Copy, Debug, PartialEq, Eq, Structural)]
pub enum Period {
    /// Monthly 30days
    Monthly,
    /// Yearly  365days
    Yearly,
    /// Unlimited
    Lifetime,
    /// custom period in days
    Custom(u32),
}

impl Default for Period {
    fn default() -> (r: Self)
        ensures
            r == Period::Monthly,
    {
        Period::Monthly
    }
}

/// The encoding of a `Period`: its place in the declaration in one byte, then the days
/// of a custom period.
pub open spec fn period_bytes(p: Period) -> Seq<u8> {
    match p {
        Period::Monthly => seq![0u8],
        Period::Yearly => seq![1u8],
        Period::Lifetime => seq![2u8],
        Period::Custom(days) => seq![3u8] + u32_bytes(days),
    }
}

pub open spec fn read_period(s: Seq<u8>) -> Option<(Period, Seq<u8>)> {
    match read_u8(s) {
        Some((b, r)) => if b == 0u8 {
            Some((Period::Monthly, r))
        } else if b == 1u8 {
            Some((Period::Yearly, r))
        } else if b == 2u8 {
            Some((Period::Lifetime, r))
        } else if b == 3u8 {
            match read_u32(r) {
                Some((days, r2)) => Some((Period::Custom(days), r2)),
                None => None,
            }
        } else {
            None
        },
        None => None,
    }
}

pub proof fn lemma_read_period(t: Period, rest: Seq<u8>)
    ensures
        read_period(period_bytes(t) + rest) == Some((t, rest)),
{
    match t {
        Period::Monthly => lemma_read_u8(0u8, rest),
        Period::Yearly => lemma_read_u8(1u8, rest),
        Period::Lifetime => lemma_read_u8(2u8, rest),
        Period::Custom(days) => {
            assert(period_bytes(t) + rest =~= seq![3u8] + (u32_bytes(days) + rest));
            lemma_read_u8(3u8, u32_bytes(days) + rest);
            lemma_read_u32(days, rest);
        },
    }
}

pub proof fn lemma_read_period_inverse(s: Seq<u8>)
    ensures
        read_period(s) matches Some((t, r)) ==> period_bytes(t) + r == s,
{
    lemma_read_u8_inverse(s);
    if let Some((b, r)) = read_u8(s) {
        if b == 3u8 {
            lemma_read_u32_inverse(r);
            if let Some((days, r2)) = read_u32(r) {
                assert(seq![3u8] + (u32_bytes(days) + r2) =~= (seq![3u8] + u32_bytes(days)) + r2);
            }
        }
    }
}

pub fn put_period(out: &mut Vec<u8>, t: Period)
    ensures
        final(out)@ == old(out)@ + period_bytes(t),
{
    match t {
        Period::Monthly => put_u8(out, 0),
        Period::Yearly => put_u8(out, 1),
        Period::Lifetime => put_u8(out, 2),
        Period::Custom(days) => {
            let ghost before = out@;
            put_u8(out, 3);
            put_u32(out, days);
            assert(out@ =~= before + period_bytes(t));
        },
    }
}

pub fn get_period(src: &[u8], pos: usize) -> (r: Option<(Period, usize)>)
    requires
        pos <= src@.len(),
    ensures
        read_agrees(src@, pos, r, read_period(rest_at(src@, pos))),
{
    match get_u8(src, pos) {
        Some((b, p)) => {
            if b == 0 {
                Some((Period::Monthly, p))
            } else if b == 1 {
                Some((Period::Yearly, p))
            } else if b == 2 {
                Some((Period::Lifetime, p))
            } else if b == 3 {
                match get_u32(src, p) {
                    Some((days, q)) => Some((Period::Custom(days), q)),
                    None => None,
                }
            } else {
                None
            }
        },
        None => None,
    }
}

/// Pack state
#[derive(Clone, Copy, Debug, PartialEq, Eq, Structural)]
pub enum MasterPassState {
    /// Not activated
    NotActivated,
    /// Activated
    Activated,
    /// Deactivated
    Deactivated,
    /// Ended
    Ended,
}

/// The one-byte tag of each `MasterPassState`, its place in the declaration.
pub open spec fn master_pass_state_tag(t: MasterPassState) -> u8 {
    match t {
        MasterPassState::NotActivated => 0u8,
        MasterPassState::Activated => 1u8,
        MasterPassState::Deactivated => 2u8,
        MasterPassState::Ended => 3u8,
    }
}

pub open spec fn master_pass_state_bytes(t: MasterPassState) -> Seq<u8> {
    seq![master_pass_state_tag(t)]
}

pub open spec fn master_pass_state_of_tag(b: u8) -> Option<MasterPassState> {
    if b == 0u8 {
        Some(MasterPassState::NotActivated)
    } else if b == 1u8 {
        Some(MasterPassState::Activated)
    } else if b == 2u8 {
        Some(MasterPassState::Deactivated)
    } else if b == 3u8 {
        Some(MasterPassState::Ended)
    } else {
        None
    }
}

pub open spec fn read_master_pass_state(s: Seq<u8>) -> Option<(MasterPassState, Seq<u8>)> {
    match read_u8(s) {
        Some((b, r)) => match master_pass_state_of_tag(b) {
            Some(t) => Some((t, r)),
            None => None,
        },
        None => None,
    }
}

pub proof fn lemma_read_master_pass_state(t: MasterPassState, rest: Seq<u8>)
    ensures
        read_master_pass_state(master_pass_state_bytes(t) + rest) == Some((t, rest)),
{
    lemma_read_u8(master_pass_state_tag(t), rest);
}

pub fn put_master_pass_state(out: &mut Vec<u8>, t: MasterPassState)
    ensures
        final(out)@ == old(out)@ + master_pass_state_bytes(t),
{
    let b: u8 = match t {
        MasterPassState::NotActivated => 0,
        MasterPassState::Activated => 1,
        MasterPassState::Deactivated => 2,
        MasterPassState::Ended => 3,
    };
    put_u8(out, b);
}

pub fn get_master_pass_state(src: &[u8], pos: usize) -> (r: Option<(MasterPassState, usize)>)
    requires
        pos <= src@.len(),
    ensures
        read_agrees(src@, pos, r, read_master_pass_state(rest_at(src@, pos))),
{
    match get_u8(src, pos) {
        Some((b, p)) => {
            if b == 0 {
                Some((MasterPassState::NotActivated, p))
            } else if b == 1 {
                Some((MasterPassState::Activated, p))
            } else if b == 2 {
                Some((MasterPassState::Deactivated, p))
            } else if b == 3 {
                Some((MasterPassState::Ended, p))
            } else {
                None
            }
        },
        None => None,
    }
}

pub proof fn lemma_read_master_pass_state_inverse(s: Seq<u8>)
    ensures
        read_master_pass_state(s) matches Some((t, r)) ==> master_pass_state_bytes(t) + r == s,
{
    lemma_read_u8_inverse(s);
}

impl Default for MasterPassState {
    fn default() -> (r: Self)
        ensures
            r == MasterPassState::NotActivated,
    {
        MasterPassState::NotActivated
    }
}

/// Initialize a PackSet params
pub struct InitMasterPassParams {
    /// Name
    pub name: String,
    /// Description
    pub description: String,
    /// URI
    pub uri: String,
    /// MasterPass authority
    pub authority: Pubkey,
    /// MasterPass mint
    pub mint: Pubkey,
    /// If true authority can make changes at deactivated phase
    pub mutable: bool,
    /// Period type
    pub period: Period,
}

/// Pack set
#[derive(Clone, Debug, PartialEq, Default)]
pub struct MasterPass {
    /// Account type - MasterPass
    pub account_type: AccountType,
    /// MasterPass mint
    pub mint: Pubkey,
    /// MasterPass authority
    pub authority: Pubkey,
    /// Description
    pub description: String,
    /// Link to pack set image
    pub uri: String,
    /// Name
    pub name: String,
    /// If true authority can make changes at deactivated phase
    pub mutable: bool,
    /// Period type
    pub period: Period,
    /// MasterPass state
    pub pass_state: MasterPassState,
}

/// `MasterPass` with its addresses as bytes and its texts as characters.
pub struct MasterPassView {
    pub account_type: AccountType,
    pub mint: Seq<u8>,
    pub authority: Seq<u8>,
    pub description: Seq<char>,
    pub uri: Seq<char>,
    pub name: Seq<char>,
    pub mutable: bool,
    pub period: Period,
    pub pass_state: MasterPassState,
}

impl View for MasterPass {
    type V = MasterPassView;

    open spec fn view(&self) -> MasterPassView {
        MasterPassView {
            account_type: self.account_type,
            mint: self.mint@,
            authority: self.authority@,
            description: self.description@,
            uri: self.uri@,
            name: self.name@,
            mutable: self.mutable,
            period: self.period,
            pass_state: self.pass_state,
        }
    }
}

/// The values of `MasterPass` that the format can hold: addresses of 32 bytes, texts
/// of at most `u32::MAX` bytes.
pub open spec fn master_pass_ok(v: MasterPassView) -> bool {
    v.mint.len() == 32
    && v.authority.len() == 32
    && text_fits(v.description)
    && text_fits(v.uri)
    && text_fits(v.name)
}

/// The encoding of a `MasterPass`: its fields in order.
#[verifier::opaque]
pub open spec fn master_pass_bytes(v: MasterPassView) -> Seq<u8> {
    account_type_bytes(v.account_type) + (v.mint + (v.authority + (string_bytes(v.description) + (string_bytes(v.uri) + (string_bytes(v.name) + (bool_bytes(v.mutable) + (period_bytes(v.period) + (master_pass_state_bytes(v.pass_state)))))))))
}

/// Reads the fields of a `MasterPass` in order.
#[verifier::opaque]
pub open spec fn read_master_pass(s: Seq<u8>) -> Option<(MasterPassView, Seq<u8>)> {
    match read_account_type(s) {
        Some((account_type, r0)) => {
            match read_key(r0) {
                Some((mint, r1)) => {
                    match read_key(r1) {
                        Some((authority, r2)) => {
                            match read_string(r2) {
                                Some((description, r3)) => {
                                    match read_string(r3) {
                                        Some((uri, r4)) => {
                                            match read_string(r4) {
                                                Some((name, r5)) => {
                                                    match read_bool(r5) {
                                                        Some((mutable, r6)) => {
                                                            match read_period(r6) {
                                                                Some((period, r7)) => {
                                                                    match read_master_pass_state(r7) {
                                                                        Some((pass_state, r8)) => {
                                                                            Some((MasterPassView { account_type, mint, authority, description, uri, name, mutable, period, pass_state }, r8))
                                                                        },
                                                                        None => None,
                                                                    }
                                                                },
                                                                None => None,
                                                            }
                                                        },
                                                        None => None,
                                                    }
                                                },
                                                None => None,
                                            }
                                        },
                                        None => None,
                                    }
                                },
                                None => None,
                            }
                        },
                        None => None,
                    }
                },
                None => None,
            }
        },
        None => None,
    }
}

/// Reading the encoding of a `MasterPass` gives it back and leaves what followed.
pub proof fn lemma_read_master_pass(v: MasterPassView, rest: Seq<u8>)
    requires
        master_pass_ok(v),
    ensures
        read_master_pass(master_pass_bytes(v) + rest) == Some((v, rest)),
{
    reveal(master_pass_bytes);
    reveal(read_master_pass);
    let q9 = rest;
    let q8 = master_pass_state_bytes(v.pass_state) + q9;
    let q7 = period_bytes(v.period) + q8;
    let q6 = bool_bytes(v.mutable) + q7;
    let q5 = string_bytes(v.name) + q6;
    let q4 = string_bytes(v.uri) + q5;
    let q3 = string_bytes(v.description) + q4;
    let q2 = v.authority + q3;
    let q1 = v.mint + q2;
    let q0 = account_type_bytes(v.account_type) + q1;
    lemma_concat_associative(period_bytes(v.period), master_pass_state_bytes(v.pass_state), rest);
    lemma_concat_associative(bool_bytes(v.mutable), period_bytes(v.period) + (master_pass_state_bytes(v.pass_state)), rest);
    lemma_concat_associative(string_bytes(v.name), bool_bytes(v.mutable) + (period_bytes(v.period) + (master_pass_state_bytes(v.pass_state))), rest);
    lemma_concat_associative(string_bytes(v.uri), string_bytes(v.name) + (bool_bytes(v.mutable) + (period_bytes(v.period) + (master_pass_state_bytes(v.pass_state)))), rest);
    lemma_concat_associative(string_bytes(v.description), string_bytes(v.uri) + (string_bytes(v.name) + (bool_bytes(v.mutable) + (period_bytes(v.period) + (master_pass_state_bytes(v.pass_state))))), rest);
    lemma_concat_associative(v.authority, string_bytes(v.description) + (string_bytes(v.uri) + (string_bytes(v.name) + (bool_bytes(v.mutable) + (period_bytes(v.period) + (master_pass_state_bytes(v.pass_state)))))), rest);
    lemma_concat_associative(v.mint, v.authority + (string_bytes(v.description) + (string_bytes(v.uri) + (string_bytes(v.name) + (bool_bytes(v.mutable) + (period_bytes(v.period) + (master_pass_state_bytes(v.pass_state))))))), rest);
    lemma_concat_associative(account_type_bytes(v.account_type), v.mint + (v.authority + (string_bytes(v.description) + (string_bytes(v.uri) + (string_bytes(v.name) + (bool_bytes(v.mutable) + (period_bytes(v.period) + (master_pass_state_bytes(v.pass_state)))))))), rest);
    assert(master_pass_bytes(v) + rest == q0);
    lemma_read_account_type(v.account_type, q1);
    lemma_read_key(v.mint, q2);
    lemma_read_key(v.authority, q3);
    lemma_read_string(v.description, q4);
    lemma_read_string(v.uri, q5);
    lemma_read_string(v.name, q6);
    lemma_read_bool(v.mutable, q7);
    lemma_read_period(v.period, q8);
    lemma_read_master_pass_state(v.pass_state, q9);
}

/// A successful read of a `MasterPass` consumed exactly its encoding.
pub proof fn lemma_read_master_pass_inverse(s: Seq<u8>)
    ensures
        read_master_pass(s) matches Some((v, r)) ==> master_pass_ok(v) && master_pass_bytes(v) + r == s,
{
    reveal(master_pass_bytes);
    reveal(read_master_pass);
    if let Some((v, r)) = read_master_pass(s) {
        lemma_read_account_type_inverse(s);
        let s1 = read_account_type(s)->Some_0.1;
        lemma_read_key_inverse(s1);
        let s2 = read_key(s1)->Some_0.1;
        lemma_read_key_inverse(s2);
        let s3 = read_key(s2)->Some_0.1;
        lemma_read_string_inverse(s3);
        let s4 = read_string(s3)->Some_0.1;
        lemma_read_string_inverse(s4);
        let s5 = read_string(s4)->Some_0.1;
        lemma_read_string_inverse(s5);
        let s6 = read_string(s5)->Some_0.1;
        lemma_read_bool_inverse(s6);
        let s7 = read_bool(s6)->Some_0.1;
        lemma_read_period_inverse(s7);
        let s8 = read_period(s7)->Some_0.1;
        lemma_read_master_pass_state_inverse(s8);
        let s9 = read_master_pass_state(s8)->Some_0.1;
        lemma_concat_associative(period_bytes(v.period), master_pass_state_bytes(v.pass_state), r);
        lemma_concat_associative(bool_bytes(v.mutable), period_bytes(v.period) + (master_pass_state_bytes(v.pass_state)), r);
        lemma_concat_associative(string_bytes(v.name), bool_bytes(v.mutable) + (period_bytes(v.period) + (master_pass_state_bytes(v.pass_state))), r);
        lemma_concat_associative(string_bytes(v.uri), string_bytes(v.name) + (bool_bytes(v.mutable) + (period_bytes(v.period) + (master_pass_state_bytes(v.pass_state)))), r);
        lemma_concat_associative(string_bytes(v.description), string_bytes(v.uri) + (string_bytes(v.name) + (bool_bytes(v.mutable) + (period_bytes(v.period) + (master_pass_state_bytes(v.pass_state))))), r);
        lemma_concat_associative(v.authority, string_bytes(v.description) + (string_bytes(v.uri) + (string_bytes(v.name) + (bool_bytes(v.mutable) + (period_bytes(v.period) + (master_pass_state_bytes(v.pass_state)))))), r);
        lemma_concat_associative(v.mint, v.authority + (string_bytes(v.description) + (string_bytes(v.uri) + (string_bytes(v.name) + (bool_bytes(v.mutable) + (period_bytes(v.period) + (master_pass_state_bytes(v.pass_state))))))), r);
        lemma_concat_associative(account_type_bytes(v.account_type), v.mint + (v.authority + (string_bytes(v.description) + (string_bytes(v.uri) + (string_bytes(v.name) + (bool_bytes(v.mutable) + (period_bytes(v.period) + (master_pass_state_bytes(v.pass_state)))))))), r);
    }
}

/// The length of the encoding of a `MasterPass`: the lengths of its fields added up.
pub proof fn lemma_master_pass_bytes_len(v: MasterPassView)
    ensures
        master_pass_bytes(v).len() == (account_type_bytes(v.account_type)).len() + (v.mint).len() + (v.authority).len() + (string_bytes(v.description)).len() + (string_bytes(v.uri)).len() + (string_bytes(v.name)).len() + (bool_bytes(v.mutable)).len() + (period_bytes(v.period)).len() + (master_pass_state_bytes(v.pass_state)).len(),
{
    reveal(master_pass_bytes);
}

impl MasterPass {
    /// Appends the encoding of this `MasterPass` to `out`.
    pub fn serialize(&self, out: &mut Vec<u8>)
        requires
            master_pass_ok(self@),
        ensures
            final(out)@ == old(out)@ + master_pass_bytes(self@),
    {
        reveal(master_pass_bytes);
        let ghost x = out@;
        put_account_type(out, self.account_type);
        let ghost x0 = out@;
        put_key(out, &self.mint);
        let ghost x1 = out@;
        put_key(out, &self.authority);
        let ghost x2 = out@;
        put_string(out, &self.description);
        let ghost x3 = out@;
        put_string(out, &self.uri);
        let ghost x4 = out@;
        put_string(out, &self.name);
        let ghost x5 = out@;
        put_bool(out, self.mutable);
        let ghost x6 = out@;
        put_period(out, self.period);
        let ghost x7 = out@;
        put_master_pass_state(out, self.pass_state);
        let ghost x8 = out@;
        proof {
            lemma_concat_associative(x6, period_bytes(self@.period), master_pass_state_bytes(self@.pass_state));
            lemma_concat_associative(x5, bool_bytes(self@.mutable), period_bytes(self@.period) + (master_pass_state_bytes(self@.pass_state)));
            lemma_concat_associative(x4, string_bytes(self@.name), bool_bytes(self@.mutable) + (period_bytes(self@.period) + (master_pass_state_bytes(self@.pass_state))));
            lemma_concat_associative(x3, string_bytes(self@.uri), string_bytes(self@.name) + (bool_bytes(self@.mutable) + (period_bytes(self@.period) + (master_pass_state_bytes(self@.pass_state)))));
            lemma_concat_associative(x2, string_bytes(self@.description), string_bytes(self@.uri) + (string_bytes(self@.name) + (bool_bytes(self@.mutable) + (period_bytes(self@.period) + (master_pass_state_bytes(self@.pass_state))))));
            lemma_concat_associative(x1, self@.authority, string_bytes(self@.description) + (string_bytes(self@.uri) + (string_bytes(self@.name) + (bool_bytes(self@.mutable) + (period_bytes(self@.period) + (master_pass_state_bytes(self@.pass_state)))))));
            lemma_concat_associative(x0, self@.mint, self@.authority + (string_bytes(self@.description) + (string_bytes(self@.uri) + (string_bytes(self@.name) + (bool_bytes(self@.mutable) + (period_bytes(self@.period) + (master_pass_state_bytes(self@.pass_state))))))));
            lemma_concat_associative(x, account_type_bytes(self@.account_type), self@.mint + (self@.authority + (string_bytes(self@.description) + (string_bytes(self@.uri) + (string_bytes(self@.name) + (bool_bytes(self@.mutable) + (period_bytes(self@.period) + (master_pass_state_bytes(self@.pass_state)))))))));
        }
        assert(out@ == x + master_pass_bytes(self@));
    }

    /// Reads a `MasterPass` from `src` at `pos`; gives it and the position after it.
    pub fn deserialize(src: &[u8], pos: usize) -> (r: Option<(Self, usize)>)
        requires
            pos <= src@.len(),
        ensures
            read_agrees_view(src@, pos, r, read_master_pass(rest_at(src@, pos)), |x: MasterPass| x@),
    {
        reveal(read_master_pass);
        let (account_type, p0) = match get_account_type(src, pos) {
            Some(x) => x,
            None => return None,
        };
        let (mint, p1) = match get_key(src, p0) {
            Some(x) => x,
            None => return None,
        };
        let (authority, p2) = match get_key(src, p1) {
            Some(x) => x,
            None => return None,
        };
        let (description, p3) = match get_string(src, p2) {
            Some(x) => x,
            None => return None,
        };
        let (uri, p4) = match get_string(src, p3) {
            Some(x) => x,
            None => return None,
        };
        let (name, p5) = match get_string(src, p4) {
            Some(x) => x,
            None => return None,
        };
        let (mutable, p6) = match get_bool(src, p5) {
            Some(x) => x,
            None => return None,
        };
        let (period, p7) = match get_period(src, p6) {
            Some(x) => x,
            None => return None,
        };
        let (pass_state, p8) = match get_master_pass_state(src, p7) {
            Some(x) => x,
            None => return None,
        };
        Some((MasterPass { account_type, mint, authority, description, uri, name, mutable, period, pass_state }, p8))
    }
}

/// How `MasterPass::unpack_from_slice` reads account data: the first byte must be the
/// `MasterPass` or `Uninitialized` tag and the data `MAX_MASTER_PASS_LEN` bytes long; then the
/// fields are read from the front, and what follows them is ignored.
pub open spec fn master_pass_from_slice(src: Seq<u8>) -> Result<MasterPassView, ProgramError> {
    if (src[0] != 3u8 && src[0] != 0u8) || src.len() != MAX_MASTER_PASS_LEN {
        Err(ProgramError::InvalidAccountData)
    } else {
        match read_master_pass(src) {
            Some((v, _)) => Ok(v),
            None => Err(ProgramError::BorshIoError),
        }
    }
}

/// How `MasterPass::unpack_unchecked` reads account data of any length.
pub open spec fn master_pass_unpack_unchecked(src: Seq<u8>) -> Result<MasterPassView, ProgramError> {
    if src.len() != MAX_MASTER_PASS_LEN {
        Err(ProgramError::InvalidAccountData)
    } else {
        master_pass_from_slice(src)
    }
}

/// How `MasterPass::unpack` reads account data: as `unpack_unchecked`, and the account must
/// be initialized.
pub open spec fn master_pass_unpack(src: Seq<u8>) -> Result<MasterPassView, ProgramError> {
    match master_pass_unpack_unchecked(src) {
        Ok(v) => if v.account_type == AccountType::MasterPass {
            Ok(v)
        } else {
            Err(ProgramError::UninitializedAccount)
        },
        Err(e) => Err(e),
    }
}

/// Data written by `MasterPass::pack` reads back as the value that was packed.
pub proof fn lemma_master_pass_unpack_packed(v: MasterPassView, tail: Seq<u8>)
    requires
        master_pass_ok(v),
        (master_pass_bytes(v) + tail).len() == MAX_MASTER_PASS_LEN,
    ensures
        v.account_type == AccountType::MasterPass || v.account_type == AccountType::Uninitialized
            ==> master_pass_unpack_unchecked(master_pass_bytes(v) + tail) == Ok::<MasterPassView, ProgramError>(v),
        v.account_type == AccountType::MasterPass ==> master_pass_unpack(master_pass_bytes(v) + tail) == Ok::<MasterPassView, ProgramError>(v),
        v.account_type == AccountType::Uninitialized ==> master_pass_unpack(master_pass_bytes(v) + tail)
            == Err::<MasterPassView, ProgramError>(ProgramError::UninitializedAccount),
{
    lemma_read_master_pass(v, tail);
    reveal(master_pass_bytes);
    assert((master_pass_bytes(v) + tail)[0] == account_type_tag(v.account_type));
}

impl MasterPass {
    /// Writes the encoding of this `MasterPass` over the front of `dst`.
    pub fn pack_into_slice(&self, dst: &mut [u8])
        requires
            master_pass_ok(self@),
            master_pass_bytes(self@).len() <= old(dst)@.len(),
        ensures
            final(dst)@ == master_pass_bytes(self@) + old(dst)@.skip(master_pass_bytes(self@).len() as int),
    {
        let mut buf: Vec<u8> = Vec::new();
        self.serialize(&mut buf);
        copy_to_front(dst, &buf);
    }

    /// Reads a `MasterPass` from account data whose first byte is its tag or `Uninitialized`.
    pub fn unpack_from_slice(src: &[u8]) -> (r: Result<Self, ProgramError>)
        requires
            src@.len() > 0,
        ensures
            view_result(r) == master_pass_from_slice(src@),
    {
        if (src[0] != 3 && src[0] != 0) || src.len() != MAX_MASTER_PASS_LEN {
            return Err(ProgramError::InvalidAccountData);
        }
        assert(rest_at(src@, 0) =~= src@);
        match Self::deserialize(src, 0) {
            Some((v, _)) => Ok(v),
            None => Err(ProgramError::BorshIoError),
        }
    }

    /// Reads a `MasterPass` from account data of the packed length.
    pub fn unpack_unchecked(src: &[u8]) -> (r: Result<Self, ProgramError>)
        ensures
            view_result(r) == master_pass_unpack_unchecked(src@),
    {
        if src.len() != MAX_MASTER_PASS_LEN {
            return Err(ProgramError::InvalidAccountData);
        }
        Self::unpack_from_slice(src)
    }

    /// Reads an initialized `MasterPass` from account data of the packed length.
    pub fn unpack(src: &[u8]) -> (r: Result<Self, ProgramError>)
        ensures
            view_result(r) == master_pass_unpack(src@),
    {
        let v = Self::unpack_unchecked(src)?;
        if v.is_initialized() {
            Ok(v)
        } else {
            Err(ProgramError::UninitializedAccount)
        }
    }

    /// Writes `src` over the front of `dst`, which must be `MAX_MASTER_PASS_LEN` bytes long.
    pub fn pack(src: Self, dst: &mut [u8]) -> (r: Result<(), ProgramError>)
        requires
            master_pass_ok(src@),
            old(dst)@.len() == MAX_MASTER_PASS_LEN ==> master_pass_bytes(src@).len() <= MAX_MASTER_PASS_LEN,
        ensures
            old(dst)@.len() != MAX_MASTER_PASS_LEN ==> r == Err::<(), ProgramError>(ProgramError::InvalidAccountData)
                && final(dst)@ == old(dst)@,
            old(dst)@.len() == MAX_MASTER_PASS_LEN ==> r == Ok::<(), ProgramError>(())
                && final(dst)@ == master_pass_bytes(src@) + old(dst)@.skip(master_pass_bytes(src@).len() as int),
    {
        if dst.len() != MAX_MASTER_PASS_LEN {
            return Err(ProgramError::InvalidAccountData);
        }
        src.pack_into_slice(dst);
        Ok(())
    }

}

impl IsInitialized for MasterPass {
    open spec fn initialized(&self) -> bool {
        self.account_type == AccountType::MasterPass
    }

    fn is_initialized(&self) -> (r: bool) {
        self.account_type != AccountType::Uninitialized && self.account_type == AccountType::MasterPass
    }
}

/// Data that `MasterPass::unpack_unchecked` reads is the encoding of the value read, then
/// bytes that it ignores: packing the value again leaves the data as it was.
pub proof fn lemma_master_pass_unpack_inverse(src: Seq<u8>)
    ensures
        master_pass_unpack_unchecked(src) matches Ok(v) ==> master_pass_ok(v) && master_pass_bytes(v).len() <= src.len()
            && master_pass_bytes(v) + src.skip(master_pass_bytes(v).len() as int) == src,
{
    lemma_read_master_pass_inverse(src);
    if let Ok(v) = master_pass_unpack_unchecked(src) {
        lemma_skip_front(master_pass_bytes(v), read_master_pass(src)->Some_0.1);
    }
}

impl MasterPass {
    /// Initializes the master pass from `params`, not yet activated.
    pub fn init(&mut self, params: InitMasterPassParams)
        ensures
            final(self)@ == (MasterPassView {
                account_type: AccountType::MasterPass,
                pass_state: MasterPassState::NotActivated,
                name: params.name@,
                description: params.description@,
                uri: params.uri@,
                authority: params.authority@,
                mint: params.mint@,
                mutable: params.mutable,
                period: params.period,
            }),
    {
        self.account_type = AccountType::MasterPass;
        self.authority = params.authority;
        self.description = params.description;
        self.uri = params.uri;
        self.name = params.name;
        self.mint = params.mint;
        self.mutable = params.mutable;
        self.period = params.period;
        self.pass_state = MasterPassState::NotActivated;
    }

    /// Succeeds exactly when the master pass is activated.
    pub fn assert_activated(&self) -> (r: Result<(), ProgramError>)
        ensures
            r == if self.pass_state != MasterPassState::Activated {
                Err::<(), ProgramError>(program_error_of(NFTPassError::PassNotActivated))
            } else {
                Ok(())
            },
    {
        if self.pass_state != MasterPassState::Activated {
            return Err(fail(NFTPassError::PassNotActivated));
        }
        Ok(())
    }

    /// Succeeds exactly when the master pass is mutable and not activated.
    pub fn assert_able_to_edit(&self) -> (r: Result<(), ProgramError>)
        ensures
            r == if !self.mutable {
                Err::<(), ProgramError>(program_error_of(NFTPassError::ImmutablePassBook))
            } else if self.pass_state == MasterPassState::Activated {
                Err::<(), ProgramError>(program_error_of(NFTPassError::WrongPassState))
            } else {
                Ok(())
            },
    {
        if !self.mutable {
            return Err(fail(NFTPassError::ImmutablePassBook));
        }
        if self.pass_state == MasterPassState::Activated {
            return Err(fail(NFTPassError::WrongPassState));
        }
        Ok(())
    }

    /// Pads the URI and the description with NUL characters to their greatest lengths
    /// in bytes.
    pub fn puff_out_data_fields(&mut self)
        requires
            text_bytes(old(self).uri@).len() <= MAX_URI_LENGTH,
            text_bytes(old(self).description@).len() <= MAX_DESCRIPTION_LEN,
        ensures
            final(self)@ == (MasterPassView {
                uri: puffed(old(self).uri@, MAX_URI_LENGTH),
                description: puffed(old(self).description@, MAX_DESCRIPTION_LEN),
                ..old(self)@
            }),
    {
        let n = MAX_URI_LENGTH - self.uri.as_str().len();
        self.uri = pad_with_nuls(&self.uri, n);
        let n = MAX_DESCRIPTION_LEN - self.description.as_str().len();
        self.description = pad_with_nuls(&self.description, n);
    }
}

} // verus!
