//! Passes printed from a master pass.

use vstd::prelude::*;

use crate::codec::{
    copy_to_front, get_key, get_opt_u64, get_string, get_u8, lemma_read_key, lemma_read_opt_u64,
    lemma_read_string, lemma_read_u8, lemma_read_key_inverse, lemma_read_opt_u64_inverse,
    lemma_read_string_inverse, lemma_read_u8_inverse, lemma_skip_front, opt_u64_bytes, put_key,
    put_opt_u64, put_string, put_u8, read_agrees, read_agrees_view, read_key, read_opt_u64,
    read_string, read_u8, rest_at, string_bytes, text_bytes, text_fits,
};
use vstd::seq_lib::lemma_concat_associative;
use crate::error::{fail, program_error_of, view_result, NFTPassError, ProgramError};
use crate::pubkey::Pubkey;

use crate::master_pass::{
    account_type_bytes, account_type_tag, get_account_type, lemma_read_account_type,
    lemma_read_account_type_inverse, put_account_type, read_account_type, AccountType,
};
use crate::state::IsInitialized;
use crate::state::{MAX_DESCRIPTION_LEN, MAX_PASS_LEN, MAX_URI_LENGTH};
use crate::text::{pad_with_nuls, puffed};

verus! {

/// Pack state
#[derive(Clone, Copy, Debug, PartialEq, Eq, Structural)]
pub enum PassState {
    /// Not activated
    NotActivated,
    /// Activated
    Activated,
    /// Ended
    Ended,
}

/// The one-byte tag of each `PassState`, its place in the declaration.
pub open spec fn pass_state_tag(t: PassState) -> u8 {
    match t {
        PassState::NotActivated => 0u8,
        PassState::Activated => 1u8,
        PassState::Ended => 2u8,
    }
}

pub open spec fn pass_state_bytes(t: PassState) -> Seq<u8> {
    seq![pass_state_tag(t)]
}

pub open spec fn pass_state_of_tag(b: u8) -> Option<PassState> {
    if b == 0u8 {
        Some(PassState::NotActivated)
    } else if b == 1u8 {
        Some(PassState::Activated)
    } else if b == 2u8 {
        Some(PassState::Ended)
    } else {
        None
    }
}

pub open spec fn read_pass_state(s: Seq<u8>) -> Option<(PassState, Seq<u8>)> {
    match read_u8(s) {
        Some((b, r)) => match pass_state_of_tag(b) {
            Some(t) => Some((t, r)),
            None => None,
        },
        None => None,
    }
}

pub proof fn lemma_read_pass_state(t: PassState, rest: Seq<u8>)
    ensures
        read_pass_state(pass_state_bytes(t) + rest) == Some((t, rest)),
{
    lemma_read_u8(pass_state_tag(t), rest);
}

pub fn put_pass_state(out: &mut Vec<u8>, t: PassState)
    ensures
        final(out)@ == old(out)@ + pass_state_bytes(t),
{
    let b: u8 = match t {
        PassState::NotActivated => 0,
        PassState::Activated => 1,
        PassState::Ended => 2,
    };
    put_u8(out, b);
}

pub fn get_pass_state(src: &[u8], pos: usize) -> (r: Option<(PassState, usize)>)
    requires
        pos <= src@.len(),
    ensures
        read_agrees(src@, pos, r, read_pass_state(rest_at(src@, pos))),
{
    match get_u8(src, pos) {
        Some((b, p)) => {
            if b == 0 {
                Some((PassState::NotActivated, p))
            } else if b == 1 {
                Some((PassState::Activated, p))
            } else if b == 2 {
                Some((PassState::Ended, p))
            } else {
                None
            }
        },
        None => None,
    }
}

pub proof fn lemma_read_pass_state_inverse(s: Seq<u8>)
    ensures
        read_pass_state(s) matches Some((t, r)) ==> pass_state_bytes(t) + r == s,
{
    lemma_read_u8_inverse(s);
}

impl Default for PassState {
    fn default() -> (r: Self)
        ensures
            r == PassState::NotActivated,
    {
        PassState::NotActivated
    }
}

/// Initialize a PackSet params
pub struct InitPassParams {
    /// Name
    pub name: String,
    /// Description
    pub description: String,
    /// URI
    pub uri: String,
    /// Pass book this bass belongs to
    pub pass_book: Pubkey,
    /// pass expiration in unix timestamp
    pub expires_at: Option<u64>,
}

/// Pack set
#[derive(Clone, Debug, PartialEq, Default)]
pub struct Pass {
    /// Account type - Pass
    pub account_type: AccountType,
    /// mint
    pub mint: Pubkey,
    /// Pass book
    pub pass_book: Pubkey,
    /// Description
    pub description: String,
    /// Link to pack set image
    pub uri: String,
    /// Name
    pub name: String,
    /// pass expiration in unix timestamp
    pub expires_at: Option<u64>,
    /// Pass state
    pub pass_state: PassState,
}

/// `Pass` with its addresses as bytes and its texts as characters.
pub struct PassView {
    pub account_type: AccountType,
    pub mint: Seq<u8>,
    pub pass_book: Seq<u8>,
    pub description: Seq<char>,
    pub uri: Seq<char>,
    pub name: Seq<char>,
    pub expires_at: Option<u64>,
    pub pass_state: PassState,
}

impl View for Pass {
    type V = PassView;

    open spec fn view(&self) -> PassView {
        PassView {
            account_type: self.account_type,
            mint: self.mint@,
            pass_book: self.pass_book@,
            description: self.description@,
            uri: self.uri@,
            name: self.name@,
            expires_at: self.expires_at,
            pass_state: self.pass_state,
        }
    }
}

/// The values of `Pass` that the format can hold: addresses of 32 bytes, texts
/// of at most `u32::MAX` bytes.
pub open spec fn pass_ok(v: PassView) -> bool {
    v.mint.len() == 32
    && v.pass_book.len() == 32
    && text_fits(v.description)
    && text_fits(v.uri)
    && text_fits(v.name)
}

/// The encoding of a `Pass`: its fields in order.
#[verifier::opaque]
pub open spec fn pass_bytes(v: PassView) -> Seq<u8> {
    account_type_bytes(v.account_type) + (v.mint + (v.pass_book + (string_bytes(v.description) + (string_bytes(v.uri) + (string_bytes(v.name) + (opt_u64_bytes(v.expires_at) + (pass_state_bytes(v.pass_state))))))))
}

/// Reads the fields of a `Pass` in order.
#[verifier::opaque]
pub open spec fn read_pass(s: Seq<u8>) -> Option<(PassView, Seq<u8>)> {
    match read_account_type(s) {
        Some((account_type, r0)) => {
            match read_key(r0) {
                Some((mint, r1)) => {
                    match read_key(r1) {
                        Some((pass_book, r2)) => {
                            match read_string(r2) {
                                Some((description, r3)) => {
                                    match read_string(r3) {
                                        Some((uri, r4)) => {
                                            match read_string(r4) {
                                                Some((name, r5)) => {
                                                    match read_opt_u64(r5) {
                                                        Some((expires_at, r6)) => {
                                                            match read_pass_state(r6) {
                                                                Some((pass_state, r7)) => {
                                                                    Some((PassView { account_type, mint, pass_book, description, uri, name, expires_at, pass_state }, r7))
                                                                },
                                                                None => None,
                                                            }
                                                        },
                                                        None => None,
                                                    }
                                                },
                                                None => None,
                                            }
                                        },
                                        None => None,
                                    }
                                },
                                None => None,
                            }
                        },
                        None => None,
                    }
                },
                None => None,
            }
        },
        None => None,
    }
}

/// Reading the encoding of a `Pass` gives it back and leaves what followed.
pub proof fn lemma_read_pass(v: PassView, rest: Seq<u8>)
    requires
        pass_ok(v),
    ensures
        read_pass(pass_bytes(v) + rest) == Some((v, rest)),
{
    reveal(pass_bytes);
    reveal(read_pass);
    let q8 = rest;
    let q7 = pass_state_bytes(v.pass_state) + q8;
    let q6 = opt_u64_bytes(v.expires_at) + q7;
    let q5 = string_bytes(v.name) + q6;
    let q4 = string_bytes(v.uri) + q5;
    let q3 = string_bytes(v.description) + q4;
    let q2 = v.pass_book + q3;
    let q1 = v.mint + q2;
    let q0 = account_type_bytes(v.account_type) + q1;
    lemma_concat_associative(opt_u64_bytes(v.expires_at), pass_state_bytes(v.pass_state), rest);
    lemma_concat_associative(string_bytes(v.name), opt_u64_bytes(v.expires_at) + (pass_state_bytes(v.pass_state)), rest);
    lemma_concat_associative(string_bytes(v.uri), string_bytes(v.name) + (opt_u64_bytes(v.expires_at) + (pass_state_bytes(v.pass_state))), rest);
    lemma_concat_associative(string_bytes(v.description), string_bytes(v.uri) + (string_bytes(v.name) + (opt_u64_bytes(v.expires_at) + (pass_state_bytes(v.pass_state)))), rest);
    lemma_concat_associative(v.pass_book, string_bytes(v.description) + (string_bytes(v.uri) + (string_bytes(v.name) + (opt_u64_bytes(v.expires_at) + (pass_state_bytes(v.pass_state))))), rest);
    lemma_concat_associative(v.mint, v.pass_book + (string_bytes(v.description) + (string_bytes(v.uri) + (string_bytes(v.name) + (opt_u64_bytes(v.expires_at) + (pass_state_bytes(v.pass_state)))))), rest);
    lemma_concat_associative(account_type_bytes(v.account_type), v.mint + (v.pass_book + (string_bytes(v.description) + (string_bytes(v.uri) + (string_bytes(v.name) + (opt_u64_bytes(v.expires_at) + (pass_state_bytes(v.pass_state))))))), rest);
    assert(pass_bytes(v) + rest == q0);
    lemma_read_account_type(v.account_type, q1);
    lemma_read_key(v.mint, q2);
    lemma_read_key(v.pass_book, q3);
    lemma_read_string(v.description, q4);
    lemma_read_string(v.uri, q5);
    lemma_read_string(v.name, q6);
    lemma_read_opt_u64(v.expires_at, q7);
    lemma_read_pass_state(v.pass_state, q8);
}

/// A successful read of a `Pass` consumed exactly its encoding.
pub proof fn lemma_read_pass_inverse(s: Seq<u8>)
    ensures
        read_pass(s) matches Some((v, r)) ==> pass_ok(v) && pass_bytes(v) + r == s,
{
    reveal(pass_bytes);
    reveal(read_pass);
    if let Some((v, r)) = read_pass(s) {
        lemma_read_account_type_inverse(s);
        let s1 = read_account_type(s)->Some_0.1;
        lemma_read_key_inverse(s1);
        let s2 = read_key(s1)->Some_0.1;
        lemma_read_key_inverse(s2);
        let s3 = read_key(s2)->Some_0.1;
        lemma_read_string_inverse(s3);
        let s4 = read_string(s3)->Some_0.1;
        lemma_read_string_inverse(s4);
        let s5 = read_string(s4)->Some_0.1;
        lemma_read_string_inverse(s5);
        let s6 = read_string(s5)->Some_0.1;
        lemma_read_opt_u64_inverse(s6);
        let s7 = read_opt_u64(s6)->Some_0.1;
        lemma_read_pass_state_inverse(s7);
        let s8 = read_pass_state(s7)->Some_0.1;
        lemma_concat_associative(opt_u64_bytes(v.expires_at), pass_state_bytes(v.pass_state), r);
        lemma_concat_associative(string_bytes(v.name), opt_u64_bytes(v.expires_at) + (pass_state_bytes(v.pass_state)), r);
        lemma_concat_associative(string_bytes(v.uri), string_bytes(v.name) + (opt_u64_bytes(v.expires_at) + (pass_state_bytes(v.pass_state))), r);
        lemma_concat_associative(string_bytes(v.description), string_bytes(v.uri) + (string_bytes(v.name) + (opt_u64_bytes(v.expires_at) + (pass_state_bytes(v.pass_state)))), r);
        lemma_concat_associative(v.pass_book, string_bytes(v.description) + (string_bytes(v.uri) + (string_bytes(v.name) + (opt_u64_bytes(v.expires_at) + (pass_state_bytes(v.pass_state))))), r);
        lemma_concat_associative(v.mint, v.pass_book + (string_bytes(v.description) + (string_bytes(v.uri) + (string_bytes(v.name) + (opt_u64_bytes(v.expires_at) + (pass_state_bytes(v.pass_state)))))), r);
        lemma_concat_associative(account_type_bytes(v.account_type), v.mint + (v.pass_book + (string_bytes(v.description) + (string_bytes(v.uri) + (string_bytes(v.name) + (opt_u64_bytes(v.expires_at) + (pass_state_bytes(v.pass_state))))))), r);
    }
}

/// The length of the encoding of a `Pass`: the lengths of its fields added up.
pub proof fn lemma_pass_bytes_len(v: PassView)
    ensures
        pass_bytes(v).len() == (account_type_bytes(v.account_type)).len() + (v.mint).len() + (v.pass_book).len() + (string_bytes(v.description)).len() + (string_bytes(v.uri)).len() + (string_bytes(v.name)).len() + (opt_u64_bytes(v.expires_at)).len() + (pass_state_bytes(v.pass_state)).len(),
{
    reveal(pass_bytes);
}

impl Pass {
    /// Appends the encoding of this `Pass` to `out`.
    pub fn serialize(&self, out: &mut Vec<u8>)
        requires
            pass_ok(self@),
        ensures
            final(out)@ == old(out)@ + pass_bytes(self@),
    {
        reveal(pass_bytes);
        let ghost x = out@;
        put_account_type(out, self.account_type);
        let ghost x0 = out@;
        put_key(out, &self.mint);
        let ghost x1 = out@;
        put_key(out, &self.pass_book);
        let ghost x2 = out@;
        put_string(out, &self.description);
        let ghost x3 = out@;
        put_string(out, &self.uri);
        let ghost x4 = out@;
        put_string(out, &self.name);
        let ghost x5 = out@;
        put_opt_u64(out, self.expires_at);
        let ghost x6 = out@;
        put_pass_state(out, self.pass_state);
        let ghost x7 = out@;
        proof {
            lemma_concat_associative(x5, opt_u64_bytes(self@.expires_at), pass_state_bytes(self@.pass_state));
            lemma_concat_associative(x4, string_bytes(self@.name), opt_u64_bytes(self@.expires_at) + (pass_state_bytes(self@.pass_state)));
            lemma_concat_associative(x3, string_bytes(self@.uri), string_bytes(self@.name) + (opt_u64_bytes(self@.expires_at) + (pass_state_bytes(self@.pass_state))));
            lemma_concat_associative(x2, string_bytes(self@.description), string_bytes(self@.uri) + (string_bytes(self@.name) + (opt_u64_bytes(self@.expires_at) + (pass_state_bytes(self@.pass_state)))));
            lemma_concat_associative(x1, self@.pass_book, string_bytes(self@.description) + (string_bytes(self@.uri) + (string_bytes(self@.name) + (opt_u64_bytes(self@.expires_at) + (pass_state_bytes(self@.pass_state))))));
            lemma_concat_associative(x0, self@.mint, self@.pass_book + (string_bytes(self@.description) + (string_bytes(self@.uri) + (string_bytes(self@.name) + (opt_u64_bytes(self@.expires_at) + (pass_state_bytes(self@.pass_state)))))));
            lemma_concat_associative(x, account_type_bytes(self@.account_type), self@.mint + (self@.pass_book + (string_bytes(self@.description) + (string_bytes(self@.uri) + (string_bytes(self@.name) + (opt_u64_bytes(self@.expires_at) + (pass_state_bytes(self@.pass_state))))))));
        }
        assert(out@ == x + pass_bytes(self@));
    }

    /// Reads a `Pass` from `src` at `pos`; gives it and the position after it.
    pub fn deserialize(src: &[u8], pos: usize) -> (r: Option<(Self, usize)>)
        requires
            pos <= src@.len(),
        ensures
            read_agrees_view(src@, pos, r, read_pass(rest_at(src@, pos)), |x: Pass| x@),
    {
        reveal(read_pass);
        let (account_type, p0) = match get_account_type(src, pos) {
            Some(x) => x,
            None => return None,
        };
        let (mint, p1) = match get_key(src, p0) {
            Some(x) => x,
            None => return None,
        };
        let (pass_book, p2) = match get_key(src, p1) {
            Some(x) => x,
            None => return None,
        };
        let (description, p3) = match get_string(src, p2) {
            Some(x) => x,
            None => return None,
        };
        let (uri, p4) = match get_string(src, p3) {
            Some(x) => x,
            None => return None,
        };
        let (name, p5) = match get_string(src, p4) {
            Some(x) => x,
            None => return None,
        };
        let (expires_at, p6) = match get_opt_u64(src, p5) {
            Some(x) => x,
            None => return None,
        };
        let (pass_state, p7) = match get_pass_state(src, p6) {
            Some(x) => x,
            None => return None,
        };
        Some((Pass { account_type, mint, pass_book, description, uri, name, expires_at, pass_state }, p7))
    }
}

/// How `Pass::unpack_from_slice` reads account data: the first byte must be the
/// `Pass` or `Uninitialized` tag and the data `MAX_PASS_LEN` bytes long; then the
/// fields are read from the front, and what follows them is ignored.
pub open spec fn pass_from_slice(src: Seq<u8>) -> Result<PassView, ProgramError> {
    if (src[0] != 1u8 && src[0] != 0u8) || src.len() != MAX_PASS_LEN {
        Err(ProgramError::InvalidAccountData)
    } else {
        match read_pass(src) {
            Some((v, _)) => Ok(v),
            None => Err(ProgramError::BorshIoError),
        }
    }
}

/// How `Pass::unpack_unchecked` reads account data of any length.
pub open spec fn pass_unpack_unchecked(src: Seq<u8>) -> Result<PassView, ProgramError> {
    if src.len() != MAX_PASS_LEN {
        Err(ProgramError::InvalidAccountData)
    } else {
        pass_from_slice(src)
    }
}

/// How `Pass::unpack` reads account data: as `unpack_unchecked`, and the account must
/// be initialized.
pub open spec fn pass_unpack(src: Seq<u8>) -> Result<PassView, ProgramError> {
    match pass_unpack_unchecked(src) {
        Ok(v) => if v.account_type == AccountType::Pass {
            Ok(v)
        } else {
            Err(ProgramError::UninitializedAccount)
        },
        Err(e) => Err(e),
    }
}

/// Data written by `Pass::pack` reads back as the value that was packed.
pub proof fn lemma_pass_unpack_packed(v: PassView, tail: Seq<u8>)
    requires
        pass_ok(v),
        (pass_bytes(v) + tail).len() == MAX_PASS_LEN,
    ensures
        v.account_type == AccountType::Pass || v.account_type == AccountType::Uninitialized
            ==> pass_unpack_unchecked(pass_bytes(v) + tail) == Ok::<PassView, ProgramError>(v),
        v.account_type == AccountType::Pass ==> pass_unpack(pass_bytes(v) + tail) == Ok::<PassView, ProgramError>(v),
        v.account_type == AccountType::Uninitialized ==> pass_unpack(pass_bytes(v) + tail)
            == Err::<PassView, ProgramError>(ProgramError::UninitializedAccount),
{
    lemma_read_pass(v, tail);
    reveal(pass_bytes);
    assert((pass_bytes(v) + tail)[0] == account_type_tag(v.account_type));
}

impl Pass {
    /// Writes the encoding of this `Pass` over the front of `dst`.
    pub fn pack_into_slice(&self, dst: &mut [u8])
        requires
            pass_ok(self@),
            pass_bytes(self@).len() <= old(dst)@.len(),
        ensures
            final(dst)@ == pass_bytes(self@) + old(dst)@.skip(pass_bytes(self@).len() as int),
    {
        let mut buf: Vec<u8> = Vec::new();
        self.serialize(&mut buf);
        copy_to_front(dst, &buf);
    }

    /// Reads a `Pass` from account data whose first byte is its tag or `Uninitialized`.
    pub fn unpack_from_slice(src: &[u8]) -> (r: Result<Self, ProgramError>)
        requires
            src@.len() > 0,
        ensures
            view_result(r) == pass_from_slice(src@),
    {
        if (src[0] != 1 && src[0] != 0) || src.len() != MAX_PASS_LEN {
            return Err(ProgramError::InvalidAccountData);
        }
        assert(rest_at(src@, 0) =~= src@);
        match Self::deserialize(src, 0) {
            Some((v, _)) => Ok(v),
            None => Err(ProgramError::BorshIoError),
        }
    }

    /// Reads a `Pass` from account data of the packed length.
    pub fn unpack_unchecked(src: &[u8]) -> (r: Result<Self, ProgramError>)
        ensures
            view_result(r) == pass_unpack_unchecked(src@),
    {
        if src.len() != MAX_PASS_LEN {
            return Err(ProgramError::InvalidAccountData);
        }
        Self::unpack_from_slice(src)
    }

    /// Reads an initialized `Pass` from account data of the packed length.
    pub fn unpack(src: &[u8]) -> (r: Result<Self, ProgramError>)
        ensures
            view_result(r) == pass_unpack(src@),
    {
        let v = Self::unpack_unchecked(src)?;
        if v.is_initialized() {
            Ok(v)
        } else {
            Err(ProgramError::UninitializedAccount)
        }
    }

    /// Writes `src` over the front of `dst`, which must be `MAX_PASS_LEN` bytes long.
    pub fn pack(src: Self, dst: &mut [u8]) -> (r: Result<(), ProgramError>)
        requires
            pass_ok(src@),
            old(dst)@.len() == MAX_PASS_LEN ==> pass_bytes(src@).len() <= MAX_PASS_LEN,
        ensures
            old(dst)@.len() != MAX_PASS_LEN ==> r == Err::<(), ProgramError>(ProgramError::InvalidAccountData)
                && final(dst)@ == old(dst)@,
            old(dst)@.len() == MAX_PASS_LEN ==> r == Ok::<(), ProgramError>(())
                && final(dst)@ == pass_bytes(src@) + old(dst)@.skip(pass_bytes(src@).len() as int),
    {
        if dst.len() != MAX_PASS_LEN {
            return Err(ProgramError::InvalidAccountData);
        }
        src.pack_into_slice(dst);
        Ok(())
    }

}

impl IsInitialized for Pass {
    open spec fn initialized(&self) -> bool {
        self.account_type == AccountType::Pass
    }

    fn is_initialized(&self) -> (r: bool) {
        self.account_type != AccountType::Uninitialized && self.account_type == AccountType::Pass
    }
}

/// Data that `Pass::unpack_unchecked` reads is the encoding of the value read, then
/// bytes that it ignores: packing the value again leaves the data as it was.
pub proof fn lemma_pass_unpack_inverse(src: Seq<u8>)
    ensures
        pass_unpack_unchecked(src) matches Ok(v) ==> pass_ok(v) && pass_bytes(v).len() <= src.len()
            && pass_bytes(v) + src.skip(pass_bytes(v).len() as int) == src,
{
    lemma_read_pass_inverse(src);
    if let Ok(v) = pass_unpack_unchecked(src) {
        lemma_skip_front(pass_bytes(v), read_pass(src)->Some_0.1);
    }
}

impl Pass {
    /// Seed of pass addresses.
    pub const PREFIX: &'static str = "pass";

    /// Initializes the pass from `params`, not yet activated; the mint stays as it is.
    pub fn init(&mut self, params: InitPassParams)
        ensures
            final(self)@ == (PassView {
                account_type: AccountType::Pass,
                pass_state: PassState::NotActivated,
                name: params.name@,
                description: params.description@,
                uri: params.uri@,
                pass_book: params.pass_book@,
                expires_at: params.expires_at,
                ..old(self)@
            }),
    {
        self.account_type = AccountType::Pass;
        self.pass_book = params.pass_book;
        self.description = params.description;
        self.uri = params.uri;
        self.name = params.name;
        self.expires_at = params.expires_at;
        self.pass_state = PassState::NotActivated;
    }

    /// Succeeds exactly when the pass is activated.
    pub fn assert_activated(&self) -> (r: Result<(), ProgramError>)
        ensures
            r == if self.pass_state != PassState::Activated {
                Err::<(), ProgramError>(program_error_of(NFTPassError::PassNotActivated))
            } else {
                Ok(())
            },
    {
        if self.pass_state != PassState::Activated {
            return Err(fail(NFTPassError::PassNotActivated));
        }
        Ok(())
    }

    /// Pads the URI and the description with NUL characters to their greatest lengths
    /// in bytes.
    pub fn puff_out_data_fields(&mut self)
        requires
            text_bytes(old(self).uri@).len() <= MAX_URI_LENGTH,
            text_bytes(old(self).description@).len() <= MAX_DESCRIPTION_LEN,
        ensures
            final(self)@ == (PassView {
                uri: puffed(old(self).uri@, MAX_URI_LENGTH),
                description: puffed(old(self).description@, MAX_DESCRIPTION_LEN),
                ..old(self)@
            }),
    {
        let n = MAX_URI_LENGTH - self.uri.as_str().len();
        self.uri = pad_with_nuls(&self.uri, n);
        let n = MAX_DESCRIPTION_LEN - self.description.as_str().len();
        self.description = pad_with_nuls(&self.description, n);
    }
}

} // verus!
