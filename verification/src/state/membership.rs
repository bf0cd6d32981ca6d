//! Memberships of wallets in stores.

use vstd::prelude::*;

use crate::codec::{
    copy_to_front, get_key, get_opt_key, get_opt_u64, get_u8, lemma_read_key, lemma_read_opt_key,
    lemma_read_opt_u64, lemma_read_u8, lemma_read_key_inverse, lemma_read_opt_key_inverse,
    lemma_read_opt_u64_inverse, lemma_read_u8_inverse, lemma_skip_front, opt_key_bytes, opt_key_ok,
    opt_key_view, opt_u64_bytes, put_key, put_opt_key, put_opt_u64, put_u8, read_agrees,
    read_agrees_view, read_key, read_opt_key, read_opt_u64, read_u8, rest_at,
};
use vstd::seq_lib::lemma_concat_associative;
use crate::error::{view_result, ProgramError};
use crate::pubkey::Pubkey;

use crate::state::{
    account_type_bytes, account_type_tag, get_account_type, lemma_read_account_type,
    lemma_read_account_type_inverse, put_account_type, read_account_type, AccountType,
    IsInitialized,
};
use crate::state::MAX_PASS_LEN;

verus! {

/// Length of the largest membership encoding.
pub const MAX_MEMBERSHIP_LEN: usize = 1 + 32 + 32 + 33 + 33 + 9 + 1;

/// Membership state
#[derive(Clone, Copy, Debug, PartialEq, Eq, Structural)]
pub enum MembershipState {
    /// Not activated
    NotActivated,
    /// Activated
    Activated,
    /// Ended
    Expired,
}

/// The one-byte tag of each `MembershipState`, its place in the declaration.
pub open spec fn membership_state_tag(t: MembershipState) -> u8 {
    match t {
        MembershipState::NotActivated => 0u8,
        MembershipState::Activated => 1u8,
        MembershipState::Expired => 2u8,
    }
}

pub open spec fn membership_state_bytes(t: MembershipState) -> Seq<u8> {
    seq![membership_state_tag(t)]
}

pub open spec fn membership_state_of_tag(b: u8) -> Option<MembershipState> {
    if b == 0u8 {
        Some(MembershipState::NotActivated)
    } else if b == 1u8 {
        Some(MembershipState::Activated)
    } else if b == 2u8 {
        Some(MembershipState::Expired)
    } else {
        None
    }
}

pub open spec fn read_membership_state(s: Seq<u8>) -> Option<(MembershipState, Seq<u8>)> {
    match read_u8(s) {
        Some((b, r)) => match membership_state_of_tag(b) {
            Some(t) => Some((t, r)),
            None => None,
        },
        None => None,
    }
}

pub proof fn lemma_read_membership_state(t: MembershipState, rest: Seq<u8>)
    ensures
        read_membership_state(membership_state_bytes(t) + rest) == Some((t, rest)),
{
    lemma_read_u8(membership_state_tag(t), rest);
}

pub fn put_membership_state(out: &mut Vec<u8>, t: MembershipState)
    ensures
        final(out)@ == old(out)@ + membership_state_bytes(t),
{
    let b: u8 = match t {
        MembershipState::NotActivated => 0,
        MembershipState::Activated => 1,
        MembershipState::Expired => 2,
    };
    put_u8(out, b);
}

pub fn get_membership_state(src: &[u8], pos: usize) -> (r: Option<(MembershipState, usize)>)
    requires
        pos <= src@.len(),
    ensures
        read_agrees(src@, pos, r, read_membership_state(rest_at(src@, pos))),
{
    match get_u8(src, pos) {
        Some((b, p)) => {
            if b == 0 {
                Some((MembershipState::NotActivated, p))
            } else if b == 1 {
                Some((MembershipState::Activated, p))
            } else if b == 2 {
                Some((MembershipState::Expired, p))
            } else {
                None
            }
        },
        None => None,
    }
}

pub proof fn lemma_read_membership_state_inverse(s: Seq<u8>)
    ensures
        read_membership_state(s) matches Some((t, r)) ==> membership_state_bytes(t) + r == s,
{
    lemma_read_u8_inverse(s);
}

impl Default for MembershipState {
    fn default() -> (r: Self)
        ensures
            r == MembershipState::NotActivated,
    {
        MembershipState::NotActivated
    }
}

/// Membership
#[derive(Clone, Debug, PartialEq, Default)]
pub struct Membership {
    /// Account type - Membership
    pub account_type: AccountType,
    /// store
    pub store: Pubkey,
    /// owner
    pub owner: Pubkey,
    /// Membership book
    pub passbook: Option<Pubkey>,
    /// Pass
    pub pass: Option<Pubkey>,
    /// pass expiration in unix timestamp
    pub expires_at: Option<u64>,
    /// Membership state
    pub state: MembershipState,
    /// activation time in unix timestamp
    pub activated_at: Option<u64>,
}

/// `Membership` with its addresses as bytes and its texts as characters.
pub struct MembershipView {
    pub account_type: AccountType,
    pub store: Seq<u8>,
    pub owner: Seq<u8>,
    pub passbook: Option<Seq<u8>>,
    pub pass: Option<Seq<u8>>,
    pub expires_at: Option<u64>,
    pub state: MembershipState,
    pub activated_at: Option<u64>,
}

impl View for Membership {
    type V = MembershipView;

    open spec fn view(&self) -> MembershipView {
        MembershipView {
            account_type: self.account_type,
            store: self.store@,
            owner: self.owner@,
            passbook: opt_key_view(self.passbook),
            pass: opt_key_view(self.pass),
            expires_at: self.expires_at,
            state: self.state,
            activated_at: self.activated_at,
        }
    }
}

/// The values of `Membership` that the format can hold: addresses of 32 bytes, texts
/// of at most `u32::MAX` bytes.
pub open spec fn membership_ok(v: MembershipView) -> bool {
    v.store.len() == 32
    && v.owner.len() == 32
    && opt_key_ok(v.passbook)
    && opt_key_ok(v.pass)
}

/// The encoding of a `Membership`: its fields in order.
#[verifier::opaque]
pub open spec fn membership_bytes(v: MembershipView) -> Seq<u8> {
    account_type_bytes(v.account_type) + (v.store + (v.owner + (opt_key_bytes(v.passbook) + (opt_key_bytes(v.pass) + (opt_u64_bytes(v.expires_at) + (membership_state_bytes(v.state) + (opt_u64_bytes(v.activated_at))))))))
}

/// Reads the fields of a `Membership` in order.
#[verifier::opaque]
pub open spec fn read_membership(s: Seq<u8>) -> Option<(MembershipView, Seq<u8>)> {
    match read_account_type(s) {
        Some((account_type, r0)) => {
            match read_key(r0) {
                Some((store, r1)) => {
                    match read_key(r1) {
                        Some((owner, r2)) => {
                            match read_opt_key(r2) {
                                Some((passbook, r3)) => {
                                    match read_opt_key(r3) {
                                        Some((pass, r4)) => {
                                            match read_opt_u64(r4) {
                                                Some((expires_at, r5)) => {
                                                    match read_membership_state(r5) {
                                                        Some((state, r6)) => {
                                                            match read_opt_u64(r6) {
                                                                Some((activated_at, r7)) => {
                                                                    Some((MembershipView { account_type, store, owner, passbook, pass, expires_at, state, activated_at }, r7))
                                                                },
                                                                None => None,
                                                            }
                                                        },
                                                        None => None,
                                                    }
                                                },
                                                None => None,
                                            }
                                        },
                                        None => None,
                                    }
                                },
                                None => None,
                            }
                        },
                        None => None,
                    }
                },
                None => None,
            }
        },
        None => None,
    }
}

/// Reading the encoding of a `Membership` gives it back and leaves what followed.
pub proof fn lemma_read_membership(v: MembershipView, rest: Seq<u8>)
    requires
        membership_ok(v),
    ensures
        read_membership(membership_bytes(v) + rest) == Some((v, rest)),
{
    reveal(membership_bytes);
    reveal(read_membership);
    let q8 = rest;
    let q7 = opt_u64_bytes(v.activated_at) + q8;
    let q6 = membership_state_bytes(v.state) + q7;
    let q5 = opt_u64_bytes(v.expires_at) + q6;
    let q4 = opt_key_bytes(v.pass) + q5;
    let q3 = opt_key_bytes(v.passbook) + q4;
    let q2 = v.owner + q3;
    let q1 = v.store + q2;
    let q0 = account_type_bytes(v.account_type) + q1;
    lemma_concat_associative(membership_state_bytes(v.state), opt_u64_bytes(v.activated_at), rest);
    lemma_concat_associative(opt_u64_bytes(v.expires_at), membership_state_bytes(v.state) + (opt_u64_bytes(v.activated_at)), rest);
    lemma_concat_associative(opt_key_bytes(v.pass), opt_u64_bytes(v.expires_at) + (membership_state_bytes(v.state) + (opt_u64_bytes(v.activated_at))), rest);
    lemma_concat_associative(opt_key_bytes(v.passbook), opt_key_bytes(v.pass) + (opt_u64_bytes(v.expires_at) + (membership_state_bytes(v.state) + (opt_u64_bytes(v.activated_at)))), rest);
    lemma_concat_associative(v.owner, opt_key_bytes(v.passbook) + (opt_key_bytes(v.pass) + (opt_u64_bytes(v.expires_at) + (membership_state_bytes(v.state) + (opt_u64_bytes(v.activated_at))))), rest);
    lemma_concat_associative(v.store, v.owner + (opt_key_bytes(v.passbook) + (opt_key_bytes(v.pass) + (opt_u64_bytes(v.expires_at) + (membership_state_bytes(v.state) + (opt_u64_bytes(v.activated_at)))))), rest);
    lemma_concat_associative(account_type_bytes(v.account_type), v.store + (v.owner + (opt_key_bytes(v.passbook) + (opt_key_bytes(v.pass) + (opt_u64_bytes(v.expires_at) + (membership_state_bytes(v.state) + (opt_u64_bytes(v.activated_at))))))), rest);
    assert(membership_bytes(v) + rest == q0);
    lemma_read_account_type(v.account_type, q1);
    lemma_read_key(v.store, q2);
    lemma_read_key(v.owner, q3);
    lemma_read_opt_key(v.passbook, q4);
    lemma_read_opt_key(v.pass, q5);
    lemma_read_opt_u64(v.expires_at, q6);
    lemma_read_membership_state(v.state, q7);
    lemma_read_opt_u64(v.activated_at, q8);
}

/// A successful read of a `Membership` consumed exactly its encoding.
pub proof fn lemma_read_membership_inverse(s: Seq<u8>)
    ensures
        read_membership(s) matches Some((v, r)) ==> membership_ok(v) && membership_bytes(v) + r == s,
{
    reveal(membership_bytes);
    reveal(read_membership);
    if let Some((v, r)) = read_membership(s) {
        lemma_read_account_type_inverse(s);
        let s1 = read_account_type(s)->Some_0.1;
        lemma_read_key_inverse(s1);
        let s2 = read_key(s1)->Some_0.1;
        lemma_read_key_inverse(s2);
        let s3 = read_key(s2)->Some_0.1;
        lemma_read_opt_key_inverse(s3);
        let s4 = read_opt_key(s3)->Some_0.1;
        lemma_read_opt_key_inverse(s4);
        let s5 = read_opt_key(s4)->Some_0.1;
        lemma_read_opt_u64_inverse(s5);
        let s6 = read_opt_u64(s5)->Some_0.1;
        lemma_read_membership_state_inverse(s6);
        let s7 = read_membership_state(s6)->Some_0.1;
        lemma_read_opt_u64_inverse(s7);
        let s8 = read_opt_u64(s7)->Some_0.1;
        lemma_concat_associative(membership_state_bytes(v.state), opt_u64_bytes(v.activated_at), r);
        lemma_concat_associative(opt_u64_bytes(v.expires_at), membership_state_bytes(v.state) + (opt_u64_bytes(v.activated_at)), r);
        lemma_concat_associative(opt_key_bytes(v.pass), opt_u64_bytes(v.expires_at) + (membership_state_bytes(v.state) + (opt_u64_bytes(v.activated_at))), r);
        lemma_concat_associative(opt_key_bytes(v.passbook), opt_key_bytes(v.pass) + (opt_u64_bytes(v.expires_at) + (membership_state_bytes(v.state) + (opt_u64_bytes(v.activated_at)))), r);
        lemma_concat_associative(v.owner, opt_key_bytes(v.passbook) + (opt_key_bytes(v.pass) + (opt_u64_bytes(v.expires_at) + (membership_state_bytes(v.state) + (opt_u64_bytes(v.activated_at))))), r);
        lemma_concat_associative(v.store, v.owner + (opt_key_bytes(v.passbook) + (opt_key_bytes(v.pass) + (opt_u64_bytes(v.expires_at) + (membership_state_bytes(v.state) + (opt_u64_bytes(v.activated_at)))))), r);
        lemma_concat_associative(account_type_bytes(v.account_type), v.store + (v.owner + (opt_key_bytes(v.passbook) + (opt_key_bytes(v.pass) + (opt_u64_bytes(v.expires_at) + (membership_state_bytes(v.state) + (opt_u64_bytes(v.activated_at))))))), r);
    }
}

/// The length of the encoding of a `Membership`: the lengths of its fields added up.
pub proof fn lemma_membership_bytes_len(v: MembershipView)
    ensures
        membership_bytes(v).len() == (account_type_bytes(v.account_type)).len() + (v.store).len() + (v.owner).len() + (opt_key_bytes(v.passbook)).len() + (opt_key_bytes(v.pass)).len() + (opt_u64_bytes(v.expires_at)).len() + (membership_state_bytes(v.state)).len() + (opt_u64_bytes(v.activated_at)).len(),
{
    reveal(membership_bytes);
}

impl Membership {
    /// Appends the encoding of this `Membership` to `out`.
    pub fn serialize(&self, out: &mut Vec<u8>)
        requires
            membership_ok(self@),
        ensures
            final(out)@ == old(out)@ + membership_bytes(self@),
    {
        reveal(membership_bytes);
        let ghost x = out@;
        put_account_type(out, self.account_type);
        let ghost x0 = out@;
        put_key(out, &self.store);
        let ghost x1 = out@;
        put_key(out, &self.owner);
        let ghost x2 = out@;
        put_opt_key(out, &self.passbook);
        let ghost x3 = out@;
        put_opt_key(out, &self.pass);
        let ghost x4 = out@;
        put_opt_u64(out, self.expires_at);
        let ghost x5 = out@;
        put_membership_state(out, self.state);
        let ghost x6 = out@;
        put_opt_u64(out, self.activated_at);
        let ghost x7 = out@;
        proof {
            lemma_concat_associative(x5, membership_state_bytes(self@.state), opt_u64_bytes(self@.activated_at));
            lemma_concat_associative(x4, opt_u64_bytes(self@.expires_at), membership_state_bytes(self@.state) + (opt_u64_bytes(self@.activated_at)));
            lemma_concat_associative(x3, opt_key_bytes(self@.pass), opt_u64_bytes(self@.expires_at) + (membership_state_bytes(self@.state) + (opt_u64_bytes(self@.activated_at))));
            lemma_concat_associative(x2, opt_key_bytes(self@.passbook), opt_key_bytes(self@.pass) + (opt_u64_bytes(self@.expires_at) + (membership_state_bytes(self@.state) + (opt_u64_bytes(self@.activated_at)))));
            lemma_concat_associative(x1, self@.owner, opt_key_bytes(self@.passbook) + (opt_key_bytes(self@.pass) + (opt_u64_bytes(self@.expires_at) + (membership_state_bytes(self@.state) + (opt_u64_bytes(self@.activated_at))))));
            lemma_concat_associative(x0, self@.store, self@.owner + (opt_key_bytes(self@.passbook) + (opt_key_bytes(self@.pass) + (opt_u64_bytes(self@.expires_at) + (membership_state_bytes(self@.state) + (opt_u64_bytes(self@.activated_at)))))));
            lemma_concat_associative(x, account_type_bytes(self@.account_type), self@.store + (self@.owner + (opt_key_bytes(self@.passbook) + (opt_key_bytes(self@.pass) + (opt_u64_bytes(self@.expires_at) + (membership_state_bytes(self@.state) + (opt_u64_bytes(self@.activated_at))))))));
        }
        assert(out@ == x + membership_bytes(self@));
    }

    /// Reads a `Membership` from `src` at `pos`; gives it and the position after it.
    pub fn deserialize(src: &[u8], pos: usize) -> (r: Option<(Self, usize)>)
        requires
            pos <= src@.len(),
        ensures
            read_agrees_view(src@, pos, r, read_membership(rest_at(src@, pos)), |x: Membership| x@),
    {
        reveal(read_membership);
        let (account_type, p0) = match get_account_type(src, pos) {
            Some(x) => x,
            None => return None,
        };
        let (store, p1) = match get_key(src, p0) {
            Some(x) => x,
            None => return None,
        };
        let (owner, p2) = match get_key(src, p1) {
            Some(x) => x,
            None => return None,
        };
        let (passbook, p3) = match get_opt_key(src, p2) {
            Some(x) => x,
            None => return None,
        };
        let (pass, p4) = match get_opt_key(src, p3) {
            Some(x) => x,
            None => return None,
        };
        let (expires_at, p5) = match get_opt_u64(src, p4) {
            Some(x) => x,
            None => return None,
        };
        let (state, p6) = match get_membership_state(src, p5) {
            Some(x) => x,
            None => return None,
        };
        let (activated_at, p7) = match get_opt_u64(src, p6) {
            Some(x) => x,
            None => return None,
        };
        Some((Membership { account_type, store, owner, passbook, pass, expires_at, state, activated_at }, p7))
    }
}

/// How `Membership::unpack_from_slice` reads account data: the first byte must be the
/// `Membership` or `Uninitialized` tag and the data `MAX_PASS_LEN` bytes long; then the
/// fields are read from the front, and what follows them is ignored.
pub open spec fn membership_from_slice(src: Seq<u8>) -> Result<MembershipView, ProgramError> {
    if (src[0] != 6u8 && src[0] != 0u8) || src.len() != MAX_PASS_LEN {
        Err(ProgramError::InvalidAccountData)
    } else {
        match read_membership(src) {
            Some((v, _)) => Ok(v),
            None => Err(ProgramError::BorshIoError),
        }
    }
}

/// How `Membership::unpack_unchecked` reads account data of any length.
pub open spec fn membership_unpack_unchecked(src: Seq<u8>) -> Result<MembershipView, ProgramError> {
    if src.len() != MAX_PASS_LEN {
        Err(ProgramError::InvalidAccountData)
    } else {
        membership_from_slice(src)
    }
}

/// How `Membership::unpack` reads account data: as `unpack_unchecked`, and the account must
/// be initialized.
pub open spec fn membership_unpack(src: Seq<u8>) -> Result<MembershipView, ProgramError> {
    match membership_unpack_unchecked(src) {
        Ok(v) => if v.account_type == AccountType::Membership {
            Ok(v)
        } else {
            Err(ProgramError::UninitializedAccount)
        },
        Err(e) => Err(e),
    }
}

/// Data written by `Membership::pack` reads back as the value that was packed.
pub proof fn lemma_membership_unpack_packed(v: MembershipView, tail: Seq<u8>)
    requires
        membership_ok(v),
        (membership_bytes(v) + tail).len() == MAX_PASS_LEN,
    ensures
        v.account_type == AccountType::Membership || v.account_type == AccountType::Uninitialized
            ==> membership_unpack_unchecked(membership_bytes(v) + tail) == Ok::<MembershipView, ProgramError>(v),
        v.account_type == AccountType::Membership ==> membership_unpack(membership_bytes(v) + tail) == Ok::<MembershipView, ProgramError>(v),
        v.account_type == AccountType::Uninitialized ==> membership_unpack(membership_bytes(v) + tail)
            == Err::<MembershipView, ProgramError>(ProgramError::UninitializedAccount),
{
    lemma_read_membership(v, tail);
    reveal(membership_bytes);
    assert((membership_bytes(v) + tail)[0] == account_type_tag(v.account_type));
}

impl Membership {
    /// Writes the encoding of this `Membership` over the front of `dst`.
    pub fn pack_into_slice(&self, dst: &mut [u8])
        requires
            membership_ok(self@),
            membership_bytes(self@).len() <= old(dst)@.len(),
        ensures
            final(dst)@ == membership_bytes(self@) + old(dst)@.skip(membership_bytes(self@).len() as int),
    {
        let mut buf: Vec<u8> = Vec::new();
        self.serialize(&mut buf);
        copy_to_front(dst, &buf);
    }

    /// Reads a `Membership` from account data whose first byte is its tag or `Uninitialized`.
    pub fn unpack_from_slice(src: &[u8]) -> (r: Result<Self, ProgramError>)
        requires
            src@.len() > 0,
        ensures
            view_result(r) == membership_from_slice(src@),
    {
        if (src[0] != 6 && src[0] != 0) || src.len() != MAX_PASS_LEN {
            return Err(ProgramError::InvalidAccountData);
        }
        assert(rest_at(src@, 0) =~= src@);
        match Self::deserialize(src, 0) {
            Some((v, _)) => Ok(v),
            None => Err(ProgramError::BorshIoError),
        }
    }

    /// Reads a `Membership` from account data of the packed length.
    pub fn unpack_unchecked(src: &[u8]) -> (r: Result<Self, ProgramError>)
        ensures
            view_result(r) == membership_unpack_unchecked(src@),
    {
        if src.len() != MAX_PASS_LEN {
            return Err(ProgramError::InvalidAccountData);
        }
        Self::unpack_from_slice(src)
    }

    /// Reads an initialized `Membership` from account data of the packed length.
    pub fn unpack(src: &[u8]) -> (r: Result<Self, ProgramError>)
        ensures
            view_result(r) == membership_unpack(src@),
    {
        let v = Self::unpack_unchecked(src)?;
        if v.is_initialized() {
            Ok(v)
        } else {
            Err(ProgramError::UninitializedAccount)
        }
    }

    /// Writes `src` over the front of `dst`, which must be `MAX_PASS_LEN` bytes long.
    pub fn pack(src: Self, dst: &mut [u8]) -> (r: Result<(), ProgramError>)
        requires
            membership_ok(src@),
            old(dst)@.len() == MAX_PASS_LEN ==> membership_bytes(src@).len() <= MAX_PASS_LEN,
        ensures
            old(dst)@.len() != MAX_PASS_LEN ==> r == Err::<(), ProgramError>(ProgramError::InvalidAccountData)
                && final(dst)@ == old(dst)@,
            old(dst)@.len() == MAX_PASS_LEN ==> r == Ok::<(), ProgramError>(())
                && final(dst)@ == membership_bytes(src@) + old(dst)@.skip(membership_bytes(src@).len() as int),
    {
        if dst.len() != MAX_PASS_LEN {
            return Err(ProgramError::InvalidAccountData);
        }
        src.pack_into_slice(dst);
        Ok(())
    }

}

impl IsInitialized for Membership {
    open spec fn initialized(&self) -> bool {
        self.account_type == AccountType::Membership
    }

    fn is_initialized(&self) -> (r: bool) {
        self.account_type != AccountType::Uninitialized && self.account_type == AccountType::Membership
    }
}

/// Data that `Membership::unpack_unchecked` reads is the encoding of the value read, then
/// bytes that it ignores: packing the value again leaves the data as it was.
pub proof fn lemma_membership_unpack_inverse(src: Seq<u8>)
    ensures
        membership_unpack_unchecked(src) matches Ok(v) ==> membership_ok(v) && membership_bytes(v).len() <= src.len()
            && membership_bytes(v) + src.skip(membership_bytes(v).len() as int) == src,
{
    lemma_read_membership_inverse(src);
    if let Ok(v) = membership_unpack_unchecked(src) {
        lemma_skip_front(membership_bytes(v), read_membership(src)->Some_0.1);
    }
}

impl Membership {
    /// Seed of membership addresses.
    pub const PREFIX: &'static str = "membership";

    /// Initializes the membership of `owner` in `store`, not yet activated.
    pub fn init(&mut self, store: Pubkey, owner: Pubkey)
        ensures
            final(self)@ == (MembershipView {
                account_type: AccountType::Membership,
                store: store@,
                owner: owner@,
                passbook: None,
                pass: None,
                expires_at: None,
                state: MembershipState::NotActivated,
                activated_at: None,
            }),
    {
        self.account_type = AccountType::Membership;
        self.passbook = None;
        self.pass = None;
        self.store = store;
        self.owner = owner;
        self.expires_at = None;
        self.activated_at = None;
        self.state = MembershipState::NotActivated;
    }
}

} // verus!
