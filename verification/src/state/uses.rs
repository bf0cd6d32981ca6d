//! Uses of passes and use authority records.

use vstd::prelude::*;

use crate::codec::{
    copy_to_front, get_key, get_u64, get_u8, lemma_read_key, lemma_read_u64, lemma_read_u8,
    lemma_read_key_inverse, lemma_read_u64_inverse, lemma_read_u8_inverse, lemma_skip_front,
    put_key, put_u64, put_u8, read_agrees, read_agrees_view, read_key, read_u64, read_u8, rest_at,
    u64_bytes,
};
use vstd::seq_lib::lemma_concat_associative;
use crate::error::{view_result, ProgramError};
use crate::pubkey::Pubkey;

use crate::state::{
    account_type_bytes, account_type_tag, get_account_type, lemma_read_account_type,
    lemma_read_account_type_inverse, put_account_type, read_account_type, AccountType,
    IsInitialized,
};
use crate::state::USE_AUTHORITY_LENGTH;

verus! {

/// Uses of a pass
#[derive(Clone, Copy, Debug, PartialEq, Eq, Structural)]
pub struct Uses {
    /// Uses left
    pub remaining: u64,
    /// Uses in all
    pub total: u64,
}

/// The values of `Uses` that the format can hold: addresses of 32 bytes, texts
/// of at most `u32::MAX` bytes.
pub open spec fn uses_ok(v: Uses) -> bool {
    true
}

/// The encoding of a `Uses`: its fields in order.
#[verifier::opaque]
pub open spec fn uses_bytes(v: Uses) -> Seq<u8> {
    u64_bytes(v.remaining) + (u64_bytes(v.total))
}

/// Reads the fields of a `Uses` in order.
#[verifier::opaque]
pub open spec fn read_uses(s: Seq<u8>) -> Option<(Uses, Seq<u8>)> {
    match read_u64(s) {
        Some((remaining, r0)) => {
            match read_u64(r0) {
                Some((total, r1)) => {
                    Some((Uses { remaining, total }, r1))
                },
                None => None,
            }
        },
        None => None,
    }
}

/// Reading the encoding of a `Uses` gives it back and leaves what followed.
pub proof fn lemma_read_uses(v: Uses, rest: Seq<u8>)
    requires
        uses_ok(v),
    ensures
        read_uses(uses_bytes(v) + rest) == Some((v, rest)),
{
    reveal(uses_bytes);
    reveal(read_uses);
    let q2 = rest;
    let q1 = u64_bytes(v.total) + q2;
    let q0 = u64_bytes(v.remaining) + q1;
    lemma_concat_associative(u64_bytes(v.remaining), u64_bytes(v.total), rest);
    assert(uses_bytes(v) + rest == q0);
    lemma_read_u64(v.remaining, q1);
    lemma_read_u64(v.total, q2);
}

/// A successful read of a `Uses` consumed exactly its encoding.
pub proof fn lemma_read_uses_inverse(s: Seq<u8>)
    ensures
        read_uses(s) matches Some((v, r)) ==> uses_ok(v) && uses_bytes(v) + r == s,
{
    reveal(uses_bytes);
    reveal(read_uses);
    if let Some((v, r)) = read_uses(s) {
        lemma_read_u64_inverse(s);
        let s1 = read_u64(s)->Some_0.1;
        lemma_read_u64_inverse(s1);
        let s2 = read_u64(s1)->Some_0.1;
        lemma_concat_associative(u64_bytes(v.remaining), u64_bytes(v.total), r);
    }
}

/// The length of the encoding of a `Uses`: the lengths of its fields added up.
pub proof fn lemma_uses_bytes_len(v: Uses)
    ensures
        uses_bytes(v).len() == (u64_bytes(v.remaining)).len() + (u64_bytes(v.total)).len(),
{
    reveal(uses_bytes);
}

impl Uses {
    /// Appends the encoding of this `Uses` to `out`.
    pub fn serialize(&self, out: &mut Vec<u8>)
        requires
            uses_ok(*self),
        ensures
            final(out)@ == old(out)@ + uses_bytes(*self),
    {
        reveal(uses_bytes);
        let ghost x = out@;
        put_u64(out, self.remaining);
        let ghost x0 = out@;
        put_u64(out, self.total);
        let ghost x1 = out@;
        proof {
            lemma_concat_associative(x, u64_bytes(self.remaining), u64_bytes(self.total));
        }
        assert(out@ == x + uses_bytes(*self));
    }

    /// Reads a `Uses` from `src` at `pos`; gives it and the position after it.
    pub fn deserialize(src: &[u8], pos: usize) -> (r: Option<(Self, usize)>)
        requires
            pos <= src@.len(),
        ensures
            read_agrees(src@, pos, r, read_uses(rest_at(src@, pos))),
    {
        reveal(read_uses);
        let (remaining, p0) = match get_u64(src, pos) {
            Some(x) => x,
            None => return None,
        };
        let (total, p1) = match get_u64(src, p0) {
            Some(x) => x,
            None => return None,
        };
        Some((Uses { remaining, total }, p1))
    }
}

/// Use authority record
#[derive(Clone, Debug, PartialEq)]
pub struct UseAuthority {
    /// Account type - UseAuthority
    pub account_type: AccountType,
    /// Membership
    pub membership: Pubkey,
    /// Number of uses allowed
    pub allowed_uses: u64,
    /// Bump seed of the address
    pub bump: u8,
}

/// `UseAuthority` with its addresses as bytes and its texts as characters.
pub struct UseAuthorityView {
    pub account_type: AccountType,
    pub membership: Seq<u8>,
    pub allowed_uses: u64,
    pub bump: u8,
}

impl View for UseAuthority {
    type V = UseAuthorityView;

    open spec fn view(&self) -> UseAuthorityView {
        UseAuthorityView {
            account_type: self.account_type,
            membership: self.membership@,
            allowed_uses: self.allowed_uses,
            bump: self.bump,
        }
    }
}

/// The values of `UseAuthority` that the format can hold: addresses of 32 bytes, texts
/// of at most `u32::MAX` bytes.
pub open spec fn use_authority_ok(v: UseAuthorityView) -> bool {
    v.membership.len() == 32
}

/// The encoding of a `UseAuthority`: its fields in order.
#[verifier::opaque]
pub open spec fn use_authority_bytes(v: UseAuthorityView) -> Seq<u8> {
    account_type_bytes(v.account_type) + (v.membership + (u64_bytes(v.allowed_uses) + (seq![v.bump])))
}

/// Reads the fields of a `UseAuthority` in order.
#[verifier::opaque]
pub open spec fn read_use_authority(s: Seq<u8>) -> Option<(UseAuthorityView, Seq<u8>)> {
    match read_account_type(s) {
        Some((account_type, r0)) => {
            match read_key(r0) {
                Some((membership, r1)) => {
                    match read_u64(r1) {
                        Some((allowed_uses, r2)) => {
                            match read_u8(r2) {
                                Some((bump, r3)) => {
                                    Some((UseAuthorityView { account_type, membership, allowed_uses, bump }, r3))
                                },
                                None => None,
                            }
                        },
                        None => None,
                    }
                },
                None => None,
            }
        },
        None => None,
    }
}

/// Reading the encoding of a `UseAuthority` gives it back and leaves what followed.
pub proof fn lemma_read_use_authority(v: UseAuthorityView, rest: Seq<u8>)
    requires
        use_authority_ok(v),
    ensures
        read_use_authority(use_authority_bytes(v) + rest) == Some((v, rest)),
{
    reveal(use_authority_bytes);
    reveal(read_use_authority);
    let q4 = rest;
    let q3 = seq![v.bump] + q4;
    let q2 = u64_bytes(v.allowed_uses) + q3;
    let q1 = v.membership + q2;
    let q0 = account_type_bytes(v.account_type) + q1;
    lemma_concat_associative(u64_bytes(v.allowed_uses), seq![v.bump], rest);
    lemma_concat_associative(v.membership, u64_bytes(v.allowed_uses) + (seq![v.bump]), rest);
    lemma_concat_associative(account_type_bytes(v.account_type), v.membership + (u64_bytes(v.allowed_uses) + (seq![v.bump])), rest);
    assert(use_authority_bytes(v) + rest == q0);
    lemma_read_account_type(v.account_type, q1);
    lemma_read_key(v.membership, q2);
    lemma_read_u64(v.allowed_uses, q3);
    lemma_read_u8(v.bump, q4);
}

/// A successful read of a `UseAuthority` consumed exactly its encoding.
pub proof fn lemma_read_use_authority_inverse(s: Seq<u8>)
    ensures
        read_use_authority(s) matches Some((v, r)) ==> use_authority_ok(v) && use_authority_bytes(v) + r == s,
{
    reveal(use_authority_bytes);
    reveal(read_use_authority);
    if let Some((v, r)) = read_use_authority(s) {
        lemma_read_account_type_inverse(s);
        let s1 = read_account_type(s)->Some_0.1;
        lemma_read_key_inverse(s1);
        let s2 = read_key(s1)->Some_0.1;
        lemma_read_u64_inverse(s2);
        let s3 = read_u64(s2)->Some_0.1;
        lemma_read_u8_inverse(s3);
        let s4 = read_u8(s3)->Some_0.1;
        lemma_concat_associative(u64_bytes(v.allowed_uses), seq![v.bump], r);
        lemma_concat_associative(v.membership, u64_bytes(v.allowed_uses) + (seq![v.bump]), r);
        lemma_concat_associative(account_type_bytes(v.account_type), v.membership + (u64_bytes(v.allowed_uses) + (seq![v.bump])), r);
    }
}

/// The length of the encoding of a `UseAuthority`: the lengths of its fields added up.
pub proof fn lemma_use_authority_bytes_len(v: UseAuthorityView)
    ensures
        use_authority_bytes(v).len() == (account_type_bytes(v.account_type)).len() + (v.membership).len() + (u64_bytes(v.allowed_uses)).len() + (seq![v.bump]).len(),
{
    reveal(use_authority_bytes);
}

impl UseAuthority {
    /// Appends the encoding of this `UseAuthority` to `out`.
    pub fn serialize(&self, out: &mut Vec<u8>)
        requires
            use_authority_ok(self@),
        ensures
            final(out)@ == old(out)@ + use_authority_bytes(self@),
    {
        reveal(use_authority_bytes);
        let ghost x = out@;
        put_account_type(out, self.account_type);
        let ghost x0 = out@;
        put_key(out, &self.membership);
        let ghost x1 = out@;
        put_u64(out, self.allowed_uses);
        let ghost x2 = out@;
        put_u8(out, self.bump);
        let ghost x3 = out@;
        proof {
            lemma_concat_associative(x1, u64_bytes(self@.allowed_uses), seq![self@.bump]);
            lemma_concat_associative(x0, self@.membership, u64_bytes(self@.allowed_uses) + (seq![self@.bump]));
            lemma_concat_associative(x, account_type_bytes(self@.account_type), self@.membership + (u64_bytes(self@.allowed_uses) + (seq![self@.bump])));
        }
        assert(out@ == x + use_authority_bytes(self@));
    }

    /// Reads a `UseAuthority` from `src` at `pos`; gives it and the position after it.
    pub fn deserialize(src: &[u8], pos: usize) -> (r: Option<(Self, usize)>)
        requires
            pos <= src@.len(),
        ensures
            read_agrees_view(src@, pos, r, read_use_authority(rest_at(src@, pos)), |x: UseAuthority| x@),
    {
        reveal(read_use_authority);
        let (account_type, p0) = match get_account_type(src, pos) {
            Some(x) => x,
            None => return None,
        };
        let (membership, p1) = match get_key(src, p0) {
            Some(x) => x,
            None => return None,
        };
        let (allowed_uses, p2) = match get_u64(src, p1) {
            Some(x) => x,
            None => return None,
        };
        let (bump, p3) = match get_u8(src, p2) {
            Some(x) => x,
            None => return None,
        };
        Some((UseAuthority { account_type, membership, allowed_uses, bump }, p3))
    }
}

/// How `UseAuthority::unpack_from_slice` reads account data: the first byte must be the
/// `UseAuthority` or `Uninitialized` tag and the data `USE_AUTHORITY_LENGTH` bytes long; then the
/// fields are read from the front, and what follows them is ignored.
pub open spec fn use_authority_from_slice(src: Seq<u8>) -> Result<UseAuthorityView, ProgramError> {
    if (src[0] != 7u8 && src[0] != 0u8) || src.len() != USE_AUTHORITY_LENGTH {
        Err(ProgramError::InvalidAccountData)
    } else {
        match read_use_authority(src) {
            Some((v, _)) => Ok(v),
            None => Err(ProgramError::BorshIoError),
        }
    }
}

/// How `UseAuthority::unpack_unchecked` reads account data of any length.
pub open spec fn use_authority_unpack_unchecked(src: Seq<u8>) -> Result<UseAuthorityView, ProgramError> {
    if src.len() != USE_AUTHORITY_LENGTH {
        Err(ProgramError::InvalidAccountData)
    } else {
        use_authority_from_slice(src)
    }
}

/// How `UseAuthority::unpack` reads account data: as `unpack_unchecked`, and the account must
/// be initialized.
pub open spec fn use_authority_unpack(src: Seq<u8>) -> Result<UseAuthorityView, ProgramError> {
    match use_authority_unpack_unchecked(src) {
        Ok(v) => if v.account_type == AccountType::UseAuthority {
            Ok(v)
        } else {
            Err(ProgramError::UninitializedAccount)
        },
        Err(e) => Err(e),
    }
}

/// Data written by `UseAuthority::pack` reads back as the value that was packed.
pub proof fn lemma_use_authority_unpack_packed(v: UseAuthorityView, tail: Seq<u8>)
    requires
        use_authority_ok(v),
        (use_authority_bytes(v) + tail).len() == USE_AUTHORITY_LENGTH,
    ensures
        v.account_type == AccountType::UseAuthority || v.account_type == AccountType::Uninitialized
            ==> use_authority_unpack_unchecked(use_authority_bytes(v) + tail) == Ok::<UseAuthorityView, ProgramError>(v),
        v.account_type == AccountType::UseAuthority ==> use_authority_unpack(use_authority_bytes(v) + tail) == Ok::<UseAuthorityView, ProgramError>(v),
        v.account_type == AccountType::Uninitialized ==> use_authority_unpack(use_authority_bytes(v) + tail)
            == Err::<UseAuthorityView, ProgramError>(ProgramError::UninitializedAccount),
{
    lemma_read_use_authority(v, tail);
    reveal(use_authority_bytes);
    assert((use_authority_bytes(v) + tail)[0] == account_type_tag(v.account_type));
}

impl UseAuthority {
    /// Writes the encoding of this `UseAuthority` over the front of `dst`.
    pub fn pack_into_slice(&self, dst: &mut [u8])
        requires
            use_authority_ok(self@),
            use_authority_bytes(self@).len() <= old(dst)@.len(),
        ensures
            final(dst)@ == use_authority_bytes(self@) + old(dst)@.skip(use_authority_bytes(self@).len() as int),
    {
        let mut buf: Vec<u8> = Vec::new();
        self.serialize(&mut buf);
        copy_to_front(dst, &buf);
    }

    /// Reads a `UseAuthority` from account data whose first byte is its tag or `Uninitialized`.
    pub fn unpack_from_slice(src: &[u8]) -> (r: Result<Self, ProgramError>)
        requires
            src@.len() > 0,
        ensures
            view_result(r) == use_authority_from_slice(src@),
    {
        if (src[0] != 7 && src[0] != 0) || src.len() != USE_AUTHORITY_LENGTH {
            return Err(ProgramError::InvalidAccountData);
        }
        assert(rest_at(src@, 0) =~= src@);
        match Self::deserialize(src, 0) {
            Some((v, _)) => Ok(v),
            None => Err(ProgramError::BorshIoError),
        }
    }

    /// Reads a `UseAuthority` from account data of the packed length.
    pub fn unpack_unchecked(src: &[u8]) -> (r: Result<Self, ProgramError>)
        ensures
            view_result(r) == use_authority_unpack_unchecked(src@),
    {
        if src.len() != USE_AUTHORITY_LENGTH {
            return Err(ProgramError::InvalidAccountData);
        }
        Self::unpack_from_slice(src)
    }

    /// Reads an initialized `UseAuthority` from account data of the packed length.
    pub fn unpack(src: &[u8]) -> (r: Result<Self, ProgramError>)
        ensures
            view_result(r) == use_authority_unpack(src@),
    {
        let v = Self::unpack_unchecked(src)?;
        if v.is_initialized() {
            Ok(v)
        } else {
            Err(ProgramError::UninitializedAccount)
        }
    }

    /// Writes `src` over the front of `dst`, which must be `USE_AUTHORITY_LENGTH` bytes long.
    pub fn pack(src: Self, dst: &mut [u8]) -> (r: Result<(), ProgramError>)
        requires
            use_authority_ok(src@),
            old(dst)@.len() == USE_AUTHORITY_LENGTH ==> use_authority_bytes(src@).len() <= USE_AUTHORITY_LENGTH,
        ensures
            old(dst)@.len() != USE_AUTHORITY_LENGTH ==> r == Err::<(), ProgramError>(ProgramError::InvalidAccountData)
                && final(dst)@ == old(dst)@,
            old(dst)@.len() == USE_AUTHORITY_LENGTH ==> r == Ok::<(), ProgramError>(())
                && final(dst)@ == use_authority_bytes(src@) + old(dst)@.skip(use_authority_bytes(src@).len() as int),
    {
        if dst.len() != USE_AUTHORITY_LENGTH {
            return Err(ProgramError::InvalidAccountData);
        }
        src.pack_into_slice(dst);
        Ok(())
    }

}

impl IsInitialized for UseAuthority {
    open spec fn initialized(&self) -> bool {
        self.account_type == AccountType::UseAuthority
    }

    fn is_initialized(&self) -> (r: bool) {
        self.account_type != AccountType::Uninitialized && self.account_type == AccountType::UseAuthority
    }
}

/// Data that `UseAuthority::unpack_unchecked` reads is the encoding of the value read, then
/// bytes that it ignores: packing the value again leaves the data as it was.
pub proof fn lemma_use_authority_unpack_inverse(src: Seq<u8>)
    ensures
        use_authority_unpack_unchecked(src) matches Ok(v) ==> use_authority_ok(v) && use_authority_bytes(v).len() <= src.len()
            && use_authority_bytes(v) + src.skip(use_authority_bytes(v).len() as int) == src,
{
    lemma_read_use_authority_inverse(src);
    if let Ok(v) = use_authority_unpack_unchecked(src) {
        lemma_skip_front(use_authority_bytes(v), read_use_authority(src)->Some_0.1);
    }
}

impl UseAuthority {
    /// Seed of use authority addresses.
    pub const PREFIX: &'static str = "user";

    /// Initializes a use authority record; the allowed uses stay as they are.
    pub fn init(&mut self, membership: Pubkey, bump: u8)
        ensures
            final(self)@ == (UseAuthorityView {
                account_type: AccountType::UseAuthority,
                membership: membership@,
                bump,
                ..old(self)@
            }),
    {
        self.account_type = AccountType::UseAuthority;
        self.membership = membership;
        self.bump = bump;
    }
}

} // verus!
