//! Account addresses.

use vstd::prelude::*;

verus! {

/// A 32-byte account address.
#[derive(Clone, Copy, Debug)]
pub struct Pubkey(pub [u8; 32]);

impl View for Pubkey {
    type V = Seq<u8>;

    open spec fn view(&self) -> Seq<u8> {
        self.0@
    }
}

impl PartialEq for Pubkey {
    fn eq(&self, other: &Self) -> (r: bool) {
        let mut i: usize = 0;
        while i < 32
            invariant
                i <= 32,
                forall|j: int| 0 <= j < i ==> self@[j] == other@[j],
            decreases 32 - i,
        {
            if self.0[i] != other.0[i] {
                return false;
            }
            i = i + 1;
        }
        assert(self@ =~= other@);
        true
    }
}

impl vstd::std_specs::cmp::PartialEqSpecImpl for Pubkey {
    open spec fn obeys_eq_spec() -> bool {
        true
    }

    open spec fn eq_spec(&self, other: &Pubkey) -> bool {
        self@ == other@
    }
}

impl Eq for Pubkey {
}

impl Default for Pubkey {
    /// The address whose bytes are all zero.
    fn default() -> (r: Self)
        ensures
            r@ == Seq::new(32, |i: int| 0u8),
    {
        let r = Pubkey([0u8; 32]);
        assert(r@ =~= Seq::new(32, |i: int| 0u8));
        r
    }
}

impl Pubkey {
    /// The 32 bytes of the address.
    pub fn to_bytes(&self) -> (r: [u8; 32])
        ensures
            r@ == self@,
    {
        self.0
    }
}

/// The address of this program: the bytes of `passjvPvHQWN4SvBCmHk1gdrtBvoHRERtQK9MKemreQ`.
pub open spec fn program_id_bytes() -> Seq<u8> {
    seq![12u8, 48u8, 154u8, 97u8, 34u8, 51u8, 146u8, 164u8, 84u8, 159u8, 253u8, 28u8, 85u8, 112u8, 172u8, 138u8, 240u8, 138u8, 46u8, 202u8, 223u8, 77u8, 87u8, 194u8, 91u8, 146u8, 209u8, 155u8, 249u8, 243u8, 40u8, 205u8]
}

/// Returns the program ID
pub fn id() -> (r: Pubkey)
    ensures
        r@ == program_id_bytes(),
{
    let r = Pubkey([12, 48, 154, 97, 34, 51, 146, 164, 84, 159, 253, 28, 85, 112, 172, 138, 240, 138, 46, 202, 223, 77, 87, 194, 91, 146, 209, 155, 249, 243, 40, 205]);
    assert(r@ =~= program_id_bytes());
    r
}

/// The address of the SPL token program: the bytes of `TokenkegQfeZyiNwAJbNbGKPFXCWuBvf9Ss623VQ5DA`.
pub open spec fn token_program_id_bytes() -> Seq<u8> {
    seq![6u8, 221u8, 246u8, 225u8, 215u8, 101u8, 161u8, 147u8, 217u8, 203u8, 225u8, 70u8, 206u8, 235u8, 121u8, 172u8, 28u8, 180u8, 133u8, 237u8, 95u8, 91u8, 55u8, 145u8, 58u8, 140u8, 245u8, 133u8, 126u8, 255u8, 0u8, 169u8]
}

/// `spl_token::id()`: the address of the SPL token program, whose bytes the crate's source
/// declares as `TokenkegQfeZyiNwAJbNbGKPFXCWuBvf9Ss623VQ5DA`.
#[verifier::external_body]
pub(crate) fn token_program_id() -> (r: Pubkey)
    ensures
        r@ == token_program_id_bytes(),
{
    Pubkey(spl_token::id().to_bytes())
}

/// The address of the mint of wrapped native SOL: the bytes of `So11111111111111111111111111111111111111112`.
pub open spec fn native_mint_id_bytes() -> Seq<u8> {
    seq![6u8, 155u8, 136u8, 87u8, 254u8, 171u8, 129u8, 132u8, 251u8, 104u8, 127u8, 99u8, 70u8, 24u8, 192u8, 53u8, 218u8, 196u8, 57u8, 220u8, 26u8, 235u8, 59u8, 85u8, 152u8, 160u8, 240u8, 0u8, 0u8, 0u8, 0u8, 1u8]
}

/// `spl_token::native_mint::id()`: the address of the mint of wrapped native SOL, whose bytes the crate's source
/// declares as `So11111111111111111111111111111111111111112`.
#[verifier::external_body]
pub(crate) fn native_mint_id() -> (r: Pubkey)
    ensures
        r@ == native_mint_id_bytes(),
{
    Pubkey(spl_token::native_mint::id().to_bytes())
}

/// The address of the token metadata program: the bytes of `metaqbxxUerdq28cj1RbAWkYQm3ybzjb6a8bt518x1s`.
pub open spec fn metadata_program_id_bytes() -> Seq<u8> {
    seq![11u8, 112u8, 101u8, 177u8, 227u8, 209u8, 124u8, 69u8, 56u8, 157u8, 82u8, 127u8, 107u8, 4u8, 195u8, 205u8, 88u8, 184u8, 108u8, 115u8, 26u8, 160u8, 253u8, 181u8, 73u8, 182u8, 209u8, 188u8, 3u8, 248u8, 41u8, 70u8]
}

/// `mpl_token_metadata::ID`: the address of the token metadata program, whose bytes the crate's source
/// declares as `metaqbxxUerdq28cj1RbAWkYQm3ybzjb6a8bt518x1s`.
#[verifier::external_body]
pub(crate) fn metadata_program_id() -> (r: Pubkey)
    ensures
        r@ == metadata_program_id_bytes(),
{
    Pubkey(mpl_token_metadata::ID.to_bytes())
}

/// The address of the system program: the bytes of `11111111111111111111111111111111`.
pub open spec fn system_program_id_bytes() -> Seq<u8> {
    seq![0u8, 0u8, 0u8, 0u8, 0u8, 0u8, 0u8, 0u8, 0u8, 0u8, 0u8, 0u8, 0u8, 0u8, 0u8, 0u8, 0u8, 0u8, 0u8, 0u8, 0u8, 0u8, 0u8, 0u8, 0u8, 0u8, 0u8, 0u8, 0u8, 0u8, 0u8, 0u8]
}

/// `solana_program::system_program::id()`: the address of the system program, whose bytes the crate's source
/// declares as `11111111111111111111111111111111`.
#[verifier::external_body]
pub(crate) fn system_program_id() -> (r: Pubkey)
    ensures
        r@ == system_program_id_bytes(),
{
    Pubkey(solana_program::system_program::id().to_bytes())
}

/// The address of the clock sysvar: the bytes of `SysvarC1ock11111111111111111111111111111111`.
pub open spec fn clock_sysvar_id_bytes() -> Seq<u8> {
    seq![6u8, 167u8, 213u8, 23u8, 24u8, 199u8, 116u8, 201u8, 40u8, 86u8, 99u8, 152u8, 105u8, 29u8, 94u8, 182u8, 139u8, 94u8, 184u8, 163u8, 155u8, 75u8, 109u8, 92u8, 115u8, 85u8, 91u8, 33u8, 0u8, 0u8, 0u8, 0u8]
}

/// `solana_program::sysvar::clock::id()`: the address of the clock sysvar, whose bytes the crate's source
/// declares as `SysvarC1ock11111111111111111111111111111111`.
#[verifier::external_body]
pub(crate) fn clock_sysvar_id() -> (r: Pubkey)
    ensures
        r@ == clock_sysvar_id_bytes(),
{
    Pubkey(solana_program::sysvar::clock::id().to_bytes())
}

/// The address of the rent sysvar: the bytes of `SysvarRent111111111111111111111111111111111`.
pub open spec fn rent_sysvar_id_bytes() -> Seq<u8> {
    seq![6u8, 167u8, 213u8, 23u8, 25u8, 44u8, 92u8, 81u8, 33u8, 140u8, 201u8, 76u8, 61u8, 74u8, 241u8, 127u8, 88u8, 218u8, 238u8, 8u8, 155u8, 161u8, 253u8, 68u8, 227u8, 219u8, 217u8, 138u8, 0u8, 0u8, 0u8, 0u8]
}

/// `solana_program::sysvar::rent::id()`: the address of the rent sysvar, whose bytes the crate's source
/// declares as `SysvarRent111111111111111111111111111111111`.
#[verifier::external_body]
pub(crate) fn rent_sysvar_id() -> (r: Pubkey)
    ensures
        r@ == rent_sysvar_id_bytes(),
{
    Pubkey(solana_program::sysvar::rent::id().to_bytes())
}

/// The address of the associated token account program: the bytes of `ATokenGPvbdGVxr1b2hvZbsiqW5xWH25efTNsLJA8knL`.
pub open spec fn associated_token_program_id_bytes() -> Seq<u8> {
    seq![140u8, 151u8, 37u8, 143u8, 78u8, 36u8, 137u8, 241u8, 187u8, 61u8, 16u8, 41u8, 20u8, 142u8, 13u8, 131u8, 11u8, 90u8, 19u8, 153u8, 218u8, 255u8, 16u8, 132u8, 4u8, 142u8, 123u8, 216u8, 219u8, 233u8, 248u8, 89u8]
}

/// `spl_associated_token_account::id()`: the address of the associated token account program, whose bytes the crate's source
/// declares as `ATokenGPvbdGVxr1b2hvZbsiqW5xWH25efTNsLJA8knL`.
#[verifier::external_body]
pub(crate) fn associated_token_program_id() -> (r: Pubkey)
    ensures
        r@ == associated_token_program_id_bytes(),
{
    Pubkey(spl_associated_token_account::id().to_bytes())
}

} // verus!

