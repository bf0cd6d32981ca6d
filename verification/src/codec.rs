//! The byte format of accounts and instructions: little-endian integers, `0`/`1`
//! booleans, option and enum tags in one byte, strings as a `u32` byte length
//! followed by their UTF-8 bytes, addresses as their 32 raw bytes.
//!
//! Every `read_*` spec function takes the bytes that remain and gives back the
//! value and the bytes that follow it; every `*_bytes` spec function gives the
//! encoding of a value.  The `lemma_read_*` proofs state that reading an
//! encoding gives back the encoded value and leaves what followed it.
use vstd::prelude::*;
use vstd::slice::slice_subrange;
use vstd::utf8::*;
use vstd::string::*;

use crate::pubkey::Pubkey;

verus! {

broadcast use vstd::seq_lib::group_seq_properties;

// ---------------------------------------------------------------- integers

pub open spec fn u16_bytes(v: u16) -> Seq<u8> {
    seq![v as u8, (v >> 8u16) as u8]
}

pub open spec fn u32_bytes(v: u32) -> Seq<u8> {
    seq![v as u8, (v >> 8u32) as u8, (v >> 16u32) as u8, (v >> 24u32) as u8]
}

pub open spec fn u64_bytes(v: u64) -> Seq<u8> {
    seq![
        v as u8,
        (v >> 8u64) as u8,
        (v >> 16u64) as u8,
        (v >> 24u64) as u8,
        (v >> 32u64) as u8,
        (v >> 40u64) as u8,
        (v >> 48u64) as u8,
        (v >> 56u64) as u8,
    ]
}

pub open spec fn u16_le(b0: u8, b1: u8) -> u16 {
    (b0 as u16) | ((b1 as u16) << 8u16)
}

pub open spec fn u32_le(b0: u8, b1: u8, b2: u8, b3: u8) -> u32 {
    (b0 as u32) | ((b1 as u32) << 8u32) | ((b2 as u32) << 16u32) | ((b3 as u32) << 24u32)
}

pub open spec fn u64_le(b0: u8, b1: u8, b2: u8, b3: u8, b4: u8, b5: u8, b6: u8, b7: u8) -> u64 {
    (b0 as u64) | ((b1 as u64) << 8u64) | ((b2 as u64) << 16u64) | ((b3 as u64) << 24u64) | ((
    b4 as u64) << 32u64) | ((b5 as u64) << 40u64) | ((b6 as u64) << 48u64) | ((b7 as u64)
        << 56u64)
}

pub open spec fn read_u8(s: Seq<u8>) -> Option<(u8, Seq<u8>)> {
    if s.len() >= 1 {
        Some((s[0], s.skip(1)))
    } else {
        None
    }
}

pub open spec fn read_u16(s: Seq<u8>) -> Option<(u16, Seq<u8>)> {
    if s.len() >= 2 {
        Some((u16_le(s[0], s[1]), s.skip(2)))
    } else {
        None
    }
}

pub open spec fn read_u32(s: Seq<u8>) -> Option<(u32, Seq<u8>)> {
    if s.len() >= 4 {
        Some((u32_le(s[0], s[1], s[2], s[3]), s.skip(4)))
    } else {
        None
    }
}

pub open spec fn read_u64(s: Seq<u8>) -> Option<(u64, Seq<u8>)> {
    if s.len() >= 8 {
        Some((u64_le(s[0], s[1], s[2], s[3], s[4], s[5], s[6], s[7]), s.skip(8)))
    } else {
        None
    }
}

pub proof fn lemma_read_u8(v: u8, rest: Seq<u8>)
    ensures
        read_u8(seq![v] + rest) == Some((v, rest)),
{
    assert((seq![v] + rest).skip(1) =~= rest);
}

pub proof fn lemma_read_u16(v: u16, rest: Seq<u8>)
    ensures
        read_u16(u16_bytes(v) + rest) == Some((v, rest)),
{
    let s = u16_bytes(v) + rest;
    assert(s.skip(2) =~= rest);
    assert(u16_le(v as u8, (v >> 8u16) as u8) == v) by (bit_vector);
}

pub proof fn lemma_read_u32(v: u32, rest: Seq<u8>)
    ensures
        read_u32(u32_bytes(v) + rest) == Some((v, rest)),
{
    let s = u32_bytes(v) + rest;
    assert(s.skip(4) =~= rest);
    assert(u32_le(v as u8, (v >> 8u32) as u8, (v >> 16u32) as u8, (v >> 24u32) as u8) == v)
        by (bit_vector);
}

pub proof fn lemma_read_u64(v: u64, rest: Seq<u8>)
    ensures
        read_u64(u64_bytes(v) + rest) == Some((v, rest)),
{
    let s = u64_bytes(v) + rest;
    assert(s.skip(8) =~= rest);
    assert(u64_le(
        v as u8,
        (v >> 8u64) as u8,
        (v >> 16u64) as u8,
        (v >> 24u64) as u8,
        (v >> 32u64) as u8,
        (v >> 40u64) as u8,
        (v >> 48u64) as u8,
        (v >> 56u64) as u8,
    ) == v) by (bit_vector);
}

// ---------------------------------------------------------------- booleans

pub open spec fn bool_bytes(b: bool) -> Seq<u8> {
    if b {
        seq![1u8]
    } else {
        seq![0u8]
    }
}

pub open spec fn read_bool(s: Seq<u8>) -> Option<(bool, Seq<u8>)> {
    match read_u8(s) {
        Some((t, r)) => if t == 0 {
            Some((false, r))
        } else if t == 1 {
            Some((true, r))
        } else {
            None
        },
        None => None,
    }
}

pub proof fn lemma_read_bool(b: bool, rest: Seq<u8>)
    ensures
        read_bool(bool_bytes(b) + rest) == Some((b, rest)),
{
    lemma_read_u8(if b { 1u8 } else { 0u8 }, rest);
}

// ---------------------------------------------------------------- addresses

pub open spec fn read_key(s: Seq<u8>) -> Option<(Seq<u8>, Seq<u8>)> {
    if s.len() >= 32 {
        Some((s.take(32), s.skip(32)))
    } else {
        None
    }
}

pub proof fn lemma_read_key(k: Seq<u8>, rest: Seq<u8>)
    requires
        k.len() == 32,
    ensures
        read_key(k + rest) == Some((k, rest)),
{
    assert((k + rest).take(32) =~= k);
    assert((k + rest).skip(32) =~= rest);
}

// ---------------------------------------------------------------- strings

/// The UTF-8 bytes of a text.
pub open spec fn text_bytes(s: Seq<char>) -> Seq<u8> {
    encode_utf8(s)
}

/// A text whose UTF-8 length fits the `u32` length prefix.
pub open spec fn text_fits(s: Seq<char>) -> bool {
    text_bytes(s).len() <= u32::MAX
}

pub open spec fn string_bytes(s: Seq<char>) -> Seq<u8> {
    u32_bytes(text_bytes(s).len() as u32) + text_bytes(s)
}

pub open spec fn read_string(s: Seq<u8>) -> Option<(Seq<char>, Seq<u8>)> {
    match read_u32(s) {
        Some((n, r)) => if n <= r.len() && valid_utf8(r.take(n as int)) {
            Some((decode_utf8(r.take(n as int)), r.skip(n as int)))
        } else {
            None
        },
        None => None,
    }
}

pub proof fn lemma_read_string(t: Seq<char>, rest: Seq<u8>)
    requires
        text_fits(t),
    ensures
        read_string(string_bytes(t) + rest) == Some((t, rest)),
{
    let b = text_bytes(t);
    let n = b.len() as u32;
    assert(string_bytes(t) + rest =~= u32_bytes(n) + (b + rest));
    lemma_read_u32(n, b + rest);
    assert((b + rest).take(n as int) =~= b);
    assert((b + rest).skip(n as int) =~= rest);
    encode_utf8_valid_utf8(t);
    encode_utf8_decode_utf8(t);
}

// ---------------------------------------------------------------- options

pub open spec fn opt_u64_bytes(o: Option<u64>) -> Seq<u8> {
    match o {
        Some(v) => seq![1u8] + u64_bytes(v),
        None => seq![0u8],
    }
}

pub open spec fn read_opt_u64(s: Seq<u8>) -> Option<(Option<u64>, Seq<u8>)> {
    match read_u8(s) {
        Some((t, r)) => if t == 0 {
            Some((None, r))
        } else if t == 1 {
            match read_u64(r) {
                Some((v, r2)) => Some((Some(v), r2)),
                None => None,
            }
        } else {
            None
        },
        None => None,
    }
}

pub proof fn lemma_read_opt_u64(o: Option<u64>, rest: Seq<u8>)
    ensures
        read_opt_u64(opt_u64_bytes(o) + rest) == Some((o, rest)),
{
    match o {
        Some(v) => {
            assert(opt_u64_bytes(o) + rest =~= seq![1u8] + (u64_bytes(v) + rest));
            lemma_read_u8(1u8, u64_bytes(v) + rest);
            lemma_read_u64(v, rest);
        },
        None => {
            lemma_read_u8(0u8, rest);
        },
    }
}

pub open spec fn opt_key_bytes(o: Option<Seq<u8>>) -> Seq<u8> {
    match o {
        Some(k) => seq![1u8] + k,
        None => seq![0u8],
    }
}

pub open spec fn read_opt_key(s: Seq<u8>) -> Option<(Option<Seq<u8>>, Seq<u8>)> {
    match read_u8(s) {
        Some((t, r)) => if t == 0 {
            Some((None, r))
        } else if t == 1 {
            match read_key(r) {
                Some((k, r2)) => Some((Some(k), r2)),
                None => None,
            }
        } else {
            None
        },
        None => None,
    }
}

pub open spec fn opt_key_ok(o: Option<Seq<u8>>) -> bool {
    o matches Some(k) ==> k.len() == 32
}

pub proof fn lemma_read_opt_key(o: Option<Seq<u8>>, rest: Seq<u8>)
    requires
        opt_key_ok(o),
    ensures
        read_opt_key(opt_key_bytes(o) + rest) == Some((o, rest)),
{
    match o {
        Some(k) => {
            assert(opt_key_bytes(o) + rest =~= seq![1u8] + (k + rest));
            lemma_read_u8(1u8, k + rest);
            lemma_read_key(k, rest);
        },
        None => {
            lemma_read_u8(0u8, rest);
        },
    }
}

pub open spec fn opt_string_bytes(o: Option<Seq<char>>) -> Seq<u8> {
    match o {
        Some(t) => seq![1u8] + string_bytes(t),
        None => seq![0u8],
    }
}

pub open spec fn read_opt_string(s: Seq<u8>) -> Option<(Option<Seq<char>>, Seq<u8>)> {
    match read_u8(s) {
        Some((t, r)) => if t == 0 {
            Some((None, r))
        } else if t == 1 {
            match read_string(r) {
                Some((v, r2)) => Some((Some(v), r2)),
                None => None,
            }
        } else {
            None
        },
        None => None,
    }
}

pub open spec fn opt_text_fits(o: Option<Seq<char>>) -> bool {
    o matches Some(t) ==> text_fits(t)
}

pub proof fn lemma_read_opt_string(o: Option<Seq<char>>, rest: Seq<u8>)
    requires
        opt_text_fits(o),
    ensures
        read_opt_string(opt_string_bytes(o) + rest) == Some((o, rest)),
{
    match o {
        Some(t) => {
            assert(opt_string_bytes(o) + rest =~= seq![1u8] + (string_bytes(t) + rest));
            lemma_read_u8(1u8, string_bytes(t) + rest);
            lemma_read_string(t, rest);
        },
        None => {
            lemma_read_u8(0u8, rest);
        },
    }
}

pub open spec fn opt_bool_bytes(o: Option<bool>) -> Seq<u8> {
    match o {
        Some(b) => seq![1u8] + bool_bytes(b),
        None => seq![0u8],
    }
}

pub open spec fn read_opt_bool(s: Seq<u8>) -> Option<(Option<bool>, Seq<u8>)> {
    match read_u8(s) {
        Some((t, r)) => if t == 0 {
            Some((None, r))
        } else if t == 1 {
            match read_bool(r) {
                Some((v, r2)) => Some((Some(v), r2)),
                None => None,
            }
        } else {
            None
        },
        None => None,
    }
}

pub proof fn lemma_read_opt_bool(o: Option<bool>, rest: Seq<u8>)
    ensures
        read_opt_bool(opt_bool_bytes(o) + rest) == Some((o, rest)),
{
    match o {
        Some(b) => {
            assert(opt_bool_bytes(o) + rest =~= seq![1u8] + (bool_bytes(b) + rest));
            lemma_read_u8(1u8, bool_bytes(b) + rest);
            lemma_read_bool(b, rest);
        },
        None => {
            lemma_read_u8(0u8, rest);
        },
    }
}

// ---------------------------------------------------------------- what reading consumes

/// Skipping the front of a concatenation leaves its back.
pub proof fn lemma_skip_front(a: Seq<u8>, b: Seq<u8>)
    ensures
        (a + b).skip(a.len() as int) == b,
{
    assert((a + b).skip(a.len() as int) =~= b);
}

/// The bytes that a successful read consumed encode the value read: reading takes an
/// encoding off the front.
pub proof fn lemma_read_u8_inverse(s: Seq<u8>)
    ensures
        read_u8(s) matches Some((v, r)) ==> seq![v] + r == s,
{
    if s.len() >= 1 {
        assert(seq![s[0]] + s.skip(1) =~= s);
    }
}

pub proof fn lemma_read_u16_inverse(s: Seq<u8>)
    ensures
        read_u16(s) matches Some((v, r)) ==> u16_bytes(v) + r == s,
{
    if s.len() >= 2 {
        let (b0, b1) = (s[0], s[1]);
        let v = u16_le(b0, b1);
        assert(v as u8 == b0 && (v >> 8u16) as u8 == b1) by (bit_vector)
            requires
                v == u16_le(b0, b1),
        ;
        assert(u16_bytes(v) + s.skip(2) =~= s);
    }
}

pub proof fn lemma_read_u32_inverse(s: Seq<u8>)
    ensures
        read_u32(s) matches Some((v, r)) ==> u32_bytes(v) + r == s,
{
    if s.len() >= 4 {
        let (b0, b1, b2, b3) = (s[0], s[1], s[2], s[3]);
        let v = u32_le(b0, b1, b2, b3);
        assert(v as u8 == b0 && (v >> 8u32) as u8 == b1 && (v >> 16u32) as u8 == b2 && (v
            >> 24u32) as u8 == b3) by (bit_vector)
            requires
                v == u32_le(b0, b1, b2, b3),
        ;
        assert(u32_bytes(v) + s.skip(4) =~= s);
    }
}

pub proof fn lemma_read_u64_inverse(s: Seq<u8>)
    ensures
        read_u64(s) matches Some((v, r)) ==> u64_bytes(v) + r == s,
{
    if s.len() >= 8 {
        let (b0, b1, b2, b3, b4, b5, b6, b7) = (s[0], s[1], s[2], s[3], s[4], s[5], s[6], s[7]);
        let v = u64_le(b0, b1, b2, b3, b4, b5, b6, b7);
        assert(v as u8 == b0 && (v >> 8u64) as u8 == b1 && (v >> 16u64) as u8 == b2 && (v
            >> 24u64) as u8 == b3 && (v >> 32u64) as u8 == b4 && (v >> 40u64) as u8 == b5 && (v
            >> 48u64) as u8 == b6 && (v >> 56u64) as u8 == b7) by (bit_vector)
            requires
                v == u64_le(b0, b1, b2, b3, b4, b5, b6, b7),
        ;
        assert(u64_bytes(v) + s.skip(8) =~= s);
    }
}

pub proof fn lemma_read_bool_inverse(s: Seq<u8>)
    ensures
        read_bool(s) matches Some((v, r)) ==> bool_bytes(v) + r == s,
{
    lemma_read_u8_inverse(s);
}

pub proof fn lemma_read_key_inverse(s: Seq<u8>)
    ensures
        read_key(s) matches Some((v, r)) ==> v.len() == 32 && v + r == s,
{
    if s.len() >= 32 {
        assert(s.take(32) + s.skip(32) =~= s);
    }
}

pub proof fn lemma_read_string_inverse(s: Seq<u8>)
    ensures
        read_string(s) matches Some((v, r)) ==> text_fits(v) && string_bytes(v) + r == s,
{
    lemma_read_u32_inverse(s);
    if let Some((n, r)) = read_u32(s) {
        if n <= r.len() && valid_utf8(r.take(n as int)) {
            let b = r.take(n as int);
            decode_utf8_encode_utf8(b);
            assert(encode_utf8(decode_utf8(b)) == b);
            assert(b + r.skip(n as int) =~= r);
            assert(string_bytes(decode_utf8(b)) + r.skip(n as int) =~= u32_bytes(n) + (b + r.skip(n as int)));
        }
    }
}

pub proof fn lemma_read_opt_u64_inverse(s: Seq<u8>)
    ensures
        read_opt_u64(s) matches Some((v, r)) ==> opt_u64_bytes(v) + r == s,
{
    lemma_read_u8_inverse(s);
    if let Some((t, r)) = read_u8(s) {
        if t == 1 {
            lemma_read_u64_inverse(r);
            if let Some((x, r2)) = read_u64(r) {
                assert(seq![1u8] + (u64_bytes(x) + r2) =~= (seq![1u8] + u64_bytes(x)) + r2);
            }
        }
    }
}

pub proof fn lemma_read_opt_bool_inverse(s: Seq<u8>)
    ensures
        read_opt_bool(s) matches Some((v, r)) ==> opt_bool_bytes(v) + r == s,
{
    lemma_read_u8_inverse(s);
    if let Some((t, r)) = read_u8(s) {
        if t == 1 {
            lemma_read_bool_inverse(r);
            if let Some((x, r2)) = read_bool(r) {
                assert(seq![1u8] + (bool_bytes(x) + r2) =~= (seq![1u8] + bool_bytes(x)) + r2);
            }
        }
    }
}

pub proof fn lemma_read_opt_key_inverse(s: Seq<u8>)
    ensures
        read_opt_key(s) matches Some((v, r)) ==> opt_key_ok(v) && opt_key_bytes(v) + r == s,
{
    lemma_read_u8_inverse(s);
    if let Some((t, r)) = read_u8(s) {
        if t == 1 {
            lemma_read_key_inverse(r);
            if let Some((x, r2)) = read_key(r) {
                assert(seq![1u8] + (x + r2) =~= (seq![1u8] + x) + r2);
            }
        }
    }
}

pub proof fn lemma_read_opt_string_inverse(s: Seq<u8>)
    ensures
        read_opt_string(s) matches Some((v, r)) ==> opt_text_fits(v) && opt_string_bytes(v) + r
            == s,
{
    lemma_read_u8_inverse(s);
    if let Some((t, r)) = read_u8(s) {
        if t == 1 {
            lemma_read_string_inverse(r);
            if let Some((x, r2)) = read_string(r) {
                assert(seq![1u8] + (string_bytes(x) + r2) =~= (seq![1u8] + string_bytes(x)) + r2);
            }
        }
    }
}

// ---------------------------------------------------------------- views of optional values

pub open spec fn opt_key_view(o: Option<Pubkey>) -> Option<Seq<u8>> {
    match o {
        Some(k) => Some(k@),
        None => None,
    }
}

pub open spec fn opt_string_view(o: Option<String>) -> Option<Seq<char>> {
    match o {
        Some(s) => Some(s@),
        None => None,
    }
}

// ---------------------------------------------------------------- writers

pub fn put_u8(out: &mut Vec<u8>, v: u8)
    ensures
        final(out)@ == old(out)@ + seq![v],
{
    out.push(v);
    assert(final(out)@ =~= old(out)@ + seq![v]);
}

pub fn put_u16(out: &mut Vec<u8>, v: u16)
    ensures
        final(out)@ == old(out)@ + u16_bytes(v),
{
    out.push(v as u8);
    out.push((v >> 8u16) as u8);
    assert(final(out)@ =~= old(out)@ + u16_bytes(v));
}

pub fn put_u32(out: &mut Vec<u8>, v: u32)
    ensures
        final(out)@ == old(out)@ + u32_bytes(v),
{
    out.push(v as u8);
    out.push((v >> 8u32) as u8);
    out.push((v >> 16u32) as u8);
    out.push((v >> 24u32) as u8);
    assert(final(out)@ =~= old(out)@ + u32_bytes(v));
}

pub fn put_u64(out: &mut Vec<u8>, v: u64)
    ensures
        final(out)@ == old(out)@ + u64_bytes(v),
{
    out.push(v as u8);
    out.push((v >> 8u64) as u8);
    out.push((v >> 16u64) as u8);
    out.push((v >> 24u64) as u8);
    out.push((v >> 32u64) as u8);
    out.push((v >> 40u64) as u8);
    out.push((v >> 48u64) as u8);
    out.push((v >> 56u64) as u8);
    assert(final(out)@ =~= old(out)@ + u64_bytes(v));
}

pub fn put_bool(out: &mut Vec<u8>, b: bool)
    ensures
        final(out)@ == old(out)@ + bool_bytes(b),
{
    if b {
        put_u8(out, 1);
    } else {
        put_u8(out, 0);
    }
}

pub fn put_bytes(out: &mut Vec<u8>, bytes: &[u8])
    ensures
        final(out)@ == old(out)@ + bytes@,
{
    let n = bytes.len();
    let mut i: usize = 0;
    while i < n
        invariant
            n == bytes@.len(),
            i <= n,
            out@ == old(out)@ + bytes@.take(i as int),
        decreases n - i,
    {
        out.push(bytes[i]);
        i = i + 1;
        assert(out@ =~= old(out)@ + bytes@.take(i as int));
    }
    assert(bytes@.take(n as int) =~= bytes@);
}

pub fn put_key(out: &mut Vec<u8>, k: &Pubkey)
    ensures
        final(out)@ == old(out)@ + k@,
{
    put_bytes(out, k.0.as_slice());
}

pub fn put_string(out: &mut Vec<u8>, s: &String)
    requires
        text_fits(s@),
    ensures
        final(out)@ == old(out)@ + string_bytes(s@),
{
    let bytes = s.as_str().as_bytes();
    let n = bytes.len();
    put_u32(out, n as u32);
    put_bytes(out, bytes);
    assert(final(out)@ =~= old(out)@ + string_bytes(s@));
}

pub fn put_opt_u64(out: &mut Vec<u8>, o: Option<u64>)
    ensures
        final(out)@ == old(out)@ + opt_u64_bytes(o),
{
    match o {
        Some(v) => {
            put_u8(out, 1);
            put_u64(out, v);
        },
        None => {
            put_u8(out, 0);
        },
    }
    assert(final(out)@ =~= old(out)@ + opt_u64_bytes(o));
}

pub fn put_opt_key(out: &mut Vec<u8>, o: &Option<Pubkey>)
    ensures
        final(out)@ == old(out)@ + opt_key_bytes(opt_key_view(*o)),
{
    match o {
        Some(k) => {
            put_u8(out, 1);
            put_key(out, k);
        },
        None => {
            put_u8(out, 0);
        },
    }
    assert(final(out)@ =~= old(out)@ + opt_key_bytes(opt_key_view(*o)));
}

pub fn put_opt_string(out: &mut Vec<u8>, o: &Option<String>)
    requires
        opt_text_fits(opt_string_view(*o)),
    ensures
        final(out)@ == old(out)@ + opt_string_bytes(opt_string_view(*o)),
{
    match o {
        Some(s) => {
            put_u8(out, 1);
            put_string(out, s);
        },
        None => {
            put_u8(out, 0);
        },
    }
    assert(final(out)@ =~= old(out)@ + opt_string_bytes(opt_string_view(*o)));
}

// ---------------------------------------------------------------- readers

/// Read position `pos` of `src` stands for the bytes `src@.skip(pos)`.
pub open spec fn rest_at(src: Seq<u8>, pos: usize) -> Seq<u8> {
    src.skip(pos as int)
}

/// The outcome `r` of an exec reader started at `pos` agrees with the spec reader's `o`.
pub open spec fn read_agrees<T>(src: Seq<u8>, pos: usize, r: Option<(T, usize)>, o: Option<(T, Seq<u8>)>) -> bool {
    match r {
        Some((v, p)) => pos <= p <= src.len() && o == Some((v, rest_at(src, p))),
        None => o is None,
    }
}

/// Like `read_agrees`, where the exec value is seen through `view`.
pub open spec fn read_agrees_view<T, V>(
    src: Seq<u8>,
    pos: usize,
    r: Option<(T, usize)>,
    o: Option<(V, Seq<u8>)>,
    view: spec_fn(T) -> V,
) -> bool {
    match r {
        Some((v, p)) => pos <= p <= src.len() && o == Some((view(v), rest_at(src, p))),
        None => o is None,
    }
}

pub fn get_u8(src: &[u8], pos: usize) -> (r: Option<(u8, usize)>)
    requires
        pos <= src@.len(),
    ensures
        read_agrees(src@, pos, r, read_u8(rest_at(src@, pos))),
{
    if pos < src.len() {
        let v = src[pos];
        assert(rest_at(src@, pos).skip(1) =~= rest_at(src@, (pos + 1) as usize));
        Some((v, pos + 1))
    } else {
        None
    }
}

pub fn get_u16(src: &[u8], pos: usize) -> (r: Option<(u16, usize)>)
    requires
        pos <= src@.len(),
    ensures
        read_agrees(src@, pos, r, read_u16(rest_at(src@, pos))),
{
    if src.len() - pos >= 2 {
        let v = (src[pos] as u16) | ((src[pos + 1] as u16) << 8u16);
        assert(rest_at(src@, pos).skip(2) =~= rest_at(src@, (pos + 2) as usize));
        Some((v, pos + 2))
    } else {
        None
    }
}

pub fn get_u32(src: &[u8], pos: usize) -> (r: Option<(u32, usize)>)
    requires
        pos <= src@.len(),
    ensures
        read_agrees(src@, pos, r, read_u32(rest_at(src@, pos))),
{
    if src.len() - pos >= 4 {
        let v = (src[pos] as u32) | ((src[pos + 1] as u32) << 8u32) | ((src[pos + 2] as u32)
            << 16u32) | ((src[pos + 3] as u32) << 24u32);
        assert(rest_at(src@, pos).skip(4) =~= rest_at(src@, (pos + 4) as usize));
        Some((v, pos + 4))
    } else {
        None
    }
}

pub fn get_u64(src: &[u8], pos: usize) -> (r: Option<(u64, usize)>)
    requires
        pos <= src@.len(),
    ensures
        read_agrees(src@, pos, r, read_u64(rest_at(src@, pos))),
{
    if src.len() - pos >= 8 {
        let v = (src[pos] as u64) | ((src[pos + 1] as u64) << 8u64) | ((src[pos + 2] as u64)
            << 16u64) | ((src[pos + 3] as u64) << 24u64) | ((src[pos + 4] as u64) << 32u64) | ((
        src[pos + 5] as u64) << 40u64) | ((src[pos + 6] as u64) << 48u64) | ((src[pos
            + 7] as u64) << 56u64);
        assert(rest_at(src@, pos).skip(8) =~= rest_at(src@, (pos + 8) as usize));
        Some((v, pos + 8))
    } else {
        None
    }
}

pub fn get_bool(src: &[u8], pos: usize) -> (r: Option<(bool, usize)>)
    requires
        pos <= src@.len(),
    ensures
        read_agrees(src@, pos, r, read_bool(rest_at(src@, pos))),
{
    match get_u8(src, pos) {
        Some((t, p)) => if t == 0 {
            Some((false, p))
        } else if t == 1 {
            Some((true, p))
        } else {
            None
        },
        None => None,
    }
}

pub fn get_key(src: &[u8], pos: usize) -> (r: Option<(Pubkey, usize)>)
    requires
        pos <= src@.len(),
    ensures
        read_agrees_view(src@, pos, r, read_key(rest_at(src@, pos)), |k: Pubkey| k@),
{
    let n = src.len();
    if n - pos >= 32 {
        let mut a = [0u8; 32];
        let mut i: usize = 0;
        while i < 32
            invariant
                i <= 32,
                n == src@.len(),
                pos + 32 <= src@.len(),
                forall|j: int| 0 <= j < i ==> a@[j] == src@[pos + j],
            decreases 32 - i,
        {
            a[i] = src[pos + i];
            i = i + 1;
        }
        let k = Pubkey(a);
        assert(k@ =~= rest_at(src@, pos).take(32));
        assert(rest_at(src@, pos).skip(32) =~= rest_at(src@, (pos + 32) as usize));
        Some((k, pos + 32))
    } else {
        None
    }
}

/// `std::str::from_utf8`: the bytes as text, exactly when they are valid UTF-8.
#[verifier::external_body]
pub(crate) fn utf8_text(bytes: &[u8]) -> (r: Option<&str>)
    ensures
        r is Some <==> valid_utf8(bytes@),
        r matches Some(s) ==> s.spec_bytes() == bytes@,
{
    std::str::from_utf8(bytes).ok()
}

pub fn get_string(src: &[u8], pos: usize) -> (r: Option<(String, usize)>)
    requires
        pos <= src@.len(),
    ensures
        read_agrees_view(src@, pos, r, read_string(rest_at(src@, pos)), |s: String| s@),
{
    match get_u32(src, pos) {
        Some((n, p)) => {
            let n = n as usize;
            if n <= src.len() - p {
                let bytes = slice_subrange(src, p, p + n);
                assert(bytes@ =~= rest_at(src@, p).take(n as int));
                match utf8_text(bytes) {
                    Some(t) => {
                        let s = t.to_owned();
                        proof {
                            encode_utf8_decode_utf8(t@);
                        }
                        assert(rest_at(src@, p).skip(n as int) =~= rest_at(src@, (p + n) as usize));
                        Some((s, p + n))
                    },
                    None => None,
                }
            } else {
                None
            }
        },
        None => None,
    }
}

pub fn get_opt_u64(src: &[u8], pos: usize) -> (r: Option<(Option<u64>, usize)>)
    requires
        pos <= src@.len(),
    ensures
        read_agrees(src@, pos, r, read_opt_u64(rest_at(src@, pos))),
{
    match get_u8(src, pos) {
        Some((t, p)) => if t == 0 {
            Some((None, p))
        } else if t == 1 {
            match get_u64(src, p) {
                Some((v, p2)) => Some((Some(v), p2)),
                None => None,
            }
        } else {
            None
        },
        None => None,
    }
}

pub fn get_opt_key(src: &[u8], pos: usize) -> (r: Option<(Option<Pubkey>, usize)>)
    requires
        pos <= src@.len(),
    ensures
        read_agrees_view(src@, pos, r, read_opt_key(rest_at(src@, pos)), |o: Option<Pubkey>| opt_key_view(o)),
{
    match get_u8(src, pos) {
        Some((t, p)) => if t == 0 {
            Some((None, p))
        } else if t == 1 {
            match get_key(src, p) {
                Some((v, p2)) => Some((Some(v), p2)),
                None => None,
            }
        } else {
            None
        },
        None => None,
    }
}

pub fn get_opt_string(src: &[u8], pos: usize) -> (r: Option<(Option<String>, usize)>)
    requires
        pos <= src@.len(),
    ensures
        read_agrees_view(src@, pos, r, read_opt_string(rest_at(src@, pos)), |o: Option<String>| opt_string_view(o)),
{
    match get_u8(src, pos) {
        Some((t, p)) => if t == 0 {
            Some((None, p))
        } else if t == 1 {
            match get_string(src, p) {
                Some((v, p2)) => Some((Some(v), p2)),
                None => None,
            }
        } else {
            None
        },
        None => None,
    }
}

pub fn put_opt_bool(out: &mut Vec<u8>, o: Option<bool>)
    ensures
        final(out)@ == old(out)@ + opt_bool_bytes(o),
{
    match o {
        Some(b) => {
            put_u8(out, 1);
            put_bool(out, b);
        },
        None => {
            put_u8(out, 0);
        },
    }
    assert(final(out)@ =~= old(out)@ + opt_bool_bytes(o));
}

pub fn get_opt_bool(src: &[u8], pos: usize) -> (r: Option<(Option<bool>, usize)>)
    requires
        pos <= src@.len(),
    ensures
        read_agrees(src@, pos, r, read_opt_bool(rest_at(src@, pos))),
{
    match get_u8(src, pos) {
        Some((t, p)) => if t == 0 {
            Some((None, p))
        } else if t == 1 {
            match get_bool(src, p) {
                Some((v, p2)) => Some((Some(v), p2)),
                None => None,
            }
        } else {
            None
        },
        None => None,
    }
}

/// Writes `src` over the front of `dst`.
pub fn copy_to_front(dst: &mut [u8], src: &Vec<u8>)
    requires
        src@.len() <= old(dst)@.len(),
    ensures
        final(dst)@ == src@ + old(dst)@.skip(src@.len() as int),
{
    let n = src.len();
    let mut i: usize = 0;
    while i < n
        invariant
            n == src@.len(),
            n <= old(dst)@.len(),
            i <= n,
            dst@.len() == old(dst)@.len(),
            forall|j: int| 0 <= j < i ==> dst@[j] == src@[j],
            forall|j: int| i <= j < dst@.len() ==> dst@[j] == old(dst)@[j],
        decreases n - i,
    {
        dst[i] = src[i];
        i = i + 1;
    }
    assert(dst@ =~= src@ + old(dst)@.skip(n as int));
}

} // verus!
