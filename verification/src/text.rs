//! Texts padded with NUL characters.

use vstd::prelude::*;
use vstd::string::StringExecFns;

use vstd::utf8::*;

use crate::codec::utf8_text;

verus! {

/// `n` NUL characters.
pub open spec fn nuls(n: nat) -> Seq<char> {
    Seq::new(n, |i: int| '\0')
}

/// `s` padded with NUL characters to `max` bytes.
pub open spec fn puffed(s: Seq<char>, max: usize) -> Seq<char> {
    s + nuls((max - encode_utf8(s).len()) as nat)
}

/// `s` followed by `n` NUL characters.
pub fn pad_with_nuls(s: &String, n: usize) -> (r: String)
    ensures
        r@ == s@ + nuls(n as nat),
{
    let mut zeros: Vec<u8> = Vec::new();
    let mut i: usize = 0;
    while i < n
        invariant
            i <= n,
            zeros@ == Seq::new(i as nat, |j: int| 0u8),
        decreases n - i,
    {
        zeros.push(0u8);
        i = i + 1;
        assert(zeros@ =~= Seq::new(i as nat, |j: int| 0u8));
    }
    proof {
        assert(is_ascii_chars(nuls(n as nat)));
        is_ascii_chars_encode_utf8(nuls(n as nat));
        assert(encode_utf8(nuls(n as nat)) =~= zeros@);
        encode_utf8_valid_utf8(nuls(n as nat));
        encode_utf8_decode_utf8(nuls(n as nat));
    }
    let t = utf8_text(zeros.as_slice()).unwrap();
    proof {
        encode_utf8_decode_utf8(t@);
    }
    s.clone().concat(t)
}

/// The UTF-8 encoding of two texts one after the other is their encodings one after
/// the other.
pub proof fn lemma_encode_utf8_concat(s: Seq<char>, t: Seq<char>)
    ensures
        encode_utf8(s + t) == encode_utf8(s) + encode_utf8(t),
    decreases s.len(),
{
    if s.len() == 0 {
        assert(s + t =~= t);
        assert(encode_utf8(s) + encode_utf8(t) =~= encode_utf8(t));
    } else {
        lemma_encode_utf8_concat(s.drop_first(), t);
        assert((s + t).drop_first() =~= s.drop_first() + t);
        assert((s + t)[0] == s[0]);
        assert(encode_utf8(s + t) =~= encode_utf8(s) + encode_utf8(t));
    }
}

/// A text padded to `max` bytes is `max` bytes long in UTF-8.
pub proof fn lemma_puffed_len(s: Seq<char>, max: usize)
    requires
        encode_utf8(s).len() <= max,
    ensures
        encode_utf8(puffed(s, max)).len() == max,
{
    let n = (max - encode_utf8(s).len()) as nat;
    lemma_encode_utf8_concat(s, nuls(n));
    assert(is_ascii_chars(nuls(n)));
    is_ascii_chars_encode_utf8(nuls(n));
}

} // verus!
