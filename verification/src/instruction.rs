//! Instructions of the program: their arguments, their byte format and the instructions
//! that clients send.

use vstd::prelude::*;
use vstd::seq_lib::lemma_concat_associative;

use crate::codec::{
    bool_bytes, get_bool, get_opt_bool, get_opt_string, get_opt_u64, get_string, get_u16, get_u8,
    lemma_read_bool, lemma_read_opt_bool, lemma_read_opt_string, lemma_read_opt_u64,
    lemma_read_string, lemma_read_u16, lemma_read_u64, lemma_read_u8, opt_bool_bytes,
    opt_string_bytes, opt_string_view, opt_text_fits, opt_u64_bytes, put_bool, put_opt_bool,
    put_opt_string, put_opt_u64, put_string, put_u16, put_u64, put_u8, read_agrees,
    read_agrees_view, read_bool, read_opt_bool, read_opt_string, read_opt_u64, read_string,
    read_u16, read_u64, read_u8, rest_at, string_bytes, text_fits, u16_bytes, u64_bytes, get_u64,
};
use crate::error::{view_result, ProgramError};
use crate::pubkey::{
    clock_sysvar_id, clock_sysvar_id_bytes, rent_sysvar_id, rent_sysvar_id_bytes,
    system_program_id, system_program_id_bytes, token_program_id, token_program_id_bytes, Pubkey,
};
use crate::state::PayoutInfoArgs;

verus! {

/// Initialize a PassBook params
#[derive(PartialEq, Debug, Clone)]
pub struct InitPassBookArgs {
    /// Name
    pub name: String,
    /// Description
    pub description: String,
    /// URI
    pub uri: String,
    /// If true authority can make changes at deactivated phase
    pub mutable: bool,
    /// The no of days this pass can be used to access the service
    pub access: Option<u64>,
    /// The no of minutes consumed for each use of this pass
    pub max_uses: Option<u64>,
    /// The maximum number of passes that can be printed
    pub max_supply: Option<u64>,
    /// price
    pub price: u64,
    /// Indicates the presence of a referral account in the account list
    pub has_referrer: bool,
    /// Indicates the presence of a market place authority in the account list
    pub has_market_authority: bool,
    /// The date after which referral rewards expires
    pub referral_end_date: Option<u64>,
}

/// `InitPassBookArgs` with its addresses as bytes and its texts as characters.
pub struct InitPassBookArgsView {
    pub name: Seq<char>,
    pub description: Seq<char>,
    pub uri: Seq<char>,
    pub mutable: bool,
    pub access: Option<u64>,
    pub max_uses: Option<u64>,
    pub max_supply: Option<u64>,
    pub price: u64,
    pub has_referrer: bool,
    pub has_market_authority: bool,
    pub referral_end_date: Option<u64>,
}

impl View for InitPassBookArgs {
    type V = InitPassBookArgsView;

    open spec fn view(&self) -> InitPassBookArgsView {
        InitPassBookArgsView {
            name: self.name@,
            description: self.description@,
            uri: self.uri@,
            mutable: self.mutable,
            access: self.access,
            max_uses: self.max_uses,
            max_supply: self.max_supply,
            price: self.price,
            has_referrer: self.has_referrer,
            has_market_authority: self.has_market_authority,
            referral_end_date: self.referral_end_date,
        }
    }
}

/// The values of `InitPassBookArgs` that the format can hold: addresses of 32 bytes, texts
/// of at most `u32::MAX` bytes.
pub open spec fn init_pass_book_args_ok(v: InitPassBookArgsView) -> bool {
    text_fits(v.name)
    && text_fits(v.description)
    && text_fits(v.uri)
}

/// The encoding of a `InitPassBookArgs`: its fields in order.
pub open spec fn init_pass_book_args_bytes(v: InitPassBookArgsView) -> Seq<u8> {
    string_bytes(v.name) + (string_bytes(v.description) + (string_bytes(v.uri) + (bool_bytes(v.mutable) + (opt_u64_bytes(v.access) + (opt_u64_bytes(v.max_uses) + (opt_u64_bytes(v.max_supply) + (u64_bytes(v.price) + (bool_bytes(v.has_referrer) + (bool_bytes(v.has_market_authority) + (opt_u64_bytes(v.referral_end_date)))))))))))
}

#[verifier::opaque]
pub open spec fn read_init_pass_book_args(s: Seq<u8>) -> Option<(InitPassBookArgsView, Seq<u8>)> {
    match read_string(s) {
        Some((name, r0)) => {
            match read_string(r0) {
                Some((description, r1)) => {
                    match read_string(r1) {
                        Some((uri, r2)) => {
                            match read_bool(r2) {
                                Some((mutable, r3)) => {
                                    match read_opt_u64(r3) {
                                        Some((access, r4)) => {
                                            match read_opt_u64(r4) {
                                                Some((max_uses, r5)) => {
                                                    match read_opt_u64(r5) {
                                                        Some((max_supply, r6)) => {
                                                            match read_u64(r6) {
                                                                Some((price, r7)) => {
                                                                    match read_bool(r7) {
                                                                        Some((has_referrer, r8)) => {
                                                                            match read_bool(r8) {
                                                                                Some((has_market_authority, r9)) => {
                                                                                    match read_opt_u64(r9) {
                                                                                        Some((referral_end_date, r10)) => {
                                                                                            Some((InitPassBookArgsView { name, description, uri, mutable, access, max_uses, max_supply, price, has_referrer, has_market_authority, referral_end_date }, r10))
                                                                                        },
                                                                                        None => None,
                                                                                    }
                                                                                },
                                                                                None => None,
                                                                            }
                                                                        },
                                                                        None => None,
                                                                    }
                                                                },
                                                                None => None,
                                                            }
                                                        },
                                                        None => None,
                                                    }
                                                },
                                                None => None,
                                            }
                                        },
                                        None => None,
                                    }
                                },
                                None => None,
                            }
                        },
                        None => None,
                    }
                },
                None => None,
            }
        },
        None => None,
    }
}

/// Reading the encoding of a `InitPassBookArgs` gives it back and leaves what followed.
pub proof fn lemma_read_init_pass_book_args(v: InitPassBookArgsView, rest: Seq<u8>)
    requires
        init_pass_book_args_ok(v),
    ensures
        read_init_pass_book_args(init_pass_book_args_bytes(v) + rest) == Some((v, rest)),
{
    reveal(read_init_pass_book_args);
    let q11 = rest;
    let q10 = opt_u64_bytes(v.referral_end_date) + q11;
    let q9 = bool_bytes(v.has_market_authority) + q10;
    let q8 = bool_bytes(v.has_referrer) + q9;
    let q7 = u64_bytes(v.price) + q8;
    let q6 = opt_u64_bytes(v.max_supply) + q7;
    let q5 = opt_u64_bytes(v.max_uses) + q6;
    let q4 = opt_u64_bytes(v.access) + q5;
    let q3 = bool_bytes(v.mutable) + q4;
    let q2 = string_bytes(v.uri) + q3;
    let q1 = string_bytes(v.description) + q2;
    let q0 = string_bytes(v.name) + q1;
    lemma_concat_associative(bool_bytes(v.has_market_authority), opt_u64_bytes(v.referral_end_date), rest);
    lemma_concat_associative(bool_bytes(v.has_referrer), bool_bytes(v.has_market_authority) + (opt_u64_bytes(v.referral_end_date)), rest);
    lemma_concat_associative(u64_bytes(v.price), bool_bytes(v.has_referrer) + (bool_bytes(v.has_market_authority) + (opt_u64_bytes(v.referral_end_date))), rest);
    lemma_concat_associative(opt_u64_bytes(v.max_supply), u64_bytes(v.price) + (bool_bytes(v.has_referrer) + (bool_bytes(v.has_market_authority) + (opt_u64_bytes(v.referral_end_date)))), rest);
    lemma_concat_associative(opt_u64_bytes(v.max_uses), opt_u64_bytes(v.max_supply) + (u64_bytes(v.price) + (bool_bytes(v.has_referrer) + (bool_bytes(v.has_market_authority) + (opt_u64_bytes(v.referral_end_date))))), rest);
    lemma_concat_associative(opt_u64_bytes(v.access), opt_u64_bytes(v.max_uses) + (opt_u64_bytes(v.max_supply) + (u64_bytes(v.price) + (bool_bytes(v.has_referrer) + (bool_bytes(v.has_market_authority) + (opt_u64_bytes(v.referral_end_date)))))), rest);
    lemma_concat_associative(bool_bytes(v.mutable), opt_u64_bytes(v.access) + (opt_u64_bytes(v.max_uses) + (opt_u64_bytes(v.max_supply) + (u64_bytes(v.price) + (bool_bytes(v.has_referrer) + (bool_bytes(v.has_market_authority) + (opt_u64_bytes(v.referral_end_date))))))), rest);
    lemma_concat_associative(string_bytes(v.uri), bool_bytes(v.mutable) + (opt_u64_bytes(v.access) + (opt_u64_bytes(v.max_uses) + (opt_u64_bytes(v.max_supply) + (u64_bytes(v.price) + (bool_bytes(v.has_referrer) + (bool_bytes(v.has_market_authority) + (opt_u64_bytes(v.referral_end_date)))))))), rest);
    lemma_concat_associative(string_bytes(v.description), string_bytes(v.uri) + (bool_bytes(v.mutable) + (opt_u64_bytes(v.access) + (opt_u64_bytes(v.max_uses) + (opt_u64_bytes(v.max_supply) + (u64_bytes(v.price) + (bool_bytes(v.has_referrer) + (bool_bytes(v.has_market_authority) + (opt_u64_bytes(v.referral_end_date))))))))), rest);
    lemma_concat_associative(string_bytes(v.name), string_bytes(v.description) + (string_bytes(v.uri) + (bool_bytes(v.mutable) + (opt_u64_bytes(v.access) + (opt_u64_bytes(v.max_uses) + (opt_u64_bytes(v.max_supply) + (u64_bytes(v.price) + (bool_bytes(v.has_referrer) + (bool_bytes(v.has_market_authority) + (opt_u64_bytes(v.referral_end_date)))))))))), rest);
    assert(init_pass_book_args_bytes(v) + rest == q0);
    lemma_read_string(v.name, q1);
    lemma_read_string(v.description, q2);
    lemma_read_string(v.uri, q3);
    lemma_read_bool(v.mutable, q4);
    lemma_read_opt_u64(v.access, q5);
    lemma_read_opt_u64(v.max_uses, q6);
    lemma_read_opt_u64(v.max_supply, q7);
    lemma_read_u64(v.price, q8);
    lemma_read_bool(v.has_referrer, q9);
    lemma_read_bool(v.has_market_authority, q10);
    lemma_read_opt_u64(v.referral_end_date, q11);
}

impl InitPassBookArgs {
    /// Appends the encoding of this `InitPassBookArgs` to `out`.
    pub fn serialize(&self, out: &mut Vec<u8>)
        requires
            init_pass_book_args_ok(self@),
        ensures
            final(out)@ == old(out)@ + init_pass_book_args_bytes(self@),
    {
        let ghost x = out@;
        put_string(out, &self.name);
        let ghost x0 = out@;
        put_string(out, &self.description);
        let ghost x1 = out@;
        put_string(out, &self.uri);
        let ghost x2 = out@;
        put_bool(out, self.mutable);
        let ghost x3 = out@;
        put_opt_u64(out, self.access);
        let ghost x4 = out@;
        put_opt_u64(out, self.max_uses);
        let ghost x5 = out@;
        put_opt_u64(out, self.max_supply);
        let ghost x6 = out@;
        put_u64(out, self.price);
        let ghost x7 = out@;
        put_bool(out, self.has_referrer);
        let ghost x8 = out@;
        put_bool(out, self.has_market_authority);
        let ghost x9 = out@;
        put_opt_u64(out, self.referral_end_date);
        let ghost x10 = out@;
        proof {
            lemma_concat_associative(x8, bool_bytes(self@.has_market_authority), opt_u64_bytes(self@.referral_end_date));
            lemma_concat_associative(x7, bool_bytes(self@.has_referrer), bool_bytes(self@.has_market_authority) + (opt_u64_bytes(self@.referral_end_date)));
            lemma_concat_associative(x6, u64_bytes(self@.price), bool_bytes(self@.has_referrer) + (bool_bytes(self@.has_market_authority) + (opt_u64_bytes(self@.referral_end_date))));
            lemma_concat_associative(x5, opt_u64_bytes(self@.max_supply), u64_bytes(self@.price) + (bool_bytes(self@.has_referrer) + (bool_bytes(self@.has_market_authority) + (opt_u64_bytes(self@.referral_end_date)))));
            lemma_concat_associative(x4, opt_u64_bytes(self@.max_uses), opt_u64_bytes(self@.max_supply) + (u64_bytes(self@.price) + (bool_bytes(self@.has_referrer) + (bool_bytes(self@.has_market_authority) + (opt_u64_bytes(self@.referral_end_date))))));
            lemma_concat_associative(x3, opt_u64_bytes(self@.access), opt_u64_bytes(self@.max_uses) + (opt_u64_bytes(self@.max_supply) + (u64_bytes(self@.price) + (bool_bytes(self@.has_referrer) + (bool_bytes(self@.has_market_authority) + (opt_u64_bytes(self@.referral_end_date)))))));
            lemma_concat_associative(x2, bool_bytes(self@.mutable), opt_u64_bytes(self@.access) + (opt_u64_bytes(self@.max_uses) + (opt_u64_bytes(self@.max_supply) + (u64_bytes(self@.price) + (bool_bytes(self@.has_referrer) + (bool_bytes(self@.has_market_authority) + (opt_u64_bytes(self@.referral_end_date))))))));
            lemma_concat_associative(x1, string_bytes(self@.uri), bool_bytes(self@.mutable) + (opt_u64_bytes(self@.access) + (opt_u64_bytes(self@.max_uses) + (opt_u64_bytes(self@.max_supply) + (u64_bytes(self@.price) + (bool_bytes(self@.has_referrer) + (bool_bytes(self@.has_market_authority) + (opt_u64_bytes(self@.referral_end_date)))))))));
            lemma_concat_associative(x0, string_bytes(self@.description), string_bytes(self@.uri) + (bool_bytes(self@.mutable) + (opt_u64_bytes(self@.access) + (opt_u64_bytes(self@.max_uses) + (opt_u64_bytes(self@.max_supply) + (u64_bytes(self@.price) + (bool_bytes(self@.has_referrer) + (bool_bytes(self@.has_market_authority) + (opt_u64_bytes(self@.referral_end_date))))))))));
            lemma_concat_associative(x, string_bytes(self@.name), string_bytes(self@.description) + (string_bytes(self@.uri) + (bool_bytes(self@.mutable) + (opt_u64_bytes(self@.access) + (opt_u64_bytes(self@.max_uses) + (opt_u64_bytes(self@.max_supply) + (u64_bytes(self@.price) + (bool_bytes(self@.has_referrer) + (bool_bytes(self@.has_market_authority) + (opt_u64_bytes(self@.referral_end_date)))))))))));
        }
        assert(out@ == x + init_pass_book_args_bytes(self@));
    }

    /// Reads a `InitPassBookArgs` from `src` at `pos`; gives it and the position after it.
    pub fn deserialize(src: &[u8], pos: usize) -> (r: Option<(Self, usize)>)
        requires
            pos <= src@.len(),
        ensures
            read_agrees_view(src@, pos, r, read_init_pass_book_args(rest_at(src@, pos)), |x: InitPassBookArgs| x@),
    {
        reveal(read_init_pass_book_args);
        let (name, p0) = match get_string(src, pos) {
            Some(x) => x,
            None => return None,
        };
        let (description, p1) = match get_string(src, p0) {
            Some(x) => x,
            None => return None,
        };
        let (uri, p2) = match get_string(src, p1) {
            Some(x) => x,
            None => return None,
        };
        let (mutable, p3) = match get_bool(src, p2) {
            Some(x) => x,
            None => return None,
        };
        let (access, p4) = match get_opt_u64(src, p3) {
            Some(x) => x,
            None => return None,
        };
        let (max_uses, p5) = match get_opt_u64(src, p4) {
            Some(x) => x,
            None => return None,
        };
        let (max_supply, p6) = match get_opt_u64(src, p5) {
            Some(x) => x,
            None => return None,
        };
        let (price, p7) = match get_u64(src, p6) {
            Some(x) => x,
            None => return None,
        };
        let (has_referrer, p8) = match get_bool(src, p7) {
            Some(x) => x,
            None => return None,
        };
        let (has_market_authority, p9) = match get_bool(src, p8) {
            Some(x) => x,
            None => return None,
        };
        let (referral_end_date, p10) = match get_opt_u64(src, p9) {
            Some(x) => x,
            None => return None,
        };
        Some((InitPassBookArgs { name, description, uri, mutable, access, max_uses, max_supply, price, has_referrer, has_market_authority, referral_end_date }, p10))
    }
}

/// Edit a PassBook arguments
#[derive(PartialEq, Debug, Clone)]
pub struct EditPassBookArgs {
    /// Name
    pub name: Option<String>,
    /// Description
    pub description: Option<String>,
    /// URI
    pub uri: Option<String>,
    /// Price
    pub price: Option<u64>,
    /// If true authority can make changes at deactivated phase
    pub mutable: Option<bool>,
}

/// `EditPassBookArgs` with its addresses as bytes and its texts as characters.
pub struct EditPassBookArgsView {
    pub name: Option<Seq<char>>,
    pub description: Option<Seq<char>>,
    pub uri: Option<Seq<char>>,
    pub price: Option<u64>,
    pub mutable: Option<bool>,
}

impl View for EditPassBookArgs {
    type V = EditPassBookArgsView;

    open spec fn view(&self) -> EditPassBookArgsView {
        EditPassBookArgsView {
            name: opt_string_view(self.name),
            description: opt_string_view(self.description),
            uri: opt_string_view(self.uri),
            price: self.price,
            mutable: self.mutable,
        }
    }
}

/// The values of `EditPassBookArgs` that the format can hold: addresses of 32 bytes, texts
/// of at most `u32::MAX` bytes.
pub open spec fn edit_pass_book_args_ok(v: EditPassBookArgsView) -> bool {
    opt_text_fits(v.name)
    && opt_text_fits(v.description)
    && opt_text_fits(v.uri)
}

/// The encoding of a `EditPassBookArgs`: its fields in order.
pub open spec fn edit_pass_book_args_bytes(v: EditPassBookArgsView) -> Seq<u8> {
    opt_string_bytes(v.name) + (opt_string_bytes(v.description) + (opt_string_bytes(v.uri) + (opt_u64_bytes(v.price) + (opt_bool_bytes(v.mutable)))))
}

pub open spec fn read_edit_pass_book_args(s: Seq<u8>) -> Option<(EditPassBookArgsView, Seq<u8>)> {
    match read_opt_string(s) {
        Some((name, r0)) => {
            match read_opt_string(r0) {
                Some((description, r1)) => {
                    match read_opt_string(r1) {
                        Some((uri, r2)) => {
                            match read_opt_u64(r2) {
                                Some((price, r3)) => {
                                    match read_opt_bool(r3) {
                                        Some((mutable, r4)) => {
                                            Some((EditPassBookArgsView { name, description, uri, price, mutable }, r4))
                                        },
                                        None => None,
                                    }
                                },
                                None => None,
                            }
                        },
                        None => None,
                    }
                },
                None => None,
            }
        },
        None => None,
    }
}

/// Reading the encoding of a `EditPassBookArgs` gives it back and leaves what followed.
pub proof fn lemma_read_edit_pass_book_args(v: EditPassBookArgsView, rest: Seq<u8>)
    requires
        edit_pass_book_args_ok(v),
    ensures
        read_edit_pass_book_args(edit_pass_book_args_bytes(v) + rest) == Some((v, rest)),
{
    let q5 = rest;
    let q4 = opt_bool_bytes(v.mutable) + q5;
    let q3 = opt_u64_bytes(v.price) + q4;
    let q2 = opt_string_bytes(v.uri) + q3;
    let q1 = opt_string_bytes(v.description) + q2;
    let q0 = opt_string_bytes(v.name) + q1;
    lemma_concat_associative(opt_u64_bytes(v.price), opt_bool_bytes(v.mutable), rest);
    lemma_concat_associative(opt_string_bytes(v.uri), opt_u64_bytes(v.price) + (opt_bool_bytes(v.mutable)), rest);
    lemma_concat_associative(opt_string_bytes(v.description), opt_string_bytes(v.uri) + (opt_u64_bytes(v.price) + (opt_bool_bytes(v.mutable))), rest);
    lemma_concat_associative(opt_string_bytes(v.name), opt_string_bytes(v.description) + (opt_string_bytes(v.uri) + (opt_u64_bytes(v.price) + (opt_bool_bytes(v.mutable)))), rest);
    assert(edit_pass_book_args_bytes(v) + rest == q0);
    lemma_read_opt_string(v.name, q1);
    lemma_read_opt_string(v.description, q2);
    lemma_read_opt_string(v.uri, q3);
    lemma_read_opt_u64(v.price, q4);
    lemma_read_opt_bool(v.mutable, q5);
}

impl EditPassBookArgs {
    /// Appends the encoding of this `EditPassBookArgs` to `out`.
    pub fn serialize(&self, out: &mut Vec<u8>)
        requires
            edit_pass_book_args_ok(self@),
        ensures
            final(out)@ == old(out)@ + edit_pass_book_args_bytes(self@),
    {
        let ghost x = out@;
        put_opt_string(out, &self.name);
        let ghost x0 = out@;
        put_opt_string(out, &self.description);
        let ghost x1 = out@;
        put_opt_string(out, &self.uri);
        let ghost x2 = out@;
        put_opt_u64(out, self.price);
        let ghost x3 = out@;
        put_opt_bool(out, self.mutable);
        let ghost x4 = out@;
        proof {
            lemma_concat_associative(x2, opt_u64_bytes(self@.price), opt_bool_bytes(self@.mutable));
            lemma_concat_associative(x1, opt_string_bytes(self@.uri), opt_u64_bytes(self@.price) + (opt_bool_bytes(self@.mutable)));
            lemma_concat_associative(x0, opt_string_bytes(self@.description), opt_string_bytes(self@.uri) + (opt_u64_bytes(self@.price) + (opt_bool_bytes(self@.mutable))));
            lemma_concat_associative(x, opt_string_bytes(self@.name), opt_string_bytes(self@.description) + (opt_string_bytes(self@.uri) + (opt_u64_bytes(self@.price) + (opt_bool_bytes(self@.mutable)))));
        }
        assert(out@ == x + edit_pass_book_args_bytes(self@));
    }

    /// Reads a `EditPassBookArgs` from `src` at `pos`; gives it and the position after it.
    pub fn deserialize(src: &[u8], pos: usize) -> (r: Option<(Self, usize)>)
        requires
            pos <= src@.len(),
        ensures
            read_agrees_view(src@, pos, r, read_edit_pass_book_args(rest_at(src@, pos)), |x: EditPassBookArgs| x@),
    {
        let (name, p0) = match get_opt_string(src, pos) {
            Some(x) => x,
            None => return None,
        };
        let (description, p1) = match get_opt_string(src, p0) {
            Some(x) => x,
            None => return None,
        };
        let (uri, p2) = match get_opt_string(src, p1) {
            Some(x) => x,
            None => return None,
        };
        let (price, p3) = match get_opt_u64(src, p2) {
            Some(x) => x,
            None => return None,
        };
        let (mutable, p4) = match get_opt_bool(src, p3) {
            Some(x) => x,
            None => return None,
        };
        Some((EditPassBookArgs { name, description, uri, price, mutable }, p4))
    }
}

/// Buy Pass arguments
#[derive(PartialEq, Eq, Debug, Clone, Copy, Structural)]
pub struct BuyPassArgs {
    /// The fee in basis point for the market place owner
    pub market_fee_basis_point: u16,
    /// The percentage of the amount from market_fee_basis_point to reward to the referral account
    pub referral_share: u8,
    /// The percentage of the referral_split to reward back to the referred account
    pub referral_kick_back_share: u8,
}

/// The values of `BuyPassArgs` that the format can hold: addresses of 32 bytes, texts
/// of at most `u32::MAX` bytes.
pub open spec fn buy_pass_args_ok(v: BuyPassArgs) -> bool {
    true
}

/// The encoding of a `BuyPassArgs`: its fields in order.
pub open spec fn buy_pass_args_bytes(v: BuyPassArgs) -> Seq<u8> {
    u16_bytes(v.market_fee_basis_point) + (seq![v.referral_share] + (seq![v.referral_kick_back_share]))
}

pub open spec fn read_buy_pass_args(s: Seq<u8>) -> Option<(BuyPassArgs, Seq<u8>)> {
    match read_u16(s) {
        Some((market_fee_basis_point, r0)) => {
            match read_u8(r0) {
                Some((referral_share, r1)) => {
                    match read_u8(r1) {
                        Some((referral_kick_back_share, r2)) => {
                            Some((BuyPassArgs { market_fee_basis_point, referral_share, referral_kick_back_share }, r2))
                        },
                        None => None,
                    }
                },
                None => None,
            }
        },
        None => None,
    }
}

/// Reading the encoding of a `BuyPassArgs` gives it back and leaves what followed.
pub proof fn lemma_read_buy_pass_args(v: BuyPassArgs, rest: Seq<u8>)
    requires
        buy_pass_args_ok(v),
    ensures
        read_buy_pass_args(buy_pass_args_bytes(v) + rest) == Some((v, rest)),
{
    let q3 = rest;
    let q2 = seq![v.referral_kick_back_share] + q3;
    let q1 = seq![v.referral_share] + q2;
    let q0 = u16_bytes(v.market_fee_basis_point) + q1;
    lemma_concat_associative(seq![v.referral_share], seq![v.referral_kick_back_share], rest);
    lemma_concat_associative(u16_bytes(v.market_fee_basis_point), seq![v.referral_share] + (seq![v.referral_kick_back_share]), rest);
    assert(buy_pass_args_bytes(v) + rest == q0);
    lemma_read_u16(v.market_fee_basis_point, q1);
    lemma_read_u8(v.referral_share, q2);
    lemma_read_u8(v.referral_kick_back_share, q3);
}

impl BuyPassArgs {
    /// Appends the encoding of this `BuyPassArgs` to `out`.
    pub fn serialize(&self, out: &mut Vec<u8>)
        requires
            buy_pass_args_ok(*self),
        ensures
            final(out)@ == old(out)@ + buy_pass_args_bytes(*self),
    {
        let ghost x = out@;
        put_u16(out, self.market_fee_basis_point);
        let ghost x0 = out@;
        put_u8(out, self.referral_share);
        let ghost x1 = out@;
        put_u8(out, self.referral_kick_back_share);
        let ghost x2 = out@;
        proof {
            lemma_concat_associative(x0, seq![self.referral_share], seq![self.referral_kick_back_share]);
            lemma_concat_associative(x, u16_bytes(self.market_fee_basis_point), seq![self.referral_share] + (seq![self.referral_kick_back_share]));
        }
        assert(out@ == x + buy_pass_args_bytes(*self));
    }

    /// Reads a `BuyPassArgs` from `src` at `pos`; gives it and the position after it.
    pub fn deserialize(src: &[u8], pos: usize) -> (r: Option<(Self, usize)>)
        requires
            pos <= src@.len(),
        ensures
            read_agrees(src@, pos, r, read_buy_pass_args(rest_at(src@, pos))),
    {
        let (market_fee_basis_point, p0) = match get_u16(src, pos) {
            Some(x) => x,
            None => return None,
        };
        let (referral_share, p1) = match get_u8(src, p0) {
            Some(x) => x,
            None => return None,
        };
        let (referral_kick_back_share, p2) = match get_u8(src, p1) {
            Some(x) => x,
            None => return None,
        };
        Some((BuyPassArgs { market_fee_basis_point, referral_share, referral_kick_back_share }, p2))
    }
}
/// Instruction definition
#[derive(Clone, Debug, PartialEq)]
pub enum NFTPassInstruction {
    /// Set the pass book state to `Activated`.
    ///
    /// Accounts: the pass book (writable), its authority (signer).
    ActivatePassBook,
    /// Transfer all the SOL from the pass book account to the refunder account and thus
    /// remove it.
    ///
    /// Accounts: the pass book (writable), its authority (signer), the refunder (writable).
    DeletePassBook,
    /// Set the pass book state to `Deactivated`.
    ///
    /// Accounts: the pass book (writable), its authority (signer).
    DeactivatePassBook,
    /// Edit the pass book.
    ///
    /// Accounts: the pass book (writable), its authority (signer), and optionally the
    /// new price mint.
    EditPassBook(EditPassBookArgs),
    /// Initialize a pass book, and the store and payout accounts it needs.
    InitPassBook(InitPassBookArgs),
    /// Buy a pass from a pass book.
    BuyPass(BuyPassArgs),
}

/// `NFTPassInstruction` with the texts of its arguments as characters.
pub enum NFTPassInstructionView {
    ActivatePassBook,
    DeletePassBook,
    DeactivatePassBook,
    EditPassBook(EditPassBookArgsView),
    InitPassBook(InitPassBookArgsView),
    BuyPass(BuyPassArgs),
}

impl View for NFTPassInstruction {
    type V = NFTPassInstructionView;

    open spec fn view(&self) -> NFTPassInstructionView {
        match self {
            NFTPassInstruction::ActivatePassBook => NFTPassInstructionView::ActivatePassBook,
            NFTPassInstruction::DeletePassBook => NFTPassInstructionView::DeletePassBook,
            NFTPassInstruction::DeactivatePassBook => NFTPassInstructionView::DeactivatePassBook,
            NFTPassInstruction::EditPassBook(a) => NFTPassInstructionView::EditPassBook(a@),
            NFTPassInstruction::InitPassBook(a) => NFTPassInstructionView::InitPassBook(a@),
            NFTPassInstruction::BuyPass(a) => NFTPassInstructionView::BuyPass(*a),
        }
    }
}

/// The instructions that the format can hold: texts of at most `u32::MAX` bytes.
pub open spec fn instruction_ok(v: NFTPassInstructionView) -> bool {
    match v {
        NFTPassInstructionView::EditPassBook(a) => edit_pass_book_args_ok(a),
        NFTPassInstructionView::InitPassBook(a) => init_pass_book_args_ok(a),
        _ => true,
    }
}

/// The encoding of an instruction: the place of its variant in one byte, then its
/// arguments.
pub open spec fn instruction_bytes(v: NFTPassInstructionView) -> Seq<u8> {
    match v {
        NFTPassInstructionView::ActivatePassBook => seq![0u8],
        NFTPassInstructionView::DeletePassBook => seq![1u8],
        NFTPassInstructionView::DeactivatePassBook => seq![2u8],
        NFTPassInstructionView::EditPassBook(a) => seq![3u8] + edit_pass_book_args_bytes(a),
        NFTPassInstructionView::InitPassBook(a) => seq![4u8] + init_pass_book_args_bytes(a),
        NFTPassInstructionView::BuyPass(a) => seq![5u8] + buy_pass_args_bytes(a),
    }
}

pub open spec fn read_instruction(s: Seq<u8>) -> Option<(NFTPassInstructionView, Seq<u8>)> {
    match read_u8(s) {
        Some((t, r)) => if t == 0 {
            Some((NFTPassInstructionView::ActivatePassBook, r))
        } else if t == 1 {
            Some((NFTPassInstructionView::DeletePassBook, r))
        } else if t == 2 {
            Some((NFTPassInstructionView::DeactivatePassBook, r))
        } else if t == 3 {
            match read_edit_pass_book_args(r) {
                Some((a, r2)) => Some((NFTPassInstructionView::EditPassBook(a), r2)),
                None => None,
            }
        } else if t == 4 {
            match read_init_pass_book_args(r) {
                Some((a, r2)) => Some((NFTPassInstructionView::InitPassBook(a), r2)),
                None => None,
            }
        } else if t == 5 {
            match read_buy_pass_args(r) {
                Some((a, r2)) => Some((NFTPassInstructionView::BuyPass(a), r2)),
                None => None,
            }
        } else {
            None
        },
        None => None,
    }
}

/// How `NFTPassInstruction::try_from_slice` reads instruction data: one instruction that
/// takes all the bytes.
pub open spec fn instruction_from_slice(s: Seq<u8>) -> Result<NFTPassInstructionView, ProgramError> {
    match read_instruction(s) {
        Some((v, r)) => if r.len() == 0 {
            Ok(v)
        } else {
            Err(ProgramError::BorshIoError)
        },
        None => Err(ProgramError::BorshIoError),
    }
}

proof fn lemma_edit_roundtrip(a: EditPassBookArgsView)
    requires
        edit_pass_book_args_ok(a),
    ensures
        read_instruction(seq![3u8] + edit_pass_book_args_bytes(a)) == Some((NFTPassInstructionView::EditPassBook(a), Seq::<u8>::empty())),
{
    let e = Seq::<u8>::empty();
    let b = edit_pass_book_args_bytes(a);
    assert(b + e =~= b);
    lemma_read_u8(3u8, b);
    lemma_read_edit_pass_book_args(a, e);
}

proof fn lemma_init_roundtrip(a: InitPassBookArgsView)
    requires
        init_pass_book_args_ok(a),
    ensures
        read_instruction(seq![4u8] + init_pass_book_args_bytes(a)) == Some((NFTPassInstructionView::InitPassBook(a), Seq::<u8>::empty())),
{
    let e = Seq::<u8>::empty();
    let b = init_pass_book_args_bytes(a);
    assert(b + e =~= b);
    lemma_read_u8(4u8, b);
    lemma_read_init_pass_book_args(a, e);
}

proof fn lemma_buy_roundtrip(a: BuyPassArgs)
    ensures
        read_instruction(seq![5u8] + buy_pass_args_bytes(a)) == Some((NFTPassInstructionView::BuyPass(a), Seq::<u8>::empty())),
{
    let e = Seq::<u8>::empty();
    let b = buy_pass_args_bytes(a);
    assert(b + e =~= b);
    lemma_read_u8(5u8, b);
    lemma_read_buy_pass_args(a, e);
}

/// Instruction data reads back as the instruction it encodes.
pub proof fn lemma_instruction_roundtrip(v: NFTPassInstructionView)
    requires
        instruction_ok(v),
    ensures
        instruction_from_slice(instruction_bytes(v)) == Ok::<NFTPassInstructionView, ProgramError>(v),
{
    let e = Seq::<u8>::empty();
    match v {
        NFTPassInstructionView::ActivatePassBook => {
            lemma_read_u8(0u8, e);
            assert(instruction_bytes(v) =~= seq![0u8] + e);
        },
        NFTPassInstructionView::DeletePassBook => {
            lemma_read_u8(1u8, e);
            assert(instruction_bytes(v) =~= seq![1u8] + e);
        },
        NFTPassInstructionView::DeactivatePassBook => {
            lemma_read_u8(2u8, e);
            assert(instruction_bytes(v) =~= seq![2u8] + e);
        },
        NFTPassInstructionView::EditPassBook(a) => {
            lemma_edit_roundtrip(a);
        },
        NFTPassInstructionView::InitPassBook(a) => {
            lemma_init_roundtrip(a);
        },
        NFTPassInstructionView::BuyPass(a) => {
            lemma_buy_roundtrip(a);
        },
    }
}

impl NFTPassInstruction {
    /// The instruction data of this instruction.
    pub fn to_bytes(&self) -> (r: Vec<u8>)
        requires
            instruction_ok(self@),
        ensures
            r@ == instruction_bytes(self@),
    {
        let mut out: Vec<u8> = Vec::new();
        match self {
            NFTPassInstruction::ActivatePassBook => put_u8(&mut out, 0),
            NFTPassInstruction::DeletePassBook => put_u8(&mut out, 1),
            NFTPassInstruction::DeactivatePassBook => put_u8(&mut out, 2),
            NFTPassInstruction::EditPassBook(a) => {
                put_u8(&mut out, 3);
                a.serialize(&mut out);
            },
            NFTPassInstruction::InitPassBook(a) => {
                put_u8(&mut out, 4);
                a.serialize(&mut out);
            },
            NFTPassInstruction::BuyPass(a) => {
                put_u8(&mut out, 5);
                a.serialize(&mut out);
            },
        }
        assert(out@ =~= instruction_bytes(self@));
        out
    }

    /// Reads the arguments of a `EditPassBook` instruction at `pos`.
    fn deserialize_edit(input: &[u8], pos: usize) -> (r: Option<(Self, usize)>)
        requires
            pos <= input@.len(),
        ensures
            read_agrees_view(input@, pos, r, read_instruction(seq![3u8] + rest_at(input@, pos)), |x: NFTPassInstruction| x@),
    {
        proof {
            lemma_read_u8(3u8, rest_at(input@, pos));
        }
        match EditPassBookArgs::deserialize(input, pos) {
            Some((a, p2)) => Some((NFTPassInstruction::EditPassBook(a), p2)),
            None => None,
        }
    }

    /// Reads the arguments of a `InitPassBook` instruction at `pos`.
    fn deserialize_init(input: &[u8], pos: usize) -> (r: Option<(Self, usize)>)
        requires
            pos <= input@.len(),
        ensures
            read_agrees_view(input@, pos, r, read_instruction(seq![4u8] + rest_at(input@, pos)), |x: NFTPassInstruction| x@),
    {
        proof {
            lemma_read_u8(4u8, rest_at(input@, pos));
        }
        match InitPassBookArgs::deserialize(input, pos) {
            Some((a, p2)) => Some((NFTPassInstruction::InitPassBook(a), p2)),
            None => None,
        }
    }

    /// Reads the arguments of a `BuyPass` instruction at `pos`.
    fn deserialize_buy(input: &[u8], pos: usize) -> (r: Option<(Self, usize)>)
        requires
            pos <= input@.len(),
        ensures
            read_agrees_view(input@, pos, r, read_instruction(seq![5u8] + rest_at(input@, pos)), |x: NFTPassInstruction| x@),
    {
        proof {
            lemma_read_u8(5u8, rest_at(input@, pos));
        }
        match BuyPassArgs::deserialize(input, pos) {
            Some((a, p2)) => Some((NFTPassInstruction::BuyPass(a), p2)),
            None => None,
        }
    }

    /// Reads the instruction that instruction data holds.
    pub fn try_from_slice(input: &[u8]) -> (r: Result<Self, ProgramError>)
        ensures
            view_result(r) == instruction_from_slice(input@),
    {
        assert(rest_at(input@, 0) =~= input@);
        let (t, p) = match get_u8(input, 0) {
            Some(x) => x,
            None => return Err(ProgramError::BorshIoError),
        };
        proof {
            assert(input@ =~= seq![t] + rest_at(input@, p));
        }
        let (ix, end) = if t == 0 {
            (NFTPassInstruction::ActivatePassBook, p)
        } else if t == 1 {
            (NFTPassInstruction::DeletePassBook, p)
        } else if t == 2 {
            (NFTPassInstruction::DeactivatePassBook, p)
        } else if t == 3 {
            match Self::deserialize_edit(input, p) {
                Some(x) => x,
                None => return Err(ProgramError::BorshIoError),
            }
        } else if t == 4 {
            match Self::deserialize_init(input, p) {
                Some(x) => x,
                None => return Err(ProgramError::BorshIoError),
            }
        } else if t == 5 {
            match Self::deserialize_buy(input, p) {
                Some(x) => x,
                None => return Err(ProgramError::BorshIoError),
            }
        } else {
            return Err(ProgramError::BorshIoError);
        };
        if end == input.len() {
            assert(rest_at(input@, end).len() == 0);
            Ok(ix)
        } else {
            Err(ProgramError::BorshIoError)
        }
    }
}

// ---------------------------------------------------------------- instructions sent by clients

/// An account that an instruction reads or writes.
#[derive(Clone, Copy, Debug, PartialEq, Eq)]
pub struct AccountMeta {
    /// Address of the account
    pub pubkey: Pubkey,
    /// Whether the transaction must be signed by this account
    pub is_signer: bool,
    /// Whether the instruction may write the account
    pub is_writable: bool,
}

/// An account meta as the address, whether it signs and whether it is written.
pub open spec fn meta(pubkey: Seq<u8>, is_signer: bool, is_writable: bool) -> (Seq<u8>, bool, bool) {
    (pubkey, is_signer, is_writable)
}

impl View for AccountMeta {
    type V = (Seq<u8>, bool, bool);

    open spec fn view(&self) -> (Seq<u8>, bool, bool) {
        meta(self.pubkey@, self.is_signer, self.is_writable)
    }
}

impl AccountMeta {
    /// An account that the instruction writes.
    pub fn new(pubkey: Pubkey, is_signer: bool) -> (r: Self)
        ensures
            r@ == meta(pubkey@, is_signer, true),
    {
        AccountMeta { pubkey, is_signer, is_writable: true }
    }

    /// An account that the instruction only reads.
    pub fn new_readonly(pubkey: Pubkey, is_signer: bool) -> (r: Self)
        ensures
            r@ == meta(pubkey@, is_signer, false),
    {
        AccountMeta { pubkey, is_signer, is_writable: false }
    }
}

/// An instruction for a program: the program, the accounts it is given and its data.
#[derive(Clone, Debug, PartialEq)]
pub struct Instruction {
    /// The program that executes the instruction
    pub program_id: Pubkey,
    /// The accounts, in order
    pub accounts: Vec<AccountMeta>,
    /// The instruction data
    pub data: Vec<u8>,
}

/// `Instruction` as the program, the account metas and the data.
pub struct InstructionView {
    pub program_id: Seq<u8>,
    pub accounts: Seq<(Seq<u8>, bool, bool)>,
    pub data: Seq<u8>,
}

impl View for Instruction {
    type V = InstructionView;

    open spec fn view(&self) -> InstructionView {
        InstructionView {
            program_id: self.program_id@,
            accounts: self.accounts@.map_values(|m: AccountMeta| m@),
            data: self.data@,
        }
    }
}

/// An instruction of the program with the given accounts and the encoding of `ix` as data.
pub open spec fn program_instruction(
    program_id: Seq<u8>,
    accounts: Seq<(Seq<u8>, bool, bool)>,
    ix: NFTPassInstructionView,
) -> InstructionView {
    InstructionView { program_id, accounts, data: instruction_bytes(ix) }
}

/// The metas of `v` in order.
pub open spec fn metas_view(v: Seq<AccountMeta>) -> Seq<(Seq<u8>, bool, bool)> {
    v.map_values(|m: AccountMeta| m@)
}

/// Builds an instruction of the program.
fn new_instruction(program_id: &Pubkey, ix: &NFTPassInstruction, accounts: Vec<AccountMeta>) -> (r: Instruction)
    requires
        instruction_ok(ix@),
    ensures
        r@ == program_instruction(program_id@, metas_view(accounts@), ix@),
{
    let data = ix.to_bytes();
    Instruction { program_id: *program_id, accounts, data }
}

/// Appends `m` to `v`.
pub(crate) fn push_meta(v: &mut Vec<AccountMeta>, m: AccountMeta)
    ensures
        metas_view(final(v)@) == metas_view(old(v)@).push(m@),
{
    v.push(m);
    assert(metas_view(final(v)@) =~= metas_view(old(v)@).push(m@));
}

/// Create `ActivatePassBook` instruction
pub fn activate_pass_book(program_id: &Pubkey, passbook: &Pubkey, authority: &Pubkey) -> (r: Instruction)
    ensures
        r@ == program_instruction(
            program_id@,
            seq![meta(passbook@, false, true), meta(authority@, true, false)],
            NFTPassInstructionView::ActivatePassBook,
        ),
{
    let mut accounts: Vec<AccountMeta> = Vec::new();
    push_meta(&mut accounts, AccountMeta::new(*passbook, false));
    push_meta(&mut accounts, AccountMeta::new_readonly(*authority, true));
    assert(metas_view(accounts@) =~= seq![meta(passbook@, false, true), meta(authority@, true, false)]);
    new_instruction(program_id, &NFTPassInstruction::ActivatePassBook, accounts)
}

/// Create `DeactivatePassBook` instruction
pub fn deactivate_pass_book(program_id: &Pubkey, passbook: &Pubkey, authority: &Pubkey) -> (r: Instruction)
    ensures
        r@ == program_instruction(
            program_id@,
            seq![meta(passbook@, false, true), meta(authority@, true, false)],
            NFTPassInstructionView::DeactivatePassBook,
        ),
{
    let mut accounts: Vec<AccountMeta> = Vec::new();
    push_meta(&mut accounts, AccountMeta::new(*passbook, false));
    push_meta(&mut accounts, AccountMeta::new_readonly(*authority, true));
    assert(metas_view(accounts@) =~= seq![meta(passbook@, false, true), meta(authority@, true, false)]);
    new_instruction(program_id, &NFTPassInstruction::DeactivatePassBook, accounts)
}

/// Create `DeletePassBook` instruction
pub fn delete_pass_book(
    program_id: &Pubkey,
    passbook: &Pubkey,
    authority: &Pubkey,
    refunder: &Pubkey,
) -> (r: Instruction)
    ensures
        r@ == program_instruction(
            program_id@,
            seq![
                meta(passbook@, false, true),
                meta(authority@, true, false),
                meta(refunder@, false, true),
            ],
            NFTPassInstructionView::DeletePassBook,
        ),
{
    let mut accounts: Vec<AccountMeta> = Vec::new();
    push_meta(&mut accounts, AccountMeta::new(*passbook, false));
    push_meta(&mut accounts, AccountMeta::new_readonly(*authority, true));
    push_meta(&mut accounts, AccountMeta::new(*refunder, false));
    assert(metas_view(accounts@) =~= seq![
        meta(passbook@, false, true),
        meta(authority@, true, false),
        meta(refunder@, false, true),
    ]);
    new_instruction(program_id, &NFTPassInstruction::DeletePassBook, accounts)
}

/// Create `EditPassBook` instruction; a new price mint is passed as a third account.
pub fn edit_pass_book(
    program_id: &Pubkey,
    passbook: &Pubkey,
    authority: &Pubkey,
    mint: Option<&Pubkey>,
    args: EditPassBookArgs,
) -> (r: Instruction)
    requires
        edit_pass_book_args_ok(args@),
    ensures
        r@ == program_instruction(
            program_id@,
            seq![meta(passbook@, false, true), meta(authority@, true, false)] + match mint {
                Some(m) => seq![meta(m@, false, false)],
                None => Seq::empty(),
            },
            NFTPassInstructionView::EditPassBook(args@),
        ),
{
    let mut accounts: Vec<AccountMeta> = Vec::new();
    push_meta(&mut accounts, AccountMeta::new(*passbook, false));
    push_meta(&mut accounts, AccountMeta::new_readonly(*authority, true));
    if let Some(new_price_mint) = mint {
        push_meta(&mut accounts, AccountMeta::new_readonly(*new_price_mint, false));
    }
    assert(metas_view(accounts@) =~= seq![meta(passbook@, false, true), meta(authority@, true, false)] + match mint {
        Some(m) => seq![meta(m@, false, false)],
        None => Seq::empty(),
    });
    new_instruction(program_id, &NFTPassInstruction::EditPassBook(args), accounts)
}

/// The metas of an optional payout recipient: its authority, whether it must sign,
/// then its payout and token accounts.
pub open spec fn payout_metas(p: Option<&PayoutInfoArgs>, authority_signs: bool) -> Seq<(Seq<u8>, bool, bool)> {
    match p {
        Some(p) => seq![
            meta(p.authority@, authority_signs, false),
            meta(p.payout_account@, false, true),
            meta(p.token_account@, false, true),
        ],
        None => Seq::empty(),
    }
}

/// Appends the metas of an optional payout recipient.
fn push_payout_metas(v: &mut Vec<AccountMeta>, p: Option<&PayoutInfoArgs>, authority_signs: bool)
    ensures
        metas_view(final(v)@) == metas_view(old(v)@) + payout_metas(p, authority_signs),
{
    if let Some(p) = p {
        push_meta(v, AccountMeta::new_readonly(p.authority, authority_signs));
        push_meta(v, AccountMeta::new(p.payout_account, false));
        push_meta(v, AccountMeta::new(p.token_account, false));
    }
    assert(metas_view(final(v)@) =~= metas_view(old(v)@) + payout_metas(p, authority_signs));
}

/// The accounts of an `InitPassBook` instruction.
pub open spec fn init_pass_book_metas(
    passbook: Seq<u8>,
    store: Seq<u8>,
    authority: Seq<u8>,
    payer: Seq<u8>,
    mint: Seq<u8>,
    creator_payout: &PayoutInfoArgs,
    market_payout: Option<&PayoutInfoArgs>,
    referral_payout: Option<&PayoutInfoArgs>,
) -> Seq<(Seq<u8>, bool, bool)> {
    seq![
        meta(passbook, true, true),
        meta(store, false, true),
        meta(authority, true, false),
        meta(payer, true, false),
        meta(mint, false, false),
        meta(clock_sysvar_id_bytes(), false, false),
        meta(rent_sysvar_id_bytes(), false, false),
        meta(system_program_id_bytes(), false, false),
        meta(creator_payout.payout_account@, false, true),
        meta(creator_payout.token_account@, false, true),
    ] + payout_metas(market_payout, true) + payout_metas(referral_payout, false)
}

/// Create `InitPassBook` instruction
pub fn init_pass_book(
    program_id: &Pubkey,
    passbook: &Pubkey,
    store: &Pubkey,
    authority: &Pubkey,
    payer: &Pubkey,
    mint: &Pubkey,
    creator_payout: &PayoutInfoArgs,
    market_payout: Option<&PayoutInfoArgs>,
    referral_payout: Option<&PayoutInfoArgs>,
    args: InitPassBookArgs,
) -> (r: Instruction)
    requires
        init_pass_book_args_ok(args@),
    ensures
        r@ == program_instruction(
            program_id@,
            init_pass_book_metas(passbook@, store@, authority@, payer@, mint@, creator_payout, market_payout, referral_payout),
            NFTPassInstructionView::InitPassBook(args@),
        ),
{
    let mut accounts: Vec<AccountMeta> = Vec::new();
    push_meta(&mut accounts, AccountMeta::new(*passbook, true));
    push_meta(&mut accounts, AccountMeta::new(*store, false));
    push_meta(&mut accounts, AccountMeta::new_readonly(*authority, true));
    push_meta(&mut accounts, AccountMeta::new_readonly(*payer, true));
    push_meta(&mut accounts, AccountMeta::new_readonly(*mint, false));
    push_meta(&mut accounts, AccountMeta::new_readonly(clock_sysvar_id(), false));
    push_meta(&mut accounts, AccountMeta::new_readonly(rent_sysvar_id(), false));
    push_meta(&mut accounts, AccountMeta::new_readonly(system_program_id(), false));
    push_meta(&mut accounts, AccountMeta::new(creator_payout.payout_account, false));
    push_meta(&mut accounts, AccountMeta::new(creator_payout.token_account, false));
    let ghost base = metas_view(accounts@);
    push_payout_metas(&mut accounts, market_payout, true);
    push_payout_metas(&mut accounts, referral_payout, false);
    assert(metas_view(accounts@) =~= init_pass_book_metas(passbook@, store@, authority@, payer@, mint@, creator_payout, market_payout, referral_payout));
    new_instruction(program_id, &NFTPassInstruction::InitPassBook(args), accounts)
}

/// The accounts of a `BuyPass` instruction, in the order that the purchase reads them:
/// the pass book, its store and the vault that holds the master edition's token; the
/// user's wallet, which signs, and the account it pays from; the fee payer, which signs;
/// the new metadata, edition and mint; the master metadata and edition; the edition
/// marker; the token account that receives the new edition; the user's trade history;
/// the clock, rent, system program and token program; then the creator's payout and
/// token accounts, and those of the market authority (which signs) and of the referrer.
pub open spec fn buy_pass_metas(
    passbook: Seq<u8>,
    store: Seq<u8>,
    vault_token_account: Seq<u8>,
    user_wallet: Seq<u8>,
    user_token_account: Seq<u8>,
    payer: Seq<u8>,
    new_metadata: Seq<u8>,
    new_edition: Seq<u8>,
    new_mint: Seq<u8>,
    master_metadata: Seq<u8>,
    master_edition: Seq<u8>,
    edition_marker: Seq<u8>,
    new_token_account: Seq<u8>,
    trade_history: Seq<u8>,
    market_authority: Option<&PayoutInfoArgs>,
    referral_authority: Option<&PayoutInfoArgs>,
    creator_payout: &PayoutInfoArgs,
) -> Seq<(Seq<u8>, bool, bool)> {
    seq![
        meta(passbook, false, true),
        meta(store, false, true),
        meta(vault_token_account, false, true),
        meta(user_wallet, true, false),
        meta(user_token_account, false, true),
        meta(payer, true, true),
        meta(new_metadata, false, true),
        meta(new_edition, false, true),
        meta(new_mint, false, true),
        meta(master_metadata, false, true),
        meta(master_edition, false, true),
        meta(edition_marker, false, true),
        meta(new_token_account, false, true),
        meta(trade_history, false, true),
        meta(clock_sysvar_id_bytes(), false, false),
        meta(rent_sysvar_id_bytes(), false, false),
        meta(system_program_id_bytes(), false, false),
        meta(token_program_id_bytes(), false, false),
        meta(creator_payout.payout_account@, false, true),
        meta(creator_payout.token_account@, false, true),
    ] + payout_metas(market_authority, true) + payout_metas(referral_authority, false)
}

/// A `BuyPass` instruction lists the accounts where a purchase reads them: at least the
/// eighteen that every purchase reads, with the vault at index 2, the user's wallet
/// signing at index 3, the account it pays from at 4, the payer signing at 5, the new
/// token account at 12 and the trade history at 13.
pub proof fn lemma_buy_pass_lists_what_buy_reads(
    passbook: Seq<u8>,
    store: Seq<u8>,
    vault_token_account: Seq<u8>,
    user_wallet: Seq<u8>,
    user_token_account: Seq<u8>,
    payer: Seq<u8>,
    new_metadata: Seq<u8>,
    new_edition: Seq<u8>,
    new_mint: Seq<u8>,
    master_metadata: Seq<u8>,
    master_edition: Seq<u8>,
    edition_marker: Seq<u8>,
    new_token_account: Seq<u8>,
    trade_history: Seq<u8>,
    market_authority: Option<&PayoutInfoArgs>,
    referral_authority: Option<&PayoutInfoArgs>,
    creator_payout: &PayoutInfoArgs,
)
    ensures
        ({
            let m = buy_pass_metas(
                passbook,
                store,
                vault_token_account,
                user_wallet,
                user_token_account,
                payer,
                new_metadata,
                new_edition,
                new_mint,
                master_metadata,
                master_edition,
                edition_marker,
                new_token_account,
                trade_history,
                market_authority,
                referral_authority,
                creator_payout,
            );
            &&& m.len() >= 18
            &&& m[0].0 == passbook && m[1].0 == store && m[2].0 == vault_token_account
            &&& m[3] == meta(user_wallet, true, false)
            &&& m[4].0 == user_token_account
            &&& m[5].0 == payer && m[5].1
            &&& m[9].0 == master_metadata && m[10].0 == master_edition
            &&& m[12].0 == new_token_account
            &&& m[13].0 == trade_history
        }),
{
}

/// Create `BuyPass` instruction
pub fn buy_pass(
    program_id: &Pubkey,
    passbook: &Pubkey,
    store: &Pubkey,
    vault_token_account: &Pubkey,
    user_wallet: &Pubkey,
    user_token_account: &Pubkey,
    payer: &Pubkey,
    new_metadata: &Pubkey,
    new_edition: &Pubkey,
    new_mint: &Pubkey,
    master_metadata: &Pubkey,
    master_edition: &Pubkey,
    edition_marker: &Pubkey,
    new_token_account: &Pubkey,
    trade_history: &Pubkey,
    market_authority: Option<&PayoutInfoArgs>,
    referral_authority: Option<&PayoutInfoArgs>,
    creator_payout: &PayoutInfoArgs,
    args: BuyPassArgs,
) -> (r: Instruction)
    ensures
        r@ == program_instruction(
            program_id@,
            buy_pass_metas(
                passbook@,
                store@,
                vault_token_account@,
                user_wallet@,
                user_token_account@,
                payer@,
                new_metadata@,
                new_edition@,
                new_mint@,
                master_metadata@,
                master_edition@,
                edition_marker@,
                new_token_account@,
                trade_history@,
                market_authority,
                referral_authority,
                creator_payout,
            ),
            NFTPassInstructionView::BuyPass(args),
        ),
{
    let mut accounts: Vec<AccountMeta> = Vec::new();
    push_meta(&mut accounts, AccountMeta::new(*passbook, false));
    push_meta(&mut accounts, AccountMeta::new(*store, false));
    push_meta(&mut accounts, AccountMeta::new(*vault_token_account, false));
    push_meta(&mut accounts, AccountMeta::new_readonly(*user_wallet, true));
    push_meta(&mut accounts, AccountMeta::new(*user_token_account, false));
    push_meta(&mut accounts, AccountMeta::new(*payer, true));
    push_meta(&mut accounts, AccountMeta::new(*new_metadata, false));
    push_meta(&mut accounts, AccountMeta::new(*new_edition, false));
    push_meta(&mut accounts, AccountMeta::new(*new_mint, false));
    push_meta(&mut accounts, AccountMeta::new(*master_metadata, false));
    push_meta(&mut accounts, AccountMeta::new(*master_edition, false));
    push_meta(&mut accounts, AccountMeta::new(*edition_marker, false));
    push_meta(&mut accounts, AccountMeta::new(*new_token_account, false));
    push_meta(&mut accounts, AccountMeta::new(*trade_history, false));
    push_meta(&mut accounts, AccountMeta::new_readonly(clock_sysvar_id(), false));
    push_meta(&mut accounts, AccountMeta::new_readonly(rent_sysvar_id(), false));
    push_meta(&mut accounts, AccountMeta::new_readonly(system_program_id(), false));
    push_meta(&mut accounts, AccountMeta::new_readonly(token_program_id(), false));
    push_meta(&mut accounts, AccountMeta::new(creator_payout.payout_account, false));
    push_meta(&mut accounts, AccountMeta::new(creator_payout.token_account, false));
    push_payout_metas(&mut accounts, market_authority, true);
    push_payout_metas(&mut accounts, referral_authority, false);
    assert(metas_view(accounts@) =~= buy_pass_metas(
        passbook@,
        store@,
        vault_token_account@,
        user_wallet@,
        user_token_account@,
        payer@,
        new_metadata@,
        new_edition@,
        new_mint@,
        master_metadata@,
        master_edition@,
        edition_marker@,
        new_token_account@,
        trade_history@,
        market_authority,
        referral_authority,
        creator_payout,
    ));
    new_instruction(program_id, &NFTPassInstruction::BuyPass(args), accounts)
}

} // verus!
