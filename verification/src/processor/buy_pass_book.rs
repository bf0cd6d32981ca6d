//! Buying a pass from a pass book, and the payout of its price.
//!
//! The instruction reads its accounts in this order: the pass book, its store, the
//! vault token account, the user's wallet, the user's token account, the payer, the new
//! metadata, edition and mint, the master metadata and edition, the edition marker, the
//! new token account, the trade history, the clock, rent, system and token program
//! accounts; then a payout account and its token account for each creator of the master
//! metadata; then, where the pass book has a market authority, that authority with its
//! payout and token accounts; then, where the store has a referrer, the referrer with its
//! payout and token accounts. Payments are worked out here and listed for the caller,
//! which makes the transfers from the user's token account, with the user's wallet as
//! authority, in native SOL where the pass book is priced in it.

use vstd::prelude::*;

use crate::account_info::{AccountInfo, AccountInfoView};
use crate::error::{fail, program_error_of, NFTPassError, ProgramError};
use crate::processor::init_pass_book::is_native_mint;
use crate::processor::{accounts_view, copy_accounts, copy_bytes, packed, set_data, with_data};
use crate::instruction::BuyPassArgs;
use crate::pda::find_trade_history_program_address;
use crate::state::pass_book::{lemma_pass_book_rewritten, lemma_pass_book_unpack_inverse};
use crate::state::store::{lemma_store_unpack_inverse, lemma_store_unpack_packed};
use crate::state::trade_history::{
    lemma_trade_history_unpack_inverse, lemma_trade_history_unpack_packed,
};
use crate::codec::text_bytes;
use crate::pda::{
    find_pass_book_program_address, find_pass_store_program_address, prefix_seed, program_address,
};
use crate::processor::init_pass_book::store_address;
use crate::pubkey::{
    id, metadata_program_id, metadata_program_id_bytes, native_mint_id_bytes, program_id_bytes,
    token_program_id, token_program_id_bytes, Pubkey,
};
use crate::state::store::store_unpack;
use crate::state::pass_book::pass_book_unpack;
use crate::state::TradeHistory;
use crate::state::AccountType;
use crate::state::pass_book::{
    lemma_pass_book_bytes_len, pass_book_bytes, pass_book_ok, MAX_PASS_BOOK_LEN,
};
use crate::state::store::{lemma_store_bytes_len, store_bytes, store_ok, MAX_STORE_LEN};
use crate::state::trade_history::{
    lemma_trade_history_bytes_len, trade_history_bytes, trade_history_ok, trade_history_unpack,
    trade_history_unpack_unchecked, TradeHistoryView, MAX_TRADE_HISTORY_LEN,
};
use crate::pda::{prefixed, push_seed, seeds_view};
use crate::processor::{
    create_account, created, new_accounts_view, zeros, NewAccount, NewAccountView,
};
use crate::token::{
    get_supply_off_master_edition, master_edition_supply_of, metadata_of, read_metadata,
};
use crate::state::pass_book::PassBookView;
use crate::state::payout::{
    lemma_payout_bytes_len, payout_bytes, payout_unpack, PayoutView, MAX_PAYOUT_LEN,
};
use crate::state::{PassBook, Payout};
use crate::token::{assert_initialized, initialized_token_account};
use crate::state::store::StoreView;
use crate::state::Store;
use crate::token::{MetadataInfo, MetadataView};
use crate::utils::{
    lemma_points_split_exactly, amount_for_points_spec, assert_account_key, assert_owned_by,
    assert_signer, calculate_amount_for_points, calculate_shares, calculate_shares_less_points,
    calculate_user_shares_by_points, shares_less_points_spec, shares_spec,
    user_shares_by_points_spec,
};

verus! {

/// A transfer of the price: `amount` to the token account (or, in native SOL, the
/// account) `to` in the account list.
#[derive(Clone, Copy, Debug)]
pub struct Payment {
    pub to: usize,
    pub amount: u64,
}

/// What the token account `a[t]` that receives payments for the payout account `a[p]`
/// must be: in native SOL the payout account itself; else a token account of the
/// token program, initialized, of the price mint and owned by the payout account.
pub open spec fn payout_token_check(a: Seq<AccountInfoView>, price_mint: Seq<u8>, p: int, t: int) -> Result<(), ProgramError> {
    if price_mint == native_mint_id_bytes() {
        if a[t].key != a[p].key {
            Err(ProgramError::InvalidAccountData)
        } else {
            Ok(())
        }
    } else if a[t].owner != token_program_id_bytes() {
        Err(ProgramError::IllegalOwner)
    } else {
        match initialized_token_account(a[t].data) {
            Err(e) => Err(e),
            Ok((mint, owner)) => if mint != price_mint {
                Err(program_error_of(NFTPassError::PriceTokenMismatch))
            } else if owner != a[p].key {
                Err(ProgramError::IllegalOwner)
            } else {
                Ok(())
            },
        }
    }
}

/// What paying `amount` to `authority` through the payout account `a[p]` and its token
/// account `a[t]` does: the payout account must be readable, and belong to `authority`
/// or be for the price mint; the token account must pass `payout_token_check`; the
/// payment is listed and the payout account records it as cashed in.
pub open spec fn pay_spec(
    a: Seq<AccountInfoView>,
    pays: Seq<Payment>,
    amount: u64,
    authority: Seq<u8>,
    price_mint: Seq<u8>,
    p: int,
    t: int,
) -> Result<(Seq<AccountInfoView>, Seq<Payment>), ProgramError> {
    match payout_unpack(a[p].data) {
        Err(e) => Err(e),
        Ok(v) => if authority != v.authority && price_mint != v.mint {
            Err(program_error_of(NFTPassError::InvalidPayoutKey))
        } else {
            match payout_token_check(a, price_mint, p, t) {
                Err(e) => Err(e),
                Ok(()) => if v.cash_in + amount > u64::MAX {
                    Err(program_error_of(NFTPassError::MathOverflow))
                } else {
                    let w = PayoutView { cash_in: (v.cash_in + amount) as u64, ..v };
                    match packed(a[p].data, payout_bytes(w), MAX_PAYOUT_LEN) {
                        Err(e) => Err(e),
                        Ok(d) => Ok((with_data(a, p, d), pays.push(Payment { to: t as usize, amount }))),
                    }
                },
            }
        },
    }
}

/// The outcome of a payment step: on success the accounts and the payments so far; on
/// failure its error, with the accounts and the payments as `partial` gives them.
pub open spec fn paid(
    r: Result<(), ProgramError>,
    a: Seq<AccountInfoView>,
    pays: Seq<Payment>,
    outcome: Result<(Seq<AccountInfoView>, Seq<Payment>), ProgramError>,
    partial: (Seq<AccountInfoView>, Seq<Payment>),
) -> bool {
    match outcome {
        Err(e) => r == Err::<(), ProgramError>(e) && a == partial.0 && pays == partial.1,
        Ok((x, y)) => r is Ok && a == x && pays == y,
    }
}

/// Pays `amount` to `authority` through the payout account `accounts[payout_account]`
/// and its token account `accounts[token_account]`.
pub fn pay_account(
    amount: u64,
    authority: &Pubkey,
    passbook: &PassBook,
    payout_account: usize,
    token_account: usize,
    accounts: &mut Vec<AccountInfo>,
    payments: &mut Vec<Payment>,
) -> (r: Result<(), ProgramError>)
    requires
        payout_account < old(accounts)@.len(),
        token_account < old(accounts)@.len(),
    ensures
        final(accounts)@.len() == old(accounts)@.len(),
        paid(
            r,
            accounts_view(final(accounts)@),
            final(payments)@,
            pay_spec(
                accounts_view(old(accounts)@),
                old(payments)@,
                amount,
                authority@,
                passbook.price_mint@,
                payout_account as int,
                token_account as int,
            ),
            (accounts_view(old(accounts)@), old(payments)@),
        ),
{
    let mut payout = Payout::unpack(accounts[payout_account].data.as_slice())?;
    if *authority != payout.authority && passbook.price_mint != payout.mint {
        return Err(fail(NFTPassError::InvalidPayoutKey));
    }
    let is_native = is_native_mint(&passbook.price_mint);
    if is_native {
        if accounts[token_account].key != accounts[payout_account].key {
            return Err(ProgramError::InvalidAccountData);
        }
    } else {
        assert_owned_by(&accounts[token_account], &token_program_id())?;
        let token = assert_initialized(&accounts[token_account])?;
        if token.mint != passbook.price_mint {
            return Err(fail(NFTPassError::PriceTokenMismatch));
        }
        if token.owner != accounts[payout_account].key {
            return Err(ProgramError::IllegalOwner);
        }
    }
    payout.add_cash_in(amount)?;
    proof {
        lemma_payout_bytes_len(payout@);
    }
    let mut data = copy_bytes(&accounts[payout_account].data);
    Payout::pack(payout, data.as_mut_slice())?;
    set_data(accounts, payout_account, data);
    payments.push(Payment { to: token_account, amount });
    Ok(())
}

/// A creator to pay: its address, the payout account and token account in the account
/// list that receive its payments, and its share in percent.
#[derive(Clone, Copy, Debug)]
pub struct PayoutInfo {
    pub authority: Pubkey,
    pub payout_account: usize,
    pub token_account: usize,
    pub share: u8,
}

/// `PayoutInfo` with the creator's address as bytes.
pub struct PayoutInfoView {
    pub authority: Seq<u8>,
    pub payout_account: usize,
    pub token_account: usize,
    pub share: u8,
}

impl View for PayoutInfo {
    type V = PayoutInfoView;

    open spec fn view(&self) -> PayoutInfoView {
        PayoutInfoView {
            authority: self.authority@,
            payout_account: self.payout_account,
            token_account: self.token_account,
            share: self.share,
        }
    }
}

/// The creators seen through `View`.
pub open spec fn infos_view(s: Seq<PayoutInfo>) -> Seq<PayoutInfoView> {
    s.map_values(|c: PayoutInfo| c@)
}

/// What a creator with `share` percent receives of `amount`: its share of the royalty
/// part `points` (in basis points) of the amount where `by_points` gives one, else its
/// share of the whole amount.
pub open spec fn creator_amount(amount: u64, by_points: Option<u64>, share: u8) -> Result<u64, ProgramError> {
    match by_points {
        Some(points) => user_shares_by_points_spec(amount, points, share as u64),
        None => shares_spec(amount, share as u64),
    }
}

/// Paying the first `k` creators their part of `amount`, in order; the first failure
/// stops it.
pub open spec fn pay_creators(
    a: Seq<AccountInfoView>,
    pays: Seq<Payment>,
    amount: u64,
    by_points: Option<u64>,
    creators: Seq<PayoutInfoView>,
    price_mint: Seq<u8>,
    k: nat,
) -> Result<(Seq<AccountInfoView>, Seq<Payment>), ProgramError>
    decreases k,
{
    if k == 0 {
        Ok((a, pays))
    } else {
        match pay_creators(a, pays, amount, by_points, creators, price_mint, (k - 1) as nat) {
            Err(e) => Err(e),
            Ok((b, q)) => {
                let c = creators[k - 1];
                match creator_amount(amount, by_points, c.share) {
                    Err(e) => Err(e),
                    Ok(x) => pay_spec(b, q, x, c.authority, price_mint, c.payout_account as int, c.token_account as int),
                }
            },
        }
    }
}

/// Paying all the creators their part of `amount`; nothing where the amount is zero.
pub open spec fn creators_paid(
    a: Seq<AccountInfoView>,
    pays: Seq<Payment>,
    amount: u64,
    by_points: Option<u64>,
    creators: Seq<PayoutInfoView>,
    price_mint: Seq<u8>,
) -> Result<(Seq<AccountInfoView>, Seq<Payment>), ProgramError> {
    if amount == 0 {
        Ok((a, pays))
    } else {
        pay_creators(a, pays, amount, by_points, creators, price_mint, creators.len())
    }
}

/// Where paying the first `k` creators stops when it fails: after the creators before
/// the one whose payment failed, which changes nothing.
pub open spec fn pay_creators_partial(
    a: Seq<AccountInfoView>,
    pays: Seq<Payment>,
    amount: u64,
    by_points: Option<u64>,
    creators: Seq<PayoutInfoView>,
    price_mint: Seq<u8>,
    k: nat,
) -> (Seq<AccountInfoView>, Seq<Payment>)
    decreases k,
{
    if k == 0 {
        (a, pays)
    } else {
        match pay_creators(a, pays, amount, by_points, creators, price_mint, (k - 1) as nat) {
            Err(_) => pay_creators_partial(a, pays, amount, by_points, creators, price_mint, (k - 1) as nat),
            Ok(s) => s,
        }
    }
}

/// Where paying all the creators stops when it fails.
pub open spec fn creators_partial(
    a: Seq<AccountInfoView>,
    pays: Seq<Payment>,
    amount: u64,
    by_points: Option<u64>,
    creators: Seq<PayoutInfoView>,
    price_mint: Seq<u8>,
) -> (Seq<AccountInfoView>, Seq<Payment>) {
    if amount == 0 {
        (a, pays)
    } else {
        pay_creators_partial(a, pays, amount, by_points, creators, price_mint, creators.len())
    }
}

/// Once paying the creators fails, paying more of them fails the same way and stops at
/// the same place.
proof fn lemma_pay_creators_stops(
    a: Seq<AccountInfoView>,
    pays: Seq<Payment>,
    amount: u64,
    by_points: Option<u64>,
    creators: Seq<PayoutInfoView>,
    price_mint: Seq<u8>,
    j: nat,
    k: nat,
)
    requires
        j <= k,
        pay_creators(a, pays, amount, by_points, creators, price_mint, j) is Err,
    ensures
        pay_creators(a, pays, amount, by_points, creators, price_mint, k) == pay_creators(
            a,
            pays,
            amount,
            by_points,
            creators,
            price_mint,
            j,
        ),
        pay_creators_partial(a, pays, amount, by_points, creators, price_mint, k) == pay_creators_partial(
            a,
            pays,
            amount,
            by_points,
            creators,
            price_mint,
            j,
        ),
    decreases k - j,
{
    if j < k {
        lemma_pay_creators_stops(a, pays, amount, by_points, creators, price_mint, j, (k - 1) as nat);
    }
}

/// Paying the first `k` creators lists one payment for each, in order, to its token
/// account, of its part of the amount.
proof fn lemma_pay_creators_payments(
    a: Seq<AccountInfoView>,
    pays: Seq<Payment>,
    amount: u64,
    by_points: Option<u64>,
    creators: Seq<PayoutInfoView>,
    price_mint: Seq<u8>,
    k: nat,
)
    requires
        pay_creators(a, pays, amount, by_points, creators, price_mint, k) is Ok,
        k <= creators.len(),
    ensures
        ({
            let q = pay_creators(a, pays, amount, by_points, creators, price_mint, k)->Ok_0.1;
            &&& q.len() == pays.len() + k
            &&& q.subrange(0, pays.len() as int) == pays
            &&& forall|j: int|
                0 <= j < k ==> #[trigger] q[pays.len() + j] == Payment {
                    to: creators[j].token_account,
                    amount: creator_amount(amount, by_points, creators[j].share)->Ok_0,
                }
        }),
    decreases k,
{
    if k > 0 {
        lemma_pay_creators_payments(a, pays, amount, by_points, creators, price_mint, (k - 1) as nat);
        let q0 = pay_creators(a, pays, amount, by_points, creators, price_mint, (k - 1) as nat)->Ok_0.1;
        let q = pay_creators(a, pays, amount, by_points, creators, price_mint, k)->Ok_0.1;
        assert(q == q0.push(
            Payment {
                to: creators[k - 1].token_account,
                amount: creator_amount(amount, by_points, creators[k - 1].share)->Ok_0,
            },
        ));
        assert(q.subrange(0, pays.len() as int) =~= q0.subrange(0, pays.len() as int));
        assert forall|j: int| 0 <= j < k implies #[trigger] q[pays.len() + j] == Payment {
            to: creators[j].token_account,
            amount: creator_amount(amount, by_points, creators[j].share)->Ok_0,
        } by {
            if j < k - 1 {
                assert(q[pays.len() + j] == q0[pays.len() + j]);
            }
        }
    }
}

/// What the creators are paid of a sale's `amount`: each creator, in order, one payment
/// into its token account; once the primary sale of the metadata `m` has happened, of
/// `floor(floor(amount * seller_fee_basis_points / 10000) * share / 100)`, its share of
/// the royalty; before it, of `floor(amount * share / 100)`, its share of all of it.
pub proof fn lemma_creators_paid_by_royalty(
    a: Seq<AccountInfoView>,
    pays: Seq<Payment>,
    amount: u64,
    m: MetadataView,
    creators: Seq<PayoutInfoView>,
    price_mint: Seq<u8>,
)
    requires
        creators_paid(a, pays, amount, royalty_points(m), creators, price_mint) is Ok,
        amount > 0,
    ensures
        ({
            let q = creators_paid(a, pays, amount, royalty_points(m), creators, price_mint)->Ok_0.1;
            &&& q.len() == pays.len() + creators.len()
            &&& q.subrange(0, pays.len() as int) == pays
            &&& forall|j: int|
                0 <= j < creators.len() ==> (#[trigger] q[pays.len() + j]).to == creators[j].token_account
                    && q[pays.len() + j].amount == if m.primary_sale_happened {
                    (amount * m.seller_fee_basis_points / 10000) * creators[j].share / 100
                } else {
                    amount * creators[j].share / 100
                }
        }),
{
    lemma_pay_creators_payments(a, pays, amount, royalty_points(m), creators, price_mint, creators.len());
    let q = creators_paid(a, pays, amount, royalty_points(m), creators, price_mint)->Ok_0.1;
    assert forall|j: int| 0 <= j < creators.len() implies (#[trigger] q[pays.len() + j]).to
        == creators[j].token_account && q[pays.len() + j].amount == if m.primary_sale_happened {
        (amount * m.seller_fee_basis_points / 10000) * creators[j].share / 100
    } else {
        amount * creators[j].share / 100
    } by {
        lemma_pay_creators_stops_ok(a, pays, amount, royalty_points(m), creators, price_mint, (j + 1) as nat, creators.len());
        assert(q[pays.len() + j] == Payment {
            to: creators[j].token_account,
            amount: creator_amount(amount, royalty_points(m), creators[j].share)->Ok_0,
        });
    }
}

/// Where paying `k` creators succeeds, paying the first `j` of them does too.
proof fn lemma_pay_creators_stops_ok(
    a: Seq<AccountInfoView>,
    pays: Seq<Payment>,
    amount: u64,
    by_points: Option<u64>,
    creators: Seq<PayoutInfoView>,
    price_mint: Seq<u8>,
    j: nat,
    k: nat,
)
    requires
        j <= k,
        pay_creators(a, pays, amount, by_points, creators, price_mint, k) is Ok,
    ensures
        pay_creators(a, pays, amount, by_points, creators, price_mint, j) is Ok,
    decreases k - j,
{
    if j < k {
        lemma_pay_creators_stops_ok(a, pays, amount, by_points, creators, price_mint, j + 1, k);
    }
}

/// What the market authority is paid of the market fee `amount`: where the pass book has
/// one, a single payment into `a[i + 2]` of `floor(amount * (100 - referral_share) / 100)`,
/// the part the referrer does not get, and the accounts that follow start at `i + 3`;
/// where it has none, nothing, and they start at `i`.
pub proof fn lemma_market_payment(
    a: Seq<AccountInfoView>,
    pays: Seq<Payment>,
    amount: u64,
    referral_share: u64,
    pb: PassBookView,
    i: int,
)
    requires
        market_paid(a, pays, amount, referral_share, pb, i) is Ok,
        0 <= i,
        referral_share <= 100,
    ensures
        ({
            let (b, q, j) = market_paid(a, pays, amount, referral_share, pb, i)->Ok_0;
            if pb.gate_keeper is Some {
                &&& q == pays.push(Payment { to: (i + 2) as usize, amount: (amount * (100 - referral_share) / 100) as u64 })
                &&& j == i + 3
                &&& a[i].key == pb.gate_keeper->Some_0 && a[i].is_signer
            } else {
                q == pays && j == i && b == a
            }
        }),
{
}

/// What the referrer of the store is paid of the market fee `amount`, where the referral
/// has not ended at `now`: first a payment into `a[i + 2]` of its share
/// `floor(amount * referral_share / 100)` less the kick back, that is
/// `floor(floor(amount * referral_share / 100) * (100 - kick_back) / 100)`; the kick back
/// `floor(floor(amount * referral_share / 100) * kick_back / 100)` then goes to the
/// creators. Where there is no referrer, or the referral has ended, nothing is paid.
pub proof fn lemma_referrer_payment(
    a: Seq<AccountInfoView>,
    pays: Seq<Payment>,
    amount: u64,
    referral_share: u64,
    kick_back: u64,
    creators: Seq<PayoutInfoView>,
    pb: PassBookView,
    store: StoreView,
    now: i64,
    i: int,
)
    requires
        referral_paid(a, pays, amount, referral_share, kick_back, creators, pb, store, now, i) is Ok,
        0 <= i,
        kick_back <= 100,
    ensures
        ({
            let q = referral_paid(a, pays, amount, referral_share, kick_back, creators, pb, store, now, i)->Ok_0.1;
            if store.referrer is Some && !(store.referral_end_date matches Some(end) && now as u64 > end) {
                &&& a[i].key == store.referrer->Some_0
                &&& q.len() > pays.len()
                &&& q[pays.len() as int] == Payment {
                    to: (i + 2) as usize,
                    amount: ((amount * referral_share / 100) * (100 - kick_back) / 100) as u64,
                }
                &&& q.subrange(0, pays.len() as int) == pays
                &&& (amount * referral_share / 100) * kick_back / 100 > 0 ==> q.len() == pays.len() + 1 + creators.len()
                &&& (amount * referral_share / 100) * kick_back / 100 == 0 ==> q.len() == pays.len() + 1
            } else {
                q == pays
            }
        }),
{
    if store.referrer is Some && !(store.referral_end_date matches Some(end) && now as u64 > end) {
        let r = store.referrer->Some_0;
        let for_referrer = shares_spec(amount, referral_share)->Ok_0;
        let kick = shares_spec(for_referrer, kick_back)->Ok_0;
        let x = shares_spec(for_referrer, (100 - kick_back) as u64)->Ok_0;
        let (b, q0) = pay_spec(a, pays, x, r, pb.price_mint, i + 1, i + 2)->Ok_0;
        assert(q0 == pays.push(Payment { to: (i + 2) as usize, amount: x }));
        let q = referral_paid(a, pays, amount, referral_share, kick_back, creators, pb, store, now, i)->Ok_0.1;
        if kick > 0 {
            lemma_pay_creators_payments(b, q0, kick, None, creators, pb.price_mint, creators.len());
            assert(q[pays.len() as int] == q.subrange(0, q0.len() as int)[pays.len() as int]);
            assert(q.subrange(0, pays.len() as int) =~= q.subrange(0, q0.len() as int).subrange(0, pays.len() as int));
        } else {
            assert(q == q0);
            assert(q.subrange(0, pays.len() as int) =~= pays);
        }
    }
}

/// Paying out the price pays the creators first: where `c = price - floor(price *
/// market_fee_basis_point / 10000)`, what is left after the market fee, is not zero, the
/// payments that follow `pays` start with one to each listed creator in order, into the
/// token account given for it (`a[i + 2 * k + 1]`), of
/// `floor(floor(c * seller_fee_basis_points / 10000) * share / 100)` once the primary sale
/// has happened, else of `floor(c * share / 100)`.
pub proof fn lemma_distribute_pays_creators_first(
    a: Seq<AccountInfoView>,
    pays: Seq<Payment>,
    market_fee_basis_point: u64,
    referral_share: u64,
    kick_back: u64,
    m: MetadataView,
    pb: PassBookView,
    store: StoreView,
    now: i64,
    i: int,
)
    requires
        distribute_spec(a, pays, market_fee_basis_point, referral_share, kick_back, m, pb, store, now, i) is Ok,
        0 <= i,
        a.len() <= usize::MAX,
        pb.price - pb.price * market_fee_basis_point / 10000 > 0,
    ensures
        ({
            let q = distribute_spec(a, pays, market_fee_basis_point, referral_share, kick_back, m, pb, store, now, i)->Ok_0.1;
            let c = pb.price - pb.price * market_fee_basis_point / 10000;
            let creators = listed_creators(m);
            &&& q.len() >= pays.len() + creators.len()
            &&& q.subrange(0, pays.len() as int) == pays
            &&& forall|k: int|
                0 <= k < creators.len() ==> (#[trigger] q[pays.len() + k]).to == i + 2 * k + 1 && q[pays.len()
                    + k].amount == if m.primary_sale_happened {
                    (c * m.seller_fee_basis_points / 10000) * creators[k].1 / 100
                } else {
                    c * creators[k].1 / 100
                }
        }),
{
    let creators = listed_creators(m);
    let infos = creator_infos(creators, i);
    let for_creators = shares_less_points_spec(pb.price, market_fee_basis_point)->Ok_0;
    let for_market = amount_for_points_spec(pb.price, market_fee_basis_point)->Ok_0;
    lemma_creators_paid_by_royalty(a, pays, for_creators, m, infos, pb.price_mint);
    let (a1, p1) = creators_paid(a, pays, for_creators, royalty_points(m), infos, pb.price_mint)->Ok_0;
    let j0 = i + 2 * creators.len();
    lemma_market_payment(a1, p1, for_market, referral_share, pb, j0);
    let (a2, p2, j) = market_paid(a1, p1, for_market, referral_share, pb, j0)->Ok_0;
    lemma_referrer_payment(a2, p2, for_market, referral_share, kick_back, infos, pb, store, now, j);
    let q = referral_paid(a2, p2, for_market, referral_share, kick_back, infos, pb, store, now, j)->Ok_0.1;
    assert(p2.len() >= p1.len() && p2.subrange(0, p1.len() as int) =~= p1);
    assert(q.len() >= p2.len() && q.subrange(0, p2.len() as int) == p2);
    assert forall|k: int| 0 <= k < p1.len() implies #[trigger] q[k] == p1[k] by {
        assert(q[k] == q.subrange(0, p2.len() as int)[k]);
        assert(p2[k] == p2.subrange(0, p1.len() as int)[k]);
    }
    assert(q.subrange(0, pays.len() as int) =~= p1.subrange(0, pays.len() as int));
    assert forall|k: int| 0 <= k < creators.len() implies (#[trigger] q[pays.len() + k]).to == i + 2 * k + 1 && q[pays.len()
        + k].amount == if m.primary_sale_happened {
        (for_creators * m.seller_fee_basis_points / 10000) * creators[k].1 / 100
    } else {
        for_creators * creators[k].1 / 100
    } by {
        assert(q[pays.len() + k] == p1[pays.len() + k]);
        assert(infos[k].share == creators[k].1);
        assert(infos[k].token_account == i + 2 * k + 1);
    }
}

/// Whether the payout and token accounts of the creators are in the account list.
pub open spec fn creators_in(creators: Seq<PayoutInfoView>, n: nat) -> bool {
    forall|k: int| 0 <= k < creators.len() ==> #[trigger] creators[k].payout_account < n && creators[k].token_account < n
}

/// Pays each creator its part of `amount`.
fn pay_each_creator(
    amount: u64,
    by_points: Option<u64>,
    passbook: &PassBook,
    creators: &Vec<PayoutInfo>,
    accounts: &mut Vec<AccountInfo>,
    payments: &mut Vec<Payment>,
) -> (r: Result<(), ProgramError>)
    requires
        creators_in(infos_view(creators@), old(accounts)@.len()),
    ensures
        final(accounts)@.len() == old(accounts)@.len(),
        paid(
            r,
            accounts_view(final(accounts)@),
            final(payments)@,
            creators_paid(accounts_view(old(accounts)@), old(payments)@, amount, by_points, infos_view(creators@), passbook.price_mint@),
            creators_partial(accounts_view(old(accounts)@), old(payments)@, amount, by_points, infos_view(creators@), passbook.price_mint@),
        ),
{
    if amount == 0 {
        return Ok(());
    }
    let ghost a0 = accounts_view(accounts@);
    let ghost p0 = payments@;
    let mut i: usize = 0;
    while i < creators.len()
        invariant
            i <= creators@.len(),
            accounts@.len() == old(accounts)@.len(),
            creators_in(infos_view(creators@), accounts@.len()),
            a0 == accounts_view(old(accounts)@),
            p0 == old(payments)@,
            amount != 0,
            pay_creators(a0, p0, amount, by_points, infos_view(creators@), passbook.price_mint@, i as nat) == Ok::<
                (Seq<AccountInfoView>, Seq<Payment>),
                ProgramError,
            >((accounts_view(accounts@), payments@)),
        decreases creators@.len() - i,
    {
        let c = creators[i];
        assert(infos_view(creators@)[i as int] == creators@[i as int]@);
        let x = match by_points {
            Some(points) => calculate_user_shares_by_points(amount, points, c.share as u64),
            None => calculate_shares(amount, c.share as u64),
        };
        let x = match x {
            Ok(x) => x,
            Err(e) => {
                proof {
                    lemma_pay_creators_stops(a0, p0, amount, by_points, infos_view(creators@), passbook.price_mint@, (i + 1) as nat, creators@.len());
                }
                return Err(e);
            },
        };
        let r = pay_account(x, &c.authority, passbook, c.payout_account, c.token_account, accounts, payments);
        if let Err(e) = r {
            proof {
                lemma_pay_creators_stops(a0, p0, amount, by_points, infos_view(creators@), passbook.price_mint@, (i + 1) as nat, creators@.len());
            }
            return Err(e);
        }
        i = i + 1;
    }
    Ok(())
}

/// Pays the creators their part of `amount` from a sale: where the primary sale has
/// happened, their shares of the royalty part of it, else their shares of all of it.
pub fn distribute_payout_for_creators(
    amount: u64,
    passbook: &PassBook,
    metadata: &MetadataInfo,
    creators: &Vec<PayoutInfo>,
    accounts: &mut Vec<AccountInfo>,
    payments: &mut Vec<Payment>,
) -> (r: Result<(), ProgramError>)
    requires
        creators_in(infos_view(creators@), old(accounts)@.len()),
    ensures
        final(accounts)@.len() == old(accounts)@.len(),
        paid(
            r,
            accounts_view(final(accounts)@),
            final(payments)@,
            creators_paid(
                accounts_view(old(accounts)@),
                old(payments)@,
                amount,
                royalty_points(metadata@),
                infos_view(creators@),
                passbook.price_mint@,
            ),
            creators_partial(
                accounts_view(old(accounts)@),
                old(payments)@,
                amount,
                royalty_points(metadata@),
                infos_view(creators@),
                passbook.price_mint@,
            ),
        ),
{
    let by_points = if metadata.primary_sale_happened {
        Some(metadata.seller_fee_basis_points as u64)
    } else {
        None
    };
    pay_each_creator(amount, by_points, passbook, creators, accounts, payments)
}

/// The royalty in basis points where the primary sale has happened.
pub open spec fn royalty_points(m: MetadataView) -> Option<u64> {
    if m.primary_sale_happened {
        Some(m.seller_fee_basis_points as u64)
    } else {
        None
    }
}

/// Pays the creators their shares of the kick back `amount` of a referral.
pub fn distribute_referral_payout_for_creators(
    amount: u64,
    passbook: &PassBook,
    creators: &Vec<PayoutInfo>,
    accounts: &mut Vec<AccountInfo>,
    payments: &mut Vec<Payment>,
) -> (r: Result<(), ProgramError>)
    requires
        creators_in(infos_view(creators@), old(accounts)@.len()),
    ensures
        final(accounts)@.len() == old(accounts)@.len(),
        paid(
            r,
            accounts_view(final(accounts)@),
            final(payments)@,
            creators_paid(accounts_view(old(accounts)@), old(payments)@, amount, None, infos_view(creators@), passbook.price_mint@),
            creators_partial(accounts_view(old(accounts)@), old(payments)@, amount, None, infos_view(creators@), passbook.price_mint@),
        ),
{
    pay_each_creator(amount, None, passbook, creators, accounts, payments)
}

/// What paying the market authority does, where the pass book has one: `a[i]` must be
/// that authority and sign; it gets the part of `amount` that the referrer does not,
/// through `a[i + 1]` and `a[i + 2]`. Gives where the accounts that follow start.
pub open spec fn market_paid(
    a: Seq<AccountInfoView>,
    pays: Seq<Payment>,
    amount: u64,
    referral_share: u64,
    pb: PassBookView,
    i: int,
) -> Result<(Seq<AccountInfoView>, Seq<Payment>, int), ProgramError> {
    match pb.gate_keeper {
        None => Ok((a, pays, i)),
        Some(m) => if i >= a.len() {
            Err(ProgramError::NotEnoughAccountKeys)
        } else if !a[i].is_signer {
            Err(ProgramError::MissingRequiredSignature)
        } else if a[i].key != m {
            Err(program_error_of(NFTPassError::InvalidMarketAuthority))
        } else if i + 3 > a.len() {
            Err(ProgramError::NotEnoughAccountKeys)
        } else {
            match shares_spec(amount, (100 - referral_share) as u64) {
                Err(e) => Err(e),
                Ok(x) => match pay_spec(a, pays, x, m, pb.price_mint, i + 1, i + 2) {
                    Err(e) => Err(e),
                    Ok((b, q)) => Ok((b, q, i + 3)),
                },
            }
        },
    }
}

/// Pays the market authority of the pass book, where it has one.
fn pay_market(
    amount: u64,
    referral_share: u64,
    passbook: &PassBook,
    index: usize,
    accounts: &mut Vec<AccountInfo>,
    payments: &mut Vec<Payment>,
) -> (r: Result<usize, ProgramError>)
    requires
        referral_share <= 100,
        index <= old(accounts)@.len(),
    ensures
        final(accounts)@.len() == old(accounts)@.len(),
        match market_paid(accounts_view(old(accounts)@), old(payments)@, amount, referral_share, passbook@, index as int) {
            Err(e) => r == Err::<usize, ProgramError>(e) && accounts_view(final(accounts)@) == accounts_view(
                old(accounts)@,
            ) && final(payments)@ == old(payments)@,
            Ok((a, q, j)) => r == Ok::<usize, ProgramError>(j as usize) && accounts_view(final(accounts)@) == a
                && final(payments)@ == q,
        },
{
    match passbook.gate_keeper {
        None => Ok(index),
        Some(market_authority) => {
            if index >= accounts.len() {
                return Err(ProgramError::NotEnoughAccountKeys);
            }
            assert_signer(&accounts[index])?;
            assert_account_key(&accounts[index], &market_authority, Some(NFTPassError::InvalidMarketAuthority))?;
            if accounts.len() - index < 3 {
                return Err(ProgramError::NotEnoughAccountKeys);
            }
            let market_amount = calculate_shares(amount, 100 - referral_share)?;
            pay_account(market_amount, &market_authority, passbook, index + 1, index + 2, accounts, payments)?;
            Ok(index + 3)
        },
    }
}

/// What paying the referrer does, where the store has one and the referral has not
/// ended at `now`: `a[i]` must be the referrer; of its share of `amount`, the kick back
/// goes to the creators and the rest to the referrer through `a[i + 1]` and `a[i + 2]`.
pub open spec fn referral_paid(
    a: Seq<AccountInfoView>,
    pays: Seq<Payment>,
    amount: u64,
    referral_share: u64,
    kick_back: u64,
    creators: Seq<PayoutInfoView>,
    pb: PassBookView,
    store: StoreView,
    now: i64,
    i: int,
) -> Result<(Seq<AccountInfoView>, Seq<Payment>), ProgramError> {
    match store.referrer {
        None => Ok((a, pays)),
        Some(r) => if store.referral_end_date matches Some(end) && now as u64 > end {
            Ok((a, pays))
        } else {
            match shares_spec(amount, referral_share) {
                Err(e) => Err(e),
                Ok(for_referrer) => if i >= a.len() {
                    Err(ProgramError::NotEnoughAccountKeys)
                } else if a[i].key != r {
                    Err(program_error_of(NFTPassError::InvalidMarketAuthority))
                } else if i + 3 > a.len() {
                    Err(ProgramError::NotEnoughAccountKeys)
                } else {
                    match shares_spec(for_referrer, kick_back) {
                        Err(e) => Err(e),
                        Ok(kick) => match shares_spec(for_referrer, (100 - kick_back) as u64) {
                            Err(e) => Err(e),
                            Ok(x) => match pay_spec(a, pays, x, r, pb.price_mint, i + 1, i + 2) {
                                Err(e) => Err(e),
                                Ok((b, q)) => creators_paid(b, q, kick, None, creators, pb.price_mint),
                            },
                        },
                    }
                },
            }
        },
    }
}

/// Where paying the referrer stops when it fails: where paying the kick back to the
/// creators stops, once the referrer is paid; before that, nothing has changed.
pub open spec fn referral_partial(
    a: Seq<AccountInfoView>,
    pays: Seq<Payment>,
    amount: u64,
    referral_share: u64,
    kick_back: u64,
    creators: Seq<PayoutInfoView>,
    pb: PassBookView,
    store: StoreView,
    now: i64,
    i: int,
) -> (Seq<AccountInfoView>, Seq<Payment>) {
    match store.referrer {
        Some(r) if !(store.referral_end_date matches Some(end) && now as u64 > end) && i + 3 <= a.len() && a[i].key
            == r => match shares_spec(amount, referral_share) {
            Ok(for_referrer) => match shares_spec(for_referrer, kick_back) {
                Ok(kick) => match shares_spec(for_referrer, (100 - kick_back) as u64) {
                    Ok(x) => match pay_spec(a, pays, x, r, pb.price_mint, i + 1, i + 2) {
                        Ok((b, q)) => creators_partial(b, q, kick, None, creators, pb.price_mint),
                        Err(_) => (a, pays),
                    },
                    Err(_) => (a, pays),
                },
                Err(_) => (a, pays),
            },
            Err(_) => (a, pays),
        },
        _ => (a, pays),
    }
}

/// Pays the referrer of the store and the kick back to the creators.
fn pay_referral(
    amount: u64,
    referral_share: u64,
    kick_back: u64,
    creators: &Vec<PayoutInfo>,
    passbook: &PassBook,
    store: &Store,
    unix_timestamp: i64,
    index: usize,
    accounts: &mut Vec<AccountInfo>,
    payments: &mut Vec<Payment>,
) -> (r: Result<(), ProgramError>)
    requires
        kick_back <= 100,
        index <= old(accounts)@.len(),
        creators_in(infos_view(creators@), old(accounts)@.len()),
    ensures
        final(accounts)@.len() == old(accounts)@.len(),
        paid(
            r,
            accounts_view(final(accounts)@),
            final(payments)@,
            referral_paid(
                accounts_view(old(accounts)@),
                old(payments)@,
                amount,
                referral_share,
                kick_back,
                infos_view(creators@),
                passbook@,
                store@,
                unix_timestamp,
                index as int,
            ),
            referral_partial(
                accounts_view(old(accounts)@),
                old(payments)@,
                amount,
                referral_share,
                kick_back,
                infos_view(creators@),
                passbook@,
                store@,
                unix_timestamp,
                index as int,
            ),
        ),
{
    let referrer = match store.referrer {
        None => return Ok(()),
        Some(r) => r,
    };
    if let Some(referral_end_date) = store.referral_end_date {
        if unix_timestamp as u64 > referral_end_date {
            return Ok(());
        }
    }
    let amount_for_referrer = calculate_shares(amount, referral_share)?;
    if index >= accounts.len() {
        return Err(ProgramError::NotEnoughAccountKeys);
    }
    assert_account_key(&accounts[index], &referrer, Some(NFTPassError::InvalidMarketAuthority))?;
    if accounts.len() - index < 3 {
        return Err(ProgramError::NotEnoughAccountKeys);
    }
    let referrer_kick_back_amount = calculate_shares(amount_for_referrer, kick_back)?;
    let referrer_amount = calculate_shares(amount_for_referrer, 100 - kick_back)?;
    pay_account(referrer_amount, &referrer, passbook, index + 1, index + 2, accounts, payments)?;
    distribute_referral_payout_for_creators(referrer_kick_back_amount, passbook, creators, accounts, payments)
}

/// The creators of the metadata, with their payout and token accounts in pairs from
/// `base` on.
pub open spec fn creator_infos(creators: Seq<(Seq<u8>, u8)>, base: int) -> Seq<PayoutInfoView> {
    Seq::new(
        creators.len(),
        |k: int|
            PayoutInfoView {
                authority: creators[k].0,
                payout_account: (base + 2 * k) as usize,
                token_account: (base + 2 * k + 1) as usize,
                share: creators[k].1,
            },
    )
}

/// The creators listed in metadata: none where it lists none.
pub open spec fn listed_creators(m: MetadataView) -> Seq<(Seq<u8>, u8)> {
    match m.creators {
        Some(c) => c,
        None => seq![],
    }
}

/// What paying out the price of a pass does: the referral shares must be percentages;
/// the creators are paid from what is left of the price after the market fee, then the
/// market authority and the referrer from the market fee (see `market_paid` and
/// `referral_paid`). The creators' payout and token accounts come in pairs from `a[i]` on.
pub open spec fn distribute_spec(
    a: Seq<AccountInfoView>,
    pays: Seq<Payment>,
    market_fee_basis_point: u64,
    referral_share: u64,
    kick_back: u64,
    m: MetadataView,
    pb: PassBookView,
    store: StoreView,
    now: i64,
    i: int,
) -> Result<(Seq<AccountInfoView>, Seq<Payment>), ProgramError> {
    if referral_share > 100 || kick_back > 100 {
        Err(program_error_of(NFTPassError::WrongReferralShare))
    } else {
        match shares_less_points_spec(pb.price, market_fee_basis_point) {
            Err(e) => Err(e),
            Ok(for_creators) => {
                let creators = listed_creators(m);
                if i + 2 * creators.len() > a.len() {
                    Err(ProgramError::NotEnoughAccountKeys)
                } else {
                    let infos = creator_infos(creators, i);
                    match creators_paid(a, pays, for_creators, royalty_points(m), infos, pb.price_mint) {
                        Err(e) => Err(e),
                        Ok((a1, p1)) => match amount_for_points_spec(pb.price, market_fee_basis_point) {
                            Err(e) => Err(e),
                            Ok(for_market) => match market_paid(a1, p1, for_market, referral_share, pb, i + 2 * creators.len()) {
                                Err(e) => Err(e),
                                Ok((a2, p2, j)) => referral_paid(a2, p2, for_market, referral_share, kick_back, infos, pb, store, now, j),
                            },
                        },
                    }
                }
            },
        }
    }
}

/// Where paying out the price stops when it fails: where paying the creators stops, or,
/// once they are paid, where paying the referrer stops; a failure before paying the
/// creators, or in paying the market authority, leaves the state before it.
pub open spec fn distribute_partial(
    a: Seq<AccountInfoView>,
    pays: Seq<Payment>,
    market_fee_basis_point: u64,
    referral_share: u64,
    kick_back: u64,
    m: MetadataView,
    pb: PassBookView,
    store: StoreView,
    now: i64,
    i: int,
) -> (Seq<AccountInfoView>, Seq<Payment>) {
    if referral_share > 100 || kick_back > 100 {
        (a, pays)
    } else {
        match shares_less_points_spec(pb.price, market_fee_basis_point) {
            Err(_) => (a, pays),
            Ok(for_creators) => {
                let creators = listed_creators(m);
                if i + 2 * creators.len() > a.len() {
                    (a, pays)
                } else {
                    let infos = creator_infos(creators, i);
                    match creators_paid(a, pays, for_creators, royalty_points(m), infos, pb.price_mint) {
                        Err(_) => creators_partial(a, pays, for_creators, royalty_points(m), infos, pb.price_mint),
                        Ok((a1, p1)) => match amount_for_points_spec(pb.price, market_fee_basis_point) {
                            Err(_) => (a1, p1),
                            Ok(for_market) => match market_paid(a1, p1, for_market, referral_share, pb, i + 2 * creators.len()) {
                                Err(_) => (a1, p1),
                                Ok((a2, p2, j)) => referral_partial(a2, p2, for_market, referral_share, kick_back, infos, pb, store, now, j),
                            },
                        },
                    }
                }
            },
        }
    }
}

/// Collects the creators of the metadata with their payout and token accounts, in pairs
/// from `accounts[index]` on.
fn collect_creators(metadata: &MetadataInfo, index: usize, n: usize) -> (r: Result<Vec<PayoutInfo>, ProgramError>)
    requires
        index <= n,
    ensures
        index + 2 * listed_creators(metadata@).len() > n ==> r == Err::<Vec<PayoutInfo>, ProgramError>(
            ProgramError::NotEnoughAccountKeys,
        ),
        index + 2 * listed_creators(metadata@).len() <= n ==> (r matches Ok(v) && infos_view(v@) == creator_infos(
            listed_creators(metadata@),
            index as int,
        )),
{
    let mut infos: Vec<PayoutInfo> = Vec::new();
    match &metadata.creators {
        None => {
            assert(infos_view(infos@) =~= creator_infos(listed_creators(metadata@), index as int));
        },
        Some(creators) => {
            let ghost cs = listed_creators(metadata@);
            assert(cs == crate::token::creators_view(creators@));
            let mut next = index;
            let mut k: usize = 0;
            while k < creators.len()
                invariant
                    k <= creators@.len(),
                    cs == crate::token::creators_view(creators@),
                    cs.len() == creators@.len(),
                    cs == listed_creators(metadata@),
                    next == index + 2 * k,
                    next <= n,
                    index <= n,
                    infos_view(infos@) == creator_infos(cs, index as int).take(k as int),
                decreases creators@.len() - k,
            {
                if n - next < 2 {
                    assert(k + 1 <= cs.len());
                    assert(index + 2 * cs.len() > n);
                    return Err(ProgramError::NotEnoughAccountKeys);
                }
                let c = creators[k];
                assert(cs[k as int] == (c.address@, c.share));
                let ghost before = infos@;
                infos.push(PayoutInfo { authority: c.address, payout_account: next, token_account: next + 1, share: c.share });
                assert(infos_view(infos@) == infos_view(before).push(infos@[k as int]@));
                assert(infos_view(infos@) =~= creator_infos(cs, index as int).take(k + 1));
                next = next + 2;
                k = k + 1;
            }
            assert(creator_infos(cs, index as int).take(k as int) =~= creator_infos(cs, index as int));
        },
    }
    Ok(infos)
}

/// Pays out the price of a pass: to the creators, the market authority and the referrer.
pub fn distribute_payout(
    market_fee_basis_point: u64,
    referral_share: u64,
    referral_kick_back: u64,
    metadata: &MetadataInfo,
    passbook: &PassBook,
    store: &Store,
    unix_timestamp: i64,
    index: usize,
    accounts: &mut Vec<AccountInfo>,
    payments: &mut Vec<Payment>,
) -> (r: Result<(), ProgramError>)
    requires
        index <= old(accounts)@.len(),
    ensures
        final(accounts)@.len() == old(accounts)@.len(),
        paid(
            r,
            accounts_view(final(accounts)@),
            final(payments)@,
            distribute_spec(
                accounts_view(old(accounts)@),
                old(payments)@,
                market_fee_basis_point,
                referral_share,
                referral_kick_back,
                metadata@,
                passbook@,
                store@,
                unix_timestamp,
                index as int,
            ),
            distribute_partial(
                accounts_view(old(accounts)@),
                old(payments)@,
                market_fee_basis_point,
                referral_share,
                referral_kick_back,
                metadata@,
                passbook@,
                store@,
                unix_timestamp,
                index as int,
            ),
        ),
{
    if referral_share > 100 {
        return Err(fail(NFTPassError::WrongReferralShare));
    }
    if referral_kick_back > 100 {
        return Err(fail(NFTPassError::WrongReferralShare));
    }
    let amount_for_creators = calculate_shares_less_points(passbook.price, market_fee_basis_point)?;
    let creators = collect_creators(metadata, index, accounts.len())?;
    let ghost n = listed_creators(metadata@).len();
    assert(creators_in(infos_view(creators@), accounts@.len()));
    distribute_payout_for_creators(amount_for_creators, passbook, metadata, &creators, accounts, payments)?;
    let amount_for_market_place = calculate_amount_for_points(passbook.price, market_fee_basis_point)?;
    let next = pay_market(amount_for_market_place, referral_share, passbook, index + 2 * creators.len(), accounts, payments)?;
    pay_referral(
        amount_for_market_place,
        referral_share,
        referral_kick_back,
        &creators,
        passbook,
        store,
        unix_timestamp,
        next,
        accounts,
        payments,
    )
}

/// The metadata read as a tuple, as a `MetadataView`.
pub open spec fn metadata_view_of(t: (Seq<u8>, u16, Option<Seq<(Seq<u8>, u8)>>, bool)) -> MetadataView {
    MetadataView { mint: t.0, seller_fee_basis_points: t.1, creators: t.2, primary_sale_happened: t.3 }
}

/// The address of the pass book of `mint`, with its bump seed.
pub open spec fn pass_book_address(program_id: Seq<u8>, mint: Seq<u8>) -> Option<(Seq<u8>, u8)> {
    program_address(seq![prefix_seed(), program_id, mint], program_id)
}

/// The address of the trade history of `wallet` for `pass_book`, with its bump seed.
pub open spec fn trade_history_address(program_id: Seq<u8>, pass_book: Seq<u8>, wallet: Seq<u8>) -> Option<(Seq<u8>, u8)> {
    program_address(seq![prefix_seed(), program_id, pass_book, wallet, text_bytes(TradeHistory::PREFIX@)], program_id)
}

/// The seeds that sign for the trade history of `wallet` for `pass_book`, bump seed last.
pub open spec fn trade_history_seeds(program_id: Seq<u8>, pass_book: Seq<u8>, wallet: Seq<u8>, bump: u8) -> Seq<Seq<u8>> {
    seq![prefix_seed(), program_id, pass_book, wallet, text_bytes(TradeHistory::PREFIX@), seq![bump]]
}

/// What a purchase reads before the new edition is printed.
pub struct BuyChecks {
    pub pass_book: PassBookView,
    pub store: StoreView,
    pub metadata: MetadataView,
    pub edition: u64,
    pub pass_book_bump: u8,
}

/// What a purchase checks before the new edition is printed: the pass book and the store
/// must belong to the program and the vault, new mint and new token account to the token
/// program, the master metadata and edition to the token metadata program, and the user's
/// wallet must sign; the pass book must be readable and below its maximum supply, where
/// it has one; the store must be readable, at the
/// address of the pass book's authority; the master metadata must be of the pass book's
/// mint; the user must pay from its wallet in native SOL, else from an initialized token
/// account of the price mint that it owns; the edition to print is one past the master
/// edition's supply. `None` where the program panics.
pub open spec fn buy_checks(program_id: Seq<u8>, a: Seq<AccountInfoView>) -> Option<Result<BuyChecks, ProgramError>> {
    if a.len() < 18 {
        Some(Err(ProgramError::NotEnoughAccountKeys))
    } else if a[0].owner != program_id_bytes() || a[1].owner != program_id_bytes() || a[2].owner
        != token_program_id_bytes() {
        Some(Err(ProgramError::IllegalOwner))
    } else if !a[3].is_signer {
        Some(Err(ProgramError::MissingRequiredSignature))
    } else if a[8].owner != token_program_id_bytes() || a[9].owner != metadata_program_id_bytes() || a[10].owner
        != metadata_program_id_bytes() || a[12].owner != token_program_id_bytes() {
        Some(Err(ProgramError::IllegalOwner))
    } else {
        match pass_book_unpack(a[0].data) {
            Err(e) => Some(Err(e)),
            Ok(pb) => if pb.max_supply matches Some(m) && pb.supply >= m {
                Some(Err(program_error_of(NFTPassError::SupplyIsGtThanMaxSupply)))
            } else { match store_unpack(a[1].data) {
                Err(e) => Some(Err(e)),
                Ok(store) => match store_address(program_id, pb.authority) {
                    None => None,
                    Some((store_key, _)) => if a[1].key != store_key {
                        Some(Err(program_error_of(NFTPassError::InvalidStoreKey)))
                    } else {
                        match metadata_of(a[9].data) {
                            None => Some(Err(ProgramError::BorshIoError)),
                            Some(t) => if t.0 != pb.mint {
                                Some(Err(program_error_of(NFTPassError::InvalidMintKey)))
                            } else {
                                match buyer_check(a, pb.price_mint) {
                                    Err(e) => Some(Err(e)),
                                    Ok(()) => match master_edition_supply_of(a[10].data) {
                                        None => Some(Err(ProgramError::BorshIoError)),
                                        Some(supply) => if supply == u64::MAX {
                                            Some(Err(program_error_of(NFTPassError::MathOverflow)))
                                        } else {
                                            match pass_book_address(program_id, pb.mint) {
                                                None => None,
                                                Some((_, bump)) => Some(
                                                    Ok(
                                                        BuyChecks {
                                                            pass_book: pb,
                                                            store,
                                                            metadata: metadata_view_of(t),
                                                            edition: (supply + 1) as u64,
                                                            pass_book_bump: bump,
                                                        },
                                                    ),
                                                ),
                                            }
                                        },
                                    },
                                }
                            },
                        }
                    },
                },
            } },
        }
    }
}

/// What the user pays from: in native SOL its wallet `a[3]` itself, given again as
/// `a[4]`; else the token account `a[4]`, initialized, of the price mint and owned by
/// the wallet.
pub open spec fn buyer_check(a: Seq<AccountInfoView>, price_mint: Seq<u8>) -> Result<(), ProgramError> {
    if price_mint == native_mint_id_bytes() {
        if a[3].key != a[4].key {
            Err(program_error_of(NFTPassError::UserWalletMustMatchUserTokenAccount))
        } else {
            Ok(())
        }
    } else {
        match initialized_token_account(a[4].data) {
            Err(e) => Err(e),
            Ok((mint, owner)) => if mint != price_mint {
                Err(program_error_of(NFTPassError::PriceTokenMismatch))
            } else if owner != a[3].key {
                Err(ProgramError::IllegalOwner)
            } else {
                Ok(())
            },
        }
    }
}

/// Checks what the user pays from.
fn check_buyer(accounts: &Vec<AccountInfo>, price_mint: &Pubkey) -> (r: Result<(), ProgramError>)
    requires
        accounts@.len() >= 18,
    ensures
        r == buyer_check(accounts_view(accounts@), price_mint@),
{
    assert(accounts_view(accounts@)[4] == accounts@[4]@);
    if is_native_mint(price_mint) {
        assert_account_key(&accounts[3], &accounts[4].key, Some(NFTPassError::UserWalletMustMatchUserTokenAccount))
    } else {
        let token = assert_initialized(&accounts[4])?;
        if token.mint != *price_mint {
            return Err(fail(NFTPassError::PriceTokenMismatch));
        }
        if token.owner != accounts[3].key {
            return Err(ProgramError::IllegalOwner);
        }
        Ok(())
    }
}

/// Runs the checks of a purchase before the new edition is printed.
fn check_purchase(program_id: &Pubkey, accounts: &Vec<AccountInfo>) -> (r: Option<
    Result<(PassBook, Store, MetadataInfo, u64, u8), ProgramError>,
>)
    ensures
        match buy_checks(program_id@, accounts_view(accounts@)) {
            None => r is None,
            Some(Err(e)) => r matches Some(Err(x)) && x == e,
            Some(Ok(c)) => r matches Some(Ok((pb, store, m, edition, bump))) && pb@ == c.pass_book && store@ == c.store
                && m@ == c.metadata && edition == c.edition && bump == c.pass_book_bump,
        },
{
    if accounts.len() < 18 {
        return Some(Err(ProgramError::NotEnoughAccountKeys));
    }
    let id = id();
    let token_program = token_program_id();
    let metadata_program = metadata_program_id();
    if accounts[0].owner != id || accounts[1].owner != id || accounts[2].owner != token_program {
        return Some(Err(ProgramError::IllegalOwner));
    }
    if !accounts[3].is_signer {
        return Some(Err(ProgramError::MissingRequiredSignature));
    }
    if accounts[8].owner != token_program || accounts[9].owner != metadata_program || accounts[10].owner
        != metadata_program || accounts[12].owner != token_program {
        return Some(Err(ProgramError::IllegalOwner));
    }
    let passbook = match PassBook::unpack(accounts[0].data.as_slice()) {
        Ok(p) => p,
        Err(e) => return Some(Err(e)),
    };
    if let Some(max_supply) = passbook.max_supply {
        if passbook.supply >= max_supply {
            return Some(Err(fail(NFTPassError::SupplyIsGtThanMaxSupply)));
        }
    }
    let pass_store = match Store::unpack(accounts[1].data.as_slice()) {
        Ok(s) => s,
        Err(e) => return Some(Err(e)),
    };
    let (store_key, _) = match find_pass_store_program_address(program_id, &passbook.authority) {
        Some(x) => x,
        None => return None,
    };
    if let Err(e) = assert_account_key(&accounts[1], &store_key, Some(NFTPassError::InvalidStoreKey)) {
        return Some(Err(e));
    }
    let master_metadata = match read_metadata(&accounts[9]) {
        Ok(m) => m,
        Err(e) => return Some(Err(e)),
    };
    if master_metadata.mint != passbook.mint {
        return Some(Err(fail(NFTPassError::InvalidMintKey)));
    }
    if let Err(e) = check_buyer(accounts, &passbook.price_mint) {
        return Some(Err(e));
    }
    let supply = match get_supply_off_master_edition(&accounts[10]) {
        Ok(s) => s,
        Err(e) => return Some(Err(e)),
    };
    let edition = match supply.checked_add(1) {
        Some(e) => e,
        None => return Some(Err(fail(NFTPassError::MathOverflow))),
    };
    let (_, pass_book_bump_seed) = match find_pass_book_program_address(program_id, &passbook.mint) {
        Some(x) => x,
        None => return None,
    };
    Some(Ok((passbook, pass_store, master_metadata, edition, pass_book_bump_seed)))
}

/// A trade history initialized for `wallet` and `pass_book`.
pub open spec fn trade_history_init_view(pass_book: Seq<u8>, wallet: Seq<u8>) -> TradeHistoryView {
    TradeHistoryView { account_type: AccountType::TradeHistory, passbook: pass_book, already_bought: 0, wallet }
}

/// How the trade history `a[13]` of the user `a[3]` for the pass book `a[0]` is opened:
/// read where it is initialized, else created (with `bump`) and initialized.
pub open spec fn trade_history_stage(program_id: Seq<u8>, a: Seq<AccountInfoView>, bump: u8) -> Result<
    (TradeHistoryView, Seq<AccountInfoView>, Seq<NewAccountView>),
    ProgramError,
> {
    match trade_history_unpack(a[13].data) {
        Ok(t) => Ok((t, a, seq![])),
        Err(_) => match trade_history_unpack_unchecked(zeros(MAX_TRADE_HISTORY_LEN as nat)) {
            Err(e) => Err(e),
            Ok(_) => Ok(
                (
                    trade_history_init_view(a[0].key, a[3].key),
                    created(a, 13, MAX_TRADE_HISTORY_LEN as nat, program_id),
                    seq![
                        NewAccountView {
                            index: 13,
                            size: MAX_TRADE_HISTORY_LEN,
                            seeds: trade_history_seeds(program_id, a[0].key, a[3].key, bump),
                        },
                    ],
                ),
            ),
        },
    }
}

/// The seeds that sign for the trade history of `wallet` for `pass_book`.
fn trade_history_signer_seeds(program_id: &Pubkey, pass_book: &Pubkey, wallet: &Pubkey, bump: u8) -> (r: Vec<Vec<u8>>)
    ensures
        seeds_view(r@) == trade_history_seeds(program_id@, pass_book@, wallet@, bump),
{
    let mut seeds = prefixed(program_id);
    push_seed(&mut seeds, pass_book.0.as_slice());
    push_seed(&mut seeds, wallet.0.as_slice());
    push_seed(&mut seeds, TradeHistory::PREFIX.as_bytes());
    let b = [bump];
    assert(b@ =~= seq![bump]);
    push_seed(&mut seeds, b.as_slice());
    assert(seeds_view(seeds@) =~= trade_history_seeds(program_id@, pass_book@, wallet@, bump));
    seeds
}

/// Opens the trade history of the user for the pass book in `accounts[13]`: reads it
/// where it is initialized, else creates and initializes it.
pub fn get_or_create_trade_history(
    program_id: &Pubkey,
    accounts: &mut Vec<AccountInfo>,
    new_accounts: &mut Vec<NewAccount>,
    bump: u8,
) -> (r: Result<TradeHistory, ProgramError>)
    requires
        old(accounts)@.len() >= 18,
        old(new_accounts)@.len() == 0,
    ensures
        final(accounts)@.len() == old(accounts)@.len(),
        match trade_history_stage(program_id@, accounts_view(old(accounts)@), bump) {
            Ok((t, a, c)) => r matches Ok(x) && x@ == t && accounts_view(final(accounts)@) == a
                && new_accounts_view(final(new_accounts)@) == c,
            Err(e) => r == Err::<TradeHistory, ProgramError>(e),
        },
{
    assert(new_accounts_view(new_accounts@) =~= seq![]);
    match TradeHistory::unpack(accounts[13].data.as_slice()) {
        Ok(t) => Ok(t),
        Err(_) => {
            let pass_book = accounts[0].key;
            let wallet = accounts[3].key;
            let seeds = trade_history_signer_seeds(program_id, &pass_book, &wallet, bump);
            create_account(accounts, new_accounts, 13, MAX_TRADE_HISTORY_LEN, program_id, seeds);
            assert(accounts_view(accounts@)[13] == accounts@[13]@);
            let mut data = TradeHistory::unpack_unchecked(accounts[13].data.as_slice())?;
            data.init(pass_book, wallet);
            Ok(data)
        },
    }
}

/// How a purchase writes its accounts once the price is paid out: the store counts one
/// more pass, the trade history one more purchase, the pass book one more in supply;
/// each is written back to its account.
pub open spec fn buy_finish(a: Seq<AccountInfoView>, pb: PassBookView, store: StoreView, th: TradeHistoryView) -> Result<
    Seq<AccountInfoView>,
    ProgramError,
> {
    if store.pass_count == u64::MAX || th.already_bought == u64::MAX || pb.supply == u64::MAX {
        Err(program_error_of(NFTPassError::Overflow))
    } else {
        let pb2 = PassBookView { supply: (pb.supply + 1) as u64, ..pb };
        let s2 = StoreView { pass_count: (store.pass_count + 1) as u64, ..store };
        let th2 = TradeHistoryView { already_bought: (th.already_bought + 1) as u64, ..th };
        match packed(a[0].data, pass_book_bytes(pb2), MAX_PASS_BOOK_LEN) {
            Err(e) => Err(e),
            Ok(d0) => match packed(a[1].data, store_bytes(s2), MAX_STORE_LEN) {
                Err(e) => Err(e),
                Ok(d1) => match packed(a[13].data, trade_history_bytes(th2), MAX_TRADE_HISTORY_LEN) {
                    Err(e) => Err(e),
                    Ok(d2) => Ok(with_data(with_data(with_data(a, 0, d0), 1, d1), 13, d2)),
                },
            },
        }
    }
}

/// Counts the purchase and writes the pass book, the store and the trade history.
#[verifier::spinoff_prover]
#[verifier::rlimit(40)]
fn finish_purchase(
    accounts: &mut Vec<AccountInfo>,
    passbook: PassBook,
    pass_store: Store,
    trade_history: TradeHistory,
) -> (r: Result<(), ProgramError>)
    requires
        old(accounts)@.len() >= 18,
        pass_book_ok(passbook@),
        pass_book_bytes(passbook@).len() <= MAX_PASS_BOOK_LEN,
        store_ok(pass_store@),
        trade_history_ok(trade_history@),
    ensures
        final(accounts)@.len() == old(accounts)@.len(),
        match buy_finish(accounts_view(old(accounts)@), passbook@, pass_store@, trade_history@) {
            Ok(a) => r is Ok && accounts_view(final(accounts)@) == a,
            Err(e) => r == Err::<(), ProgramError>(e),
        },
{
    let mut passbook = passbook;
    let mut pass_store = pass_store;
    let mut trade_history = trade_history;
    pass_store.increment_pass_count()?;
    trade_history.increment_already_bought()?;
    let ghost before = passbook@;
    passbook.increment_supply()?;
    proof {
        lemma_pass_book_bytes_len(before);
        lemma_pass_book_bytes_len(passbook@);
        lemma_store_bytes_len(pass_store@);
        lemma_trade_history_bytes_len(trade_history@);
    }
    let mut d0 = copy_bytes(&accounts[0].data);
    PassBook::pack(passbook, d0.as_mut_slice())?;
    let mut d1 = copy_bytes(&accounts[1].data);
    Store::pack(pass_store, d1.as_mut_slice())?;
    let mut d2 = copy_bytes(&accounts[13].data);
    TradeHistory::pack(trade_history, d2.as_mut_slice())?;
    set_data(accounts, 0, d0);
    set_data(accounts, 1, d1);
    set_data(accounts, 13, d2);
    Ok(())
}

/// What the caller does for a purchase: it creates the new accounts, prints edition
/// `edition` of the master edition with the pass book's address (bump seed
/// `pass_book_bump`) signing, marks the primary sale of the new metadata, makes the
/// payments, then writes the accounts' new data.
pub struct BuyPlan {
    pub edition: u64,
    pub pass_book_bump: u8,
    pub new_accounts: Vec<NewAccount>,
    pub payments: Vec<Payment>,
}

/// `BuyPlan` with its new accounts seen through `View`.
pub struct BuyPlanView {
    pub edition: u64,
    pub pass_book_bump: u8,
    pub new_accounts: Seq<NewAccountView>,
    pub payments: Seq<Payment>,
}

impl View for BuyPlan {
    type V = BuyPlanView;

    open spec fn view(&self) -> BuyPlanView {
        BuyPlanView {
            edition: self.edition,
            pass_book_bump: self.pass_book_bump,
            new_accounts: new_accounts_view(self.new_accounts@),
            payments: self.payments@,
        }
    }
}

/// What a purchase does once its first checks pass: the new token account `a[12]` must be
/// initialized and owned by the user; the trade history must be at its derived address
/// and is opened, and must record no earlier purchase by the user; the price is paid
/// out; the accounts are counted and written.
pub open spec fn buy_after_checks(
    program_id: Seq<u8>,
    a: Seq<AccountInfoView>,
    args: BuyPassArgs,
    now: i64,
    c: BuyChecks,
) -> Option<Result<(Seq<AccountInfoView>, BuyPlanView), ProgramError>> {
    match initialized_token_account(a[12].data) {
        Err(e) => Some(Err(e)),
        Ok((_, owner)) => if owner != a[3].key {
            Some(Err(ProgramError::IllegalOwner))
        } else {
            match trade_history_address(program_id, a[0].key, a[3].key) {
                None => None,
                Some((key, bump)) => if a[13].key != key {
                    Some(Err(program_error_of(NFTPassError::InvalidTradeHistoryKey)))
                } else {
                    match trade_history_stage(program_id, a, bump) {
                        Err(e) => Some(Err(e)),
                        Ok((th, a1, na)) => if th.already_bought > 0 {
                            Some(Err(program_error_of(NFTPassError::UserHasActiveMembership)))
                        } else { match distribute_spec(
                            a1,
                            seq![],
                            args.market_fee_basis_point as u64,
                            args.referral_share as u64,
                            args.referral_kick_back_share as u64,
                            c.metadata,
                            c.pass_book,
                            c.store,
                            now,
                            18,
                        ) {
                            Err(e) => Some(Err(e)),
                            Ok((a2, pays)) => match buy_finish(a2, c.pass_book, c.store, th) {
                                Err(e) => Some(Err(e)),
                                Ok(a3) => Some(
                                    Ok(
                                        (
                                            a3,
                                            BuyPlanView {
                                                edition: c.edition,
                                                pass_book_bump: c.pass_book_bump,
                                                new_accounts: na,
                                                payments: pays,
                                            },
                                        ),
                                    ),
                                ),
                            },
                        } },
                    }
                },
            }
        },
    }
}

/// What a purchase does: see `buy_checks` and `buy_after_checks`. `None` where the
/// program panics.
pub open spec fn buy_outcome(program_id: Seq<u8>, a: Seq<AccountInfoView>, args: BuyPassArgs, now: i64) -> Option<
    Result<(Seq<AccountInfoView>, BuyPlanView), ProgramError>,
> {
    match buy_checks(program_id, a) {
        None => None,
        Some(Err(e)) => Some(Err(e)),
        Some(Ok(c)) => buy_after_checks(program_id, a, args, now, c),
    }
}

/// The steps of a purchase after its first checks.
fn complete_purchase(
    program_id: &Pubkey,
    accounts: &mut Vec<AccountInfo>,
    args: BuyPassArgs,
    unix_timestamp: i64,
    passbook: PassBook,
    pass_store: Store,
    master_metadata: MetadataInfo,
) -> (r: Option<Result<(Vec<NewAccount>, Vec<Payment>), ProgramError>>)
    requires
        old(accounts)@.len() >= 18,
        pass_book_unpack(old(accounts)@[0].data@) == Ok::<PassBookView, ProgramError>(passbook@),
        store_unpack(old(accounts)@[1].data@) == Ok::<StoreView, ProgramError>(pass_store@),
    ensures
        final(accounts)@.len() == old(accounts)@.len(),
        match buy_after_checks(
            program_id@,
            accounts_view(old(accounts)@),
            args,
            unix_timestamp,
            BuyChecks { pass_book: passbook@, store: pass_store@, metadata: master_metadata@, edition: 0, pass_book_bump: 0 },
        ) {
            None => r is None,
            Some(Err(e)) => r matches Some(Err(x)) && x == e,
            Some(Ok((a, plan))) => r matches Some(Ok((n, p))) && accounts_view(final(accounts)@) == a
                && new_accounts_view(n@) == plan.new_accounts && p@ == plan.payments,
        },
{
    assert(accounts_view(accounts@)[12] == accounts@[12]@);
    let new_token_account = match assert_initialized(&accounts[12]) {
        Ok(t) => t,
        Err(e) => return Some(Err(e)),
    };
    if new_token_account.owner != accounts[3].key {
        return Some(Err(ProgramError::IllegalOwner));
    }
    let pass_book_key = accounts[0].key;
    let wallet_key = accounts[3].key;
    let (trade_history_key, trade_history_bump_seed) = match find_trade_history_program_address(
        program_id,
        &pass_book_key,
        &wallet_key,
    ) {
        Some(x) => x,
        None => return None,
    };
    if let Err(e) = assert_account_key(&accounts[13], &trade_history_key, Some(NFTPassError::InvalidTradeHistoryKey)) {
        return Some(Err(e));
    }
    proof {
        lemma_pass_book_unpack_inverse(old(accounts)@[0].data@);
        lemma_store_unpack_inverse(old(accounts)@[1].data@);
        lemma_trade_history_unpack_inverse(old(accounts)@[13].data@);
    }
    let mut new_accounts: Vec<NewAccount> = Vec::new();
    let trade_history = match get_or_create_trade_history(program_id, accounts, &mut new_accounts, trade_history_bump_seed) {
        Ok(t) => t,
        Err(e) => return Some(Err(e)),
    };
    if trade_history.already_bought > 0 {
        return Some(Err(fail(NFTPassError::UserHasActiveMembership)));
    }
    let mut payments: Vec<Payment> = Vec::new();
    if let Err(e) = distribute_payout(
        args.market_fee_basis_point as u64,
        args.referral_share as u64,
        args.referral_kick_back_share as u64,
        &master_metadata,
        &passbook,
        &pass_store,
        unix_timestamp,
        18,
        accounts,
        &mut payments,
    ) {
        return Some(Err(e));
    }
    match finish_purchase(accounts, passbook, pass_store, trade_history) {
        Ok(()) => Some(Ok((new_accounts, payments))),
        Err(e) => Some(Err(e)),
    }
}

/// Process Buy instruction: works out what buying a pass does to `accounts`, given the
/// clock's `unix_timestamp`, and what the caller has to do on chain (see `BuyPlan`).
/// `None` where the program panics: no address can be derived for a seed. On an error
/// nothing changes.
pub fn buy(program_id: &Pubkey, accounts: &mut Vec<AccountInfo>, args: BuyPassArgs, unix_timestamp: i64) -> (r: Option<
    Result<BuyPlan, ProgramError>,
>)
    ensures
        match buy_outcome(program_id@, accounts_view(old(accounts)@), args, unix_timestamp) {
            None => r is None && final(accounts)@ == old(accounts)@,
            Some(Err(e)) => r matches Some(Err(x)) && x == e && final(accounts)@ == old(accounts)@,
            Some(Ok((a, plan))) => r matches Some(Ok(p)) && p@ == plan && accounts_view(final(accounts)@) == a,
        },
{
    let (passbook, pass_store, master_metadata, edition, pass_book_bump) = match check_purchase(program_id, accounts) {
        None => return None,
        Some(Err(e)) => return Some(Err(e)),
        Some(Ok(x)) => x,
    };
    let mut work = copy_accounts(accounts);
    match complete_purchase(program_id, &mut work, args, unix_timestamp, passbook, pass_store, master_metadata) {
        None => None,
        Some(Err(e)) => Some(Err(e)),
        Some(Ok((new_accounts, payments))) => {
            *accounts = work;
            Some(Ok(BuyPlan { edition, pass_book_bump, new_accounts, payments }))
        },
    }
}

/// A purchase counts itself once in each account it writes: the pass book written reads
/// back with one more in supply, the store with one more pass, the trade history with
/// one more purchase.
pub proof fn lemma_purchase_counted(a: Seq<AccountInfoView>, pb: PassBookView, store: StoreView, th: TradeHistoryView)
    requires
        a.len() >= 14,
        buy_finish(a, pb, store, th) is Ok,
        pass_book_unpack(a[0].data) == Ok::<PassBookView, ProgramError>(pb),
        store_unpack(a[1].data) == Ok::<StoreView, ProgramError>(store),
        trade_history_ok(th),
        th.account_type == AccountType::TradeHistory,
    ensures
        pass_book_unpack(buy_finish(a, pb, store, th)->Ok_0[0].data) == Ok::<PassBookView, ProgramError>(
            PassBookView { supply: (pb.supply + 1) as u64, ..pb },
        ),
        store_unpack(buy_finish(a, pb, store, th)->Ok_0[1].data) == Ok::<StoreView, ProgramError>(
            StoreView { pass_count: (store.pass_count + 1) as u64, ..store },
        ),
        trade_history_unpack(buy_finish(a, pb, store, th)->Ok_0[13].data) == Ok::<TradeHistoryView, ProgramError>(
            TradeHistoryView { already_bought: (th.already_bought + 1) as u64, ..th },
        ),
{
    let pb2 = PassBookView { supply: (pb.supply + 1) as u64, ..pb };
    let s2 = StoreView { pass_count: (store.pass_count + 1) as u64, ..store };
    let th2 = TradeHistoryView { already_bought: (th.already_bought + 1) as u64, ..th };
    lemma_pass_book_unpack_inverse(a[0].data);
    lemma_pass_book_bytes_len(pb);
    lemma_pass_book_bytes_len(pb2);
    lemma_pass_book_rewritten(a[0].data, pb2);
    lemma_store_unpack_inverse(a[1].data);
    lemma_store_bytes_len(s2);
    lemma_store_unpack_packed(s2, a[1].data.skip(store_bytes(s2).len() as int));
    lemma_trade_history_bytes_len(th2);
    lemma_trade_history_unpack_packed(th2, a[13].data.skip(trade_history_bytes(th2).len() as int));
}

/// A purchase never takes a pass book past its maximum supply: the pass book it writes
/// reads back as before with one more in supply, and where the pass book has a maximum
/// supply, the new supply is at most that maximum.
pub proof fn lemma_purchase_within_max_supply(program_id: Seq<u8>, a: Seq<AccountInfoView>, args: BuyPassArgs, now: i64)
    requires
        buy_outcome(program_id, a, args, now) matches Some(Ok(_)),
        a.len() <= usize::MAX,
    ensures
        ({
            let pb = pass_book_unpack(a[0].data)->Ok_0;
            let after = pass_book_unpack(buy_outcome(program_id, a, args, now)->Some_0->Ok_0.0[0].data);
            &&& after == Ok::<PassBookView, ProgramError>(PassBookView { supply: (pb.supply + 1) as u64, ..pb })
            &&& (pb.max_supply matches Some(m) ==> after->Ok_0.supply <= m)
        }),
{
    let c = buy_checks(program_id, a)->Some_0->Ok_0;
    let pb = pass_book_unpack(a[0].data)->Ok_0;
    assert(c.pass_book == pb);
    let bump = trade_history_address(program_id, a[0].key, a[3].key)->Some_0.1;
    let (th, a1, na) = trade_history_stage(program_id, a, bump)->Ok_0;
    assert(a1.len() == a.len() && a1[0] == a[0]);
    lemma_payout_goes_to_listed_accounts(
        a1,
        seq![],
        args.market_fee_basis_point as u64,
        args.referral_share as u64,
        args.referral_kick_back_share as u64,
        c.metadata,
        c.pass_book,
        c.store,
        now,
        18,
    );
    let (a2, pays) = distribute_spec(
        a1,
        seq![],
        args.market_fee_basis_point as u64,
        args.referral_share as u64,
        args.referral_kick_back_share as u64,
        c.metadata,
        c.pass_book,
        c.store,
        now,
        18,
    )->Ok_0;
    assert(a2[0] == a1[0]);
    let pb2 = PassBookView { supply: (pb.supply + 1) as u64, ..pb };
    lemma_pass_book_unpack_inverse(a[0].data);
    lemma_pass_book_bytes_len(pb);
    lemma_pass_book_bytes_len(pb2);
    lemma_pass_book_rewritten(a[0].data, pb2);
}

/// The sum of the amounts of `payments`.
pub open spec fn total_paid(payments: Seq<Payment>) -> int
    decreases payments.len(),
{
    if payments.len() == 0 {
        0
    } else {
        total_paid(payments.drop_last()) + payments.last().amount
    }
}

/// The sum of the shares of the first `k` creators.
pub open spec fn shares_sum(creators: Seq<PayoutInfoView>, k: nat) -> int
    decreases k,
{
    if k == 0 {
        0
    } else {
        shares_sum(creators, (k - 1) as nat) + creators[k - 1].share
    }
}

/// The sum of the shares of the first `k` creators that metadata lists.
pub open spec fn listed_shares(creators: Seq<(Seq<u8>, u8)>, k: nat) -> int
    decreases k,
{
    if k == 0 {
        0
    } else {
        listed_shares(creators, (k - 1) as nat) + creators[k - 1].1
    }
}

proof fn lemma_listed_shares(creators: Seq<(Seq<u8>, u8)>, base: int, k: nat)
    requires
        k <= creators.len(),
    ensures
        shares_sum(creator_infos(creators, base), k) == listed_shares(creators, k),
    decreases k,
{
    if k > 0 {
        lemma_listed_shares(creators, base, (k - 1) as nat);
    }
}

proof fn lemma_total_paid_push(payments: Seq<Payment>, p: Payment)
    ensures
        total_paid(payments.push(p)) == total_paid(payments) + p.amount,
{
    assert(payments.push(p).drop_last() =~= payments);
}

/// A payment pays what it was asked to pay.
proof fn lemma_pay_adds(
    a: Seq<AccountInfoView>,
    pays: Seq<Payment>,
    amount: u64,
    authority: Seq<u8>,
    price_mint: Seq<u8>,
    p: int,
    t: int,
)
    requires
        pay_spec(a, pays, amount, authority, price_mint, p, t) is Ok,
    ensures
        total_paid(pay_spec(a, pays, amount, authority, price_mint, p, t)->Ok_0.1) == total_paid(pays) + amount,
{
    lemma_total_paid_push(pays, Payment { to: t as usize, amount });
}

/// What a creator receives is at most its share of the amount.
proof fn lemma_creator_amount_bound(amount: u64, by_points: Option<u64>, share: u8)
    requires
        creator_amount(amount, by_points, share) is Ok,
        by_points matches Some(points) ==> points <= 10000,
    ensures
        100 * creator_amount(amount, by_points, share)->Ok_0 <= amount * share,
{
    match by_points {
        Some(points) => {
            let y = (amount * points) / 10000;
            assert(y <= amount) by (nonlinear_arith)
                requires
                    points <= 10000,
                    y == (amount * points) / 10000,
                    0 <= amount,
                    0 <= points,
            ;
            let x = (y * share) / 100;
            assert(100 * x <= amount * share) by (nonlinear_arith)
                requires
                    x == (y * share) / 100,
                    0 <= y <= amount,
                    0 <= share,
            ;
        },
        None => {
            let x = (amount * share) / 100;
            assert(100 * x <= amount * share) by (nonlinear_arith)
                requires
                    x == (amount * share) / 100,
                    0 <= amount,
                    0 <= share,
            ;
        },
    }
}

/// Paying the first `k` creators pays at most their shares of the amount.
proof fn lemma_pay_creators_bound(
    a: Seq<AccountInfoView>,
    pays: Seq<Payment>,
    amount: u64,
    by_points: Option<u64>,
    creators: Seq<PayoutInfoView>,
    price_mint: Seq<u8>,
    k: nat,
)
    requires
        pay_creators(a, pays, amount, by_points, creators, price_mint, k) is Ok,
        by_points matches Some(points) ==> points <= 10000,
    ensures
        100 * (total_paid(pay_creators(a, pays, amount, by_points, creators, price_mint, k)->Ok_0.1) - total_paid(pays))
            <= amount * shares_sum(creators, k),
    decreases k,
{
    if k > 0 {
        let (b, q) = pay_creators(a, pays, amount, by_points, creators, price_mint, (k - 1) as nat)->Ok_0;
        lemma_pay_creators_bound(a, pays, amount, by_points, creators, price_mint, (k - 1) as nat);
        let c = creators[k - 1];
        let x = creator_amount(amount, by_points, c.share)->Ok_0;
        lemma_creator_amount_bound(amount, by_points, c.share);
        lemma_pay_adds(b, q, x, c.authority, price_mint, c.payout_account as int, c.token_account as int);
        assert(amount * shares_sum(creators, k) == amount * shares_sum(creators, (k - 1) as nat) + amount * c.share)
            by (nonlinear_arith)
            requires
                shares_sum(creators, k) == shares_sum(creators, (k - 1) as nat) + c.share,
        ;
    }
}

/// Paying all the creators pays at most the amount, where their shares add up to at most
/// 100 percent.
proof fn lemma_creators_paid_bound(
    a: Seq<AccountInfoView>,
    pays: Seq<Payment>,
    amount: u64,
    by_points: Option<u64>,
    creators: Seq<PayoutInfoView>,
    price_mint: Seq<u8>,
)
    requires
        creators_paid(a, pays, amount, by_points, creators, price_mint) is Ok,
        by_points matches Some(points) ==> points <= 10000,
        shares_sum(creators, creators.len()) <= 100,
    ensures
        total_paid(creators_paid(a, pays, amount, by_points, creators, price_mint)->Ok_0.1) <= total_paid(pays) + amount,
{
    if amount != 0 {
        lemma_pay_creators_bound(a, pays, amount, by_points, creators, price_mint, creators.len());
        let d = total_paid(creators_paid(a, pays, amount, by_points, creators, price_mint)->Ok_0.1) - total_paid(pays);
        assert(d <= amount) by (nonlinear_arith)
            requires
                100 * d <= amount * shares_sum(creators, creators.len()),
                shares_sum(creators, creators.len()) <= 100,
                0 <= amount,
        ;
    }
}

/// The parts `share` and `100 - share` percent of an amount, each rounded down, add up to
/// at most the amount.
proof fn lemma_two_parts(amount: u64, share: u64)
    requires
        share <= 100,
    ensures
        (amount * share) / 100 + (amount * (100 - share)) / 100 <= amount,
{
    assert((amount * share) / 100 + (amount * (100 - share)) / 100 <= amount) by (nonlinear_arith)
        requires
            share <= 100,
            0 <= amount,
    ;
}

/// A purchase never pays out more than the price of the pass, where the creators that the
/// metadata lists have shares that add up to at most 100 percent and, once the primary
/// sale has happened, a royalty of at most 10000 basis points: the creators get at most
/// what is left after the market fee, and the market authority, the referrer and the
/// kick back to the creators together at most the market fee.
pub proof fn lemma_payout_within_price(
    a: Seq<AccountInfoView>,
    pays: Seq<Payment>,
    market_fee_basis_point: u64,
    referral_share: u64,
    kick_back: u64,
    m: MetadataView,
    pb: PassBookView,
    store: StoreView,
    now: i64,
    i: int,
)
    requires
        distribute_spec(a, pays, market_fee_basis_point, referral_share, kick_back, m, pb, store, now, i) is Ok,
        listed_shares(listed_creators(m), listed_creators(m).len()) <= 100,
        m.primary_sale_happened ==> m.seller_fee_basis_points <= 10000,
    ensures
        total_paid(distribute_spec(a, pays, market_fee_basis_point, referral_share, kick_back, m, pb, store, now, i)->Ok_0.1)
            <= total_paid(pays) + pb.price,
{
    let creators = listed_creators(m);
    let infos = creator_infos(creators, i);
    lemma_listed_shares(creators, i, creators.len());
    let for_creators = shares_less_points_spec(pb.price, market_fee_basis_point)->Ok_0;
    lemma_points_split_exactly(pb.price, market_fee_basis_point);
    let for_market = amount_for_points_spec(pb.price, market_fee_basis_point)->Ok_0;
    lemma_creators_paid_bound(a, pays, for_creators, royalty_points(m), infos, pb.price_mint);
    let (a1, p1) = creators_paid(a, pays, for_creators, royalty_points(m), infos, pb.price_mint)->Ok_0;
    let j0 = i + 2 * creators.len();
    let (a2, p2, j) = market_paid(a1, p1, for_market, referral_share, pb, j0)->Ok_0;
    lemma_two_parts(for_market, referral_share);
    // The market authority's part.
    let market_part: int = if pb.gate_keeper is Some {
        ((for_market * (100 - referral_share) as u64) / 100) as int
    } else {
        0
    };
    if let Some(mk) = pb.gate_keeper {
        let x = shares_spec(for_market, (100 - referral_share) as u64)->Ok_0;
        lemma_pay_adds(a1, p1, x, mk, pb.price_mint, j0 + 1, j0 + 2);
    }
    assert(total_paid(p2) == total_paid(p1) + market_part);
    // The referrer's part and the kick back.
    let out = referral_paid(a2, p2, for_market, referral_share, kick_back, infos, pb, store, now, j)->Ok_0.1;
    if let Some(r) = store.referrer {
        if !(store.referral_end_date matches Some(end) && now as u64 > end) {
            let for_referrer = shares_spec(for_market, referral_share)->Ok_0;
            let kick = shares_spec(for_referrer, kick_back)->Ok_0;
            let x = shares_spec(for_referrer, (100 - kick_back) as u64)->Ok_0;
            lemma_pay_adds(a2, p2, x, r, pb.price_mint, j + 1, j + 2);
            let (b, q) = pay_spec(a2, p2, x, r, pb.price_mint, j + 1, j + 2)->Ok_0;
            lemma_creators_paid_bound(b, q, kick, None, infos, pb.price_mint);
            lemma_two_parts(for_referrer, kick_back);
            assert(total_paid(out) <= total_paid(p2) + for_referrer);
        }
    }
    assert(total_paid(out) <= total_paid(p2) + (for_market * referral_share) / 100);
}

/// `q` is `pays` with more payments after it, each to an account in `lo..hi`.
pub open spec fn paid_within(q: Seq<Payment>, pays: Seq<Payment>, lo: int, hi: int) -> bool {
    &&& pays.len() <= q.len()
    &&& q.subrange(0, pays.len() as int) == pays
    &&& forall|j: int| pays.len() <= j < q.len() ==> lo <= #[trigger] q[j].to < hi
}

/// `b` is `a` with the accounts before `a[lo]` as they were.
pub open spec fn kept_below(b: Seq<AccountInfoView>, a: Seq<AccountInfoView>, lo: int) -> bool {
    &&& b.len() == a.len()
    &&& forall|k: int| 0 <= k < lo && k < a.len() ==> #[trigger] b[k] == a[k]
}

proof fn lemma_paid_within_trans(q2: Seq<Payment>, q1: Seq<Payment>, q0: Seq<Payment>, lo: int, hi: int)
    requires
        paid_within(q1, q0, lo, hi),
        paid_within(q2, q1, lo, hi),
    ensures
        paid_within(q2, q0, lo, hi),
{
    assert(q2.subrange(0, q0.len() as int) =~= q1.subrange(0, q0.len() as int));
    assert forall|j: int| q0.len() <= j < q2.len() implies lo <= #[trigger] q2[j].to < hi by {
        if j < q1.len() {
            assert(q2[j] == q2.subrange(0, q1.len() as int)[j]);
        }
    }
}

proof fn lemma_paid_within_refl(q: Seq<Payment>, lo: int, hi: int)
    ensures
        paid_within(q, q, lo, hi),
{
    assert(q.subrange(0, q.len() as int) =~= q);
}

proof fn lemma_pay_within(
    a: Seq<AccountInfoView>,
    pays: Seq<Payment>,
    amount: u64,
    authority: Seq<u8>,
    price_mint: Seq<u8>,
    p: int,
    t: int,
    lo: int,
    hi: int,
)
    requires
        pay_spec(a, pays, amount, authority, price_mint, p, t) is Ok,
        lo <= t < hi,
        0 <= t <= usize::MAX,
        0 <= lo <= p < a.len(),
    ensures
        paid_within(pay_spec(a, pays, amount, authority, price_mint, p, t)->Ok_0.1, pays, lo, hi),
        kept_below(pay_spec(a, pays, amount, authority, price_mint, p, t)->Ok_0.0, a, lo),
{
    let q = pay_spec(a, pays, amount, authority, price_mint, p, t)->Ok_0.1;
    assert(q.subrange(0, pays.len() as int) =~= pays);
    let b = pay_spec(a, pays, amount, authority, price_mint, p, t)->Ok_0.0;
    let v = payout_unpack(a[p].data)->Ok_0;
    let w = PayoutView { cash_in: (v.cash_in + amount) as u64, ..v };
    let d = packed(a[p].data, payout_bytes(w), MAX_PAYOUT_LEN)->Ok_0;
    assert(b == with_data(a, p, d));
    assert forall|k: int| 0 <= k < lo && k < a.len() implies #[trigger] b[k] == a[k] by {
        assert(k != p);
    }
}

/// Paying the first `k` creators pays only into their token accounts.
proof fn lemma_pay_creators_within(
    a: Seq<AccountInfoView>,
    pays: Seq<Payment>,
    amount: u64,
    by_points: Option<u64>,
    creators: Seq<PayoutInfoView>,
    price_mint: Seq<u8>,
    k: nat,
    lo: int,
    hi: int,
)
    requires
        pay_creators(a, pays, amount, by_points, creators, price_mint, k) is Ok,
        k <= creators.len(),
        forall|c: int| 0 <= c < creators.len() ==> lo <= #[trigger] creators[c].token_account < hi,
        forall|c: int| 0 <= c < creators.len() ==> lo <= #[trigger] creators[c].payout_account < a.len(),
        0 <= lo,
    ensures
        paid_within(pay_creators(a, pays, amount, by_points, creators, price_mint, k)->Ok_0.1, pays, lo, hi),
        kept_below(pay_creators(a, pays, amount, by_points, creators, price_mint, k)->Ok_0.0, a, lo),
    decreases k,
{
    if k == 0 {
        lemma_paid_within_refl(pays, lo, hi);
    } else {
        lemma_pay_creators_within(a, pays, amount, by_points, creators, price_mint, (k - 1) as nat, lo, hi);
        let (b, q) = pay_creators(a, pays, amount, by_points, creators, price_mint, (k - 1) as nat)->Ok_0;
        let c = creators[k - 1];
        let x = creator_amount(amount, by_points, c.share)->Ok_0;
        lemma_pay_within(b, q, x, c.authority, price_mint, c.payout_account as int, c.token_account as int, lo, hi);
        lemma_paid_within_trans(
            pay_creators(a, pays, amount, by_points, creators, price_mint, k)->Ok_0.1,
            q,
            pays,
            lo,
            hi,
        );
    }
}

proof fn lemma_creators_paid_within(
    a: Seq<AccountInfoView>,
    pays: Seq<Payment>,
    amount: u64,
    by_points: Option<u64>,
    creators: Seq<PayoutInfoView>,
    price_mint: Seq<u8>,
    lo: int,
    hi: int,
)
    requires
        creators_paid(a, pays, amount, by_points, creators, price_mint) is Ok,
        forall|c: int| 0 <= c < creators.len() ==> lo <= #[trigger] creators[c].token_account < hi,
        forall|c: int| 0 <= c < creators.len() ==> lo <= #[trigger] creators[c].payout_account < a.len(),
        0 <= lo,
    ensures
        paid_within(creators_paid(a, pays, amount, by_points, creators, price_mint)->Ok_0.1, pays, lo, hi),
        kept_below(creators_paid(a, pays, amount, by_points, creators, price_mint)->Ok_0.0, a, lo),
{
    if amount == 0 {
        lemma_paid_within_refl(pays, lo, hi);
    } else {
        lemma_pay_creators_within(a, pays, amount, by_points, creators, price_mint, creators.len(), lo, hi);
    }
}

/// The price is paid only into accounts listed from `a[i]` on: the payout token accounts
/// given for the creators, the market authority and the referrer, never one of the
/// accounts before them; and the accounts before them are left as they were.
pub proof fn lemma_payout_goes_to_listed_accounts(
    a: Seq<AccountInfoView>,
    pays: Seq<Payment>,
    market_fee_basis_point: u64,
    referral_share: u64,
    kick_back: u64,
    m: MetadataView,
    pb: PassBookView,
    store: StoreView,
    now: i64,
    i: int,
)
    requires
        distribute_spec(a, pays, market_fee_basis_point, referral_share, kick_back, m, pb, store, now, i) is Ok,
        0 <= i,
        a.len() <= usize::MAX,
    ensures
        paid_within(
            distribute_spec(a, pays, market_fee_basis_point, referral_share, kick_back, m, pb, store, now, i)->Ok_0.1,
            pays,
            i,
            a.len() as int,
        ),
        kept_below(
            distribute_spec(a, pays, market_fee_basis_point, referral_share, kick_back, m, pb, store, now, i)->Ok_0.0,
            a,
            i,
        ),
{
    let n = a.len() as int;
    let creators = listed_creators(m);
    let infos = creator_infos(creators, i);
    assert forall|c: int| 0 <= c < infos.len() implies i <= #[trigger] infos[c].token_account < n by {
        assert(i + 2 * c + 1 < i + 2 * creators.len());
    }
    assert forall|c: int| 0 <= c < infos.len() implies i <= #[trigger] infos[c].payout_account < n by {
        assert(i + 2 * c + 1 < i + 2 * creators.len());
    }
    let for_creators = shares_less_points_spec(pb.price, market_fee_basis_point)->Ok_0;
    let for_market = amount_for_points_spec(pb.price, market_fee_basis_point)->Ok_0;
    lemma_creators_paid_within(a, pays, for_creators, royalty_points(m), infos, pb.price_mint, i, n);
    let (a1, p1) = creators_paid(a, pays, for_creators, royalty_points(m), infos, pb.price_mint)->Ok_0;
    let j0 = i + 2 * creators.len();
    let (a2, p2, j) = market_paid(a1, p1, for_market, referral_share, pb, j0)->Ok_0;
    if let Some(mk) = pb.gate_keeper {
        let x = shares_spec(for_market, (100 - referral_share) as u64)->Ok_0;
        lemma_pay_within(a1, p1, x, mk, pb.price_mint, j0 + 1, j0 + 2, i, n);
        lemma_paid_within_trans(p2, p1, pays, i, n);
    } else {
        assert(p2 == p1);
    }
    let out = referral_paid(a2, p2, for_market, referral_share, kick_back, infos, pb, store, now, j)->Ok_0.1;
    if let Some(r) = store.referrer {
        if !(store.referral_end_date matches Some(end) && now as u64 > end) {
            let for_referrer = shares_spec(for_market, referral_share)->Ok_0;
            let kick = shares_spec(for_referrer, kick_back)->Ok_0;
            let x = shares_spec(for_referrer, (100 - kick_back) as u64)->Ok_0;
            lemma_pay_within(a2, p2, x, r, pb.price_mint, j + 1, j + 2, i, n);
            let (b, q) = pay_spec(a2, p2, x, r, pb.price_mint, j + 1, j + 2)->Ok_0;
            lemma_creators_paid_within(b, q, kick, None, infos, pb.price_mint, i, n);
            lemma_paid_within_trans(out, q, p2, i, n);
            lemma_paid_within_trans(out, p2, pays, i, n);
        } else {
            assert(out == p2);
        }
    } else {
        assert(out == p2);
    }
}

/// Every payment of a purchase goes to an account after the eighteen that every purchase
/// lists first: the buyer pays only into the payout token accounts given for the
/// creators, the market authority and the referrer.
pub proof fn lemma_purchase_pays_listed_accounts(program_id: Seq<u8>, a: Seq<AccountInfoView>, args: BuyPassArgs, now: i64)
    requires
        buy_outcome(program_id, a, args, now) matches Some(Ok(_)),
        a.len() <= usize::MAX,
    ensures
        forall|j: int|
            #![trigger buy_outcome(program_id, a, args, now)->Some_0->Ok_0.1.payments[j]]
            0 <= j < buy_outcome(program_id, a, args, now)->Some_0->Ok_0.1.payments.len() ==> 18
                <= buy_outcome(program_id, a, args, now)->Some_0->Ok_0.1.payments[j].to < a.len(),
{
    let c = buy_checks(program_id, a)->Some_0->Ok_0;
    let bump = trade_history_address(program_id, a[0].key, a[3].key)->Some_0.1;
    let (th, a1, na) = trade_history_stage(program_id, a, bump)->Ok_0;
    assert(a1.len() == a.len());
    lemma_payout_goes_to_listed_accounts(
        a1,
        seq![],
        args.market_fee_basis_point as u64,
        args.referral_share as u64,
        args.referral_kick_back_share as u64,
        c.metadata,
        c.pass_book,
        c.store,
        now,
        18,
    );
}

/// A purchase pays out at most the price of the pass book, where the master metadata's
/// creators have shares that add up to at most 100 percent and, once its primary sale
/// has happened, a royalty of at most 10000 basis points.
pub proof fn lemma_purchase_within_price(program_id: Seq<u8>, a: Seq<AccountInfoView>, args: BuyPassArgs, now: i64)
    requires
        buy_outcome(program_id, a, args, now) matches Some(Ok(_)),
        a.len() >= 10,
        metadata_of(a[9].data) matches Some(t) && listed_shares(listed_creators(metadata_view_of(t)), listed_creators(
            metadata_view_of(t),
        ).len()) <= 100 && (t.3 ==> t.1 <= 10000),
    ensures
        total_paid(buy_outcome(program_id, a, args, now)->Some_0->Ok_0.1.payments) <= pass_book_unpack(
            a[0].data,
        )->Ok_0.price,
{
    let c = buy_checks(program_id, a)->Some_0->Ok_0;
    let bump = trade_history_address(program_id, a[0].key, a[3].key)->Some_0.1;
    let (th, a1, na) = trade_history_stage(program_id, a, bump)->Ok_0;
    lemma_payout_within_price(
        a1,
        seq![],
        args.market_fee_basis_point as u64,
        args.referral_share as u64,
        args.referral_kick_back_share as u64,
        c.metadata,
        c.pass_book,
        c.store,
        now,
        18,
    );
}

} // verus!
