use borsh::BorshSerialize;
use nft_pass_book::account_info::AccountInfo;
use nft_pass_book::error::{NFTPassError, ProgramError};
use nft_pass_book::instruction::{BuyPassArgs, EditPassBookArgs, InitPassBookArgs};
use nft_pass_book::pda::{
    associated_token_address, find_pass_store_program_address, find_payout_program_address,
    find_trade_history_program_address,
};
use nft_pass_book::processor::activate_pass_book::{activate_pass_book, deactivate_pass_book};
use nft_pass_book::master_pass::{check_pass_type, PassType};
use nft_pass_book::processor::buy_pass_book::{buy, pay_account, Payment};
use nft_pass_book::token::assert_initialized;
use nft_pass_book::processor::delete_pass_book::delete_pass_book;
use nft_pass_book::processor::edit_pass_book::edit_pass_book;
use nft_pass_book::processor::init_pass_book::init_pass_book;
use nft_pass_book::pubkey::{id, Pubkey};
use nft_pass_book::state::pass_book::MAX_PASS_BOOK_LEN;
use nft_pass_book::state::{AccountType, PassBook, PassBookState, Payout, Store, TradeHistory};

fn key(n: u8) -> Pubkey {
    let mut b = [0u8; 32];
    b[0] = n;
    b[31] = 7;
    Pubkey(b)
}

fn account(k: Pubkey, owner: Pubkey, is_signer: bool, lamports: u64, data: Vec<u8>) -> AccountInfo {
    AccountInfo { key: k, owner, is_signer, is_writable: true, lamports, data }
}

fn native_mint() -> Pubkey {
    Pubkey(spl_token::native_mint::id().to_bytes())
}

fn token_program() -> Pubkey {
    Pubkey(spl_token::id().to_bytes())
}

fn metadata_program() -> Pubkey {
    Pubkey(mpl_token_metadata::ID.to_bytes())
}

fn system() -> Pubkey {
    Pubkey([0u8; 32])
}

struct Parties {
    creator: Pubkey,
    market: Pubkey,
    referrer: Pubkey,
}

fn parties() -> Parties {
    Parties { creator: key(1), market: key(2), referrer: key(3) }
}

fn payout_key(authority: &Pubkey) -> Pubkey {
    find_payout_program_address(&id(), authority, &native_mint()).unwrap().0
}

fn init_args(name: &str, mutable: bool, price: u64) -> InitPassBookArgs {
    InitPassBookArgs {
        name: String::from(name),
        description: String::from("Pack description"),
        uri: String::from("some link to storage"),
        mutable,
        access: Some(30),
        max_uses: Some(30),
        max_supply: Some(5),
        price,
        has_referrer: true,
        has_market_authority: true,
        referral_end_date: None,
    }
}

/// The accounts of an InitPassBook instruction priced in native SOL, with a market
/// authority and a referrer.
fn init_accounts(p: &Parties) -> Vec<AccountInfo> {
    let pid = id();
    let store = find_pass_store_program_address(&pid, &p.creator).unwrap().0;
    let creator_payout = payout_key(&p.creator);
    let market_payout = payout_key(&p.market);
    let referrer_payout = payout_key(&p.referrer);
    vec![
        account(key(10), system(), true, 0, vec![]),
        account(store, system(), false, 0, vec![]),
        account(p.creator, system(), true, 1_000_000_000, vec![]),
        account(p.creator, system(), true, 1_000_000_000, vec![]),
        account(native_mint(), token_program(), false, 0, vec![]),
        account(key(20), system(), false, 0, vec![]),
        account(key(21), system(), false, 0, vec![]),
        account(system(), system(), false, 0, vec![]),
        account(creator_payout, system(), false, 0, vec![]),
        account(creator_payout, system(), false, 0, vec![]),
        account(p.market, system(), true, 0, vec![]),
        account(market_payout, system(), false, 0, vec![]),
        account(market_payout, system(), false, 0, vec![]),
        account(p.referrer, system(), false, 0, vec![]),
        account(referrer_payout, system(), false, 0, vec![]),
        account(referrer_payout, system(), false, 0, vec![]),
    ]
}

fn pass_book_of(a: &AccountInfo) -> PassBook {
    PassBook::unpack(&a.data).unwrap()
}

/// Creates a pass book and gives the accounts afterwards.
fn created(p: &Parties, mutable: bool, price: u64) -> Vec<AccountInfo> {
    let mut accounts = init_accounts(p);
    let new_accounts = init_pass_book(&id(), &mut accounts, init_args("Pass Name", mutable, price), 1_700_000_000)
        .unwrap()
        .unwrap();
    let created: Vec<usize> = new_accounts.iter().map(|n| n.index).collect();
    assert_eq!(created, vec![1, 0, 8, 11, 14]);
    accounts
}

#[test]
fn init_pass_book_success() {
    let p = parties();
    let accounts = created(&p, true, 0);
    let pass_book = pass_book_of(&accounts[0]);
    assert_eq!(pass_book.name.trim_matches(char::from(0)), "Pass Name");
    assert_eq!(pass_book.uri.trim_matches(char::from(0)), "some link to storage");
    assert_eq!(pass_book.description.trim_matches(char::from(0)), "Pack description");
    assert_eq!(pass_book.uri.len(), 200);
    assert_eq!(pass_book.description.len(), 500);
    assert_eq!(pass_book.account_type, AccountType::PassBook);
    assert!(pass_book.mutable);
    assert_eq!(pass_book.pass_state, PassBookState::NotActivated);
    assert_eq!(pass_book.authority, p.creator);
    assert_eq!(pass_book.gate_keeper, Some(p.market));
    assert_eq!(pass_book.created_at, 1_700_000_000);
    assert_eq!(pass_book.duration, Some(30));
    assert_eq!(pass_book.supply, 0);
    assert_eq!(accounts[0].data.len(), MAX_PASS_BOOK_LEN);
    let store = Store::unpack(&accounts[1].data).unwrap();
    assert_eq!(store.pass_book_count, 1);
    assert_eq!(store.referrer, Some(p.referrer));
    assert_eq!(store.authority, p.creator);
    let payout = Payout::unpack(&accounts[8].data).unwrap();
    assert_eq!(payout.authority, p.creator);
    assert_eq!(payout.mint, native_mint());
    assert_eq!(payout.cash_in, 0);
}

#[test]
fn init_pass_book_failure_already_initialized() {
    let p = parties();
    let mut accounts = created(&p, true, 0);
    let before = accounts.clone();
    let r = init_pass_book(&id(), &mut accounts, init_args("Pass Name", true, 0), 1_700_000_000).unwrap();
    assert_eq!(r.err(), Some(ProgramError::AccountAlreadyInitialized));
    assert_eq!(accounts, before);
}

#[test]
fn init_pass_book_checks_arguments() {
    let p = parties();
    let long_name = "a name that is much longer than thirty two bytes";
    let mut accounts = init_accounts(&p);
    let r = init_pass_book(&id(), &mut accounts, init_args(long_name, true, 0), 0).unwrap();
    assert_eq!(r.err(), Some(ProgramError::Custom(NFTPassError::NameTooLong.code())));
    let mut args = init_args("Pass Name", true, 0);
    args.max_supply = Some(0);
    let r = init_pass_book(&id(), &mut accounts, args, 0).unwrap();
    assert_eq!(r.err(), Some(ProgramError::Custom(NFTPassError::WrongMaxSupply.code())));
    let mut args = init_args("Pass Name", true, 0);
    args.max_uses = Some(0);
    let r = init_pass_book(&id(), &mut accounts, args, 0).unwrap();
    assert_eq!(r.err(), Some(ProgramError::Custom(NFTPassError::WrongDuration.code())));
}

#[test]
fn init_pass_book_needs_the_store_address() {
    let p = parties();
    let mut accounts = init_accounts(&p);
    accounts[1].key = key(99);
    let r = init_pass_book(&id(), &mut accounts, init_args("Pass Name", true, 0), 0).unwrap();
    assert_eq!(r.err(), Some(ProgramError::Custom(NFTPassError::InvalidStoreKey.code())));
    let mut accounts = init_accounts(&p);
    accounts[0].is_signer = false;
    let r = init_pass_book(&id(), &mut accounts, init_args("Pass Name", true, 0), 0).unwrap();
    assert_eq!(r.err(), Some(ProgramError::MissingRequiredSignature));
}

#[test]
fn activate_pass_book_success() {
    let p = parties();
    let mut accounts = created(&p, true, 0);
    accounts[0].owner = id();
    let mut ix_accounts = vec![accounts[0].clone(), accounts[2].clone()];
    activate_pass_book(&id(), &mut ix_accounts).unwrap();
    assert_eq!(pass_book_of(&ix_accounts[0]).pass_state, PassBookState::Activated);
}

#[test]
fn activate_pass_book_failure() {
    let p = parties();
    let mut accounts = created(&p, true, 0);
    accounts[0].owner = id();
    let mut ix_accounts = vec![accounts[0].clone(), accounts[2].clone()];
    activate_pass_book(&id(), &mut ix_accounts).unwrap();
    let r = activate_pass_book(&id(), &mut ix_accounts);
    assert_eq!(r, Err(ProgramError::Custom(NFTPassError::PassBookIsAlreadyActivated.code())));
    deactivate_pass_book(&id(), &mut ix_accounts).unwrap();
    assert_eq!(pass_book_of(&ix_accounts[0]).pass_state, PassBookState::Deactivated);
}

#[test]
fn edit_pass_book_success() {
    let p = parties();
    let accounts = created(&p, true, 0);
    let mut ix_accounts = vec![accounts[0].clone(), accounts[2].clone()];
    let args = EditPassBookArgs {
        name: Some(String::from("New Pass Name")),
        description: None,
        uri: None,
        price: None,
        mutable: Some(false),
    };
    edit_pass_book(&id(), &mut ix_accounts, args).unwrap().unwrap();
    let pass_book = pass_book_of(&ix_accounts[0]);
    assert_eq!(pass_book.name.trim_matches(char::from(0)), "New Pass Name");
    assert!(!pass_book.mutable);
}

#[test]
fn edit_pass_book_failure() {
    let p = parties();
    let accounts = created(&p, true, 0);
    let mut ix_accounts = vec![accounts[0].clone(), accounts[2].clone()];
    let args = EditPassBookArgs {
        name: Some(String::from("Pass Name")),
        description: None,
        uri: None,
        price: None,
        mutable: Some(false),
    };
    let r = edit_pass_book(&id(), &mut ix_accounts, args).unwrap();
    assert_eq!(r, Err(ProgramError::Custom(NFTPassError::CantSetTheSameValue.code())));
}

#[test]
fn fail_immutable() {
    let p = parties();
    let accounts = created(&p, false, 0);
    let mut ix_accounts = vec![accounts[0].clone(), accounts[2].clone()];
    let args = EditPassBookArgs {
        name: Some(String::from("New Pass Name")),
        description: None,
        uri: None,
        price: None,
        mutable: None,
    };
    let r = edit_pass_book(&id(), &mut ix_accounts, args).unwrap();
    assert_eq!(r, Err(ProgramError::Custom(NFTPassError::ImmutablePassBook.code())));
}

#[test]
fn delete_pass_book_success() {
    let p = parties();
    let mut accounts = created(&p, true, 0);
    accounts[0].owner = id();
    accounts[0].lamports = 5_000;
    let refunder = account(key(30), system(), false, 100, vec![]);
    let mut ix_accounts = vec![accounts[0].clone(), accounts[2].clone(), refunder];
    delete_pass_book(&id(), &mut ix_accounts).unwrap().unwrap();
    assert_eq!(ix_accounts[0].lamports, 0);
    assert_eq!(ix_accounts[2].lamports, 5_100);
}

#[test]
fn delete_pass_book_needs_the_authority() {
    let p = parties();
    let mut accounts = created(&p, true, 0);
    accounts[0].owner = id();
    let refunder = account(key(30), system(), false, 100, vec![]);
    let mut ix_accounts = vec![accounts[0].clone(), accounts[13].clone(), refunder];
    ix_accounts[1].is_signer = true;
    let r = delete_pass_book(&id(), &mut ix_accounts).unwrap();
    assert_eq!(r, Err(ProgramError::Custom(NFTPassError::InvalidCreatorKey.code())));
}

fn metadata_bytes(mint: &Pubkey, creator: &Pubkey) -> Vec<u8> {
    let m = mpl_token_metadata::accounts::Metadata {
        key: mpl_token_metadata::types::Key::MetadataV1,
        update_authority: solana_program::pubkey::Pubkey::new_from_array(creator.0),
        mint: solana_program::pubkey::Pubkey::new_from_array(mint.0),
        name: String::from("Pass Name"),
        symbol: String::from("PASS"),
        uri: String::from("some link to storage"),
        seller_fee_basis_points: 500,
        creators: Some(vec![mpl_token_metadata::types::Creator {
            address: solana_program::pubkey::Pubkey::new_from_array(creator.0),
            verified: true,
            share: 100,
        }]),
        primary_sale_happened: false,
        is_mutable: true,
        edition_nonce: None,
        token_standard: None,
        collection: None,
        uses: None,
        collection_details: None,
        programmable_config: None,
    };
    m.try_to_vec().unwrap()
}

fn master_edition_bytes(supply: u64) -> Vec<u8> {
    let e = mpl_token_metadata::accounts::MasterEdition {
        key: mpl_token_metadata::types::Key::MasterEditionV2,
        supply,
        max_supply: Some(5),
    };
    e.try_to_vec().unwrap()
}

fn token_account_bytes(mint: &Pubkey, owner: &Pubkey) -> Vec<u8> {
    let mut d = vec![0u8; 165];
    d[0..32].copy_from_slice(&mint.0);
    d[32..64].copy_from_slice(&owner.0);
    d[108] = 1;
    d
}

/// The accounts of a purchase of the pass book created in `accounts`.
fn buy_accounts(p: &Parties, accounts: &[AccountInfo], buyer: &Pubkey) -> Vec<AccountInfo> {
    let pid = id();
    let pass_book_key = accounts[0].key;
    let history = find_trade_history_program_address(&pid, &pass_book_key, buyer).unwrap().0;
    let mut pass_book = accounts[0].clone();
    pass_book.owner = pid;
    let mut store = accounts[1].clone();
    store.owner = pid;
    let mut creator_payout = accounts[8].clone();
    creator_payout.owner = pid;
    let mut market_payout = accounts[11].clone();
    market_payout.owner = pid;
    let mut referrer_payout = accounts[14].clone();
    referrer_payout.owner = pid;
    vec![
        pass_book,
        store,
        account(key(40), token_program(), false, 0, vec![]),
        account(*buyer, system(), true, 50_000_000, vec![]),
        account(*buyer, system(), true, 50_000_000, vec![]),
        account(*buyer, system(), true, 50_000_000, vec![]),
        account(key(41), system(), false, 0, vec![]),
        account(key(42), system(), false, 0, vec![]),
        account(key(43), token_program(), false, 0, vec![]),
        account(key(44), metadata_program(), false, 0, metadata_bytes(&native_mint(), &p.creator)),
        account(key(45), metadata_program(), false, 0, master_edition_bytes(0)),
        account(key(46), system(), false, 0, vec![]),
        account(key(47), token_program(), false, 0, token_account_bytes(&key(43), buyer)),
        account(history, system(), false, 0, vec![]),
        account(key(20), system(), false, 0, vec![]),
        account(key(21), system(), false, 0, vec![]),
        account(system(), system(), false, 0, vec![]),
        account(token_program(), system(), false, 0, vec![]),
        creator_payout.clone(),
        creator_payout,
        account(p.market, system(), true, 0, vec![]),
        market_payout.clone(),
        market_payout,
        account(p.referrer, system(), false, 0, vec![]),
        referrer_payout.clone(),
        referrer_payout,
    ]
}

#[test]
fn success_buy_with_native_token() {
    let p = parties();
    let accounts = created(&p, true, 10_000_000);
    let buyer = key(50);
    let mut ix_accounts = buy_accounts(&p, &accounts, &buyer);
    let args = BuyPassArgs { market_fee_basis_point: 250, referral_share: 50, referral_kick_back_share: 0 };
    let plan = buy(&id(), &mut ix_accounts, args, 1_700_000_100).unwrap().unwrap();
    assert_eq!(plan.edition, 1);
    let paid: Vec<(usize, u64)> = plan.payments.iter().map(|x| (x.to, x.amount)).collect();
    assert_eq!(paid, vec![(19, 9_750_000), (22, 125_000), (25, 125_000)]);
    let created: Vec<usize> = plan.new_accounts.iter().map(|n| n.index).collect();
    assert_eq!(created, vec![13]);
    assert_eq!(Payout::unpack(&ix_accounts[18].data).unwrap().cash_in, 9_750_000);
    assert_eq!(Payout::unpack(&ix_accounts[21].data).unwrap().cash_in, 125_000);
    assert_eq!(Payout::unpack(&ix_accounts[24].data).unwrap().cash_in, 125_000);
    let history = TradeHistory::unpack(&ix_accounts[13].data).unwrap();
    assert_eq!(history.already_bought, 1);
    assert_eq!(history.wallet, buyer);
    assert_eq!(pass_book_of(&ix_accounts[0]).supply, 1);
    assert_eq!(Store::unpack(&ix_accounts[1].data).unwrap().pass_count, 1);
}

#[test]
fn buy_needs_the_market_authority_to_sign() {
    let p = parties();
    let accounts = created(&p, true, 10_000_000);
    let mut ix_accounts = buy_accounts(&p, &accounts, &key(50));
    ix_accounts[20].is_signer = false;
    let before = ix_accounts.clone();
    let args = BuyPassArgs { market_fee_basis_point: 250, referral_share: 50, referral_kick_back_share: 0 };
    let r = buy(&id(), &mut ix_accounts, args, 0).unwrap();
    assert_eq!(r.err(), Some(ProgramError::MissingRequiredSignature));
    assert_eq!(ix_accounts, before);
}

#[test]
fn buy_rejects_a_referral_share_over_a_hundred() {
    let p = parties();
    let accounts = created(&p, true, 10_000_000);
    let mut ix_accounts = buy_accounts(&p, &accounts, &key(50));
    let args = BuyPassArgs { market_fee_basis_point: 250, referral_share: 101, referral_kick_back_share: 0 };
    let r = buy(&id(), &mut ix_accounts, args, 0).unwrap();
    assert_eq!(r.err(), Some(ProgramError::Custom(NFTPassError::WrongReferralShare.code())));
}

#[test]
fn buy_after_the_referral_ends_pays_no_referrer() {
    let p = parties();
    let mut accounts = init_accounts(&p);
    let mut args = init_args("Pass Name", true, 10_000_000);
    args.referral_end_date = Some(1_000);
    init_pass_book(&id(), &mut accounts, args, 0).unwrap().unwrap();
    let mut ix_accounts = buy_accounts(&p, &accounts, &key(50));
    ix_accounts.truncate(23);
    let args = BuyPassArgs { market_fee_basis_point: 250, referral_share: 50, referral_kick_back_share: 0 };
    let plan = buy(&id(), &mut ix_accounts, args, 2_000).unwrap().unwrap();
    let paid: Vec<(usize, u64)> = plan.payments.iter().map(|x| (x.to, x.amount)).collect();
    assert_eq!(paid, vec![(19, 9_750_000), (22, 125_000)]);
}

#[test]
fn buy_with_a_kick_back_pays_the_creators_part_of_the_referral() {
    let p = parties();
    let accounts = created(&p, true, 10_000_000);
    let mut ix_accounts = buy_accounts(&p, &accounts, &key(50));
    let args = BuyPassArgs { market_fee_basis_point: 250, referral_share: 50, referral_kick_back_share: 20 };
    let plan = buy(&id(), &mut ix_accounts, args, 0).unwrap().unwrap();
    let paid: Vec<(usize, u64)> = plan.payments.iter().map(|x| (x.to, x.amount)).collect();
    assert_eq!(paid, vec![(19, 9_750_000), (22, 125_000), (25, 100_000), (19, 25_000)]);
    let total: u64 = plan.payments.iter().map(|x| x.amount).sum();
    assert_eq!(total, 10_000_000);
    assert_eq!(Payout::unpack(&ix_accounts[18].data).unwrap().cash_in, 9_775_000);
}

#[test]
fn init_pass_book_failure() {
    let p = parties();
    let mut accounts = init_accounts(&p);
    let fake_store = find_pass_store_program_address(&id(), &key(77)).unwrap().0;
    accounts[1].key = fake_store;
    let mut args = init_args("Pass Name", true, 0);
    args.max_supply = Some(10);
    let r = init_pass_book(&id(), &mut accounts, args, 0).unwrap();
    assert_eq!(r.err(), Some(ProgramError::Custom(NFTPassError::InvalidStoreKey.code())));
}

fn spl_mint() -> Pubkey {
    key(60)
}

/// The accounts of an InitPassBook instruction priced in an SPL token: each payout
/// account's treasury is its associated token account.
fn spl_init_accounts(p: &Parties) -> Vec<AccountInfo> {
    let mint = spl_mint();
    let mut accounts = init_accounts(p);
    accounts[4] = account(mint, token_program(), false, 0, vec![]);
    for (authority, at) in [(p.creator, 8usize), (p.market, 11), (p.referrer, 14)] {
        let payout = find_payout_program_address(&id(), &authority, &mint).unwrap().0;
        let treasury = associated_token_address(&payout, &mint).unwrap();
        accounts[at] = account(payout, system(), false, 0, vec![]);
        accounts[at + 1] = account(treasury, token_program(), false, 0, token_account_bytes(&mint, &payout));
    }
    accounts
}

#[test]
fn success_spl_token() {
    let p = parties();
    let mut accounts = spl_init_accounts(&p);
    init_pass_book(&id(), &mut accounts, init_args("Pass Name", true, 10_000_000), 0).unwrap().unwrap();
    let pass_book = pass_book_of(&accounts[0]);
    assert_eq!(pass_book.name.trim_matches(char::from(0)), "Pass Name");
    assert_eq!(pass_book.account_type, AccountType::PassBook);
    assert!(pass_book.mutable);
    assert_eq!(pass_book.pass_state, PassBookState::NotActivated);
    assert_eq!(pass_book.mint, spl_mint());
    assert_eq!(pass_book.authority, p.creator);
    let payout = Payout::unpack(&accounts[8].data).unwrap();
    assert_eq!(payout.treasury_holder, accounts[9].key);
}

#[test]
fn spl_init_needs_the_associated_token_account() {
    let p = parties();
    let mut accounts = spl_init_accounts(&p);
    accounts[9].key = key(61);
    let r = init_pass_book(&id(), &mut accounts, init_args("Pass Name", true, 0), 0).unwrap();
    assert_eq!(r.err(), Some(ProgramError::Custom(NFTPassError::InvalidPayerTokenAccount.code())));
    let mut accounts = spl_init_accounts(&p);
    accounts[9].data[108] = 0;
    let r = init_pass_book(&id(), &mut accounts, init_args("Pass Name", true, 0), 0).unwrap();
    assert_eq!(r.err(), Some(ProgramError::UninitializedAccount));
}

#[test]
fn success_buy_with_spl_token() {
    let p = parties();
    let mint = spl_mint();
    let mut accounts = spl_init_accounts(&p);
    init_pass_book(&id(), &mut accounts, init_args("Pass Name", true, 10_000_000), 0).unwrap().unwrap();
    let buyer = key(50);
    let mut ix_accounts = buy_accounts(&p, &accounts, &buyer);
    ix_accounts[4] = account(key(51), token_program(), false, 0, token_account_bytes(&mint, &buyer));
    ix_accounts[9].data = metadata_bytes(&mint, &p.creator);
    for (payout, token) in [(8usize, 19usize), (11, 22), (14, 25)] {
        ix_accounts[token] = accounts[payout + 1].clone();
    }
    let args = BuyPassArgs { market_fee_basis_point: 250, referral_share: 50, referral_kick_back_share: 0 };
    let plan = buy(&id(), &mut ix_accounts, args, 0).unwrap().unwrap();
    let paid: Vec<(usize, u64)> = plan.payments.iter().map(|x| (x.to, x.amount)).collect();
    assert_eq!(paid, vec![(19, 9_750_000), (22, 125_000), (25, 125_000)]);
    assert_eq!(TradeHistory::unpack(&ix_accounts[13].data).unwrap().already_bought, 1);
    assert_eq!(Payout::unpack(&ix_accounts[18].data).unwrap().cash_in, 9_750_000);
    assert_eq!(Payout::unpack(&ix_accounts[21].data).unwrap().cash_in, 125_000);
    assert_eq!(Payout::unpack(&ix_accounts[24].data).unwrap().cash_in, 125_000);
    assert_eq!(pass_book_of(&ix_accounts[0]).supply, 1);
}

#[test]
fn spl_buy_needs_a_token_account_of_the_price_mint() {
    let p = parties();
    let mint = spl_mint();
    let mut accounts = spl_init_accounts(&p);
    init_pass_book(&id(), &mut accounts, init_args("Pass Name", true, 10_000_000), 0).unwrap().unwrap();
    let buyer = key(50);
    let mut ix_accounts = buy_accounts(&p, &accounts, &buyer);
    ix_accounts[4] = account(key(51), token_program(), false, 0, token_account_bytes(&key(62), &buyer));
    ix_accounts[9].data = metadata_bytes(&mint, &p.creator);
    let args = BuyPassArgs { market_fee_basis_point: 250, referral_share: 50, referral_kick_back_share: 0 };
    let r = buy(&id(), &mut ix_accounts, args, 0).unwrap();
    assert_eq!(r.err(), Some(ProgramError::Custom(NFTPassError::PriceTokenMismatch.code())));
}

/// The accounts of the pass book after a purchase, laid out as `init_accounts` lays them.
fn after_purchase(accounts: &[AccountInfo], ix_accounts: &[AccountInfo]) -> Vec<AccountInfo> {
    let mut next = accounts.to_vec();
    next[0] = ix_accounts[0].clone();
    next[1] = ix_accounts[1].clone();
    next[8] = ix_accounts[18].clone();
    next[11] = ix_accounts[21].clone();
    next[14] = ix_accounts[24].clone();
    next
}

#[test]
fn failure_multiple_buy() {
    let p = parties();
    let accounts = created(&p, true, 10_000_000);
    let buyer = key(50);
    let mut ix_accounts = buy_accounts(&p, &accounts, &buyer);
    let args = BuyPassArgs { market_fee_basis_point: 250, referral_share: 50, referral_kick_back_share: 0 };
    buy(&id(), &mut ix_accounts, args, 0).unwrap().unwrap();
    let before = ix_accounts.clone();
    let r = buy(&id(), &mut ix_accounts, args, 0).unwrap().err();
    assert_eq!(r, Some(ProgramError::Custom(NFTPassError::UserHasActiveMembership as u32)));
    assert_eq!(r, Some(ProgramError::Custom(43)));
    assert_eq!(ix_accounts, before);
    assert_eq!(pass_book_of(&ix_accounts[0]).supply, 1);
    assert_eq!(TradeHistory::unpack(&ix_accounts[13].data).unwrap().already_bought, 1);
}

#[test]
fn buy_stops_at_the_maximum_supply() {
    let p = parties();
    let mut accounts = init_accounts(&p);
    let mut args = init_args("Pass Name", true, 10_000_000);
    args.max_supply = Some(1);
    init_pass_book(&id(), &mut accounts, args, 0).unwrap().unwrap();
    let buy_args = BuyPassArgs { market_fee_basis_point: 250, referral_share: 50, referral_kick_back_share: 0 };
    let mut first = buy_accounts(&p, &accounts, &key(50));
    buy(&id(), &mut first, buy_args, 0).unwrap().unwrap();
    assert_eq!(pass_book_of(&first[0]).supply, 1);
    let accounts = after_purchase(&accounts, &first);
    let mut second = buy_accounts(&p, &accounts, &key(51));
    let before = second.clone();
    let r = buy(&id(), &mut second, buy_args, 0).unwrap();
    assert_eq!(r.err(), Some(ProgramError::Custom(NFTPassError::SupplyIsGtThanMaxSupply.code())));
    assert_eq!(second, before);
    assert_eq!(pass_book_of(&second[0]).supply, 1);
}

#[test]
fn a_second_buyer_buys_below_the_maximum_supply() {
    let p = parties();
    let accounts = created(&p, true, 10_000_000);
    let buy_args = BuyPassArgs { market_fee_basis_point: 250, referral_share: 50, referral_kick_back_share: 0 };
    let mut first = buy_accounts(&p, &accounts, &key(50));
    buy(&id(), &mut first, buy_args, 0).unwrap().unwrap();
    let accounts = after_purchase(&accounts, &first);
    let mut second = buy_accounts(&p, &accounts, &key(51));
    buy(&id(), &mut second, buy_args, 0).unwrap().unwrap();
    assert_eq!(pass_book_of(&second[0]).supply, 2);
    assert_eq!(Store::unpack(&second[1].data).unwrap().pass_count, 2);
    assert_eq!(Payout::unpack(&second[18].data).unwrap().cash_in, 19_500_000);
}

#[test]
fn a_failed_payment_changes_nothing() {
    let p = parties();
    let accounts = created(&p, true, 10_000_000);
    let passbook = pass_book_of(&accounts[0]);
    let mut ix_accounts = buy_accounts(&p, &accounts, &key(50));
    let mut payments: Vec<Payment> = Vec::new();
    // the token account of a native payout must be the payout account itself
    let before = ix_accounts.clone();
    let r = pay_account(100, &p.creator, &passbook, 18, 20, &mut ix_accounts, &mut payments);
    assert_eq!(r, Err(ProgramError::InvalidAccountData));
    assert_eq!(ix_accounts, before);
    assert!(payments.is_empty());
    // the payout must belong to the authority or be for the price mint
    let r = pay_account(100, &key(99), &passbook, 21, 22, &mut ix_accounts, &mut payments);
    assert!(r.is_ok());
    assert_eq!(payments.len(), 1);
    assert_eq!((payments[0].to, payments[0].amount), (22, 100));
}

#[test]
fn pass_types_need_their_own_setting() {
    assert_eq!(check_pass_type(PassType::Membership, true, false, false), Ok(()));
    assert_eq!(check_pass_type(PassType::Collection, false, true, false), Ok(()));
    assert_eq!(check_pass_type(PassType::Time, false, false, true), Ok(()));
    assert_eq!(check_pass_type(PassType::Membership, false, false, false), Err(ProgramError::InvalidArgument));
    assert_eq!(check_pass_type(PassType::Membership, true, true, false), Err(ProgramError::InvalidArgument));
    assert_eq!(check_pass_type(PassType::Collection, true, true, false), Err(ProgramError::InvalidArgument));
    assert_eq!(check_pass_type(PassType::Time, false, false, false), Err(ProgramError::InvalidArgument));
    assert_eq!(check_pass_type(PassType::Time, true, false, true), Err(ProgramError::InvalidArgument));
}

#[test]
fn token_accounts_need_well_formed_option_tags() {
    let owner = key(50);
    let good = account(key(47), token_program(), false, 0, token_account_bytes(&key(43), &owner));
    let t = assert_initialized(&good).unwrap();
    assert_eq!((t.mint, t.owner), (key(43), owner));
    for at in [72usize, 109, 129] {
        let mut bad = good.clone();
        bad.data[at] = 2;
        assert_eq!(assert_initialized(&bad).err(), Some(ProgramError::InvalidAccountData));
        let mut bad = good.clone();
        bad.data[at + 3] = 1;
        assert_eq!(assert_initialized(&bad).err(), Some(ProgramError::InvalidAccountData));
    }
    let mut frozen = good.clone();
    frozen.data[108] = 2;
    assert!(assert_initialized(&frozen).is_ok());
    frozen.data[108] = 3;
    assert_eq!(assert_initialized(&frozen).err(), Some(ProgramError::InvalidAccountData));
    let mut short = good.clone();
    short.data.pop();
    assert_eq!(assert_initialized(&short).err(), Some(ProgramError::InvalidAccountData));
}
