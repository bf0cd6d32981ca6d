use borsh::BorshSerialize;
use nft_pass_book::account_info::AccountInfo;
use nft_pass_book::error::ProgramError;
use nft_pass_book::master_pass::master_pass::MAX_MASTER_PASS_LEN;
use nft_pass_book::master_pass::{
    InitMasterPassParams, InitPassParams, MasterPass, MasterPassState, Pass, PassState, Period,
};
use nft_pass_book::pubkey::Pubkey;
use nft_pass_book::state::membership::MAX_MEMBERSHIP_LEN;
use nft_pass_book::state::payout::MAX_PAYOUT_LEN;
use nft_pass_book::state::trade_history::MAX_TRADE_HISTORY_LEN;
use nft_pass_book::state::{
    AccountType, Membership, MembershipState, Payout, StoreAuthority, TradeHistory, UseAuthority,
    MAX_PASS_LEN, STORE_AUTHORITY_LENGTH, USE_AUTHORITY_LENGTH,
};
use nft_pass_book::token::{assert_initialized, get_supply_off_master_edition, read_metadata};
use nft_pass_book::utils::{
    assert_rent_exempt, assert_uninitialized, cmp_pubkeys, error_increment, required_lamports,
};

fn key(n: u8) -> Pubkey {
    Pubkey([n; 32])
}

fn holding(data: Vec<u8>) -> AccountInfo {
    AccountInfo { key: key(1), owner: key(2), is_signer: false, is_writable: true, lamports: 10, data }
}

#[test]
fn payout_reads_back_and_cashes_in() {
    let mut p = Payout::default();
    p.init(key(1), key(2), key(3));
    p.add_cash_in(5).unwrap();
    p.add_cash_in(7).unwrap();
    assert_eq!(p.cash_in, 12);
    let mut data = vec![0u8; MAX_PAYOUT_LEN];
    Payout::pack(p.clone(), &mut data).unwrap();
    assert_eq!(Payout::unpack(&data).unwrap(), p);
    assert_eq!(data[0], 4);
    p.cash_in = u64::MAX;
    assert!(p.add_cash_in(1).is_err());
}

#[test]
fn trade_history_reads_back() {
    let mut t = TradeHistory::default();
    t.init(key(4), key(5));
    t.increment_already_bought().unwrap();
    let mut data = vec![0u8; MAX_TRADE_HISTORY_LEN];
    TradeHistory::pack(t.clone(), &mut data).unwrap();
    let back = TradeHistory::unpack(&data).unwrap();
    assert_eq!(back.already_bought, 1);
    assert_eq!(back.wallet, key(5));
    assert_eq!(back.account_type, AccountType::TradeHistory);
}

#[test]
fn membership_and_authorities_read_back() {
    let m = Membership {
        account_type: AccountType::Membership,
        store: key(1),
        owner: key(2),
        passbook: Some(key(3)),
        pass: None,
        expires_at: Some(99),
        state: MembershipState::Activated,
        activated_at: Some(9),
    };
    let mut data = vec![0u8; MAX_PASS_LEN];
    Membership::pack(m.clone(), &mut data).unwrap();
    assert_eq!(Membership::unpack(&data).unwrap(), m);
    assert!(MAX_MEMBERSHIP_LEN <= MAX_PASS_LEN);
    let u = UseAuthority { account_type: AccountType::UseAuthority, membership: key(4), allowed_uses: 3, bump: 254 };
    let mut data = vec![0u8; USE_AUTHORITY_LENGTH];
    UseAuthority::pack(u.clone(), &mut data).unwrap();
    assert_eq!(UseAuthority::unpack(&data).unwrap(), u);
    let s = StoreAuthority { account_type: AccountType::StoreAuthority, store: key(5), allowed_redemptions: 2, bump: 1 };
    let mut data = vec![0u8; STORE_AUTHORITY_LENGTH];
    StoreAuthority::pack(s.clone(), &mut data).unwrap();
    assert_eq!(StoreAuthority::unpack(&data).unwrap(), s);
}

#[test]
fn master_pass_and_pass_read_back() {
    let mut mp = MasterPass::default();
    mp.init(InitMasterPassParams {
        name: String::from("Pass Name"),
        description: String::from("Pack description"),
        uri: String::from("some link to storage"),
        authority: key(1),
        mint: key(2),
        mutable: true,
        period: Period::Yearly,
    });
    mp.puff_out_data_fields();
    let mut data = vec![0u8; MAX_MASTER_PASS_LEN];
    MasterPass::pack(mp.clone(), &mut data).unwrap();
    let back = MasterPass::unpack(&data).unwrap();
    assert_eq!(back, mp);
    assert_eq!(back.pass_state, MasterPassState::NotActivated);
    assert_eq!(back.period, Period::Yearly);
    let mut pass = Pass::default();
    pass.init(InitPassParams {
        name: String::from("Pass"),
        description: String::from("d"),
        uri: String::from("u"),
        pass_book: key(3),
        expires_at: Some(1),
    });
    assert_eq!(pass.pass_state, PassState::NotActivated);
    assert!(pass.assert_activated().is_err());
    let mut data = vec![0u8; MAX_PASS_LEN];
    Pass::pack(pass.clone(), &mut data).unwrap();
    assert_eq!(Pass::unpack(&data).unwrap(), pass);
}

#[test]
fn token_accounts_are_read_by_the_token_program() {
    let mut data = vec![0u8; 165];
    data[0..32].copy_from_slice(&[7u8; 32]);
    data[32..64].copy_from_slice(&[8u8; 32]);
    assert_eq!(assert_initialized(&holding(data.clone())).err(), Some(ProgramError::UninitializedAccount));
    data[108] = 1;
    let t = assert_initialized(&holding(data.clone())).unwrap();
    assert_eq!(t.mint, key(7));
    assert_eq!(t.owner, key(8));
    data[108] = 9;
    assert_eq!(assert_initialized(&holding(data)).err(), Some(ProgramError::InvalidAccountData));
    assert_eq!(assert_initialized(&holding(vec![1u8; 100])).err(), Some(ProgramError::InvalidAccountData));
}

#[test]
fn metadata_and_master_edition_are_read() {
    let m = mpl_token_metadata::accounts::Metadata {
        key: mpl_token_metadata::types::Key::MetadataV1,
        update_authority: solana_program::pubkey::Pubkey::new_from_array([1u8; 32]),
        mint: solana_program::pubkey::Pubkey::new_from_array([2u8; 32]),
        name: String::from("n"),
        symbol: String::from("s"),
        uri: String::from("u"),
        seller_fee_basis_points: 250,
        creators: Some(vec![
            mpl_token_metadata::types::Creator {
                address: solana_program::pubkey::Pubkey::new_from_array([3u8; 32]),
                verified: true,
                share: 60,
            },
            mpl_token_metadata::types::Creator {
                address: solana_program::pubkey::Pubkey::new_from_array([4u8; 32]),
                verified: false,
                share: 40,
            },
        ]),
        primary_sale_happened: true,
        is_mutable: false,
        edition_nonce: Some(1),
        token_standard: None,
        collection: None,
        uses: None,
        collection_details: None,
        programmable_config: None,
    };
    let read = read_metadata(&holding(m.try_to_vec().unwrap())).unwrap();
    assert_eq!(read.mint, key(2));
    assert_eq!(read.seller_fee_basis_points, 250);
    assert!(read.primary_sale_happened);
    let creators = read.creators.unwrap();
    assert_eq!(creators.len(), 2);
    assert_eq!(creators[0].address, key(3));
    assert_eq!(creators[1].share, 40);
    assert_eq!(read_metadata(&holding(vec![])).err(), Some(ProgramError::BorshIoError));
    let e = mpl_token_metadata::accounts::MasterEdition {
        key: mpl_token_metadata::types::Key::MasterEditionV2,
        supply: 41,
        max_supply: None,
    };
    assert_eq!(get_supply_off_master_edition(&holding(e.try_to_vec().unwrap())), Ok(41));
    assert_eq!(get_supply_off_master_edition(&holding(vec![6])), Err(ProgramError::BorshIoError));
}

#[test]
fn small_checks() {
    assert!(cmp_pubkeys(&key(1), &key(1)));
    assert!(!cmp_pubkeys(&key(1), &key(2)));
    let mut k = key(1);
    k.0[31] = 0;
    assert!(!cmp_pubkeys(&key(1), &k));
    assert_eq!(required_lamports(1_000, 300), 700);
    assert_eq!(required_lamports(1_000, 3_000), 0);
    assert_eq!(required_lamports(0, 0), 1);
    assert_eq!(assert_rent_exempt(11, &holding(vec![])), Err(ProgramError::AccountNotRentExempt));
    assert_eq!(assert_rent_exempt(10, &holding(vec![])), Ok(()));
    assert_eq!(error_increment(4), Ok(5));
    assert!(error_increment(u64::MAX).is_err());
}

#[test]
fn uninitialized_accounts_and_more_addresses() {
    let t = TradeHistory::default();
    assert_eq!(assert_uninitialized(&t), Ok(()));
    let mut t2 = TradeHistory::default();
    t2.init(key(1), key(2));
    assert_eq!(assert_uninitialized(&t2), Err(ProgramError::AccountAlreadyInitialized));
    let pid = nft_pass_book::master_pass::id();
    let spid = solana_program::pubkey::Pubkey::new_from_array(pid.0);
    let (k, b) = nft_pass_book::master_pass::find_master_pass_program_address(&pid, &key(3)).unwrap();
    let expected = solana_program::pubkey::Pubkey::find_program_address(&[b"pass", spid.as_ref(), &[3u8; 32]], &spid);
    assert_eq!((solana_program::pubkey::Pubkey::new_from_array(k.0), b), expected);
    let pid = nft_pass_book::pubkey::id();
    let spid = solana_program::pubkey::Pubkey::new_from_array(pid.0);
    let (k, _) = nft_pass_book::pda::find_store_authority_program_address(&pid, &key(4), &key(5)).unwrap();
    let expected = solana_program::pubkey::Pubkey::find_program_address(
        &[b"passbook", spid.as_ref(), &[4u8; 32], &[5u8; 32], b"admin"],
        &spid,
    );
    assert_eq!(solana_program::pubkey::Pubkey::new_from_array(k.0), expected.0);
}
